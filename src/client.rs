//! The client: composes the endpoints, the command checks and the response
//! decoders around an injected HTTP transport. Each operation makes at most
//! one exchange; a command the device does not support makes none.
use vstd::prelude::*;

use crate::endpoints::{
    DeviceControlEndpoint, DeviceStateEndpoint, DevicesEndpoint, Method, JSON_CONTENT_TYPE,
};
use crate::json::{
    decode_devices_response, decode_state_response, decode_success_response,
    devices_response_of, state_response_of, success_response_of, DecodeError, DecodeFailure,
    JsonValue,
};
use crate::models::{
    build_command, build_outcome, Color, ControlCmd, ControlError, Device,
    DeviceState, Devices, PowerState,
};

verus! {

/// Name of the header that carries the API key.
pub const API_KEY_HEADER: &'static str = "Govee-API-Key";

/// One request for the transport. `path` is relative to the API's base URL.
#[derive(Debug)]
pub struct HttpRequest {
    pub method: Method,
    pub path: String,
    pub query: Vec<(String, String)>,
    pub headers: Vec<(String, String)>,
    pub body: Option<String>,
}

/// One response from the transport; `body` holds the parser's message when
/// the body is not JSON.
#[derive(Debug)]
pub struct HttpResponse {
    pub status: u16,
    pub body: Result<JsonValue, String>,
}

/// A failure of the transport itself: nothing came back.
#[derive(Debug, Clone, PartialEq, Eq)]
pub struct TransportError {
    pub message: String,
}

/// The HTTP exchange primitive the client runs on.
pub trait Transport {
    fn exchange(&self, request: &HttpRequest) -> Result<HttpResponse, TransportError>;
}

/// Errors of the client's operations.
#[derive(Debug)]
pub enum GoveeError {
    /// Refused locally, before any exchange.
    Validation(ControlError),
    /// The transport failed.
    Transport(TransportError),
    /// A status outside 200 to 299.
    Http { status: u16 },
    /// The body could not be decoded into the expected response.
    Decode(DecodeError),
    /// A well-formed devices response that carried no devices.
    NoDevicesReturned,
}

/// Whether an HTTP status means success.
pub open spec fn is_success(status: u16) -> bool {
    200 <= status <= 299
}

/// The JSON body of an exchange that came back with a success status.
pub open spec fn json_body(outcome: Result<HttpResponse, TransportError>) -> Option<JsonValue> {
    match outcome {
        Ok(resp) => if is_success(resp.status) && resp.body is Ok {
            Some(resp.body->Ok_0)
        } else {
            None
        },
        Err(_) => None,
    }
}

/// The error owed for an exchange before its body is decoded: the transport's
/// failure, a status outside 200 to 299, or a body that is not JSON (reported
/// against `target`).
pub open spec fn exchange_error(outcome: Result<HttpResponse, TransportError>, target: Seq<char>, e: GoveeError) -> bool {
    match outcome {
        Err(t) => e == GoveeError::Transport(t),
        Ok(resp) => if !is_success(resp.status) {
            e == GoveeError::Http { status: resp.status }
        } else {
            match resp.body {
                Err(m) => decode_error(e, target, DecodeFailure::NotJson(m)),
                Ok(_) => false,
            }
        },
    }
}

/// Whether `e` is a decode error into `target` with `failure`.
pub open spec fn decode_error(e: GoveeError, target: Seq<char>, failure: DecodeFailure) -> bool {
    match e {
        GoveeError::Decode(d) => d.target@ == target && d.failure == failure,
        _ => false,
    }
}

/// Splits an exchange's outcome into its JSON body or the error it owes.
fn take_body(outcome: Result<HttpResponse, TransportError>, target: &'static str) -> (r: Result<JsonValue, GoveeError>)
    ensures
        json_body(outcome) is Some ==> r is Ok && r->Ok_0 == json_body(outcome)->Some_0,
        json_body(outcome) is None ==> r is Err && exchange_error(outcome, target@, r->Err_0),
{
    match outcome {
        Err(t) => Err(GoveeError::Transport(t)),
        Ok(resp) => {
            if resp.status < 200 || resp.status > 299 {
                Err(GoveeError::Http { status: resp.status })
            } else {
                match resp.body {
                    Ok(v) => Ok(v),
                    Err(m) => Err(GoveeError::Decode(DecodeError { target, failure: DecodeFailure::NotJson(m) })),
                }
            }
        },
    }
}

/// Reads the outcome of a devices-list exchange.
pub fn read_devices(outcome: Result<HttpResponse, TransportError>) -> (r: Result<Devices, GoveeError>)
    ensures
        json_body(outcome) is None ==> r is Err && exchange_error(outcome, "Devices"@, r->Err_0),
        json_body(outcome) is Some && devices_response_of(json_body(outcome)->Some_0) is None
            ==> r is Err && decode_error(r->Err_0, "Devices"@, DecodeFailure::Shape),
        json_body(outcome) is Some && devices_response_of(json_body(outcome)->Some_0) is Some
            && devices_response_of(json_body(outcome)->Some_0)->Some_0 is None ==> r is Err
            && r->Err_0 is NoDevicesReturned,
        json_body(outcome) is Some && devices_response_of(json_body(outcome)->Some_0) is Some
            && devices_response_of(json_body(outcome)->Some_0)->Some_0 is Some ==> r is Ok && r->Ok_0.devices@.map_values(|d: Device| d@) == devices_response_of(
            json_body(outcome)->Some_0,
        )->Some_0->Some_0,
{
    let v = match take_body(outcome, "Devices") {
        Ok(v) => v,
        Err(e) => {
            return Err(e);
        },
    };
    match decode_devices_response(&v) {
        Ok(wrapper) => match wrapper.data {
            Some(devices) => Ok(devices),
            None => Err(GoveeError::NoDevicesReturned),
        },
        Err(e) => Err(GoveeError::Decode(e)),
    }
}

/// Reads the outcome of a device-state exchange.
pub fn read_state(outcome: Result<HttpResponse, TransportError>) -> (r: Result<DeviceState, GoveeError>)
    ensures
        json_body(outcome) is None ==> r is Err && exchange_error(outcome, "DeviceState"@, r->Err_0),
        json_body(outcome) is Some && state_response_of(json_body(outcome)->Some_0) is None ==> r is Err
            && decode_error(r->Err_0, "DeviceState"@, DecodeFailure::Shape),
        json_body(outcome) is Some && state_response_of(json_body(outcome)->Some_0) is Some ==> r is Ok,
        r is Ok ==> r->Ok_0.device@ == state_response_of(json_body(outcome)->Some_0)->Some_0.device,
        r is Ok ==> r->Ok_0.model@ == state_response_of(json_body(outcome)->Some_0)->Some_0.model,
        r is Ok ==> r->Ok_0.properties@ == state_response_of(
            json_body(outcome)->Some_0,
        )->Some_0.properties,
{
    let v = match take_body(outcome, "DeviceState") {
        Ok(v) => v,
        Err(e) => {
            return Err(e);
        },
    };
    match decode_state_response(&v) {
        Ok(wrapper) => Ok(wrapper.data),
        Err(e) => Err(GoveeError::Decode(e)),
    }
}

/// Reads the outcome of a control exchange: its acknowledgement.
pub fn read_success(outcome: Result<HttpResponse, TransportError>) -> (r: Result<(), GoveeError>)
    ensures
        json_body(outcome) is None ==> r is Err && exchange_error(outcome, "SuccessResponse"@, r->Err_0),
        json_body(outcome) is Some ==> (r is Ok <==> success_response_of(json_body(outcome)->Some_0)),
        json_body(outcome) is Some && r is Err ==> decode_error(
            r->Err_0,
            "SuccessResponse"@,
            DecodeFailure::Shape,
        ),
{
    let v = match take_body(outcome, "SuccessResponse") {
        Ok(v) => v,
        Err(e) => {
            return Err(e);
        },
    };
    match decode_success_response(&v) {
        Ok(_) => Ok(()),
        Err(e) => Err(GoveeError::Decode(e)),
    }
}

/// A client for the API over the transport `T`.
pub struct GoveeClient<T: Transport> {
    transport: T,
    api_key: String,
}

impl<T: Transport> GoveeClient<T> {
    pub closed spec fn spec_api_key(&self) -> Seq<char> {
        self.api_key@
    }

    pub closed spec fn spec_transport(&self) -> T {
        self.transport
    }

    /// A client that authenticates with `api_key`.
    pub fn new(transport: T, api_key: &str) -> (r: Self)
        ensures
            r.spec_api_key() == api_key@,
    {
        GoveeClient { transport, api_key: api_key.to_owned() }
    }

    /// The transport this client runs on.
    pub fn transport(&self) -> (r: &T)
        ensures
            *r == self.spec_transport(),
    {
        &self.transport
    }

    /// The headers of every request: the API key, then the content type when
    /// there is a body.
    fn headers(&self, with_body: bool) -> (r: Vec<(String, String)>)
        ensures
            r@.len() == if with_body { 2int } else { 1int },
            r@[0].0@ == API_KEY_HEADER@ && r@[0].1@ == self.spec_api_key(),
            with_body ==> r@[1].0@ == "Content-Type"@ && r@[1].1@ == JSON_CONTENT_TYPE@,
    {
        let mut headers: Vec<(String, String)> = Vec::new();
        headers.push((API_KEY_HEADER.to_owned(), self.api_key.clone()));
        if with_body {
            headers.push(("Content-Type".to_owned(), JSON_CONTENT_TYPE.to_owned()));
        }
        headers
    }

    /// The request that lists the account's devices.
    pub fn devices_request(&self) -> (r: HttpRequest)
        ensures
            r.method == Method::Get,
            r.path@ == "v1/devices"@,
            r.query@.len() == 0,
            r.headers@.len() == 1,
            r.headers@[0].0@ == API_KEY_HEADER@ && r.headers@[0].1@ == self.spec_api_key(),
            r.body is None,
    {
        let endpoint = DevicesEndpoint::new();
        HttpRequest {
            method: endpoint.method(),
            path: endpoint.endpoint().to_owned(),
            query: Vec::new(),
            headers: self.headers(false),
            body: None,
        }
    }

    /// The request that reads the state of `device`.
    pub fn state_request(&self, device: &Device) -> (r: HttpRequest)
        ensures
            r.method == Method::Get,
            r.path@ == "v1/devices/state"@,
            r.query@.len() == 2,
            r.query@[0].0@ == "device"@ && r.query@[0].1@ == device.device@,
            r.query@[1].0@ == "model"@ && r.query@[1].1@ == device.model@,
            r.headers@.len() == 1,
            r.headers@[0].0@ == API_KEY_HEADER@ && r.headers@[0].1@ == self.spec_api_key(),
            r.body is None,
    {
        let built = DeviceStateEndpoint::builder().device(device.device.as_str()).model(
            device.model.as_str(),
        ).build();
        match built {
            Ok(endpoint) => HttpRequest {
                method: endpoint.method(),
                path: endpoint.endpoint().to_owned(),
                query: endpoint.parameters(),
                headers: self.headers(false),
                body: None,
            },
            Err(_) => {
                // both fields were set just above
                assert(false);
                HttpRequest {
                    method: Method::Get,
                    path: String::new(),
                    query: Vec::new(),
                    headers: Vec::new(),
                    body: None,
                }
            },
        }
    }

    /// The request that sends `cmd` to `device`; refused, before anything is
    /// sent, as [build_command] refuses it.
    pub fn control_request(&self, device: &Device, cmd: ControlCmd) -> (r: Result<HttpRequest, ControlError>)
        ensures
            build_outcome(*device, cmd) is Err ==> r is Err && r->Err_0 == build_outcome(
                *device,
                cmd,
            )->Err_0,
            build_outcome(*device, cmd) is Ok ==> r is Ok,
            r is Ok ==> r->Ok_0.method == Method::Put && r->Ok_0.path@ == "v1/devices/control"@,
            r is Ok ==> r->Ok_0.body is Some && r->Ok_0.body->Some_0@ == crate::models::request_text(
                device.device@,
                device.model@,
                cmd,
            ),
            r is Ok ==> r->Ok_0.query@.len() == 0,
            r is Ok ==> r->Ok_0.headers@.len() == 2,
            r is Ok ==> r->Ok_0.headers@[0].0@ == API_KEY_HEADER@ && r->Ok_0.headers@[0].1@
                == self.spec_api_key(),
            r is Ok ==> r->Ok_0.headers@[1].0@ == "Content-Type"@ && r->Ok_0.headers@[1].1@
                == JSON_CONTENT_TYPE@,
    {
        let request = match build_command(device, cmd) {
            Ok(request) => request,
            Err(e) => {
                return Err(e);
            },
        };
        let endpoint = DeviceControlEndpoint::from_request(request);
        let body = match endpoint.body() {
            Some((_, text)) => text,
            None => String::new(),
        };
        Ok(
            HttpRequest {
                method: endpoint.method(),
                path: endpoint.endpoint().to_owned(),
                query: Vec::new(),
                headers: self.headers(true),
                body: Some(body),
            },
        )
    }

    /// Gets the devices of the account.
    pub fn devices(&self) -> (r: Result<Devices, GoveeError>)
        ensures
            r is Err ==> !(r->Err_0 is Validation),
    {
        let request = self.devices_request();
        read_devices(self.transport.exchange(&request))
    }

    /// Gets the state of `device`.
    pub fn state(&self, device: &Device) -> (r: Result<DeviceState, GoveeError>)
        ensures
            r is Err ==> !(r->Err_0 is Validation),
    {
        let request = self.state_request(device);
        read_state(self.transport.exchange(&request))
    }

    /// Sends `cmd` to `device`. A command the device does not support, or
    /// whose payload is out of range, is refused without an exchange.
    pub fn control(&self, device: &Device, cmd: ControlCmd) -> (r: Result<(), GoveeError>)
        ensures
            build_outcome(*device, cmd) is Err ==> r is Err && r->Err_0 == GoveeError::Validation(
                build_outcome(*device, cmd)->Err_0,
            ),
            r is Err && r->Err_0 is Validation ==> build_outcome(*device, cmd) is Err,
    {
        let request = match self.control_request(device, cmd) {
            Ok(request) => request,
            Err(e) => {
                return Err(GoveeError::Validation(e));
            },
        };
        read_success(self.transport.exchange(&request))
    }

    /// Sets the power state of `device`.
    pub fn turn(&self, device: &Device, state: PowerState) -> (r: Result<(), GoveeError>)
        ensures
            build_outcome(*device, ControlCmd::Turn(state)) is Err ==> r is Err && r->Err_0 == GoveeError::Validation(
                build_outcome(*device, ControlCmd::Turn(state))->Err_0,
            ),
            r is Err && r->Err_0 is Validation ==> build_outcome(*device, ControlCmd::Turn(state)) is Err,
    {
        self.control(device, ControlCmd::Turn(state))
    }

    /// Sets the brightness of `device`.
    pub fn brightness(&self, device: &Device, brightness: u64) -> (r: Result<(), GoveeError>)
        ensures
            build_outcome(*device, ControlCmd::Brightness(brightness)) is Err ==> r is Err && r->Err_0 == GoveeError::Validation(
                build_outcome(*device, ControlCmd::Brightness(brightness))->Err_0,
            ),
            r is Err && r->Err_0 is Validation ==> build_outcome(*device, ControlCmd::Brightness(brightness)) is Err,
    {
        self.control(device, ControlCmd::Brightness(brightness))
    }

    /// Sets the color of `device`.
    pub fn color(&self, device: &Device, color: Color) -> (r: Result<(), GoveeError>)
        ensures
            build_outcome(*device, ControlCmd::Color(color)) is Err ==> r is Err && r->Err_0 == GoveeError::Validation(
                build_outcome(*device, ControlCmd::Color(color))->Err_0,
            ),
            r is Err && r->Err_0 is Validation ==> build_outcome(*device, ControlCmd::Color(color)) is Err,
    {
        self.control(device, ControlCmd::Color(color))
    }

    /// Sets the color temperature of `device`.
    pub fn color_temp(&self, device: &Device, color_temp: u64) -> (r: Result<(), GoveeError>)
        ensures
            build_outcome(*device, ControlCmd::ColorTem(color_temp)) is Err ==> r is Err && r->Err_0 == GoveeError::Validation(
                build_outcome(*device, ControlCmd::ColorTem(color_temp))->Err_0,
            ),
            r is Err && r->Err_0 is Validation ==> build_outcome(*device, ControlCmd::ColorTem(color_temp)) is Err,
    {
        self.control(device, ControlCmd::ColorTem(color_temp))
    }
}

} // verus!
