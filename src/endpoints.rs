//! The three API endpoints: method, path, query parameters and body of each.
use vstd::prelude::*;

use crate::models::{request_text, ControlCmd, ControlRequest};

verus! {

/// HTTP method of an endpoint.
#[derive(Debug, Clone, Copy, PartialEq, Eq, Structural)]
pub enum Method {
    Get,
    Put,
}

/// Content type of every request body.
pub const JSON_CONTENT_TYPE: &'static str = "application/json";

/// A builder field that was never set.
#[derive(Debug, Clone, Copy, PartialEq, Eq)]
pub struct UninitializedFieldError {
    pub field: &'static str,
}

/// An endpoint for getting the list of devices.
#[derive(Debug, Clone, Copy, Default)]
pub struct DevicesEndpoint;

impl DevicesEndpoint {
    pub fn new() -> Self {
        DevicesEndpoint
    }

    pub fn method(&self) -> (r: Method)
        ensures
            r == Method::Get,
    {
        Method::Get
    }

    pub fn endpoint(&self) -> (r: &'static str)
        ensures
            r@ == "v1/devices"@,
    {
        "v1/devices"
    }
}

/// An endpoint for controlling a particular device.
#[derive(Debug, Clone)]
pub struct DeviceControlEndpoint {
    device: String,
    model: String,
    control_cmd: ControlCmd,
}

impl DeviceControlEndpoint {
    pub closed spec fn spec_device(&self) -> Seq<char> {
        self.device@
    }

    pub closed spec fn spec_model(&self) -> Seq<char> {
        self.model@
    }

    pub closed spec fn spec_cmd(&self) -> ControlCmd {
        self.control_cmd
    }

    pub fn builder() -> (r: DeviceControlEndpointBuilder)
        ensures
            r.device is None && r.model is None && r.control_cmd is None,
    {
        DeviceControlEndpointBuilder { device: None, model: None, control_cmd: None }
    }

    /// The endpoint that carries a request already checked by
    /// [crate::models::build_command].
    pub fn from_request(request: ControlRequest) -> (r: DeviceControlEndpoint)
        ensures
            r.spec_device() == request.device@,
            r.spec_model() == request.model@,
            r.spec_cmd() == request.cmd,
    {
        DeviceControlEndpoint { device: request.device, model: request.model, control_cmd: request.cmd }
    }

    pub fn method(&self) -> (r: Method)
        ensures
            r == Method::Put,
    {
        Method::Put
    }

    pub fn endpoint(&self) -> (r: &'static str)
        ensures
            r@ == "v1/devices/control"@,
    {
        "v1/devices/control"
    }

    /// The content type and the JSON text of the request body.
    pub fn body(&self) -> (r: Option<(&'static str, String)>)
        ensures
            r is Some,
            r->Some_0.0@ == JSON_CONTENT_TYPE@,
            r->Some_0.1@ == request_text(self.spec_device(), self.spec_model(), self.spec_cmd()),
    {
        let request = ControlRequest {
            device: self.device.clone(),
            model: self.model.clone(),
            cmd: self.control_cmd,
        };
        Some((JSON_CONTENT_TYPE, request.to_json()))
    }
}

/// Builder of [DeviceControlEndpoint]; every field must be set.
#[derive(Debug, Clone, Default)]
pub struct DeviceControlEndpointBuilder {
    pub device: Option<String>,
    pub model: Option<String>,
    pub control_cmd: Option<ControlCmd>,
}

impl DeviceControlEndpointBuilder {
    pub fn device(self, value: &str) -> (r: Self)
        ensures
            r.device is Some && r.device->Some_0@ == value@,
            r.model == self.model && r.control_cmd == self.control_cmd,
    {
        DeviceControlEndpointBuilder { device: Some(value.to_owned()), ..self }
    }

    pub fn model(self, value: &str) -> (r: Self)
        ensures
            r.model is Some && r.model->Some_0@ == value@,
            r.device == self.device && r.control_cmd == self.control_cmd,
    {
        DeviceControlEndpointBuilder { model: Some(value.to_owned()), ..self }
    }

    pub fn control_cmd(self, value: ControlCmd) -> (r: Self)
        ensures
            r.control_cmd == Some(value),
            r.device == self.device && r.model == self.model,
    {
        DeviceControlEndpointBuilder { control_cmd: Some(value), ..self }
    }

    /// The endpoint; refused, naming the first missing field, unless every
    /// field was set.
    pub fn build(self) -> (r: Result<DeviceControlEndpoint, UninitializedFieldError>)
        ensures
            r is Ok <==> self.device is Some && self.model is Some && self.control_cmd is Some,
            r is Ok ==> r->Ok_0.spec_device() == self.device->Some_0@,
            r is Ok ==> r->Ok_0.spec_model() == self.model->Some_0@,
            r is Ok ==> r->Ok_0.spec_cmd() == self.control_cmd->Some_0,
            self.device is None ==> r is Err && r->Err_0.field@ == "device"@,
            self.device is Some && self.model is None ==> r is Err && r->Err_0.field@ == "model"@,
            self.device is Some && self.model is Some && self.control_cmd is None ==> r is Err
                && r->Err_0.field@ == "control_cmd"@,
    {
        match (self.device, self.model, self.control_cmd) {
            (Some(device), Some(model), Some(control_cmd)) => Ok(
                DeviceControlEndpoint { device, model, control_cmd },
            ),
            (None, _, _) => Err(UninitializedFieldError { field: "device" }),
            (Some(_), None, _) => Err(UninitializedFieldError { field: "model" }),
            (Some(_), Some(_), None) => Err(UninitializedFieldError { field: "control_cmd" }),
        }
    }
}

/// An endpoint for getting the state of a particular device.
#[derive(Debug, Clone)]
pub struct DeviceStateEndpoint {
    device: String,
    model: String,
}

impl DeviceStateEndpoint {
    pub closed spec fn spec_device(&self) -> Seq<char> {
        self.device@
    }

    pub closed spec fn spec_model(&self) -> Seq<char> {
        self.model@
    }

    pub fn builder() -> (r: DeviceStateEndpointBuilder)
        ensures
            r.device is None && r.model is None,
    {
        DeviceStateEndpointBuilder { device: None, model: None }
    }

    pub fn method(&self) -> (r: Method)
        ensures
            r == Method::Get,
    {
        Method::Get
    }

    pub fn endpoint(&self) -> (r: &'static str)
        ensures
            r@ == "v1/devices/state"@,
    {
        "v1/devices/state"
    }

    /// The query parameters: `device`, then `model`.
    pub fn parameters(&self) -> (r: Vec<(String, String)>)
        ensures
            r@.len() == 2,
            r@[0].0@ == "device"@ && r@[0].1@ == self.spec_device(),
            r@[1].0@ == "model"@ && r@[1].1@ == self.spec_model(),
    {
        let mut params: Vec<(String, String)> = Vec::new();
        params.push(("device".to_owned(), self.device.clone()));
        params.push(("model".to_owned(), self.model.clone()));
        params
    }
}

/// Builder of [DeviceStateEndpoint]; both fields must be set.
#[derive(Debug, Clone, Default)]
pub struct DeviceStateEndpointBuilder {
    pub device: Option<String>,
    pub model: Option<String>,
}

impl DeviceStateEndpointBuilder {
    pub fn device(self, value: &str) -> (r: Self)
        ensures
            r.device is Some && r.device->Some_0@ == value@,
            r.model == self.model,
    {
        DeviceStateEndpointBuilder { device: Some(value.to_owned()), ..self }
    }

    pub fn model(self, value: &str) -> (r: Self)
        ensures
            r.model is Some && r.model->Some_0@ == value@,
            r.device == self.device,
    {
        DeviceStateEndpointBuilder { model: Some(value.to_owned()), ..self }
    }

    /// The endpoint; refused, naming the first missing field, unless both
    /// fields were set.
    pub fn build(self) -> (r: Result<DeviceStateEndpoint, UninitializedFieldError>)
        ensures
            r is Ok <==> self.device is Some && self.model is Some,
            r is Ok ==> r->Ok_0.spec_device() == self.device->Some_0@,
            r is Ok ==> r->Ok_0.spec_model() == self.model->Some_0@,
            self.device is None ==> r is Err && r->Err_0.field@ == "device"@,
            self.device is Some && self.model is None ==> r is Err && r->Err_0.field@ == "model"@,
    {
        match (self.device, self.model) {
            (Some(device), Some(model)) => Ok(DeviceStateEndpoint { device, model }),
            (None, _) => Err(UninitializedFieldError { field: "device" }),
            (Some(_), None) => Err(UninitializedFieldError { field: "model" }),
        }
    }
}

} // verus!
