use std::cell::Cell;

use govee_rs::client::{
    GoveeError, GoveeClient, HttpRequest, HttpResponse, Transport, TransportError,
};
use govee_rs::endpoints::Method;
use govee_rs::json::{DecodeFailure, JsonValue};
use govee_rs::models::{
    Color, ControlCommand, ControlError, Device, DeviceProperty, PowerState,
};

fn to_tree(v: &serde_json::Value) -> JsonValue {
    match v {
        serde_json::Value::Null => JsonValue::Null,
        serde_json::Value::Bool(b) => JsonValue::Bool(*b),
        serde_json::Value::Number(n) => match n.as_u64() {
            Some(u) => JsonValue::Number(u),
            None => JsonValue::OtherNumber(n.to_string()),
        },
        serde_json::Value::String(s) => JsonValue::Str(s.clone()),
        serde_json::Value::Array(a) => JsonValue::Array(a.iter().map(to_tree).collect()),
        serde_json::Value::Object(m) => {
            JsonValue::Object(m.iter().map(|(k, v)| (k.clone(), to_tree(v))).collect())
        }
    }
}

/// A transport that checks the one request it expects and answers it.
struct Mock {
    method: Method,
    path: &'static str,
    query: Vec<(&'static str, String)>,
    body: Option<serde_json::Value>,
    status: u16,
    response: &'static str,
    calls: Cell<usize>,
}

impl Mock {
    fn new(method: Method, path: &'static str, status: u16, response: &'static str) -> Mock {
        Mock {
            method,
            path,
            query: Vec::new(),
            body: None,
            status,
            response,
            calls: Cell::new(0),
        }
    }
}

impl Transport for Mock {
    fn exchange(&self, request: &HttpRequest) -> Result<HttpResponse, TransportError> {
        self.calls.set(self.calls.get() + 1);
        assert_eq!(request.method, self.method);
        assert_eq!(request.path, self.path);
        assert_eq!(request.headers[0], ("Govee-API-Key".to_string(), "foobarbaz".to_string()));
        let query: Vec<(String, String)> = self
            .query
            .iter()
            .map(|(k, v)| (k.to_string(), v.clone()))
            .collect();
        assert_eq!(request.query, query);
        match &self.body {
            Some(expected) => {
                assert!(request
                    .headers
                    .contains(&("Content-Type".to_string(), "application/json".to_string())));
                let sent: serde_json::Value =
                    serde_json::from_str(request.body.as_ref().unwrap()).unwrap();
                assert_eq!(&sent, expected);
            }
            None => assert!(request.body.is_none()),
        }
        let body = serde_json::from_str::<serde_json::Value>(self.response)
            .map(|v| to_tree(&v))
            .map_err(|e| e.to_string());
        Ok(HttpResponse {
            status: self.status,
            body,
        })
    }
}

/// A transport that must never be reached.
struct Unreachable;

impl Transport for Unreachable {
    fn exchange(&self, _request: &HttpRequest) -> Result<HttpResponse, TransportError> {
        panic!("no exchange was expected")
    }
}

struct Failing;

impl Transport for Failing {
    fn exchange(&self, _request: &HttpRequest) -> Result<HttpResponse, TransportError> {
        Err(TransportError {
            message: "connection refused".to_string(),
        })
    }
}

fn fake_device() -> Device {
    Device {
        device: "34:20:03:15:82:ae".to_string(),
        model: "H6089".to_string(),
        name: "fake device".to_string(),
        controllable: true,
        retrievable: true,
        supported_commands: vec![
            ControlCommand::Turn,
            ControlCommand::Brightness,
            ControlCommand::Color,
            ControlCommand::ColorTem,
        ],
    }
}

const ACK: &str = r#"
    {
        "data": {},
        "message": "Success",
        "code": 201
    }"#;

fn control_mock(body: &str) -> Mock {
    let mut mock = Mock::new(Method::Put, "v1/devices/control", 201, ACK);
    mock.body = Some(serde_json::from_str(body).unwrap());
    mock
}

#[test]
fn devices() {
    let fake_response = r#"
        {
            "data": {
                "devices": [
                    {
                        "device": "99:A5:A4:C1:38:29:DA:7B",
                        "model": "H6159",
                        "deviceName": "test light",
                        "controllable": true,
                        "retrievable": true,
                        "supportCmds": ["turn", "brightness", "color", "colorTem"]
                    },
                    {
                        "device": "C6:EA:B8:56:C8:C6:89:BE",
                        "model": "H6188",
                        "deviceName": "H6188_89BE",
                        "controllable": true,
                        "retrievable": true,
                        "supportCmds": ["turn", "brightness", "color", "colorTem"]
                    },
                    {
                        "device": "34:20:03:2e:30:2b",
                        "model": "H5081",
                        "deviceName": "Smart Plug",
                        "controllable": true,
                        "retrievable": true,
                        "supportCmds": ["turn"]
                    }
                ]
            },
            "message": "Success",
            "code": 200
        }"#;
    let client = GoveeClient::new(Mock::new(Method::Get, "v1/devices", 200, fake_response), "foobarbaz");

    let devices = client.devices().unwrap();

    assert_eq!(devices.len(), 3);

    let expected = Device {
        device: "99:A5:A4:C1:38:29:DA:7B".into(),
        model: "H6159".into(),
        name: "test light".into(),
        controllable: true,
        retrievable: true,
        supported_commands: vec![
            ControlCommand::Turn,
            ControlCommand::Brightness,
            ControlCommand::Color,
            ControlCommand::ColorTem,
        ],
    };

    assert_eq!(devices[0], expected);
    assert_eq!(devices[1].model, "H6188");
    assert_eq!(devices[2].name, "Smart Plug");
    assert_eq!(devices[2].supported_commands, vec![ControlCommand::Turn]);
    assert_eq!(client.transport().calls.get(), 1);
}

#[test]
fn state() {
    let device = fake_device();
    let fake_response = r#"
        {
            "data": {
                "device": "34:20:03:15:82:ae",
                "model": "H6089",
                "properties": [
                    {"online": false},
                    {"powerState": "off"},
                    {"brightness": 82},
                    {
                        "color": {"r": 11, "g": 22, "b": 33 }
                    }
                ]
            },
            "message": "Success",
            "code": 201
        }"#;
    let mut mock = Mock::new(Method::Get, "v1/devices/state", 200, fake_response);
    mock.query = vec![("device", device.device.clone()), ("model", device.model.clone())];
    let client = GoveeClient::new(mock, "foobarbaz");

    let state = client.state(&device).unwrap();
    assert_eq!(client.transport().calls.get(), 1);

    assert_eq!(state.device, "34:20:03:15:82:ae");
    assert_eq!(state.model, "H6089");
    assert_eq!(
        state.properties,
        vec![
            DeviceProperty::Online { online: false },
            DeviceProperty::PowerState {
                power_state: PowerState::Off
            },
            DeviceProperty::Brightness { brightness: 82 },
            DeviceProperty::Color {
                color: Color { r: 11, g: 22, b: 33 }
            },
        ]
    );
}

#[test]
fn turn() {
    let device = fake_device();
    let client = GoveeClient::new(
        control_mock(
            r#"{"device":"34:20:03:15:82:ae","model":"H6089","cmd":{"name":"turn","value":"on"}}"#,
        ),
        "foobarbaz",
    );
    client.turn(&device, PowerState::On).unwrap();
    assert_eq!(client.transport().calls.get(), 1);
}

#[test]
fn brightness() {
    let device = fake_device();
    let client = GoveeClient::new(
        control_mock(
            r#"{"device":"34:20:03:15:82:ae","model":"H6089","cmd":{"name":"brightness","value":25}}"#,
        ),
        "foobarbaz",
    );
    client.brightness(&device, 25).unwrap();
    assert_eq!(client.transport().calls.get(), 1);
}

#[test]
fn color() {
    let device = fake_device();
    let color = Color { r: 0, g: 195, b: 255 };
    let client = GoveeClient::new(
        control_mock(
            r#"{"device":"34:20:03:15:82:ae","model":"H6089","cmd":{"name":"color","value":{"r":0,"g":195,"b":255}}}"#,
        ),
        "foobarbaz",
    );
    client.color(&device, color).unwrap();
    assert_eq!(client.transport().calls.get(), 1);
}

#[test]
fn color_temp() {
    // 1000 lies below the accepted 2000 to 9000: refused before any exchange.
    let device = fake_device();
    let client = GoveeClient::new(Unreachable, "foobarbaz");
    match client.color_temp(&device, 1000) {
        Err(GoveeError::Validation(ControlError::ColorTemperatureOutOfRange { value: 1000 })) => {}
        other => panic!("unexpected {:?}", other),
    }
}

#[test]
fn color_temp_in_range() {
    let device = fake_device();
    let client = GoveeClient::new(
        control_mock(
            r#"{"device":"34:20:03:15:82:ae","model":"H6089","cmd":{"name":"colorTem","value":5000}}"#,
        ),
        "foobarbaz",
    );
    client.color_temp(&device, 5000).unwrap();
    assert_eq!(client.transport().calls.get(), 1);
}

#[test]
fn unsupported_command_makes_no_exchange() {
    let mut device = fake_device();
    device.supported_commands = vec![ControlCommand::Turn];
    let client = GoveeClient::new(Unreachable, "foobarbaz");
    match client.brightness(&device, 50) {
        Err(GoveeError::Validation(ControlError::Unsupported { command, device: d })) => {
            assert_eq!(command, ControlCommand::Brightness);
            assert_eq!(d, "34:20:03:15:82:ae");
        }
        other => panic!("unexpected {:?}", other),
    }
    assert!(matches!(
        client.color(&device, Color { r: 1, g: 1, b: 1 }),
        Err(GoveeError::Validation(ControlError::Unsupported { .. }))
    ));
}

#[test]
fn http_status_and_transport_errors() {
    let device = fake_device();
    let client = GoveeClient::new(Mock::new(Method::Get, "v1/devices", 401, "{}"), "foobarbaz");
    assert!(matches!(client.devices(), Err(GoveeError::Http { status: 401 })));

    let client = GoveeClient::new(Failing, "foobarbaz");
    match client.turn(&device, PowerState::Off) {
        Err(GoveeError::Transport(e)) => assert_eq!(e.message, "connection refused"),
        other => panic!("unexpected {:?}", other),
    }

    let client = GoveeClient::new(Mock::new(Method::Get, "v1/devices", 200, "not json"), "foobarbaz");
    match client.devices() {
        Err(GoveeError::Decode(e)) => {
            assert_eq!(e.target, "Devices");
            assert!(matches!(e.failure, DecodeFailure::NotJson(_)));
        }
        other => panic!("unexpected {:?}", other),
    }

    let client = GoveeClient::new(
        Mock::new(Method::Get, "v1/devices", 200, r#"{"message":"Success","code":200}"#),
        "foobarbaz",
    );
    assert!(matches!(client.devices(), Err(GoveeError::NoDevicesReturned)));

    let client = GoveeClient::new(
        Mock::new(Method::Get, "v1/devices", 200, r#"{"data":null,"message":"Success","code":200}"#),
        "foobarbaz",
    );
    assert!(matches!(client.devices(), Err(GoveeError::NoDevicesReturned)));

    let client = GoveeClient::new(
        Mock::new(
            Method::Get,
            "v1/devices",
            200,
            r#"{"data":{"devices":[{"device":"a","model":"m","deviceName":"n","controllable":true,"retrievable":true,"supportCmds":["Turn"]}]},"message":"Success","code":200}"#,
        ),
        "foobarbaz",
    );
    match client.devices() {
        Err(GoveeError::Decode(e)) => {
            assert_eq!(e.target, "Devices");
            assert_eq!(e.failure, DecodeFailure::Shape);
        }
        other => panic!("unexpected {:?}", other),
    }
}

#[test]
fn control_requires_acknowledgement() {
    let device = fake_device();
    let mut mock = control_mock(
        r#"{"device":"34:20:03:15:82:ae","model":"H6089","cmd":{"name":"turn","value":"off"}}"#,
    );
    mock.response = r#"{"message":"Success","code":200}"#;
    let client = GoveeClient::new(mock, "foobarbaz");
    match client.turn(&device, PowerState::Off) {
        Err(GoveeError::Decode(e)) => {
            assert_eq!(e.target, "SuccessResponse");
            assert_eq!(e.failure, DecodeFailure::Shape);
        }
        other => panic!("unexpected {:?}", other),
    }
}
