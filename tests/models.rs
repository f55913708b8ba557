use std::str::FromStr;

use govee_rs::json::{decode_devices_response, decode_properties, DecodeFailure, JsonValue};
use govee_rs::models::{
    build_command, Color, ControlCmd, ControlCommand, ControlError, ControlRequest, Device,
    DeviceProperty, PowerState,
};

fn to_tree(v: &serde_json::Value) -> JsonValue {
    match v {
        serde_json::Value::Null => JsonValue::Null,
        serde_json::Value::Bool(b) => JsonValue::Bool(*b),
        serde_json::Value::Number(n) => match n.as_u64() {
            Some(u) => JsonValue::Number(u),
            None => JsonValue::OtherNumber(n.to_string()),
        },
        serde_json::Value::String(s) => JsonValue::Str(s.clone()),
        serde_json::Value::Array(a) => JsonValue::Array(a.iter().map(to_tree).collect()),
        serde_json::Value::Object(m) => {
            JsonValue::Object(m.iter().map(|(k, v)| (k.clone(), to_tree(v))).collect())
        }
    }
}

fn parse(text: &str) -> JsonValue {
    to_tree(&serde_json::from_str::<serde_json::Value>(text).unwrap())
}

fn device_with(cmds: Vec<ControlCommand>) -> Device {
    Device {
        device: "34:20:03:15:82:ae".to_string(),
        model: "H6089".to_string(),
        name: "fake device".to_string(),
        controllable: true,
        retrievable: true,
        supported_commands: cmds,
    }
}

#[test]
fn serialization() {
    let prop = DeviceProperty::Online { online: false };
    assert_eq!(&prop.to_json(), "{\"online\":false}");

    let prop = DeviceProperty::PowerState {
        power_state: PowerState::Off,
    };
    assert_eq!(&prop.to_json(), "{\"powerState\":\"off\"}");

    let prop = DeviceProperty::Brightness { brightness: 22 };
    assert_eq!(&prop.to_json(), "{\"brightness\":22}");

    let prop = DeviceProperty::Color {
        color: Color {
            r: 1,
            g: 10,
            b: 100,
        },
    };
    assert_eq!(&prop.to_json(), "{\"color\":{\"r\":1,\"g\":10,\"b\":100}}");
}

#[test]
fn deserialization() {
    let input = r#"
    [
        {"online": false},
        {"powerState": "on"},
        {"brightness": 44},
        {"color": {"r": 2, "g": 20, "b": 200}}
    ]"#;

    let props = match parse(input) {
        JsonValue::Array(a) => decode_properties(&a),
        _ => panic!("not an array"),
    };
    assert_eq!(
        props,
        vec![
            DeviceProperty::Online { online: false },
            DeviceProperty::PowerState {
                power_state: PowerState::On
            },
            DeviceProperty::Brightness { brightness: 44 },
            DeviceProperty::Color {
                color: Color { r: 2, g: 20, b: 200 }
            },
        ]
    );
}

#[test]
fn unknown_properties_are_skipped() {
    let input = r#"[{"online": true}, {"humidity": 40}, {"colorTem": 6500}, {"color": {"r": 300, "g": 0, "b": 0}}]"#;
    let props = match parse(input) {
        JsonValue::Array(a) => decode_properties(&a),
        _ => panic!("not an array"),
    };
    assert_eq!(
        props,
        vec![
            DeviceProperty::Online { online: true },
            DeviceProperty::ColorTem { color_tem: 6500 },
        ]
    );
}

#[test]
fn color_parse_and_from() {
    assert_eq!(Color::default(), Color { r: 0, g: 0, b: 0 });
    assert_eq!(Color::from((10, 20, 30)), Color { r: 10, g: 20, b: 30 });
    assert_eq!(Color::from_str("#0AFF06").unwrap(), Color { r: 10, g: 255, b: 6 });
    assert_eq!(Color::parse("#12FF07").unwrap(), Color { r: 18, g: 255, b: 7 });
    assert_eq!(Color::parse("#0aff06").unwrap(), Color { r: 10, g: 255, b: 6 });
    assert_eq!(Color::parse("#F0A").unwrap(), Color { r: 255, g: 0, b: 170 });
    assert!(Color::parse("").is_err());
    assert!(Color::parse("0AFF06").is_err());
    assert!(Color::parse("#0AFG06").is_err());
    assert!(Color::parse("#GG0000").is_err());
    assert!(Color::parse("#12345").is_err());
    assert!(Color::parse("#0AFF06 ").is_err());
}

#[test]
fn color_hex_round_trip() {
    let c = Color::parse("#0AFF06").unwrap();
    assert_eq!(c, Color { r: 10, g: 255, b: 6 });
    assert_eq!(c.to_hex(), "#0AFF06");
    for c in [Color { r: 0, g: 0, b: 0 }, Color { r: 255, g: 128, b: 9 }, Color { r: 171, g: 205, b: 239 }] {
        assert_eq!(Color::parse(&c.to_hex()).unwrap(), c);
    }
    assert_eq!(Color { r: 171, g: 205, b: 239 }.to_hex(), "#ABCDEF");
}

#[test]
fn color_json_round_trip() {
    for c in [Color { r: 11, g: 22, b: 33 }, Color { r: 0, g: 255, b: 7 }] {
        assert_eq!(c.to_json(), format!("{{\"r\":{},\"g\":{},\"b\":{}}}", c.r, c.g, c.b));
        assert_eq!(Color::from_json(&parse(&c.to_json())), Some(c));
        assert_eq!(Color::from_json(&c.to_json_value()), Some(c));
    }
}

#[test]
fn control_request_serialization() {
    let request = ControlRequest {
        device: "34:20:03:15:82:ae".to_string(),
        model: "H6089".to_string(),
        cmd: ControlCmd::Turn(PowerState::On),
    };
    assert_eq!(
        request.to_json(),
        "{\"device\":\"34:20:03:15:82:ae\",\"model\":\"H6089\",\"cmd\":{\"name\":\"turn\",\"value\":\"on\"}}"
    );
}

#[test]
fn control_request_serialization_payloads() {
    let mk = |cmd| ControlRequest {
        device: "d".to_string(),
        model: "m".to_string(),
        cmd,
    };
    assert_eq!(
        mk(ControlCmd::Brightness(25)).to_json(),
        "{\"device\":\"d\",\"model\":\"m\",\"cmd\":{\"name\":\"brightness\",\"value\":25}}"
    );
    assert_eq!(
        mk(ControlCmd::Color(Color { r: 0, g: 195, b: 255 })).to_json(),
        "{\"device\":\"d\",\"model\":\"m\",\"cmd\":{\"name\":\"color\",\"value\":{\"r\":0,\"g\":195,\"b\":255}}}"
    );
    assert_eq!(
        mk(ControlCmd::ColorTem(9000)).to_json(),
        "{\"device\":\"d\",\"model\":\"m\",\"cmd\":{\"name\":\"colorTem\",\"value\":9000}}"
    );
    assert_eq!(
        mk(ControlCmd::Turn(PowerState::Off)).to_json(),
        "{\"device\":\"d\",\"model\":\"m\",\"cmd\":{\"name\":\"turn\",\"value\":\"off\"}}"
    );
}

#[test]
fn control_request_escapes_strings() {
    let request = ControlRequest {
        device: "a\"b\\c\nd\u{1}".to_string(),
        model: "\u{e9}".to_string(),
        cmd: ControlCmd::Brightness(0),
    };
    let text = request.to_json();
    let expected = format!(
        "{{\"device\":{},\"model\":{},\"cmd\":{{\"name\":\"brightness\",\"value\":0}}}}",
        serde_json::to_string(&request.device).unwrap(),
        serde_json::to_string(&request.model).unwrap()
    );
    assert_eq!(text, expected);
}

#[test]
fn color_temperature_bounds() {
    assert!(ControlCmd::color_temperature(1999).is_err());
    assert_eq!(ControlCmd::color_temperature(2000), Ok(ControlCmd::ColorTem(2000)));
    assert_eq!(ControlCmd::color_temperature(9000), Ok(ControlCmd::ColorTem(9000)));
    assert_eq!(
        ControlCmd::color_temperature(9001),
        Err(ControlError::ColorTemperatureOutOfRange { value: 9001 })
    );
}

#[test]
fn brightness_bounds() {
    assert_eq!(ControlCmd::brightness(0), Ok(ControlCmd::Brightness(0)));
    assert_eq!(ControlCmd::brightness(100), Ok(ControlCmd::Brightness(100)));
    assert_eq!(
        ControlCmd::brightness(101),
        Err(ControlError::BrightnessOutOfRange { value: 101 })
    );
}

#[test]
fn build_command_checks_support() {
    let all = [
        ControlCommand::Turn,
        ControlCommand::Brightness,
        ControlCommand::Color,
        ControlCommand::ColorTem,
    ];
    let cmds = [
        ControlCmd::Turn(PowerState::On),
        ControlCmd::Brightness(50),
        ControlCmd::Color(Color { r: 1, g: 2, b: 3 }),
        ControlCmd::ColorTem(4000),
    ];
    for supported in all {
        let device = device_with(vec![supported]);
        assert!(device.supports(&supported));
        for cmd in cmds {
            let r = build_command(&device, cmd);
            if cmd.kind() == supported {
                let request = r.unwrap();
                assert_eq!(request.device, device.device);
                assert_eq!(request.model, device.model);
                assert_eq!(request.cmd, cmd);
            } else {
                assert_eq!(
                    r,
                    Err(ControlError::Unsupported {
                        command: cmd.kind(),
                        device: device.device.clone()
                    })
                );
            }
        }
    }
}

#[test]
fn build_command_checks_range() {
    let device = device_with(vec![ControlCommand::ColorTem, ControlCommand::Brightness]);
    assert_eq!(
        build_command(&device, ControlCmd::ColorTem(1000)),
        Err(ControlError::ColorTemperatureOutOfRange { value: 1000 })
    );
    assert_eq!(
        build_command(&device, ControlCmd::Brightness(150)),
        Err(ControlError::BrightnessOutOfRange { value: 150 })
    );
}

#[test]
fn command_tokens() {
    assert_eq!(ControlCommand::from_token("turn"), Some(ControlCommand::Turn));
    assert_eq!(ControlCommand::from_token("colorTem"), Some(ControlCommand::ColorTem));
    assert_eq!(ControlCommand::from_token("colortem"), None);
    assert_eq!(ControlCommand::Brightness.token(), "brightness");
}

#[test]
fn devices_list_decoding() {
    let body = r#"{"data":{"devices":[
        {"device":"a","model":"H1","deviceName":"one","controllable":true,"retrievable":false,"supportCmds":["turn","brightness","turn"]},
        {"device":"b","model":"H2","deviceName":"two","controllable":false,"retrievable":true,"supportCmds":[]},
        {"device":"c","model":"H3","deviceName":"three","controllable":true,"retrievable":true,"supportCmds":["colorTem","color"]}
    ]},"message":"Success","code":200}"#;
    let response = decode_devices_response(&parse(body)).unwrap();
    assert_eq!(response.message, "Success");
    assert_eq!(response.code, 200);
    let devices = response.data.unwrap();
    assert_eq!(devices.len(), 3);
    assert_eq!(devices[0].device, "a");
    assert_eq!(devices[1].device, "b");
    assert_eq!(devices[2].device, "c");
    assert_eq!(
        devices[0].supported_commands,
        vec![ControlCommand::Turn, ControlCommand::Brightness]
    );
    assert!(devices[1].supported_commands.is_empty());
    assert_eq!(
        devices[2].supported_commands,
        vec![ControlCommand::ColorTem, ControlCommand::Color]
    );
}

#[test]
fn devices_list_decoding_errors() {
    let unknown = r#"{"data":{"devices":[{"device":"a","model":"H1","deviceName":"one","controllable":true,"retrievable":true,"supportCmds":["dance"]}]},"message":"Success","code":200}"#;
    let err = decode_devices_response(&parse(unknown)).unwrap_err();
    assert_eq!(err.target, "Devices");
    assert_eq!(err.failure, DecodeFailure::Shape);
    let no_data = r#"{"message":"Success","code":200}"#;
    assert!(decode_devices_response(&parse(no_data)).unwrap().data.is_none());
    let null_data = r#"{"data":null,"message":"Success","code":200}"#;
    assert!(decode_devices_response(&parse(null_data)).unwrap().data.is_none());
    let no_code = r#"{"data":{"devices":[]},"message":"Success"}"#;
    assert_eq!(decode_devices_response(&parse(no_code)).unwrap_err().failure, DecodeFailure::Shape);
}
