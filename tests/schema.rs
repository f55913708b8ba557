use govee_rs::error::GoveeError;
use govee_rs::schema::{Color, Command, Device, Devices, DevicesResponse, PowerState};

fn fake_device(cmds: Vec<&str>) -> Device {
    Device {
        device: "34:20:03:15:82:ae".to_string(),
        model: "H6089".to_string(),
        name: "fake device".to_string(),
        controllable: true,
        retrievable: true,
        supported_commands: cmds.into_iter().map(|c| c.to_string()).collect(),
    }
}

#[test]
fn supports_checks_supported_commands() {
    let device = fake_device(vec!["turn"]);
    assert!(device.supports(Command::Turn));
    assert!(!device.supports(Command::Brightness));
    assert!(!device.supports(Command::Color));
    assert!(!device.supports(Command::ColorTem));

    let device = fake_device(vec!["brightness"]);
    assert!(!device.supports(Command::Turn));
    assert!(device.supports(Command::Brightness));
    assert!(!device.supports(Command::Color));
    assert!(!device.supports(Command::ColorTem));

    let device = fake_device(vec!["color"]);
    assert!(!device.supports(Command::Turn));
    assert!(!device.supports(Command::Brightness));
    assert!(device.supports(Command::Color));
    assert!(!device.supports(Command::ColorTem));

    let device = fake_device(vec!["colorTem"]);
    assert!(!device.supports(Command::Turn));
    assert!(!device.supports(Command::Brightness));
    assert!(!device.supports(Command::Color));
    assert!(device.supports(Command::ColorTem));

    let device = fake_device(vec!["turn", "brightness", "color", "colorTem"]);
    assert!(device.supports(Command::Turn));
    assert!(device.supports(Command::Brightness));
    assert!(device.supports(Command::Color));
    assert!(device.supports(Command::ColorTem));
}

#[test]
fn color_temperature_must_be_between_2000_and_9000() {
    let device = fake_device(vec!["colorTem"]);
    assert!(device.color_temperature_request(1999).is_err());
    assert!(device.color_temperature_request(2000).is_ok());
    assert!(device.color_temperature_request(5000).is_ok());
    assert!(device.color_temperature_request(9000).is_ok());
    assert!(device.color_temperature_request(9001).is_err());
}

#[test]
fn supports_is_case_sensitive() {
    let device = fake_device(vec!["Turn", "COLORTEM"]);
    assert!(!device.supports(Command::Turn));
    assert!(!device.supports(Command::ColorTem));
}

#[test]
fn color_temperature_request_carries_the_command() {
    let device = fake_device(vec!["colorTem"]);
    let request = device.color_temperature_request(6500).unwrap();
    assert_eq!(request.device, "34:20:03:15:82:ae");
    assert_eq!(request.model, "H6089");
    assert_eq!(request.cmd.name, "colorTem");
    assert_eq!(request.cmd.value, 6500);
}

#[test]
fn color_temperature_refused_when_unsupported() {
    let device = fake_device(vec!["turn"]);
    match device.color_temperature_request(5000) {
        Err(GoveeError::Unsupported(Command::ColorTem, d)) => {
            assert_eq!(d.device, device.device);
            assert_eq!(d.model, device.model);
            assert_eq!(d.name, device.name);
            assert_eq!(d.supported_commands, device.supported_commands);
        }
        other => panic!("unexpected {:?}", other),
    }
}

#[test]
fn color_temperature_out_of_range_message() {
    let device = fake_device(vec!["colorTem"]);
    let err = device.color_temperature_request(9001).unwrap_err();
    assert!(matches!(err, GoveeError::Error(_)));
    assert_eq!(err.message(), "Color temperature 9001 is outside 2000 to 9000 inclusive");
    let err = device.color_temperature_request(1999).unwrap_err();
    assert_eq!(err.message(), "Color temperature 1999 is outside 2000 to 9000 inclusive");
}

#[test]
fn toggle_request_values() {
    let device = fake_device(vec!["turn"]);
    let on = device.toggle_request(PowerState::On).unwrap();
    assert_eq!(
        on.cmd,
        vec![
            ("name".to_string(), "turn".to_string()),
            ("value".to_string(), "on".to_string())
        ]
    );
    let off = device.toggle_request(PowerState::Off).unwrap();
    assert_eq!(off.cmd[1].1, "off");
    assert!(fake_device(vec!["color"]).toggle_request(PowerState::On).is_err());
}

#[test]
fn color_and_brightness_requests() {
    let device = fake_device(vec!["color", "brightness"]);
    let color = Color { r: 1, g: 2, b: 3 };
    let request = device.color_request(&color).unwrap();
    assert_eq!(request.cmd.name, "color");
    assert_eq!(request.cmd.value, color);
    let request = device.brightness_request(100).unwrap();
    assert_eq!(request.cmd.name, "brightness");
    assert_eq!(request.cmd.value, 100);
    assert_eq!(
        device.brightness_request(101).unwrap_err().message(),
        "Brightness 101 is above 100"
    );
    let err = fake_device(vec!["turn"]).color_request(&color).unwrap_err();
    assert!(matches!(err, GoveeError::Unsupported(Command::Color, _)));
    assert_eq!(
        err.message(),
        "Unsupported command 'color' for '(H6089, fake device, {\n    \"turn\",\n})'"
    );
}

#[test]
fn command_names() {
    assert_eq!(Command::Turn.name(), "turn");
    assert_eq!(Command::Brightness.name(), "brightness");
    assert_eq!(Command::Color.name(), "color");
    assert_eq!(Command::ColorTem.name(), "colorTem");
    assert_eq!(GoveeError::NoDevicesReturned().message(), "No devices were returned from the API");
}

#[test]
fn device_descriptions() {
    let device = fake_device(vec!["turn", "colorTem"]);
    assert_eq!(
        device.describe(),
        "(H6089, fake device, {\n    \"turn\",\n    \"colorTem\",\n})"
    );
    let bare = fake_device(vec![]);
    assert_eq!(bare.describe(), "(H6089, fake device, {})");
    let devices = Devices {
        devices: vec![bare.clone(), bare],
    };
    assert_eq!(
        devices.describe(),
        "(H6089, fake device, {})\n(H6089, fake device, {})\n"
    );
}

#[test]
fn devices_response_without_data() {
    let empty = DevicesResponse {
        data: None,
        message: "Success".to_string(),
        code: 200,
    };
    assert!(matches!(empty.into_devices(), Err(GoveeError::NoDevicesReturned())));
    let full = DevicesResponse {
        data: Some(Devices {
            devices: vec![fake_device(vec!["turn"])],
        }),
        message: "Success".to_string(),
        code: 200,
    };
    assert_eq!(full.into_devices().unwrap().devices.len(), 1);
}
