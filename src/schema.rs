//! The string-keyed data model: devices whose supported commands are wire
//! tokens, and one request type per command.
use vstd::prelude::*;

use crate::error::GoveeError;
use crate::json::JsonValue;
use crate::models::{MAX_BRIGHTNESS, MAX_COLOR_TEM, MIN_COLOR_TEM};
use crate::text::{decimal, json_quoted, str_eq, write_decimal, write_quoted};

verus! {

/// A devices-list response; `data` is absent when the account lists nothing.
#[derive(Debug)]
pub struct DevicesResponse {
    pub data: Option<Devices>,
    pub message: String,
    pub code: u32,
}

impl DevicesResponse {
    /// The listed devices; `NoDevicesReturned` when the response carries none.
    pub fn into_devices(self) -> (r: Result<Devices, GoveeError>)
        ensures
            self.data is None ==> r is Err && r->Err_0 is NoDevicesReturned,
            self.data is Some ==> r is Ok && r->Ok_0 == self.data->Some_0,
    {
        match self.data {
            Some(devices) => Ok(devices),
            None => Err(GoveeError::NoDevicesReturned()),
        }
    }
}

#[derive(Debug)]
pub struct Devices {
    pub devices: Vec<Device>,
}

/// A device whose supported commands are kept as the wire tokens listed for it.
#[derive(Debug, Clone)]
pub struct Device {
    pub device: String,
    pub model: String,
    pub name: String,
    pub controllable: bool,
    pub retrievable: bool,
    pub supported_commands: Vec<String>,
}

#[derive(Debug)]
pub struct DeviceStateResponse {
    pub data: DeviceState,
    pub message: String,
    pub code: u32,
}

/// A device state whose properties are kept as the objects the API returned.
#[derive(Debug)]
pub struct DeviceState {
    pub device: String,
    pub model: String,
    pub properties: Vec<JsonValue>,
}

/// A power request; `cmd` holds the `name` and `value` members, in that order.
#[derive(Debug)]
pub struct PowerRequest {
    pub device: String,
    pub model: String,
    pub cmd: Vec<(String, String)>,
}

#[derive(Debug, Clone, Copy, PartialEq, Eq, Structural)]
pub enum PowerState {
    On,
    Off,
}

/// A color with wide channels, as the string-keyed model carries it.
#[derive(Debug, Clone, Copy, PartialEq, Eq, Structural)]
pub struct Color {
    pub r: u32,
    pub g: u32,
    pub b: u32,
}

#[derive(Debug)]
pub struct ColorRequest {
    pub device: String,
    pub model: String,
    pub cmd: ColorInner,
}

#[derive(Debug)]
pub struct ColorInner {
    pub name: String,
    pub value: Color,
}

#[derive(Debug)]
pub struct ColorTemRequest {
    pub device: String,
    pub model: String,
    pub cmd: ColorTemInner,
}

#[derive(Debug)]
pub struct ColorTemInner {
    pub name: String,
    pub value: u32,
}

#[derive(Debug)]
pub struct BrightnessRequest {
    pub device: String,
    pub model: String,
    pub cmd: BrightnessInner,
}

#[derive(Debug)]
pub struct BrightnessInner {
    pub name: String,
    pub value: u32,
}

/// The four control commands.
#[derive(Debug, Clone, Copy, PartialEq, Eq, Structural)]
pub enum Command {
    Turn,
    Brightness,
    Color,
    ColorTem,
}

impl Command {
    /// The wire token of this command.
    pub open spec fn spec_name(self) -> Seq<char> {
        match self {
            Command::Turn => "turn"@,
            Command::Brightness => "brightness"@,
            Command::Color => "color"@,
            Command::ColorTem => "colorTem"@,
        }
    }

    /// The wire token of this command.
    pub fn name(&self) -> (r: &'static str)
        ensures
            r@ == self.spec_name(),
    {
        match self {
            Command::Turn => "turn",
            Command::Brightness => "brightness",
            Command::Color => "color",
            Command::ColorTem => "colorTem",
        }
    }
}

/// Whether two devices hold the same fields.
pub open spec fn same_device(a: Device, b: Device) -> bool {
    &&& a.device@ == b.device@
    &&& a.model@ == b.model@
    &&& a.name@ == b.name@
    &&& a.controllable == b.controllable
    &&& a.retrievable == b.retrievable
    &&& a.supported_commands@.map_values(|s: String| s@) == b.supported_commands@.map_values(
        |s: String| s@,
    )
}

/// Whether `e` refuses `command` for a device with the fields of `d`.
pub open spec fn is_unsupported(e: GoveeError, command: Command, d: Device) -> bool {
    match e {
        GoveeError::Unsupported(c, b) => c == command && same_device(*b, d),
        _ => false,
    }
}

/// The message of a color temperature outside the accepted range.
pub open spec fn color_tem_message(value: nat) -> Seq<char> {
    "Color temperature "@ + decimal(value) + " is outside 2000 to 9000 inclusive"@
}

/// The message of a brightness above the accepted range.
pub open spec fn brightness_message(value: nat) -> Seq<char> {
    "Brightness "@ + decimal(value) + " is above 100"@
}

/// Whether `e` is a range error with message `m`.
pub open spec fn is_range_error(e: GoveeError, m: Seq<char>) -> bool {
    match e {
        GoveeError::Error(s) => s@ == m,
        _ => false,
    }
}

fn range_message(head: &str, value: u32, tail: &str) -> (r: String)
    ensures
        r@ == head@ + decimal(value as nat) + tail@,
{
    let mut out = String::new();
    out.append(head);
    write_decimal(&mut out, value as u64);
    out.append(tail);
    assert(out@ =~= head@ + decimal(value as nat) + tail@);
    out
}

impl Device {
    /// Whether the device lists the wire token `token`.
    pub open spec fn lists(self, token: Seq<char>) -> bool {
        exists|i: int| 0 <= i < self.supported_commands@.len() && #[trigger] self.supported_commands@[i]@ == token
    }

    /// Whether this device supports `command`.
    pub fn supports(&self, command: Command) -> (r: bool)
        ensures
            r == self.lists(command.spec_name()),
    {
        let token = command.name();
        let n = self.supported_commands.len();
        let mut i: usize = 0;
        while i < n
            invariant
                n == self.supported_commands@.len(),
                i <= n,
                token@ == command.spec_name(),
                forall|j: int| 0 <= j < i ==> #[trigger] self.supported_commands@[j]@ != token@,
            decreases n - i,
        {
            if str_eq(self.supported_commands[i].as_str(), token) {
                return true;
            }
            i = i + 1;
        }
        false
    }

    /// A field-by-field copy of this device.
    fn duplicate(&self) -> (r: Device)
        ensures
            same_device(r, *self),
    {
        let mut cmds: Vec<String> = Vec::new();
        let n = self.supported_commands.len();
        let mut i: usize = 0;
        while i < n
            invariant
                n == self.supported_commands@.len(),
                i <= n,
                cmds@.len() == i,
                forall|j: int| 0 <= j < i ==> #[trigger] cmds@[j]@ == self.supported_commands@[j]@,
            decreases n - i,
        {
            cmds.push(self.supported_commands[i].clone());
            i = i + 1;
        }
        let r = Device {
            device: self.device.clone(),
            model: self.model.clone(),
            name: self.name.clone(),
            controllable: self.controllable,
            retrievable: self.retrievable,
            supported_commands: cmds,
        };
        assert(r.supported_commands@.map_values(|s: String| s@) =~= self.supported_commands@.map_values(
            |s: String| s@,
        ));
        r
    }

    fn unsupported(&self, command: Command) -> (r: GoveeError)
        ensures
            is_unsupported(r, command, *self),
    {
        GoveeError::Unsupported(command, Box::new(self.duplicate()))
    }

    /// A power request; refused when the device does not list `turn`.
    pub fn toggle_request(&self, state: PowerState) -> (r: Result<PowerRequest, GoveeError>)
        ensures
            r is Err <==> !self.lists("turn"@),
            r is Err ==> is_unsupported(r->Err_0, Command::Turn, *self),
            r is Ok ==> r->Ok_0.device@ == self.device@ && r->Ok_0.model@ == self.model@,
            r is Ok ==> r->Ok_0.cmd@.len() == 2,
            r is Ok ==> r->Ok_0.cmd@[0].0@ == "name"@ && r->Ok_0.cmd@[0].1@ == "turn"@,
            r is Ok ==> r->Ok_0.cmd@[1].0@ == "value"@,
            r is Ok && state == PowerState::On ==> r->Ok_0.cmd@[1].1@ == "on"@,
            r is Ok && state == PowerState::Off ==> r->Ok_0.cmd@[1].1@ == "off"@,
    {
        if !self.supports(Command::Turn) {
            return Err(self.unsupported(Command::Turn));
        }
        let mut cmd: Vec<(String, String)> = Vec::new();
        cmd.push(("name".to_owned(), "turn".to_owned()));
        match state {
            PowerState::On => cmd.push(("value".to_owned(), "on".to_owned())),
            PowerState::Off => cmd.push(("value".to_owned(), "off".to_owned())),
        }
        Ok(PowerRequest { device: self.device.clone(), model: self.model.clone(), cmd })
    }

    /// A color request; refused when the device does not list `color`.
    pub fn color_request(&self, color: &Color) -> (r: Result<ColorRequest, GoveeError>)
        ensures
            r is Err <==> !self.lists("color"@),
            r is Err ==> is_unsupported(r->Err_0, Command::Color, *self),
            r is Ok ==> r->Ok_0.device@ == self.device@ && r->Ok_0.model@ == self.model@,
            r is Ok ==> r->Ok_0.cmd.name@ == "color"@ && r->Ok_0.cmd.value == *color,
    {
        if !self.supports(Command::Color) {
            return Err(self.unsupported(Command::Color));
        }
        Ok(
            ColorRequest {
                device: self.device.clone(),
                model: self.model.clone(),
                cmd: ColorInner { name: "color".to_owned(), value: *color },
            },
        )
    }

    /// A color temperature request; refused when the device does not list
    /// `colorTem`, or when `value` lies outside 2000 to 9000 inclusive.
    pub fn color_temperature_request(&self, value: u32) -> (r: Result<ColorTemRequest, GoveeError>)
        ensures
            r is Ok <==> self.lists("colorTem"@) && MIN_COLOR_TEM <= value <= MAX_COLOR_TEM,
            !self.lists("colorTem"@) ==> r is Err && is_unsupported(r->Err_0, Command::ColorTem, *self),
            self.lists("colorTem"@) && !(MIN_COLOR_TEM <= value <= MAX_COLOR_TEM) ==> r is Err
                && is_range_error(r->Err_0, color_tem_message(value as nat)),
            r is Ok ==> r->Ok_0.device@ == self.device@ && r->Ok_0.model@ == self.model@,
            r is Ok ==> r->Ok_0.cmd.name@ == "colorTem"@ && r->Ok_0.cmd.value == value,
    {
        if !self.supports(Command::ColorTem) {
            return Err(self.unsupported(Command::ColorTem));
        }
        if (value as u64) < MIN_COLOR_TEM || (value as u64) > MAX_COLOR_TEM {
            return Err(
                GoveeError::Error(
                    range_message("Color temperature ", value, " is outside 2000 to 9000 inclusive"),
                ),
            );
        }
        Ok(
            ColorTemRequest {
                device: self.device.clone(),
                model: self.model.clone(),
                cmd: ColorTemInner { name: "colorTem".to_owned(), value },
            },
        )
    }

    /// A brightness request; refused when the device does not list
    /// `brightness`, or when `value` exceeds 100.
    pub fn brightness_request(&self, value: u32) -> (r: Result<BrightnessRequest, GoveeError>)
        ensures
            r is Ok <==> self.lists("brightness"@) && value <= MAX_BRIGHTNESS,
            !self.lists("brightness"@) ==> r is Err && is_unsupported(r->Err_0, Command::Brightness, *self),
            self.lists("brightness"@) && value > MAX_BRIGHTNESS ==> r is Err && is_range_error(
                r->Err_0,
                brightness_message(value as nat),
            ),
            r is Ok ==> r->Ok_0.device@ == self.device@ && r->Ok_0.model@ == self.model@,
            r is Ok ==> r->Ok_0.cmd.name@ == "brightness"@ && r->Ok_0.cmd.value == value,
    {
        if !self.supports(Command::Brightness) {
            return Err(self.unsupported(Command::Brightness));
        }
        if (value as u64) > MAX_BRIGHTNESS {
            return Err(GoveeError::Error(range_message("Brightness ", value, " is above 100")));
        }
        Ok(
            BrightnessRequest {
                device: self.device.clone(),
                model: self.model.clone(),
                cmd: BrightnessInner { name: "brightness".to_owned(), value },
            },
        )
    }
}

/// The listed tokens, one per line, indented and quoted.
pub open spec fn token_lines(s: Seq<String>) -> Seq<char>
    decreases s.len(),
{
    if s.len() == 0 {
        Seq::empty()
    } else {
        token_lines(s.drop_last()) + "    "@ + json_quoted(s.last()@) + ",\n"@
    }
}

/// The listed tokens as a brace-delimited block, `{}` when there are none.
pub open spec fn token_block(s: Seq<String>) -> Seq<char> {
    if s.len() == 0 {
        "{}"@
    } else {
        "{\n"@ + token_lines(s) + "}"@
    }
}

/// `(model, name, {tokens})`.
pub open spec fn device_text(d: Device) -> Seq<char> {
    "("@ + d.model@ + ", "@ + d.name@ + ", "@ + token_block(d.supported_commands@) + ")"@
}

/// Each device's text on a line of its own.
pub open spec fn devices_text(s: Seq<Device>) -> Seq<char>
    decreases s.len(),
{
    if s.len() == 0 {
        Seq::empty()
    } else {
        devices_text(s.drop_last()) + device_text(s.last()) + "\n"@
    }
}

impl Device {
    /// A one-entry summary: model, name and the listed commands.
    pub fn describe(&self) -> (r: String)
        ensures
            r@ == device_text(*self),
    {
        let mut out = String::new();
        out.append("(");
        out.append(self.model.as_str());
        out.append(", ");
        out.append(self.name.as_str());
        out.append(", ");
        let ghost mid = out@;
        let cmds = &self.supported_commands;
        let n = cmds.len();
        if n == 0 {
            out.append("{}");
        } else {
            out.append("{\n");
            let ghost start = out@;
            let mut i: usize = 0;
            while i < n
                invariant
                    n == cmds@.len(),
                    i <= n,
                    out@ == start + token_lines(cmds@.subrange(0, i as int)),
                decreases n - i,
            {
                out.append("    ");
                write_quoted(&mut out, cmds[i].as_str());
                out.append(",\n");
                proof {
                    let t = cmds@.subrange(0, i as int + 1);
                    assert(t.drop_last() =~= cmds@.subrange(0, i as int));
                    assert(t.last() == cmds@[i as int]);
                }
                i = i + 1;
            }
            assert(cmds@.subrange(0, n as int) =~= cmds@);
            out.append("}");
        }
        assert(out@ =~= mid + token_block(self.supported_commands@));
        out.append(")");
        assert(out@ =~= device_text(*self));
        out
    }
}

impl Devices {
    /// Every device's summary, one per line.
    pub fn describe(&self) -> (r: String)
        ensures
            r@ == devices_text(self.devices@),
    {
        let mut out = String::new();
        let n = self.devices.len();
        let mut i: usize = 0;
        while i < n
            invariant
                n == self.devices@.len(),
                i <= n,
                out@ == devices_text(self.devices@.subrange(0, i as int)),
            decreases n - i,
        {
            let line = self.devices[i].describe();
            out.append(line.as_str());
            out.append("\n");
            proof {
                let t = self.devices@.subrange(0, i as int + 1);
                assert(t.drop_last() =~= self.devices@.subrange(0, i as int));
                assert(t.last() == self.devices@[i as int]);
            }
            i = i + 1;
        }
        assert(self.devices@.subrange(0, n as int) =~= self.devices@);
        out
    }
}

} // verus!
