//! The typed data model: devices and their capabilities, control commands,
//! device state, colors, and the JSON text of outgoing commands.
use vstd::prelude::*;

use crate::text::{decimal, json_quoted, upper_digit, write_decimal, write_quoted, UPPER_DIGITS};

verus! {

/// Envelope around every response body of the API.
#[derive(Debug, Clone, PartialEq, Eq)]
pub struct BaseResponse<T> {
    pub data: T,
    pub message: String,
    pub code: u64,
}

/// Control commands that can be issued against a device.
#[derive(Debug, Clone, Copy, PartialEq, Eq, Hash, Structural)]
pub enum ControlCommand {
    /// Toggling power state.
    Turn,
    /// Adjusting brightness.
    Brightness,
    /// Adjusting color.
    Color,
    /// Adjusting color temperature.
    ColorTem,
}

impl ControlCommand {
    /// The wire token that names this command.
    pub open spec fn spec_token(self) -> Seq<char> {
        match self {
            ControlCommand::Turn => "turn"@,
            ControlCommand::Brightness => "brightness"@,
            ControlCommand::Color => "color"@,
            ControlCommand::ColorTem => "colorTem"@,
        }
    }

    /// The command named by a wire token, matched case-sensitively.
    pub open spec fn spec_from_token(s: Seq<char>) -> Option<ControlCommand> {
        if s == "turn"@ {
            Some(ControlCommand::Turn)
        } else if s == "brightness"@ {
            Some(ControlCommand::Brightness)
        } else if s == "color"@ {
            Some(ControlCommand::Color)
        } else if s == "colorTem"@ {
            Some(ControlCommand::ColorTem)
        } else {
            None
        }
    }

    /// The wire token that names this command.
    pub fn token(&self) -> (r: &'static str)
        ensures
            r@ == self.spec_token(),
    {
        match self {
            ControlCommand::Turn => "turn",
            ControlCommand::Brightness => "brightness",
            ControlCommand::Color => "color",
            ControlCommand::ColorTem => "colorTem",
        }
    }

    /// The command named by a wire token; `None` for a token outside the four.
    pub fn from_token(s: &str) -> (r: Option<ControlCommand>)
        ensures
            r == Self::spec_from_token(s@),
    {
        if crate::text::str_eq(s, "turn") {
            Some(ControlCommand::Turn)
        } else if crate::text::str_eq(s, "brightness") {
            Some(ControlCommand::Brightness)
        } else if crate::text::str_eq(s, "color") {
            Some(ControlCommand::Color)
        } else if crate::text::str_eq(s, "colorTem") {
            Some(ControlCommand::ColorTem)
        } else {
            None
        }
    }
}

/// A device as the API lists it.
#[derive(Debug, Clone, Default, PartialEq, Eq)]
pub struct Device {
    pub model: String,
    pub device: String,
    pub name: String,
    pub controllable: bool,
    pub retrievable: bool,
    pub supported_commands: Vec<ControlCommand>,
}

/// Mathematical model of a [Device].
pub struct DeviceView {
    pub model: Seq<char>,
    pub device: Seq<char>,
    pub name: Seq<char>,
    pub controllable: bool,
    pub retrievable: bool,
    pub supported_commands: Seq<ControlCommand>,
}

impl View for Device {
    type V = DeviceView;

    open spec fn view(&self) -> DeviceView {
        DeviceView {
            model: self.model@,
            device: self.device@,
            name: self.name@,
            controllable: self.controllable,
            retrievable: self.retrievable,
            supported_commands: self.supported_commands@,
        }
    }
}

impl Device {
    /// Each supported command is listed once, as in a set. Decoding
    /// establishes it; two devices listing the same commands in another
    /// order compare unequal under `==`.
    pub open spec fn well_formed(&self) -> bool {
        self.supported_commands@.no_duplicates()
    }

    /// Whether this device supports `command`.
    pub fn supports(&self, command: &ControlCommand) -> (r: bool)
        ensures
            r == self.supported_commands@.contains(*command),
    {
        let n = self.supported_commands.len();
        let mut i: usize = 0;
        while i < n
            invariant
                n == self.supported_commands@.len(),
                i <= n,
                forall|j: int| 0 <= j < i ==> self.supported_commands@[j] != *command,
            decreases n - i,
        {
            if self.supported_commands[i] == *command {
                return true;
            }
            i = i + 1;
        }
        false
    }
}

/// The devices of an account.
#[derive(Debug, Clone, Default, PartialEq, Eq)]
pub struct Devices {
    pub devices: Vec<Device>,
}

impl core::ops::Deref for Devices {
    type Target = Vec<Device>;

    fn deref(&self) -> &Vec<Device> {
        &self.devices
    }
}

/// The state of one device, as a sequence of reported properties.
#[derive(Debug, Clone, Default, PartialEq, Eq)]
pub struct DeviceState {
    pub device: String,
    pub model: String,
    pub properties: Vec<DeviceProperty>,
}

/// Power state of a device.
#[derive(Debug, Clone, Copy, PartialEq, Eq, Structural)]
pub enum PowerState {
    Off,
    On,
}

impl PowerState {
    /// The wire token of this power state.
    pub open spec fn spec_token(self) -> Seq<char> {
        match self {
            PowerState::Off => "off"@,
            PowerState::On => "on"@,
        }
    }

    /// The wire token of this power state.
    pub fn token(&self) -> (r: &'static str)
        ensures
            r@ == self.spec_token(),
    {
        match self {
            PowerState::Off => "off",
            PowerState::On => "on",
        }
    }
}

/// A RGB color.
#[derive(Debug, Clone, Copy, PartialEq, Eq, Default, Structural)]
pub struct Color {
    pub r: u8,
    pub g: u8,
    pub b: u8,
}

/// Value of a hexadecimal digit, either case; `-1` for any other character.
pub open spec fn hex_value(c: char) -> int {
    let n = c as u32;
    if 48 <= n <= 57 {
        n - 48
    } else if 97 <= n <= 102 {
        n - 87
    } else if 65 <= n <= 70 {
        n - 55
    } else {
        -1
    }
}

/// Whether `c` is a hexadecimal digit, either case.
pub open spec fn is_hex_digit(c: char) -> bool {
    hex_value(c) >= 0
}

/// `#RRGGBB`: a `#` and six hexadecimal digits.
pub open spec fn is_full_hex(s: Seq<char>) -> bool {
    &&& s.len() == 7
    &&& s[0] == '#'
    &&& forall|i: int| 1 <= i < 7 ==> is_hex_digit(#[trigger] s[i])
}

/// `#RGB`: a `#` and three hexadecimal digits.
pub open spec fn is_short_hex(s: Seq<char>) -> bool {
    &&& s.len() == 4
    &&& s[0] == '#'
    &&& forall|i: int| 1 <= i < 4 ==> is_hex_digit(#[trigger] s[i])
}

/// The texts hex_color can accept at all: `#` then 3, 4, 6 or 8 characters,
/// each a hexadecimal digit or a `+` (the sign an integer parse lets through
/// at the start of a digit pair).
pub open spec fn hex_shape(s: Seq<char>) -> bool {
    &&& (s.len() == 4 || s.len() == 5 || s.len() == 7 || s.len() == 9)
    &&& s[0] == '#'
    &&& forall|i: int| 1 <= i < s.len() ==> is_hex_digit(#[trigger] s[i]) || s[i] == '+'
}

/// The byte written by the two digits at `i` and `i + 1`.
pub open spec fn hex_pair(s: Seq<char>, i: int) -> int {
    hex_value(s[i]) * 16 + hex_value(s[i + 1])
}

/// The channels that a `#RRGGBB` text denotes.
pub open spec fn full_hex_rgb(s: Seq<char>) -> (u8, u8, u8) {
    (hex_pair(s, 1) as u8, hex_pair(s, 3) as u8, hex_pair(s, 5) as u8)
}

/// The channels that a `#RGB` text denotes: each digit doubled.
pub open spec fn short_hex_rgb(s: Seq<char>) -> (u8, u8, u8) {
    ((hex_value(s[1]) * 17) as u8, (hex_value(s[2]) * 17) as u8, (hex_value(s[3]) * 17) as u8)
}

/// The color that a `#RRGGBB` text denotes.
pub open spec fn full_hex_color(s: Seq<char>) -> Color {
    Color { r: full_hex_rgb(s).0, g: full_hex_rgb(s).1, b: full_hex_rgb(s).2 }
}

/// The color that a `#RGB` text denotes.
pub open spec fn short_hex_color(s: Seq<char>) -> Color {
    Color { r: short_hex_rgb(s).0, g: short_hex_rgb(s).1, b: short_hex_rgb(s).2 }
}

/// `#RRGGBB` with upper-case digits, the form [Color::to_hex] writes.
pub open spec fn is_canonical_hex(s: Seq<char>) -> bool {
    &&& s.len() == 7
    &&& s[0] == '#'
    &&& forall|i: int| 1 <= i < 7 ==> UPPER_DIGITS@.contains(#[trigger] s[i])
}

/// The `#RRGGBB` text of a color, upper-case.
pub open spec fn hex_text(c: Color) -> Seq<char> {
    seq![
        '#',
        upper_digit(c.r as int / 16),
        upper_digit(c.r as int % 16),
        upper_digit(c.g as int / 16),
        upper_digit(c.g as int % 16),
        upper_digit(c.b as int / 16),
        upper_digit(c.b as int % 16),
    ]
}

/// Each upper-case digit reads back as its own value.
proof fn lemma_upper_digit(d: int)
    requires
        0 <= d < 16,
    ensures
        hex_value(upper_digit(d)) == d,
        UPPER_DIGITS@.contains(upper_digit(d)),
{
    reveal_strlit("0123456789ABCDEF");
    assert(UPPER_DIGITS@[d] == upper_digit(d));
    assert(d == 0 || d == 1 || d == 2 || d == 3 || d == 4 || d == 5 || d == 6 || d == 7 || d == 8
        || d == 9 || d == 10 || d == 11 || d == 12 || d == 13 || d == 14 || d == 15);
}

/// An upper-case digit is written back from its value.
proof fn lemma_upper_char(ch: char)
    requires
        UPPER_DIGITS@.contains(ch),
    ensures
        0 <= hex_value(ch) < 16,
        upper_digit(hex_value(ch)) == ch,
{
    reveal_strlit("0123456789ABCDEF");
    let i = choose|i: int| 0 <= i < UPPER_DIGITS@.len() && UPPER_DIGITS@[i] == ch;
    lemma_upper_digit(i);
}

/// Two upper-case digits make one byte, split back by `/ 16` and `% 16`.
proof fn lemma_upper_pair(s: Seq<char>, i: int)
    requires
        0 <= i && i + 1 < s.len(),
        UPPER_DIGITS@.contains(s[i]),
        UPPER_DIGITS@.contains(s[i + 1]),
    ensures
        0 <= hex_pair(s, i) < 256,
        hex_pair(s, i) / 16 == hex_value(s[i]),
        hex_pair(s, i) % 16 == hex_value(s[i + 1]),
{
    lemma_upper_char(s[i]);
    lemma_upper_char(s[i + 1]);
}

/// Formatting a color as `#RRGGBB` and parsing that text gives the color back.
pub proof fn law_hex_format_then_parse(c: Color)
    ensures
        is_full_hex(hex_text(c)),
        is_canonical_hex(hex_text(c)),
        full_hex_color(hex_text(c)) == c,
{
    let s = hex_text(c);
    lemma_upper_digit(c.r as int / 16);
    lemma_upper_digit(c.r as int % 16);
    lemma_upper_digit(c.g as int / 16);
    lemma_upper_digit(c.g as int % 16);
    lemma_upper_digit(c.b as int / 16);
    lemma_upper_digit(c.b as int % 16);
    assert forall|i: int| 1 <= i < 7 implies UPPER_DIGITS@.contains(#[trigger] s[i]) && is_hex_digit(s[i]) by {}
    assert(hex_pair(s, 1) == c.r as int);
    assert(hex_pair(s, 3) == c.g as int);
    assert(hex_pair(s, 5) == c.b as int);
}

/// Parsing a canonical `#RRGGBB` text and formatting the color gives the text
/// back.
pub proof fn law_hex_parse_then_format(s: Seq<char>)
    requires
        is_canonical_hex(s),
    ensures
        is_full_hex(s),
        hex_text(full_hex_color(s)) == s,
{
    assert forall|i: int| 1 <= i < 7 implies is_hex_digit(#[trigger] s[i]) && upper_digit(hex_value(s[i])) == s[i] by {
        lemma_upper_char(s[i]);
    }
    let c = full_hex_color(s);
    lemma_upper_pair(s, 1);
    lemma_upper_pair(s, 3);
    lemma_upper_pair(s, 5);
    assert(c.r as int == hex_pair(s, 1));
    assert(c.g as int == hex_pair(s, 3));
    assert(c.b as int == hex_pair(s, 5));
    assert(hex_text(c) =~= s);
}

#[verifier::external_type_specification]
#[verifier::external_body]
pub struct ExParseHexColorError(hex_color::ParseHexColorError);

/// Relies on hex_color::HexColor::parse: an empty text or one without a
/// leading `#` is refused; `#RRGGBB` gives the three bytes of its digit pairs
/// and `#RGB` each digit doubled, digits in either case. Any text it accepts
/// is `#` followed by 3, 4, 6 or 8 digits (a pair may start with `+`).
#[verifier::external_body]
fn parse_hex_rgb(s: &str) -> (r: Result<(u8, u8, u8), hex_color::ParseHexColorError>)
    ensures
        r is Ok ==> hex_shape(s@),
        s@.len() == 0 ==> r is Err,
        s@.len() > 0 && s@[0] != '#' ==> r is Err,
        is_full_hex(s@) ==> r is Ok && r->Ok_0 == full_hex_rgb(s@),
        is_short_hex(s@) ==> r is Ok && r->Ok_0 == short_hex_rgb(s@),
{
    hex_color::HexColor::parse(s).map(|c| (c.r, c.g, c.b))
}

impl Color {
    /// Parse a color from the given hex string (`#RGB`, `#RRGGBB` or
    /// `#RRGGBBAA`, the alpha channel dropped).
    pub fn parse(s: &str) -> (r: Result<Self, hex_color::ParseHexColorError>)
        ensures
            r is Ok ==> hex_shape(s@),
            s@.len() == 0 ==> r is Err,
            s@.len() > 0 && s@[0] != '#' ==> r is Err,
            is_full_hex(s@) ==> r is Ok && r->Ok_0 == full_hex_color(s@),
            is_short_hex(s@) ==> r is Ok && r->Ok_0 == short_hex_color(s@),
    {
        match parse_hex_rgb(s) {
            Ok((r, g, b)) => Ok(Color { r, g, b }),
            Err(e) => Err(e),
        }
    }

    /// The `#RRGGBB` text of this color, with upper-case digits.
    pub fn to_hex(&self) -> (r: String)
        ensures
            r@ == hex_text(*self),
    {
        proof {
            reveal_strlit("0123456789ABCDEF");
        }
        let mut out = String::new();
        out.append("#");
        proof {
            reveal_strlit("#");
        }
        push_hex_byte(&mut out, self.r);
        push_hex_byte(&mut out, self.g);
        push_hex_byte(&mut out, self.b);
        assert(out@ =~= hex_text(*self));
        out
    }

    /// The JSON object `{"r":..,"g":..,"b":..}` of this color.
    pub fn to_json(&self) -> (r: String)
        ensures
            r@ == color_text(*self),
    {
        let mut out = String::new();
        write_color(&mut out, self);
        out
    }
}

/// Appends the two upper-case hexadecimal digits of `v`.
fn push_hex_byte(out: &mut String, v: u8)
    ensures
        final(out)@ == old(out)@.push(upper_digit(v as int / 16)).push(upper_digit(v as int % 16)),
{
    proof {
        reveal_strlit("0123456789ABCDEF");
    }
    let hi = (v / 16) as usize;
    let lo = (v % 16) as usize;
    let a = UPPER_DIGITS.substring_char(hi, hi + 1);
    assert(a@ =~= seq![upper_digit(hi as int)]);
    out.append(a);
    let b = UPPER_DIGITS.substring_char(lo, lo + 1);
    assert(b@ =~= seq![upper_digit(lo as int)]);
    out.append(b);
}

impl From<(u8, u8, u8)> for Color {
    fn from(value: (u8, u8, u8)) -> Self {
        Color { r: value.0, g: value.1, b: value.2 }
    }
}

impl vstd::std_specs::convert::FromSpecImpl<(u8, u8, u8)> for Color {
    open spec fn obeys_from_spec() -> bool {
        true
    }

    open spec fn from_spec(v: (u8, u8, u8)) -> Color {
        Color { r: v.0, g: v.1, b: v.2 }
    }
}

impl core::str::FromStr for Color {
    type Err = hex_color::ParseHexColorError;

    fn from_str(s: &str) -> Result<Self, Self::Err> {
        Color::parse(s)
    }
}

/// One property of a device's reported state.
#[derive(Debug, Clone, Copy, PartialEq, Eq, Structural)]
pub enum DeviceProperty {
    Online { online: bool },
    PowerState { power_state: PowerState },
    Brightness { brightness: u64 },
    Color { color: Color },
    ColorTem { color_tem: u64 },
}

/// A control request: the target device and the command, as sent to the API.
#[derive(Debug, Clone, PartialEq, Eq)]
pub struct ControlRequest {
    pub device: String,
    pub model: String,
    pub cmd: ControlCmd,
}

/// A control command together with its payload.
#[derive(Debug, Clone, Copy, PartialEq, Eq, Structural)]
pub enum ControlCmd {
    Turn(PowerState),
    Brightness(u64),
    Color(Color),
    ColorTem(u64),
}

/// Why a control command was refused before anything was sent.
#[derive(Debug, Clone, PartialEq, Eq)]
pub enum ControlError {
    /// The device does not list the command among its supported commands.
    Unsupported { command: ControlCommand, device: String },
    /// A brightness outside 0 to 100.
    BrightnessOutOfRange { value: u64 },
    /// A color temperature outside 2000 to 9000.
    ColorTemperatureOutOfRange { value: u64 },
}

/// Lowest accepted color temperature.
pub const MIN_COLOR_TEM: u64 = 2000;

/// Highest accepted color temperature.
pub const MAX_COLOR_TEM: u64 = 9000;

/// Highest accepted brightness.
pub const MAX_BRIGHTNESS: u64 = 100;

/// Whether a command's payload lies in its accepted range.
pub open spec fn command_valid(c: ControlCmd) -> bool {
    match c {
        ControlCmd::Brightness(v) => v <= MAX_BRIGHTNESS,
        ControlCmd::ColorTem(v) => MIN_COLOR_TEM <= v <= MAX_COLOR_TEM,
        _ => true,
    }
}

impl ControlCmd {
    /// The kind of this command.
    pub open spec fn spec_kind(self) -> ControlCommand {
        match self {
            ControlCmd::Turn(_) => ControlCommand::Turn,
            ControlCmd::Brightness(_) => ControlCommand::Brightness,
            ControlCmd::Color(_) => ControlCommand::Color,
            ControlCmd::ColorTem(_) => ControlCommand::ColorTem,
        }
    }

    /// The kind of this command.
    pub fn kind(&self) -> (r: ControlCommand)
        ensures
            r == self.spec_kind(),
    {
        match self {
            ControlCmd::Turn(_) => ControlCommand::Turn,
            ControlCmd::Brightness(_) => ControlCommand::Brightness,
            ControlCmd::Color(_) => ControlCommand::Color,
            ControlCmd::ColorTem(_) => ControlCommand::ColorTem,
        }
    }

    /// A brightness command; refused above 100.
    pub fn brightness(value: u64) -> (r: Result<ControlCmd, ControlError>)
        ensures
            value <= MAX_BRIGHTNESS ==> r == Ok::<ControlCmd, ControlError>(ControlCmd::Brightness(value)),
            value > MAX_BRIGHTNESS ==> r == Err::<ControlCmd, ControlError>(
                ControlError::BrightnessOutOfRange { value },
            ),
    {
        if value > MAX_BRIGHTNESS {
            Err(ControlError::BrightnessOutOfRange { value })
        } else {
            Ok(ControlCmd::Brightness(value))
        }
    }

    /// A color temperature command; accepted from 2000 to 9000 inclusive.
    pub fn color_temperature(value: u64) -> (r: Result<ControlCmd, ControlError>)
        ensures
            MIN_COLOR_TEM <= value <= MAX_COLOR_TEM ==> r == Ok::<ControlCmd, ControlError>(
                ControlCmd::ColorTem(value),
            ),
            !(MIN_COLOR_TEM <= value <= MAX_COLOR_TEM) ==> r == Err::<ControlCmd, ControlError>(
                ControlError::ColorTemperatureOutOfRange { value },
            ),
    {
        if value < MIN_COLOR_TEM || value > MAX_COLOR_TEM {
            Err(ControlError::ColorTemperatureOutOfRange { value })
        } else {
            Ok(ControlCmd::ColorTem(value))
        }
    }
}

/// The outcome that [build_command] owes for a device and a command.
pub open spec fn build_outcome(d: Device, c: ControlCmd) -> Result<ControlRequest, ControlError> {
    if !d.supported_commands@.contains(c.spec_kind()) {
        Err(ControlError::Unsupported { command: c.spec_kind(), device: d.device })
    } else {
        match c {
            ControlCmd::Brightness(v) if v > MAX_BRIGHTNESS => Err(
                ControlError::BrightnessOutOfRange { value: v },
            ),
            ControlCmd::ColorTem(v) if !(MIN_COLOR_TEM <= v <= MAX_COLOR_TEM) => Err(
                ControlError::ColorTemperatureOutOfRange { value: v },
            ),
            _ => Ok(ControlRequest { device: d.device, model: d.model, cmd: c }),
        }
    }
}

/// Checks a command against the device's capabilities and the payload's
/// range, and builds the request that would be sent. Nothing is sent here:
/// a refusal never costs a round trip.
pub fn build_command(device: &Device, cmd: ControlCmd) -> (r: Result<ControlRequest, ControlError>)
    ensures
        r == build_outcome(*device, cmd),
        r is Ok <==> (device.supported_commands@.contains(cmd.spec_kind()) && command_valid(cmd)),
{
    let kind = cmd.kind();
    if !device.supports(&kind) {
        return Err(ControlError::Unsupported { command: kind, device: device.device.clone() });
    }
    match cmd {
        ControlCmd::Brightness(v) => {
            if v > MAX_BRIGHTNESS {
                return Err(ControlError::BrightnessOutOfRange { value: v });
            }
        },
        ControlCmd::ColorTem(v) => {
            if v < MIN_COLOR_TEM || v > MAX_COLOR_TEM {
                return Err(ControlError::ColorTemperatureOutOfRange { value: v });
            }
        },
        _ => {},
    }
    Ok(ControlRequest { device: device.device.clone(), model: device.model.clone(), cmd })
}

/// `true` or `false`.
pub open spec fn bool_text(b: bool) -> Seq<char> {
    if b {
        "true"@
    } else {
        "false"@
    }
}

/// JSON text of a color.
pub open spec fn color_text(c: Color) -> Seq<char> {
    "{\"r\":"@ + decimal(c.r as nat) + ",\"g\":"@ + decimal(c.g as nat) + ",\"b\":"@ + decimal(
        c.b as nat,
    ) + "}"@
}

/// JSON text of a command's payload.
pub open spec fn cmd_value_text(c: ControlCmd) -> Seq<char> {
    match c {
        ControlCmd::Turn(p) => json_quoted(p.spec_token()),
        ControlCmd::Brightness(v) => decimal(v as nat),
        ControlCmd::Color(col) => color_text(col),
        ControlCmd::ColorTem(v) => decimal(v as nat),
    }
}

/// JSON text of a command: `{"name":..,"value":..}`.
pub open spec fn cmd_text(c: ControlCmd) -> Seq<char> {
    "{\"name\":"@ + json_quoted(c.spec_kind().spec_token()) + ",\"value\":"@ + cmd_value_text(c) + "}"@
}

/// JSON text of a control request: `{"device":..,"model":..,"cmd":..}`.
pub open spec fn request_text(device: Seq<char>, model: Seq<char>, c: ControlCmd) -> Seq<char> {
    "{\"device\":"@ + json_quoted(device) + ",\"model\":"@ + json_quoted(model) + ",\"cmd\":"@ + cmd_text(c)
        + "}"@
}

/// JSON text of a device property: a single-key object.
pub open spec fn property_text(p: DeviceProperty) -> Seq<char> {
    match p {
        DeviceProperty::Online { online } => "{\"online\":"@ + bool_text(online) + "}"@,
        DeviceProperty::PowerState { power_state } => "{\"powerState\":"@ + json_quoted(
            power_state.spec_token(),
        ) + "}"@,
        DeviceProperty::Brightness { brightness } => "{\"brightness\":"@ + decimal(brightness as nat)
            + "}"@,
        DeviceProperty::Color { color } => "{\"color\":"@ + color_text(color) + "}"@,
        DeviceProperty::ColorTem { color_tem } => "{\"colorTem\":"@ + decimal(color_tem as nat)
            + "}"@,
    }
}

fn write_color(out: &mut String, c: &Color)
    ensures
        final(out)@ == old(out)@ + color_text(*c),
{
    let ghost start = out@;
    out.append("{\"r\":");
    write_decimal(out, c.r as u64);
    out.append(",\"g\":");
    write_decimal(out, c.g as u64);
    out.append(",\"b\":");
    write_decimal(out, c.b as u64);
    out.append("}");
    assert(out@ =~= start + color_text(*c));
}

fn write_cmd(out: &mut String, c: &ControlCmd)
    ensures
        final(out)@ == old(out)@ + cmd_text(*c),
{
    let ghost start = out@;
    out.append("{\"name\":");
    write_quoted(out, c.kind().token());
    out.append(",\"value\":");
    let ghost mid = out@;
    match c {
        ControlCmd::Turn(p) => write_quoted(out, p.token()),
        ControlCmd::Brightness(v) => write_decimal(out, *v),
        ControlCmd::Color(col) => write_color(out, col),
        ControlCmd::ColorTem(v) => write_decimal(out, *v),
    }
    assert(out@ =~= mid + cmd_value_text(*c));
    out.append("}");
    assert(out@ =~= start + cmd_text(*c));
}

impl ControlRequest {
    /// The JSON body of this request, as the API expects it.
    pub fn to_json(&self) -> (r: String)
        ensures
            r@ == request_text(self.device@, self.model@, self.cmd),
    {
        let mut out = String::new();
        out.append("{\"device\":");
        write_quoted(&mut out, self.device.as_str());
        out.append(",\"model\":");
        write_quoted(&mut out, self.model.as_str());
        out.append(",\"cmd\":");
        write_cmd(&mut out, &self.cmd);
        out.append("}");
        assert(out@ =~= request_text(self.device@, self.model@, self.cmd));
        out
    }
}

impl DeviceProperty {
    /// The JSON text of this property: a single-key object.
    pub fn to_json(&self) -> (r: String)
        ensures
            r@ == property_text(*self),
    {
        let mut out = String::new();
        match self {
            DeviceProperty::Online { online } => {
                out.append("{\"online\":");
                if *online {
                    out.append("true");
                } else {
                    out.append("false");
                }
            },
            DeviceProperty::PowerState { power_state } => {
                out.append("{\"powerState\":");
                write_quoted(&mut out, power_state.token());
            },
            DeviceProperty::Brightness { brightness } => {
                out.append("{\"brightness\":");
                write_decimal(&mut out, *brightness);
            },
            DeviceProperty::Color { color } => {
                out.append("{\"color\":");
                write_color(&mut out, color);
            },
            DeviceProperty::ColorTem { color_tem } => {
                out.append("{\"colorTem\":");
                write_decimal(&mut out, *color_tem);
            },
        }
        out.append("}");
        assert(out@ =~= property_text(*self));
        out
    }
}

} // verus!
