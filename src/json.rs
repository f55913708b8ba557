//! A JSON value tree and the decoders from it into the typed model.
//!
//! Decoding is strict on the envelope and on devices (a missing or ill-typed
//! required key refuses the whole response) and permissive on state
//! properties: each property object decodes on its own, and one that carries
//! no known key is skipped.
use vstd::prelude::*;

use crate::models::{
    BaseResponse, Color, ControlCommand, Device, DeviceProperty, DeviceState, DeviceView, Devices,
    PowerState,
};
use crate::text::str_eq;

verus! {

/// A JSON document as a tree. A lookup in an object takes the first member
/// with the key asked for.
#[derive(Debug)]
pub enum JsonValue {
    Null,
    Bool(bool),
    /// A non-negative integer that fits in 64 bits.
    Number(u64),
    /// Any other number, as written.
    OtherNumber(String),
    Str(String),
    Array(Vec<JsonValue>),
    Object(Vec<(String, JsonValue)>),
}

/// How a response body failed to decode.
#[derive(Debug, Clone, PartialEq, Eq)]
pub enum DecodeFailure {
    /// The body is not JSON; the parser's message.
    NotJson(String),
    /// The body is JSON without the shape of the expected response.
    Shape,
}

/// A response body that could not be decoded into `target`.
#[derive(Debug, Clone, PartialEq, Eq)]
pub struct DecodeError {
    /// Name of the type the body was decoded into.
    pub target: &'static str,
    pub failure: DecodeFailure,
}

/// The value of the first member named `key`, from index `i` on.
pub open spec fn field_from(fs: Seq<(String, JsonValue)>, key: Seq<char>, i: int) -> Option<JsonValue>
    decreases fs.len() - i,
{
    if i < 0 || i >= fs.len() {
        None
    } else if fs[i].0@ == key {
        Some(fs[i].1)
    } else {
        field_from(fs, key, i + 1)
    }
}

/// The member `key` of `v`; `None` when `v` is no object or lacks it.
pub open spec fn object_field(v: JsonValue, key: Seq<char>) -> Option<JsonValue> {
    match v {
        JsonValue::Object(fs) => field_from(fs@, key, 0),
        _ => None,
    }
}


pub open spec fn spec_bool(o: Option<JsonValue>) -> Option<bool> {
    match o {
        Some(JsonValue::Bool(b)) => Some(b),
        _ => None,
    }
}

pub open spec fn spec_u64(o: Option<JsonValue>) -> Option<u64> {
    match o {
        Some(JsonValue::Number(n)) => Some(n),
        _ => None,
    }
}

pub open spec fn spec_byte(o: Option<JsonValue>) -> Option<u8> {
    match o {
        Some(JsonValue::Number(n)) => if n <= 255 {
            Some(n as u8)
        } else {
            None
        },
        _ => None,
    }
}

pub open spec fn spec_str(o: Option<JsonValue>) -> Option<Seq<char>> {
    match o {
        Some(JsonValue::Str(s)) => Some(s@),
        _ => None,
    }
}

pub open spec fn spec_array(o: Option<JsonValue>) -> Option<Seq<JsonValue>> {
    match o {
        Some(JsonValue::Array(a)) => Some(a@),
        _ => None,
    }
}

/// A color object `{"r":..,"g":..,"b":..}` with channels from 0 to 255.
pub open spec fn color_of(v: JsonValue) -> Option<Color> {
    let r = spec_byte(object_field(v, "r"@));
    let g = spec_byte(object_field(v, "g"@));
    let b = spec_byte(object_field(v, "b"@));
    if r is Some && g is Some && b is Some {
        Some(Color { r: r->Some_0, g: g->Some_0, b: b->Some_0 })
    } else {
        None
    }
}

/// A power state string, `"on"` or `"off"`.
pub open spec fn power_of(o: Option<JsonValue>) -> Option<PowerState> {
    match o {
        Some(JsonValue::Str(s)) => if s@ == "on"@ {
            Some(PowerState::On)
        } else if s@ == "off"@ {
            Some(PowerState::Off)
        } else {
            None
        },
        _ => None,
    }
}

/// A state property object, recognised by its key; keys are tried in the
/// order online, powerState, brightness, color, colorTem.
pub open spec fn property_of(v: JsonValue) -> Option<DeviceProperty> {
    let online = spec_bool(object_field(v, "online"@));
    let power = power_of(object_field(v, "powerState"@));
    let brightness = spec_u64(object_field(v, "brightness"@));
    let color = match object_field(v, "color"@) {
        Some(c) => color_of(c),
        None => None,
    };
    let color_tem = spec_u64(object_field(v, "colorTem"@));
    if online is Some {
        Some(DeviceProperty::Online { online: online->Some_0 })
    } else if power is Some {
        Some(DeviceProperty::PowerState { power_state: power->Some_0 })
    } else if brightness is Some {
        Some(DeviceProperty::Brightness { brightness: brightness->Some_0 })
    } else if color is Some {
        Some(DeviceProperty::Color { color: color->Some_0 })
    } else if color_tem is Some {
        Some(DeviceProperty::ColorTem { color_tem: color_tem->Some_0 })
    } else {
        None
    }
}

/// The recognised properties of a list, in order, the others skipped.
pub open spec fn properties_of(s: Seq<JsonValue>) -> Seq<DeviceProperty>
    decreases s.len(),
{
    if s.len() == 0 {
        Seq::empty()
    } else {
        let rest = properties_of(s.drop_last());
        match property_of(s.last()) {
            Some(p) => rest.push(p),
            None => rest,
        }
    }
}

/// The command a token string names.
pub open spec fn token_command(v: JsonValue) -> Option<ControlCommand> {
    match v {
        JsonValue::Str(s) => ControlCommand::spec_from_token(s@),
        _ => None,
    }
}

/// The command of a token already known to name one.
pub open spec fn known_command(v: JsonValue) -> ControlCommand {
    token_command(v)->Some_0
}

/// `s` with each element after its first occurrence removed.
pub open spec fn dedup(s: Seq<ControlCommand>) -> Seq<ControlCommand>
    decreases s.len(),
{
    if s.len() == 0 {
        Seq::empty()
    } else {
        let d = dedup(s.drop_last());
        if d.contains(s.last()) {
            d
        } else {
            d.push(s.last())
        }
    }
}

/// What `dedup` returns holds each element once.
pub proof fn lemma_dedup_unique(s: Seq<ControlCommand>)
    ensures
        dedup(s).no_duplicates(),
        forall|c: ControlCommand| dedup(s).contains(c) <==> s.contains(c),
    decreases s.len(),
{
    if s.len() > 0 {
        lemma_dedup_unique(s.drop_last());
        let d = dedup(s.drop_last());
        assert forall|c: ControlCommand| s.contains(c) <==> (s.drop_last().contains(c) || c == s.last()) by {
            if s.contains(c) {
                let i = choose|i: int| 0 <= i < s.len() && s[i] == c;
                if i < s.len() - 1 {
                    assert(s.drop_last()[i] == c);
                }
            }
            if s.drop_last().contains(c) {
                let i = choose|i: int| 0 <= i < s.drop_last().len() && s.drop_last()[i] == c;
                assert(s[i] == c);
            }
            if c == s.last() {
                assert(s[s.len() - 1] == c);
            }
        }
        if !d.contains(s.last()) {
            let e = d.push(s.last());
            assert forall|c: ControlCommand| e.contains(c) <==> (d.contains(c) || c == s.last()) by {
                if e.contains(c) {
                    let i = choose|i: int| 0 <= i < e.len() && e[i] == c;
                    if i < d.len() {
                        assert(d[i] == c);
                    }
                }
                if d.contains(c) {
                    let i = choose|i: int| 0 <= i < d.len() && d[i] == c;
                    assert(e[i] == c);
                }
                if c == s.last() {
                    assert(e[d.len() as int] == c);
                }
            }
        }
    }
}

/// A `supportCmds` list: every token known, duplicates dropped, first
/// occurrences in order.
pub open spec fn commands_of(s: Seq<JsonValue>) -> Option<Seq<ControlCommand>> {
    if forall|i: int| 0 <= i < s.len() ==> (#[trigger] token_command(s[i])) is Some {
        Some(dedup(s.map_values(|v: JsonValue| known_command(v))))
    } else {
        None
    }
}

/// A device object of a devices list.
pub open spec fn device_of(v: JsonValue) -> Option<DeviceView> {
    let device = spec_str(object_field(v, "device"@));
    let model = spec_str(object_field(v, "model"@));
    let name = spec_str(object_field(v, "deviceName"@));
    let controllable = spec_bool(object_field(v, "controllable"@));
    let retrievable = spec_bool(object_field(v, "retrievable"@));
    let cmds = match spec_array(object_field(v, "supportCmds"@)) {
        Some(a) => commands_of(a),
        None => None,
    };
    if device is Some && model is Some && name is Some && controllable is Some && retrievable is Some
        && cmds is Some {
        Some(
            DeviceView {
                model: model->Some_0,
                device: device->Some_0,
                name: name->Some_0,
                controllable: controllable->Some_0,
                retrievable: retrievable->Some_0,
                supported_commands: cmds->Some_0,
            },
        )
    } else {
        None
    }
}

/// The device of an object already known to describe one.
pub open spec fn known_device(v: JsonValue) -> DeviceView {
    device_of(v)->Some_0
}

/// A devices list: every element a device, in order.
pub open spec fn devices_of(s: Seq<JsonValue>) -> Option<Seq<DeviceView>> {
    if forall|i: int| 0 <= i < s.len() ==> (#[trigger] device_of(s[i])) is Some {
        Some(s.map_values(|v: JsonValue| known_device(v)))
    } else {
        None
    }
}

/// The `message` and `code` of a response envelope.
pub open spec fn envelope_of(v: JsonValue) -> Option<(Seq<char>, u64)> {
    let message = spec_str(object_field(v, "message"@));
    let code = spec_u64(object_field(v, "code"@));
    if message is Some && code is Some {
        Some((message->Some_0, code->Some_0))
    } else {
        None
    }
}

/// What a devices-list response decodes to: `None` when it is malformed,
/// `Some(None)` when it is well-formed but carries no `data` (absent or null).
pub open spec fn devices_response_of(v: JsonValue) -> Option<Option<Seq<DeviceView>>> {
    if envelope_of(v) is None {
        None
    } else {
        match object_field(v, "data"@) {
            None => Some(None),
            Some(JsonValue::Null) => Some(None),
            Some(d) => match spec_array(object_field(d, "devices"@)) {
                Some(a) => match devices_of(a) {
                    Some(ds) => Some(Some(ds)),
                    None => None,
                },
                None => None,
            },
        }
    }
}

/// Mathematical model of a decoded device state.
pub struct StateView {
    pub device: Seq<char>,
    pub model: Seq<char>,
    pub properties: Seq<DeviceProperty>,
}

/// What a device-state response decodes to.
pub open spec fn state_response_of(v: JsonValue) -> Option<StateView> {
    match object_field(v, "data"@) {
        Some(d) => {
            let device = spec_str(object_field(d, "device"@));
            let model = spec_str(object_field(d, "model"@));
            let props = spec_array(object_field(d, "properties"@));
            if envelope_of(v) is Some && device is Some && model is Some && props is Some {
                Some(
                    StateView {
                        device: device->Some_0,
                        model: model->Some_0,
                        properties: properties_of(props->Some_0),
                    },
                )
            } else {
                None
            }
        },
        None => None,
    }
}

/// Whether a generic success response is well-formed: an envelope with a
/// `data` member of any shape.
pub open spec fn success_response_of(v: JsonValue) -> bool {
    envelope_of(v) is Some && object_field(v, "data"@) is Some
}

/// The member `key` of `v`, when `v` is an object that has one.
pub fn field<'a>(v: &'a JsonValue, key: &str) -> (r: Option<&'a JsonValue>)
    ensures
        r is Some <==> object_field(*v, key@) is Some,
        r is Some ==> object_field(*v, key@) == Some(*r->Some_0),
{
    match v {
        JsonValue::Object(fs) => {
            let n = fs.len();
            let mut i: usize = 0;
            while i < n
                invariant
                    n == fs@.len(),
                    i <= n,
                    object_field(*v, key@) == field_from(fs@, key@, 0),
                    field_from(fs@, key@, 0) == field_from(fs@, key@, i as int),
                decreases n - i,
            {
                let entry = &fs[i];
                if str_eq(entry.0.as_str(), key) {
                    assert(field_from(fs@, key@, i as int) == Some(fs@[i as int].1));
                    return Some(&entry.1);
                }
                i = i + 1;
            }
            None
        },
        _ => None,
    }
}

fn bool_field(v: &JsonValue, key: &str) -> (r: Option<bool>)
    ensures
        r == spec_bool(object_field(*v, key@)),
{
    match field(v, key) {
        Some(JsonValue::Bool(b)) => Some(*b),
        _ => None,
    }
}

fn u64_field(v: &JsonValue, key: &str) -> (r: Option<u64>)
    ensures
        r == spec_u64(object_field(*v, key@)),
{
    match field(v, key) {
        Some(JsonValue::Number(n)) => Some(*n),
        _ => None,
    }
}

fn byte_field(v: &JsonValue, key: &str) -> (r: Option<u8>)
    ensures
        r == spec_byte(object_field(*v, key@)),
{
    match field(v, key) {
        Some(JsonValue::Number(n)) => if *n <= 255 {
            Some(*n as u8)
        } else {
            None
        },
        _ => None,
    }
}

fn str_field(v: &JsonValue, key: &str) -> (r: Option<String>)
    ensures
        r is Some <==> spec_str(object_field(*v, key@)) is Some,
        r is Some ==> r->Some_0@ == spec_str(object_field(*v, key@))->Some_0,
{
    match field(v, key) {
        Some(JsonValue::Str(s)) => Some(s.clone()),
        _ => None,
    }
}

fn array_field<'a>(v: &'a JsonValue, key: &str) -> (r: Option<&'a Vec<JsonValue>>)
    ensures
        r is Some <==> spec_array(object_field(*v, key@)) is Some,
        r is Some ==> r->Some_0@ == spec_array(object_field(*v, key@))->Some_0,
{
    match field(v, key) {
        Some(JsonValue::Array(a)) => Some(a),
        _ => None,
    }
}

impl Color {
    /// Decodes a color object.
    pub fn from_json(v: &JsonValue) -> (r: Option<Color>)
        ensures
            r == color_of(*v),
    {
        let r = byte_field(v, "r");
        let g = byte_field(v, "g");
        let b = byte_field(v, "b");
        match (r, g, b) {
            (Some(r), Some(g), Some(b)) => Some(Color { r, g, b }),
            _ => None,
        }
    }
}

impl Color {
    /// The JSON object of this color, as a tree.
    pub fn to_json_value(&self) -> (r: JsonValue)
        ensures
            color_of(r) == Some(*self),
    {
        let kr = "r".to_owned();
        let kg = "g".to_owned();
        let kb = "b".to_owned();
        proof {
            reveal_strlit("r");
            reveal_strlit("g");
            reveal_strlit("b");
            assert(kr@[0] == 'r' && kg@[0] == 'g' && kb@[0] == 'b');
        }
        let mut fs: Vec<(String, JsonValue)> = Vec::new();
        fs.push((kr, JsonValue::Number(self.r as u64)));
        fs.push((kg, JsonValue::Number(self.g as u64)));
        fs.push((kb, JsonValue::Number(self.b as u64)));
        proof {
            assert(fs@[0].0@ == "r"@ && fs@[1].0@ == "g"@ && fs@[2].0@ == "b"@);
            assert(fs@[0].0@ != "g"@ && fs@[0].0@ != "b"@ && fs@[1].0@ != "b"@);
            assert(field_from(fs@, "r"@, 0) == Some(JsonValue::Number(self.r as u64)));
            assert(field_from(fs@, "g"@, 1) == Some(JsonValue::Number(self.g as u64)));
            assert(field_from(fs@, "g"@, 0) == Some(JsonValue::Number(self.g as u64)));
            assert(field_from(fs@, "b"@, 2) == Some(JsonValue::Number(self.b as u64)));
            assert(field_from(fs@, "b"@, 1) == Some(JsonValue::Number(self.b as u64)));
            assert(field_from(fs@, "b"@, 0) == Some(JsonValue::Number(self.b as u64)));
        }
        JsonValue::Object(fs)
    }
}

impl DeviceProperty {
    /// Decodes one state property object; `None` when it has no known key.
    pub fn from_json(v: &JsonValue) -> (r: Option<DeviceProperty>)
        ensures
            r == property_of(*v),
    {
        if let Some(online) = bool_field(v, "online") {
            return Some(DeviceProperty::Online { online });
        }
        match field(v, "powerState") {
            Some(JsonValue::Str(s)) => {
                if str_eq(s.as_str(), "on") {
                    return Some(DeviceProperty::PowerState { power_state: PowerState::On });
                } else if str_eq(s.as_str(), "off") {
                    return Some(DeviceProperty::PowerState { power_state: PowerState::Off });
                }
            },
            _ => {},
        }
        if let Some(brightness) = u64_field(v, "brightness") {
            return Some(DeviceProperty::Brightness { brightness });
        }
        match field(v, "color") {
            Some(c) => {
                if let Some(color) = Color::from_json(c) {
                    return Some(DeviceProperty::Color { color });
                }
            },
            None => {},
        }
        if let Some(color_tem) = u64_field(v, "colorTem") {
            return Some(DeviceProperty::ColorTem { color_tem });
        }
        None
    }
}

/// Decodes a list of state properties, skipping those without a known key.
pub fn decode_properties(a: &Vec<JsonValue>) -> (r: Vec<DeviceProperty>)
    ensures
        r@ == properties_of(a@),
{
    let mut out: Vec<DeviceProperty> = Vec::new();
    let n = a.len();
    let mut i: usize = 0;
    while i < n
        invariant
            n == a@.len(),
            i <= n,
            out@ == properties_of(a@.subrange(0, i as int)),
        decreases n - i,
    {
        let p = DeviceProperty::from_json(&a[i]);
        proof {
            let t = a@.subrange(0, i as int + 1);
            assert(t.drop_last() =~= a@.subrange(0, i as int));
            assert(t.last() == a@[i as int]);
        }
        match p {
            Some(p) => out.push(p),
            None => {},
        }
        i = i + 1;
    }
    assert(a@.subrange(0, n as int) =~= a@);
    out
}

/// Decodes a `supportCmds` list; `None` on a token outside the four commands.
pub fn decode_commands(a: &Vec<JsonValue>) -> (r: Option<Vec<ControlCommand>>)
    ensures
        r is Some <==> commands_of(a@) is Some,
        r is Some ==> r->Some_0@ == commands_of(a@)->Some_0,
        r is Some ==> r->Some_0@.no_duplicates(),
{
    proof {
        lemma_dedup_unique(a@.map_values(|v: JsonValue| known_command(v)));
    }
    let mut out: Vec<ControlCommand> = Vec::new();
    let n = a.len();
    let mut i: usize = 0;
    while i < n
        invariant
            n == a@.len(),
            i <= n,
            forall|j: int| 0 <= j < i ==> (#[trigger] token_command(a@[j])) is Some,
            out@ == dedup(a@.subrange(0, i as int).map_values(|v: JsonValue| known_command(v))),
        decreases n - i,
    {
        let c = match &a[i] {
            JsonValue::Str(s) => ControlCommand::from_token(s.as_str()),
            _ => None,
        };
        match c {
            Some(c) => {
                proof {
                    let t = a@.subrange(0, i as int + 1).map_values(|v: JsonValue| known_command(v));
                    assert(t.drop_last() =~= a@.subrange(0, i as int).map_values(|v: JsonValue| known_command(v)));
                    assert(token_command(a@[i as int]) == Some(c));
                    assert(t[i as int] == known_command(a@[i as int]));
                }
                let seen = contains_command(&out, c);
                if !seen {
                    out.push(c);
                }
            },
            None => {
                assert(token_command(a@[i as int]) is None);
                return None;
            },
        }
        i = i + 1;
    }
    assert(a@.subrange(0, n as int) =~= a@);
    Some(out)
}

fn contains_command(v: &Vec<ControlCommand>, c: ControlCommand) -> (r: bool)
    ensures
        r == v@.contains(c),
{
    let n = v.len();
    let mut i: usize = 0;
    while i < n
        invariant
            n == v@.len(),
            i <= n,
            forall|j: int| 0 <= j < i ==> v@[j] != c,
        decreases n - i,
    {
        if v[i] == c {
            return true;
        }
        i = i + 1;
    }
    false
}

impl Device {
    /// Decodes one device object of a devices list.
    pub fn from_json(v: &JsonValue) -> (r: Option<Device>)
        ensures
            r is Some <==> device_of(*v) is Some,
            r is Some ==> r->Some_0@ == device_of(*v)->Some_0,
            r is Some ==> r->Some_0.well_formed(),
    {
        let device = str_field(v, "device");
        let model = str_field(v, "model");
        let name = str_field(v, "deviceName");
        let controllable = bool_field(v, "controllable");
        let retrievable = bool_field(v, "retrievable");
        let cmds = match array_field(v, "supportCmds") {
            Some(a) => decode_commands(a),
            None => None,
        };
        match (device, model, name, controllable, retrievable, cmds) {
            (Some(device), Some(model), Some(name), Some(controllable), Some(retrievable), Some(cmds)) => {
                Some(Device { model, device, name, controllable, retrievable, supported_commands: cmds })
            },
            _ => None,
        }
    }
}

/// Decodes a devices list; `None` when an element is not a device.
pub fn decode_devices(a: &Vec<JsonValue>) -> (r: Option<Vec<Device>>)
    ensures
        r is Some <==> devices_of(a@) is Some,
        r is Some ==> r->Some_0@.map_values(|d: Device| d@) == devices_of(a@)->Some_0,
        r is Some ==> forall|i: int| 0 <= i < r->Some_0@.len() ==> (#[trigger] r->Some_0@[i]).well_formed(),
{
    let mut out: Vec<Device> = Vec::new();
    let n = a.len();
    let mut i: usize = 0;
    while i < n
        invariant
            n == a@.len(),
            i <= n,
            forall|j: int| 0 <= j < i ==> (#[trigger] device_of(a@[j])) is Some,
            out@.len() == i,
            forall|j: int| 0 <= j < i ==> (#[trigger] out@[j]).well_formed(),
            out@.map_values(|d: Device| d@) =~= a@.subrange(0, i as int).map_values(|v: JsonValue| known_device(v)),
        decreases n - i,
    {
        match Device::from_json(&a[i]) {
            Some(d) => {
                let ghost prev = out@;
                assert(d@ == known_device(a@[i as int]));
                out.push(d);
                proof {
                    let lhs = out@.map_values(|d: Device| d@);
                    let rhs = a@.subrange(0, i as int + 1).map_values(|v: JsonValue| known_device(v));
                    assert forall|k: int| 0 <= k < lhs.len() implies lhs[k] == rhs[k] by {
                        if k < i {
                            assert(out@[k] == prev[k]);
                            assert(a@.subrange(0, i as int + 1)[k] == a@.subrange(0, i as int)[k]);
                            assert(prev.map_values(|d: Device| d@)[k] == a@.subrange(0, i as int).map_values(|v: JsonValue| known_device(v))[k]);
                        } else {
                            assert(out@[k] == d);
                            assert(a@.subrange(0, i as int + 1)[k] == a@[i as int]);
                        }
                    }
                    assert(lhs =~= rhs);
                }
            },
            None => {
                assert(device_of(a@[i as int]) is None);
                return None;
            },
        }
        i = i + 1;
    }
    assert(a@.subrange(0, n as int) =~= a@);
    Some(out)
}

/// Decodes a devices-list response. A well-formed envelope without `data`
/// decodes with `data` set to `None`.
pub fn decode_devices_response(v: &JsonValue) -> (r: Result<BaseResponse<Option<Devices>>, DecodeError>)
    ensures
        r is Ok <==> devices_response_of(*v) is Some,
        r is Ok ==> (r->Ok_0.data is None <==> devices_response_of(*v)->Some_0 is None),
        r is Ok && r->Ok_0.data is Some ==> r->Ok_0.data->Some_0.devices@.map_values(|d: Device| d@)
            == devices_response_of(*v)->Some_0->Some_0,
        r is Ok && r->Ok_0.data is Some ==> forall|i: int|
            0 <= i < r->Ok_0.data->Some_0.devices@.len() ==> (#[trigger] r->Ok_0.data->Some_0.devices@[i]).well_formed(),
        r is Ok ==> r->Ok_0.message@ == envelope_of(*v)->Some_0.0,
        r is Ok ==> r->Ok_0.code == envelope_of(*v)->Some_0.1,
        r is Err ==> r->Err_0.target@ == "Devices"@ && r->Err_0.failure == DecodeFailure::Shape,
{
    let malformed = DecodeError { target: "Devices", failure: DecodeFailure::Shape };
    let message = str_field(v, "message");
    let code = u64_field(v, "code");
    let (message, code) = match (message, code) {
        (Some(m), Some(c)) => (m, c),
        _ => {
            return Err(malformed);
        },
    };
    let data = match field(v, "data") {
        None => {
            return Ok(BaseResponse { data: None, message, code });
        },
        Some(JsonValue::Null) => {
            return Ok(BaseResponse { data: None, message, code });
        },
        Some(d) => d,
    };
    let list = match array_field(data, "devices") {
        Some(a) => a,
        None => {
            return Err(malformed);
        },
    };
    match decode_devices(list) {
        Some(devices) => Ok(BaseResponse { data: Some(Devices { devices }), message, code }),
        None => Err(malformed),
    }
}

/// Decodes a device-state response.
pub fn decode_state_response(v: &JsonValue) -> (r: Result<BaseResponse<DeviceState>, DecodeError>)
    ensures
        r is Ok <==> state_response_of(*v) is Some,
        r is Ok ==> r->Ok_0.data.device@ == state_response_of(*v)->Some_0.device,
        r is Ok ==> r->Ok_0.data.model@ == state_response_of(*v)->Some_0.model,
        r is Ok ==> r->Ok_0.data.properties@ == state_response_of(*v)->Some_0.properties,
        r is Ok ==> r->Ok_0.message@ == envelope_of(*v)->Some_0.0,
        r is Ok ==> r->Ok_0.code == envelope_of(*v)->Some_0.1,
        r is Err ==> r->Err_0.target@ == "DeviceState"@ && r->Err_0.failure == DecodeFailure::Shape,
{
    let message = str_field(v, "message");
    let code = u64_field(v, "code");
    let data = match field(v, "data") {
        Some(d) => d,
        None => {
            return Err(DecodeError { target: "DeviceState", failure: DecodeFailure::Shape });
        },
    };
    let device = str_field(data, "device");
    let model = str_field(data, "model");
    let props = array_field(data, "properties");
    match (message, code, device, model, props) {
        (Some(message), Some(code), Some(device), Some(model), Some(props)) => {
            let properties = decode_properties(props);
            Ok(BaseResponse { data: DeviceState { device, model, properties }, message, code })
        },
        _ => Err(DecodeError { target: "DeviceState", failure: DecodeFailure::Shape }),
    }
}

/// Decodes a generic success response, whose `data` is not looked into.
pub fn decode_success_response(v: &JsonValue) -> (r: Result<BaseResponse<()>, DecodeError>)
    ensures
        r is Ok <==> success_response_of(*v),
        r is Ok ==> r->Ok_0.message@ == envelope_of(*v)->Some_0.0,
        r is Ok ==> r->Ok_0.code == envelope_of(*v)->Some_0.1,
        r is Err ==> r->Err_0.target@ == "SuccessResponse"@ && r->Err_0.failure == DecodeFailure::Shape,
{
    let message = str_field(v, "message");
    let code = u64_field(v, "code");
    let data = field(v, "data");
    match (message, code, data) {
        (Some(message), Some(code), Some(_)) => Ok(BaseResponse { data: (), message, code }),
        _ => Err(DecodeError { target: "SuccessResponse", failure: DecodeFailure::Shape }),
    }
}

} // verus!
