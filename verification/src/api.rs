//! Devices and the HTTP control protocol client.
//!
//! A `Bulb` holds a device's last known brightness, color and power flag; a
//! `Device` wraps one with its network address, display name and selection
//! flag; `Devices` is the ordered fleet with batch operations over the
//! selected subset. Brightness travels as decimal text: the device is
//! authoritative for its numeric meaning, and the library never computes
//! with it.
//!
//! All network traffic goes through small trusted wrappers around ureq; the
//! local model changes only after a call is acknowledged successful.

use vstd::prelude::*;
use vstd::string::*;

use crate::json::{json_field, json_field_of, JsonField, JsonFieldSpec};
use crate::text::{
    dec_digits, dec_string, dec_u8, parse_dec_u8, trim_newline, trim_trailing_newline,
};

verus! {

/// Always holds: the selection flag a fresh device starts with.
pub fn always_true() -> (b: bool)
    ensures
        b,
{
    true
}

/// The color a status report falls back to when the device names none.
pub fn default_color() -> (r: String)
    ensures
        r@ == "#FFFFFF"@,
{
    "#FFFFFF".to_owned()
}

/// The brightness text a status report falls back to when the device names
/// none: full brightness.
pub fn default_brightness() -> (r: String)
    ensures
        r@ == "1"@,
{
    "1".to_owned()
}

/// A device's reported state: brightness as decimal text, color as a
/// `#RRGGBB` text once set through the control protocol, and the power flag
/// as the protocol's integer.
pub struct Bulb {
    pub brightness: String,
    pub color: String,
    pub enabled: u8,
}

/// The mathematical reading of a `Bulb`.
#[verifier::ext_equal]
pub struct BulbView {
    pub brightness: Seq<char>,
    pub color: Seq<char>,
    pub enabled: u8,
}

impl View for Bulb {
    type V = BulbView;

    open spec fn view(&self) -> BulbView {
        BulbView { brightness: self.brightness@, color: self.color@, enabled: self.enabled }
    }
}

impl Bulb {
    /// The state a device model starts with, before any status is known.
    pub fn empty() -> (r: Bulb)
        ensures
            r@ == (BulbView { brightness: "0"@, color: ""@, enabled: 0 }),
    {
        Bulb { brightness: "0".to_owned(), color: "".to_owned(), enabled: 0 }
    }
}

/// One controllable light: cached state plus address, name and selection.
pub struct Device {
    pub bulb: Bulb,
    pub ip: String,
    pub name: String,
    pub selected: bool,
}

/// The mathematical reading of a `Device`.
#[verifier::ext_equal]
pub struct DeviceView {
    pub bulb: BulbView,
    pub ip: Seq<char>,
    pub name: Seq<char>,
    pub selected: bool,
}

impl View for Device {
    type V = DeviceView;

    open spec fn view(&self) -> DeviceView {
        DeviceView { bulb: self.bulb@, ip: self.ip@, name: self.name@, selected: self.selected }
    }
}

/// `d` with its power flag set to `v` and everything else kept.
pub open spec fn with_enabled(d: DeviceView, v: u8) -> DeviceView {
    DeviceView { bulb: BulbView { enabled: v, ..d.bulb }, ..d }
}

/// `d` with its color text set to `c` and everything else kept.
pub open spec fn with_color(d: DeviceView, c: Seq<char>) -> DeviceView {
    DeviceView { bulb: BulbView { color: c, ..d.bulb }, ..d }
}

/// `d` with its brightness text set to `b` and everything else kept.
pub open spec fn with_brightness(d: DeviceView, b: Seq<char>) -> DeviceView {
    DeviceView { bulb: BulbView { brightness: b, ..d.bulb }, ..d }
}

/// Why a controller operation failed.
pub enum ApiError {
    /// The device could not be reached; carries the transport's own text.
    Transport(String),
    /// The device answered with a non-2xx status.
    Status { url: String, code: u16, body: String },
    /// The device's status payload did not decode.
    Decode { ip: String },
    /// The address is already present in the fleet.
    Duplicate { ip: String },
}

/// The text shown for an error in logs and on the command line.
pub open spec fn spec_message(e: ApiError) -> Seq<char> {
    match e {
        ApiError::Transport(t) => t@,
        ApiError::Status { url, code, body } => url@ + ": status code: "@ + dec_digits(
            code as nat,
        ) + ": "@ + trim_newline(body@),
        ApiError::Decode { ip } => ip@ + ": failed to decode status response"@,
        ApiError::Duplicate { ip } => "Device \""@ + ip@ + "\" already added"@,
    }
}

impl ApiError {
    /// Renders the error as one line of text.
    pub fn message(&self) -> (r: String)
        ensures
            r@ == spec_message(*self),
    {
        match self {
            ApiError::Transport(t) => t.clone(),
            ApiError::Status { url, code, body } => {
                let mut s = url.clone();
                s.append(": status code: ");
                let code_text = dec_string(*code as u64);
                s.append(code_text.as_str());
                s.append(": ");
                s.append(trim_trailing_newline(body.as_str()));
                s
            },
            ApiError::Decode { ip } => {
                let mut s = ip.clone();
                s.append(": failed to decode status response");
                s
            },
            ApiError::Duplicate { ip } => {
                let mut s = "Device \"".to_owned();
                s.append(ip.as_str());
                s.append("\" already added");
                s
            },
        }
    }
}

#[verifier::external_type_specification]
#[verifier::external_body]
pub struct ExAgent(ureq::Agent);

/// Relies on ureq::AgentBuilder: an agent whose connect and overall timeouts
/// are one second, so a single unreachable device blocks a call only briefly.
#[verifier::external_body]
fn new_agent() -> ureq::Agent {
    ureq::AgentBuilder::new()
        .timeout_connect(std::time::Duration::from_secs(1))
        .timeout(std::time::Duration::from_secs(1))
        .build()
}

/// Relies on ureq::Agent::get, ureq::Response::into_string and ureq's error
/// type: one GET of `url`, its body read as text; a 4xx or 5xx answer
/// becomes `Status` with the response's final URL and body, anything else
/// that fails becomes `Transport`.
#[verifier::external_body]
fn http_get_text(agent: &ureq::Agent, url: &str) -> (r: Result<String, ApiError>)
    ensures
        r matches Err(e) ==> e is Transport || e is Status,
{
    match agent.get(url).call() {
        Ok(resp) => match resp.into_string() {
            Ok(text) => Ok(text),
            Err(e) => Err(ApiError::Transport(e.to_string())),
        },
        Err(ureq::Error::Status(code, resp)) => {
            let url = resp.get_url().to_string();
            let body = match resp.into_string() {
                Ok(v) => v,
                Err(e) => e.to_string(),
            };
            Err(ApiError::Status { url, code, body })
        },
        Err(e) => Err(ApiError::Transport(e.to_string())),
    }
}

/// Relies on ureq::Agent::put and ureq's error type: one PUT of `url` with
/// an empty body; a 4xx or 5xx answer becomes `Status` with the response's
/// final URL and body, anything else that fails becomes `Transport`.
#[verifier::external_body]
fn http_put(agent: &ureq::Agent, url: &str) -> (r: Result<(), ApiError>)
    ensures
        r matches Err(e) ==> e is Transport || e is Status,
{
    match agent.put(url).call() {
        Ok(_) => Ok(()),
        Err(ureq::Error::Status(code, resp)) => {
            let url = resp.get_url().to_string();
            let body = match resp.into_string() {
                Ok(v) => v,
                Err(e) => e.to_string(),
            };
            Err(ApiError::Status { url, code, body })
        },
        Err(e) => Err(ApiError::Transport(e.to_string())),
    }
}

/// The control endpoint for a whole-status read.
pub open spec fn spec_led_url(ip: Seq<char>) -> Seq<char> {
    "http://"@ + ip + "/led"@
}

fn led_url(ip: &String) -> (r: String)
    ensures
        r@ == spec_led_url(ip@),
{
    let mut s = "http://".to_owned();
    s.append(ip.as_str());
    s.append("/led");
    s
}

fn led_suffix_url(ip: &String, suffix: &str) -> (r: String)
    ensures
        r@ == "http://"@ + ip@ + "/led"@ + suffix@,
{
    let mut s = led_url(ip);
    s.append(suffix);
    s
}

/// What a status payload decodes to for the color field: its string value,
/// the default when absent, nothing when it has the wrong type.
pub open spec fn field_color(f: JsonFieldSpec) -> Option<Seq<char>> {
    match f {
        JsonFieldSpec::Text(s) => Some(s),
        JsonFieldSpec::Missing => Some("#FFFFFF"@),
        _ => None,
    }
}

/// The brightness field: a number's text, the default when absent.
pub open spec fn field_brightness(f: JsonFieldSpec) -> Option<Seq<char>> {
    match f {
        JsonFieldSpec::Num(s) => Some(s),
        JsonFieldSpec::Missing => Some("1"@),
        _ => None,
    }
}

/// The power flag: the `enabled` key, or the accepted alias `on` when
/// `enabled` is absent, as an integer that fits a byte; absent means off.
pub open spec fn field_enabled(en: JsonFieldSpec, on: JsonFieldSpec) -> Option<u8> {
    match en {
        JsonFieldSpec::Num(s) => dec_u8(s),
        JsonFieldSpec::Missing => match on {
            JsonFieldSpec::Num(s) => dec_u8(s),
            JsonFieldSpec::Missing => Some(0),
            _ => None,
        },
        _ => None,
    }
}

/// What a status response text means: the bulb state it reports, or nothing
/// when the payload is malformed.
pub open spec fn spec_decode_status(doc: Seq<char>) -> Option<BulbView> {
    let color = field_color(json_field_of(doc, "color"@));
    let brightness = field_brightness(json_field_of(doc, "brightness"@));
    let enabled = field_enabled(json_field_of(doc, "enabled"@), json_field_of(doc, "on"@));
    match (color, brightness, enabled) {
        (Some(c), Some(b), Some(e)) => Some(BulbView { brightness: b, color: c, enabled: e }),
        _ => None,
    }
}

/// Decodes a status response body into a bulb state.
pub fn decode_status(doc: &str) -> (r: Option<Bulb>)
    ensures
        match r {
            Some(b) => spec_decode_status(doc@) == Some(b@),
            None => spec_decode_status(doc@) is None,
        },
{
    let color: Option<String> = match json_field(doc, "color") {
        Some(JsonField::Text(s)) => Some(s),
        Some(JsonField::Missing) => Some(default_color()),
        _ => None,
    };
    let brightness: Option<String> = match json_field(doc, "brightness") {
        Some(JsonField::Num(s)) => Some(s),
        Some(JsonField::Missing) => Some(default_brightness()),
        _ => None,
    };
    let enabled: Option<u8> = match json_field(doc, "enabled") {
        Some(JsonField::Num(s)) => parse_dec_u8(s.as_str()),
        Some(JsonField::Missing) => match json_field(doc, "on") {
            Some(JsonField::Num(s)) => parse_dec_u8(s.as_str()),
            Some(JsonField::Missing) => Some(0),
            _ => None,
        },
        _ => None,
    };
    match (color, brightness, enabled) {
        (Some(c), Some(b), Some(e)) => Some(Bulb { brightness: b, color: c, enabled: e }),
        _ => None,
    }
}

/// The text `get_status` reports for one device: address, separator, raw body.
pub open spec fn status_message(ip: Seq<char>, body: Seq<char>) -> Seq<char> {
    ip + ": "@ + body
}

impl Device {
    /// A fresh device model: address and name as given, selected, state
    /// unknown.
    pub fn new(ip: String, name: String) -> (r: Device)
        ensures
            r@ == (DeviceView {
                bulb: BulbView { brightness: "0"@, color: ""@, enabled: 0 },
                ip: ip@,
                name: name@,
                selected: true,
            }),
    {
        Device { bulb: Bulb::empty(), ip, name, selected: always_true() }
    }

    /// Reads the device's full status; on success the local state is
    /// replaced wholesale by the decoded response and the raw text is
    /// reported. On any failure the local state is unchanged.
    pub fn get_status(&mut self, agent: &ureq::Agent) -> (r: Result<String, ApiError>)
        ensures
            final(self).ip == old(self).ip,
            final(self).name == old(self).name,
            final(self).selected == old(self).selected,
            match r {
                Ok(msg) => exists|body: Seq<char>|
                    #[trigger] spec_decode_status(body) == Some(final(self).bulb@) && msg@
                        == status_message(old(self).ip@, body),
                Err(e) => {
                    &&& final(self).bulb == old(self).bulb
                    &&& (e is Transport || e is Status || e is Decode)
                    &&& (e matches ApiError::Decode { ip } ==> ip@ == old(self).ip@)
                },
            },
    {
        let url = led_url(&self.ip);
        let resp = http_get_text(agent, url.as_str())?;
        match decode_status(resp.as_str()) {
            None => Err(ApiError::Decode { ip: self.ip.clone() }),
            Some(b) => {
                self.bulb = b;
                let mut msg = self.ip.clone();
                msg.append(": ");
                msg.append(resp.as_str());
                proof {
                    assert(spec_decode_status(resp@) == Some(self.bulb@));
                }
                Ok(msg)
            },
        }
    }

    /// Commands the device on; the cached power flag follows only after the
    /// call is acknowledged.
    pub fn on(&mut self, agent: &ureq::Agent) -> (r: Result<(), ApiError>)
        ensures
            match r {
                Ok(()) => final(self)@ == with_enabled(old(self)@, 1),
                Err(e) => *final(self) == *old(self) && (e is Transport || e is Status),
            },
    {
        let url = led_suffix_url(&self.ip, "/on");
        http_put(agent, url.as_str())?;
        self.bulb.enabled = 1;
        Ok(())
    }

    /// Commands the device off; the cached power flag follows only after the
    /// call is acknowledged.
    pub fn off(&mut self, agent: &ureq::Agent) -> (r: Result<(), ApiError>)
        ensures
            match r {
                Ok(()) => final(self)@ == with_enabled(old(self)@, 0),
                Err(e) => *final(self) == *old(self) && (e is Transport || e is Status),
            },
    {
        let url = led_suffix_url(&self.ip, "/off");
        http_put(agent, url.as_str())?;
        self.bulb.enabled = 0;
        Ok(())
    }

    /// Commands the opposite of the locally cached power flag — a documented
    /// staleness tradeoff: no fresh read happens first.
    pub fn toggle(&mut self, agent: &ureq::Agent) -> (r: Result<(), ApiError>)
        ensures
            match r {
                Ok(()) => final(self)@ == with_enabled(
                    old(self)@,
                    if old(self).bulb.enabled == 1 {
                        0u8
                    } else {
                        1u8
                    },
                ),
                Err(e) => *final(self) == *old(self) && (e is Transport || e is Status),
            },
    {
        if self.bulb.enabled == 1 {
            self.off(agent)
        } else {
            self.on(agent)
        }
    }

    /// Sends a color; an optional leading `#` is stripped for the wire and
    /// restored in the cached text on success.
    pub fn set_color(&mut self, agent: &ureq::Agent, color: &str) -> (r: Result<(), ApiError>)
        ensures
            match r {
                Ok(()) => final(self)@ == with_color(
                    old(self)@,
                    seq!['#'] + strip_hash(color@),
                ),
                Err(e) => *final(self) == *old(self) && (e is Transport || e is Status),
            },
    {
        let bare = strip_hash_exec(color);
        let mut url = led_suffix_url(&self.ip, "/color/");
        url.append(bare);
        http_put(agent, url.as_str())?;
        let mut text = "#".to_owned();
        text.append(bare);
        self.bulb.color = text;
        proof {
            assert(self.bulb.color@ =~= seq!['#'] + strip_hash(color@)) by {
                reveal_strlit("#");
            }
        }
        Ok(())
    }

    /// Sends a brightness value as the decimal text the caller provides; the
    /// cached text follows on success. No local range check: the device is
    /// authoritative and may reject the value.
    pub fn set_brightness(&mut self, agent: &ureq::Agent, value: &str) -> (r: Result<
        (),
        ApiError,
    >)
        ensures
            match r {
                Ok(()) => final(self)@ == with_brightness(old(self)@, value@),
                Err(e) => *final(self) == *old(self) && (e is Transport || e is Status),
            },
    {
        let mut url = led_suffix_url(&self.ip, "/brightness/");
        url.append(value);
        http_put(agent, url.as_str())?;
        self.bulb.brightness = value.to_owned();
        Ok(())
    }
}

/// A batch command over the selected subset of the fleet.
pub enum FleetOp {
    On,
    Off,
    Color(String),
    Brightness(String),
}

/// The mathematical reading of a `FleetOp`.
pub enum FleetOpSpec {
    On,
    Off,
    Color(Seq<char>),
    Brightness(Seq<char>),
}

impl View for FleetOp {
    type V = FleetOpSpec;

    open spec fn view(&self) -> FleetOpSpec {
        match self {
            FleetOp::On => FleetOpSpec::On,
            FleetOp::Off => FleetOpSpec::Off,
            FleetOp::Color(c) => FleetOpSpec::Color(c@),
            FleetOp::Brightness(b) => FleetOpSpec::Brightness(b@),
        }
    }
}

/// What one batch command does to one device's model when it succeeds.
pub open spec fn apply_op(op: FleetOpSpec, d: DeviceView) -> DeviceView {
    match op {
        FleetOpSpec::On => with_enabled(d, 1),
        FleetOpSpec::Off => with_enabled(d, 0),
        FleetOpSpec::Color(c) => with_color(d, seq!['#'] + strip_hash(c)),
        FleetOpSpec::Brightness(b) => with_brightness(d, b),
    }
}

/// The fleet after a fail-fast batch command that got through the first
/// `upto` devices: every selected device before `upto` carries the command's
/// effect, everything else is untouched.
pub open spec fn fleet_updated(
    pre: Seq<DeviceView>,
    post: Seq<DeviceView>,
    upto: int,
    op: FleetOpSpec,
) -> bool {
    &&& post.len() == pre.len()
    &&& forall|i: int|
        #![trigger post[i]]
        0 <= i < pre.len() ==> post[i] == if pre[i].selected && i < upto {
            apply_op(op, pre[i])
        } else {
            pre[i]
        }
}

/// The fleet after a fail-fast status refresh that got through the first
/// `upto` devices: every selected device before `upto` holds some
/// successfully decoded status, everything else is untouched.
pub open spec fn fleet_refreshed(pre: Seq<DeviceView>, post: Seq<DeviceView>, upto: int) -> bool {
    &&& post.len() == pre.len()
    &&& forall|i: int|
        #![trigger post[i]]
        0 <= i < pre.len() ==> if pre[i].selected && i < upto {
            &&& post[i].ip == pre[i].ip
            &&& post[i].name == pre[i].name
            &&& post[i].selected == pre[i].selected
            &&& exists|body: Seq<char>| #[trigger] spec_decode_status(body) == Some(post[i].bulb)
        } else {
            post[i] == pre[i]
        }
}

/// The fleet grew by exactly one freshly added device at the end.
pub open spec fn fleet_extended(
    pre: Seq<DeviceView>,
    post: Seq<DeviceView>,
    ip: Seq<char>,
    name: Seq<char>,
) -> bool {
    &&& post.len() == pre.len() + 1
    &&& post.subrange(0, pre.len() as int) == pre
    &&& post.last().ip == ip
    &&& post.last().name == name
    &&& post.last().selected
}

/// The fleet after a fail-fast status refresh that got through the first
/// `upto` devices, with the response bodies pinned: entry `i` of `bodies`
/// is the text whose decoding now sits in device `i`'s cache, for every
/// refreshed selected device; everything else is untouched.
pub open spec fn fleet_reported(
    pre: Seq<DeviceView>,
    post: Seq<DeviceView>,
    bodies: Seq<Seq<char>>,
    upto: int,
) -> bool {
    &&& post.len() == pre.len()
    &&& bodies.len() == pre.len()
    &&& forall|i: int|
        #![trigger post[i]]
        0 <= i < pre.len() ==> if pre[i].selected && i < upto {
            &&& post[i].ip == pre[i].ip
            &&& post[i].name == pre[i].name
            &&& post[i].selected == pre[i].selected
            &&& spec_decode_status(bodies[i]) == Some(post[i].bulb)
        } else {
            post[i] == pre[i]
        }
}

/// The concatenated report of a status read over the first `upto` devices:
/// each selected device contributes its "address, separator, body" summary,
/// in fleet order; the rest contribute nothing.
pub open spec fn concat_reports(
    pre: Seq<DeviceView>,
    bodies: Seq<Seq<char>>,
    upto: int,
) -> Seq<char>
    decreases upto,
{
    if upto <= 0 {
        Seq::<char>::empty()
    } else {
        concat_reports(pre, bodies, upto - 1) + (if pre[upto - 1].selected {
            status_message(pre[upto - 1].ip, bodies[upto - 1])
        } else {
            Seq::<char>::empty()
        })
    }
}

/// The concatenated report reads only the first `upto` bodies.
proof fn lemma_concat_reports_prefix(
    pre: Seq<DeviceView>,
    b1: Seq<Seq<char>>,
    b2: Seq<Seq<char>>,
    upto: int,
)
    requires
        forall|j: int| 0 <= j < upto ==> b1[j] == b2[j],
    ensures
        concat_reports(pre, b1, upto) == concat_reports(pre, b2, upto),
    decreases upto,
{
    if upto > 0 {
        lemma_concat_reports_prefix(pre, b1, b2, upto - 1);
    }
}

/// Whether some device of the fleet carries this address.
pub open spec fn spec_contains_ip(s: Seq<DeviceView>, ip: Seq<char>) -> bool {
    exists|i: int| 0 <= i < s.len() && #[trigger] s[i].ip == ip
}

/// Whether any device is selected.
pub open spec fn any_selected(s: Seq<DeviceView>) -> bool {
    exists|i: int| 0 <= i < s.len() && #[trigger] s[i].selected
}

/// The cached power flag of the first selected device, or off when none is
/// selected: the reference a fleet-wide toggle moves away from.
pub open spec fn spec_first_selected_enabled(s: Seq<DeviceView>) -> u8
    decreases s.len(),
{
    if s.len() == 0 {
        0
    } else if s[0].selected {
        s[0].bulb.enabled
    } else {
        spec_first_selected_enabled(s.drop_first())
    }
}

/// The reference pins the direction: a fleet-wide toggle turns everything
/// off when the first selected device reads on, else everything on.
pub open spec fn toggle_op(s: Seq<DeviceView>) -> FleetOpSpec {
    if spec_first_selected_enabled(s) == 1 {
        FleetOpSpec::Off
    } else {
        FleetOpSpec::On
    }
}

/// The first selected device decides `spec_first_selected_enabled`.
pub proof fn lemma_first_selected(s: Seq<DeviceView>, i: int)
    requires
        0 <= i < s.len(),
        s[i].selected,
        forall|j: int| 0 <= j < i ==> !s[j].selected,
    ensures
        spec_first_selected_enabled(s) == s[i].bulb.enabled,
    decreases i,
{
    if i > 0 {
        lemma_first_selected(s.drop_first(), i - 1);
    }
}

/// The first selected device decides `spec_first_selected_index`.
pub proof fn lemma_first_selected_index(s: Seq<DeviceView>, i: int)
    requires
        0 <= i < s.len(),
        s[i].selected,
        forall|j: int| 0 <= j < i ==> !s[j].selected,
    ensures
        spec_first_selected_index(s) == Some(i),
    decreases i,
{
    if i > 0 {
        lemma_first_selected_index(s.drop_first(), i - 1);
    }
}

/// With nothing selected there is no first selected position.
pub proof fn lemma_no_selected_index(s: Seq<DeviceView>)
    requires
        forall|j: int| 0 <= j < s.len() ==> !s[j].selected,
    ensures
        spec_first_selected_index(s) is None,
    decreases s.len(),
{
    if s.len() > 0 {
        lemma_no_selected_index(s.drop_first());
    }
}

/// With nothing selected the reference reads off.
pub proof fn lemma_none_selected(s: Seq<DeviceView>)
    requires
        forall|j: int| 0 <= j < s.len() ==> !s[j].selected,
    ensures
        spec_first_selected_enabled(s) == 0,
    decreases s.len(),
{
    if s.len() > 0 {
        lemma_none_selected(s.drop_first());
    }
}

/// The ordered fleet of known devices, owning the shared client
/// configuration.
pub struct Devices {
    agent: ureq::Agent,
    pub bulbs: Vec<Device>,
}

impl View for Devices {
    type V = Seq<DeviceView>;

    closed spec fn view(&self) -> Seq<DeviceView> {
        Seq::new(self.bulbs@.len(), |i: int| self.bulbs@[i]@)
    }
}

/// `d` with its selection flag set to `v` and everything else kept.
pub open spec fn with_selected(d: DeviceView, v: bool) -> DeviceView {
    DeviceView { selected: v, ..d }
}

/// The position of the first selected device, if any is selected.
pub open spec fn spec_first_selected_index(s: Seq<DeviceView>) -> Option<int>
    decreases s.len(),
{
    if s.len() == 0 {
        None
    } else if s[0].selected {
        Some(0int)
    } else {
        match spec_first_selected_index(s.drop_first()) {
            Some(i) => Some(i + 1),
            None => None,
        }
    }
}

impl Devices {
    /// An empty fleet with the default client configuration.
    pub fn new() -> (r: Devices)
        ensures
            r@ == Seq::<DeviceView>::empty(),
    {
        let r = Devices { agent: new_agent(), bulbs: Vec::new() };
        proof {
            assert(r@ =~= Seq::<DeviceView>::empty());
        }
        r
    }

    /// How many devices the fleet holds.
    pub fn len(&self) -> (n: usize)
        ensures
            n == self@.len(),
    {
        self.bulbs.len()
    }

    /// A borrow of the device at `index`.
    pub fn get(&self, index: usize) -> (d: &Device)
        requires
            index < self@.len(),
        ensures
            d@ == self@[index as int],
    {
        &self.bulbs[index]
    }

    /// Removes the device at `index` from the fleet.
    pub fn remove_at(&mut self, index: usize)
        requires
            index < old(self)@.len(),
        ensures
            final(self)@ == old(self)@.remove(index as int),
    {
        let ghost pre = self@;
        self.bulbs.remove(index);
        proof {
            assert(self@ =~= pre.remove(index as int));
        }
    }

    /// Flips the selection flag of the device at `index`.
    pub fn flip_selected(&mut self, index: usize)
        requires
            index < old(self)@.len(),
        ensures
            final(self)@ == old(self)@.update(
                index as int,
                with_selected(old(self)@[index as int], !old(self)@[index as int].selected),
            ),
    {
        let ghost pre = self@;
        let now = self.bulbs[index].selected;
        self.bulbs[index].selected = !now;
        proof {
            assert(self@ =~= pre.update(
                index as int,
                with_selected(pre[index as int], !pre[index as int].selected),
            ));
        }
    }

    /// The position of the first selected device, if any.
    pub fn first_selected_index(&self) -> (r: Option<usize>)
        ensures
            match r {
                Some(i) => spec_first_selected_index(self@) == Some(i as int) && i < self@.len()
                    && self@[i as int].selected,
                None => spec_first_selected_index(self@) is None && !any_selected(self@),
            },
    {
        let n = self.bulbs.len();
        let mut i: usize = 0;
        while i < n
            invariant
                i <= n,
                n == self.bulbs@.len(),
                forall|j: int| 0 <= j < i ==> !(#[trigger] self@[j].selected),
            decreases n - i,
        {
            if self.bulbs[i].selected {
                proof {
                    lemma_first_selected_index(self@, i as int);
                }
                return Some(i);
            }
            i += 1;
        }
        proof {
            lemma_no_selected_index(self@);
        }
        None
    }

    /// Appends a device as it is, without reaching out to it: how a
    /// persisted or explicitly given address list is loaded.
    pub fn push_device(&mut self, d: Device)
        ensures
            final(self)@ == old(self)@.push(d@),
    {
        let ghost pre = self@;
        let ghost dv = d@;
        self.bulbs.push(d);
        proof {
            assert(self@ =~= pre.push(dv));
        }
    }

    /// Whether this address is already present.
    pub fn has_ip(&self, ip: &String) -> (r: bool)
        ensures
            r == spec_contains_ip(self@, ip@),
    {
        let n = self.bulbs.len();
        let mut i: usize = 0;
        while i < n
            invariant
                i <= n,
                n == self.bulbs@.len(),
                forall|j: int| 0 <= j < i ==> #[trigger] self@[j].ip != ip@,
            decreases n - i,
        {
            if self.bulbs[i].ip == *ip {
                proof {
                    assert(self@[i as int].ip == ip@);
                }
                return true;
            }
            i += 1;
        }
        false
    }

    /// Adds a device: rejected when the address is already present; else the
    /// new device must answer a status read before it is appended, so a
    /// fleet never holds a device that was never reached.
    pub fn add(&mut self, ip: String, name: String) -> (r: Result<String, ApiError>)
        ensures
            match r {
                Ok(msg) => {
                    &&& !spec_contains_ip(old(self)@, ip@)
                    &&& final(self)@.len() == old(self)@.len() + 1
                    &&& final(self)@.subrange(0, old(self)@.len() as int) == old(self)@
                    &&& final(self)@.last().ip == ip@
                    &&& final(self)@.last().name == name@
                    &&& final(self)@.last().selected
                    &&& exists|body: Seq<char>|
                        #[trigger] spec_decode_status(body) == Some(final(self)@.last().bulb)
                            && msg@ == status_message(ip@, body)
                },
                Err(e) => {
                    &&& final(self)@ == old(self)@
                    &&& (e is Duplicate <==> spec_contains_ip(old(self)@, ip@))
                    &&& (e matches ApiError::Duplicate { ip: dip } ==> dip@ == ip@)
                    &&& (e is Transport || e is Status || e is Decode || e is Duplicate)
                },
            },
    {
        if self.has_ip(&ip) {
            return Err(ApiError::Duplicate { ip });
        }
        let ghost pre = self@;
        let mut dev = Device::new(ip, name);
        match dev.get_status(&self.agent) {
            Ok(msg) => {
                self.bulbs.push(dev);
                proof {
                    assert(self@.subrange(0, pre.len() as int) =~= pre);
                    assert(self@.last() == dev@);
                }
                Ok(msg)
            },
            Err(e) => Err(e),
        }
    }

    /// Reads the status of every selected device in fleet order,
    /// concatenating the "address: body" reports in that order; stops at
    /// the first failure, leaving later devices unqueried. `None` is the
    /// no-output sentinel: nothing was selected.
    pub fn get_status(&mut self) -> (r: Result<Option<String>, ApiError>)
        ensures
            match r {
                Ok(out) => {
                    &&& fleet_refreshed(old(self)@, final(self)@, old(self)@.len() as int)
                    &&& (out is Some <==> any_selected(old(self)@))
                    &&& (out matches Some(s) ==> s@.len() > 0)
                    &&& exists|bodies: Seq<Seq<char>>|
                        {
                            &&& #[trigger] fleet_reported(
                                old(self)@,
                                final(self)@,
                                bodies,
                                old(self)@.len() as int,
                            )
                            &&& (out matches Some(s) ==> s@ == concat_reports(
                                old(self)@,
                                bodies,
                                old(self)@.len() as int,
                            ))
                        }
                },
                Err(e) => {
                    &&& (e is Transport || e is Status || e is Decode)
                    &&& exists|k: int|
                        0 <= k < old(self)@.len() && old(self)@[k].selected && #[trigger]
                        fleet_refreshed(old(self)@, final(self)@, k)
                },
            },
    {
        let ghost pre = self@;
        let n = self.bulbs.len();
        let mut resp = String::new();
        let mut i: usize = 0;
        let ghost mut bodies = Seq::new(pre.len(), |j: int| Seq::<char>::empty());
        while i < n
            invariant
                i <= n,
                n == self.bulbs@.len(),
                pre.len() == n,
                old(self)@ == pre,
                bodies.len() == n,
                fleet_refreshed(pre, self@, i as int),
                fleet_reported(pre, self@, bodies, i as int),
                resp@ == concat_reports(pre, bodies, i as int),
                resp@.len() > 0 <==> exists|j: int| 0 <= j < i && #[trigger] pre[j].selected,
            decreases n - i,
        {
            let ghost before = self@;
            let ghost before_bodies = bodies;
            proof {
                assert(self@[i as int] == pre[i as int]);
            }
            if self.bulbs[i].selected {
                proof {
                    assert(pre[i as int].selected);
                }
                match self.bulbs[i].get_status(&self.agent) {
                    Ok(msg) => {
                        resp.append(msg.as_str());
                        proof {
                            reveal_strlit(": ");
                            assert(msg@.len() >= 2);
                            assert forall|j: int|
                                0 <= j < pre.len() && j != i implies #[trigger] self@[j]
                                == before[j] by {}
                            assert(fleet_refreshed(pre, self@, i as int + 1));
                            let body = choose|body: Seq<char>|
                                #[trigger] spec_decode_status(body) == Some(self@[i as int].bulb)
                                    && msg@ == status_message(pre[i as int].ip, body);
                            bodies = bodies.update(i as int, body);
                            lemma_concat_reports_prefix(pre, before_bodies, bodies, i as int);
                            assert(fleet_reported(pre, self@, bodies, i as int + 1));
                            assert(resp@ == concat_reports(pre, bodies, i as int + 1));
                        }
                    },
                    Err(e) => {
                        proof {
                            assert(self@ =~= before);
                            assert(fleet_refreshed(old(self)@, self@, i as int));
                            assert(exists|k: int|
                                0 <= k < old(self)@.len() && old(self)@[k].selected
                                    && #[trigger] fleet_refreshed(old(self)@, self@, k));
                        }
                        return Err(e);
                    },
                }
            } else {
                proof {
                    assert(fleet_refreshed(pre, self@, i as int + 1));
                    assert(fleet_reported(pre, self@, bodies, i as int + 1));
                    assert(resp@ == concat_reports(pre, bodies, i as int + 1));
                }
            }
            i += 1;
        }
        proof {
            assert(fleet_reported(old(self)@, self@, bodies, old(self)@.len() as int));
        }
        if resp.as_str().is_empty() {
            Ok(None)
        } else {
            Ok(Some(resp))
        }
    }

    /// Applies one batch command to every selected device in fleet order,
    /// fail-fast.
    fn apply_selected(&mut self, op: &FleetOp) -> (r: Result<(), ApiError>)
        ensures
            match r {
                Ok(()) => fleet_updated(
                    old(self)@,
                    final(self)@,
                    old(self)@.len() as int,
                    op@,
                ),
                Err(e) => (e is Transport || e is Status) && exists|k: int|
                    0 <= k < old(self)@.len() && old(self)@[k].selected && #[trigger] fleet_updated(
                        old(self)@,
                        final(self)@,
                        k,
                        op@,
                    ),
            },
    {
        let ghost pre = self@;
        let n = self.bulbs.len();
        let mut i: usize = 0;
        while i < n
            invariant
                i <= n,
                n == self.bulbs@.len(),
                pre.len() == n,
                old(self)@ == pre,
                fleet_updated(pre, self@, i as int, op@),
            decreases n - i,
        {
            let ghost before = self@;
            proof {
                assert(self@[i as int] == pre[i as int]);
            }
            if self.bulbs[i].selected {
                proof {
                    assert(pre[i as int].selected);
                }
                let outcome = match op {
                    FleetOp::On => self.bulbs[i].on(&self.agent),
                    FleetOp::Off => self.bulbs[i].off(&self.agent),
                    FleetOp::Color(c) => self.bulbs[i].set_color(&self.agent, c.as_str()),
                    FleetOp::Brightness(b) => self.bulbs[i].set_brightness(
                        &self.agent,
                        b.as_str(),
                    ),
                };
                match outcome {
                    Ok(()) => {
                        proof {
                            assert forall|j: int|
                                0 <= j < pre.len() && j != i implies #[trigger] self@[j]
                                == before[j] by {}
                            assert(self@[i as int] == apply_op(op@, pre[i as int]));
                            assert(fleet_updated(pre, self@, i as int + 1, op@));
                        }
                    },
                    Err(e) => {
                        proof {
                            assert(self@ =~= before);
                            assert(fleet_updated(old(self)@, self@, i as int, op@));
                            assert(exists|k: int|
                                0 <= k < old(self)@.len() && old(self)@[k].selected
                                    && #[trigger] fleet_updated(old(self)@, self@, k, op@));
                        }
                        return Err(e);
                    },
                }
            } else {
                proof {
                    assert(fleet_updated(pre, self@, i as int + 1, op@));
                }
            }
            i += 1;
        }
        Ok(())
    }

    /// Turns every selected device on, fail-fast.
    pub fn on(&mut self) -> (r: Result<(), ApiError>)
        ensures
            match r {
                Ok(()) => fleet_updated(
                    old(self)@,
                    final(self)@,
                    old(self)@.len() as int,
                    FleetOpSpec::On,
                ),
                Err(e) => (e is Transport || e is Status) && exists|k: int|
                    0 <= k < old(self)@.len() && old(self)@[k].selected && #[trigger] fleet_updated(
                        old(self)@,
                        final(self)@,
                        k,
                        FleetOpSpec::On,
                    ),
            },
    {
        self.apply_selected(&FleetOp::On)
    }

    /// Turns every selected device off, fail-fast.
    pub fn off(&mut self) -> (r: Result<(), ApiError>)
        ensures
            match r {
                Ok(()) => fleet_updated(
                    old(self)@,
                    final(self)@,
                    old(self)@.len() as int,
                    FleetOpSpec::Off,
                ),
                Err(e) => (e is Transport || e is Status) && exists|k: int|
                    0 <= k < old(self)@.len() && old(self)@[k].selected && #[trigger] fleet_updated(
                        old(self)@,
                        final(self)@,
                        k,
                        FleetOpSpec::Off,
                    ),
            },
    {
        self.apply_selected(&FleetOp::Off)
    }

    /// The cached power flag of the first selected device, off when nothing
    /// is selected.
    pub fn first_selected_enabled(&self) -> (v: u8)
        ensures
            v == spec_first_selected_enabled(self@),
    {
        let n = self.bulbs.len();
        let mut i: usize = 0;
        while i < n
            invariant
                i <= n,
                n == self.bulbs@.len(),
                forall|j: int| 0 <= j < i ==> !(#[trigger] self@[j].selected),
            decreases n - i,
        {
            if self.bulbs[i].selected {
                proof {
                    lemma_first_selected(self@, i as int);
                }
                return self.bulbs[i].bulb.enabled;
            }
            i += 1;
        }
        proof {
            lemma_none_selected(self@);
        }
        0
    }

    /// Moves every selected device to the same power state in lock-step:
    /// off when the first selected device's cache reads on, else on.
    pub fn toggle(&mut self) -> (r: Result<(), ApiError>)
        ensures
            match r {
                Ok(()) => fleet_updated(
                    old(self)@,
                    final(self)@,
                    old(self)@.len() as int,
                    toggle_op(old(self)@),
                ),
                Err(e) => (e is Transport || e is Status) && exists|k: int|
                    0 <= k < old(self)@.len() && old(self)@[k].selected && #[trigger] fleet_updated(
                        old(self)@,
                        final(self)@,
                        k,
                        toggle_op(old(self)@),
                    ),
            },
    {
        let first_is_enabled = self.first_selected_enabled();
        if first_is_enabled == 1 {
            self.off()
        } else {
            self.on()
        }
    }

    /// Toggles exactly the device at `index`, ignoring selection.
    pub fn toggle_one(&mut self, index: usize) -> (r: Result<(), ApiError>)
        requires
            index < old(self)@.len(),
        ensures
            match r {
                Ok(()) => final(self)@ == old(self)@.update(
                    index as int,
                    with_enabled(
                        old(self)@[index as int],
                        if old(self)@[index as int].bulb.enabled == 1 {
                            0u8
                        } else {
                            1u8
                        },
                    ),
                ),
                Err(e) => final(self)@ == old(self)@ && (e is Transport || e is Status),
            },
    {
        let ghost pre = self@;
        let r = self.bulbs[index].toggle(&self.agent);
        proof {
            if r is Ok {
                assert(self@ =~= pre.update(
                    index as int,
                    with_enabled(
                        pre[index as int],
                        if pre[index as int].bulb.enabled == 1 {
                            0u8
                        } else {
                            1u8
                        },
                    ),
                ));
            } else {
                assert(self@ =~= pre);
            }
        }
        r
    }

    /// Sends one color to every selected device, fail-fast.
    pub fn set_color(&mut self, color: &str) -> (r: Result<(), ApiError>)
        ensures
            match r {
                Ok(()) => fleet_updated(
                    old(self)@,
                    final(self)@,
                    old(self)@.len() as int,
                    FleetOpSpec::Color(color@),
                ),
                Err(e) => (e is Transport || e is Status) && exists|k: int|
                    0 <= k < old(self)@.len() && old(self)@[k].selected && #[trigger] fleet_updated(
                        old(self)@,
                        final(self)@,
                        k,
                        FleetOpSpec::Color(color@),
                    ),
            },
    {
        self.apply_selected(&FleetOp::Color(color.to_owned()))
    }

    /// Sends one brightness text to every selected device, fail-fast.
    pub fn set_brightness(&mut self, value: &str) -> (r: Result<(), ApiError>)
        ensures
            match r {
                Ok(()) => fleet_updated(
                    old(self)@,
                    final(self)@,
                    old(self)@.len() as int,
                    FleetOpSpec::Brightness(value@),
                ),
                Err(e) => (e is Transport || e is Status) && exists|k: int|
                    0 <= k < old(self)@.len() && old(self)@[k].selected && #[trigger] fleet_updated(
                        old(self)@,
                        final(self)@,
                        k,
                        FleetOpSpec::Brightness(value@),
                    ),
            },
    {
        self.apply_selected(&FleetOp::Brightness(value.to_owned()))
    }
}

/// A color that was set and then read back survives the round trip: after
/// `set_color` succeeds the cache reads `#` plus the stripped digits, and a
/// following status read whose payload reports that same color leaves the
/// cache exactly there.
pub proof fn lemma_color_round_trip(d0: DeviceView, h: Seq<char>, body: Seq<char>)
    requires
        spec_decode_status(body) matches Some(b) && b.color == seq!['#'] + strip_hash(h),
    ensures
        ({
            let after_set = with_color(d0, seq!['#'] + strip_hash(h));
            let after_fetch = DeviceView {
                bulb: spec_decode_status(body)->Some_0,
                ..after_set
            };
            after_fetch.bulb.color == after_set.bulb.color
        }),
{
}

/// Toggling twice returns a device to its original state, provided the
/// power flag was a plain boolean reading to begin with — each toggle moves
/// to the opposite of the cached flag, and the device mirrors each call.
pub proof fn lemma_toggle_twice(d0: DeviceView)
    requires
        d0.bulb.enabled == 0 || d0.bulb.enabled == 1,
    ensures
        ({
            let d1 = with_enabled(
                d0,
                if d0.bulb.enabled == 1 {
                    0u8
                } else {
                    1u8
                },
            );
            let d2 = with_enabled(
                d1,
                if d1.bulb.enabled == 1 {
                    0u8
                } else {
                    1u8
                },
            );
            d2 == d0
        }),
{
    let d1 = with_enabled(
        d0,
        if d0.bulb.enabled == 1 {
            0u8
        } else {
            1u8
        },
    );
    let d2 = with_enabled(
        d1,
        if d1.bulb.enabled == 1 {
            0u8
        } else {
            1u8
        },
    );
    assert(d2 =~= d0);
}

/// A successful add leaves its address present, and when the address was
/// absent before, exactly one device of the fleet carries it: the second
/// add of the same address must answer `Duplicate` and change nothing.
pub proof fn lemma_add_makes_duplicate(
    pre: Seq<DeviceView>,
    post: Seq<DeviceView>,
    ip: Seq<char>,
    name: Seq<char>,
)
    requires
        fleet_extended(pre, post, ip, name),
        !spec_contains_ip(pre, ip),
    ensures
        spec_contains_ip(post, ip),
        forall|i: int, j: int|
            0 <= i < post.len() && 0 <= j < post.len() && post[i].ip == ip && post[j].ip == ip
                ==> i == j,
{
    assert(post[post.len() - 1].ip == ip);
    assert forall|i: int, j: int|
        0 <= i < post.len() && 0 <= j < post.len() && post[i].ip == ip && post[j].ip == ip
        implies i == j by {
        if i < pre.len() {
            assert(post.subrange(0, pre.len() as int)[i] == post[i]);
            assert(pre[i].ip == ip);
        }
        if j < pre.len() {
            assert(post.subrange(0, pre.len() as int)[j] == post[j]);
            assert(pre[j].ip == ip);
        }
    }
}

/// A fleet-wide toggle moves every selected device to one shared power
/// state — the opposite of the first selected device's cached flag — and
/// leaves every unselected device untouched.
pub proof fn lemma_toggle_all_lockstep(pre: Seq<DeviceView>, post: Seq<DeviceView>)
    requires
        fleet_updated(pre, post, pre.len() as int, toggle_op(pre)),
    ensures
        forall|i: int|
            0 <= i < pre.len() && pre[i].selected ==> (#[trigger] post[i]).bulb.enabled == (
            if spec_first_selected_enabled(pre) == 1 {
                0u8
            } else {
                1u8
            }),
        forall|i: int| 0 <= i < pre.len() && !pre[i].selected ==> #[trigger] post[i] == pre[i],
{
}

/// `s` without one leading `#`, when it starts with one.
pub open spec fn strip_hash(s: Seq<char>) -> Seq<char> {
    if s.len() > 0 && s[0] == '#' {
        s.subrange(1, s.len() as int)
    } else {
        s
    }
}

fn strip_hash_exec(s: &str) -> (r: &str)
    ensures
        r@ == strip_hash(s@),
{
    let n = s.unicode_len();
    if n > 0 && s.get_char(0) == '#' {
        s.substring_char(1, n)
    } else {
        s
    }
}

} // verus!
