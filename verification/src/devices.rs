//! Devices (barcode scanners, scales): their configurations, the events they
//! produce, the decoding of what a serial scanner or scale sends, and the
//! choice of driver for a configuration.

use vstd::prelude::*;
use vstd::string::StringSliceAdditionalSpecFns;
use vstd::utf8::encode_utf8;
use crate::platform::PlatformError;
use crate::json::{JsonValue, json_member_str};
use crate::text::{owned, concat2, concat3, str_eq, trim, trim_exec, is_blank, is_blank_exec, contains, contains_exec, replace_all, replace_exec};
use crate::trusted::{spec_utf8_lossy, utf8_lossy, regex_error, spec_regex_error, spec_regex_compiles, regex_capture1, spec_regex_capture1};
use crate::events::ActorSnapshot;

verus! {

/// The kinds of devices.
#[derive(PartialEq, Eq, Structural, Clone, Copy, Debug)]
pub enum DeviceKind {
    BarcodeScanner,
    Scale,
    FiscalPrinter,
    LabelPrinter,
}

/// The stored code of a device kind.
pub open spec fn kind_code(k: DeviceKind) -> Seq<char> {
    match k {
        DeviceKind::BarcodeScanner => "barcode_scanner"@,
        DeviceKind::Scale => "scale"@,
        DeviceKind::FiscalPrinter => "fiscal_printer"@,
        DeviceKind::LabelPrinter => "label_printer"@,
    }
}

/// The device kind a stored code names: its own code or the variant's name.
pub open spec fn kind_of_code(s: Seq<char>) -> Option<DeviceKind> {
    if s == "barcode_scanner"@ || s == "BarcodeScanner"@ { Some(DeviceKind::BarcodeScanner) }
    else if s == "scale"@ || s == "Scale"@ { Some(DeviceKind::Scale) }
    else if s == "fiscal_printer"@ || s == "FiscalPrinter"@ { Some(DeviceKind::FiscalPrinter) }
    else if s == "label_printer"@ || s == "LabelPrinter"@ { Some(DeviceKind::LabelPrinter) }
    else { None }
}

impl DeviceKind {
    /// The stored code of the kind.
    pub fn code(&self) -> (r: &'static str)
        ensures
            r@ == kind_code(*self),
    {
        match self {
            DeviceKind::BarcodeScanner => "barcode_scanner",
            DeviceKind::Scale => "scale",
            DeviceKind::FiscalPrinter => "fiscal_printer",
            DeviceKind::LabelPrinter => "label_printer",
        }
    }

    /// The kind a stored code names.
    pub fn from_code(s: &str) -> (r: Option<DeviceKind>)
        ensures
            r == kind_of_code(s@),
    {
        if str_eq(s, "barcode_scanner") || str_eq(s, "BarcodeScanner") { Some(DeviceKind::BarcodeScanner) }
        else if str_eq(s, "scale") || str_eq(s, "Scale") { Some(DeviceKind::Scale) }
        else if str_eq(s, "fiscal_printer") || str_eq(s, "FiscalPrinter") { Some(DeviceKind::FiscalPrinter) }
        else if str_eq(s, "label_printer") || str_eq(s, "LabelPrinter") { Some(DeviceKind::LabelPrinter) }
        else { None }
    }
}

/// A kind's stored code reads back as that kind.
pub proof fn lemma_kind_code_roundtrip(k: DeviceKind)
    ensures
        kind_of_code(kind_code(k)) == Some(k),
{
    reveal_strlit("barcode_scanner");
    reveal_strlit("BarcodeScanner");
    reveal_strlit("scale");
    reveal_strlit("Scale");
    reveal_strlit("fiscal_printer");
    reveal_strlit("FiscalPrinter");
    reveal_strlit("label_printer");
    match k {
        DeviceKind::BarcodeScanner => {},
        DeviceKind::Scale => {
            assert("scale"@.len() != "barcode_scanner"@.len());
            assert("scale"@.len() != "BarcodeScanner"@.len());
        },
        DeviceKind::FiscalPrinter => {
            assert("fiscal_printer"@[0] != "barcode_scanner"@[0]);
            assert("fiscal_printer"@[0] != "BarcodeScanner"@[0]);
        },
        DeviceKind::LabelPrinter => {
            assert("label_printer"@[0] != "barcode_scanner"@[0]);
            assert("label_printer"@[0] != "BarcodeScanner"@[0]);
            assert("label_printer"@[0] != "fiscal_printer"@[0]);
            assert("label_printer"@[0] != "FiscalPrinter"@[0]);
        },
    }
}

/// How a device is connected.
pub enum ConnectionKind {
    /// A keyboard-like device: the user interface listens to it.
    KeyboardWedge,
    Serial { port: String, baud: u32 },
    Tcp { host: String, port: u16 },
}

/// A device's configuration. Times are milliseconds since the Unix epoch.
pub struct DeviceConfig {
    pub id: String,
    pub company_id: String,
    pub kind: DeviceKind,
    pub name: String,
    pub connection: ConnectionKind,
    /// Protocol settings: the scale's pattern and unit, a scan handler, ….
    pub settings: JsonValue,
    pub is_active: bool,
    pub created_at: i64,
    pub updated_at: i64,
}

/// A configuration as the user enters it.
pub struct DeviceConfigInput {
    pub kind: DeviceKind,
    pub name: String,
    pub connection: ConnectionKind,
    pub settings: JsonValue,
    pub is_active: bool,
}

/// Whether an entered configuration is active when it does not say: yes.
pub fn default_true() -> (r: bool)
    ensures
        r,
{
    true
}

/// A serial port found on the machine.
pub struct PortInfo {
    pub path: String,
    pub description: String,
}

// ───────────────────────── events ─────────────────────────

/// What a device reports.
pub enum DeviceEvent {
    Scanned { device_id: String, code: String },
    Weighed { device_id: String, grams: u64, stable: bool },
    Connected { device_id: String },
    Disconnected { device_id: String },
    Error { device_id: String, message: String },
}

/// The device an event comes from.
pub open spec fn event_device(e: DeviceEvent) -> String {
    match e {
        DeviceEvent::Scanned { device_id, .. } => device_id,
        DeviceEvent::Weighed { device_id, .. } => device_id,
        DeviceEvent::Connected { device_id } => device_id,
        DeviceEvent::Disconnected { device_id } => device_id,
        DeviceEvent::Error { device_id, .. } => device_id,
    }
}

/// The event store's name of an event.
pub open spec fn event_type_name(e: DeviceEvent) -> Seq<char> {
    match e {
        DeviceEvent::Scanned { .. } => "device.scanned"@,
        DeviceEvent::Weighed { .. } => "device.weighed"@,
        DeviceEvent::Connected { .. } => "device.connected"@,
        DeviceEvent::Disconnected { .. } => "device.disconnected"@,
        DeviceEvent::Error { .. } => "device.error"@,
    }
}

impl DeviceEvent {
    /// The device the event comes from.
    pub fn device_id(&self) -> (r: &str)
        ensures
            r@ == event_device(*self)@,
    {
        match self {
            DeviceEvent::Scanned { device_id, .. } => device_id.as_str(),
            DeviceEvent::Weighed { device_id, .. } => device_id.as_str(),
            DeviceEvent::Connected { device_id } => device_id.as_str(),
            DeviceEvent::Disconnected { device_id } => device_id.as_str(),
            DeviceEvent::Error { device_id, .. } => device_id.as_str(),
        }
    }

    /// The event store's name of the event.
    pub fn event_type(&self) -> (r: &'static str)
        ensures
            r@ == event_type_name(*self),
    {
        match self {
            DeviceEvent::Scanned { .. } => "device.scanned",
            DeviceEvent::Weighed { .. } => "device.weighed",
            DeviceEvent::Connected { .. } => "device.connected",
            DeviceEvent::Disconnected { .. } => "device.disconnected",
            DeviceEvent::Error { .. } => "device.error",
        }
    }
}

/// The actor of device events: the nil user `device` of the company.
pub fn system_actor(company_id: String) -> (r: ActorSnapshot)
    ensures
        r.user_id@ == "00000000-0000-0000-0000-000000000000"@,
        r.login@ == "device"@,
        r.full_name is None,
        r.position is None,
        r.company_id == company_id,
{
    ActorSnapshot {
        user_id: owned("00000000-0000-0000-0000-000000000000"),
        login: owned("device"),
        full_name: None,
        position: None,
        company_id,
    }
}

/// The notification a device event raises, if any: errors, connections and
/// disconnections do; the title names the device; errors are warnings.
pub open spec fn notice_of(event_type: Seq<char>) -> Option<Seq<char>> {
    if contains(event_type, "error"@) || contains(event_type, "disconnect"@) || contains(event_type, "connected"@) {
        Some(if contains(event_type, "error"@) { "warning"@ } else { "info"@ })
    } else {
        None
    }
}

/// Whether a device event raises a notification, with its severity and title.
pub fn device_notice(ev: &DeviceEvent) -> (r: Option<(String, String)>)
    ensures
        match notice_of(event_type_name(*ev)) {
            Some(sev) => r matches Some((s, t)) && s@ == sev && t@ == "Устройство "@ + event_device(*ev)@,
            None => r is None,
        },
{
    let t = ev.event_type();
    if contains_exec(t, "error") || contains_exec(t, "disconnect") || contains_exec(t, "connected") {
        let sev = if contains_exec(t, "error") { owned("warning") } else { owned("info") };
        Some((sev, concat2("Устройство ", ev.device_id())))
    } else {
        None
    }
}

// ───────────────────────── serial lines ─────────────────────────

/// The bytes of a line read from a serial device, collected until a `\r` or `\n`.
pub struct LineBuffer {
    pub line: Vec<u8>,
}

/// Is the byte a line terminator?
pub open spec fn is_terminator(b: u8) -> bool {
    b == 13 || b == 10
}

impl LineBuffer {
    /// An empty buffer.
    pub fn new() -> (r: LineBuffer)
        ensures
            r.line@.len() == 0,
    {
        LineBuffer { line: Vec::new() }
    }

    /// Takes one byte: a terminator ends the collected line (handed out when
    /// it is not empty); any other byte is collected.
    pub fn feed(&mut self, b: u8) -> (r: Option<Vec<u8>>)
        ensures
            is_terminator(b) && old(self).line@.len() > 0 ==> (r matches Some(l) && l@ == old(self).line@
                && final(self).line@.len() == 0),
            is_terminator(b) && old(self).line@.len() == 0 ==> (r is None && final(self).line@.len() == 0),
            !is_terminator(b) ==> (r is None && final(self).line@ == old(self).line@.push(b)),
    {
        if b == 13 || b == 10 {
            if self.line.len() > 0 {
                let mut l: Vec<u8> = Vec::new();
                std::mem::swap(&mut l, &mut self.line);
                Some(l)
            } else {
                None
            }
        } else {
            self.line.push(b);
            None
        }
    }
}

/// The code a scanner sent in a line: the line decoded (lossily) and trimmed,
/// when it has at least 4 bytes.
pub open spec fn scanned_code(line: Seq<u8>) -> Option<Seq<char>> {
    let t = trim(spec_utf8_lossy(line));
    if encode_utf8(t).len() >= 4 { Some(t) } else { None }
}

/// A barcode scanner on a serial port.
pub struct SerialScanner {
    pub port: String,
    pub baud: u32,
}

impl SerialScanner {
    /// The scanner on a port at a speed.
    pub fn new(port: String, baud: u32) -> (r: SerialScanner)
        ensures
            r.port == port,
            r.baud == baud,
    {
        SerialScanner { port, baud }
    }

    /// The scan event of a completed line, if the line holds a code.
    pub fn line_event(device_id: &str, line: &[u8]) -> (r: Option<DeviceEvent>)
        ensures
            match scanned_code(line@) {
                Some(c) => r matches Some(DeviceEvent::Scanned { device_id: d, code }) && d@ == device_id@ && code@ == c,
                None => r is None,
            },
    {
        let text = utf8_lossy(line);
        let code = trim_exec(text.as_str());
        if code.as_str().as_bytes().len() >= 4 {
            Some(DeviceEvent::Scanned { device_id: owned(device_id), code })
        } else {
            None
        }
    }

    /// The scan events of a chunk of bytes read from the port: one per
    /// completed line that holds a code, in order; the buffer keeps the
    /// unfinished line.
    pub fn feed_chunk(buffer: &mut LineBuffer, device_id: &str, chunk: &[u8]) -> (r: Vec<DeviceEvent>)
        ensures
            final(buffer).line@ == chunk_lines(old(buffer).line@, chunk@).1,
            r@.len() == line_codes(chunk_lines(old(buffer).line@, chunk@).0).len(),
            forall|i: int| 0 <= i < r@.len() ==> ((#[trigger] r@[i]) matches DeviceEvent::Scanned { device_id: d, code }
                && d@ == device_id@ && code@ == line_codes(chunk_lines(old(buffer).line@, chunk@).0)[i]),
    {
        let ghost start = buffer.line@;
        let mut out: Vec<DeviceEvent> = Vec::new();
        let mut i: usize = 0;
        proof {
            assert(chunk@.take(0) =~= Seq::<u8>::empty());
        }
        while i < chunk.len()
            invariant
                i <= chunk.len(),
                buffer.line@ == chunk_lines(start, chunk@.take(i as int)).1,
                out@.len() == line_codes(chunk_lines(start, chunk@.take(i as int)).0).len(),
                forall|k: int| 0 <= k < out@.len() ==> ((#[trigger] out@[k]) matches DeviceEvent::Scanned { device_id: d, code }
                    && d@ == device_id@ && code@ == line_codes(chunk_lines(start, chunk@.take(i as int)).0)[k]),
            decreases chunk.len() - i,
        {
            let ghost ls = chunk_lines(start, chunk@.take(i as int)).0;
            proof {
                assert(chunk@.take(i + 1).drop_last() =~= chunk@.take(i as int));
                assert(chunk@.take(i + 1).last() == chunk@[i as int]);
            }
            match buffer.feed(chunk[i]) {
                Some(line) => {
                    proof {
                        assert(chunk_lines(start, chunk@.take(i + 1)).0 == ls.push(line@));
                        assert(ls.push(line@).drop_last() =~= ls);
                        assert(ls.push(line@).last() == line@);
                    }
                    match SerialScanner::line_event(device_id, line.as_slice()) {
                        Some(e) => { out.push(e); },
                        None => {},
                    }
                },
                None => {
                    proof {
                        assert(chunk_lines(start, chunk@.take(i + 1)).0 == ls);
                    }
                },
            }
            i = i + 1;
        }
        proof {
            assert(chunk@.take(chunk@.len() as int) =~= chunk@);
        }
        out
    }
}

/// Feeding bytes to a line buffer holding `line`: the lines completed (in
/// order, empty ones skipped) and what the buffer holds afterwards.
pub open spec fn chunk_lines(line: Seq<u8>, chunk: Seq<u8>) -> (Seq<Seq<u8>>, Seq<u8>)
    decreases chunk.len(),
{
    if chunk.len() == 0 {
        (Seq::empty(), line)
    } else {
        let before = chunk_lines(line, chunk.drop_last());
        let b = chunk.last();
        if is_terminator(b) {
            if before.1.len() > 0 {
                (before.0.push(before.1), Seq::empty())
            } else {
                (before.0, Seq::empty())
            }
        } else {
            (before.0, before.1.push(b))
        }
    }
}

/// The codes of the lines that hold one, in order.
pub open spec fn line_codes(lines: Seq<Seq<u8>>) -> Seq<Seq<char>>
    decreases lines.len(),
{
    if lines.len() == 0 {
        Seq::empty()
    } else {
        let before = line_codes(lines.drop_last());
        match scanned_code(lines.last()) {
            Some(c) => before.push(c),
            None => before,
        }
    }
}

/// A readable hint for the usual errors of opening a serial port.
pub open spec fn friendly_error(port: Seq<char>, raw: Seq<char>) -> Seq<char> {
    if contains(raw, "Permission denied"@) {
        port + ": доступ запрещён. Пользователь не в группе dialout.\nВыполните: sudo usermod -aG dialout $USER — и перелогиньтесь."@
    } else if contains(raw, "No such file or directory"@) {
        port + ": порт не найден. Переподключите устройство и обновите список портов."@
    } else if contains(raw, "Device or resource busy"@) {
        port + ": занят другим процессом (например, модемным менеджером)."@
    } else {
        port + ": "@ + raw
    }
}

/// The message for an error (its text `raw`) of a serial port.
pub fn scanner_friendly_error(port: &str, raw: &str) -> (r: String)
    ensures
        r@ == friendly_error(port@, raw@),
{
    if contains_exec(raw, "Permission denied") {
        concat2(port, ": доступ запрещён. Пользователь не в группе dialout.\nВыполните: sudo usermod -aG dialout $USER — и перелогиньтесь.")
    } else if contains_exec(raw, "No such file or directory") {
        concat2(port, ": порт не найден. Переподключите устройство и обновите список портов.")
    } else if contains_exec(raw, "Device or resource busy") {
        concat2(port, ": занят другим процессом (например, модемным менеджером).")
    } else {
        concat3(port, ": ", raw)
    }
}

// ───────────────────────── scales ─────────────────────────

/// The unit a scale reports in.
#[derive(PartialEq, Eq, Structural, Clone, Copy, Debug)]
pub enum ScaleUnit {
    Grams,
    Kilograms,
}

/// The default pattern of a scale's line: a number followed by a unit.
pub open spec fn default_scale_pattern() -> Seq<char> {
    "^.*?([0-9]+\\.?[0-9]*)\\s*(kg|г|g)"@
}

/// A scale on a serial port: its line pattern (one capture group holds the
/// weight) and its unit.
pub struct SerialScale {
    pub port: String,
    pub baud: u32,
    pub pattern: String,
    pub unit: ScaleUnit,
}

/// What a scale has seen: the last weight and how many readings in a row
/// repeated it.
pub struct ScaleReadings {
    pub last_grams: u64,
    pub same_count: u32,
}

impl SerialScale {
    /// The scale with its settings: the pattern defaults to a number followed
    /// by `kg`, `г` or `g`; the unit is grams for `"g"` and kilograms
    /// otherwise. A pattern that does not compile is refused.
    pub fn new(port: String, baud: u32, pattern: Option<&str>, unit: Option<&str>) -> (r: Result<SerialScale, String>)
        ensures
            ({
                let pat = match pattern { Some(p) => p@, None => default_scale_pattern() };
                &&& !spec_regex_compiles(pat) ==> (r matches Err(m)
                    && m@ == "Невалидный pattern '"@ + pat + "': "@ + spec_regex_error(pat))
                &&& spec_regex_compiles(pat) ==> (r matches Ok(s) && s.port == port && s.baud == baud && s.pattern@ == pat
                    && s.unit == (if unit matches Some(u) && u@ == "g"@ { ScaleUnit::Grams } else { ScaleUnit::Kilograms }))
            }),
    {
        let pat: &str = match pattern {
            Some(p) => p,
            None => "^.*?([0-9]+\\.?[0-9]*)\\s*(kg|г|g)",
        };
        match regex_error(pat) {
            Some(e) => {
                let mut m = concat3("Невалидный pattern '", pat, "': ");
                m.append(e.as_str());
                Err(m)
            },
            None => {
                let u = match unit {
                    Some(u) => if str_eq(u, "g") { ScaleUnit::Grams } else { ScaleUnit::Kilograms },
                    None => ScaleUnit::Kilograms,
                };
                Ok(SerialScale { port, baud, pattern: owned(pat), unit: u })
            },
        }
    }

    /// Takes one weight read from the scale (in grams, already converted from
    /// the scale's unit): a zero weight is ignored; a weight equal to the
    /// previous one counts as a repeat; the reading is stable from the first
    /// repeat on.
    pub fn weigh(readings: &mut ScaleReadings, device_id: &str, grams: u64) -> (r: Option<DeviceEvent>)
        requires
            old(readings).same_count < u32::MAX,
        ensures
            grams == 0 ==> r is None && *final(readings) == *old(readings),
            grams > 0 ==> ({
                let same = if grams == old(readings).last_grams { old(readings).same_count + 1 } else { 0 };
                &&& final(readings).last_grams == grams
                &&& final(readings).same_count == same
                &&& r matches Some(DeviceEvent::Weighed { device_id: d, grams: g, stable })
                    && d@ == device_id@ && g == grams && stable == (same >= 1)
            }),
    {
        if grams == 0 {
            return None;
        }
        let same: u32 = if grams == readings.last_grams { readings.same_count + 1 } else { 0 };
        readings.same_count = same;
        readings.last_grams = grams;
        Some(DeviceEvent::Weighed { device_id: owned(device_id), grams, stable: same >= 1 })
    }
}

/// The weight text of a line a scale sent: the line decoded (lossily) and
/// trimmed, then capture group 1 of the scale's pattern, with every `,` made
/// a `.` (a decimal comma is read as a point).
pub open spec fn spec_scale_weight_text(pattern: Seq<char>, line: Seq<u8>) -> Option<Seq<char>> {
    match spec_regex_capture1(pattern, trim(spec_utf8_lossy(line))) {
        Some(c) => Some(replace_all(c, ","@, "."@)),
        None => None,
    }
}

/// The weight text of a line a scale sent (see `spec_scale_weight_text`);
/// reading it as a number in the scale's unit is left to the caller. A
/// pattern that does not compile finds nothing.
pub fn scale_weight_text(pattern: &str, line: &[u8]) -> (r: Option<String>)
    ensures
        !spec_regex_compiles(pattern@) ==> r is None,
        spec_regex_compiles(pattern@) ==> match spec_scale_weight_text(pattern@, line@) {
            Some(t) => r matches Some(s) && s@ == t,
            None => r is None,
        },
{
    if regex_error(pattern).is_some() {
        return None;
    }
    let text = utf8_lossy(line);
    let trimmed = trim_exec(text.as_str());
    match regex_capture1(pattern, trimmed.as_str()) {
        Some(c) => {
            proof { reveal_strlit(","); }
            Some(replace_exec(c.as_str(), ",", "."))
        },
        None => None,
    }
}

/// What the test of a scale reads from the bytes received so far: capture
/// group 1 of the pattern in the bytes decoded (lossily, not trimmed), and
/// whether the decoded text has grown past 512 bytes, so that the bytes are
/// dropped before more are read. A pattern that does not compile finds
/// nothing.
pub fn scale_test_reading(pattern: &str, received: &[u8]) -> (r: (Option<String>, bool))
    ensures
        !spec_regex_compiles(pattern@) ==> r.0 is None,
        spec_regex_compiles(pattern@) ==> match spec_regex_capture1(pattern@, spec_utf8_lossy(received@)) {
            Some(c) => r.0 matches Some(s) && s@ == c,
            None => r.0 is None,
        },
        r.1 == (encode_utf8(spec_utf8_lossy(received@)).len() > 512),
{
    let text = utf8_lossy(received);
    let capture = if regex_error(pattern).is_some() { None } else { regex_capture1(pattern, text.as_str()) };
    let overflow = text.as_str().as_bytes().len() > 512;
    (capture, overflow)
}

/// A scale's reading is stable exactly when it repeats the weight read just
/// before it.
pub proof fn lemma_stable_iff_repeat(last_grams: u64, same_count: u32, grams: u64)
    requires
        grams > 0,
    ensures
        ((if grams == last_grams { same_count + 1 } else { 0 }) >= 1) <==> grams == last_grams,
{
}

// ───────────────────────── drivers ─────────────────────────

/// The driver that runs a configuration.
pub enum DriverPlan {
    Scanner(SerialScanner),
    Scale(SerialScale),
}

/// The scale's settings of a configuration: its `pattern` and `unit` members.
pub open spec fn setting_of(settings: JsonValue, key: Seq<char>) -> Option<Seq<char>> {
    json_member_str(settings, key)
}

/// The driver a configuration gets: a serial scanner or scale (a scale's
/// pattern must compile); a keyboard device needs none, TCP is not supported
/// yet, other pairs not at all.
pub open spec fn driver_built(cfg: DeviceConfig, r: Result<DriverPlan, String>) -> bool {
    match (cfg.kind, cfg.connection) {
        (DeviceKind::BarcodeScanner, ConnectionKind::Serial { port, baud }) =>
            r matches Ok(DriverPlan::Scanner(s)) && s.port == port && s.baud == baud,
        (DeviceKind::Scale, ConnectionKind::Serial { port, baud }) => {
            let pat = match setting_of(cfg.settings, "pattern"@) { Some(p) => p, None => default_scale_pattern() };
            let unit = setting_of(cfg.settings, "unit"@);
            &&& spec_regex_compiles(pat) ==> (r matches Ok(DriverPlan::Scale(s)) && s.port == port && s.baud == baud
                && s.pattern@ == pat
                && s.unit == (if unit == Some("g"@) { ScaleUnit::Grams } else { ScaleUnit::Kilograms }))
            &&& !spec_regex_compiles(pat) ==> (r matches Err(m)
                && m@ == "Невалидный pattern '"@ + pat + "': "@ + spec_regex_error(pat))
        },
        (DeviceKind::BarcodeScanner, ConnectionKind::KeyboardWedge) | (DeviceKind::Scale, ConnectionKind::KeyboardWedge) =>
            r matches Err(m) && m@ == "KeyboardWedge не требует подключения (слушает фронтенд)"@,
        (_, ConnectionKind::Tcp { .. }) => r matches Err(m) && m@ == "TCP-подключения пока не поддерживаются"@,
        _ => r matches Err(m) && m@ == "Такое сочетание типа устройства и подключения не поддерживается"@,
    }
}

/// The devices of the platform.
pub struct DeviceService;

impl DeviceService {
    /// The driver for a configuration: a serial scanner or scale; a keyboard
    /// device needs none, TCP is not supported yet, other pairs not at all.
    pub fn build_driver(cfg: &DeviceConfig) -> (r: Result<DriverPlan, String>)
        ensures
            driver_built(*cfg, r),
    {
        match (&cfg.kind, &cfg.connection) {
            (DeviceKind::BarcodeScanner, ConnectionKind::Serial { port, baud }) => {
                Ok(DriverPlan::Scanner(SerialScanner::new(port.clone(), *baud)))
            },
            (DeviceKind::Scale, ConnectionKind::Serial { port, baud }) => {
                let pattern = cfg.settings.member_str("pattern");
                let unit = cfg.settings.member_str("unit");
                match SerialScale::new(port.clone(), *baud, pattern, unit) {
                    Ok(s) => Ok(DriverPlan::Scale(s)),
                    Err(e) => Err(e),
                }
            },
            (DeviceKind::BarcodeScanner, ConnectionKind::KeyboardWedge) | (DeviceKind::Scale, ConnectionKind::KeyboardWedge) => {
                Err(owned("KeyboardWedge не требует подключения (слушает фронтенд)"))
            },
            (_, ConnectionKind::Tcp { .. }) => Err(owned("TCP-подключения пока не поддерживаются")),
            _ => Err(owned("Такое сочетание типа устройства и подключения не поддерживается")),
        }
    }

    /// What testing a configuration does: a keyboard device is ready at once;
    /// a serial scanner or scale is tried through its driver; other pairs
    /// cannot be tested.
    pub fn test_plan(cfg: &DeviceConfig) -> (r: Result<Option<DriverPlan>, String>)
        ensures
            cfg.connection is KeyboardWedge ==> r == Ok::<Option<DriverPlan>, String>(None),
            !(cfg.connection is KeyboardWedge) && !(cfg.connection is Serial && (cfg.kind == DeviceKind::BarcodeScanner || cfg.kind == DeviceKind::Scale))
                ==> (r matches Err(m) && m@ == "Тест для этого сочетания не поддерживается"@),
            cfg.connection is Serial && (cfg.kind == DeviceKind::BarcodeScanner || cfg.kind == DeviceKind::Scale) ==> match r {
                Ok(Some(p)) => driver_built(*cfg, Ok(p)),
                Ok(None) => false,
                Err(m) => driver_built(*cfg, Err(m)),
            },
    {
        match &cfg.connection {
            ConnectionKind::KeyboardWedge => Ok(None),
            ConnectionKind::Serial { .. } => {
                if cfg.kind == DeviceKind::BarcodeScanner || cfg.kind == DeviceKind::Scale {
                    match DeviceService::build_driver(cfg) {
                        Ok(p) => Ok(Some(p)),
                        Err(e) => Err(e),
                    }
                } else {
                    Err(owned("Тест для этого сочетания не поддерживается"))
                }
            },
            ConnectionKind::Tcp { .. } => Err(owned("Тест для этого сочетания не поддерживается")),
        }
    }

    /// The message of a ready keyboard device.
    pub fn keyboard_ready_message() -> (r: String)
        ensures
            r@ == "KeyboardWedge готов: отсканируйте код в тестовом поле"@,
    {
        owned("KeyboardWedge готов: отсканируйте код в тестовом поле")
    }

    /// The configuration that saving an entered one gives: a new one (with the
    /// given id and time), or the stored one `existing` with the entered values.
    /// A blank name is refused; so is another company's device.
    pub fn apply_save(
        existing: Option<DeviceConfig>,
        company_id: &str,
        input: DeviceConfigInput,
        new_id: String,
        now: i64,
    ) -> (r: Result<DeviceConfig, PlatformError>)
        ensures
            is_blank(input.name@) ==> (r matches Err(PlatformError::Validation(m)) && m@ == "Укажите название устройства"@),
            !is_blank(input.name@) ==> match existing {
                Some(e) => if e.company_id@ != company_id@ {
                    r matches Err(PlatformError::PermissionDenied(m)) && m@ == "Устройство другой компании"@
                } else {
                    r matches Ok(c) && c.id == e.id && c.company_id == e.company_id && c.created_at == e.created_at
                        && c.kind == input.kind && c.name == input.name && c.connection == input.connection
                        && c.settings == input.settings && c.is_active == input.is_active && c.updated_at == now
                },
                None => r matches Ok(c) && c.id == new_id && c.company_id@ == company_id@ && c.created_at == now
                    && c.kind == input.kind && c.name == input.name && c.connection == input.connection
                    && c.settings == input.settings && c.is_active == input.is_active && c.updated_at == now,
            },
    {
        if is_blank_exec(input.name.as_str()) {
            return Err(PlatformError::Validation(owned("Укажите название устройства")));
        }
        match existing {
            Some(e) => {
                if !str_eq(e.company_id.as_str(), company_id) {
                    return Err(PlatformError::PermissionDenied(owned("Устройство другой компании")));
                }
                Ok(DeviceConfig {
                    kind: input.kind,
                    name: input.name,
                    connection: input.connection,
                    settings: input.settings,
                    is_active: input.is_active,
                    updated_at: now,
                    ..e
                })
            },
            None => Ok(DeviceConfig {
                id: new_id,
                company_id: owned(company_id),
                kind: input.kind,
                name: input.name,
                connection: input.connection,
                settings: input.settings,
                is_active: input.is_active,
                created_at: now,
                updated_at: now,
            }),
        }
    }

    /// A device may be deleted only by its own company.
    pub fn check_delete(cfg: &DeviceConfig, company_id: &str) -> (r: Result<(), PlatformError>)
        ensures
            cfg.company_id@ == company_id@ ==> r is Ok,
            cfg.company_id@ != company_id@ ==> (r matches Err(PlatformError::PermissionDenied(m)) && m@ == "Устройство другой компании"@),
    {
        if str_eq(cfg.company_id.as_str(), company_id) {
            Ok(())
        } else {
            Err(PlatformError::PermissionDenied(owned("Устройство другой компании")))
        }
    }

    /// `NotFound` for a device id.
    pub fn not_found(id: &str) -> (r: PlatformError)
        ensures
            r matches PlatformError::NotFound(m) && m@ == "Устройство "@ + id@ + " не найдено"@,
    {
        PlatformError::NotFound(concat3("Устройство ", id, " не найдено"))
    }
}

/// A serial port as the user interface lists it.
pub struct PortDto {
    pub path: String,
    pub description: String,
}

/// The listed form of a port.
pub fn port_dto(p: PortInfo) -> (r: PortDto)
    ensures
        r.path == p.path,
        r.description == p.description,
{
    PortDto { path: p.path, description: p.description }
}

} // verus!
