//! The request data model and its canonical renderers.

use crate::text::{dec_str, hex_str, push_dec, push_hex};
use vstd::prelude::*;
use vstd::string::*;

verus! {

/// What went wrong in a parse.
#[derive(Clone, Copy, Debug, PartialEq, Eq, Structural)]
pub enum ErrorKind {
    /// The device name is not followed by `:` or `|`.
    ExpectedSeparator,
    /// A name, category, field, unit, letter or symbol is not in the vocabulary.
    UnknownToken,
    /// A numeral is missing, or too large for its field.
    MalformedNumber,
    /// A range is not closed by its bracket.
    UnterminatedBracket,
    /// A request was recognised on a prefix, but characters remain.
    TrailingInput,
}

/// A parse failure: its kind and the character position where it was found.
#[derive(Clone, Copy, Debug, PartialEq, Eq, Structural)]
pub struct ParseError {
    pub kind: ErrorKind,
    pub position: usize,
}

/// A field of the reading category.
#[derive(Clone, Copy, Debug, PartialEq, Eq, Structural)]
pub enum ReadingField {
    Raw,
    Primary,
    Scaled,
}

impl ReadingField {
    /// The field's token, with its leading dot.
    pub open spec fn spec_canonical(self) -> Seq<char> {
        match self {
            ReadingField::Raw => ".RAW"@,
            ReadingField::Primary => ".PRIMARY"@,
            ReadingField::Scaled => ".SCALED"@,
        }
    }

    /// The field used when the request names none.
    pub fn default() -> (r: Self)
        ensures
            r == ReadingField::Scaled,
    {
        ReadingField::Scaled
    }

    pub fn canonical(&self) -> (r: &'static str)
        ensures
            r@ == self.spec_canonical(),
    {
        match *self {
            ReadingField::Raw => ".RAW",
            ReadingField::Primary => ".PRIMARY",
            ReadingField::Scaled => ".SCALED",
        }
    }
}

/// A field of the setting category.
#[derive(Clone, Copy, Debug, PartialEq, Eq, Structural)]
pub enum SettingField {
    Raw,
    Primary,
    Scaled,
}

impl SettingField {
    /// The field's token, with its leading dot.
    pub open spec fn spec_canonical(self) -> Seq<char> {
        match self {
            SettingField::Raw => ".RAW"@,
            SettingField::Primary => ".PRIMARY"@,
            SettingField::Scaled => ".SCALED"@,
        }
    }

    /// The field used when the request names none.
    pub fn default() -> (r: Self)
        ensures
            r == SettingField::Scaled,
    {
        SettingField::Scaled
    }

    pub fn canonical(&self) -> (r: &'static str)
        ensures
            r@ == self.spec_canonical(),
    {
        match *self {
            SettingField::Raw => ".RAW",
            SettingField::Primary => ".PRIMARY",
            SettingField::Scaled => ".SCALED",
        }
    }
}

/// A field of the status category.
#[derive(Clone, Copy, Debug, PartialEq, Eq, Structural)]
pub enum StatusField {
    Raw,
    All,
    Text,
    ExtText,
    On,
    Ready,
    Remote,
    Positive,
    Ramp,
}

impl StatusField {
    /// The field's token, with its leading dot.
    pub open spec fn spec_canonical(self) -> Seq<char> {
        match self {
            StatusField::Raw => ".RAW"@,
            StatusField::All => ".ALL"@,
            StatusField::Text => ".TEXT"@,
            StatusField::ExtText => ".EXTENDED_TEXT"@,
            StatusField::On => ".ON"@,
            StatusField::Ready => ".READY"@,
            StatusField::Remote => ".REMOTE"@,
            StatusField::Positive => ".POSITIVE"@,
            StatusField::Ramp => ".RAMP"@,
        }
    }

    /// The field used when the request names none.
    pub fn default() -> (r: Self)
        ensures
            r == StatusField::All,
    {
        StatusField::All
    }

    pub fn canonical(&self) -> (r: &'static str)
        ensures
            r@ == self.spec_canonical(),
    {
        match *self {
            StatusField::Raw => ".RAW",
            StatusField::All => ".ALL",
            StatusField::Text => ".TEXT",
            StatusField::ExtText => ".EXTENDED_TEXT",
            StatusField::On => ".ON",
            StatusField::Ready => ".READY",
            StatusField::Remote => ".REMOTE",
            StatusField::Positive => ".POSITIVE",
            StatusField::Ramp => ".RAMP",
        }
    }
}

/// A field of the analog alarm category.
#[derive(Clone, Copy, Debug, PartialEq, Eq, Structural)]
pub enum AnalogField {
    Raw,
    All,
    Text,
    Min,
    Max,
    Nom,
    Tol,
    RawMin,
    RawMax,
    RawNom,
    RawTol,
    Enable,
    Status,
    TriesNeeded,
    TriesNow,
    FTD,
    Abort,
    AbortInhibit,
    Flags,
}

impl AnalogField {
    /// The field's token, with its leading dot.
    pub open spec fn spec_canonical(self) -> Seq<char> {
        match self {
            AnalogField::Raw => ".RAW"@,
            AnalogField::All => ".ALL"@,
            AnalogField::Text => ".TEXT"@,
            AnalogField::Min => ".MIN"@,
            AnalogField::Max => ".MAX"@,
            AnalogField::Nom => ".NOM"@,
            AnalogField::Tol => ".TOL"@,
            AnalogField::RawMin => ".RAW_MIN"@,
            AnalogField::RawMax => ".RAW_MAX"@,
            AnalogField::RawNom => ".RAW_NOM"@,
            AnalogField::RawTol => ".RAW_TOL"@,
            AnalogField::Enable => ".ALARM_ENABLE"@,
            AnalogField::Status => ".ALARM_STATUS"@,
            AnalogField::TriesNeeded => ".TRIES_NEEDED"@,
            AnalogField::TriesNow => ".TRIES_NOW"@,
            AnalogField::FTD => ".ALARM_FTD"@,
            AnalogField::Abort => ".ABORT"@,
            AnalogField::AbortInhibit => ".ABORT_INHIBIT"@,
            AnalogField::Flags => ".FLAGS"@,
        }
    }

    /// The field used when the request names none.
    pub fn default() -> (r: Self)
        ensures
            r == AnalogField::All,
    {
        AnalogField::All
    }

    pub fn canonical(&self) -> (r: &'static str)
        ensures
            r@ == self.spec_canonical(),
    {
        match *self {
            AnalogField::Raw => ".RAW",
            AnalogField::All => ".ALL",
            AnalogField::Text => ".TEXT",
            AnalogField::Min => ".MIN",
            AnalogField::Max => ".MAX",
            AnalogField::Nom => ".NOM",
            AnalogField::Tol => ".TOL",
            AnalogField::RawMin => ".RAW_MIN",
            AnalogField::RawMax => ".RAW_MAX",
            AnalogField::RawNom => ".RAW_NOM",
            AnalogField::RawTol => ".RAW_TOL",
            AnalogField::Enable => ".ALARM_ENABLE",
            AnalogField::Status => ".ALARM_STATUS",
            AnalogField::TriesNeeded => ".TRIES_NEEDED",
            AnalogField::TriesNow => ".TRIES_NOW",
            AnalogField::FTD => ".ALARM_FTD",
            AnalogField::Abort => ".ABORT",
            AnalogField::AbortInhibit => ".ABORT_INHIBIT",
            AnalogField::Flags => ".FLAGS",
        }
    }
}

/// A field of the digital alarm category.
#[derive(Clone, Copy, Debug, PartialEq, Eq, Structural)]
pub enum DigitalField {
    Raw,
    All,
    Text,
    Nom,
    Mask,
    Enable,
    Status,
    TriesNeeded,
    TriesNow,
    FTD,
    Abort,
    AbortInhibit,
    Flags,
}

impl DigitalField {
    /// The field's token, with its leading dot.
    pub open spec fn spec_canonical(self) -> Seq<char> {
        match self {
            DigitalField::Raw => ".RAW"@,
            DigitalField::All => ".ALL"@,
            DigitalField::Text => ".TEXT"@,
            DigitalField::Nom => ".NOM"@,
            DigitalField::Mask => ".MASK"@,
            DigitalField::Enable => ".ALARM_ENABLE"@,
            DigitalField::Status => ".ALARM_STATUS"@,
            DigitalField::TriesNeeded => ".TRIES_NEEDED"@,
            DigitalField::TriesNow => ".TRIES_NOW"@,
            DigitalField::FTD => ".ALARM_FTD"@,
            DigitalField::Abort => ".ABORT"@,
            DigitalField::AbortInhibit => ".ABORT_INHIBIT"@,
            DigitalField::Flags => ".FLAGS"@,
        }
    }

    /// The field used when the request names none.
    pub fn default() -> (r: Self)
        ensures
            r == DigitalField::All,
    {
        DigitalField::All
    }

    pub fn canonical(&self) -> (r: &'static str)
        ensures
            r@ == self.spec_canonical(),
    {
        match *self {
            DigitalField::Raw => ".RAW",
            DigitalField::All => ".ALL",
            DigitalField::Text => ".TEXT",
            DigitalField::Nom => ".NOM",
            DigitalField::Mask => ".MASK",
            DigitalField::Enable => ".ALARM_ENABLE",
            DigitalField::Status => ".ALARM_STATUS",
            DigitalField::TriesNeeded => ".TRIES_NEEDED",
            DigitalField::TriesNow => ".TRIES_NOW",
            DigitalField::FTD => ".ALARM_FTD",
            DigitalField::Abort => ".ABORT",
            DigitalField::AbortInhibit => ".ABORT_INHIBIT",
            DigitalField::Flags => ".FLAGS",
        }
    }
}

/// The data facet of a device that a request selects, with its field.
#[derive(Clone, Copy, Debug, PartialEq, Eq, Structural)]
pub enum Property {
    Reading(ReadingField),
    Setting(SettingField),
    Status(StatusField),
    Control,
    Analog(AnalogField),
    Digital(DigitalField),
    Description,
    Index,
    LongName,
    AlarmList,
}

impl Property {
    /// The category's token, with its leading dot.
    pub open spec fn spec_category(self) -> Seq<char> {
        match self {
            Property::Reading(_) => ".READING"@,
            Property::Setting(_) => ".SETTING"@,
            Property::Status(_) => ".STATUS"@,
            Property::Control => ".CONTROL"@,
            Property::Analog(_) => ".ANALOG"@,
            Property::Digital(_) => ".DIGITAL"@,
            Property::Description => ".DESCRIPTION"@,
            Property::Index => ".INDEX"@,
            Property::LongName => ".LONG_NAME"@,
            Property::AlarmList => ".ALARM_LIST_NAME"@,
        }
    }

    /// The field's token; empty for the categories that carry no field.
    pub open spec fn spec_field(self) -> Seq<char> {
        match self {
            Property::Reading(f) => f.spec_canonical(),
            Property::Setting(f) => f.spec_canonical(),
            Property::Status(f) => f.spec_canonical(),
            Property::Analog(f) => f.spec_canonical(),
            Property::Digital(f) => f.spec_canonical(),
            _ => Seq::empty(),
        }
    }

    /// The category token and the field token.
    pub fn canonical(&self) -> (r: (&'static str, &'static str))
        ensures
            r.0@ == self.spec_category(),
            r.1@ == self.spec_field(),
    {
        proof {
            reveal_strlit("");
        }
        match *self {
            Property::Reading(fld) => (".READING", fld.canonical()),
            Property::Setting(fld) => (".SETTING", fld.canonical()),
            Property::Status(fld) => (".STATUS", fld.canonical()),
            Property::Control => (".CONTROL", ""),
            Property::Analog(fld) => (".ANALOG", fld.canonical()),
            Property::Digital(fld) => (".DIGITAL", fld.canonical()),
            Property::Description => (".DESCRIPTION", ""),
            Property::Index => (".INDEX", ""),
            Property::LongName => (".LONG_NAME", ""),
            Property::AlarmList => (".ALARM_LIST_NAME", ""),
        }
    }
}

/// The part of a device's data that a request selects.
#[derive(Clone, Copy, Debug, PartialEq, Eq, Structural)]
pub enum Range {
    /// The whole of the data, written as an empty bracket.
    Full,
    /// Elements `start_index` to `end_index`; `None` runs to the last one.
    /// `{ 0, Some(0) }` stands for a request that names no range.
    Array { start_index: u16, end_index: Option<u16> },
    /// Bytes from `offset`, `length` of them; `None` runs to the end.
    Raw { offset: u32, length: Option<u32> },
}

impl Range {
    pub open spec fn spec_canonical(self) -> Seq<char> {
        match self {
            Range::Full => seq!['[', ']'],
            Range::Array { start_index: s, end_index: Some(e) } => {
                if s == 0 && e == 0 {
                    Seq::empty()
                } else if s == e {
                    seq!['['] + dec_str(s as nat) + seq![']']
                } else {
                    seq!['['] + dec_str(s as nat) + seq![':'] + dec_str(e as nat) + seq![']']
                }
            },
            Range::Array { start_index: s, end_index: None } => seq!['['] + dec_str(s as nat) + seq![':', ']'],
            Range::Raw { offset: o, length: Some(l) } => {
                if l == 1 {
                    seq!['{'] + dec_str(o as nat) + seq!['}']
                } else {
                    seq!['{'] + dec_str(o as nat) + seq![':'] + dec_str(l as nat) + seq!['}']
                }
            },
            Range::Raw { offset: o, length: None } => seq!['{'] + dec_str(o as nat) + seq![':', '}'],
        }
    }

    /// The range's canonical text.
    pub fn canonical(&self) -> (r: String)
        ensures
            r@ == self.spec_canonical(),
    {
        proof {
            reveal_strlit("[");
            reveal_strlit("]");
            reveal_strlit(":");
            reveal_strlit("{");
            reveal_strlit("}");
            reveal_strlit("[]");
        }
        let mut out = String::new();
        match *self {
            Range::Full => {
                out.append("[]");
            },
            Range::Array { start_index, end_index } => match end_index {
                Some(e) => {
                    if start_index == 0 && e == 0 {
                    } else if start_index == e {
                        out.append("[");
                        push_dec(&mut out, start_index as u32);
                        out.append("]");
                    } else {
                        out.append("[");
                        push_dec(&mut out, start_index as u32);
                        out.append(":");
                        push_dec(&mut out, e as u32);
                        out.append("]");
                    }
                },
                None => {
                    out.append("[");
                    push_dec(&mut out, start_index as u32);
                    out.append(":");
                    out.append("]");
                },
            },
            Range::Raw { offset, length } => match length {
                Some(l) => {
                    if l == 1 {
                        out.append("{");
                        push_dec(&mut out, offset);
                        out.append("}");
                    } else {
                        out.append("{");
                        push_dec(&mut out, offset);
                        out.append(":");
                        push_dec(&mut out, l);
                        out.append("}");
                    }
                },
                None => {
                    out.append("{");
                    push_dec(&mut out, offset);
                    out.append(":");
                    out.append("}");
                },
            },
        }
        assert(out@ =~= self.spec_canonical());
        out
    }
}

/// How a state event compares the device's value.
#[derive(Clone, Copy, Debug, PartialEq, Eq, Structural)]
pub enum StateOp {
    Eq,
    NEq,
    GT,
    LT,
    LEq,
    GEq,
    All,
}

impl StateOp {
    pub open spec fn spec_canonical(self) -> Seq<char> {
        match self {
            StateOp::Eq => seq!['='],
            StateOp::NEq => seq!['!', '='],
            StateOp::GT => seq!['>'],
            StateOp::LT => seq!['<'],
            StateOp::LEq => seq!['<', '='],
            StateOp::GEq => seq!['>', '='],
            StateOp::All => seq!['*'],
        }
    }

    /// The comparison's symbol.
    pub fn canonical(&self) -> (r: &'static str)
        ensures
            r@ == self.spec_canonical(),
    {
        proof {
            reveal_strlit("=");
            reveal_strlit("!=");
            reveal_strlit(">");
            reveal_strlit("<");
            reveal_strlit("<=");
            reveal_strlit(">=");
            reveal_strlit("*");
        }
        match *self {
            StateOp::Eq => "=",
            StateOp::NEq => "!=",
            StateOp::GT => ">",
            StateOp::LT => "<",
            StateOp::LEq => "<=",
            StateOp::GEq => ">=",
            StateOp::All => "*",
        }
    }
}

/// Which clock a clock event listens to.
#[derive(Clone, Copy, Debug, PartialEq, Eq, Structural)]
pub enum ClockType {
    Hardware,
    Software,
    Either,
}

impl ClockType {
    pub open spec fn spec_letter(self) -> char {
        match self {
            ClockType::Hardware => 'H',
            ClockType::Software => 'S',
            ClockType::Either => 'E',
        }
    }

    /// The clock used when a clock event names none.
    pub fn default() -> (r: Self)
        ensures
            r == ClockType::Either,
    {
        ClockType::Either
    }

    /// The clock's letter.
    pub fn canonical(&self) -> (r: &'static str)
        ensures
            r@ == seq![self.spec_letter()],
    {
        proof {
            reveal_strlit("H");
            reveal_strlit("S");
            reveal_strlit("E");
        }
        match *self {
            ClockType::Hardware => "H",
            ClockType::Software => "S",
            ClockType::Either => "E",
        }
    }
}

/// When and how often a request's data is delivered.
#[derive(Clone, Copy, Debug, PartialEq, Eq, Structural)]
pub enum Event {
    Never,
    Immediate,
    /// No event was named: the receiver picks one.
    Default,
    /// Every `period` microseconds.
    Periodic { period: u32, immediate: bool, skip_dups: bool },
    /// On clock event `event`, `delay` microseconds late.
    Clock { event: u16, clk_type: ClockType, delay: u32 },
    /// When device `device` reaches state `value` as `expr` compares.
    State { device: u32, value: u16, delay: u32, expr: StateOp },
}

/// A duration in microseconds as text: `0`; whole seconds with `S`; whole
/// milliseconds bare; else microseconds with `U`.
pub open spec fn spec_delay(d: nat) -> Seq<char> {
    if d == 0 {
        seq!['0']
    } else if d % 1_000_000 == 0 {
        dec_str(d / 1_000_000) + seq!['S']
    } else if d % 1000 == 0 {
        dec_str(d / 1000)
    } else {
        dec_str(d) + seq!['U']
    }
}

impl Event {
    pub open spec fn spec_canonical(self) -> Seq<char> {
        match self {
            Event::Default => Seq::empty(),
            Event::Never => seq!['@', 'N'],
            Event::Immediate => seq!['@', 'I'],
            Event::Periodic { period, immediate, skip_dups } => seq![
                '@',
                if skip_dups {
                    'Q'
                } else {
                    'P'
                },
                ',',
            ] + spec_delay(period as nat) + seq![','] + if immediate {
                "TRUE"@
            } else {
                "FALSE"@
            },
            Event::Clock { event, clk_type, delay } => seq!['@', 'E', ','] + hex_str(event as nat) + seq![
                ',',
                clk_type.spec_letter(),
                ',',
            ] + spec_delay(delay as nat),
            Event::State { device, value, delay, expr } => seq!['@', 'S', ','] + dec_str(device as nat)
                + seq![','] + dec_str(value as nat) + seq![','] + spec_delay(delay as nat) + seq![',']
                + expr.spec_canonical(),
        }
    }

    /// Appends the text of a duration of `dly` microseconds.
    fn push_delay(out: &mut String, dly: u32)
        ensures
            final(out)@ == old(out)@ + spec_delay(dly as nat),
    {
        proof {
            reveal_strlit("0");
            reveal_strlit("S");
            reveal_strlit("U");
        }
        if dly == 0 {
            out.append("0");
        } else if dly % 1000000 == 0 {
            push_dec(out, dly / 1000000);
            out.append("S");
        } else if dly % 1000 == 0 {
            push_dec(out, dly / 1000);
        } else {
            push_dec(out, dly);
            out.append("U");
        }
        assert(final(out)@ =~= old(out)@ + spec_delay(dly as nat));
    }

    /// The text of a duration of `dly` microseconds.
    pub fn canonical_delay(dly: u32) -> (r: String)
        ensures
            r@ == spec_delay(dly as nat),
    {
        let mut out = String::new();
        Event::push_delay(&mut out, dly);
        assert(out@ =~= spec_delay(dly as nat));
        out
    }

    /// The event's canonical text.
    pub fn canonical(&self) -> (r: String)
        ensures
            r@ == self.spec_canonical(),
    {
        proof {
            reveal_strlit("@N");
            reveal_strlit("@I");
            reveal_strlit("@P,");
            reveal_strlit("@Q,");
            reveal_strlit("@E,");
            reveal_strlit("@S,");
            reveal_strlit(",");
        }
        let mut out = String::new();
        match *self {
            Event::Default => {},
            Event::Never => {
                out.append("@N");
            },
            Event::Immediate => {
                out.append("@I");
            },
            Event::Periodic { period, immediate, skip_dups } => {
                out.append(if skip_dups { "@Q," } else { "@P," });
                Event::push_delay(&mut out, period);
                out.append(",");
                out.append(if immediate { "TRUE" } else { "FALSE" });
            },
            Event::Clock { event, clk_type, delay } => {
                out.append("@E,");
                push_hex(&mut out, event as u32);
                out.append(",");
                out.append(clk_type.canonical());
                out.append(",");
                Event::push_delay(&mut out, delay);
            },
            Event::State { device, value, delay, expr } => {
                out.append("@S,");
                push_dec(&mut out, device);
                out.append(",");
                push_dec(&mut out, value as u32);
                out.append(",");
                Event::push_delay(&mut out, delay);
                out.append(",");
                out.append(expr.canonical());
            },
        }
        assert(out@ =~= self.spec_canonical());
        out
    }
}

/// The name of a control point, in its canonical spelling.
#[derive(Clone, Debug, PartialEq)]
pub struct Device(String);

impl View for Device {
    type V = Seq<char>;

    closed spec fn view(&self) -> Seq<char> {
        self.0@
    }
}

impl Device {
    /// A device of the given name; the name is taken as it is.
    pub fn new(name: String) -> (r: Device)
        ensures
            r@ == name@,
    {
        Device(name)
    }

    /// The device's name.
    pub fn name(&self) -> (r: &str)
        ensures
            r@ == self@,
    {
        self.0.as_str()
    }
}

/// What a request denotes: a device name, a property, a range and an event.
pub ghost struct RequestView {
    pub device: Seq<char>,
    pub property: Property,
    pub range: Range,
    pub event: Event,
}

impl RequestView {
    /// The canonical text: device, category, range, field, event.
    pub open spec fn spec_canonical(self) -> Seq<char> {
        self.device + self.property.spec_category() + self.range.spec_canonical()
            + self.property.spec_field() + self.event.spec_canonical()
    }
}

/// A parsed request: which data of which device, and when to deliver it.
#[derive(Debug)]
pub struct Request {
    pub device: Device,
    pub property: Property,
    pub range: Range,
    pub event: Event,
}

impl View for Request {
    type V = RequestView;

    open spec fn view(&self) -> RequestView {
        RequestView {
            device: self.device@,
            property: self.property,
            range: self.range,
            event: self.event,
        }
    }
}

impl Request {
    /// The request's canonical text.
    pub fn canonical(&self) -> (r: String)
        ensures
            r@ == self@.spec_canonical(),
    {
        let (prop, field) = self.property.canonical();
        let mut out = String::new();
        out.append(self.device.name());
        out.append(prop);
        let range = self.range.canonical();
        out.append(range.as_str());
        out.append(field);
        let event = self.event.canonical();
        out.append(event.as_str());
        assert(out@ =~= self@.spec_canonical());
        out
    }
}

} // verus!
