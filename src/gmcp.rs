//! The envelope protocol: message, event and command values and their JSON text.

use vstd::prelude::*;

pub mod read;

verus! {

/// Literal that opens an envelope on the wire.
pub const MESSAGE_TAG_OPEN: &'static str = "<<GMCP>>";

/// Literal that closes an envelope on the wire.
pub const MESSAGE_TAG_CLOSE: &'static str = "<</GMCP>>";

/// The JSON text `{"type": "<t>", "data": "<d>"}` with both values written as given.
pub open spec fn pair_json(t: Seq<char>, d: Seq<char>) -> Seq<char> {
    "{\"type\": \""@ + t + "\", \"data\": \""@ + d + "\"}"@
}

/// `c` as it stands inside a JSON string: a quote or a backslash gets a backslash before it.
pub open spec fn escaped_char(c: char) -> Seq<char> {
    if c == '"' || c == '\\' {
        seq!['\\', c]
    } else {
        seq![c]
    }
}

/// `s` as it stands inside a JSON string literal.
pub open spec fn escaped(s: Seq<char>) -> Seq<char>
    decreases s.len(),
{
    if s.len() == 0 {
        Seq::empty()
    } else {
        escaped(s.drop_last()) + escaped_char(s.last())
    }
}

/// Values that have a JSON text form.
pub trait Serialization {
    /// The JSON text of the value.
    spec fn json_text(&self) -> Seq<char>;

    /// The JSON text of the value.
    fn to_json(&self) -> (r: String)
        ensures
            r@ == self.json_text(),
    ;
}

/// Appends `s` to `out` with quotes and backslashes escaped.
pub(crate) fn append_escaped(out: &mut String, s: &str)
    ensures
        final(out)@ == old(out)@ + escaped(s@),
{
    let n = s.unicode_len();
    let mut i: usize = 0;
    while i < n
        invariant
            n == s@.len(),
            i <= n,
            out@ == old(out)@ + escaped(s@.subrange(0, i as int)),
        decreases n - i,
    {
        let ghost before = out@;
        let c = s.get_char(i);
        if c == '"' || c == '\\' {
            out.append("\\");
            proof {
                reveal_strlit("\\");
            }
            assert(out@ =~= before + seq!['\\']);
        }
        out.append(s.substring_char(i, i + 1));
        proof {
            let p = s@.subrange(0, i + 1);
            assert(p.drop_last() =~= s@.subrange(0, i as int));
            assert(p.last() == c);
            assert(s@.subrange(i as int, i + 1) =~= seq![c]);
            assert(out@ =~= before + escaped_char(c));
        }
        i = i + 1;
    }
    assert(s@.subrange(0, n as int) =~= s@);
}

/// Kinds of envelope.
#[derive(Clone, Copy, Debug, PartialEq, Eq, Structural)]
pub enum MessageType {
    Event,
    GeneralLog,
    Command,
}

impl MessageType {
    /// The tag that names this kind on the wire.
    pub open spec fn spec_str(&self) -> Seq<char> {
        match self {
            MessageType::Event => "event"@,
            MessageType::GeneralLog => "generalLog"@,
            MessageType::Command => "command"@,
        }
    }

    /// The tag that names this kind on the wire.
    pub fn as_str(&self) -> (r: &'static str)
        ensures
            r@ == self.spec_str(),
    {
        match self {
            MessageType::Event => "event",
            MessageType::GeneralLog => "generalLog",
            MessageType::Command => "command",
        }
    }
}

/// One envelope: its kind tag and the JSON text it carries.
pub struct Message {
    pub message_type: String,
    pub data: String,
}

impl Message {
    /// An event envelope around `event`.
    pub fn create_event_message(event: &Event) -> (r: Message)
        ensures
            r.message_type@ == MessageType::Event.spec_str(),
            r.data@ == event.json_text(),
    {
        Message { message_type: String::from_str(MessageType::Event.as_str()), data: event.to_json() }
    }

    /// A log envelope around `log`.
    pub fn create_general_log_message(log: &GeneralLog) -> (r: Message)
        ensures
            r.message_type@ == MessageType::GeneralLog.spec_str(),
            r.data@ == log.json_text(),
    {
        Message {
            message_type: String::from_str(MessageType::GeneralLog.as_str()),
            data: log.to_json(),
        }
    }

    /// A command envelope around `command`.
    pub fn create_command_message(command: &Command) -> (r: Message)
        ensures
            r.message_type@ == MessageType::Command.spec_str(),
            r.data@ == command.json_text(),
    {
        Message {
            message_type: String::from_str(MessageType::Command.as_str()),
            data: command.to_json(),
        }
    }
}

impl Serialization for Message {
    /// The envelope on the wire: the carried text is escaped, so that it reads back as one
    /// JSON string.
    open spec fn json_text(&self) -> Seq<char> {
        MESSAGE_TAG_OPEN@ + pair_json(self.message_type@, escaped(self.data@)) + MESSAGE_TAG_CLOSE@
    }

    fn to_json(&self) -> (r: String) {
        let mut out = String::from_str(MESSAGE_TAG_OPEN);
        out.append("{\"type\": \"");
        out.append(self.message_type.as_str());
        out.append("\", \"data\": \"");
        append_escaped(&mut out, self.data.as_str());
        out.append("\"}");
        out.append(MESSAGE_TAG_CLOSE);
        out
    }
}

/// Kinds of event.
#[derive(Clone, Copy, Debug, PartialEq, Eq, Structural)]
pub enum EventType {
    AddFile,
    AddDir,
    ChangeFile,
    UnlinkFile,
    UnlinkDir,
    InetUp,
    InetDown,
    IpChange,
    PacketMatch,
    NoEvent,
}

impl EventType {
    /// The tag that names this kind on the wire.
    pub open spec fn spec_str(&self) -> Seq<char> {
        match self {
            EventType::AddFile => "addFile"@,
            EventType::AddDir => "addDir"@,
            EventType::ChangeFile => "changeFile"@,
            EventType::UnlinkFile => "unlinkFile"@,
            EventType::UnlinkDir => "unlinkDir"@,
            EventType::InetUp => "inetUp"@,
            EventType::InetDown => "inetDown"@,
            EventType::IpChange => "ipChange"@,
            EventType::PacketMatch => "packetMatch"@,
            EventType::NoEvent => "none"@,
        }
    }

    /// The tag that names this kind on the wire.
    pub fn as_str(&self) -> (r: &'static str)
        ensures
            r@ == self.spec_str(),
    {
        match self {
            EventType::AddFile => "addFile",
            EventType::AddDir => "addDir",
            EventType::ChangeFile => "changeFile",
            EventType::UnlinkFile => "unlinkFile",
            EventType::UnlinkDir => "unlinkDir",
            EventType::InetUp => "inetUp",
            EventType::InetDown => "inetDown",
            EventType::IpChange => "ipChange",
            EventType::PacketMatch => "packetMatch",
            EventType::NoEvent => "none",
        }
    }
}

/// What an event reports: a kind of data (`"tcp"`, `"arp"`, ...) and its fields as JSON text.
pub struct EventData {
    pub data_type: String,
    pub data: String,
}

impl Serialization for EventData {
    open spec fn json_text(&self) -> Seq<char> {
        pair_json(self.data_type@, self.data@)
    }

    fn to_json(&self) -> (r: String) {
        let mut out = String::from_str("{\"type\": \"");
        out.append(self.data_type.as_str());
        out.append("\", \"data\": \"");
        out.append(self.data.as_str());
        out.append("\"}");
        out
    }
}

/// An event: its kind tag and what it reports.
pub struct Event {
    pub event_type: String,
    pub data: EventData,
}

impl Serialization for Event {
    open spec fn json_text(&self) -> Seq<char> {
        pair_json(self.event_type@, self.data.json_text())
    }

    fn to_json(&self) -> (r: String) {
        let inner = self.data.to_json();
        let mut out = String::from_str("{\"type\": \"");
        out.append(self.event_type.as_str());
        out.append("\", \"data\": \"");
        out.append(inner.as_str());
        out.append("\"}");
        out
    }
}

/// An instant: whole seconds since the Unix epoch and the nanoseconds past them.
#[derive(Clone, Copy, Debug, PartialEq, Eq, Structural)]
pub struct Timestamp {
    pub secs: i64,
    pub nanos: u32,
}

/// The RFC 3339 text that chrono writes for the UTC instant `secs` seconds and `nanos`
/// nanoseconds after the Unix epoch; `None` where chrono cannot represent that instant.
pub uninterp spec fn rfc3339_text(secs: i64, nanos: u32) -> Option<Seq<char>>;

/// Relies on chrono's `DateTime::<Utc>::from_timestamp` and `DateTime::to_rfc3339`.
#[verifier::external_body]
fn rfc3339(secs: i64, nanos: u32) -> (r: Option<String>)
    ensures
        r is Some ==> rfc3339_text(secs, nanos) == Some(r->0@),
        r is None ==> rfc3339_text(secs, nanos) is None,
{
    match chrono::DateTime::from_timestamp(secs, nanos) {
        Some(t) => Some(t.to_rfc3339()),
        None => None,
    }
}

impl Timestamp {
    /// The RFC 3339 text of this instant; empty where it cannot be represented.
    pub open spec fn text(&self) -> Seq<char> {
        match rfc3339_text(self.secs, self.nanos) {
            Some(t) => t,
            None => Seq::empty(),
        }
    }

    /// The RFC 3339 text of this instant; empty where it cannot be represented.
    pub fn to_rfc3339(&self) -> (r: String)
        ensures
            r@ == self.text(),
    {
        match rfc3339(self.secs, self.nanos) {
            Some(t) => t,
            None => String::new(),
        }
    }
}

/// A log record.
pub struct GeneralLog {
    pub severity: String,
    pub area: String,
    pub message: String,
    pub timestamp: Timestamp,
}

impl Serialization for GeneralLog {
    open spec fn json_text(&self) -> Seq<char> {
        "{\"severity\": \""@ + self.severity@ + "\", \"area\": \""@ + self.area@
            + "\", \"timestamp\": \""@ + self.timestamp.text() + "\", \"message\": \""@
            + self.message@ + "\"}"@
    }

    fn to_json(&self) -> (r: String) {
        let time = self.timestamp.to_rfc3339();
        let mut out = String::from_str("{\"severity\": \"");
        out.append(self.severity.as_str());
        out.append("\", \"area\": \"");
        out.append(self.area.as_str());
        out.append("\", \"timestamp\": \"");
        out.append(time.as_str());
        out.append("\", \"message\": \"");
        out.append(self.message.as_str());
        out.append("\"}");
        out
    }
}

/// Kinds of control command.
#[derive(Clone, Copy, Debug, PartialEq, Eq, Structural)]
pub enum CommandType {
    Start,
    Stop,
    Pause,
    Throttle,
    UpdateConfig,
    ShowDefaultConfig,
    ShowExampleConfig,
}

impl CommandType {
    /// The tag that names this kind on the wire.
    pub open spec fn spec_str(&self) -> Seq<char> {
        match self {
            CommandType::Start => "start"@,
            CommandType::Stop => "stop"@,
            CommandType::Pause => "pause"@,
            CommandType::Throttle => "throttle"@,
            CommandType::UpdateConfig => "updateConfig"@,
            CommandType::ShowDefaultConfig => "showDefaultConfig"@,
            CommandType::ShowExampleConfig => "showExampleConfig"@,
        }
    }

    /// The tag that names this kind on the wire.
    pub fn as_str(&self) -> (r: &'static str)
        ensures
            r@ == self.spec_str(),
    {
        match self {
            CommandType::Start => "start",
            CommandType::Stop => "stop",
            CommandType::Pause => "pause",
            CommandType::Throttle => "throttle",
            CommandType::UpdateConfig => "updateConfig",
            CommandType::ShowDefaultConfig => "showDefaultConfig",
            CommandType::ShowExampleConfig => "showExampleConfig",
        }
    }
}

/// A control command: its kind tag as read from the wire and its argument.
pub struct Command {
    pub command_type: String,
    pub data: String,
}

impl Command {
    /// The JSON text of the command.
    pub open spec fn json_text(&self) -> Seq<char> {
        pair_json(self.command_type@, self.data@)
    }

    /// `{"type": "<command_type>", "data": "<data>"}`.
    pub fn to_json(&self) -> (r: String)
        ensures
            r@ == self.json_text(),
    {
        let mut out = String::from_str("{\"type\": \"");
        out.append(self.command_type.as_str());
        out.append("\", \"data\": \"");
        out.append(self.data.as_str());
        out.append("\"}");
        out
    }
}

} // verus!
