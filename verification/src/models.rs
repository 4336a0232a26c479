//! The command model: typed player operations and how each renders into the
//! ordered list of wire primitives that the protocol expects, plus the request
//! envelope that carries a rendered command together with a correlation id.

use vstd::prelude::*;
use vstd::string::StringExecFns;

verus! {

/// How a seek position is interpreted by the player.
pub enum SeekMode {
    Relative,
    Absolute,
    AbsolutePercent,
    RelativePercent,
    Exact,
    KeyFrames,
}

impl SeekMode {
    /// The fixed lowercase-hyphenated token this mode shows on the wire.
    pub open spec fn spec_token(self) -> Seq<char> {
        match self {
            SeekMode::Relative => "relative"@,
            SeekMode::Absolute => "absolute"@,
            SeekMode::AbsolutePercent => "absolute-percent"@,
            SeekMode::RelativePercent => "relative-percent"@,
            SeekMode::Exact => "exact"@,
            SeekMode::KeyFrames => "keyframes"@,
        }
    }

    /// Renders the mode as its wire token.
    pub fn wire_token(&self) -> (r: String)
        ensures
            r@ == self.spec_token(),
    {
        match self {
            SeekMode::Relative => String::from_str("relative"),
            SeekMode::Absolute => String::from_str("absolute"),
            SeekMode::AbsolutePercent => String::from_str("absolute-percent"),
            SeekMode::RelativePercent => String::from_str("relative-percent"),
            SeekMode::Exact => String::from_str("exact"),
            SeekMode::KeyFrames => String::from_str("keyframes"),
        }
    }
}

/// How a load operation treats the current playlist.
pub enum LoadMode {
    Replace,
    Append,
    AppendPlay,
}

impl LoadMode {
    /// The fixed lowercase-hyphenated token this mode shows on the wire.
    pub open spec fn spec_token(self) -> Seq<char> {
        match self {
            LoadMode::Replace => "replace"@,
            LoadMode::Append => "append"@,
            LoadMode::AppendPlay => "append-play"@,
        }
    }

    /// Renders the mode as its wire token.
    pub fn wire_token(&self) -> (r: String)
        ensures
            r@ == self.spec_token(),
    {
        match self {
            LoadMode::Replace => String::from_str("replace"),
            LoadMode::Append => String::from_str("append"),
            LoadMode::AppendPlay => String::from_str("append-play"),
        }
    }
}

/// One primitive value of a rendered command: the protocol sends commands as a
/// list of strings, integers and booleans, and the client never inspects a
/// property value beyond passing it through.
#[derive(Debug, PartialEq)]
pub enum WireValue {
    Bool(bool),
    Int(i64),
    Text(String),
    /// An arbitrary structured value, carried as the JSON text it renders to.
    /// Serializing a request fails where this text is not valid JSON.
    Raw(String),
}

/// The mathematical value of a [`WireValue`].
pub ghost enum WireVal {
    Bool(bool),
    Int(int),
    Text(Seq<char>),
    Raw(Seq<char>),
}

impl View for WireValue {
    type V = WireVal;

    open spec fn view(&self) -> WireVal {
        match self {
            WireValue::Bool(b) => WireVal::Bool(*b),
            WireValue::Int(i) => WireVal::Int(*i as int),
            WireValue::Text(s) => WireVal::Text(s@),
            WireValue::Raw(s) => WireVal::Raw(s@),
        }
    }
}

/// The values of a rendered command list, element by element.
pub open spec fn wire_views(command: Seq<WireValue>) -> Seq<WireVal> {
    command.map_values(|w: WireValue| w@)
}

/// A playback operation, one variant per protocol command.
pub enum Command {
    Seek(i64, SeekMode),
    LoadFile(String, LoadMode),
    LoadList(String, LoadMode),
    PlaylistClear,
    Quit(i64),
    Stop,
    SetProperty(String, WireValue),
    GetProperty(String),
}

impl Command {
    /// The rendering table: the fixed name token of the operation followed by
    /// its positional arguments, in this exact order.
    pub open spec fn spec_command_list(self) -> Seq<WireVal> {
        match self {
            Command::Seek(position, mode) => seq![
                WireVal::Text("seek"@),
                WireVal::Int(position as int),
                WireVal::Text(mode.spec_token()),
            ],
            Command::LoadFile(path, mode) => seq![
                WireVal::Text("loadfile"@),
                WireVal::Text(path@),
                WireVal::Text(mode.spec_token()),
            ],
            Command::LoadList(path, mode) => seq![
                WireVal::Text("loadlist"@),
                WireVal::Text(path@),
                WireVal::Text(mode.spec_token()),
            ],
            Command::PlaylistClear => seq![WireVal::Text("playlist-clear"@)],
            Command::Quit(code) => seq![WireVal::Text("quit"@), WireVal::Int(code as int)],
            Command::Stop => seq![WireVal::Text("stop"@)],
            Command::SetProperty(name, value) => seq![
                WireVal::Text("set_property"@),
                WireVal::Text(name@),
                value@,
            ],
            Command::GetProperty(name) => seq![
                WireVal::Text("get_property"@),
                WireVal::Text(name@),
            ],
        }
    }

    /// Renders the command into its ordered wire list, exactly as the
    /// rendering table states it. Rendering cannot fail and is deterministic.
    pub fn to_command_list(self) -> (r: Vec<WireValue>)
        ensures
            wire_views(r@) == self.spec_command_list(),
    {
        let ghost cmd = self;
        let mut r: Vec<WireValue> = Vec::new();
        match self {
            Command::Seek(position, mode) => {
                r.push(WireValue::Text(String::from_str("seek")));
                r.push(WireValue::Int(position));
                r.push(WireValue::Text(mode.wire_token()));
            },
            Command::LoadFile(path, mode) => {
                r.push(WireValue::Text(String::from_str("loadfile")));
                r.push(WireValue::Text(path));
                r.push(WireValue::Text(mode.wire_token()));
            },
            Command::LoadList(path, mode) => {
                r.push(WireValue::Text(String::from_str("loadlist")));
                r.push(WireValue::Text(path));
                r.push(WireValue::Text(mode.wire_token()));
            },
            Command::PlaylistClear => {
                r.push(WireValue::Text(String::from_str("playlist-clear")));
            },
            Command::Quit(code) => {
                r.push(WireValue::Text(String::from_str("quit")));
                r.push(WireValue::Int(code));
            },
            Command::Stop => {
                r.push(WireValue::Text(String::from_str("stop")));
            },
            Command::SetProperty(name, value) => {
                r.push(WireValue::Text(String::from_str("set_property")));
                r.push(WireValue::Text(name));
                r.push(value);
            },
            Command::GetProperty(name) => {
                r.push(WireValue::Text(String::from_str("get_property")));
                r.push(WireValue::Text(name));
            },
        }
        proof {
            assert(wire_views(r@) =~= cmd.spec_command_list());
        }
        r
    }

    /// The command behind `pause` and `resume`: set the "pause" property.
    pub fn set_pause(paused: bool) -> (c: Command)
        ensures
            c matches Command::SetProperty(name, value) && name@ == "pause"@ && value
                == WireValue::Bool(paused),
    {
        Command::SetProperty(String::from_str("pause"), WireValue::Bool(paused))
    }

    /// The property query behind `get_is_paused`.
    pub fn query_pause() -> (c: Command)
        ensures
            c matches Command::GetProperty(name) && name@ == "pause"@,
    {
        Command::GetProperty(String::from_str("pause"))
    }

    /// The property query behind `get_position`.
    pub fn query_position() -> (c: Command)
        ensures
            c matches Command::GetProperty(name) && name@ == "time-pos"@,
    {
        Command::GetProperty(String::from_str("time-pos"))
    }

    /// The property query behind `get_remaining`.
    pub fn query_remaining() -> (c: Command)
        ensures
            c matches Command::GetProperty(name) && name@ == "time-remaining"@,
    {
        Command::GetProperty(String::from_str("time-remaining"))
    }

    /// The property query behind `get_duration`.
    pub fn query_duration() -> (c: Command)
        ensures
            c matches Command::GetProperty(name) && name@ == "duration"@,
    {
        Command::GetProperty(String::from_str("duration"))
    }
}

/// The request envelope: a rendered command list together with a correlation
/// id. The id is drawn at random when the envelope is built; the reference
/// behaviour never uses it to match a reply to its request, a documented
/// limitation of the protocol client.
pub struct Request {
    pub command: Vec<WireValue>,
    pub request_id: u32,
}

impl Request {
    /// Builds the envelope for one command: the rendered list plus a fresh
    /// random 32-bit id. Nothing is promised of the id itself.
    pub fn new(cmd: Command) -> (r: Request)
        ensures
            wire_views(r.command@) == cmd.spec_command_list(),
    {
        let command = cmd.to_command_list();
        Request { command, request_id: crate::wire::random_request_id() }
    }
}

/// What a decoded response carries in its data field. A numeric payload is
/// held as the compact JSON text of the number it decoded from; the caller
/// parses it into its float type at the boundary, since this crate holds no
/// floating-point values.
#[derive(Debug, PartialEq)]
pub enum Payload {
    Flag(bool),
    Number(String),
}

/// Which payload shape a reply is expected to carry: commands and boolean
/// property reads expect a flag, the time properties expect a number. A line
/// whose data field does not fit the expected shape fails to decode and is
/// skipped like any other undecodable line.
#[derive(Clone, Copy, Debug, PartialEq, Eq, Structural)]
pub enum PayloadKind {
    Flag,
    Number,
}

/// Why a call failed, short of a transport failure (those stay with the owner
/// of the socket).
#[derive(Clone, Copy, Debug, PartialEq, Eq, Structural)]
pub enum MpvError {
    /// The request envelope could not be serialized to wire text.
    Encode,
    /// Zero bytes of the request line were written.
    WriteZero,
    /// The reply was well-formed but its status text was not "success".
    CommandFailed,
    /// The reply reported success but carried no payload where one was
    /// expected.
    EmptyValue,
}

} // verus!
