//! The commands of the supply and their wire texts.

use vstd::prelude::*;
use vstd::string::*;
use vstd::utf8::*;

verus! {

/// What the supply can be asked to do.
#[derive(Clone, Copy, Debug, PartialEq, Eq, Structural)]
pub enum CommandKind {
    /// Read back the amperage setting.
    GetAmperage,
    /// Store a new amperage setting.
    SetAmperage,
    /// Read back the voltage setting.
    GetVoltage,
    /// Store a new voltage setting.
    SetVoltage,
    /// Measure the voltage at the output.
    GetActualVoltage,
    /// Measure the current at the output.
    GetActualAmperage,
    /// Ask for the identification text.
    Identify,
    /// Ask for the status byte.
    Status,
    /// Switch the output on.
    OutputOn,
    /// Switch the output off.
    OutputOff,
}

impl CommandKind {
    /// The fixed head of the wire text.
    pub open spec fn stem_text(self) -> Seq<char> {
        match self {
            CommandKind::SetAmperage => "ISET1:"@,
            CommandKind::GetAmperage => "ISET1?"@,
            CommandKind::SetVoltage => "VSET1:"@,
            CommandKind::GetVoltage => "VSET1?"@,
            CommandKind::GetActualAmperage => "IOUT1?"@,
            CommandKind::GetActualVoltage => "VOUT1?"@,
            CommandKind::Identify => "*IDN?"@,
            CommandKind::Status => "STATUS?"@,
            CommandKind::OutputOn => "OUT1"@,
            CommandKind::OutputOff => "OUT0"@,
        }
    }

    /// Whether a parameter follows the head on the wire.
    pub open spec fn spec_takes_parameter(self) -> bool {
        self is SetAmperage || self is SetVoltage
    }

    /// Whether a parameter follows the head on the wire.
    #[verifier::when_used_as_spec(spec_takes_parameter)]
    pub fn takes_parameter(self) -> (b: bool)
        ensures
            b == self.spec_takes_parameter(),
    {
        match self {
            CommandKind::SetAmperage | CommandKind::SetVoltage => true,
            _ => false,
        }
    }

    /// The fixed head of the wire text.
    pub fn stem(self) -> (s: &'static str)
        ensures
            s@ == self.stem_text(),
    {
        match self {
            CommandKind::SetAmperage => "ISET1:",
            CommandKind::GetAmperage => "ISET1?",
            CommandKind::SetVoltage => "VSET1:",
            CommandKind::GetVoltage => "VSET1?",
            CommandKind::GetActualAmperage => "IOUT1?",
            CommandKind::GetActualVoltage => "VOUT1?",
            CommandKind::Identify => "*IDN?",
            CommandKind::Status => "STATUS?",
            CommandKind::OutputOn => "OUT1",
            CommandKind::OutputOff => "OUT0",
        }
    }
}

/// The text that goes on the wire for `kind`: the head alone, or the head
/// followed by the parameter for the two kinds that store a setting. Nothing
/// terminates it.
pub open spec fn wire_text(kind: CommandKind, parameter: Seq<char>) -> Seq<char> {
    if kind.takes_parameter() {
        kind.stem_text() + parameter
    } else {
        kind.stem_text()
    }
}

/// Every head is plain ASCII and not empty.
pub proof fn lemma_stem_is_ascii(kind: CommandKind)
    ensures
        is_ascii_chars(kind.stem_text()),
        kind.stem_text().len() > 0,
{
    reveal_strlit("ISET1:");
    reveal_strlit("ISET1?");
    reveal_strlit("VSET1:");
    reveal_strlit("VSET1?");
    reveal_strlit("IOUT1?");
    reveal_strlit("VOUT1?");
    reveal_strlit("*IDN?");
    reveal_strlit("STATUS?");
    reveal_strlit("OUT1");
    reveal_strlit("OUT0");
}

/// A command whose parameter is ASCII goes out as ASCII: the bytes on the
/// wire are the characters of its wire text, one byte each.
pub proof fn lemma_ascii_command(kind: CommandKind, parameter: Seq<char>)
    requires
        is_ascii_chars(parameter),
    ensures
        is_ascii_chars(wire_text(kind, parameter)),
        encode_utf8(wire_text(kind, parameter)).len() == wire_text(kind, parameter).len(),
        forall|i: int|
            0 <= i < wire_text(kind, parameter).len() ==> #[trigger] encode_utf8(
                wire_text(kind, parameter),
            )[i] == wire_text(kind, parameter)[i] as u8,
{
    lemma_stem_is_ascii(kind);
    is_ascii_chars_concat(kind.stem_text() + parameter, kind.stem_text(), parameter);
    is_ascii_chars_encode_utf8(wire_text(kind, parameter));
}

/// Renders a command as its wire text. The parameter is used by the kinds
/// that store a setting and ignored by all others.
pub fn encode(kind: CommandKind, parameter: &str) -> (wire: String)
    ensures
        wire@ == wire_text(kind, parameter@),
{
    let mut wire = String::from_str(kind.stem());
    if kind.takes_parameter() {
        wire.append(parameter);
    }
    wire
}

/// What a [`CommandRequest`] holds, as plain values.
pub struct RequestView {
    pub kind: CommandKind,
    pub parameter: Option<Seq<char>>,
}

impl RequestView {
    /// A kind that stores a setting comes with the setting.
    pub open spec fn well_formed(self) -> bool {
        self.kind.takes_parameter() ==> self.parameter is Some
    }

    /// The text that goes on the wire for this request.
    pub open spec fn wire_text(self) -> Seq<char> {
        match self.parameter {
            Some(p) => wire_text(self.kind, p),
            None => wire_text(self.kind, Seq::empty()),
        }
    }
}

/// One command for the supply: its kind and, for the kinds that store a
/// setting, the setting as text. A request of such a kind without a setting
/// cannot be built.
#[derive(Debug, PartialEq, Eq)]
pub struct CommandRequest {
    kind: CommandKind,
    parameter: Option<String>,
}

impl View for CommandRequest {
    type V = RequestView;

    closed spec fn view(&self) -> RequestView {
        RequestView {
            kind: self.kind,
            parameter: match self.parameter {
                Some(p) => Some(p@),
                None => None,
            },
        }
    }
}

impl CommandRequest {
    #[verifier::type_invariant]
    spec fn inv(self) -> bool {
        self@.well_formed()
    }

    /// Builds a request. A parameter is required for the kinds that store a
    /// setting, and the request is refused without one; for every other kind
    /// a parameter is accepted and never sent.
    pub fn new(kind: CommandKind, parameter: Option<String>) -> (res: Option<CommandRequest>)
        ensures
            res is Some <==> (kind.takes_parameter() ==> parameter is Some),
            res matches Some(request) ==> {
                &&& request@.kind == kind
                &&& request@.parameter == match parameter {
                    Some(p) => Some(p@),
                    None => None,
                }
            },
    {
        if kind.takes_parameter() && parameter.is_none() {
            None
        } else {
            Some(CommandRequest { kind, parameter })
        }
    }

    /// Builds a request that carries a parameter, which any kind accepts.
    pub fn with_parameter(kind: CommandKind, parameter: String) -> (request: CommandRequest)
        ensures
            request@ == (RequestView { kind, parameter: Some(parameter@) }),
    {
        CommandRequest { kind, parameter: Some(parameter) }
    }

    /// The kind of the command.
    pub fn kind(&self) -> (kind: CommandKind)
        ensures
            kind == self@.kind,
    {
        self.kind
    }

    /// The setting to store, if the request carries one; a request of a kind
    /// that stores a setting always does.
    pub fn parameter(&self) -> (parameter: Option<&str>)
        ensures
            self@.parameter == match parameter {
                Some(p) => Some(p@),
                None => None,
            },
            self@.well_formed(),
    {
        proof {
            use_type_invariant(self);
        }
        match &self.parameter {
            Some(p) => Some(p.as_str()),
            None => None,
        }
    }

    /// Renders the request as its wire text.
    pub fn encode(&self) -> (wire: String)
        ensures
            wire@ == self@.wire_text(),
    {
        match &self.parameter {
            Some(p) => encode(self.kind, p.as_str()),
            None => {
                proof {
                    reveal_strlit("");
                }
                encode(self.kind, "")
            },
        }
    }
}

} // verus!
