//! What the front panel shows, and how the outcome of an exchange changes it.

use vstd::prelude::*;
use vstd::string::*;
use crate::command::{CommandKind, CommandRequest, RequestView};
use crate::protocol::OutcomeView;
use crate::session::Outcome;
use crate::trace::rendered;

verus! {

/// The state behind the front panel.
#[derive(Debug, PartialEq, Eq)]
pub struct TheAppState {
    /// The endpoint that requests go to.
    pub current_port: String,
    pub port_open: bool,
    /// The voltage field: sent by "set voltage", refreshed by "get voltage".
    pub current_voltage: String,
    /// The amperage field: sent by "set amperage", refreshed by "get amperage".
    pub current_amperage: String,
    /// The text of the information area.
    pub output_info: String,
    /// The names of the endpoints on offer.
    pub the_ports: Vec<String>,
}

/// The value that a finished exchange has read: the reply as text, if the
/// exchange has succeeded and the reply is not empty.
pub open spec fn reading(outcome: OutcomeView) -> Option<Seq<char>> {
    match outcome.result.decoded_text {
        Some(text) => if outcome.result.success && text.len() > 0 {
            Some(text)
        } else {
            None
        },
        None => None,
    }
}

/// The sentence put before the trace when the output has been measured.
pub open spec fn headline(kind: CommandKind, outcome: OutcomeView) -> Seq<char> {
    match (kind, reading(outcome)) {
        (CommandKind::GetActualVoltage, Some(value)) => "The actual output voltage is "@ + value
            + " V!"@,
        (CommandKind::GetActualAmperage, Some(value)) => "The actual output amperage is "@ + value
            + " A!"@,
        _ => Seq::empty(),
    }
}

/// What names the failure after the trace, if the exchange has failed.
pub open spec fn failure_note(outcome: OutcomeView) -> Seq<char> {
    match outcome.error {
        Some(error) => error.message_text() + "\n"@,
        None => Seq::empty(),
    }
}

/// The text of the information area after an exchange: the headline, the
/// trace, and the failure if there is one.
pub open spec fn display_text(kind: CommandKind, outcome: OutcomeView) -> Seq<char> {
    headline(kind, outcome) + rendered(outcome.log) + failure_note(outcome)
}

/// The text of a field after an exchange: what was read, if the exchange was
/// the one that reads this field, and what it was before otherwise.
pub open spec fn refreshed(
    field: Seq<char>,
    reads_field: bool,
    outcome: OutcomeView,
) -> Seq<char> {
    match reading(outcome) {
        Some(value) => if reads_field {
            value
        } else {
            field
        },
        None => field,
    }
}

impl TheAppState {
    /// The panel as it is when the program starts.
    pub fn new() -> (state: TheAppState)
        ensures
            state.current_port@ == "None selected"@,
            !state.port_open,
            state.current_voltage@ == "12.00"@,
            state.current_amperage@ == "1.000"@,
            state.output_info@ == "Welcome to KD3005P-rs! \n"@,
            state.the_ports@.len() == 0,
    {
        TheAppState {
            current_port: String::from_str("None selected"),
            port_open: false,
            current_voltage: String::from_str("12.00"),
            current_amperage: String::from_str("1.000"),
            output_info: String::from_str("Welcome to KD3005P-rs! \n"),
            the_ports: Vec::new(),
        }
    }

    /// The parameter that the panel supplies for a command: the voltage
    /// field for "set voltage", the amperage field for "set amperage", and
    /// nothing for any other.
    pub open spec fn parameter_for(&self, kind: CommandKind) -> Option<Seq<char>> {
        match kind {
            CommandKind::SetVoltage => Some(self.current_voltage@),
            CommandKind::SetAmperage => Some(self.current_amperage@),
            _ => None,
        }
    }

    /// The request that a press of the button for `kind` makes.
    pub fn request(&self, kind: CommandKind) -> (request: CommandRequest)
        ensures
            request@ == (RequestView { kind, parameter: self.parameter_for(kind) }),
    {
        let parameter = match kind {
            CommandKind::SetVoltage => Some(self.current_voltage.clone()),
            CommandKind::SetAmperage => Some(self.current_amperage.clone()),
            _ => None,
        };
        CommandRequest::new(kind, parameter).unwrap()
    }

    /// Shows the outcome of the exchange that the button for `kind` began.
    /// The information area is replaced by the headline, the trace and the
    /// failure; a value read back from the supply replaces the field it
    /// belongs to; nothing else changes.
    pub fn absorb(&mut self, kind: CommandKind, outcome: &Outcome)
        ensures
            final(self).output_info@ == display_text(kind, outcome@),
            final(self).current_voltage@ == refreshed(
                old(self).current_voltage@,
                kind is GetVoltage,
                outcome@,
            ),
            final(self).current_amperage@ == refreshed(
                old(self).current_amperage@,
                kind is GetAmperage,
                outcome@,
            ),
            final(self).current_port == old(self).current_port,
            final(self).port_open == old(self).port_open,
            final(self).the_ports == old(self).the_ports,
    {
        let mut info = String::new();
        let mut value: Option<&String> = None;
        if outcome.result.success {
            if let Some(text) = &outcome.result.decoded_text {
                if !text.as_str().is_empty() {
                    value = Some(text);
                }
            }
        }
        assert(reading(outcome@) == match value {
            Some(v) => Some(v@),
            None => None,
        });
        if let Some(v) = value {
            match kind {
                CommandKind::GetVoltage => {
                    self.current_voltage = v.clone();
                },
                CommandKind::GetAmperage => {
                    self.current_amperage = v.clone();
                },
                CommandKind::GetActualVoltage => {
                    info.append("The actual output voltage is ");
                    info.append(v.as_str());
                    info.append(" V!");
                },
                CommandKind::GetActualAmperage => {
                    info.append("The actual output amperage is ");
                    info.append(v.as_str());
                    info.append(" A!");
                },
                _ => {},
            }
        }
        let trace = outcome.log.render();
        info.append(trace.as_str());
        if let Some(error) = outcome.error {
            let message = error.message();
            info.append(message.as_str());
            info.append("\n");
        }
        self.output_info = info;
    }

    /// Selects the endpoint that requests go to from now on.
    pub fn select_port(&mut self, name: &str)
        ensures
            final(self).current_port@ == name@,
            final(self).port_open == old(self).port_open,
            final(self).current_voltage == old(self).current_voltage,
            final(self).current_amperage == old(self).current_amperage,
            final(self).output_info == old(self).output_info,
            final(self).the_ports == old(self).the_ports,
    {
        self.current_port = String::from_str(name);
    }
}

} // verus!
