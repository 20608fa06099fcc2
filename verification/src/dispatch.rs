//! The four operations on the supply. Each picks its command and begins the
//! exchange; the host drives the [`Session`] from there.

use vstd::prelude::*;
use vstd::string::*;
use vstd::utf8::*;
use crate::command::{wire_text, CommandKind, CommandRequest};
use crate::protocol::SessionView;
use crate::session::Session;

verus! {

/// The command that switches the output on or off.
pub open spec fn output_kind(on: bool) -> CommandKind {
    if on {
        CommandKind::OutputOn
    } else {
        CommandKind::OutputOff
    }
}

fn begin_bare(current_port: &String, kind: CommandKind) -> (session: Session)
    requires
        !kind.takes_parameter(),
    ensures
        session@ == SessionView::begun(current_port@, encode_utf8(kind.stem_text())),
{
    let request = CommandRequest::with_parameter(kind, String::new());
    Session::begin(current_port.as_str(), &request)
}

/// Begins a read or a change of the amperage or voltage setting, or a
/// measurement of what the output actually delivers. `desired_setting` is
/// sent with the two kinds that store a setting and ignored by all others.
pub fn get_set_amperage_voltage(
    current_port: &String,
    kind: CommandKind,
    desired_setting: &String,
) -> (session: Session)
    ensures
        session@ == SessionView::begun(
            current_port@,
            encode_utf8(wire_text(kind, desired_setting@)),
        ),
{
    let request = CommandRequest::with_parameter(kind, desired_setting.clone());
    Session::begin(current_port.as_str(), &request)
}

/// Begins the query for the identification text.
pub fn get_id(current_port: &String) -> (session: Session)
    ensures
        session@ == SessionView::begun(
            current_port@,
            encode_utf8(CommandKind::Identify.stem_text()),
        ),
{
    begin_bare(current_port, CommandKind::Identify)
}

/// Begins the query for the status.
pub fn get_status(current_port: &String) -> (session: Session)
    ensures
        session@ == SessionView::begun(
            current_port@,
            encode_utf8(CommandKind::Status.stem_text()),
        ),
{
    begin_bare(current_port, CommandKind::Status)
}

/// Begins switching the output on or off.
pub fn turn_on_off(current_port: &String, on: bool) -> (session: Session)
    ensures
        session@ == SessionView::begun(
            current_port@,
            encode_utf8(output_kind(on).stem_text()),
        ),
{
    if on {
        begin_bare(current_port, CommandKind::OutputOn)
    } else {
        begin_bare(current_port, CommandKind::OutputOff)
    }
}

} // verus!
