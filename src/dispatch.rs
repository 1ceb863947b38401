use vstd::prelude::*;
use crate::command::{complete, complete_spec, parse, parse_command, Command, CommandView};
use crate::error::RelayError;
use crate::events::{EventMessage, MessageView};
use crate::registry::Registry;
use vstd::string::StringSliceAdditionalSpecFns;

verus! {

/// What the console loop does next.
#[derive(Debug, Clone, PartialEq, Eq)]
pub enum DispatchAction {
    /// Console input has ended: leave the loop.
    Stop,
    /// Report this failure and go on with the next line.
    Skip(RelayError),
    /// Read the command's payload source, then hand the contents to
    /// `on_payload`.
    ReadPayload(Command),
    /// Send this message to the current connection, then go on with the
    /// next line.
    Deliver(EventMessage),
}

/// The abstract content of a dispatch decision.
pub enum ActionView {
    Stop,
    Skip(RelayError),
    ReadPayload(CommandView),
    Deliver(MessageView),
}

impl View for DispatchAction {
    type V = ActionView;

    open spec fn view(&self) -> ActionView {
        match self {
            DispatchAction::Stop => ActionView::Stop,
            DispatchAction::Skip(e) => ActionView::Skip(*e),
            DispatchAction::ReadPayload(c) => ActionView::ReadPayload(c@),
            DispatchAction::Deliver(m) => ActionView::Deliver(m@),
        }
    }
}

/// The decision for a finished message: deliver it where a connection is
/// registered.
pub open spec fn route(m: Result<MessageView, RelayError>, connected: bool) -> ActionView {
    match m {
        Err(e) => ActionView::Skip(e),
        Ok(v) => if connected {
            ActionView::Deliver(v)
        } else {
            ActionView::Skip(RelayError::NoActiveConnection)
        },
    }
}

/// The decision for one console line, or for the end of input (`None`).
pub open spec fn line_action(line: Option<Seq<u8>>, connected: bool) -> ActionView {
    match line {
        None => ActionView::Stop,
        Some(l) => match parse(l) {
            Err(e) => ActionView::Skip(e),
            Ok(c) => if c.payload_source is Some {
                ActionView::ReadPayload(c)
            } else {
                route(complete_spec(c, None), connected)
            },
        },
    }
}

/// Decides what follows a finished message.
fn route_message(m: Result<EventMessage, RelayError>, connected: bool) -> (r: DispatchAction)
    ensures
        r@ == route(
            match m {
                Ok(x) => Ok(x@),
                Err(e) => Err(e),
            },
            connected,
        ),
        r matches DispatchAction::Deliver(x) ==> (m matches Ok(y) && x == y),
{
    match m {
        Err(e) => DispatchAction::Skip(e),
        Ok(msg) => if connected {
            DispatchAction::Deliver(msg)
        } else {
            DispatchAction::Skip(RelayError::NoActiveConnection)
        },
    }
}

/// One step of the console loop: `line` is the line read, or `None` when
/// input ended or could not be read. A bad line is skipped, never fatal.
pub fn on_line<H>(line: Option<&str>, registry: &Registry<H>) -> (r: DispatchAction)
    ensures
        r@ == line_action(
            match line {
                Some(l) => Some(l.spec_bytes()),
                None => None,
            },
            registry@ is Some,
        ),
        r matches DispatchAction::Deliver(m) ==> m.wf(),
{
    match line {
        None => DispatchAction::Stop,
        Some(l) => match parse_command(l) {
            Err(e) => DispatchAction::Skip(e),
            Ok(cmd) => if cmd.payload_source.is_some() {
                DispatchAction::ReadPayload(cmd)
            } else {
                route_message(complete(cmd, None), registry.is_connected())
            },
        },
    }
}

/// The step after the payload source of `cmd` was read: `contents` is what
/// was read, or `None` where reading failed.
pub fn on_payload<H>(cmd: Command, contents: Option<Vec<u8>>, registry: &Registry<H>) -> (r:
    DispatchAction)
    ensures
        r@ == route(complete_spec(cmd@, EventMessage::data_view(contents)), registry@ is Some),
        r matches DispatchAction::Deliver(m) ==> m.wf(),
{
    route_message(complete(cmd, contents), registry.is_connected())
}

/// Whether a decision delivers a message.
pub open spec fn delivers(a: ActionView) -> bool {
    a is Deliver
}

/// A bad line followed by a good one delivers exactly one message, the good
/// one's, and the loop goes on after the bad line.
pub proof fn lemma_bad_line_is_skipped(bad: Seq<u8>, good: Seq<u8>)
    requires
        parse(bad) is Err,
        parse(good) is Ok,
        parse(good)->Ok_0.payload_source is None,
    ensures
        line_action(Some(bad), true) is Skip,
        line_action(Some(good), true) == ActionView::Deliver(
            MessageView {
                operation: parse(good)->Ok_0.operation,
                object: parse(good)->Ok_0.object,
                data: None,
            },
        ),
        !delivers(line_action(Some(bad), true)) && delivers(line_action(Some(good), true)),
{
}

} // verus!
