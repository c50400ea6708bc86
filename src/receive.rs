use crate::message::{opt_view, Message, MessageView};
use crate::paint::{paint, painted, Tone};
use vstd::prelude::*;

verus! {

/// What one read from the socket yields.
#[derive(Clone, Debug, PartialEq, Eq)]
pub enum ReadEvent {
    /// A decoded frame.
    Frame(Message),
    /// The transport failed, or the peer dropped the connection abruptly.
    Failure,
}

/// Why the receiving side ended the session.
#[derive(Clone, Copy, Debug, PartialEq, Eq, Structural)]
pub enum Stop {
    /// The peer sent a close frame.
    RemoteClose,
    /// Reading from the transport failed.
    TransportFailure,
}

/// The process exit status that a stop calls for.
pub open spec fn exit_status(s: Stop) -> i32 {
    match s {
        Stop::RemoteClose => 0,
        Stop::TransportFailure => 1,
    }
}

pub open spec fn closed_prefix() -> Seq<char> {
    "Connection Closed: "@
}

/// The line announcing a stop; `detail` describes a transport failure.
pub open spec fn announcement_of(s: Stop, detail: Seq<char>) -> Seq<char> {
    match s {
        Stop::RemoteClose => painted(Tone::Red, closed_prefix() + "Close message received"@),
        Stop::TransportFailure => painted(Tone::Red, closed_prefix() + detail),
    }
}

impl Stop {
    /// The process exit status for this stop.
    pub fn exit_code(&self) -> (r: i32)
        ensures
            r == exit_status(*self),
    {
        match self {
            Stop::RemoteClose => 0,
            Stop::TransportFailure => 1,
        }
    }

    /// The coloured line that announces the stop.
    pub fn announcement(&self, detail: &str) -> (r: String)
        ensures
            r@ == announcement_of(*self, detail@),
    {
        let mut line = String::from_str("Connection Closed: ");
        match self {
            Stop::RemoteClose => {
                line.append("Close message received");
                proof {
                    reveal_strlit("Connection Closed: ");
                    reveal_strlit("Close message received");
                }
            },
            Stop::TransportFailure => {
                line.append(detail);
                proof { reveal_strlit("Connection Closed: "); }
            },
        }
        paint(Tone::Red, line.as_str())
    }
}

/// What the receiving side does with one read.
#[derive(Clone, Debug, PartialEq, Eq)]
pub struct Reaction {
    /// A message for the outbound queue, sent before anything else is read.
    pub reply: Option<Message>,
    /// A message for the inbound queue, to be displayed.
    pub show: Option<Message>,
    /// Set when the session is over.
    pub stop: Option<Stop>,
}

/// The mathematical value of a [`Reaction`].
pub struct ReactionView {
    pub reply: Option<MessageView>,
    pub show: Option<MessageView>,
    pub stop: Option<Stop>,
}

impl View for Reaction {
    type V = ReactionView;

    open spec fn view(&self) -> ReactionView {
        ReactionView { reply: opt_view(self.reply), show: opt_view(self.show), stop: self.stop }
    }
}

/// The notice displayed when a keepalive probe arrives.
pub open spec fn probe_notice() -> Seq<char> {
    painted(Tone::Green, "Ping!\n"@)
}

/// The notice displayed for a frame kind that is not supported.
pub open spec fn unsupported_notice() -> Seq<char> {
    "Unsupported ws message"@
}

/// The reply that a read calls for: a keepalive reply with the probe's payload.
pub open spec fn reply_for(ev: ReadEvent) -> Option<MessageView> {
    match ev {
        ReadEvent::Frame(Message::Ping(p)) => Some(MessageView::Pong(p@)),
        _ => None,
    }
}

/// What a read puts on the inbound queue for display.
pub open spec fn shown_for(ev: ReadEvent) -> Option<MessageView> {
    match ev {
        ReadEvent::Frame(Message::Text(s)) => Some(MessageView::Text(s@)),
        ReadEvent::Frame(Message::Binary(b)) => Some(MessageView::Binary(b@)),
        ReadEvent::Frame(Message::Ping(_)) => Some(MessageView::Text(probe_notice())),
        ReadEvent::Frame(Message::Pong(_)) => Some(MessageView::Text(unsupported_notice())),
        _ => None,
    }
}

/// Whether and why a read ends the session.
pub open spec fn stop_for(ev: ReadEvent) -> Option<Stop> {
    match ev {
        ReadEvent::Frame(Message::Close(_)) => Some(Stop::RemoteClose),
        ReadEvent::Failure => Some(Stop::TransportFailure),
        _ => None,
    }
}

/// The reaction to a read while the session is live.
pub open spec fn live_reaction(ev: ReadEvent) -> ReactionView {
    ReactionView { reply: reply_for(ev), show: shown_for(ev), stop: stop_for(ev) }
}

/// The reaction that does nothing.
pub open spec fn no_reaction() -> ReactionView {
    ReactionView { reply: None, show: None, stop: None }
}

/// One step of the receiving side: from its state and a read, the next state
/// and the reaction. Once stopped, it stays stopped and does nothing.
pub open spec fn receive_step(state: Option<Stop>, ev: ReadEvent) -> (Option<Stop>, ReactionView) {
    match state {
        Some(s) => (Some(s), no_reaction()),
        None => (stop_for(ev), live_reaction(ev)),
    }
}

/// The decisions of the receiving side of the network bridge.
pub struct Receiver {
    stopped: Option<Stop>,
}

impl View for Receiver {
    type V = Option<Stop>;

    closed spec fn view(&self) -> Option<Stop> {
        self.stopped
    }
}

impl Receiver {
    /// A receiver for a live session.
    pub fn new() -> (r: Receiver)
        ensures
            r@ == None::<Stop>,
    {
        Receiver { stopped: None }
    }

    /// Why the session ended, if it has.
    pub fn stopped(&self) -> (r: Option<Stop>)
        ensures
            r == self@,
    {
        self.stopped
    }

    /// Decides what to do with one read from the socket.
    pub fn step(&mut self, ev: ReadEvent) -> (r: Reaction)
        ensures
            (final(self)@, r@) == receive_step(old(self)@, ev),
    {
        if self.stopped.is_some() {
            return Reaction { reply: None, show: None, stop: None };
        }
        let ghost ev0 = ev;
        let r = match ev {
            ReadEvent::Frame(Message::Text(s)) => Reaction {
                reply: None,
                show: Some(Message::Text(s)),
                stop: None,
            },
            ReadEvent::Frame(Message::Binary(b)) => Reaction {
                reply: None,
                show: Some(Message::Binary(b)),
                stop: None,
            },
            ReadEvent::Frame(Message::Ping(p)) => {
                let notice = paint(Tone::Green, "Ping!\n");
                proof { reveal_strlit("Ping!\n"); }
                Reaction { reply: Some(Message::Pong(p)), show: Some(Message::Text(notice)), stop: None }
            },
            ReadEvent::Frame(Message::Pong(_)) => {
                let notice = String::from_str("Unsupported ws message");
                proof { reveal_strlit("Unsupported ws message"); }
                Reaction { reply: None, show: Some(Message::Text(notice)), stop: None }
            },
            ReadEvent::Frame(Message::Close(_)) => Reaction {
                reply: None,
                show: None,
                stop: Some(Stop::RemoteClose),
            },
            ReadEvent::Failure => Reaction { reply: None, show: None, stop: Some(Stop::TransportFailure) },
        };
        self.stopped = r.stop;
        assert(r@ == live_reaction(ev0));
        r
    }
}

} // verus!
