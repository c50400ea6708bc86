use vstd::prelude::*;

verus! {

/// One discrete unit exchanged over the wire.
#[derive(Clone, Debug, PartialEq, Eq)]
pub enum Message {
    Text(String),
    Binary(Vec<u8>),
    Ping(Vec<u8>),
    Pong(Vec<u8>),
    /// A close frame, with the reason it carried, if any.
    Close(Option<String>),
}

/// The mathematical value of a [`Message`].
pub ghost enum MessageView {
    Text(Seq<char>),
    Binary(Seq<u8>),
    Ping(Seq<u8>),
    Pong(Seq<u8>),
    Close(Option<Seq<char>>),
}

impl View for Message {
    type V = MessageView;

    open spec fn view(&self) -> MessageView {
        match self {
            Message::Text(s) => MessageView::Text(s@),
            Message::Binary(b) => MessageView::Binary(b@),
            Message::Ping(b) => MessageView::Ping(b@),
            Message::Pong(b) => MessageView::Pong(b@),
            Message::Close(r) => MessageView::Close(
                match r {
                    Some(s) => Some(s@),
                    None => None,
                },
            ),
        }
    }
}

/// The view of an optional message.
pub open spec fn opt_view(m: Option<Message>) -> Option<MessageView> {
    match m {
        Some(x) => Some(x@),
        None => None,
    }
}

impl Message {
    /// A text message holding `s`.
    pub fn text(s: String) -> (r: Message)
        ensures
            r@ == MessageView::Text(s@),
    {
        Message::Text(s)
    }

    /// Whether the message carries a payload meant for display.
    pub fn is_payload(&self) -> (r: bool)
        ensures
            r == (self is Text || self is Binary),
    {
        match self {
            Message::Text(_) | Message::Binary(_) => true,
            _ => false,
        }
    }
}

} // verus!
