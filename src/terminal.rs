use crate::message::{Message, MessageView};
use crate::paint::{paint, painted, Tone};
use vstd::prelude::*;

verus! {

/// What one read from the interactive prompt yields.
#[derive(Clone, Debug, PartialEq, Eq)]
pub enum InputEvent {
    /// A submitted line.
    Line(String),
    /// The interrupt signal (Ctrl-C).
    Interrupt,
    /// Any other signal the prompt reports.
    OtherSignal,
    /// No more lines can be had.
    End,
}

/// What the input loop does with one read.
#[derive(Clone, Debug, PartialEq, Eq)]
pub enum InputAction {
    /// Hand the message to the outbound queue and keep reading.
    Submit(Message),
    /// Terminate the whole process with success status.
    Quit,
    /// Keep reading.
    Ignore,
    /// Stop reading and wait for the other contexts.
    Finish,
}

/// The view of an input action: the message view for `Submit`.
pub ghost enum InputActionView {
    Submit(MessageView),
    Quit,
    Ignore,
    Finish,
}

impl View for InputAction {
    type V = InputActionView;

    open spec fn view(&self) -> InputActionView {
        match self {
            InputAction::Submit(m) => InputActionView::Submit(m@),
            InputAction::Quit => InputActionView::Quit,
            InputAction::Ignore => InputActionView::Ignore,
            InputAction::Finish => InputActionView::Finish,
        }
    }
}

/// The process exit status that an input action calls for, if it ends the
/// process: an interrupt ends it with success.
pub open spec fn input_exit(a: InputActionView) -> Option<i32> {
    match a {
        InputActionView::Quit => Some(0),
        _ => None,
    }
}

impl InputAction {
    /// The status to exit the process with, where the action ends it.
    pub fn exit_code(&self) -> (r: Option<i32>)
        ensures
            r == input_exit(self@),
    {
        match self {
            InputAction::Quit => Some(0),
            _ => None,
        }
    }
}

/// The action that an input event calls for.
pub open spec fn input_action(ev: InputEvent) -> InputActionView {
    match ev {
        InputEvent::Line(l) => InputActionView::Submit(MessageView::Text(l@)),
        InputEvent::Interrupt => InputActionView::Quit,
        InputEvent::OtherSignal => InputActionView::Ignore,
        InputEvent::End => InputActionView::Finish,
    }
}

/// Decides what the input loop does with one read from the prompt.
pub fn on_input(ev: InputEvent) -> (r: InputAction)
    ensures
        r@ == input_action(ev),
{
    match ev {
        InputEvent::Line(l) => InputAction::Submit(Message::text(l)),
        InputEvent::Interrupt => InputAction::Quit,
        InputEvent::OtherSignal => InputAction::Ignore,
        InputEvent::End => InputAction::Finish,
    }
}

/// The text of a byte sequence that is valid UTF-8, or `None` where it is not.
pub uninterp spec fn utf8_text(b: Seq<u8>) -> Option<Seq<char>>;

/// The view of an optional string.
pub open spec fn opt_text(s: Option<String>) -> Option<Seq<char>> {
    match s {
        Some(t) => Some(t@),
        None => None,
    }
}

/// Relies on `std::str::from_utf8`: it accepts exactly the valid UTF-8 byte
/// sequences and yields the characters they encode; the empty sequence is
/// the empty text.
#[verifier::external_body]
fn decode_utf8(b: &Vec<u8>) -> (r: Option<String>)
    ensures
        opt_text(r) == utf8_text(b@),
        b@.len() == 0 ==> opt_text(r) == Some(Seq::<char>::empty()),
{
    match std::str::from_utf8(b.as_slice()) {
        Ok(s) => Some(s.to_string()),
        Err(_) => None,
    }
}

/// How the output loop shows one inbound message.
#[derive(Clone, Debug, PartialEq, Eq)]
pub enum Rendered {
    /// A line to write above the prompt.
    Line(String),
    /// The message is not meant for display.
    Skipped,
    /// A binary payload that is not valid text: the line reports it.
    Undecodable(String),
}

/// The view of a rendering.
pub ghost enum RenderedView {
    Line(Seq<char>),
    Skipped,
    Undecodable(Seq<char>),
}

impl View for Rendered {
    type V = RenderedView;

    open spec fn view(&self) -> RenderedView {
        match self {
            Rendered::Line(s) => RenderedView::Line(s@),
            Rendered::Skipped => RenderedView::Skipped,
            Rendered::Undecodable(s) => RenderedView::Undecodable(s@),
        }
    }
}

/// The marker in front of every displayed inbound message.
pub open spec fn inbound_marker() -> Seq<char> {
    "<< "@
}

/// The report shown in place of a binary payload that is not valid text.
pub open spec fn undecodable_report() -> Seq<char> {
    painted(Tone::Red, "<< [binary payload is not valid UTF-8]"@)
}

/// The rendering of a payload after decoding: the marked line, or the report.
pub open spec fn decoded_rendering(text: Option<Seq<char>>) -> RenderedView {
    match text {
        Some(t) => RenderedView::Line(inbound_marker() + t),
        None => RenderedView::Undecodable(undecodable_report()),
    }
}

/// The rendering of an inbound message.
pub open spec fn rendering(m: MessageView) -> RenderedView {
    match m {
        MessageView::Text(t) => RenderedView::Line(inbound_marker() + t),
        MessageView::Binary(b) => decoded_rendering(utf8_text(b)),
        _ => RenderedView::Skipped,
    }
}

/// The marked line for `text`.
fn marked_line(text: &str) -> (r: String)
    ensures
        r@ == inbound_marker() + text@,
{
    let mut line = String::from_str("<< ");
    proof { reveal_strlit("<< "); }
    line.append(text);
    line
}

/// Renders a payload from the outcome of decoding it as text.
pub fn render_decoded(text: Option<String>) -> (r: Rendered)
    ensures
        r@ == decoded_rendering(opt_text(text)),
{
    match text {
        Some(t) => Rendered::Line(marked_line(t.as_str())),
        None => {
            proof { reveal_strlit("<< [binary payload is not valid UTF-8]"); }
            Rendered::Undecodable(paint(Tone::Red, "<< [binary payload is not valid UTF-8]"))
        },
    }
}

/// Renders an inbound message for display above the prompt: text and binary
/// payloads are shown, any other kind is skipped.
pub fn render(m: &Message) -> (r: Rendered)
    ensures
        r@ == rendering(m@),
{
    match m {
        Message::Text(t) => Rendered::Line(marked_line(t.as_str())),
        Message::Binary(b) => render_decoded(decode_utf8(b)),
        _ => Rendered::Skipped,
    }
}

} // verus!
