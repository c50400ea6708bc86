//! An interactive line client for a message-framed duplex socket.
//!
//! The library holds the decisions of a session: what each frame read from
//! the wire turns into, what each line typed at the prompt turns into, how
//! inbound messages are rendered, and how the endpoint address is derived.
//! The program around it owns the terminal, the socket and the queues.

mod address;
mod message;
mod paint;
mod receive;
mod session;
mod terminal;

pub use address::{
    address_of, address_view, opt_str_view, url_host, url_port, decimal, decimal_digits, host_port, join_host_port,
    resolve_address, target_address, AddressError,
};
pub use message::{opt_view, Message, MessageView};
pub use paint::{painted, tone_code, Tone};
pub use receive::{
    announcement_of, closed_prefix, exit_status, live_reaction, no_reaction, probe_notice,
    receive_step, reply_for, shown_for, stop_for, unsupported_notice, Reaction, ReactionView,
    ReadEvent, Receiver, Stop,
};
pub use session::{
    first_stop, is_payload, lemma_display_order, lemma_lines_in_order, lemma_reactions_in_order,
    lemma_lines_then_rest, lemma_lines_until_stop, lemma_silent_after_stop, line_text, live_until, option_seq, receive_run, replies_all,
    shown_all, submitted,
};
pub use terminal::{
    decoded_rendering, inbound_marker, input_action, input_exit, on_input, opt_text, render, render_decoded,
    rendering, undecodable_report, utf8_text, InputAction, InputActionView, InputEvent, Rendered,
    RenderedView,
};
