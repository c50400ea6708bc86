use crate::message::MessageView;
use crate::receive::{live_reaction, no_reaction, receive_step, shown_for, stop_for, ReactionView, ReadEvent, Stop};
use crate::terminal::{rendering, input_action, input_exit, InputActionView, InputEvent};
use vstd::prelude::*;

verus! {

/// The states and reactions of the receiving side over a sequence of reads.
pub open spec fn receive_run(state: Option<Stop>, evs: Seq<ReadEvent>) -> (Option<Stop>, Seq<ReactionView>)
    decreases evs.len(),
{
    if evs.len() == 0 {
        (state, Seq::empty())
    } else {
        let (next, r) = receive_step(state, evs[0]);
        let (last, rs) = receive_run(next, evs.drop_first());
        (last, seq![r] + rs)
    }
}

/// An optional message as a sequence of zero or one message.
pub open spec fn option_seq(o: Option<MessageView>) -> Seq<MessageView> {
    match o {
        Some(m) => seq![m],
        None => Seq::empty(),
    }
}

/// Everything that a sequence of reactions puts on the inbound queue, in order.
pub open spec fn shown_all(rs: Seq<ReactionView>) -> Seq<MessageView>
    decreases rs.len(),
{
    if rs.len() == 0 {
        Seq::empty()
    } else {
        option_seq(rs[0].show) + shown_all(rs.drop_first())
    }
}

/// Everything that a sequence of reactions puts on the outbound queue, in order.
pub open spec fn replies_all(rs: Seq<ReactionView>) -> Seq<MessageView>
    decreases rs.len(),
{
    if rs.len() == 0 {
        Seq::empty()
    } else {
        option_seq(rs[0].reply) + replies_all(rs.drop_first())
    }
}

/// No read before index `k` ends the session.
pub open spec fn live_until(evs: Seq<ReadEvent>, k: int) -> bool {
    forall|i: int| 0 <= i < k ==> stop_for(#[trigger] evs[i]) is None
}

/// Index `k` is the first read that ends the session, or the end of the reads.
pub open spec fn first_stop(evs: Seq<ReadEvent>, k: int) -> bool {
    &&& 0 <= k <= evs.len()
    &&& live_until(evs, k)
    &&& (k == evs.len() || stop_for(evs[k]) is Some)
}

/// A message that the output loop displays rather than skips.
pub open spec fn is_payload(m: MessageView) -> bool {
    m is Text || m is Binary
}

/// Once the receiving side has stopped, no later read changes its state or
/// puts anything on either queue.
pub proof fn lemma_silent_after_stop(s: Stop, evs: Seq<ReadEvent>)
    ensures
        receive_run(Some(s), evs).0 == Some(s),
        receive_run(Some(s), evs).1.len() == evs.len(),
        forall|i: int| 0 <= i < evs.len() ==> #[trigger] receive_run(Some(s), evs).1[i] == no_reaction(),
        shown_all(receive_run(Some(s), evs).1) == Seq::<MessageView>::empty(),
        replies_all(receive_run(Some(s), evs).1) == Seq::<MessageView>::empty(),
    decreases evs.len(),
{
    if evs.len() > 0 {
        lemma_silent_after_stop(s, evs.drop_first());
        let rs = receive_run(Some(s), evs).1;
        let tail = receive_run(Some(s), evs.drop_first()).1;
        assert(rs == seq![no_reaction()] + tail);
        assert forall|i: int| 0 <= i < evs.len() implies #[trigger] rs[i] == no_reaction() by {
            if i > 0 {
                assert(rs[i] == tail[i - 1]);
            }
        }
        assert(rs.drop_first() == tail);
    }
}

/// Each read before the first stop gets the live reaction: a keepalive probe
/// gets exactly one reply, with its own payload, in the reaction to that very
/// read, before the next read is looked at. The first stop gets its own live
/// reaction and ends the session; nothing after it reacts.
pub proof fn lemma_reactions_in_order(evs: Seq<ReadEvent>, k: int)
    requires
        first_stop(evs, k),
    ensures
        receive_run(None, evs).1.len() == evs.len(),
        forall|i: int| 0 <= i < evs.len() && i <= k ==> #[trigger] receive_run(None, evs).1[i] == live_reaction(evs[i]),
        forall|i: int| k < i < evs.len() ==> #[trigger] receive_run(None, evs).1[i] == no_reaction(),
        receive_run(None, evs).0 == (if k < evs.len() { stop_for(evs[k]) } else { None }),
    decreases evs.len(),
{
    if evs.len() > 0 {
        let rs = receive_run(None, evs).1;
        if k == 0 {
            let s = stop_for(evs[0])->0;
            lemma_silent_after_stop(s, evs.drop_first());
            let tail = receive_run(Some(s), evs.drop_first()).1;
            assert(rs == seq![live_reaction(evs[0])] + tail);
            assert forall|i: int| k < i < evs.len() implies #[trigger] rs[i] == no_reaction() by {
                assert(rs[i] == tail[i - 1]);
            }
        } else {
            assert(stop_for(evs[0]) is None);
            let rest = evs.drop_first();
            assert forall|i: int| 0 <= i < k - 1 implies stop_for(#[trigger] rest[i]) is None by {
                assert(rest[i] == evs[i + 1]);
            }
            assert(first_stop(rest, k - 1));
            lemma_reactions_in_order(rest, k - 1);
            let tail = receive_run(None, rest).1;
            assert(rs == seq![live_reaction(evs[0])] + tail);
            assert forall|i: int| 0 <= i < evs.len() && i <= k implies #[trigger] rs[i] == live_reaction(evs[i]) by {
                if i > 0 {
                    assert(rs[i] == tail[i - 1]);
                    assert(rest[i - 1] == evs[i]);
                }
            }
            assert forall|i: int| k < i < evs.len() implies #[trigger] rs[i] == no_reaction() by {
                assert(rs[i] == tail[i - 1]);
            }
        }
    }
}

/// The inbound queue receives one message for every read before the first
/// stop, in arrival order, and each is a payload that the output loop
/// displays; the stop and everything after it add nothing.
pub proof fn lemma_display_order(evs: Seq<ReadEvent>, k: int)
    requires
        first_stop(evs, k),
    ensures
        shown_all(receive_run(None, evs).1) == evs.take(k).map_values(|e: ReadEvent| shown_for(e)->0),
        forall|i: int| 0 <= i < k ==> is_payload(#[trigger] shown_all(receive_run(None, evs).1)[i]),
        forall|i: int| 0 <= i < k ==> !(rendering(#[trigger] shown_all(receive_run(None, evs).1)[i]) is Skipped),
    decreases evs.len(),
{
    let shown = shown_all(receive_run(None, evs).1);
    let expect = evs.take(k).map_values(|e: ReadEvent| shown_for(e)->0);
    if evs.len() == 0 {
        assert(shown =~= expect);
    } else if k == 0 {
        let s = stop_for(evs[0])->0;
        lemma_silent_after_stop(s, evs.drop_first());
        assert(receive_run(None, evs).1.drop_first() == receive_run(Some(s), evs.drop_first()).1);
        assert(shown =~= expect);
    } else {
        let rest = evs.drop_first();
        assert forall|i: int| 0 <= i < k - 1 implies stop_for(#[trigger] rest[i]) is None by {
            assert(rest[i] == evs[i + 1]);
        }
        assert(stop_for(evs[0]) is None);
        lemma_display_order(rest, k - 1);
        assert(receive_run(None, evs).1.drop_first() == receive_run(None, rest).1);
        let tail = shown_all(receive_run(None, rest).1);
        assert(shown == seq![shown_for(evs[0])->0] + tail);
        assert(shown =~= expect);
        assert forall|i: int| 0 <= i < k implies is_payload(#[trigger] shown[i]) by {
            if i > 0 {
                assert(shown[i] == tail[i - 1]);
            }
        }
    }
}

/// The messages that the input loop hands to the outbound queue, in order,
/// over a sequence of prompt reads: up to an interrupt or the end of input.
pub open spec fn submitted(evs: Seq<InputEvent>) -> Seq<MessageView>
    decreases evs.len(),
{
    if evs.len() == 0 {
        Seq::empty()
    } else {
        match input_action(evs[0]) {
            InputActionView::Submit(m) => seq![m] + submitted(evs.drop_first()),
            InputActionView::Ignore => submitted(evs.drop_first()),
            _ => Seq::empty(),
        }
    }
}

/// The text of a submitted line, or the empty text for any other event.
pub open spec fn line_text(ev: InputEvent) -> Seq<char> {
    match ev {
        InputEvent::Line(l) => l@,
        _ => Seq::empty(),
    }
}

/// Lines typed at the prompt reach the outbound queue as text messages, one
/// each, in the order they were typed.
pub proof fn lemma_lines_in_order(evs: Seq<InputEvent>)
    requires
        forall|i: int| 0 <= i < evs.len() ==> #[trigger] evs[i] is Line,
    ensures
        submitted(evs) == evs.map_values(|e: InputEvent| MessageView::Text(line_text(e))),
    decreases evs.len(),
{
    if evs.len() > 0 {
        let rest = evs.drop_first();
        assert forall|i: int| 0 <= i < rest.len() implies #[trigger] rest[i] is Line by {
            assert(rest[i] == evs[i + 1]);
        }
        lemma_lines_in_order(rest);
        assert(evs[0] is Line);
        assert(submitted(evs) =~= evs.map_values(|e: InputEvent| MessageView::Text(line_text(e))));
    }
}

/// Lines typed before anything else reach the outbound queue first, as text
/// messages, one each, in the order they were typed; what follows them adds
/// only what it would add on its own.
pub proof fn lemma_lines_then_rest(lines: Seq<InputEvent>, rest: Seq<InputEvent>)
    requires
        forall|i: int| 0 <= i < lines.len() ==> #[trigger] lines[i] is Line,
    ensures
        submitted(lines + rest) == lines.map_values(|e: InputEvent| MessageView::Text(line_text(e)))
            + submitted(rest),
    decreases lines.len(),
{
    let texts = lines.map_values(|e: InputEvent| MessageView::Text(line_text(e)));
    if lines.len() == 0 {
        assert(lines + rest =~= rest);
        assert(texts + submitted(rest) =~= submitted(rest));
    } else {
        let tail = lines.drop_first();
        assert forall|i: int| 0 <= i < tail.len() implies #[trigger] tail[i] is Line by {
            assert(tail[i] == lines[i + 1]);
        }
        lemma_lines_then_rest(tail, rest);
        assert((lines + rest)[0] == lines[0]);
        assert((lines + rest).drop_first() =~= tail + rest);
        assert(lines[0] is Line);
        assert(texts =~= seq![MessageView::Text(line_text(lines[0]))]
            + tail.map_values(|e: InputEvent| MessageView::Text(line_text(e))));
        assert(submitted(lines + rest) =~= texts + submitted(rest));
    }
}

/// Lines typed before an interrupt or the end of input are all handed to the
/// outbound queue, in order, and nothing after it is; an interrupt ends the
/// process at once with success status.
pub proof fn lemma_lines_until_stop(lines: Seq<InputEvent>, rest: Seq<InputEvent>)
    requires
        forall|i: int| 0 <= i < lines.len() ==> #[trigger] lines[i] is Line,
        rest.len() > 0,
        rest[0] is Interrupt || rest[0] is End,
    ensures
        submitted(lines + rest) == lines.map_values(|e: InputEvent| MessageView::Text(line_text(e))),
        rest[0] is Interrupt ==> input_exit(input_action(rest[0])) == Some(0i32),
        rest[0] is End ==> input_exit(input_action(rest[0])) == None::<i32>,
{
    lemma_lines_then_rest(lines, rest);
    assert(submitted(rest) == Seq::<MessageView>::empty());
    assert(lines.map_values(|e: InputEvent| MessageView::Text(line_text(e))) + Seq::<MessageView>::empty()
        =~= lines.map_values(|e: InputEvent| MessageView::Text(line_text(e))));
}

} // verus!
