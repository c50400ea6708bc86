use manx::{Message, ReadEvent, Reaction, Receiver, Stop};

const PROBE_NOTICE: &str = "\x1b[32mPing!\n\x1b[0m";

#[test]
fn text_frame_goes_to_display() {
    let mut rx = Receiver::new();
    let r = rx.step(ReadEvent::Frame(Message::Text("world".to_string())));
    assert_eq!(r.reply, None);
    assert_eq!(r.show, Some(Message::Text("world".to_string())));
    assert_eq!(r.stop, None);
    assert_eq!(rx.stopped(), None);
}

#[test]
fn binary_frame_goes_to_display() {
    let mut rx = Receiver::new();
    let r = rx.step(ReadEvent::Frame(Message::Binary(vec![104, 105])));
    assert_eq!(r.show, Some(Message::Binary(vec![104, 105])));
    assert_eq!(r.reply, None);
    assert_eq!(r.stop, None);
}

#[test]
fn probe_gets_matching_reply() {
    let mut rx = Receiver::new();
    let r = rx.step(ReadEvent::Frame(Message::Ping(vec![1, 2, 3])));
    assert_eq!(r.reply, Some(Message::Pong(vec![1, 2, 3])));
    assert_eq!(r.show, Some(Message::Text(PROBE_NOTICE.to_string())));
    assert_eq!(r.stop, None);
    let next = rx.step(ReadEvent::Frame(Message::Text("after".to_string())));
    assert_eq!(next.reply, None);
    assert_eq!(next.show, Some(Message::Text("after".to_string())));
}

#[test]
fn empty_probe_gets_empty_reply() {
    let mut rx = Receiver::new();
    let r = rx.step(ReadEvent::Frame(Message::Ping(vec![])));
    assert_eq!(r.reply, Some(Message::Pong(vec![])));
}

#[test]
fn pong_frame_shows_placeholder() {
    let mut rx = Receiver::new();
    let r = rx.step(ReadEvent::Frame(Message::Pong(vec![9])));
    assert_eq!(r.reply, None);
    assert_eq!(r.show, Some(Message::Text("Unsupported ws message".to_string())));
    assert_eq!(r.stop, None);
}

#[test]
fn close_frame_ends_with_success() {
    let mut rx = Receiver::new();
    let r = rx.step(ReadEvent::Frame(Message::Close(None)));
    assert_eq!(r, Reaction { reply: None, show: None, stop: Some(Stop::RemoteClose) });
    assert_eq!(Stop::RemoteClose.exit_code(), 0);
    assert_eq!(rx.stopped(), Some(Stop::RemoteClose));
}

#[test]
fn close_with_reason_ends_with_success() {
    let mut rx = Receiver::new();
    let r = rx.step(ReadEvent::Frame(Message::Close(Some("bye".to_string()))));
    assert_eq!(r.stop, Some(Stop::RemoteClose));
}

#[test]
fn nothing_happens_after_close() {
    let mut rx = Receiver::new();
    rx.step(ReadEvent::Frame(Message::Close(None)));
    let r = rx.step(ReadEvent::Frame(Message::Ping(vec![1])));
    assert_eq!(r, Reaction { reply: None, show: None, stop: None });
    let r = rx.step(ReadEvent::Frame(Message::Text("late".to_string())));
    assert_eq!(r, Reaction { reply: None, show: None, stop: None });
    assert_eq!(rx.stopped(), Some(Stop::RemoteClose));
}

#[test]
fn transport_failure_ends_with_failure() {
    let mut rx = Receiver::new();
    let r = rx.step(ReadEvent::Failure);
    assert_eq!(r, Reaction { reply: None, show: None, stop: Some(Stop::TransportFailure) });
    assert_eq!(Stop::TransportFailure.exit_code(), 1);
    let later = rx.step(ReadEvent::Frame(Message::Text("x".to_string())));
    assert_eq!(later, Reaction { reply: None, show: None, stop: None });
    assert_eq!(rx.stopped(), Some(Stop::TransportFailure));
}

#[test]
fn frames_reach_display_in_arrival_order() {
    let mut rx = Receiver::new();
    let frames = vec![
        ReadEvent::Frame(Message::Text("a".to_string())),
        ReadEvent::Frame(Message::Ping(vec![7])),
        ReadEvent::Frame(Message::Binary(vec![98])),
        ReadEvent::Frame(Message::Text("c".to_string())),
        ReadEvent::Frame(Message::Close(None)),
        ReadEvent::Frame(Message::Text("d".to_string())),
    ];
    let mut shown = Vec::new();
    let mut replies = Vec::new();
    for f in frames {
        let r = rx.step(f);
        replies.extend(r.reply);
        shown.extend(r.show);
    }
    assert_eq!(
        shown,
        vec![
            Message::Text("a".to_string()),
            Message::Text(PROBE_NOTICE.to_string()),
            Message::Binary(vec![98]),
            Message::Text("c".to_string()),
        ]
    );
    assert_eq!(replies, vec![Message::Pong(vec![7])]);
}

#[test]
fn close_announcement_is_red() {
    assert_eq!(
        Stop::RemoteClose.announcement(""),
        "\x1b[31mConnection Closed: Close message received\x1b[0m"
    );
}

#[test]
fn failure_announcement_carries_detail() {
    assert_eq!(
        Stop::TransportFailure.announcement("reset by peer"),
        "\x1b[31mConnection Closed: reset by peer\x1b[0m"
    );
}
