use reqt::{ResultChannel, TransportOutcome};

fn failure(message: &str) -> TransportOutcome {
    TransportOutcome::Failure { message: message.to_string() }
}

#[test]
fn receive_on_empty_channel_yields_nothing() {
    let mut channel = ResultChannel::new();
    assert!(channel.is_empty());
    assert_eq!(channel.try_receive(), None);
    assert_eq!(channel.try_receive(), None);
    assert_eq!(channel.len(), 0);
}

#[test]
fn one_send_is_received_exactly_once() {
    let mut channel = ResultChannel::new();
    channel.send(failure("only"));
    assert_eq!(channel.len(), 1);
    assert_eq!(channel.try_receive(), Some(failure("only")));
    assert_eq!(channel.try_receive(), None);
    assert_eq!(channel.try_receive(), None);
}

#[test]
fn outcomes_leave_in_send_order() {
    let mut channel = ResultChannel::new();
    channel.send(failure("one"));
    channel.send(TransportOutcome::Success { status: 200, headers: Vec::new(), body: vec![1, 2] });
    channel.send(failure("three"));
    assert_eq!(channel.len(), 3);
    assert_eq!(channel.try_receive(), Some(failure("one")));
    channel.send(failure("four"));
    assert_eq!(
        channel.try_receive(),
        Some(TransportOutcome::Success { status: 200, headers: Vec::new(), body: vec![1, 2] })
    );
    assert_eq!(channel.try_receive(), Some(failure("three")));
    assert_eq!(channel.try_receive(), Some(failure("four")));
    assert_eq!(channel.try_receive(), None);
    assert!(channel.is_empty());
}
