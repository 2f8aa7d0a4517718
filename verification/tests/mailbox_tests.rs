use fkactor::mailbox::ActorReceiver;
use fkactor::receiver::Emit;
use fkactor::{Message, SystemMsg};
use futures::channel::mpsc;
use futures::task::noop_waker_ref;
use std::task::Context;

type Mailbox = ActorReceiver<u32, u8>;

fn open() -> (mpsc::Sender<u32>, mpsc::Sender<SystemMsg<u8>>, Mailbox) {
    let (s, r) = mpsc::channel(8);
    let (ss, rs) = mpsc::channel(8);
    (s, ss, ActorReceiver::new(r, rs))
}

fn poll(m: &mut Mailbox) -> Emit<u32, u8> {
    let mut cx = Context::from_waker(noop_waker_ref());
    m.poll(&mut cx)
}

#[test]
fn empty_mailbox_is_pending() {
    let (_s, _ss, mut m) = open();
    assert!(matches!(poll(&mut m), Emit::Pending));
    assert!(!m.is_terminated());
}

#[test]
fn application_item_before_system_item() {
    let (mut s, mut ss, mut m) = open();
    s.try_send(1).unwrap();
    ss.try_send(SystemMsg::Start).unwrap();
    assert!(matches!(poll(&mut m), Emit::Ready(Message::Actual(1))));
    assert!(matches!(poll(&mut m), Emit::Ready(Message::System(SystemMsg::Start))));
    assert!(matches!(poll(&mut m), Emit::Pending));
}

#[test]
fn dropped_senders_end_with_stop_then_finish() {
    let (mut s, ss, mut m) = open();
    s.try_send(7).unwrap();
    drop(s);
    drop(ss);
    assert!(matches!(poll(&mut m), Emit::Ready(Message::Actual(7))));
    assert!(matches!(poll(&mut m), Emit::Ready(Message::System(SystemMsg::Stop))));
    assert!(matches!(poll(&mut m), Emit::Finished));
    assert!(m.is_terminated());
    assert!(matches!(poll(&mut m), Emit::Finished));
}

#[test]
fn closed_application_channel_keeps_system_messages() {
    let (s, mut ss, mut m) = open();
    drop(s);
    ss.try_send(SystemMsg::Start).unwrap();
    assert!(matches!(poll(&mut m), Emit::Ready(Message::System(SystemMsg::Start))));
    // The system channel was closed when the application channel ended.
    assert!(ss.try_send(SystemMsg::Stop).is_err());
    assert!(matches!(poll(&mut m), Emit::Ready(Message::System(SystemMsg::Stop))));
    assert!(matches!(poll(&mut m), Emit::Finished));
}

#[test]
fn buffered_message_leaves_channels_untouched() {
    let (mut s, mut ss, mut m) = open();
    s.try_send(1).unwrap();
    ss.try_send(SystemMsg::Start).unwrap();
    assert!(matches!(poll(&mut m), Emit::Ready(Message::Actual(1))));
    s.try_send(2).unwrap();
    assert!(matches!(poll(&mut m), Emit::Ready(Message::System(SystemMsg::Start))));
    assert!(matches!(poll(&mut m), Emit::Ready(Message::Actual(2))));
}

#[test]
fn ended_system_channel_closes_application_channel() {
    let (mut s, ss, mut m) = open();
    drop(ss);
    s.try_send(3).unwrap();
    assert!(matches!(poll(&mut m), Emit::Ready(Message::Actual(3))));
    // The application channel was closed when the system channel ended.
    assert!(s.try_send(4).is_err());
    assert!(matches!(poll(&mut m), Emit::Ready(Message::System(SystemMsg::Stop))));
    assert!(matches!(poll(&mut m), Emit::Finished));
}

#[test]
fn whole_run_keeps_every_item_in_order_and_stops_once() {
    let (mut s, mut ss, mut m) = open();
    for i in 1..=4 {
        s.try_send(i).unwrap();
    }
    ss.try_send(SystemMsg::Start).unwrap();
    ss.try_send(SystemMsg::Stopped { aid: 5, error: None }).unwrap();
    drop(s);
    drop(ss);
    let mut actual = Vec::new();
    let mut system = Vec::new();
    let mut all = 0;
    loop {
        match poll(&mut m) {
            Emit::Ready(Message::Actual(x)) => actual.push(x),
            Emit::Ready(Message::System(x)) => system.push(x),
            Emit::Pending => panic!("a closed mailbox never waits"),
            Emit::Finished => break,
        }
        all += 1;
    }
    assert_eq!(actual, vec![1, 2, 3, 4]);
    assert_eq!(system.len(), 3);
    assert!(matches!(system[0], SystemMsg::Start));
    assert!(matches!(system[1], SystemMsg::Stopped { aid: 5, error: None }));
    assert!(matches!(system[2], SystemMsg::Stop));
    assert_eq!(all, 7);
    assert!(m.is_terminated());
}
