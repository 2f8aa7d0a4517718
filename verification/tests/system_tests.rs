use fkactor::sender::{closes_instead_of_sending, send_result, SendOutcome};
use fkactor::{ActorBuilder, Callback, ActorSystemConfig, AidError, Message, Status, SystemMsg};
use std::cmp::Ordering;
use std::sync::Arc;

#[test]
fn config_defaults_and_override() {
    let c = ActorSystemConfig::default();
    assert_eq!(c.message_channel_size, 32);
    assert!(c.start_on_launch);
    let c = c.message_channel_size(8);
    assert_eq!(c.message_channel_size, 8);
    assert!(c.start_on_launch);
}

#[test]
fn message_map_touches_only_application_messages() {
    let m: Message<u32, u8> = Message::Actual(2);
    assert_eq!(m.map(|x| x + 1), Message::Actual(3));
    let s: Message<u32, u8> = Message::System(SystemMsg::Start);
    assert_eq!(s.map(|x| x + 1), Message::<u32, u8>::System(SystemMsg::Start));
    let st: Message<u32, u8> =
        Message::System(SystemMsg::Stopped { aid: 4, error: Some(Arc::new("e".to_string())) });
    let mapped: Message<String, u8> = st.clone().map(|x| x.to_string());
    assert_eq!(mapped, Message::System(SystemMsg::Stopped { aid: 4, error: Some(Arc::new("e".to_string())) }));
}

#[test]
fn default_control_answers() {
    assert_eq!(SystemMsg::<u8>::Start.default_status(), Status::Done);
    assert_eq!(SystemMsg::<u8>::Stop.default_status(), Status::Stop);
    assert_eq!(SystemMsg::Stopped { aid: 1u8, error: None }.default_status(), Status::Done);
}

#[test]
fn send_outcomes() {
    assert_eq!(send_result(SendOutcome::Sent), Ok(()));
    assert_eq!(send_result(SendOutcome::Full), Ok(()));
    assert_eq!(send_result(SendOutcome::Disconnected), Err(AidError::ActorAlreadyStopped));
    assert!(closes_instead_of_sending(&SystemMsg::<u8>::Stop));
    assert!(!closes_instead_of_sending(&SystemMsg::<u8>::Start));
    assert!(!closes_instead_of_sending(&SystemMsg::Stopped { aid: 0u8, error: None }));
}

#[test]
fn builder_settings() {
    let b = ActorBuilder::new("system");
    assert!(b.channel_size.is_none() && b.name.is_none());
    assert_eq!(b.mailbox_size(32), 32);
    let b = b.name("worker").channel_size(4);
    assert_eq!(b.name.as_deref(), Some("worker"));
    assert_eq!(b.channel_size, Some(4));
    assert_eq!(b.mailbox_size(32), 4);
    assert_eq!(b.system, "system");
}

#[test]
fn message_order_start_first_other_control_last() {
    let start: Message<u32, u8> = Message::System(SystemMsg::Start);
    let stop: Message<u32, u8> = Message::System(SystemMsg::Stop);
    let stopped: Message<u32, u8> = Message::System(SystemMsg::Stopped { aid: 1, error: None });
    let one: Message<u32, u8> = Message::Actual(1);
    let two: Message<u32, u8> = Message::Actual(2);
    assert_eq!(start.partial_cmp(&one), Some(Ordering::Less));
    assert_eq!(one.partial_cmp(&start), Some(Ordering::Greater));
    assert_eq!(one.partial_cmp(&stop), Some(Ordering::Less));
    assert_eq!(stopped.partial_cmp(&two), Some(Ordering::Greater));
    assert_eq!(one.partial_cmp(&two), Some(Ordering::Less));
    assert_eq!(start.partial_cmp(&stopped), Some(Ordering::Less));
    assert_eq!(stopped.partial_cmp(&stop), Some(Ordering::Less));
    assert!(one < stop && start < one);
}

#[test]
fn control_message_order() {
    let a: SystemMsg<u8> = SystemMsg::Stopped { aid: 1, error: None };
    let b: SystemMsg<u8> = SystemMsg::Stopped { aid: 1, error: Some(Arc::new("a".to_string())) };
    let c: SystemMsg<u8> = SystemMsg::Stopped { aid: 1, error: Some(Arc::new("b".to_string())) };
    let d: SystemMsg<u8> = SystemMsg::Stopped { aid: 2, error: None };
    assert_eq!(a.partial_cmp(&b), Some(Ordering::Less));
    assert_eq!(b.partial_cmp(&c), Some(Ordering::Less));
    assert_eq!(c.partial_cmp(&d), Some(Ordering::Less));
    assert_eq!(c.partial_cmp(&c.clone()), Some(Ordering::Equal));
    for x in [&SystemMsg::Start, &a, &b, &c, &d, &SystemMsg::Stop] {
        for y in [&SystemMsg::Start, &a, &b, &c, &d, &SystemMsg::Stop] {
            assert_eq!(x.partial_cmp(y), Some(x.cmp(y)));
        }
    }
}

#[test]
fn message_equality() {
    let a: Message<u32, u8> = Message::Actual(1);
    let b: Message<u32, u8> = Message::Actual(1);
    let c: Message<u32, u8> = Message::Actual(2);
    let s: Message<u32, u8> = Message::System(SystemMsg::Start);
    assert!(a == b && !(a != b));
    assert!(a != c && !(a == c));
    assert!(a != s && s != a);
    let e1: SystemMsg<u8> = SystemMsg::Stopped { aid: 3, error: Some(Arc::new("x".to_string())) };
    let e2: SystemMsg<u8> = SystemMsg::Stopped { aid: 3, error: Some(Arc::new("x".to_string())) };
    let e3: SystemMsg<u8> = SystemMsg::Stopped { aid: 3, error: None };
    assert!(e1 == e2);
    assert!(e1 != e3);
    assert!(Message::<u32, u8>::System(e1) == Message::System(e2));
}

#[test]
fn messages_go_to_their_callbacks() {
    assert!(matches!(Message::<u32, u8>::Actual(4).callback(), Callback::Message(4)));
    assert!(matches!(Message::<u32, u8>::System(SystemMsg::Start).callback(), Callback::Start));
    assert!(matches!(Message::<u32, u8>::System(SystemMsg::Stop).callback(), Callback::Shutdown));
    let stopped = Message::<u32, u8>::System(SystemMsg::Stopped { aid: 6, error: Some(Arc::new("boom".to_string())) });
    match stopped.callback() {
        Callback::Stopped { aid, error } => {
            assert_eq!(aid, 6);
            assert_eq!(error.as_deref().map(|s| s.as_str()), Some("boom"));
        },
        _ => panic!("wrong callback"),
    }
}

#[test]
fn adaptors_pass_control_messages_through() {
    let m = Message::<u32, u8>::Actual(9);
    assert_eq!(m.actual(), Some(&9));
    assert!(matches!(m.into_actual(), Ok(9)));
    let s = Message::<u32, u8>::System(SystemMsg::Start);
    assert_eq!(s.actual(), None);
    assert!(matches!(s.into_actual(), Err(SystemMsg::Start)));
}
