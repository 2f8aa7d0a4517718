use fkactor::run::{exit_error, HandlePoll, PollStart, SinkPoll};
use fkactor::{RunHandler, RunHandlerError, Status};

type H = RunHandler<&'static str, u32>;

#[test]
fn ready_sink_is_ready() {
    let mut h: H = RunHandler::Ready("ctx");
    assert!(h.is_ready());
    assert!(matches!(h.begin_poll::<String>(), PollStart::Answer(SinkPoll::Ready(Ok(())))));
    assert!(h.is_ready());
}

#[test]
fn message_cycle_returns_to_ready() {
    let mut h: H = RunHandler::Ready("ctx");
    assert_eq!(h.begin_send(), "ctx");
    h.processing(7);
    assert!(!h.is_ready());
    let p = match h.begin_poll::<String>() {
        PollStart::Poll(p) => p,
        _ => panic!("expected the computation"),
    };
    assert_eq!(p, 7);
    assert!(matches!(h.end_poll::<String>(p, HandlePoll::Pending), SinkPoll::Pending));
    assert!(matches!(h, RunHandler::Processing(7)));
    let p = match h.begin_poll::<String>() {
        PollStart::Poll(p) => p,
        _ => panic!("expected the computation"),
    };
    let r = h.end_poll::<String>(p, HandlePoll::Finished("ctx2", Status::Done));
    assert!(matches!(r, SinkPoll::Ready(Ok(()))));
    assert!(matches!(h, RunHandler::Ready("ctx2")));
}

#[test]
fn stop_and_failure_end_the_loop() {
    let mut h: H = RunHandler::Processing(1);
    let p = match h.begin_poll::<String>() {
        PollStart::Poll(p) => p,
        _ => panic!("expected the computation"),
    };
    let r = h.end_poll::<String>(p, HandlePoll::Finished("c", Status::Stop));
    assert!(matches!(r, SinkPoll::Ready(Err(RunHandlerError::Stopped))));
    assert!(matches!(h, RunHandler::Invalid));
    let closed = h.close(r);
    assert!(matches!(closed, SinkPoll::Ready(Ok(()))));

    let mut g: H = RunHandler::Processing(2);
    let p = match g.begin_poll::<String>() {
        PollStart::Poll(p) => p,
        _ => panic!("expected the computation"),
    };
    let r = g.end_poll(p, HandlePoll::Failed("boom".to_string()));
    let closed = g.close(r);
    match closed {
        SinkPoll::Ready(Err(RunHandlerError::Error(e))) => assert_eq!(e, "boom"),
        _ => panic!("failure not passed on"),
    }
}

#[test]
fn clean_close_spends_the_sink() {
    let mut h: H = RunHandler::Ready("c");
    let r = h.close::<String>(SinkPoll::Ready(Ok(())));
    assert!(matches!(r, SinkPoll::Ready(Ok(()))));
    assert!(matches!(h, RunHandler::Invalid));
    let mut k: H = RunHandler::Processing(3);
    assert!(matches!(k.close::<String>(SinkPoll::Pending), SinkPoll::Pending));
    assert!(matches!(k, RunHandler::Processing(3)));
    assert!(matches!(k.take(), RunHandler::Processing(3)));
    assert!(matches!(k, RunHandler::Invalid));
}

#[test]
fn only_failures_are_reported_on_exit() {
    assert_eq!(exit_error::<String>(Ok(())), None);
    assert_eq!(exit_error::<String>(Err(RunHandlerError::Stopped)), None);
    assert_eq!(exit_error(Err(RunHandlerError::Error("e".to_string()))), Some("e".to_string()));
}
