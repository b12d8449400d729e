use tokio_otp::handler::{DrainPolicy, LoopAction, LoopEvent, ReceiveLoop};

type Event = LoopEvent<u32, &'static str>;

#[test]
fn messages_are_handled_between_the_hooks() {
    let mut run = ReceiveLoop::new();
    assert!(matches!(run.step(Event::Started(Ok(()))), LoopAction::Receive));
    assert!(matches!(run.step(Event::Message(1)), LoopAction::Handle(1)));
    assert!(matches!(run.step(Event::Handled(Ok(()))), LoopAction::Receive));
    assert!(matches!(run.step(Event::Closed), LoopAction::Stop));
    assert!(matches!(
        run.step(Event::Stopped(Err("late"))),
        LoopAction::Finish(Err("late"))
    ));
}

#[test]
fn discard_stops_at_once() {
    let mut run = ReceiveLoop::new();
    run.step(Event::Started(Ok(())));
    assert!(matches!(
        run.step(Event::Shutdown(DrainPolicy::default())),
        LoopAction::Stop
    ));
    assert!(matches!(
        run.step(Event::Stopped(Ok(()))),
        LoopAction::Finish(Ok(()))
    ));
    assert_eq!(DrainPolicy::default(), DrainPolicy::Discard);
}

#[test]
fn drain_handles_what_is_queued() {
    let mut run = ReceiveLoop::new();
    run.step(Event::Started(Ok(())));
    assert!(matches!(
        run.step(Event::Shutdown(DrainPolicy::Drain)),
        LoopAction::CloseAndDrain
    ));
    for message in [1, 2, 3] {
        let action = run.step(Event::Message(message));
        assert!(matches!(action, LoopAction::Handle(handled) if handled == message));
        assert!(matches!(run.step(Event::Handled(Ok(()))), LoopAction::Drain));
    }
    assert!(matches!(run.step(Event::Closed), LoopAction::Stop));
}

#[test]
fn failures_skip_the_stop_hook() {
    let mut run = ReceiveLoop::new();
    assert!(matches!(
        run.step(Event::Started(Err("start"))),
        LoopAction::Finish(Err("start"))
    ));

    let mut run = ReceiveLoop::new();
    run.step(Event::Started(Ok(())));
    run.step(Event::Message(1));
    assert!(matches!(
        run.step(Event::Handled(Err("handle"))),
        LoopAction::Finish(Err("handle"))
    ));

    let mut run = ReceiveLoop::new();
    run.step(Event::Started(Ok(())));
    run.step(Event::Shutdown(DrainPolicy::Drain));
    run.step(Event::Message(1));
    assert!(matches!(
        run.step(Event::Handled(Err("drain"))),
        LoopAction::Finish(Err("drain"))
    ));
}
