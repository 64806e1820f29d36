use drama::message::{resolve, BoxedActorMessage, Enveloper, Handler, RequestPoll};
use drama::runtime::{on_command, on_message, ActorRuntime, RuntimeEvent, Step};
use drama::{Actor, ActorCommand, ActorHandle, Error, Recipient, SendError, TryRecvError};

#[derive(Debug)]
struct Testor {
    foos: usize,
    bars: isize,
}

#[derive(Debug, Clone, PartialEq)]
struct Foo {}

#[derive(Debug, Clone, PartialEq)]
struct Bar {}

impl Actor for Testor {}

impl Handler<Foo> for Testor {
    type Response = usize;
    fn handle(&mut self, _: &Foo) -> usize {
        self.foos += 1;
        10
    }
}

impl Handler<Bar> for Testor {
    type Response = isize;
    fn handle(&mut self, _: &Bar) -> isize {
        self.bars += 1;
        if self.foos == 100 {
            assert_eq!(self.bars, 100);
        }
        10
    }
}

fn spawn_testor() -> (ActorHandle<Testor>, ActorRuntime<Testor>) {
    let (message_tx, message_rx) = flume::unbounded();
    let (command_tx, command_rx) = flume::unbounded();
    let handle = ActorHandle::new(message_tx, command_tx);
    let runtime = ActorRuntime::new(Testor { foos: 0, bars: 0 }, command_rx, message_rx);
    (handle, runtime)
}

/// Hands every message waiting in the mailbox to the actor.
fn drain(runtime: &mut ActorRuntime<Testor>) -> usize {
    let mut handled = 0;
    while let Ok(message) = runtime.mailbox().try_recv() {
        assert_eq!(runtime.step(RuntimeEvent::Message(Some(message))), Step::Continue);
        handled += 1;
    }
    handled
}

#[test]
fn it_works_sync() {
    let (handle, mut runtime) = spawn_testor();
    let mut res = 0;
    let mut res2 = 0;
    for _ in 0..100 {
        let mut request = handle.send_wait(Foo {}).unwrap();
        assert_eq!(request.try_response(), RequestPoll::Pending);
        drain(&mut runtime);
        match request.try_response() {
            RequestPoll::Ready(Ok(r)) => res += r,
            other => panic!("unexpected {:?}", other),
        }
        let mut request = handle.send_wait(Bar {}).unwrap();
        drain(&mut runtime);
        match request.try_response() {
            RequestPoll::Ready(Ok(r)) => res2 += r,
            other => panic!("unexpected {:?}", other),
        }
    }

    handle.send(Foo {}).unwrap();
    handle.send_forget(Bar {});
    let rec: Recipient<Foo> = handle.recipient();
    rec.send(Foo {}).unwrap();
    handle.send_cmd(ActorCommand::Stop).unwrap();

    assert_eq!(drain(&mut runtime), 3);
    let command = runtime.commands().try_recv().ok();
    assert_eq!(runtime.step(RuntimeEvent::Command(command)), Step::Finished(Ok(())));

    assert_eq!(res, 1000);
    assert_eq!(res2, 1000);
    let actor = runtime.into_actor();
    assert_eq!(actor.foos, 102);
    assert_eq!(actor.bars, 101);
}

#[test]
fn messages_are_handled_in_order() {
    struct Log {
        seen: Vec<u32>,
    }
    impl Actor for Log {}
    impl Handler<u32> for Log {
        type Response = usize;
        fn handle(&mut self, message: &u32) -> usize {
            self.seen.push(*message);
            self.seen.len()
        }
    }
    let (message_tx, message_rx) = flume::unbounded();
    let (command_tx, command_rx) = flume::unbounded();
    let handle: ActorHandle<Log> = ActorHandle::new(message_tx, command_tx);
    let mut runtime = ActorRuntime::new(Log { seen: Vec::new() }, command_rx, message_rx);
    for i in 0..5u32 {
        handle.send(i).unwrap();
    }
    while let Ok(m) = runtime.mailbox().try_recv() {
        runtime.step(RuntimeEvent::Message(Some(m)));
    }
    assert_eq!(runtime.actor_ref().seen, vec![0, 1, 2, 3, 4]);
}

#[test]
fn send_to_dropped_runtime_gives_message_back() {
    let (handle, runtime) = spawn_testor();
    drop(runtime);
    match handle.send(Foo {}) {
        Err(SendError(m)) => assert_eq!(m, Foo {}),
        Ok(()) => panic!("sent to a dropped mailbox"),
    }
    assert!(matches!(handle.send_wait(Bar {}), Err(SendError(Bar {}))));
    assert!(matches!(handle.send_cmd(ActorCommand::Stop), Err(SendError(ActorCommand::Stop))));
    handle.send_forget(Foo {});
    let rec: Recipient<Foo> = handle.recipient();
    assert!(matches!(rec.send(Foo {}), Err(SendError(Foo {}))));
    assert!(matches!(rec.send_cmd(ActorCommand::Stop), Err(SendError(ActorCommand::Stop))));
    rec.send_forget(Foo {});
}

#[test]
fn recipient_from_handle_reaches_the_actor() {
    let (handle, mut runtime) = spawn_testor();
    let rec: Recipient<Foo> = Recipient::from(handle.clone());
    rec.send(Foo {}).unwrap();
    rec.send_forget(Foo {});
    rec.send_cmd(ActorCommand::Stop).unwrap();
    assert_eq!(drain(&mut runtime), 2);
    assert_eq!(runtime.actor_ref().foos, 2);
    assert_eq!(runtime.commands().try_recv().ok(), Some(ActorCommand::Stop));
}

#[test]
fn runtime_stops_on_disconnect() {
    let (handle, mut runtime) = spawn_testor();
    drop(handle);
    let command = runtime.commands().try_recv().ok();
    assert_eq!(command, None);
    assert_eq!(runtime.step(RuntimeEvent::Command(command)), Step::Finished(Err(Error::ActorDisconnected)));
    assert_eq!(runtime.step(RuntimeEvent::Message(None)), Step::Finished(Err(Error::ActorDisconnected)));
    assert_eq!(runtime.actor_ref().foos, 0);
}

#[test]
fn command_and_mailbox_steps() {
    assert_eq!(on_command(Some(ActorCommand::Stop)), Step::Finished(Ok(())));
    assert_eq!(on_command(None), Step::Finished(Err(Error::ActorDisconnected)));
    let mut actor = Testor { foos: 0, bars: 0 };
    let message: BoxedActorMessage<Testor> = <Testor as Enveloper<Testor, Foo>>::pack(Foo {}, None);
    assert_eq!(on_message(&mut actor, Some(message)), Step::Continue);
    assert_eq!(actor.foos, 1);
    assert_eq!(on_message::<Testor>(&mut actor, None), Step::Finished(Err(Error::ActorDisconnected)));
    assert_eq!(actor.foos, 1);
}

#[test]
fn request_resolution() {
    assert_eq!(resolve::<u8>(Ok(7)), RequestPoll::Ready(Ok(7)));
    assert_eq!(resolve::<u8>(Err(TryRecvError::Empty)), RequestPoll::Pending);
    assert_eq!(
        resolve::<u8>(Err(TryRecvError::Closed)),
        RequestPoll::Ready(Err(Error::ChannelClosed(TryRecvError::Closed)))
    );
}

#[test]
fn request_without_response_is_closed() {
    let (handle, runtime) = spawn_testor();
    let mut request = handle.send_wait(Foo {}).unwrap();
    // The message is taken out of the mailbox and dropped without being handled.
    let message = runtime.mailbox().try_recv().unwrap();
    drop(message);
    assert_eq!(
        request.try_response(),
        RequestPoll::Ready(Err(Error::ChannelClosed(TryRecvError::Closed)))
    );
}

#[test]
fn envelope_answers_once() {
    let (tx, mut rx) = tokio::sync::oneshot::channel::<usize>();
    let mut message = <Testor as Enveloper<Testor, Foo>>::pack(Foo {}, Some(tx));
    let mut actor = Testor { foos: 0, bars: 0 };
    message.handle(&mut actor);
    assert_eq!(rx.try_recv(), Ok(10));
    message.handle(&mut actor);
    assert_eq!(actor.foos, 2);
}

#[test]
fn it_works_yolo() {
    struct Counter {
        count: usize,
    }
    #[derive(Debug, Clone)]
    struct Foo {}
    #[derive(Debug, Clone)]
    struct Bar {}
    impl Actor for Counter {}
    impl Handler<Foo> for Counter {
        type Response = Result<usize, Error>;
        fn handle(&mut self, _: &Foo) -> Result<usize, Error> {
            self.count += 1;
            Ok(10)
        }
    }
    impl Handler<Bar> for Counter {
        type Response = Result<isize, Error>;
        fn handle(&mut self, _: &Bar) -> Result<isize, Error> {
            self.count += 1;
            Ok(10)
        }
    }
    fn drain(runtime: &mut ActorRuntime<Counter>) {
        while let Ok(message) = runtime.mailbox().try_recv() {
            assert_eq!(runtime.step(RuntimeEvent::Message(Some(message))), Step::Continue);
        }
    }

    let (mut runtime, handle) = ActorRuntime::with_handle(Counter { count: 0 });

    let mut request = handle.send_wait(Bar {}).unwrap();
    drain(&mut runtime);
    match request.try_response() {
        RequestPoll::Ready(Ok(r)) => assert_eq!(r.unwrap(), 10),
        _ => panic!("no response"),
    }
    handle.send(Foo {}).unwrap();
    handle.send_forget(Bar {});

    for _ in 0..100 {
        let _ = handle.send(Foo {});
        handle.send_forget(Bar {});
        drain(&mut runtime);
    }

    assert_eq!(runtime.actor_ref().count, 203);
    handle.send_cmd(ActorCommand::Stop).unwrap();
    let command = runtime.commands().try_recv().ok();
    assert_eq!(runtime.step(RuntimeEvent::Command(command)), Step::Finished(Ok(())));
}

#[test]
fn envelope_text_hides_the_message() {
    let envelope = drama::message::Envelope::<Foo, Testor>::new(Foo {}, None);
    assert_eq!(envelope.describe(), "Envelope { message: \"{{..}}\" }");
}

#[test]
fn nothing_is_handled_after_stop() {
    let (mut runtime, handle) = ActorRuntime::with_handle(Testor { foos: 0, bars: 0 });
    handle.send_cmd(ActorCommand::Stop).unwrap();
    let mut request = handle.send_wait(Foo {}).unwrap();
    let command = runtime.commands().try_recv().ok();
    assert_eq!(runtime.step(RuntimeEvent::Command(command)), Step::Finished(Ok(())));
    let message = runtime.mailbox().try_recv().ok();
    assert!(message.is_some());
    assert_eq!(runtime.step(RuntimeEvent::Message(message)), Step::Finished(Ok(())));
    assert_eq!(runtime.actor_ref().foos, 0);
    assert_eq!(
        request.try_response(),
        RequestPoll::Ready(Err(Error::ChannelClosed(TryRecvError::Closed)))
    );
    assert_eq!(runtime.step(RuntimeEvent::Command(None)), Step::Finished(Ok(())));
}

#[test]
fn command_to_a_full_bounded_channel_comes_back() {
    let (message_tx, _message_rx) = flume::unbounded();
    let (command_tx, _command_rx) = flume::bounded(1);
    let handle: ActorHandle<Testor> = ActorHandle::new(message_tx, command_tx);
    assert!(handle.send_cmd(ActorCommand::Stop).is_ok());
    assert!(matches!(handle.send_cmd(ActorCommand::Stop), Err(SendError(ActorCommand::Stop))));
}
