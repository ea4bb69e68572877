use std::sync::mpsc::{channel, Receiver};

use discord_rpc::{Config, DiscordHandler, DiscordRPCError, Message, Worker};

fn config(status: &str) -> Config {
    Config { status: status.to_string() }
}

/// Feeds the worker what the channel holds, as the background thread does,
/// and returns the messages it observed before it stopped waiting.
fn drain(rx: &Receiver<Message>, worker: &mut Worker) -> Vec<Message> {
    let mut observed = Vec::new();
    loop {
        let received = rx.try_recv().ok();
        if let Some(m) = &received {
            observed.push(m.clone());
        }
        if !worker.process(received) {
            return observed;
        }
    }
}

fn launched() -> (DiscordHandler, Receiver<Message>) {
    let (tx, rx) = channel::<Message>();
    let handler = DiscordHandler::launch(tx, Ok(())).expect("spawn succeeded");
    (handler, rx)
}

#[test]
fn update_then_drop_is_observed_in_order() {
    let (mut handler, rx) = launched();
    let mut worker = DiscordHandler::start(0x1000, config("menu"));
    handler.update_config(config("in_game"));
    drop(handler);

    let observed = drain(&rx, &mut worker);
    assert_eq!(observed, vec![Message::UpdateConfig(config("in_game")), Message::Dropping]);
    assert_eq!(worker.config(), &config("in_game"));
    assert_eq!(worker.ram_offset(), 0x1000);
    assert!(!worker.is_waiting());
}

#[test]
fn drop_without_updates_sends_only_stop() {
    let (handler, rx) = launched();
    let mut worker = DiscordHandler::start(0x1000, config("menu"));
    drop(handler);

    let observed = drain(&rx, &mut worker);
    assert_eq!(observed, vec![Message::Dropping]);
    assert_eq!(worker.config(), &config("menu"));
    assert!(!worker.is_waiting());
}

#[test]
fn updates_are_applied_in_the_order_sent() {
    let (mut handler, rx) = launched();
    for status in ["menu", "lobby", "in_game", "replay"] {
        handler.update_config(config(status));
    }

    let mut worker = DiscordHandler::start(0, config("idle"));
    let mut applied = Vec::new();
    for _ in 0..4 {
        assert!(worker.process(rx.try_recv().ok()));
        applied.push(worker.config().status.clone());
    }
    assert_eq!(applied, vec!["menu", "lobby", "in_game", "replay"]);
    assert!(worker.is_waiting());

    drop(handler);
    assert!(!worker.process(rx.try_recv().ok()));
}

#[test]
fn nothing_is_applied_after_stop() {
    let mut worker = DiscordHandler::start(7, config("menu"));
    assert!(worker.process(Some(Message::UpdateConfig(config("lobby")))));
    assert!(!worker.process(Some(Message::Dropping)));
    assert!(!worker.process(Some(Message::UpdateConfig(config("in_game")))));
    assert!(!worker.process(None));
    assert_eq!(worker.config(), &config("lobby"));
    assert!(!worker.is_waiting());
}

#[test]
fn interleaved_updates_and_stop_end_at_stop() {
    // Two producers' updates arrive interleaved, with the stop in between.
    let mut worker = DiscordHandler::start(0x1000, config("menu"));
    let arrivals = vec![
        Message::UpdateConfig(config("a1")),
        Message::UpdateConfig(config("b1")),
        Message::UpdateConfig(config("a2")),
        Message::Dropping,
        Message::UpdateConfig(config("b2")),
    ];
    let mut seen = 0;
    for m in arrivals {
        if !worker.process(Some(m)) {
            break;
        }
        seen += 1;
    }
    assert_eq!(seen, 3);
    assert_eq!(worker.config(), &config("a2"));
    assert!(!worker.process(Some(Message::UpdateConfig(config("b2")))));
    assert_eq!(worker.config(), &config("a2"));
}

#[test]
fn closed_channel_stops_the_worker() {
    let (tx, rx) = channel::<Message>();
    drop(tx);
    let mut worker = DiscordHandler::start(0, config("menu"));
    assert!(!worker.process(rx.recv().ok()));
    assert!(!worker.is_waiting());
    assert_eq!(worker.config(), &config("menu"));
}

#[test]
fn sends_after_worker_is_gone_are_silent() {
    let (mut handler, rx) = launched();
    drop(rx);
    handler.update_config(config("in_game"));
    handler.update_config(config("menu"));
    drop(handler);
}

#[test]
fn spawn_failure_returns_error_and_releases_channel() {
    let (tx, rx) = channel::<Message>();
    let failure = std::io::Error::new(std::io::ErrorKind::OutOfMemory, "no thread");
    let result = DiscordHandler::launch(tx, Err(failure));
    match result {
        Err(DiscordRPCError::ThreadSpawn(e)) => {
            assert_eq!(e.kind(), std::io::ErrorKind::OutOfMemory);
        },
        Ok(_) => panic!("launch succeeded without a thread"),
    }
    // The sending end was dropped with nothing on the channel.
    assert!(rx.recv().is_err());
}

#[test]
fn started_worker_waits_with_its_context() {
    let worker = DiscordHandler::start(0x8000_0000, config("menu"));
    assert!(worker.is_waiting());
    assert_eq!(worker.ram_offset(), 0x8000_0000);
    assert_eq!(worker.config(), &config("menu"));
}
