use market_stream::config::Config;
use market_stream::errors::{ClosePayload, Error};
use market_stream::event_loop::LoopStep;
use market_stream::messages::{on_read, process_message, Message, Received};
use market_stream::websockets::WebSockets;
use std::cell::RefCell;

fn text(payload: &str) -> Message {
    Message::Text(payload.to_string())
}

fn number(payload: &str) -> Result<u32, String> {
    payload.parse::<u32>().map_err(|e| e.to_string())
}

fn connected<H: FnMut(u32) -> Result<(), Error>>(handler: H) -> WebSockets<u32, H> {
    let conf = Config { ws_endpoint: "wss://example.com".to_string(), proxy: None };
    let mut client = WebSockets::new_with_options(handler, conf);
    client.connect("x").unwrap();
    client.advance_connect(Ok(())).unwrap();
    client
}

/// Runs the loop over reads that are already at hand: one flag and one read
/// for each turn. Gives the number of reads taken and the result.
fn run<H: FnMut(u32) -> Result<(), Error>>(
    client: &mut WebSockets<u32, H>,
    turns: Vec<(bool, Option<Result<Message, String>>)>,
) -> (usize, Result<(), Error>) {
    let mut taken = 0;
    for (running, read) in turns {
        match client.event_loop(running) {
            LoopStep::Finish => return (taken, Ok(())),
            LoopStep::Idle => {}
            LoopStep::Receive => {
                taken += 1;
                match on_read(read) {
                    Received::Continue => {}
                    Received::Decode(payload) => {
                        if let Err(error) = client.deliver(number(&payload)) {
                            return (taken, Err(error));
                        }
                    }
                    Received::Stop(error) => return (taken, Err(error)),
                }
            }
        }
    }
    (taken, Ok(()))
}

#[test]
fn empty_text_is_ignored() {
    assert_eq!(process_message(text("")), Received::Continue);
    assert_eq!(on_read(Some(Ok(text("")))), Received::Continue);
}

#[test]
fn empty_text_does_not_reach_the_handler() {
    let seen = RefCell::new(Vec::new());
    let mut client = connected(|event: u32| {
        seen.borrow_mut().push(event);
        Ok(())
    });
    let turns = vec![(true, Some(Ok(text("")))), (true, Some(Ok(text("")))), (false, None)];
    assert_eq!(run(&mut client, turns), (2, Ok(())));
    assert!(seen.borrow().is_empty());
}

#[test]
fn text_is_to_be_decoded() {
    assert_eq!(process_message(text("{}")), Received::Decode("{}".to_string()));
    assert_eq!(on_read(Some(Ok(text("7")))), Received::Decode("7".to_string()));
    assert_eq!(on_read(Some(Ok(text(" ")))), Received::Decode(" ".to_string()));
}

#[test]
fn control_and_binary_frames_are_ignored() {
    for frame in [Message::Binary, Message::Ping, Message::Pong, Message::Frame] {
        assert_eq!(process_message(frame), Received::Continue);
    }
    for frame in [Message::Binary, Message::Ping, Message::Pong, Message::Frame] {
        assert_eq!(on_read(Some(Ok(frame))), Received::Continue);
    }
}

#[test]
fn close_frame_stops_with_its_payload() {
    let payload = ClosePayload { code: 1000, reason: "bye".to_string() };
    assert_eq!(
        on_read(Some(Ok(Message::Close(Some(payload))))),
        Received::Stop(Error::Disconnected(Some(ClosePayload {
            code: 1000,
            reason: "bye".to_string()
        })))
    );
    assert_eq!(on_read(Some(Ok(Message::Close(None)))), Received::Stop(Error::Disconnected(None)));
    assert_eq!(process_message(Message::Close(None)), Received::Stop(Error::Disconnected(None)));
}

#[test]
fn close_frame_stops_whatever_the_handler_does() {
    let mut failing = connected(|_event: u32| Err(Error::Handler("no".to_string())));
    let turns = vec![(true, Some(Ok(Message::Close(None)))), (true, Some(Ok(text("1"))))];
    assert_eq!(run(&mut failing, turns), (1, Err(Error::Disconnected(None))));
    let mut accepting = connected(|_event: u32| Ok(()));
    let turns = vec![
        (true, Some(Ok(text("1")))),
        (true, Some(Ok(Message::Close(Some(ClosePayload { code: 1001, reason: String::new() }))))),
        (true, Some(Ok(text("2")))),
    ];
    assert_eq!(
        run(&mut accepting, turns),
        (2, Err(Error::Disconnected(Some(ClosePayload { code: 1001, reason: String::new() }))))
    );
}

#[test]
fn failed_read_stops_with_a_transport_error() {
    assert_eq!(
        on_read(Some(Err("connection reset".to_string()))),
        Received::Stop(Error::Transport("connection reset".to_string()))
    );
}

#[test]
fn exhausted_stream_lets_the_loop_go_on() {
    assert_eq!(on_read(None), Received::Continue);
}

#[test]
fn events_reach_the_handler_once_and_in_order() {
    let seen = RefCell::new(Vec::new());
    let mut client = connected(|event: u32| {
        seen.borrow_mut().push(event);
        Ok(())
    });
    let turns = vec![
        (true, Some(Ok(text("3")))),
        (true, Some(Ok(Message::Ping))),
        (true, Some(Ok(text("1")))),
        (true, None),
        (true, Some(Ok(text("")))),
        (true, Some(Ok(text("2")))),
        (false, Some(Ok(text("9")))),
    ];
    assert_eq!(run(&mut client, turns), (6, Ok(())));
    assert_eq!(*seen.borrow(), vec![3, 1, 2]);
}

#[test]
fn handler_failure_stops_the_loop_at_once() {
    let seen = RefCell::new(Vec::new());
    let mut client = connected(|event: u32| {
        seen.borrow_mut().push(event);
        if event == 2 {
            Err(Error::Handler("two".to_string()))
        } else {
            Ok(())
        }
    });
    let turns = vec![
        (true, Some(Ok(text("1")))),
        (true, Some(Ok(text("2")))),
        (true, Some(Ok(text("3")))),
        (true, Some(Ok(text("2")))),
    ];
    assert_eq!(run(&mut client, turns), (2, Err(Error::Handler("two".to_string()))));
    assert_eq!(*seen.borrow(), vec![1, 2]);
}

#[test]
fn handler_error_is_passed_on_unchanged() {
    let mut client = connected(|_event: u32| Err(Error::NotConnected));
    assert_eq!(client.deliver(Ok(5)), Err(Error::NotConnected));
    let mut client = connected(|event: u32| Err(Error::Transport(format!("event {}", event))));
    assert_eq!(client.deliver(Ok(5)), Err(Error::Transport("event 5".to_string())));
}

#[test]
fn decode_failure_stops_the_loop_and_skips_the_handler() {
    let seen = RefCell::new(Vec::new());
    let mut client = connected(|event: u32| {
        seen.borrow_mut().push(event);
        Ok(())
    });
    let cause = "x".parse::<u32>().unwrap_err().to_string();
    let turns = vec![
        (true, Some(Ok(text("1")))),
        (true, Some(Ok(text("x")))),
        (true, Some(Ok(text("3")))),
    ];
    assert_eq!(run(&mut client, turns), (2, Err(Error::Decode(cause))));
    assert_eq!(*seen.borrow(), vec![1]);
}

#[test]
fn deliver_gives_the_decode_cause() {
    let mut client = connected(|_event: u32| Ok(()));
    assert_eq!(
        client.deliver(Err("expected value at line 1 column 1".to_string())),
        Err(Error::Decode("expected value at line 1 column 1".to_string()))
    );
    assert_eq!(client.deliver(Ok(1)), Ok(()));
}

#[test]
fn transport_failure_stops_the_loop() {
    let mut client = connected(|_event: u32| Ok(()));
    let turns = vec![
        (true, Some(Ok(text("1")))),
        (true, Some(Err("reset".to_string()))),
        (true, Some(Ok(text("3")))),
    ];
    assert_eq!(run(&mut client, turns), (2, Err(Error::Transport("reset".to_string()))));
}

#[test]
fn cleared_flag_ends_the_loop_before_anything_is_read() {
    let seen = RefCell::new(Vec::new());
    let mut client = connected(|event: u32| {
        seen.borrow_mut().push(event);
        Ok(())
    });
    assert_eq!(client.event_loop(false), LoopStep::Finish);
    assert_eq!(client.event_loop(true), LoopStep::Receive);
    let turns = vec![(true, Some(Ok(text("1")))), (false, Some(Ok(text("2"))))];
    assert_eq!(run(&mut client, turns), (1, Ok(())));
    assert_eq!(*seen.borrow(), vec![1]);
}

#[test]
fn without_connection_a_turn_does_nothing() {
    let seen = RefCell::new(Vec::new());
    let mut client = WebSockets::new(|event: u32| {
        seen.borrow_mut().push(event);
        Ok(())
    });
    assert_eq!(client.event_loop(true), LoopStep::Idle);
    assert_eq!(client.event_loop(false), LoopStep::Finish);
    let turns = vec![(true, Some(Ok(text("1")))), (true, Some(Ok(Message::Close(None)))), (false, None)];
    assert_eq!(run(&mut client, turns), (0, Ok(())));
    assert!(seen.borrow().is_empty());
}

#[test]
fn loop_does_not_touch_the_connection() {
    let mut client = connected(|_event: u32| Err(Error::Handler("no".to_string())));
    let turns = vec![(true, Some(Ok(text("1"))))];
    assert_eq!(run(&mut client, turns), (1, Err(Error::Handler("no".to_string()))));
    assert_eq!(client.event_loop(true), LoopStep::Receive);
    assert!(client.socket().is_some());
}
