use loopback_pcm::failure::{disposition, Disposition, Failure};
use loopback_pcm::lifecycle::{CaptureState, StartOutcome};
use loopback_pcm::session::Session;
use loopback_pcm::transport::{step, Action, Event, Link, BACKOFF_MILLIS, ENDPOINT};

#[test]
fn first_chunk_triggers_a_connection_attempt() {
    assert_eq!(step(Link::Disconnected, Event::ChunkReady), (Link::Disconnected, Action::Connect));
    assert_eq!(step(Link::Disconnected, Event::ConnectSucceeded), (Link::Connected, Action::Send));
    assert_eq!(step(Link::Connected, Event::SendSucceeded), (Link::Connected, Action::Proceed));
    assert_eq!(step(Link::Connected, Event::ChunkReady), (Link::Connected, Action::Send));
}

#[test]
fn failed_connection_drops_the_chunk_and_backs_off() {
    assert_eq!(BACKOFF_MILLIS, 500);
    assert_eq!(
        step(Link::Disconnected, Event::ConnectFailed),
        (Link::Disconnected, Action::DropAndWait { millis: 500 })
    );
    assert_eq!(step(Link::Disconnected, Event::ChunkReady), (Link::Disconnected, Action::Connect));
}

#[test]
fn endpoint_is_local() {
    assert_eq!(ENDPOINT, "ws://127.0.0.1:8765");
}

#[test]
fn send_failure_leads_to_reconnect() {
    let mut link = Link::Disconnected;
    let mut connects = 0;
    let mut sent = 0;
    let mut dropped = 0;
    // Outcomes of the outside work, in the order in which it is asked for.
    let connect_results = [true, false, true];
    let send_results = [true, true, false, true, true];
    let mut next_connect = 0;
    let mut next_send = 0;
    for _chunk in 0..6 {
        let (l, mut action) = step(link, Event::ChunkReady);
        link = l;
        loop {
            let event = match action {
                Action::Connect => {
                    connects += 1;
                    let ok = connect_results[next_connect];
                    next_connect += 1;
                    if ok { Event::ConnectSucceeded } else { Event::ConnectFailed }
                }
                Action::Send => {
                    let ok = send_results[next_send];
                    next_send += 1;
                    if ok {
                        sent += 1;
                        Event::SendSucceeded
                    } else {
                        dropped += 1;
                        Event::SendFailed
                    }
                }
                Action::DropAndWait { millis } => {
                    assert_eq!(millis, 500);
                    dropped += 1;
                    break;
                }
                Action::Proceed => break,
            };
            let (l, a) = step(link, event);
            link = l;
            action = a;
        }
        match _chunk {
            0 | 1 => assert_eq!(link, Link::Connected),
            2 => assert_eq!(link, Link::Disconnected),
            3 => assert_eq!(link, Link::Disconnected),
            _ => assert_eq!(link, Link::Connected),
        }
    }
    assert_eq!(connects, 3);
    assert_eq!(sent, 4);
    assert_eq!(dropped, 2);
    assert_eq!(step(Link::Connected, Event::SendFailed), (Link::Disconnected, Action::Proceed));
}

#[test]
fn second_start_is_a_no_op() {
    let mut state = CaptureState::new();
    assert!(!state.is_running());
    let mut spawned = 0;
    for _ in 0..2 {
        if state.start() == StartOutcome::Spawn {
            spawned += 1;
        }
    }
    assert_eq!(spawned, 1);
    assert!(state.is_running());
    assert_eq!(state.start(), StartOutcome::AlreadyRunning);
}

#[test]
fn start_after_stop_spawns_again() {
    let mut state = CaptureState::new();
    assert_eq!(state.start(), StartOutcome::Spawn);
    state.stop();
    assert!(!state.is_running());
    assert_eq!(state.start(), StartOutcome::Spawn);
    assert!(state.is_running());
}

#[test]
fn stop_without_start_is_harmless() {
    let mut state = CaptureState::new();
    state.stop();
    state.stop();
    assert!(!state.is_running());
    assert_eq!(state.start(), StartOutcome::Spawn);
}

#[test]
fn device_failures_end_the_session_and_transport_failures_do_not() {
    assert_eq!(disposition(Failure::Device), Disposition::Abort);
    assert_eq!(disposition(Failure::Capture), Disposition::Abort);
    assert_eq!(disposition(Failure::TransportConnect), Disposition::Continue);
    assert_eq!(disposition(Failure::TransportSend), Disposition::Continue);
}

#[test]
fn new_session_is_empty_and_disconnected() {
    let session = Session::new();
    assert_eq!(session.residual_len(), 0);
    assert!(!session.is_connected());
}

#[test]
fn session_holds_back_less_than_one_chunk_after_every_block() {
    let mut session = Session::new();
    let mut emitted = 0;
    for round in 0..40 {
        let block: Vec<i64> = vec![round; 1 + 997 * round as usize];
        for chunk in session.on_block(&block) {
            assert_eq!(chunk.samples().len(), 16000);
            emitted += 1;
        }
        assert!(session.residual_len() < 16000);
    }
    let total: usize = (0..40).map(|r| 1 + 997 * r).sum();
    assert_eq!(emitted, total / 16000);
    assert_eq!(session.residual_len(), total % 16000);
}

#[test]
fn chunks_do_not_depend_on_where_blocks_end() {
    let stream: Vec<i64> = (0..50000).map(|i| (i * 7 % 65000) - 32500).collect();
    let mut whole = Session::new();
    let expected: Vec<Vec<i16>> =
        whole.on_block(&stream).into_iter().map(|c| c.into_samples()).collect();
    assert_eq!(expected.len(), 3);
    for size in [1usize, 479, 480, 16000, 15999, 16001, 33333] {
        let mut session = Session::new();
        let mut got: Vec<Vec<i16>> = Vec::new();
        for block in stream.chunks(size) {
            got.extend(session.on_block(block).into_iter().map(|c| c.into_samples()));
        }
        assert_eq!(got, expected);
        assert_eq!(session.residual_len(), whole.residual_len());
        assert_eq!(session.residual_len(), 2000);
    }
}

#[test]
fn session_tracks_the_link_across_events() {
    let mut session = Session::new();
    assert_eq!(session.on_transport(Event::ChunkReady), Action::Connect);
    assert_eq!(session.on_transport(Event::ConnectFailed), Action::DropAndWait { millis: 500 });
    assert!(!session.is_connected());
    assert_eq!(session.on_transport(Event::ChunkReady), Action::Connect);
    assert_eq!(session.on_transport(Event::ConnectSucceeded), Action::Send);
    assert!(session.is_connected());
    assert_eq!(session.on_transport(Event::SendSucceeded), Action::Proceed);
    assert_eq!(session.on_transport(Event::ChunkReady), Action::Send);
    assert_eq!(session.on_transport(Event::SendFailed), Action::Proceed);
    assert!(!session.is_connected());
    assert_eq!(session.on_transport(Event::ChunkReady), Action::Connect);
    let block: Vec<i64> = vec![1; 100];
    assert!(session.on_block(&block).is_empty());
    assert_eq!(session.residual_len(), 100);
    assert_eq!(session.on_transport(Event::ConnectSucceeded), Action::Send);
    assert_eq!(session.residual_len(), 100);
}
