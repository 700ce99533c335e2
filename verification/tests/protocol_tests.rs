use media_bench::checksum::hash;
use media_bench::client::{ClientAction, ClientEvent, TransferClient};
use media_bench::error::{BenchError, ErrorKind};
use media_bench::handler::{ChecksumHandler, HandlerAction, HandlerEvent};

fn payload(length: usize, seed: usize) -> Vec<u8> {
    (0..length).map(|i| ((i * (seed + 1) + seed) % 256) as u8).collect()
}

/// Drives a handler over a payload that arrives in chunks of `chunk` bytes
/// and gives back the byte that it answers with.
fn serve(bytes: &[u8], chunk: usize) -> u8 {
    let mut handler = ChecksumHandler::new();
    let mut offset = 0;
    loop {
        let (next, action) = handler.poll();
        handler = match action {
            HandlerAction::Read => {
                let end = usize::min(bytes.len(), offset + chunk);
                let event = HandlerEvent::Received(&bytes[offset..end]);
                offset = end;
                next.on_event(event)
            }
            other => panic!("unexpected action {:?}", other),
        };
        if let ChecksumHandler::Computed(_) = handler {
            break;
        }
    }
    let (handler, action) = handler.poll();
    let answer = match action {
        HandlerAction::Write(byte) => byte,
        other => panic!("unexpected action {:?}", other),
    };
    assert_eq!(handler, ChecksumHandler::Responding(answer));
    let (handler, action) = handler.poll();
    assert_eq!(action, HandlerAction::Wait);
    let handler = handler.on_event(HandlerEvent::Written);
    assert_eq!(handler, ChecksumHandler::Closed);
    let (handler, action) = handler.poll();
    assert_eq!(action, HandlerAction::Close);
    assert_eq!(handler.outcome(), Some(Ok(())));
    answer
}

/// Drives a client whose peer answers with `answer`.
fn transfer(answer: u8) -> Option<Result<u8, BenchError>> {
    let mut client = TransferClient::new();
    let expected = [
        ClientAction::Connect,
        ClientAction::OpenFile,
        ClientAction::SendFile,
        ClientAction::HalfClose,
    ];
    for action in expected {
        assert_eq!(client.next_action(), action);
        assert_eq!(client.clone().outcome(), None);
        client = client.on_event(ClientEvent::Completed);
    }
    assert_eq!(client.next_action(), ClientAction::ReadChecksum);
    client = client.on_event(ClientEvent::Checksum(answer));
    assert_eq!(client.next_action(), ClientAction::Finish(answer));
    client.outcome()
}

#[test]
fn round_trip_returns_checksum_of_bytes_sent() {
    for (seed, length) in [0usize, 1, 1024, 2 * 1024, 3 * 1024 + 17, 5 * 1024 + 1].into_iter().enumerate() {
        let bytes = payload(length, seed + 2);
        for chunk in [1usize, 1000, 1024, 4096] {
            let answer = serve(&bytes, chunk);
            assert_eq!(answer, hash(&bytes));
            assert_eq!(transfer(answer), Some(Ok(hash(&bytes))));
        }
    }
}

#[test]
fn round_trip_known_values() {
    assert_eq!(serve(&[], 1024), 0);
    assert_eq!(serve(&[0x7e], 1024), 0x7e);
    assert_eq!(serve(&[0xff, 0x0f, 0x01], 2), 0xf1);
    assert_eq!(transfer(0xf1), Some(Ok(0xf1)));
}

#[test]
fn five_thousand_pattern_bytes_answer_with_precomputed_checksum() {
    let bytes: Vec<u8> = (0..5000).map(|i| (i % 251) as u8).collect();
    assert_eq!(serve(&bytes, 1024), 28);
    assert_eq!(transfer(28), Some(Ok(28)));
}

#[test]
fn ten_interleaved_connections_do_not_talk_across() {
    let expected = [0u8, 17, 243, 79, 48, 117, 75, 63, 64, 105];
    let payloads: Vec<Vec<u8>> = (0..10).map(|k| payload(100 + k * 37, k)).collect();
    let mut handlers: Vec<ChecksumHandler> = (0..10).map(|_| ChecksumHandler::new()).collect();
    let mut offsets = [0usize; 10];
    let mut open = 10;
    let mut round = 0usize;
    while open > 0 {
        for k in 0..10 {
            if let ChecksumHandler::Reading(_) = handlers[k] {
                let chunk = 1 + (round + 3 * k) % 29;
                let end = usize::min(payloads[k].len(), offsets[k] + chunk);
                let event = HandlerEvent::Received(&payloads[k][offsets[k]..end]);
                offsets[k] = end;
                handlers[k] = handlers[k].clone().on_event(event);
                if let ChecksumHandler::Computed(_) = handlers[k] {
                    open -= 1;
                }
            }
        }
        round += 1;
    }
    for k in (0..10).rev() {
        let (handler, action) = handlers[k].clone().poll();
        assert_eq!(action, HandlerAction::Write(expected[k]));
        assert_eq!(expected[k], hash(&payloads[k]));
        assert_eq!(handler.on_event(HandlerEvent::Written), ChecksumHandler::Closed);
    }
}

#[test]
fn failure_of_one_connection_leaves_the_others() {
    let mut good = ChecksumHandler::new();
    let mut bad = ChecksumHandler::new();
    good = good.on_event(HandlerEvent::Received(&[1, 2, 4]));
    bad = bad.on_event(HandlerEvent::Received(&[9, 9, 9]));
    bad = bad.on_event(HandlerEvent::Failed("connection reset".to_string()));
    good = good.on_event(HandlerEvent::Received(&[8]));
    good = good.on_event(HandlerEvent::Received(&[]));
    let (bad, action) = bad.poll();
    assert_eq!(action, HandlerAction::Abort);
    assert_eq!(
        bad.outcome(),
        Some(Err(BenchError { kind: ErrorKind::Io, detail: "connection reset".to_string() }))
    );
    let (good, action) = good.poll();
    assert_eq!(action, HandlerAction::Write(15));
    assert_eq!(good.on_event(HandlerEvent::Written).outcome(), Some(Ok(())));
}

#[test]
fn handler_fails_when_the_response_cannot_be_written() {
    let handler = ChecksumHandler::new().on_event(HandlerEvent::Received(&[]));
    assert_eq!(handler, ChecksumHandler::Computed(0));
    let (handler, action) = handler.poll();
    assert_eq!(action, HandlerAction::Write(0));
    let handler = handler.on_event(HandlerEvent::Failed("broken pipe".to_string()));
    let failure = BenchError { kind: ErrorKind::Io, detail: "broken pipe".to_string() };
    assert_eq!(handler, ChecksumHandler::Failed(failure.clone()));
    let handler = handler.on_event(HandlerEvent::Written);
    assert_eq!(handler.outcome(), Some(Err(failure)));
}

#[test]
fn handler_ignores_completions_it_does_not_wait_for() {
    let reading = ChecksumHandler::new().on_event(HandlerEvent::Received(&[5]));
    assert_eq!(reading.clone().on_event(HandlerEvent::Written), ChecksumHandler::Reading(5));
    let computed = reading.on_event(HandlerEvent::Received(&[]));
    assert_eq!(computed.clone().on_event(HandlerEvent::Written), ChecksumHandler::Computed(5));
    assert_eq!(
        computed.clone().on_event(HandlerEvent::Failed("late".to_string())),
        ChecksumHandler::Computed(5)
    );
    assert_eq!(computed.clone().outcome(), None);
    let (responding, _) = computed.poll();
    assert_eq!(
        responding.clone().on_event(HandlerEvent::Received(&[1])),
        ChecksumHandler::Responding(5)
    );
    let closed = responding.on_event(HandlerEvent::Written);
    assert_eq!(closed.clone().on_event(HandlerEvent::Received(&[1])), ChecksumHandler::Closed);
    assert_eq!(
        closed.on_event(HandlerEvent::Failed("late".to_string())),
        ChecksumHandler::Closed
    );
}

#[test]
fn client_fails_with_the_kind_of_the_failed_action() {
    let cases = [
        (0usize, ErrorKind::Connect),
        (1, ErrorKind::Io),
        (2, ErrorKind::Io),
        (3, ErrorKind::Protocol),
        (4, ErrorKind::Io),
    ];
    for (completed, kind) in cases {
        let mut client = TransferClient::new();
        for _ in 0..completed {
            client = client.on_event(ClientEvent::Completed);
        }
        client = client.on_event(ClientEvent::Failed("it broke".to_string()));
        assert_eq!(client.next_action(), ClientAction::Abort);
        let later = client.clone().on_event(ClientEvent::Checksum(1));
        assert_eq!(later, client);
        assert_eq!(
            client.outcome(),
            Some(Err(BenchError { kind, detail: "it broke".to_string() }))
        );
    }
}

#[test]
fn client_reports_connection_closed_before_the_checksum() {
    let mut client = TransferClient::new();
    for _ in 0..4 {
        client = client.on_event(ClientEvent::Completed);
    }
    assert_eq!(client, TransferClient::AwaitingChecksum);
    client = client.on_event(ClientEvent::EndOfStream);
    assert_eq!(client, TransferClient::ClosedEarly);
    assert_eq!(client.next_action(), ClientAction::Abort);
    assert_eq!(client.clone().on_event(ClientEvent::Checksum(3)), TransferClient::ClosedEarly);
    assert_eq!(
        client.outcome(),
        Some(Err(BenchError {
            kind: ErrorKind::Protocol,
            detail: "connection closed before the checksum byte".to_string(),
        }))
    );
}

#[test]
fn client_does_not_read_before_the_half_close() {
    let mut client = TransferClient::new();
    for _ in 0..4 {
        assert_ne!(client.next_action(), ClientAction::ReadChecksum);
        let early = client.clone().on_event(ClientEvent::Checksum(7));
        assert_eq!(early, client);
        let closed = client.clone().on_event(ClientEvent::EndOfStream);
        assert_eq!(closed, client);
        client = client.on_event(ClientEvent::Completed);
    }
    assert_eq!(client.next_action(), ClientAction::ReadChecksum);
    assert_eq!(client.clone().on_event(ClientEvent::Completed), TransferClient::AwaitingChecksum);
}
