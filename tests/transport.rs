use frame_link::{
    encode_message, frame_message, frame_part, prepare_frame, prepare_settings, Connection, Event,
    MessageKind, Phase, Retry, SendError, Step, MAX_ATTEMPTS,
};

/// A scripted peer: each attempt fails on the write with the given index
/// (0 = tag, 1 = length, 2 = payload), or goes through where `None`.
/// Returns the final state and the bytes held by the last connection.
fn drive(frame: &[u8], script: &[Option<usize>], reconnect_ok: bool, flush_ok: bool) -> (Retry, Vec<u8>) {
    let mut retry = Retry::start();
    let mut wire: Vec<u8> = Vec::new();
    let mut writes_this_attempt: usize = 0;
    while !retry.is_finished() {
        let event = match retry.step {
            Step::Write(p) => {
                let fail_at = script.get(retry.attempt as usize).copied().flatten();
                if fail_at == Some(writes_this_attempt) {
                    Event::WriteFailed
                } else {
                    wire.extend_from_slice(frame_part(frame, p));
                    writes_this_attempt += 1;
                    Event::WriteOk
                }
            }
            Step::Reconnect => {
                wire.clear();
                writes_this_attempt = 0;
                if reconnect_ok {
                    Event::Reconnected
                } else {
                    Event::ReconnectFailed
                }
            }
            Step::Flush => {
                if flush_ok {
                    Event::FlushOk
                } else {
                    Event::FlushFailed
                }
            }
            Step::Sent | Step::Failed(_) => unreachable!(),
        };
        retry.advance(event);
    }
    (retry, wire)
}

fn connected() -> Connection<u32> {
    let mut c = Connection::new();
    assert_eq!(c.connect(7), None);
    c
}

#[test]
fn send_frame_aaaa_writes_three_zero_bytes() {
    let out = connected().send_frame("AAAA").unwrap();
    assert_eq!(out.frame, vec![1, 0, 0, 0, 3, 0, 0, 0]);
    assert_eq!(out.retry, Retry::start());
    let (state, wire) = drive(&out.frame, &[], true, true);
    assert_eq!(state.step, Step::Sent);
    assert_eq!(state.attempt, 0);
    assert_eq!(wire, vec![1, 0, 0, 0, 3, 0, 0, 0]);
}

#[test]
fn change_settings_hi() {
    let out = connected().change_settings("hi").unwrap();
    assert_eq!(out.frame, vec![2, 0, 0, 0, 2, 0x68, 0x69]);
    let (state, wire) = drive(&out.frame, &[], true, true);
    assert_eq!(state.step, Step::Sent);
    assert_eq!(wire, vec![2, 0, 0, 0, 2, 0x68, 0x69]);
}

#[test]
fn invalid_base64_is_refused_before_writing() {
    let r = connected().send_frame("not-valid-base64!");
    assert!(matches!(r, Err(SendError::Decode)));
    assert!(matches!(prepare_frame("not-valid-base64!"), Err(SendError::Decode)));
}

#[test]
fn base64_is_decoded_not_copied() {
    assert_eq!(prepare_frame("AQID").unwrap(), vec![1, 0, 0, 0, 3, 1, 2, 3]);
    assert_eq!(prepare_frame("aGk=").unwrap(), vec![1, 0, 0, 0, 2, 0x68, 0x69]);
}

#[test]
fn empty_frame_is_header_only() {
    let out = connected().send_frame("").unwrap();
    assert_eq!(out.frame, vec![1, 0, 0, 0, 0]);
    let (state, wire) = drive(&out.frame, &[], true, true);
    assert_eq!(state.step, Step::Sent);
    assert_eq!(wire, vec![1, 0, 0, 0, 0]);
}

#[test]
fn send_without_connection_is_not_connected() {
    let mut c: Connection<u32> = Connection::new();
    assert!(!c.is_connected());
    assert!(matches!(c.send_frame("AAAA"), Err(SendError::NotConnected)));
    assert!(matches!(c.send_frame("not-valid-base64!"), Err(SendError::NotConnected)));
    assert!(matches!(c.change_settings("hi"), Err(SendError::NotConnected)));
}

#[test]
fn disconnect_without_connection_is_a_no_op() {
    let mut c: Connection<u32> = Connection::new();
    assert_eq!(c.disconnect(), None);
    assert!(!c.is_connected());
}

#[test]
fn disconnect_hands_back_the_connection() {
    let mut c = connected();
    assert!(c.is_connected());
    assert_eq!(c.disconnect(), Some(7));
    assert!(!c.is_connected());
    assert_eq!(c.disconnect(), None);
}

#[test]
fn connect_replaces_and_returns_previous() {
    let mut c = connected();
    assert_eq!(c.connect(8), Some(7));
    assert_eq!(c.disconnect(), Some(8));
}

#[test]
fn settings_length_counts_bytes_not_chars() {
    let text = "h\u{e9}llo \u{1f600}";
    assert_eq!(text.chars().count(), 7);
    let frame = prepare_settings(text).unwrap();
    assert_eq!(frame[0], 2);
    assert_eq!(&frame[1..5], &[0, 0, 0, 11]);
    assert_eq!(&frame[5..], text.as_bytes());
}

#[test]
fn length_field_reads_back_as_byte_count() {
    let payload: Vec<u8> = (0..300u32).map(|i| (i % 251) as u8).collect();
    let frame = encode_message(MessageKind::Frame, &payload);
    let len = u32::from_be_bytes([frame[1], frame[2], frame[3], frame[4]]);
    assert_eq!(len, 300);
    assert_eq!(&frame[1..5], &[0, 0, 1, 44]);
    assert_eq!(&frame[5..], &payload[..]);
    assert_eq!(frame_message(MessageKind::Settings, &payload).unwrap()[0], 2);
}

#[test]
fn frame_parts_split_the_message() {
    let frame = vec![2, 0, 0, 0, 2, 0x68, 0x69];
    assert_eq!(frame_part(&frame, Phase::Tag), &[2]);
    assert_eq!(frame_part(&frame, Phase::Length), &[0, 0, 0, 2]);
    assert_eq!(frame_part(&frame, Phase::Payload), &[0x68, 0x69]);
}

#[test]
fn recovers_after_fewer_failures_than_the_budget() {
    let frame = prepare_settings("hi").unwrap();
    for k in 0..MAX_ATTEMPTS as usize {
        for phase in 0..3usize {
            let script: Vec<Option<usize>> = vec![Some(phase); k];
            let (state, wire) = drive(&frame, &script, true, true);
            assert_eq!(state.step, Step::Sent);
            assert_eq!(state.attempt as usize, k);
            assert_eq!(wire, frame);
        }
    }
}

#[test]
fn gives_up_after_the_budget_naming_the_phase() {
    let frame = prepare_settings("hi").unwrap();
    let phases = [Phase::Tag, Phase::Length, Phase::Payload];
    for (i, p) in phases.iter().enumerate() {
        let script: Vec<Option<usize>> = vec![Some(0), Some(1), Some(2), Some(0), Some(i)];
        let (state, wire) = drive(&frame, &script, true, true);
        assert_eq!(state.step, Step::Failed(SendError::Write(*p)));
        assert_eq!(state.attempt, MAX_ATTEMPTS - 1);
        assert_eq!(wire, frame[..[0, 1, 5][i]].to_vec());
    }
}

#[test]
fn failed_send_leaves_the_slot_empty() {
    let mut c = connected();
    let out = c.change_settings("hi").unwrap();
    assert_eq!(out.conn, 7);
    assert!(!c.is_connected());
    let script: Vec<Option<usize>> = vec![Some(1); MAX_ATTEMPTS as usize];
    let (state, _) = drive(&out.frame, &script, true, true);
    assert_eq!(state.step, Step::Failed(SendError::Write(Phase::Length)));
    assert_eq!(c.finish(out.conn, &state), Some(7));
    assert!(!c.is_connected());
    assert!(matches!(c.send_frame("AAAA"), Err(SendError::NotConnected)));
}

#[test]
fn sent_message_returns_the_connection_to_the_slot() {
    let mut c = connected();
    let out = c.send_frame("AAAA").unwrap();
    assert!(!c.is_connected());
    let (state, wire) = drive(&out.frame, &[Some(2), Some(0)], true, true);
    assert_eq!(state.step, Step::Sent);
    assert_eq!(state.attempt, 2);
    assert_eq!(wire, vec![1, 0, 0, 0, 3, 0, 0, 0]);
    assert_eq!(c.finish(9, &state), None);
    assert_eq!(c.disconnect(), Some(9));
}

#[test]
fn failed_reconnect_or_flush_leaves_the_slot_empty() {
    for (reconnect_ok, flush_ok, script) in [(false, true, vec![Some(0)]), (true, false, vec![])] {
        let mut c = connected();
        let out = c.send_frame("AAAA").unwrap();
        let (state, _) = drive(&out.frame, &script, reconnect_ok, flush_ok);
        assert!(matches!(state.step, Step::Failed(_)));
        assert_eq!(c.finish(out.conn, &state), Some(7));
        assert!(!c.is_connected());
    }
}

#[test]
fn decode_error_keeps_the_connection() {
    let mut c = connected();
    assert!(matches!(c.send_frame("not-valid-base64!"), Err(SendError::Decode)));
    assert!(c.is_connected());
}

#[test]
fn reconnect_failure_ends_the_send() {
    let frame = prepare_settings("hi").unwrap();
    let (state, _) = drive(&frame, &[Some(1)], false, true);
    assert_eq!(state.step, Step::Failed(SendError::Reconnect));
    assert_eq!(state.attempt, 0);
}

#[test]
fn flush_failure_is_not_retried() {
    let frame = prepare_settings("hi").unwrap();
    let (state, wire) = drive(&frame, &[], true, false);
    assert_eq!(state.step, Step::Failed(SendError::Flush));
    assert_eq!(state.attempt, 0);
    assert_eq!(wire, frame);
}

#[test]
fn finished_send_ignores_further_events() {
    let mut r = Retry { attempt: 0, step: Step::Sent };
    r.advance(Event::WriteFailed);
    assert_eq!(r, Retry { attempt: 0, step: Step::Sent });
    let mut r = Retry::start();
    r.advance(Event::FlushOk);
    assert_eq!(r, Retry::start());
}
