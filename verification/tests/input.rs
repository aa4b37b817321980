//! Client sessions and manager bookkeeping: handshake, streaming,
//! termination, and the drainable inbox.

use soundboard::codec::{encode, frame_of};
use soundboard::input::{InputEventWrapper, RemoteInputClient, RemoteInputClientManager, Timestamp};

fn record(secs: u64, code: u16) -> InputEventWrapper {
    InputEventWrapper { timestamp: Timestamp { secs, nanos: 0 }, event_type: 1, code, value: 0 }
}

fn framed(r: &InputEventWrapper) -> Vec<u8> {
    frame_of(&encode(r))
}

#[test]
fn handshake_is_credential_then_nul() {
    let msg = RemoteInputClient::handshake_message(&b"sample-api-key".to_vec());
    assert_eq!(msg.len(), b"sample-api-key".len() + 1);
    assert_eq!(*msg.last().unwrap(), 0);
    assert_eq!(&msg[..msg.len() - 1], b"sample-api-key");
    assert_eq!(RemoteInputClient::handshake_message(&Vec::new()), vec![0]);
}

#[test]
fn client_yields_each_good_frame() {
    let mut client = RemoteInputClient::new();
    assert!(!client.terminated());
    let r1 = record(1, 30);
    let r2 = record(2, 31);
    assert_eq!(client.process_event(&framed(&r1)), Some(r1));
    assert_eq!(client.process_event(&framed(&r2)), Some(r2));
    assert!(!client.terminated());
}

#[test]
fn client_skips_bad_frames_and_stays_live() {
    let mut client = RemoteInputClient::new();
    // a delimited frame with a truncated varint
    assert_eq!(client.process_event(&vec![0x02, 0x80, 0x00]), None);
    assert!(!client.terminated());
    let r = record(3, 32);
    assert_eq!(client.process_event(&framed(&r)), Some(r));
}

#[test]
fn client_terminates_on_empty_read_only() {
    let mut client = RemoteInputClient::new();
    let r = record(1, 30);
    assert_eq!(client.process_event(&framed(&r)), Some(r));
    // a trailing remnant with no delimiter is not an error
    assert_eq!(client.process_event(&vec![0x04, 0x01]), None);
    assert!(!client.terminated());
    // the empty read is the end of the sequence
    assert_eq!(client.process_event(&Vec::new()), None);
    assert!(client.terminated());
}

#[test]
fn manager_starts_disconnected_and_empty() {
    let mut m = RemoteInputClientManager::new();
    assert!(!m.connected());
    assert!(m.events().is_empty());
}

#[test]
fn manager_liveness_over_a_short_session() {
    // a peer that sends three valid frames, drained twice, then closes
    let mut m = RemoteInputClientManager::new();
    m.connect();
    assert!(m.connected());

    let r1 = record(1, 30);
    let r2 = record(2, 31);
    let r3 = record(3, 32);
    assert!(m.deliver(r1));
    assert!(m.deliver(r2));

    let mid = m.events();
    assert_eq!(mid, vec![r1, r2]);

    assert!(m.deliver(r3));
    m.worker_exited();
    assert!(!m.connected());

    let late = m.events();
    assert_eq!(late, vec![r3]);

    // all three records arrived exactly once, in order
    let mut all = mid;
    all.extend(late);
    assert_eq!(all, vec![r1, r2, r3]);
    assert!(m.events().is_empty());
}

#[test]
fn disconnect_drops_inbox_and_fails_later_sends() {
    let mut m = RemoteInputClientManager::new();
    m.connect();
    assert!(m.deliver(record(1, 30)));
    m.disconnect();
    assert!(!m.connected());
    assert!(m.events().is_empty());
    // the worker's next send fails, which is what makes it exit
    assert!(!m.deliver(record(2, 31)));
}

#[test]
fn reconnect_after_disconnect_starts_fresh() {
    let mut m = RemoteInputClientManager::new();
    m.connect();
    assert!(m.deliver(record(1, 30)));
    m.disconnect();
    m.connect();
    assert!(m.connected());
    assert!(m.events().is_empty());
    let r = record(2, 31);
    assert!(m.deliver(r));
    assert_eq!(m.events(), vec![r]);
}

#[test]
fn connected_stays_true_until_worker_exit_is_seen() {
    let mut m = RemoteInputClientManager::new();
    m.connect();
    assert!(m.deliver(record(9, 30)));
    // the peer may already be gone; the manager reports live until the
    // worker notices on its next read and exits
    assert!(m.connected());
    m.worker_exited();
    assert!(!m.connected());
    // buffered records are still drainable after the exit
    assert_eq!(m.events(), vec![record(9, 30)]);
}
