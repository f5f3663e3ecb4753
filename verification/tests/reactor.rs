use reactor::cleanup::CompletedSet;
use reactor::conn::Completion;
use reactor::conn::Connection;
use reactor::conn::FlushOutcome;
use reactor::conn::Phase;
use reactor::conn::ReadOutcome;
use reactor::conn::Step;
use reactor::conn::WriteOutcome;
use reactor::registry::Interest;
use reactor::registry::InterestRegistry;
use reactor::table::ConnectionTable;

const RESPONSE: &[u8] =
    b"HTTP/1.1 200 OK\r\nContent-Length: 12\r\nConnection: close\r\n\r\nHello world!";

/// Advances one connection as far as the supplied outcomes allow, the way
/// the event loop drives a ready descriptor, and reports the step that
/// stopped it.
fn drive(conn: Connection, outcomes: &mut Vec<ReadOutcome>) -> (Connection, Step) {
    let mut conn = conn;
    loop {
        let step = match conn.phase() {
            Phase::Reading => {
                if outcomes.is_empty() {
                    return (conn, Step::Yield);
                }
                let outcome = outcomes.remove(0);
                let (c, s) = conn.on_read(outcome);
                conn = c;
                s
            }
            Phase::Writing => {
                let n = conn.response_tail().len();
                let (c, s) = conn.on_write(WriteOutcome::Wrote { count: n });
                conn = c;
                s
            }
            Phase::Flushing => {
                let (c, s) = conn.on_flush(FlushOutcome::Flushed);
                conn = c;
                s
            }
        };
        match step {
            Step::Proceed => continue,
            Step::Yield | Step::Done { .. } => return (conn, step),
        }
    }
}

/// One multiplexed batch: two connections enrolled, one finishes its whole
/// exchange and is cleaned up exactly once; the other is untouched by it.
#[test]
fn fourth_basics() {
    let mut table = ConnectionTable::new();
    let mut completed = CompletedSet::new();

    let first = table.enroll(5);
    let second = table.enroll(6);
    assert_ne!(first, second);
    assert_eq!(table.len(), 2);

    // the first connection becomes ready and completes its exchange
    let conn = table.take(first).expect("enrolled connection is present");
    assert_eq!(conn.id(), first);
    assert_eq!(conn.fd(), 5);
    let mut outcomes = vec![ReadOutcome::Data { bytes: b"GET / HTTP/1.1\r\nHost: x\r\n\r\n".to_vec() }];
    let (conn, step) = drive(conn, &mut outcomes);
    assert_eq!(step, Step::Done { why: Completion::Finished });
    table.restore(conn);
    completed.mark(first);

    // the second connection would block on its first read
    let conn = table.take(second).expect("enrolled connection is present");
    let (conn, step) = conn.on_read(ReadOutcome::WouldBlock);
    assert_eq!(step, Step::Yield);
    table.restore(conn);

    // after the batch, completed connections are removed exactly once
    assert_eq!(completed.len(), 1);
    let mut removed = 0;
    for i in 0..completed.len() {
        let id = completed.get(i);
        if let Some(conn) = table.take(id) {
            // the loop deregisters this descriptor and closes it here
            assert_eq!(conn.fd(), 5);
            removed += 1;
        }
    }
    assert_eq!(removed, 1);
    assert_eq!(table.len(), 1);
    assert!(table.contains(second));
    assert!(!table.contains(first));
}

/// A readiness batch naming one identifier twice still cleans the
/// connection up once: the set deduplicates the mark, and a second take
/// finds nothing.
#[test]
fn duplicate_completion_is_cleaned_once() {
    let mut table = ConnectionTable::new();
    let mut completed = CompletedSet::new();
    let id = table.enroll(9);

    completed.mark(id);
    completed.mark(id);
    assert_eq!(completed.len(), 1);

    assert!(table.take(id).is_some());
    assert!(table.take(id).is_none());
    assert_eq!(table.len(), 0);
}

/// A peer that disconnects mid-read is removed and has no effect on any
/// other open connection.
#[test]
fn disconnect_leaves_others_untouched() {
    let mut table = ConnectionTable::new();
    let keep_a = table.enroll(3);
    let gone = table.enroll(4);
    let keep_b = table.enroll(5);

    // partial progress on a survivor
    let conn = table.take(keep_b).expect("present");
    let (conn, step) = conn.on_read(ReadOutcome::Data { bytes: b"GET".to_vec() });
    assert_eq!(step, Step::Proceed);
    table.restore(conn);

    // the middle connection reads zero bytes: its peer closed
    let conn = table.take(gone).expect("present");
    let (conn, step) = conn.on_read(ReadOutcome::Data { bytes: Vec::new() });
    assert_eq!(step, Step::Done { why: Completion::Disconnected });
    drop(conn);

    assert_eq!(table.len(), 2);
    assert!(table.contains(keep_a));
    assert!(table.contains(keep_b));
    assert!(!table.contains(gone));

    // the survivor's buffered progress is intact: 3 bytes are in
    let conn = table.take(keep_b).expect("present");
    assert_eq!(conn.read_capacity(), 1024 - 3);
    table.restore(conn);
}

/// One listener wake with several connections queued: the accept-drain
/// loop enrolls each of them, so exactly that many entries exist before
/// the next wait, under distinct identifiers.
#[test]
fn accept_drain_enrolls_every_queued_connection() {
    let mut table = ConnectionTable::new();
    let queued: usize = 5;
    let mut ids = Vec::new();
    for k in 0..queued {
        // the listener accept loop hands one descriptor per queued peer
        ids.push(table.enroll(10 + k as i32));
    }
    assert_eq!(table.len(), queued);
    for a in 0..ids.len() {
        assert!(table.contains(ids[a]));
        for b in (a + 1)..ids.len() {
            assert_ne!(ids[a], ids[b]);
        }
    }
}

/// An identifier is never reused, even after its connection is gone, so a
/// late readiness event cannot be misattributed to a newer connection.
#[test]
fn identifiers_are_never_reused() {
    let mut table = ConnectionTable::new();
    let early = table.enroll(7);
    assert!(table.take(early).is_some());
    let later = table.enroll(7); // the OS may recycle the same descriptor
    assert_ne!(early, later);
    assert!(!table.contains(early));
}

/// A full exchange through the table yields exactly the canned bytes.
#[test]
fn exchange_emits_exact_response() {
    let mut table = ConnectionTable::new();
    let id = table.enroll(8);
    let conn = table.take(id).expect("present");
    let (conn, step) = conn.on_read(ReadOutcome::Data {
        bytes: b"GET /path HTTP/1.1\r\nHost: y\r\n\r\n".to_vec(),
    });
    assert_eq!(step, Step::Proceed);
    assert_eq!(conn.phase(), Phase::Writing);
    assert_eq!(conn.response_tail(), RESPONSE.to_vec());

    // a partial write retains the rest of the response
    let (conn, step) = conn.on_write(WriteOutcome::Wrote { count: 17 });
    assert_eq!(step, Step::Proceed);
    assert_eq!(conn.response_tail(), RESPONSE[17..].to_vec());
    table.restore(conn);
}

/// Registration discipline: each identifier is registered once, with its
/// requested interest, and deregistered exactly once.
#[test]
fn registration_is_exactly_once() {
    let mut registry = InterestRegistry::new();
    registry.register(1, Interest::Readable);
    registry.register(2, Interest::Both);
    assert_eq!(registry.len(), 2);
    assert!(registry.contains(1));
    assert!(registry.contains(2));
    assert!(!registry.contains(3));

    assert_eq!(registry.deregister(1), Interest::Readable);
    assert!(!registry.contains(1));
    assert_eq!(registry.len(), 1);
    assert!(registry.contains(2));
}
