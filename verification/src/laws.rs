use vstd::prelude::*;

use crate::cleanup::mark_model;
use crate::conn::read_data_state;
use crate::conn::read_data_step;
use crate::conn::Completion;
use crate::conn::StateModel;
use crate::conn::Step;
use crate::request::contains_terminator;
use crate::request::REQUEST_CAPACITY;
use crate::response::canned_response;
use crate::table::enroll_model;
use crate::table::fresh_conn;
use crate::table::table_has;
use crate::table::TableView;

verus! {

/// How one connection's reading phase ends after a whole sequence of
/// delivered chunks.
#[verifier::ext_equal]
pub enum Delivery {
    /// Still reading, with these bytes buffered.
    InProgress { data: Seq<u8> },
    /// The terminator arrived: writing the response from this cursor on.
    Accepted { response: Seq<u8>, written: int },
    /// The buffer filled without a terminator.
    Rejected,
    /// A chunk was empty: the peer closed early.
    ClosedEarly,
}

/// Folds the reading-phase step over a sequence of delivered chunks,
/// exactly as `ConnectionState::on_read` advances it one `Data` outcome at
/// a time: the fold stops at the first step that leaves the reading phase.
pub open spec fn deliver(data: Seq<u8>, chunks: Seq<Seq<u8>>) -> Delivery
    decreases chunks.len(),
{
    if chunks.len() == 0 {
        Delivery::InProgress { data }
    } else {
        let st = read_data_state(data, chunks.first());
        let sp = read_data_step(data, chunks.first());
        match st {
            StateModel::Writing { response, written } => Delivery::Accepted { response, written },
            StateModel::Reading { data: buffered } => {
                if sp == (Step::Done { why: Completion::BufferOverflow }) {
                    Delivery::Rejected
                } else if sp == (Step::Done { why: Completion::Disconnected }) {
                    Delivery::ClosedEarly
                } else {
                    deliver(buffered, chunks.drop_first())
                }
            },
            StateModel::Flushing => arbitrary(),  // a read step never flushes
        }
    }
}

/// A sequence of nonempty chunks flattens to a nonempty sequence.
proof fn lemma_flatten_of_nonempty(chunks: Seq<Seq<u8>>)
    requires
        chunks.len() > 0,
        forall|k: int| 0 <= k < chunks.len() ==> chunks[k].len() > 0,
    ensures
        chunks.flatten().len() > 0,
{
    assert(chunks.flatten() == chunks.first() + chunks.drop_first().flatten());
    assert(chunks[0].len() > 0);
}

proof fn lemma_delivery_aux(data: Seq<u8>, chunks: Seq<Seq<u8>>)
    requires
        chunks.len() > 0,
        forall|k: int| 0 <= k < chunks.len() ==> chunks[k].len() > 0,
        data.len() + chunks.flatten().len() <= REQUEST_CAPACITY,
        contains_terminator(data + chunks.flatten()),
    ensures
        deliver(data, chunks) == (Delivery::Accepted {
            response: canned_response(),
            written: 0,
        }),
    decreases chunks.len(),
{
    let c = chunks.first();
    let rest = chunks.drop_first();
    let merged = data + c;
    assert(chunks.flatten() == c + rest.flatten());
    assert(data + chunks.flatten() =~= merged + rest.flatten());
    assert(c.len() > 0);
    if contains_terminator(merged) {
        assert(read_data_state(data, c) == (StateModel::Writing {
            response: canned_response(),
            written: 0,
        }));
    } else {
        assert(read_data_state(data, c) == (StateModel::Reading { data: merged }));
        if rest.len() == 0 {
            assert(rest.flatten().len() == 0);
            assert(merged + rest.flatten() =~= merged);
            assert(false);
        }
        assert(forall|k: int| 0 <= k < rest.len() ==> rest[k] == chunks[k + 1]);
        lemma_flatten_of_nonempty(rest);
        assert(merged.len() < REQUEST_CAPACITY);
        assert(read_data_step(data, c) == Step::Proceed);
        lemma_delivery_aux(merged, rest);
    }
}

/// However arbitrarily a request is split into delivery events — one byte
/// at a time through one single delivery — if its bytes fit the buffer and
/// contain the terminator, the reading phase of a fresh connection reaches
/// the writing phase, with the identical canned response and the cursor at
/// the start. The fold stops at the first step that leaves the reading
/// phase, and `phase_rank` only ever grows, so the writing phase is entered
/// exactly once.
pub proof fn lemma_any_split_reaches_writing(chunks: Seq<Seq<u8>>)
    requires
        forall|k: int| 0 <= k < chunks.len() ==> chunks[k].len() > 0,
        chunks.flatten().len() <= REQUEST_CAPACITY,
        contains_terminator(chunks.flatten()),
    ensures
        deliver(Seq::<u8>::empty(), chunks) == (Delivery::Accepted {
            response: canned_response(),
            written: 0,
        }),
{
    if chunks.len() == 0 {
        assert(chunks.flatten().len() == 0);
        assert(false);
    }
    assert(Seq::<u8>::empty() + chunks.flatten() =~= chunks.flatten());
    lemma_delivery_aux(Seq::<u8>::empty(), chunks);
}

/// A byte sequence split into one-byte chunks: the worst-case slow sender.
pub open spec fn singletons(s: Seq<u8>) -> Seq<Seq<u8>> {
    Seq::new(s.len(), |i: int| seq![s[i]])
}

proof fn lemma_flatten_singletons(s: Seq<u8>)
    ensures
        singletons(s).flatten() =~= s,
    decreases s.len(),
{
    if s.len() == 0 {
    } else {
        lemma_flatten_singletons(s.drop_first());
        assert(singletons(s).drop_first() =~= singletons(s.drop_first()));
        assert(singletons(s).flatten() == singletons(s).first() + singletons(
            s,
        ).drop_first().flatten());
        assert(singletons(s).first() =~= seq![s[0]]);
        assert(seq![s[0]] + s.drop_first() =~= s);
    }
}

/// A connection that receives exactly one byte per wake still reaches the
/// writing phase once the terminator completes: no starvation under slow,
/// fragmented input.
pub proof fn lemma_single_byte_delivery(s: Seq<u8>)
    requires
        s.len() <= REQUEST_CAPACITY,
        contains_terminator(s),
    ensures
        deliver(Seq::<u8>::empty(), singletons(s)) == (Delivery::Accepted {
            response: canned_response(),
            written: 0,
        }),
{
    lemma_flatten_singletons(s);
    assert(singletons(s).flatten() =~= s);
    lemma_any_split_reaches_writing(singletons(s));
}

/// Cleaning up one completed connection is exact and isolated: taking its
/// entry out of a table with unique identifiers removes that entry alone,
/// every other entry is untouched, and the identifier is gone afterwards,
/// so a second cleanup of the same identifier finds nothing.
pub proof fn lemma_cleanup_isolated(t: TableView, i: int)
    requires
        forall|a: int, b: int| 0 <= a < b < t.conns.len() ==> t.conns[a].id != t.conns[b].id,
        0 <= i < t.conns.len(),
    ensures
        ({
            let id = t.conns[i].id;
            let rest = t.conns.remove(i);
            &&& rest.len() == t.conns.len() - 1
            &&& !table_has(TableView { conns: rest, next_id: t.next_id }, id)
            &&& forall|j: int| 0 <= j < i ==> rest[j] == t.conns[j]
            &&& forall|j: int| i <= j < rest.len() ==> rest[j] == t.conns[j + 1]
        }),
{
    let id = t.conns[i].id;
    let rest = t.conns.remove(i);
    assert forall|j: int| 0 <= j < rest.len() implies rest[j].id != id by {
        if j < i {
            assert(rest[j] == t.conns[j]);
        } else {
            assert(rest[j] == t.conns[j + 1]);
        }
    }
}

/// Observing the same completion twice within one batch records it once:
/// recording is idempotent.
pub proof fn lemma_mark_idempotent(s: Seq<u64>, id: u64)
    ensures
        mark_model(mark_model(s, id), id) == mark_model(s, id),
{
    if !s.contains(id) {
        assert(s.push(id)[s.len() as int] == id);
        assert(s.push(id).contains(id));
    }
}

/// The model of enrolling each descriptor of one accept-drain batch in turn.
pub open spec fn enroll_all(t: TableView, fds: Seq<int>) -> TableView
    decreases fds.len(),
{
    if fds.len() == 0 {
        t
    } else {
        enroll_all(enroll_model(t, fds.first()), fds.drop_first())
    }
}

/// One listener wake with `fds.len()` connections queued yields exactly
/// that many new table entries before the next wait: every old entry is
/// kept unchanged, and each new entry carries a distinct, never-used
/// identifier.
pub proof fn lemma_accept_drain(t: TableView, fds: Seq<int>)
    requires
        0 <= t.next_id,
        t.next_id + fds.len() <= u64::MAX,
        forall|i: int| 0 <= i < t.conns.len() ==> t.conns[i].id < t.next_id,
    ensures
        ({
            let t2 = enroll_all(t, fds);
            &&& t2.conns.len() == t.conns.len() + fds.len()
            &&& t2.next_id == t.next_id + fds.len()
            &&& forall|j: int| 0 <= j < t.conns.len() ==> t2.conns[j] == t.conns[j]
            &&& forall|j: int|
                t.conns.len() <= j < t2.conns.len() ==> t2.conns[j] == fresh_conn(
                    (t.next_id + j - t.conns.len()) as u64,
                    fds[j - t.conns.len()],
                )
            &&& forall|j: int|
                t.conns.len() <= j < t2.conns.len() ==> !table_has(t, t2.conns[j].id)
        }),
    decreases fds.len(),
{
    if fds.len() == 0 {
    } else {
        let t1 = enroll_model(t, fds.first());
        assert(t1.conns[t.conns.len() as int] == fresh_conn(t.next_id as u64, fds[0]));
        lemma_accept_drain(t1, fds.drop_first());
        let t2 = enroll_all(t, fds);
        assert(t2 == enroll_all(t1, fds.drop_first()));
        assert forall|j: int|
            t.conns.len() <= j < t2.conns.len() implies t2.conns[j] == fresh_conn(
            (t.next_id + j - t.conns.len()) as u64,
            fds[j - t.conns.len()],
        ) by {
            if j == t.conns.len() {
                assert(t2.conns[j] == t1.conns[j]);
            } else {
                assert(t2.conns[j] == fresh_conn(
                    (t1.next_id + j - t1.conns.len()) as u64,
                    fds.drop_first()[j - t1.conns.len()],
                ));
                assert(fds.drop_first()[j - t1.conns.len()] == fds[j - t.conns.len()]);
            }
        }
        assert forall|j: int|
            t.conns.len() <= j < t2.conns.len() implies !table_has(t, t2.conns[j].id) by {
            let made = (t.next_id + j - t.conns.len()) as u64;
            assert(t2.conns[j] == fresh_conn(made, fds[j - t.conns.len()]));
            assert(made >= t.next_id);
        }
    }
}

} // verus!
