//! The execution history: an append-only, size-bounded log of events. The
//! cap is hard; when it is exceeded the oldest entries leave first, never
//! reordered.
use vstd::prelude::*;
use vstd::string::StringExecFns;
use crate::types::ExecutionEvent;
use crate::types::SchedulerStore;
use crate::types::opt_str_view;

verus! {

pub const HISTORY_LIMIT: usize = 250;

/// The fields `push_event` records for the given arguments.
pub open spec fn spec_event(
    schedule_id: Option<Seq<char>>,
    event_type: Seq<char>,
    now: i64,
    result: Seq<char>,
    reason: Option<Seq<char>>,
    e: ExecutionEvent,
) -> bool {
    &&& opt_str_view(e.schedule_id) == schedule_id
    &&& e.event_type@ == event_type
    &&& e.timestamp_ms == now
    &&& e.result@ == result
    &&& opt_str_view(e.reason) == reason
}

/// How many of the oldest entries the cap forces out when one is appended.
pub open spec fn spec_push_start(before_len: int) -> int {
    if before_len + 1 > HISTORY_LIMIT as int {
        before_len + 1 - HISTORY_LIMIT as int
    } else {
        0
    }
}

/// The history after an append under the cap: the new entry at the end, and
/// before it exactly the old entries, minus as many of the oldest as the cap
/// forces out.
pub open spec fn spec_history_after_push(
    before: Seq<ExecutionEvent>,
    after: Seq<ExecutionEvent>,
) -> bool {
    &&& after.len() == before.len() + 1 - spec_push_start(before.len() as int)
    &&& forall|i: int|
        spec_push_start(before.len() as int) <= i < before.len() ==> #[trigger] after[i
            - spec_push_start(before.len() as int)] == before[i]
}

/// Append an event to the store's history, evicting the oldest entries
/// beyond the cap. Only the history changes.
pub fn push_event(
    store: &mut SchedulerStore,
    schedule_id: Option<String>,
    event_type: &str,
    now: i64,
    result: &str,
    reason: Option<String>,
)
    ensures
        spec_history_after_push(old(store).history@, final (store).history@),
        final (store).history@.len() <= HISTORY_LIMIT,
        final (store).history@.len() > 0,
        spec_event(
            opt_str_view(schedule_id),
            event_type@,
            now,
            result@,
            opt_str_view(reason),
            final (store).history@.last(),
        ),
        final (store).settings == old(store).settings,
        final (store).active == old(store).active,
        final (store).id_seq == old(store).id_seq,
        final (store).last_schedule_request == old(store).last_schedule_request,
{
    let event = ExecutionEvent {
        schedule_id,
        event_type: String::from_str(event_type),
        timestamp_ms: now,
        result: String::from_str(result),
        reason,
    };
    let ghost ev = event;
    let ghost pushed_view = old(store).history@.push(ev);
    store.history.push(event);
    proof {
        assert(store.history@ =~= pushed_view);
    }
    while store.history.len() > HISTORY_LIMIT
        invariant
            1 <= store.history@.len() <= pushed_view.len(),
            store.history@.len() >= HISTORY_LIMIT as int || store.history@.len()
                == pushed_view.len(),
            store.history@ =~= pushed_view.subrange(
                pushed_view.len() - store.history@.len(),
                pushed_view.len() as int,
            ),
            store.settings == old(store).settings,
            store.active == old(store).active,
            store.id_seq == old(store).id_seq,
            store.last_schedule_request == old(store).last_schedule_request,
        decreases store.history.len(),
    {
        let ghost before_view = store.history@;
        let _ = store.history.remove(0);
        proof {
            assert(store.history@ =~= before_view.subrange(1, before_view.len() as int));
            assert(store.history@ =~= pushed_view.subrange(
                pushed_view.len() - store.history@.len(),
                pushed_view.len() as int,
            ));
        }
    }
    proof {
        let start = pushed_view.len() - store.history@.len();
        assert(store.history@.last() == pushed_view.last());
        assert(store.history@.len() == if pushed_view.len() > HISTORY_LIMIT as int {
            HISTORY_LIMIT as int
        } else {
            pushed_view.len() as int
        });
        assert forall|i: int|
            (pushed_view.len() - store.history@.len()) <= i < old(store).history@.len() implies #[trigger] store.history@[i - (pushed_view.len()
            - store.history@.len())] == old(store).history@[i] by {
            assert(store.history@[i - start] == pushed_view[i]);
        }
    }
}

/// The history holds an event with exactly these fields.
pub open spec fn spec_has_event(
    h: Seq<ExecutionEvent>,
    schedule_id: Option<Seq<char>>,
    event_type: Seq<char>,
    now: i64,
    result: Seq<char>,
    reason: Option<Seq<char>>,
) -> bool {
    exists|k: int|
        0 <= k < h.len() && spec_event(schedule_id, event_type, now, result, reason, #[trigger] h[k])
}

/// The history holds such an event among its `back` newest entries.
pub open spec fn spec_has_event_within(
    h: Seq<ExecutionEvent>,
    back: int,
    schedule_id: Option<Seq<char>>,
    event_type: Seq<char>,
    now: i64,
    result: Seq<char>,
    reason: Option<Seq<char>>,
) -> bool {
    exists|k: int|
        0 <= k < h.len() && k >= h.len() - back && spec_event(
            schedule_id,
            event_type,
            now,
            result,
            reason,
            #[trigger] h[k],
        )
}

/// An event among the `back` newest entries survives one more append, as
/// long as fewer than the cap's worth of entries have been stacked on it:
/// eviction only ever takes the oldest.
pub proof fn lemma_event_survives_push(
    before: Seq<ExecutionEvent>,
    after: Seq<ExecutionEvent>,
    back: int,
    schedule_id: Option<Seq<char>>,
    event_type: Seq<char>,
    now: i64,
    result: Seq<char>,
    reason: Option<Seq<char>>,
)
    requires
        spec_history_after_push(before, after),
        spec_has_event_within(before, back, schedule_id, event_type, now, result, reason),
        back <= HISTORY_LIMIT - 1,
    ensures
        spec_has_event_within(after, back + 1, schedule_id, event_type, now, result, reason),
{
    let k = choose|k: int|
        0 <= k < before.len() && k >= before.len() - back && spec_event(
            schedule_id,
            event_type,
            now,
            result,
            reason,
            #[trigger] before[k],
        );
    let start = spec_push_start(before.len() as int);
    assert(k >= start);
    assert(after[k - start] == before[k]);
    assert(k - start >= after.len() - (back + 1));
}

/// An event among any newest entries is an event the history holds.
pub proof fn lemma_within_implies_has(
    h: Seq<ExecutionEvent>,
    back: int,
    schedule_id: Option<Seq<char>>,
    event_type: Seq<char>,
    now: i64,
    result: Seq<char>,
    reason: Option<Seq<char>>,
)
    requires
        spec_has_event_within(h, back, schedule_id, event_type, now, result, reason),
    ensures
        spec_has_event(h, schedule_id, event_type, now, result, reason),
{
    let k = choose|k: int|
        0 <= k < h.len() && k >= h.len() - back && spec_event(
            schedule_id,
            event_type,
            now,
            result,
            reason,
            #[trigger] h[k],
        );
    assert(spec_event(schedule_id, event_type, now, result, reason, h[k]));
}

} // verus!
