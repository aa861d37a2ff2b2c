//! The laws of the sync engine, stated over its model and proved once for
//! every batch, every entry and every store answer.

use vstd::prelude::*;

use crate::engine::{
    Action, EngineModel, Event, FetchEvent, FetchResponse, FetchedParameter, Outcome, StoreError,
    UpsertEvent,
};
use crate::parameter::Parameter;

verus! {

/// Every store answer keeps the engine's invariant and never touches the
/// entries themselves.
pub proof fn lemma_step_preserves_wf(m: EngineModel, event: Event)
    requires
        m.wf(),
    ensures
        m.step(event).wf(),
        m.step(event).entries == m.entries,
{
}

/// One store answer only ever appends to the outcomes already recorded:
/// nothing recorded is reordered, reworded or dropped.
pub proof fn lemma_step_appends_outcomes(m: EngineModel, event: Event)
    requires
        m.wf(),
    ensures
        m.outcomes.is_prefix_of(m.step(event).outcomes),
{
    let after = m.step(event);
    assert(m.outcomes =~= after.outcomes.subrange(0, m.outcomes.len() as int));
}

/// Every store answer keeps the outcomes aligned with the entries: each
/// recorded outcome carries the name of the entry at its own position.
pub proof fn lemma_step_keeps_outcome_names(m: EngineModel, event: Event)
    requires
        m.wf(),
        m.outcomes_track_entries(),
    ensures
        m.step(event).outcomes_track_entries(),
{
}

/// The batch never fails as a whole, however the store answers: any run of
/// answers keeps the engine well formed, leaves the entries untouched, only
/// ever appends outcomes, and keeps each outcome carrying the name of the
/// entry at its position — so a finished run holds exactly one outcome per
/// input entry, in input order, each tagged with its entry's name.
pub proof fn lemma_batch_never_fails_as_a_whole(m: EngineModel, events: Seq<Event>)
    requires
        m.wf(),
        m.outcomes_track_entries(),
    ensures
        m.run(events).wf(),
        m.run(events).entries == m.entries,
        m.outcomes.is_prefix_of(m.run(events).outcomes),
        m.run(events).outcomes_track_entries(),
        m.run(events).done() ==> m.run(events).outcomes.len() == m.entries.len(),
    decreases events.len(),
{
    if events.len() == 0 {
        assert(m.outcomes =~= m.outcomes.subrange(0, m.outcomes.len() as int));
    } else {
        let next = m.step(events[0]);
        let rest = events.subrange(1, events.len() as int);
        lemma_step_preserves_wf(m, events[0]);
        lemma_step_appends_outcomes(m, events[0]);
        lemma_step_keeps_outcome_names(m, events[0]);
        lemma_batch_never_fails_as_a_whole(next, rest);
        assert(m.outcomes =~= m.run(events).outcomes.subrange(0, m.outcomes.len() as int));
    }
}

/// An entry whose name the store does not hold is always written: the fetch
/// answer "not found" makes the engine ask for exactly one upsert — the
/// current entry's request, with overwrite set — with no outcome recorded
/// yet; when the store accepts that write, the entry's outcome is a success
/// carrying its name, and no further upsert is asked for it.
pub proof fn lemma_absent_entry_written(m: EngineModel)
    requires
        m.wf(),
        !m.writing,
        m.position < m.entries.len(),
    ensures
        ({
            let entry = m.entries[m.position];
            let after_fetch = m.step(Event::Fetch { event: FetchEvent::NotFound });
            let after_write = after_fetch.step(Event::Upsert { event: UpsertEvent::Accepted });
            &&& after_fetch.writing
            &&& after_fetch.outcomes == m.outcomes
            &&& after_fetch.next_action() == (Action::Upsert { request: entry.spec_put_request() })
            &&& entry.spec_put_request().overwrite
            &&& after_write.outcomes == m.outcomes.push(Outcome::Success { name: entry.name })
            &&& after_write.position == m.position + 1
            &&& !(after_write.next_action() is Upsert)
        }),
{
}

/// An entry whose value the store already holds exactly is left alone: the
/// engine records a success outcome at once and asks for no upsert for this
/// entry.
pub proof fn lemma_equal_value_not_written(m: EngineModel, existing: String)
    requires
        m.wf(),
        !m.writing,
        m.position < m.entries.len(),
        existing@ == m.entries[m.position].value@,
    ensures
        ({
            let entry = m.entries[m.position];
            let response = FetchResponse {
                parameter: Some(FetchedParameter { value: Some(existing) }),
            };
            let after_fetch = m.step(Event::Fetch { event: FetchEvent::Response(response) });
            &&& after_fetch.outcomes == m.outcomes.push(Outcome::Success { name: entry.name })
            &&& after_fetch.position == m.position + 1
            &&& !after_fetch.writing
            &&& !(after_fetch.next_action() is Upsert)
        }),
{
}

/// An entry whose value differs from what the store holds — be it only in
/// whitespace or case — is written: the engine asks for exactly one upsert,
/// the current entry's request with overwrite set.
pub proof fn lemma_different_value_written(m: EngineModel, existing: String)
    requires
        m.wf(),
        !m.writing,
        m.position < m.entries.len(),
        existing@ != m.entries[m.position].value@,
    ensures
        ({
            let entry = m.entries[m.position];
            let response = FetchResponse {
                parameter: Some(FetchedParameter { value: Some(existing) }),
            };
            let after_fetch = m.step(Event::Fetch { event: FetchEvent::Response(response) });
            &&& after_fetch.writing
            &&& after_fetch.outcomes == m.outcomes
            &&& after_fetch.position == m.position
            &&& after_fetch.next_action() == (Action::Upsert { request: entry.spec_put_request() })
            &&& entry.spec_put_request().overwrite
        }),
{
}

/// The upsert request of a secure entry always carries the ciphertext
/// storage type, and that of a plain entry the plaintext one: reading the
/// type back off the request recovers the entry's `is_secure` flag.
pub proof fn lemma_put_request_type_recovers_secure(entry: Parameter)
    ensures
        entry.spec_put_request().type_ is Secure <==> entry.is_secure,
        entry.spec_put_request().type_ is Plain <==> !entry.is_secure,
        entry.spec_put_request().type_.spec_label() == (if entry.is_secure {
            "SecureString"@
        } else {
            "String"@
        }),
{
}

/// A transport failure on one entry's fetch is contained: that entry's
/// outcome is a failure carrying its name and the store's diagnostic, no
/// write is attempted for it, and the run moves on to the next entry, whose
/// processing begins exactly as it would in any other state — with its own
/// fetch.
pub proof fn lemma_fetch_failure_isolated(m: EngineModel, message: String)
    requires
        m.wf(),
        !m.writing,
        m.position < m.entries.len(),
    ensures
        ({
            let entry = m.entries[m.position];
            let after_fetch = m.step(
                Event::Fetch { event: FetchEvent::Transport { message } },
            );
            &&& after_fetch.outcomes == m.outcomes.push(
                Outcome::Failure { name: entry.name, error: StoreError::Transport { message } },
            )
            &&& after_fetch.position == m.position + 1
            &&& !after_fetch.writing
            &&& after_fetch.entries == m.entries
            &&& after_fetch.wf()
            &&& m.position + 1 < m.entries.len() ==> after_fetch.next_action() == (Action::Fetch {
                request: m.entries[m.position + 1].spec_get_request(),
            })
        }),
{
}

} // verus!
