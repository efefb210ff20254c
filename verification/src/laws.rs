//! Laws of whole runs of the engine.
//!
//! A run is a sequence of events fed to [`crate::engine::spec_step`] from a
//! starting state; [`valid_trace`] says each event answers the phase then
//! reached.  The proofs below pin down what any such run can do: a mismatched
//! secret produces nothing but the authentication failure, a payload without
//! attributes never requests an attribute update, the row count a delete
//! reports never influences the run, an empty addition list requests no
//! remote call and finishes with total zero, and a finished run's total is
//! the sum of the non-pull-request counts of the fetched pages.

use vstd::prelude::*;
use crate::engine::ActionView;
use crate::engine::EngineView;
use crate::engine::Error;
use crate::engine::EventView;
use crate::engine::Phase;
use crate::engine::event_allowed;
use crate::engine::init_view;
use crate::engine::lemma_step_preserves_wf;
use crate::engine::spec_step;
use crate::engine::wf;
use crate::types::PayloadView;
use crate::types::filter_view;

verus! {

/// The state a run of `evs` from `s` ends in.
pub open spec fn run_state(s: EngineView, evs: Seq<EventView>) -> EngineView
    decreases evs.len(),
{
    if evs.len() == 0 {
        s
    } else {
        run_state(spec_step(s, evs[0]).0, evs.drop_first())
    }
}

/// The actions a run of `evs` from `s` requests, in order.
pub open spec fn run_actions(s: EngineView, evs: Seq<EventView>) -> Seq<ActionView>
    decreases evs.len(),
{
    if evs.len() == 0 {
        Seq::empty()
    } else {
        seq![spec_step(s, evs[0]).1] + run_actions(spec_step(s, evs[0]).0, evs.drop_first())
    }
}

/// Each event of `evs` answers the phase the run has reached.
pub open spec fn valid_trace(s: EngineView, evs: Seq<EventView>) -> bool
    decreases evs.len(),
{
    evs.len() == 0 || (event_allowed(s.phase, evs[0]) && valid_trace(
        spec_step(s, evs[0]).0,
        evs.drop_first(),
    ))
}

/// A finished or failed engine accepts no further event: the run is over.
pub proof fn lemma_terminal_state_ends_run(s: EngineView, evs: Seq<EventView>)
    requires
        valid_trace(s, evs),
        s.phase is Done || s.phase is Failed,
    ensures
        evs.len() == 0,
{
}

/// No step changes the payload or the configured secret.
pub proof fn lemma_step_preserves_payload(s: EngineView, e: EventView)
    ensures
        spec_step(s, e).0.payload == s.payload,
        spec_step(s, e).0.configured_secret == s.configured_secret,
{
}

/// A mismatched secret fails authentication before anything else: the only
/// action any run can produce is the authentication failure, so no storage
/// mutation is ever requested.
pub proof fn lemma_secret_mismatch_mutates_nothing(
    payload: PayloadView,
    configured_secret: Seq<char>,
    evs: Seq<EventView>,
)
    requires
        payload.secret != configured_secret,
        valid_trace(init_view(payload, configured_secret), evs),
    ensures
        forall|k: int|
            0 <= k < run_actions(init_view(payload, configured_secret), evs).len() ==> run_actions(
                init_view(payload, configured_secret),
                evs,
            )[k] == (ActionView::Fail { error: Error::AuthError }),
{
    let s0 = init_view(payload, configured_secret);
    if evs.len() > 0 {
        assert(evs[0] is Started);
        let s1 = spec_step(s0, evs[0]).0;
        assert(s1.phase is Failed);
        lemma_terminal_state_ends_run(s1, evs.drop_first());
        assert(run_actions(s1, evs.drop_first()) =~= Seq::<ActionView>::empty());
        assert(run_actions(s0, evs) =~= seq![ActionView::Fail { error: Error::AuthError }]);
    }
}

/// A payload without attributes never has an attribute update requested for
/// it, anywhere in any run.
pub proof fn lemma_null_attributes_never_updates(s: EngineView, evs: Seq<EventView>)
    requires
        valid_trace(s, evs),
        s.payload.attributes is None,
    ensures
        forall|k: int|
            0 <= k < run_actions(s, evs).len() ==> !((#[trigger] run_actions(s, evs)[k])
                is UpdateAttributes),
    decreases evs.len(),
{
    if evs.len() > 0 {
        let s1 = spec_step(s, evs[0]).0;
        let a = spec_step(s, evs[0]).1;
        lemma_step_preserves_payload(s, evs[0]);
        assert(!(a is UpdateAttributes));
        lemma_null_attributes_never_updates(s1, evs.drop_first());
        let acts = run_actions(s, evs);
        assert(acts =~= seq![a] + run_actions(s1, evs.drop_first()));
        assert forall|k: int| 0 <= k < acts.len() implies !((#[trigger] acts[k])
            is UpdateAttributes) by {
            if k > 0 {
                assert(acts[k] == run_actions(s1, evs.drop_first())[k - 1]);
            }
        }
    }
}

/// The row count a repository delete reports never influences the engine: a
/// delete that matched no rows is a no-op of the run, not an error.
pub proof fn lemma_removal_rows_irrelevant(s: EngineView, rows_a: u64, rows_b: u64)
    ensures
        spec_step(s, EventView::RepositoryDeleted { rows_deleted: rows_a }) == spec_step(
            s,
            EventView::RepositoryDeleted { rows_deleted: rows_b },
        ),
{
    let step_a = spec_step(s, EventView::RepositoryDeleted { rows_deleted: rows_a });
    let step_b = spec_step(s, EventView::RepositoryDeleted { rows_deleted: rows_b });
    assert(step_a.0 =~= step_b.0);
}

/// States from which no addition work can ever arise.
pub open spec fn no_additions_pending(s: EngineView) -> bool {
    &&& s.payload.repos_to_add.len() == 0
    &&& s.total == 0
    &&& !(s.phase is InsertingRepo)
    &&& !(s.phase is Fetching)
    &&& !(s.phase is InsertingIssues)
}

proof fn lemma_no_additions_helper(s: EngineView, evs: Seq<EventView>)
    requires
        valid_trace(s, evs),
        no_additions_pending(s),
    ensures
        forall|k: int|
            0 <= k < run_actions(s, evs).len() ==> {
                let a = #[trigger] run_actions(s, evs)[k];
                &&& !(a is FetchIssues)
                &&& !(a is InsertRepository)
                &&& !(a is InsertIssues)
                &&& (a matches ActionView::Finish { total } ==> total == 0)
            },
    decreases evs.len(),
{
    if evs.len() > 0 {
        let s1 = spec_step(s, evs[0]).0;
        let a = spec_step(s, evs[0]).1;
        lemma_step_preserves_payload(s, evs[0]);
        assert(no_additions_pending(s1));
        lemma_no_additions_helper(s1, evs.drop_first());
        let acts = run_actions(s, evs);
        assert(acts =~= seq![a] + run_actions(s1, evs.drop_first()));
        assert forall|k: int| 0 <= k < acts.len() implies {
            let b = #[trigger] acts[k];
            &&& !(b is FetchIssues)
            &&& !(b is InsertRepository)
            &&& !(b is InsertIssues)
            &&& (b matches ActionView::Finish { total } ==> total == 0)
        } by {
            if k > 0 {
                assert(acts[k] == run_actions(s1, evs.drop_first())[k - 1]);
            }
        }
    }
}

/// An empty addition list short-circuits: no run ever requests a remote
/// fetch, a repository insert or an issue insert, and any finish it reaches
/// carries total zero — whatever the removals or attributes said.
pub proof fn lemma_empty_adds_no_remote_calls(
    payload: PayloadView,
    configured_secret: Seq<char>,
    evs: Seq<EventView>,
)
    requires
        payload.repos_to_add.len() == 0,
        valid_trace(init_view(payload, configured_secret), evs),
    ensures
        forall|k: int|
            0 <= k < run_actions(init_view(payload, configured_secret), evs).len() ==> {
                let a = #[trigger] run_actions(init_view(payload, configured_secret), evs)[k];
                &&& !(a is FetchIssues)
                &&& !(a is InsertRepository)
                &&& !(a is InsertIssues)
                &&& (a matches ActionView::Finish { total } ==> total == 0)
            },
{
    lemma_no_additions_helper(init_view(payload, configured_secret), evs);
}

/// The issue rows still awaiting their insert's outcome.
pub open spec fn pending(s: EngineView) -> int {
    if s.phase is InsertingIssues {
        s.current_batch_len
    } else {
        0
    }
}

/// How many fetch responses the run consumed to reach `s`.
pub open spec fn fetches_done(s: EngineView) -> int {
    match s.phase {
        Phase::InsertingRepo => s.add_index,
        Phase::Fetching => s.add_index,
        Phase::InsertingIssues => s.add_index + 1,
        Phase::Done => s.add_index,
        _ => 0,
    }
}

/// The sum, over the fetch responses of `evs`, of their counts of entries
/// without a pull-request association.
pub open spec fn fetched_filter_sum(evs: Seq<EventView>) -> int
    decreases evs.len(),
{
    if evs.len() == 0 {
        0
    } else {
        (match evs[0] {
            EventView::IssuesFetched { issues } => filter_view(issues).len() as int,
            _ => 0,
        }) + fetched_filter_sum(evs.drop_first())
    }
}

/// How many fetch responses `evs` holds.
pub open spec fn fetch_event_count(evs: Seq<EventView>) -> int
    decreases evs.len(),
{
    if evs.len() == 0 {
        0
    } else {
        (if evs[0] is IssuesFetched {
            1int
        } else {
            0int
        }) + fetch_event_count(evs.drop_first())
    }
}

/// Each insert outcome reports exactly the row count of the batch it
/// answers — the storage contract of an insert of that many rows.
pub open spec fn inserts_conform(s: EngineView, evs: Seq<EventView>) -> bool
    decreases evs.len(),
{
    evs.len() == 0 || {
        &&& (evs[0] matches EventView::IssuesInserted { rows_inserted } ==> rows_inserted
            == s.current_batch_len)
        &&& inserts_conform(spec_step(s, evs[0]).0, evs.drop_first())
    }
}

proof fn lemma_import_total_helper(s: EngineView, evs: Seq<EventView>)
    requires
        wf(s),
        valid_trace(s, evs),
        inserts_conform(s, evs),
        run_state(s, evs).phase is Done,
    ensures
        run_state(s, evs).total == s.total + pending(s) + fetched_filter_sum(evs),
        fetches_done(run_state(s, evs)) == fetches_done(s) + fetch_event_count(evs),
        wf(run_state(s, evs)),
    decreases evs.len(),
{
    if evs.len() == 0 {
        assert(pending(s) == 0);
    } else {
        let s1 = spec_step(s, evs[0]).0;
        lemma_step_preserves_wf(s, evs[0]);
        if s1.phase is Failed {
            lemma_terminal_state_ends_run(s1, evs.drop_first());
            assert(run_state(s1, evs.drop_first()) == s1);
            assert(run_state(s, evs) == s1);
            assert(false);
        }
        lemma_import_total_helper(s1, evs.drop_first());
        assert(s1.total + pending(s1) == s.total + pending(s) + (match evs[0] {
            EventView::IssuesFetched { issues } => filter_view(issues).len() as int,
            _ => 0,
        }));
        assert(fetches_done(s1) == fetches_done(s) + (if evs[0] is IssuesFetched {
            1int
        } else {
            0int
        }));
    }
}

/// A finished run imported exactly the sum, over all added repositories, of
/// the counts of non-pull-request entries the remote API returned for them;
/// and it fetched exactly one page per added repository.
pub proof fn lemma_import_total(
    payload: PayloadView,
    configured_secret: Seq<char>,
    evs: Seq<EventView>,
)
    requires
        valid_trace(init_view(payload, configured_secret), evs),
        inserts_conform(init_view(payload, configured_secret), evs),
        run_state(init_view(payload, configured_secret), evs).phase is Done,
    ensures
        run_state(init_view(payload, configured_secret), evs).total == fetched_filter_sum(evs),
        fetch_event_count(evs) == payload.repos_to_add.len(),
{
    let s0 = init_view(payload, configured_secret);
    lemma_import_total_helper(s0, evs);
    let final_state = run_state(s0, evs);
    assert(final_state.add_index == final_state.payload.repos_to_add.len());
    lemma_run_preserves_payload(s0, evs);
}

/// No run changes the payload or the configured secret.
pub proof fn lemma_run_preserves_payload(s: EngineView, evs: Seq<EventView>)
    ensures
        run_state(s, evs).payload == s.payload,
        run_state(s, evs).configured_secret == s.configured_secret,
    decreases evs.len(),
{
    if evs.len() > 0 {
        lemma_step_preserves_payload(s, evs[0]);
        lemma_run_preserves_payload(spec_step(s, evs[0]).0, evs.drop_first());
    }
}

} // verus!
