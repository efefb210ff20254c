//! Reconciliation engine: a state machine that drives one invocation.
//!
//! The engine never performs I/O itself.  Each call of [`Engine::step`]
//! consumes the outcome of the previously requested action as an [`Event`]
//! and returns the next [`Action`] the caller must perform: look the project
//! up, overwrite its attributes, delete a repository, insert one, fetch its
//! open issues, or run one batched issue insert.  The strict order — secret
//! check, project lookup, attribute update, removals, additions-with-import —
//! and the accumulated total are pinned, transition for transition, by the
//! specification function [`spec_step`].

use vstd::prelude::*;
use crate::query::issues_insert_query_text;
use crate::query::issues_insert_query;
use crate::repo_url::RepoInfo;
use crate::repo_url::locate_view;
use crate::types::KudosIssue;
use crate::types::KudosIssueView;
use crate::types::Payload;
use crate::types::PayloadView;
use crate::types::ProjectAttributes;
use crate::types::RemoteIssue;
use crate::types::clone_attributes;
use crate::types::filter_issues;
use crate::types::filter_view;
use crate::types::kudos_issues_view;
use crate::types::remote_issues_view;

verus! {

/// Why an invocation failed.  Every kind is terminal: nothing is retried.
#[derive(Debug, Clone, Copy, PartialEq, Eq, Structural)]
pub enum Error {
    /// The payload's secret does not equal the configured secret.
    AuthError,
    /// The request body was not a well-formed payload.
    MalformedPayloadError,
    /// The `(name, slug)` pair resolved to no project row.
    NotFoundError,
    /// A repository URL to add could not be parsed.
    ParseError,
    /// The remote issue-listing call failed.
    UpstreamError,
    /// A database operation failed.
    StorageError,
}

/// Where the engine stands between two steps.
#[derive(Debug, Clone, Copy, PartialEq, Eq, Structural)]
pub enum Phase {
    /// Nothing has happened yet; the next event must be `Started`.
    Init,
    /// Waiting for the project lookup's outcome.
    LookingUp,
    /// Waiting for the attribute update's outcome.
    Updating,
    /// Waiting for the outcome of deleting the repository at `remove_index`.
    Removing,
    /// Waiting for the row id of the repository being added at `add_index`.
    InsertingRepo,
    /// Waiting for the fetched issue page of the repository at `add_index`.
    Fetching,
    /// Waiting for the outcome of the batched issue insert.
    InsertingIssues,
    /// Finished; the final action was `Finish`.
    Done,
    /// Failed; the final action was `Fail`.
    Failed,
}

/// The outcome of the action the engine requested last.
#[derive(Debug, PartialEq, Eq)]
pub enum Event {
    /// The invocation begins; answers no action.
    Started,
    /// The project lookup found exactly one row.
    ProjectFound { project_id: i32 },
    /// The project lookup found no row.
    ProjectNotFound,
    /// The attribute update completed.
    AttributesUpdated,
    /// A repository delete completed, whatever number of rows it matched.
    RepositoryDeleted { rows_deleted: u64 },
    /// The repository insert returned the generated row id.
    RepositoryInserted { repository_id: i32 },
    /// The remote API returned the first page of open entries.
    IssuesFetched { issues: Vec<RemoteIssue> },
    /// The batched issue insert reported its affected-row count.
    IssuesInserted { rows_inserted: u64 },
    /// A database operation failed.
    StorageFailed,
    /// The remote API call failed.
    UpstreamFailed,
}

/// Mathematical view of an [`Event`].
pub enum EventView {
    Started,
    ProjectFound { project_id: i32 },
    ProjectNotFound,
    AttributesUpdated,
    RepositoryDeleted { rows_deleted: u64 },
    RepositoryInserted { repository_id: i32 },
    IssuesFetched { issues: Seq<crate::types::RemoteIssueView> },
    IssuesInserted { rows_inserted: u64 },
    StorageFailed,
    UpstreamFailed,
}

impl View for Event {
    type V = EventView;

    open spec fn view(&self) -> EventView {
        match self {
            Event::Started => EventView::Started,
            Event::ProjectFound { project_id } => EventView::ProjectFound {
                project_id: *project_id,
            },
            Event::ProjectNotFound => EventView::ProjectNotFound,
            Event::AttributesUpdated => EventView::AttributesUpdated,
            Event::RepositoryDeleted { rows_deleted } => EventView::RepositoryDeleted {
                rows_deleted: *rows_deleted,
            },
            Event::RepositoryInserted { repository_id } => EventView::RepositoryInserted {
                repository_id: *repository_id,
            },
            Event::IssuesFetched { issues } => EventView::IssuesFetched {
                issues: remote_issues_view(issues@),
            },
            Event::IssuesInserted { rows_inserted } => EventView::IssuesInserted {
                rows_inserted: *rows_inserted,
            },
            Event::StorageFailed => EventView::StorageFailed,
            Event::UpstreamFailed => EventView::UpstreamFailed,
        }
    }
}

/// What the caller must do next.
#[derive(Debug, PartialEq, Eq)]
pub enum Action {
    /// Resolve the project id of `(name, slug)`.
    LookupProject { name: String, slug: String },
    /// Overwrite the four attribute columns of the project row.
    UpdateAttributes { project_id: i32, attributes: ProjectAttributes },
    /// Delete the repository row matching `url`; its issues cascade away.
    DeleteRepository { url: String },
    /// Insert a repository row `(slug, project_id)`, returning its id.
    InsertRepository { slug: String, project_id: i32 },
    /// Fetch the first page (up to 100) of open issues of `(owner, name)`.
    FetchIssues { owner: String, name: String },
    /// Execute `query`, binding the rows of `issues` for `repository_id`.
    InsertIssues { query: String, issues: Vec<KudosIssue>, repository_id: i32 },
    /// The invocation succeeded with `total` issues imported.
    Finish { total: u64 },
    /// The invocation failed; nothing further may be performed.
    Fail { error: Error },
}

/// Mathematical view of an [`Action`].
pub enum ActionView {
    LookupProject { name: Seq<char>, slug: Seq<char> },
    UpdateAttributes { project_id: i32, attributes: crate::types::ProjectAttributesView },
    DeleteRepository { url: Seq<char> },
    InsertRepository { slug: Seq<char>, project_id: i32 },
    FetchIssues { owner: Seq<char>, name: Seq<char> },
    InsertIssues { query: Seq<char>, issues: Seq<KudosIssueView>, repository_id: i32 },
    Finish { total: u64 },
    Fail { error: Error },
}

impl View for Action {
    type V = ActionView;

    open spec fn view(&self) -> ActionView {
        match self {
            Action::LookupProject { name, slug } => ActionView::LookupProject {
                name: name@,
                slug: slug@,
            },
            Action::UpdateAttributes { project_id, attributes } => ActionView::UpdateAttributes {
                project_id: *project_id,
                attributes: attributes@,
            },
            Action::DeleteRepository { url } => ActionView::DeleteRepository { url: url@ },
            Action::InsertRepository { slug, project_id } => ActionView::InsertRepository {
                slug: slug@,
                project_id: *project_id,
            },
            Action::FetchIssues { owner, name } => ActionView::FetchIssues {
                owner: owner@,
                name: name@,
            },
            Action::InsertIssues { query, issues, repository_id } => ActionView::InsertIssues {
                query: query@,
                issues: kudos_issues_view(issues@),
                repository_id: *repository_id,
            },
            Action::Finish { total } => ActionView::Finish { total: *total },
            Action::Fail { error } => ActionView::Fail { error: *error },
        }
    }
}

/// Mathematical view of an [`Engine`].
#[verifier::ext_equal]
pub struct EngineView {
    pub payload: PayloadView,
    pub configured_secret: Seq<char>,
    pub phase: Phase,
    pub project_id: i32,
    pub remove_index: int,
    pub add_index: int,
    pub total: int,
    pub current_owner: Seq<char>,
    pub current_name: Seq<char>,
    pub current_repository_id: i32,
    pub current_batch_len: int,
}

/// The engine's state between two steps.
#[derive(Debug)]
pub struct Engine {
    pub payload: Payload,
    pub configured_secret: String,
    pub phase: Phase,
    pub project_id: i32,
    pub remove_index: usize,
    pub add_index: usize,
    pub total: u64,
    pub current_owner: String,
    pub current_name: String,
    pub current_repository_id: i32,
    pub current_batch_len: usize,
}

impl View for Engine {
    type V = EngineView;

    open spec fn view(&self) -> EngineView {
        EngineView {
            payload: self.payload@,
            configured_secret: self.configured_secret@,
            phase: self.phase,
            project_id: self.project_id,
            remove_index: self.remove_index as int,
            add_index: self.add_index as int,
            total: self.total as int,
            current_owner: self.current_owner@,
            current_name: self.current_name@,
            current_repository_id: self.current_repository_id,
            current_batch_len: self.current_batch_len as int,
        }
    }
}

/// The state a fresh engine starts in.
pub open spec fn init_view(payload: PayloadView, configured_secret: Seq<char>) -> EngineView {
    EngineView {
        payload,
        configured_secret,
        phase: Phase::Init,
        project_id: 0,
        remove_index: 0,
        add_index: 0,
        total: 0,
        current_owner: Seq::empty(),
        current_name: Seq::empty(),
        current_repository_id: 0,
        current_batch_len: 0,
    }
}

/// Which events answer the action requested in each phase.  `Done` and
/// `Failed` accept none: the invocation is over.
pub open spec fn event_allowed(phase: Phase, e: EventView) -> bool {
    match phase {
        Phase::Init => e is Started,
        Phase::LookingUp => e is ProjectFound || e is ProjectNotFound || e is StorageFailed,
        Phase::Updating => e is AttributesUpdated || e is StorageFailed,
        Phase::Removing => e is RepositoryDeleted || e is StorageFailed,
        Phase::InsertingRepo => e is RepositoryInserted || e is StorageFailed,
        Phase::Fetching => e is IssuesFetched || e is UpstreamFailed,
        Phase::InsertingIssues => e is IssuesInserted || e is StorageFailed,
        Phase::Done => false,
        Phase::Failed => false,
    }
}

/// Starts adding the repository at index `i`: its URL must parse, and a row
/// for it is inserted.  An unparsable URL aborts the whole request.
pub open spec fn sv_start_repo(s: EngineView, i: int) -> (EngineView, ActionView) {
    let entry = s.payload.repos_to_add[i];
    match locate_view(entry.url) {
        Some(pair) => (
            EngineView {
                phase: Phase::InsertingRepo,
                add_index: i,
                current_owner: pair.0,
                current_name: pair.1,
                ..s
            },
            ActionView::InsertRepository { slug: entry.label, project_id: s.project_id },
        ),
        None => (
            EngineView { phase: Phase::Failed, add_index: i, ..s },
            ActionView::Fail { error: Error::ParseError },
        ),
    }
}

/// Enters the addition stage: with nothing to add the run finishes at once
/// with its current total and no remote call is ever requested.
pub open spec fn sv_begin_additions(s: EngineView) -> (EngineView, ActionView) {
    if s.payload.repos_to_add.len() == 0 {
        (EngineView { phase: Phase::Done, ..s }, ActionView::Finish { total: s.total as u64 })
    } else {
        sv_start_repo(s, 0)
    }
}

/// Enters the removal stage, or skips it when nothing is to be removed.
pub open spec fn sv_begin_removals(s: EngineView) -> (EngineView, ActionView) {
    if s.payload.repos_to_remove.len() > 0 {
        (
            EngineView { phase: Phase::Removing, remove_index: 0, ..s },
            ActionView::DeleteRepository { url: s.payload.repos_to_remove[0].url },
        )
    } else {
        sv_begin_additions(s)
    }
}

/// Moves past the repository at `add_index`: on to the next one, or to the
/// finished state carrying the accumulated total.
pub open spec fn sv_advance(s: EngineView) -> (EngineView, ActionView) {
    let i = s.add_index + 1;
    if i < s.payload.repos_to_add.len() {
        sv_start_repo(s, i)
    } else {
        (
            EngineView { phase: Phase::Done, add_index: i, ..s },
            ActionView::Finish { total: s.total as u64 },
        )
    }
}

/// The engine's transition function: from a state and the answering event to
/// the successor state and the next requested action.
pub open spec fn spec_step(s: EngineView, e: EventView) -> (EngineView, ActionView) {
    match (s.phase, e) {
        (Phase::Init, EventView::Started) => {
            if s.payload.secret == s.configured_secret {
                (
                    EngineView { phase: Phase::LookingUp, ..s },
                    ActionView::LookupProject {
                        name: s.payload.project_name,
                        slug: s.payload.project_slug,
                    },
                )
            } else {
                (
                    EngineView { phase: Phase::Failed, ..s },
                    ActionView::Fail { error: Error::AuthError },
                )
            }
        },
        (Phase::LookingUp, EventView::ProjectFound { project_id }) => {
            let s1 = EngineView { project_id, ..s };
            match s.payload.attributes {
                Some(attributes) => (
                    EngineView { phase: Phase::Updating, ..s1 },
                    ActionView::UpdateAttributes { project_id, attributes },
                ),
                None => sv_begin_removals(s1),
            }
        },
        (Phase::LookingUp, EventView::ProjectNotFound) => (
            EngineView { phase: Phase::Failed, ..s },
            ActionView::Fail { error: Error::NotFoundError },
        ),
        (Phase::Updating, EventView::AttributesUpdated) => sv_begin_removals(s),
        (Phase::Removing, EventView::RepositoryDeleted { .. }) => {
            let i = s.remove_index + 1;
            if i < s.payload.repos_to_remove.len() {
                (
                    EngineView { remove_index: i, ..s },
                    ActionView::DeleteRepository { url: s.payload.repos_to_remove[i].url },
                )
            } else {
                sv_begin_additions(EngineView { remove_index: i, ..s })
            }
        },
        (Phase::InsertingRepo, EventView::RepositoryInserted { repository_id }) => (
            EngineView { phase: Phase::Fetching, current_repository_id: repository_id, ..s },
            ActionView::FetchIssues { owner: s.current_owner, name: s.current_name },
        ),
        (Phase::Fetching, EventView::IssuesFetched { issues }) => {
            let filtered = filter_view(issues);
            if filtered.len() == 0 {
                sv_advance(s)
            } else {
                (
                    EngineView {
                        phase: Phase::InsertingIssues,
                        current_batch_len: filtered.len() as int,
                        ..s
                    },
                    ActionView::InsertIssues {
                        query: issues_insert_query_text(filtered.len()),
                        issues: filtered,
                        repository_id: s.current_repository_id,
                    },
                )
            }
        },
        (Phase::InsertingIssues, EventView::IssuesInserted { rows_inserted }) => sv_advance(
            EngineView { total: s.total + rows_inserted, ..s },
        ),
        (Phase::Fetching, EventView::UpstreamFailed) => (
            EngineView { phase: Phase::Failed, ..s },
            ActionView::Fail { error: Error::UpstreamError },
        ),
        (_, EventView::StorageFailed) => (
            EngineView { phase: Phase::Failed, ..s },
            ActionView::Fail { error: Error::StorageError },
        ),
        _ => (s, ActionView::Fail { error: Error::StorageError }),
    }
}

/// Well-formedness of an engine state; established by [`Engine::new`] and
/// preserved by every allowed step.
pub open spec fn wf(s: EngineView) -> bool {
    &&& 0 <= s.remove_index <= s.payload.repos_to_remove.len()
    &&& 0 <= s.add_index <= s.payload.repos_to_add.len()
    &&& 0 <= s.total
    &&& 0 <= s.current_batch_len
    &&& (s.phase is Removing ==> s.remove_index < s.payload.repos_to_remove.len())
    &&& (s.phase is InsertingRepo || s.phase is Fetching || s.phase is InsertingIssues
        ==> s.add_index < s.payload.repos_to_add.len())
    &&& (s.phase is Init || s.phase is LookingUp || s.phase is Updating || s.phase is Removing
        ==> s.total == 0 && s.add_index == 0)
    &&& (s.phase is InsertingRepo || s.phase is Fetching ==> locate_view(
        s.payload.repos_to_add[s.add_index].url,
    ) == Some((s.current_owner, s.current_name)))
    &&& (s.phase is Done ==> s.add_index == s.payload.repos_to_add.len())
}

/// Every allowed step leads from a well-formed state to a well-formed state.
pub proof fn lemma_step_preserves_wf(s: EngineView, e: EventView)
    requires
        wf(s),
        event_allowed(s.phase, e),
    ensures
        wf(spec_step(s, e).0),
{
}

impl Engine {
    /// A fresh engine holding one payload and the configured secret.
    pub fn new(payload: Payload, configured_secret: String) -> (r: Engine)
        ensures
            r@ == init_view(payload@, configured_secret@),
            wf(r@),
    {
        let r = Engine {
            payload,
            configured_secret,
            phase: Phase::Init,
            project_id: 0,
            remove_index: 0,
            add_index: 0,
            total: 0,
            current_owner: String::new(),
            current_name: String::new(),
            current_repository_id: 0,
            current_batch_len: 0,
        };
        proof {
            assert(r@ =~= init_view(payload@, configured_secret@));
        }
        r
    }

    fn start_repo(&mut self, i: usize) -> (r: Action)
        requires
            i < old(self).payload.repos_to_add.len(),
        ensures
            final (self)@ == sv_start_repo(old(self)@, i as int).0,
            r@ == sv_start_repo(old(self)@, i as int).1,
    {
        self.add_index = i;
        let parsed = RepoInfo::from_url(self.payload.repos_to_add[i].url.as_str());
        match parsed {
            Some(info) => {
                self.phase = Phase::InsertingRepo;
                let slug = self.payload.repos_to_add[i].label.clone();
                let project_id = self.project_id;
                self.current_owner = info.owner;
                self.current_name = info.name;
                proof {
                    assert(final (self)@ =~= sv_start_repo(old(self)@, i as int).0);
                }
                Action::InsertRepository { slug, project_id }
            },
            None => {
                self.phase = Phase::Failed;
                proof {
                    assert(final (self)@ =~= sv_start_repo(old(self)@, i as int).0);
                }
                Action::Fail { error: Error::ParseError }
            },
        }
    }

    fn begin_additions(&mut self) -> (r: Action)
        ensures
            final (self)@ == sv_begin_additions(old(self)@).0,
            r@ == sv_begin_additions(old(self)@).1,
    {
        if self.payload.repos_to_add.len() == 0 {
            self.phase = Phase::Done;
            proof {
                assert(final (self)@ =~= sv_begin_additions(old(self)@).0);
            }
            Action::Finish { total: self.total }
        } else {
            self.start_repo(0)
        }
    }

    fn begin_removals(&mut self) -> (r: Action)
        ensures
            final (self)@ == sv_begin_removals(old(self)@).0,
            r@ == sv_begin_removals(old(self)@).1,
    {
        if self.payload.repos_to_remove.len() > 0 {
            self.phase = Phase::Removing;
            self.remove_index = 0;
            proof {
                assert(final (self)@ =~= sv_begin_removals(old(self)@).0);
            }
            Action::DeleteRepository { url: self.payload.repos_to_remove[0].url.clone() }
        } else {
            self.begin_additions()
        }
    }

    fn advance_repo(&mut self) -> (r: Action)
        requires
            old(self).add_index < old(self).payload.repos_to_add.len(),
        ensures
            final (self)@ == sv_advance(old(self)@).0,
            r@ == sv_advance(old(self)@).1,
    {
        let i = self.add_index + 1;
        if i < self.payload.repos_to_add.len() {
            self.start_repo(i)
        } else {
            self.add_index = i;
            self.phase = Phase::Done;
            proof {
                assert(final (self)@ =~= sv_advance(old(self)@).0);
            }
            Action::Finish { total: self.total }
        }
    }

    /// Consumes the outcome of the last requested action and returns the next
    /// one.  The whole transition is pinned by [`spec_step`]; a run therefore
    /// performs the payload's stages in their specified order, treats a
    /// delete that matched no rows like any other, requests no remote fetch
    /// when nothing is to be added, and accumulates the reported insert
    /// counts into the final total.
    pub fn step(&mut self, event: Event) -> (r: Action)
        requires
            wf(old(self)@),
            event_allowed(old(self)@.phase, event@),
            event@ matches EventView::IssuesFetched { issues } ==> issues.len() <= 100,
            event@ matches EventView::IssuesInserted { rows_inserted } ==> old(self)@.total
                + rows_inserted <= u64::MAX,
        ensures
            final (self)@ == spec_step(old(self)@, event@).0,
            r@ == spec_step(old(self)@, event@).1,
            wf(final (self)@),
    {
        proof {
            lemma_step_preserves_wf(old(self)@, event@);
        }
        match (self.phase, event) {
            (Phase::Init, Event::Started) => {
                if self.payload.secret == self.configured_secret {
                    self.phase = Phase::LookingUp;
                    proof {
                        assert(final (self)@ =~= spec_step(old(self)@, EventView::Started).0);
                    }
                    Action::LookupProject {
                        name: self.payload.project_name.clone(),
                        slug: self.payload.project_slug.clone(),
                    }
                } else {
                    self.phase = Phase::Failed;
                    proof {
                        assert(final (self)@ =~= spec_step(old(self)@, EventView::Started).0);
                    }
                    Action::Fail { error: Error::AuthError }
                }
            },
            (Phase::LookingUp, Event::ProjectFound { project_id }) => {
                self.project_id = project_id;
                match &self.payload.attributes {
                    Some(attributes) => {
                        let attributes = clone_attributes(attributes);
                        self.phase = Phase::Updating;
                        proof {
                            assert(final (self)@ =~= spec_step(old(self)@, event@).0);
                        }
                        Action::UpdateAttributes { project_id, attributes }
                    },
                    None => self.begin_removals(),
                }
            },
            (Phase::LookingUp, Event::ProjectNotFound) => {
                self.phase = Phase::Failed;
                Action::Fail { error: Error::NotFoundError }
            },
            (Phase::Updating, Event::AttributesUpdated) => self.begin_removals(),
            (Phase::Removing, Event::RepositoryDeleted { .. }) => {
                let len = self.payload.repos_to_remove.len();
                let i = self.remove_index + 1;
                self.remove_index = i;
                if i < len {
                    proof {
                        assert(final (self)@ =~= spec_step(old(self)@, event@).0);
                    }
                    Action::DeleteRepository {
                        url: self.payload.repos_to_remove[i].url.clone(),
                    }
                } else {
                    self.begin_additions()
                }
            },
            (Phase::InsertingRepo, Event::RepositoryInserted { repository_id }) => {
                self.current_repository_id = repository_id;
                self.phase = Phase::Fetching;
                proof {
                    assert(final (self)@ =~= spec_step(old(self)@, event@).0);
                }
                Action::FetchIssues {
                    owner: self.current_owner.clone(),
                    name: self.current_name.clone(),
                }
            },
            (Phase::Fetching, Event::IssuesFetched { issues }) => {
                let filtered = filter_issues(issues);
                if filtered.len() == 0 {
                    self.advance_repo()
                } else {
                    self.phase = Phase::InsertingIssues;
                    self.current_batch_len = filtered.len();
                    let query = issues_insert_query(filtered.len());
                    let repository_id = self.current_repository_id;
                    proof {
                        assert(final (self)@ =~= spec_step(old(self)@, event@).0);
                    }
                    Action::InsertIssues { query, issues: filtered, repository_id }
                }
            },
            (Phase::InsertingIssues, Event::IssuesInserted { rows_inserted }) => {
                self.total = self.total + rows_inserted;
                self.advance_repo()
            },
            (Phase::Fetching, Event::UpstreamFailed) => {
                self.phase = Phase::Failed;
                Action::Fail { error: Error::UpstreamError }
            },
            (Phase::LookingUp, Event::StorageFailed)
            | (Phase::Updating, Event::StorageFailed)
            | (Phase::Removing, Event::StorageFailed)
            | (Phase::InsertingRepo, Event::StorageFailed)
            | (Phase::InsertingIssues, Event::StorageFailed) => {
                self.phase = Phase::Failed;
                Action::Fail { error: Error::StorageError }
            },
            _ => vstd::pervasive::unreached(),
        }
    }
}

} // verus!
