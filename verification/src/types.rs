//! Data model of one reconciliation request and of the issue records it
//! imports, together with the mathematical views the contracts speak of.

use vstd::prelude::*;

verus! {

/// One repository entry of the payload: a display label and the URL under
/// which the remote hosting service knows the repository.
#[derive(Debug, PartialEq, Eq)]
pub struct Repository {
    pub label: String,
    pub url: String,
}

/// Mathematical view of a [`Repository`] entry.
pub struct RepositoryView {
    pub label: Seq<char>,
    pub url: Seq<char>,
}

impl View for Repository {
    type V = RepositoryView;

    open spec fn view(&self) -> RepositoryView {
        RepositoryView { label: self.label@, url: self.url@ }
    }
}

/// The four attribute columns a payload may overwrite on the project row.
#[derive(Debug, PartialEq, Eq)]
pub struct ProjectAttributes {
    pub purposes: Vec<String>,
    pub stack_levels: Vec<String>,
    pub technologies: Vec<String>,
    pub types: Vec<String>,
}

/// Mathematical view of [`ProjectAttributes`].
pub struct ProjectAttributesView {
    pub purposes: Seq<Seq<char>>,
    pub stack_levels: Seq<Seq<char>>,
    pub technologies: Seq<Seq<char>>,
    pub types: Seq<Seq<char>>,
}

/// The view of a sequence of strings: the sequence of their views.
pub open spec fn strings_view(s: Seq<String>) -> Seq<Seq<char>> {
    s.map_values(|x: String| x@)
}

impl View for ProjectAttributes {
    type V = ProjectAttributesView;

    open spec fn view(&self) -> ProjectAttributesView {
        ProjectAttributesView {
            purposes: strings_view(self.purposes@),
            stack_levels: strings_view(self.stack_levels@),
            technologies: strings_view(self.technologies@),
            types: strings_view(self.types@),
        }
    }
}

/// The root entity of one reconciliation request.
#[derive(Debug, PartialEq, Eq)]
pub struct Payload {
    pub secret: String,
    pub project_slug: String,
    pub project_name: String,
    pub repos_to_add: Vec<Repository>,
    pub repos_to_remove: Vec<Repository>,
    pub attributes: Option<ProjectAttributes>,
}

/// Mathematical view of a [`Payload`].
pub struct PayloadView {
    pub secret: Seq<char>,
    pub project_slug: Seq<char>,
    pub project_name: Seq<char>,
    pub repos_to_add: Seq<RepositoryView>,
    pub repos_to_remove: Seq<RepositoryView>,
    pub attributes: Option<ProjectAttributesView>,
}

/// The view of a sequence of repository entries.
pub open spec fn repositories_view(s: Seq<Repository>) -> Seq<RepositoryView> {
    s.map_values(|r: Repository| r@)
}

impl View for Payload {
    type V = PayloadView;

    open spec fn view(&self) -> PayloadView {
        PayloadView {
            secret: self.secret@,
            project_slug: self.project_slug@,
            project_name: self.project_name@,
            repos_to_add: repositories_view(self.repos_to_add@),
            repos_to_remove: repositories_view(self.repos_to_remove@),
            attributes: match self.attributes {
                Some(a) => Some(a@),
                None => None,
            },
        }
    }
}

/// A label attached to a remote issue; only its name matters here.
#[derive(Debug, PartialEq, Eq)]
pub struct RemoteLabel {
    pub name: String,
}

impl View for RemoteLabel {
    type V = Seq<char>;

    open spec fn view(&self) -> Seq<char> {
        self.name@
    }
}

/// One entry of the remote issue listing, reduced to the plain values this
/// engine reads.  Timestamps are carried as opaque text; `pull_request` says
/// whether the entry carries a pull-request association.
#[derive(Debug, PartialEq, Eq)]
pub struct RemoteIssue {
    pub number: u64,
    pub title: String,
    pub html_url: String,
    pub created_at: String,
    pub updated_at: String,
    pub user_login: String,
    pub labels: Vec<RemoteLabel>,
    pub pull_request: bool,
}

/// Mathematical view of a [`RemoteIssue`].
pub struct RemoteIssueView {
    pub number: u64,
    pub title: Seq<char>,
    pub html_url: Seq<char>,
    pub created_at: Seq<char>,
    pub updated_at: Seq<char>,
    pub user_login: Seq<char>,
    pub labels: Seq<Seq<char>>,
    pub pull_request: bool,
}

/// The view of a sequence of remote labels: their names.
pub open spec fn labels_view(s: Seq<RemoteLabel>) -> Seq<Seq<char>> {
    s.map_values(|l: RemoteLabel| l@)
}

impl View for RemoteIssue {
    type V = RemoteIssueView;

    open spec fn view(&self) -> RemoteIssueView {
        RemoteIssueView {
            number: self.number,
            title: self.title@,
            html_url: self.html_url@,
            created_at: self.created_at@,
            updated_at: self.updated_at@,
            user_login: self.user_login@,
            labels: labels_view(self.labels@),
            pull_request: self.pull_request,
        }
    }
}

/// The issue record shape the store persists (plus normalization-time-only
/// fields `html_url`, `issue_updated_at` and `user`, kept but not written).
#[derive(Debug, PartialEq, Eq)]
pub struct KudosIssue {
    pub number: i64,
    pub title: String,
    pub html_url: String,
    pub issue_created_at: String,
    pub issue_updated_at: String,
    pub user: String,
    pub labels: Vec<String>,
}

/// Mathematical view of a [`KudosIssue`].
pub struct KudosIssueView {
    pub number: i64,
    pub title: Seq<char>,
    pub html_url: Seq<char>,
    pub issue_created_at: Seq<char>,
    pub issue_updated_at: Seq<char>,
    pub user: Seq<char>,
    pub labels: Seq<Seq<char>>,
}

impl View for KudosIssue {
    type V = KudosIssueView;

    open spec fn view(&self) -> KudosIssueView {
        KudosIssueView {
            number: self.number,
            title: self.title@,
            html_url: self.html_url@,
            issue_created_at: self.issue_created_at@,
            issue_updated_at: self.issue_updated_at@,
            user: self.user@,
            labels: strings_view(self.labels@),
        }
    }
}

/// What normalization makes of one remote issue: fields mapped directly,
/// label objects reduced to their ordered name sequence.
pub open spec fn normalize_view(i: RemoteIssueView) -> KudosIssueView {
    KudosIssueView {
        number: i.number as i64,
        title: i.title,
        html_url: i.html_url,
        issue_created_at: i.created_at,
        issue_updated_at: i.updated_at,
        user: i.user_login,
        labels: i.labels,
    }
}

impl KudosIssue {
    /// Normalizes one remote issue into the store's record shape.
    pub fn from(value: RemoteIssue) -> (r: KudosIssue)
        ensures
            r@ == normalize_view(value@),
    {
        let mut names: Vec<String> = Vec::new();
        let mut i: usize = 0;
        while i < value.labels.len()
            invariant
                i <= value.labels.len(),
                names@.len() == i,
                forall|j: int| 0 <= j < i ==> names@[j]@ == value.labels@[j]@,
            decreases value.labels.len() - i,
        {
            names.push(value.labels[i].name.clone());
            i = i + 1;
        }
        proof {
            assert(strings_view(names@) =~= labels_view(value.labels@));
        }
        KudosIssue {
            number: value.number as i64,
            title: value.title,
            html_url: value.html_url,
            issue_created_at: value.created_at,
            issue_updated_at: value.updated_at,
            user: value.user_login,
            labels: names,
        }
    }
}

/// The views of a sequence of remote issues.
pub open spec fn remote_issues_view(s: Seq<RemoteIssue>) -> Seq<RemoteIssueView> {
    s.map_values(|i: RemoteIssue| i@)
}

/// The views of a sequence of normalized issue records.
pub open spec fn kudos_issues_view(s: Seq<KudosIssue>) -> Seq<KudosIssueView> {
    s.map_values(|i: KudosIssue| i@)
}

/// The normalized records of the entries without a pull-request association,
/// in fetch order; pull-request entries are dropped.
pub open spec fn filter_view(s: Seq<RemoteIssueView>) -> Seq<KudosIssueView>
    decreases s.len(),
{
    if s.len() == 0 {
        Seq::empty()
    } else if s.last().pull_request {
        filter_view(s.drop_last())
    } else {
        filter_view(s.drop_last()).push(normalize_view(s.last()))
    }
}

/// Drops the pull-request entries of one fetched page and normalizes the
/// rest, preserving their order.
pub fn filter_issues(issues: Vec<RemoteIssue>) -> (r: Vec<KudosIssue>)
    ensures
        kudos_issues_view(r@) == filter_view(remote_issues_view(issues@)),
        r@.len() <= issues@.len(),
{
    let ghost all: Seq<RemoteIssue> = issues@;
    let mut rest = issues;
    let mut out: Vec<KudosIssue> = Vec::new();
    while rest.len() > 0
        invariant
            out@.len() + rest@.len() <= all.len(),
            filter_view(remote_issues_view(rest@)) + kudos_issues_view(out@) == filter_view(
                remote_issues_view(all),
            ),
        decreases rest.len(),
    {
        let ghost before: Seq<RemoteIssue> = rest@;
        let item = rest.pop().unwrap();
        proof {
            assert(remote_issues_view(rest@) =~= remote_issues_view(before).drop_last());
            assert(remote_issues_view(before).last() == item@);
        }
        if !item.pull_request {
            let ghost out_before: Seq<KudosIssue> = out@;
            let record = KudosIssue::from(item);
            out.insert(0, record);
            proof {
                assert(kudos_issues_view(out@) =~= seq![record@] + kudos_issues_view(out_before));
                assert(filter_view(remote_issues_view(rest@)) + kudos_issues_view(out@)
                    =~= filter_view(remote_issues_view(before)) + kudos_issues_view(out_before));
            }
        }
        proof {
            assert(filter_view(remote_issues_view(rest@)) + kudos_issues_view(out@) =~= filter_view(
                remote_issues_view(all),
            ));
        }
    }
    proof {
        assert(remote_issues_view(rest@) =~= Seq::empty());
        assert(filter_view(remote_issues_view(rest@)) + kudos_issues_view(out@) =~= kudos_issues_view(
            out@,
        ));
    }
    out
}

/// An entry carrying a pull-request association never appears in the
/// filtered set; an entry without one always does, normalized with its
/// labels preserved as an ordered sequence of label names (so says
/// [`normalize_view`], which keeps `labels` unchanged).
pub proof fn lemma_filter_membership(s: Seq<RemoteIssueView>)
    ensures
        forall|k: int|
            0 <= k < filter_view(s).len() ==> exists|j: int|
                0 <= j < s.len() && !s[j].pull_request && #[trigger] filter_view(s)[k]
                    == normalize_view(s[j]),
        forall|j: int|
            0 <= j < s.len() && !(#[trigger] s[j]).pull_request ==> filter_view(s).contains(
                normalize_view(s[j]),
            ),
    decreases s.len(),
{
    if s.len() > 0 {
        let t = s.drop_last();
        let ft = filter_view(t);
        let fs = filter_view(s);
        lemma_filter_membership(t);
        assert forall|k: int| 0 <= k < fs.len() implies exists|j: int|
            0 <= j < s.len() && !s[j].pull_request && #[trigger] fs[k] == normalize_view(
                s[j],
            ) by {
            if k < ft.len() {
                let j = choose|j: int|
                    0 <= j < t.len() && !t[j].pull_request && ft[k] == normalize_view(t[j]);
                assert(s[j] == t[j]);
                assert(fs[k] == ft[k]);
                assert(0 <= j < s.len() && !s[j].pull_request && fs[k] == normalize_view(s[j]));
            } else {
                let j = s.len() - 1;
                assert(0 <= j < s.len() && !s[j].pull_request && fs[k] == normalize_view(s[j]));
            }
        }
        assert forall|j: int| 0 <= j < s.len() && !(#[trigger] s[j]).pull_request implies fs
            .contains(normalize_view(s[j])) by {
            if j == s.len() - 1 {
                assert(fs[fs.len() - 1] == normalize_view(s[j]));
                assert(fs.contains(normalize_view(s[j])));
            } else {
                assert(t[j] == s[j]);
                assert(ft.contains(normalize_view(t[j])));
                let w = choose|w: int| 0 <= w < ft.len() && ft[w] == normalize_view(t[j]);
                assert(fs[w] == normalize_view(s[j]));
                assert(fs.contains(normalize_view(s[j])));
            }
        }
    }
}

/// Copies a vector of strings element for element.
pub fn clone_strings(v: &Vec<String>) -> (r: Vec<String>)
    ensures
        r@ == v@,
{
    let mut r: Vec<String> = Vec::new();
    let mut i: usize = 0;
    while i < v.len()
        invariant
            i <= v.len(),
            r@.len() == i,
            forall|j: int| 0 <= j < i ==> r@[j] == v@[j],
        decreases v.len() - i,
    {
        r.push(v[i].clone());
        i = i + 1;
    }
    proof {
        assert(r@ =~= v@);
    }
    r
}

/// Copies an attribute set field for field.
pub fn clone_attributes(a: &ProjectAttributes) -> (r: ProjectAttributes)
    ensures
        r@ == a@,
{
    ProjectAttributes {
        purposes: clone_strings(&a.purposes),
        stack_levels: clone_strings(&a.stack_levels),
        technologies: clone_strings(&a.technologies),
        types: clone_strings(&a.types),
    }
}

} // verus!
