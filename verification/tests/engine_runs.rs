use kudos_import::engine::Action;
use kudos_import::engine::Engine;
use kudos_import::engine::Error;
use kudos_import::engine::Event;
use kudos_import::engine::Phase;
use kudos_import::types::Payload;
use kudos_import::types::ProjectAttributes;
use kudos_import::types::RemoteIssue;
use kudos_import::types::RemoteLabel;
use kudos_import::types::Repository;

fn repo(label: &str, url: &str) -> Repository {
    Repository { label: label.to_string(), url: url.to_string() }
}

fn payload(
    secret: &str,
    repos_to_add: Vec<Repository>,
    repos_to_remove: Vec<Repository>,
    attributes: Option<ProjectAttributes>,
) -> Payload {
    Payload {
        secret: secret.to_string(),
        project_slug: "demo".to_string(),
        project_name: "Demo".to_string(),
        repos_to_add,
        repos_to_remove,
        attributes,
    }
}

fn issue(number: u64, title: &str, labels: Vec<&str>, pull_request: bool) -> RemoteIssue {
    RemoteIssue {
        number,
        title: title.to_string(),
        html_url: format!("https://example.net/{}", number),
        created_at: "2024-01-02T03:04:05Z".to_string(),
        updated_at: "2024-01-03T03:04:05Z".to_string(),
        user_login: "someone".to_string(),
        labels: labels.into_iter().map(|n| RemoteLabel { name: n.to_string() }).collect(),
        pull_request,
    }
}

#[test]
fn add_one_repository_imports_non_pull_requests() {
    let p = payload(
        "s3cr3t",
        vec![repo("x", "https://github.com/foo/bar")],
        vec![],
        None,
    );
    let mut engine = Engine::new(p, "s3cr3t".to_string());
    let a = engine.step(Event::Started);
    assert_eq!(
        a,
        Action::LookupProject { name: "Demo".to_string(), slug: "demo".to_string() }
    );
    let a = engine.step(Event::ProjectFound { project_id: 7 });
    assert_eq!(a, Action::InsertRepository { slug: "x".to_string(), project_id: 7 });
    let a = engine.step(Event::RepositoryInserted { repository_id: 42 });
    assert_eq!(
        a,
        Action::FetchIssues { owner: "foo".to_string(), name: "bar".to_string() }
    );
    let fetched = vec![
        issue(1, "first", vec!["bug"], false),
        issue(2, "a pull request", vec![], true),
        issue(3, "third", vec!["good first issue", "help wanted"], false),
    ];
    let a = engine.step(Event::IssuesFetched { issues: fetched });
    match a {
        Action::InsertIssues { query, issues, repository_id } => {
            assert_eq!(
                query,
                "INSERT INTO issues (number, title, labels, repository_id, issue_created_at) \
                 VALUES ($1, $2, $3, $4, $5), ($6, $7, $8, $9, $10)"
            );
            assert_eq!(repository_id, 42);
            assert_eq!(issues.len(), 2);
            assert_eq!(issues[0].number, 1);
            assert_eq!(issues[0].title, "first");
            assert_eq!(issues[0].labels, vec!["bug".to_string()]);
            assert_eq!(issues[1].number, 3);
            assert_eq!(
                issues[1].labels,
                vec!["good first issue".to_string(), "help wanted".to_string()]
            );
        }
        other => panic!("expected an issue insert, got {:?}", other),
    }
    let a = engine.step(Event::IssuesInserted { rows_inserted: 2 });
    assert_eq!(a, Action::Finish { total: 2 });
    assert_eq!(engine.phase, Phase::Done);
}

#[test]
fn remove_one_repository_finishes_with_zero() {
    let p = payload(
        "s3cr3t",
        vec![],
        vec![repo("baz", "https://github.com/foo/baz")],
        None,
    );
    let mut engine = Engine::new(p, "s3cr3t".to_string());
    let a = engine.step(Event::Started);
    assert_eq!(
        a,
        Action::LookupProject { name: "Demo".to_string(), slug: "demo".to_string() }
    );
    let a = engine.step(Event::ProjectFound { project_id: 1 });
    assert_eq!(
        a,
        Action::DeleteRepository { url: "https://github.com/foo/baz".to_string() }
    );
    // The store cascades the repository's issues away; the engine only sees
    // that the delete completed.
    let a = engine.step(Event::RepositoryDeleted { rows_deleted: 1 });
    assert_eq!(a, Action::Finish { total: 0 });
}

#[test]
fn removing_a_missing_repository_is_not_an_error() {
    let p = payload(
        "s3cr3t",
        vec![],
        vec![
            repo("gone", "https://github.com/foo/gone"),
            repo("baz", "https://github.com/foo/baz"),
        ],
        None,
    );
    let mut engine = Engine::new(p, "s3cr3t".to_string());
    engine.step(Event::Started);
    let a = engine.step(Event::ProjectFound { project_id: 1 });
    assert_eq!(
        a,
        Action::DeleteRepository { url: "https://github.com/foo/gone".to_string() }
    );
    // Zero matched rows is handled exactly like any other count.
    let a = engine.step(Event::RepositoryDeleted { rows_deleted: 0 });
    assert_eq!(
        a,
        Action::DeleteRepository { url: "https://github.com/foo/baz".to_string() }
    );
    let a = engine.step(Event::RepositoryDeleted { rows_deleted: 1 });
    assert_eq!(a, Action::Finish { total: 0 });
}

#[test]
fn secret_mismatch_fails_before_any_storage_action() {
    let p = payload("wrong", vec![repo("x", "https://github.com/foo/bar")], vec![], None);
    let mut engine = Engine::new(p, "s3cr3t".to_string());
    let a = engine.step(Event::Started);
    assert_eq!(a, Action::Fail { error: Error::AuthError });
    assert_eq!(engine.phase, Phase::Failed);
}

#[test]
fn empty_additions_short_circuit_with_zero_total() {
    let attributes = ProjectAttributes {
        purposes: vec!["defi".to_string()],
        stack_levels: vec!["protocol".to_string()],
        technologies: vec!["rust".to_string()],
        types: vec!["library".to_string()],
    };
    let p = payload(
        "s3cr3t",
        vec![],
        vec![repo("old", "https://github.com/foo/old")],
        Some(attributes),
    );
    let mut engine = Engine::new(p, "s3cr3t".to_string());
    engine.step(Event::Started);
    let a = engine.step(Event::ProjectFound { project_id: 9 });
    match a {
        Action::UpdateAttributes { project_id, attributes } => {
            assert_eq!(project_id, 9);
            assert_eq!(attributes.purposes, vec!["defi".to_string()]);
            assert_eq!(attributes.stack_levels, vec!["protocol".to_string()]);
            assert_eq!(attributes.technologies, vec!["rust".to_string()]);
            assert_eq!(attributes.types, vec!["library".to_string()]);
        }
        other => panic!("expected an attribute update, got {:?}", other),
    }
    let a = engine.step(Event::AttributesUpdated);
    assert_eq!(
        a,
        Action::DeleteRepository { url: "https://github.com/foo/old".to_string() }
    );
    // No addition is requested: the run finishes at once with total 0.
    let a = engine.step(Event::RepositoryDeleted { rows_deleted: 1 });
    assert_eq!(a, Action::Finish { total: 0 });
}

#[test]
fn null_attributes_perform_no_update() {
    let p = payload("s3cr3t", vec![], vec![], None);
    let mut engine = Engine::new(p, "s3cr3t".to_string());
    engine.step(Event::Started);
    // With no attributes, no removals and no additions the engine goes
    // straight from the lookup to the finish.
    let a = engine.step(Event::ProjectFound { project_id: 3 });
    assert_eq!(a, Action::Finish { total: 0 });
}

#[test]
fn project_not_found_aborts_the_request() {
    let p = payload("s3cr3t", vec![repo("x", "https://github.com/foo/bar")], vec![], None);
    let mut engine = Engine::new(p, "s3cr3t".to_string());
    engine.step(Event::Started);
    let a = engine.step(Event::ProjectNotFound);
    assert_eq!(a, Action::Fail { error: Error::NotFoundError });
}

#[test]
fn unparsable_url_aborts_the_request() {
    let p = payload("s3cr3t", vec![repo("x", "nonsense")], vec![], None);
    let mut engine = Engine::new(p, "s3cr3t".to_string());
    engine.step(Event::Started);
    let a = engine.step(Event::ProjectFound { project_id: 7 });
    assert_eq!(a, Action::Fail { error: Error::ParseError });
}

#[test]
fn upstream_failure_aborts_the_request() {
    let p = payload("s3cr3t", vec![repo("x", "https://github.com/foo/bar")], vec![], None);
    let mut engine = Engine::new(p, "s3cr3t".to_string());
    engine.step(Event::Started);
    engine.step(Event::ProjectFound { project_id: 7 });
    engine.step(Event::RepositoryInserted { repository_id: 42 });
    let a = engine.step(Event::UpstreamFailed);
    assert_eq!(a, Action::Fail { error: Error::UpstreamError });
}

#[test]
fn storage_failure_aborts_the_request() {
    let p = payload("s3cr3t", vec![], vec![repo("baz", "https://github.com/foo/baz")], None);
    let mut engine = Engine::new(p, "s3cr3t".to_string());
    engine.step(Event::Started);
    engine.step(Event::ProjectFound { project_id: 1 });
    let a = engine.step(Event::StorageFailed);
    assert_eq!(a, Action::Fail { error: Error::StorageError });
}

#[test]
fn readded_repository_is_deleted_before_it_is_recreated() {
    let p = payload(
        "s3cr3t",
        vec![repo("bar", "https://github.com/foo/bar")],
        vec![repo("bar", "https://github.com/foo/bar")],
        None,
    );
    let mut engine = Engine::new(p, "s3cr3t".to_string());
    engine.step(Event::Started);
    // The removal comes first, so no stale issues survive under the old row.
    let a = engine.step(Event::ProjectFound { project_id: 7 });
    assert_eq!(
        a,
        Action::DeleteRepository { url: "https://github.com/foo/bar".to_string() }
    );
    let a = engine.step(Event::RepositoryDeleted { rows_deleted: 1 });
    assert_eq!(a, Action::InsertRepository { slug: "bar".to_string(), project_id: 7 });
    engine.step(Event::RepositoryInserted { repository_id: 50 });
    let a = engine.step(Event::IssuesFetched { issues: vec![] });
    assert_eq!(a, Action::Finish { total: 0 });
}

#[test]
fn page_of_only_pull_requests_contributes_zero() {
    let p = payload(
        "s3cr3t",
        vec![
            repo("x", "https://github.com/foo/bar"),
            repo("y", "https://github.com/foo/qux"),
        ],
        vec![],
        None,
    );
    let mut engine = Engine::new(p, "s3cr3t".to_string());
    engine.step(Event::Started);
    engine.step(Event::ProjectFound { project_id: 7 });
    engine.step(Event::RepositoryInserted { repository_id: 41 });
    // Every fetched entry is a pull request: no insert is issued and the
    // engine moves on to the next repository.
    let a = engine.step(Event::IssuesFetched {
        issues: vec![issue(1, "pr", vec![], true), issue(2, "pr too", vec![], true)],
    });
    assert_eq!(a, Action::InsertRepository { slug: "y".to_string(), project_id: 7 });
    engine.step(Event::RepositoryInserted { repository_id: 43 });
    let a = engine.step(Event::IssuesFetched { issues: vec![issue(5, "real", vec![], false)] });
    match a {
        Action::InsertIssues { query, issues, repository_id } => {
            assert_eq!(
                query,
                "INSERT INTO issues (number, title, labels, repository_id, issue_created_at) \
                 VALUES ($1, $2, $3, $4, $5)"
            );
            assert_eq!(repository_id, 43);
            assert_eq!(issues.len(), 1);
        }
        other => panic!("expected an issue insert, got {:?}", other),
    }
    let a = engine.step(Event::IssuesInserted { rows_inserted: 1 });
    assert_eq!(a, Action::Finish { total: 1 });
}
