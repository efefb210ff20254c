use kudos_import::types::KudosIssue;
use kudos_import::types::RemoteIssue;
use kudos_import::types::RemoteLabel;
use kudos_import::types::filter_issues;

fn remote(number: u64, title: &str, labels: Vec<&str>, pull_request: bool) -> RemoteIssue {
    RemoteIssue {
        number,
        title: title.to_string(),
        html_url: format!("https://example.net/{}", number),
        created_at: "2023-05-06T07:08:09Z".to_string(),
        updated_at: "2023-05-07T07:08:09Z".to_string(),
        user_login: "author".to_string(),
        labels: labels.into_iter().map(|n| RemoteLabel { name: n.to_string() }).collect(),
        pull_request,
    }
}

#[test]
fn fields_map_directly_and_labels_keep_their_order() {
    let record = KudosIssue::from(remote(12, "a title", vec!["beta", "alpha"], false));
    assert_eq!(record.number, 12);
    assert_eq!(record.title, "a title");
    assert_eq!(record.html_url, "https://example.net/12");
    assert_eq!(record.issue_created_at, "2023-05-06T07:08:09Z");
    assert_eq!(record.issue_updated_at, "2023-05-07T07:08:09Z");
    assert_eq!(record.user, "author");
    assert_eq!(record.labels, vec!["beta".to_string(), "alpha".to_string()]);
}

#[test]
fn pull_requests_are_skipped_and_order_is_preserved() {
    let page = vec![
        remote(1, "keep one", vec![], false),
        remote(2, "skip", vec![], true),
        remote(3, "keep two", vec!["x"], false),
        remote(4, "skip too", vec!["y"], true),
    ];
    let filtered = filter_issues(page);
    assert_eq!(filtered.len(), 2);
    assert_eq!(filtered[0].number, 1);
    assert_eq!(filtered[0].title, "keep one");
    assert_eq!(filtered[1].number, 3);
    assert_eq!(filtered[1].labels, vec!["x".to_string()]);
}

#[test]
fn a_page_of_pull_requests_filters_to_nothing() {
    let page = vec![remote(1, "pr", vec![], true), remote(2, "pr", vec![], true)];
    assert!(filter_issues(page).is_empty());
}

#[test]
fn an_empty_page_filters_to_nothing() {
    assert!(filter_issues(Vec::new()).is_empty());
}
