use kudos_import::query::issues_insert_query;
use kudos_import::query::placeholders;
use kudos_import::types::Repository;

#[test]
fn one_row_of_five_placeholders() {
    assert_eq!(placeholders(1, 5), "($1, $2, $3, $4, $5)");
}

#[test]
fn rows_are_numbered_in_five_wide_blocks() {
    assert_eq!(
        placeholders(3, 5),
        "($1, $2, $3, $4, $5), ($6, $7, $8, $9, $10), ($11, $12, $13, $14, $15)"
    );
}

#[test]
fn zero_rows_yield_empty_text() {
    assert_eq!(placeholders(0, 5), "");
}

#[test]
fn other_widths_are_numbered_positionally() {
    assert_eq!(placeholders(2, 3), "($1, $2, $3), ($4, $5, $6)");
}

#[test]
fn insert_statement_covers_all_rows() {
    assert_eq!(
        issues_insert_query(2),
        "INSERT INTO issues (number, title, labels, repository_id, issue_created_at) \
         VALUES ($1, $2, $3, $4, $5), ($6, $7, $8, $9, $10)"
    );
}

#[test]
fn repository_insert_statement_returns_the_generated_id() {
    let repo = Repository {
        label: "x".to_string(),
        url: "https://github.com/foo/bar".to_string(),
    };
    let text = repo.insert_respository_query();
    assert!(text.contains("INSERT INTO repositories (slug, project_id)"));
    assert!(text.contains("VALUES ($1, $2)"));
    assert!(text.contains("RETURNING id;"));
}
