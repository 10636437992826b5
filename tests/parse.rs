use bounty::{ParseError, RepoIssue};

fn issue(owner: &str, repo: &str, issue_number: u64) -> RepoIssue {
    RepoIssue { owner: owner.to_string(), repo: repo.to_string(), issue_number }
}

#[test]
fn test_parse_full_url() {
    let input = "https://github.com/ghbountybot/cli/issues/2";
    let result = RepoIssue::parse(input).unwrap();
    assert_eq!(result, issue("ghbountybot", "cli", 2));
}

#[test]
fn test_parse_domain_url() {
    let input = "github.com/ghbountybot/cli/issues/2";
    let result = RepoIssue::parse(input).unwrap();
    assert_eq!(result, issue("ghbountybot", "cli", 2));
}

#[test]
fn test_parse_path_only() {
    let input = "ghbountybot/cli/issues/2";
    let result = RepoIssue::parse(input).unwrap();
    assert_eq!(result, issue("ghbountybot", "cli", 2));
}

#[test]
fn test_parse_short_form() {
    let input = "ghbountybot/cli/2";
    let result = RepoIssue::parse(input).unwrap();
    assert_eq!(result, issue("ghbountybot", "cli", 2));
}

#[test]
fn test_parse_issue_reference() {
    let input = "ghbountybot/cli#2";
    let result = RepoIssue::parse(input).unwrap();
    assert_eq!(result, issue("ghbountybot", "cli", 2));
}

#[test]
fn test_parse_invalid_input() {
    let inputs = [
        "not-a-url",
        "ghbountybot",
        "ghbountybot/",
        "ghbountybot/cli",
        "ghbountybot/cli/",
        "ghbountybot/cli/issues",
        "ghbountybot/cli/issues/",
        "ghbountybot/cli/issues/abc",
    ];

    for input in inputs {
        assert!(RepoIssue::parse(input).is_err(), "Expected error for input: {input}");
    }
}

#[test]
fn five_forms_give_one_issue() {
    let forms = [
        "https://github.com/acme/widgets/issues/7",
        "github.com/acme/widgets/issues/7",
        "acme/widgets/issues/7",
        "acme/widgets/7",
        "acme/widgets#7",
    ];
    for form in forms {
        assert_eq!(RepoIssue::parse(form).unwrap(), issue("acme", "widgets", 7), "{form}");
    }
}

#[test]
fn incomplete_references_are_invalid() {
    for input in ["acme", "acme/widgets", "acme/widgets/issues/", "acme/widgets/issues/abc", ""] {
        assert_eq!(RepoIssue::parse(input), Err(ParseError::InvalidReference), "{input}");
    }
}

#[test]
fn domain_form_without_issue_is_invalid() {
    assert_eq!(RepoIssue::parse("github.com/acme"), Err(ParseError::InvalidReference));
}

#[test]
fn url_with_other_path_is_invalid() {
    assert_eq!(
        RepoIssue::parse("https://github.com/acme/widgets/pulls"),
        Err(ParseError::InvalidReference)
    );
}

#[test]
fn issue_number_too_large() {
    assert_eq!(
        RepoIssue::parse("acme/widgets#18446744073709551616"),
        Err(ParseError::IssueNumberTooLarge)
    );
    assert_eq!(
        RepoIssue::parse("acme/widgets#18446744073709551615").unwrap(),
        issue("acme", "widgets", u64::MAX)
    );
}

#[test]
fn owner_and_repo_may_not_hold_hash() {
    assert_eq!(RepoIssue::parse("a#b/c#3"), Err(ParseError::InvalidReference));
    assert_eq!(RepoIssue::parse("a#b/c/3"), Err(ParseError::InvalidReference));
    assert!(RepoIssue::parse("a/b#c#3").is_err());
}

#[test]
fn trailing_text_is_invalid() {
    assert!(RepoIssue::parse("acme/widgets#7x").is_err());
    assert!(RepoIssue::parse("acme/widgets/issues/7/").is_err());
    assert!(RepoIssue::parse("acme/widgets/extra/7").is_err());
}

#[test]
fn leading_zeros_are_read() {
    assert_eq!(RepoIssue::parse("acme/widgets/007").unwrap(), issue("acme", "widgets", 7));
}

#[test]
fn from_path_reads_each_separator() {
    assert_eq!(RepoIssue::from_path("o/r/issues/12").unwrap(), issue("o", "r", 12));
    assert_eq!(RepoIssue::from_path("o/r/12").unwrap(), issue("o", "r", 12));
    assert_eq!(RepoIssue::from_path("o/r#12").unwrap(), issue("o", "r", 12));
    assert_eq!(RepoIssue::from_path("/o/r#12"), Err(ParseError::InvalidReference));
}

#[test]
fn from_url_path_drops_leading_slashes() {
    assert_eq!(RepoIssue::from_url_path("//o/r/issues/5").unwrap(), issue("o", "r", 5));
}

#[test]
fn full_repo_name_joins_owner_and_repo() {
    assert_eq!(issue("acme", "widgets", 7).full_repo_name(), "acme/widgets");
}

#[test]
fn issue_number_zero_is_invalid() {
    assert_eq!(RepoIssue::parse("a/b#0"), Err(ParseError::InvalidReference));
    assert_eq!(RepoIssue::parse("acme/widgets/000"), Err(ParseError::InvalidReference));
    assert_eq!(RepoIssue::parse("https://github.com/acme/widgets/issues/0"), Err(ParseError::InvalidReference));
}
