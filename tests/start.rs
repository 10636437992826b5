use bounty::{ErrorKind, Outcome, RepoIssue, StartFlow, Step};

/// A forge and local repository that answer each step as its operation says.
struct FakeWorld {
    branches: Vec<String>,
    /// Commit messages of the issue branch above its start, oldest first.
    commits_on_branch: Vec<String>,
    pull_requests: Vec<(String, String)>,
    forks: usize,
    commits: usize,
    pushes: Vec<String>,
    base: Option<String>,
}

impl FakeWorld {
    fn new() -> Self {
        FakeWorld {
            branches: Vec::new(),
            commits_on_branch: Vec::new(),
            pull_requests: Vec::new(),
            forks: 0,
            commits: 0,
            pushes: Vec::new(),
            base: Some("develop".to_string()),
        }
    }

    fn perform(&mut self, flow: &StartFlow, step: Step) -> Outcome {
        match step {
            Step::Fork => {
                if self.forks == 0 {
                    self.forks = 1;
                }
                Outcome::Forked("octo-bot".to_string())
            }
            Step::OpenWorkspace => Outcome::Done,
            Step::FindBranch => {
                if self.branches.contains(&flow.branch_name()) {
                    let tip = self.commits_on_branch.last().cloned().unwrap_or_else(|| "Initial commit".to_string());
                    Outcome::BranchFound(Some(tip))
                } else {
                    Outcome::BranchFound(None)
                }
            }
            Step::CreateBranch => {
                self.branches.push(flow.branch_name());
                self.commits_on_branch.clear();
                Outcome::Done
            }
            Step::Checkout => Outcome::Done,
            Step::CommitMarker => {
                self.commits += 1;
                if flow.amend_marker() {
                    self.commits_on_branch.pop();
                }
                self.commits_on_branch.push(flow.commit_message());
                Outcome::Done
            }
            Step::Push => {
                self.pushes.push(flow.push_refspec());
                Outcome::Done
            }
            Step::GetDefaultBranch => Outcome::DefaultBranch(self.base.clone()),
            Step::FindPullRequest => {
                let head = flow.pull_request_head();
                Outcome::PullRequest(
                    self.pull_requests.iter().find(|(h, _)| *h == head).map(|(_, u)| u.clone()),
                )
            }
            Step::CreatePullRequest => {
                let url = format!("https://github.com/octo/demo/pull/{}", self.pull_requests.len() + 100);
                self.pull_requests.push((flow.pull_request_head(), url.clone()));
                Outcome::Created(url)
            }
            Step::Finished | Step::Failed => Outcome::Done,
        }
    }

    fn run(&mut self, issue: &RepoIssue) -> StartFlow {
        let mut flow = StartFlow::new(issue);
        let mut step = flow.step();
        while step != Step::Finished && step != Step::Failed {
            let outcome = self.perform(&flow, step);
            step = flow.advance(outcome);
        }
        flow
    }
}

#[test]
fn end_to_end_creates_draft_pull_request() {
    let issue = RepoIssue::parse("octo/demo#42").unwrap();
    let mut flow = StartFlow::new(&issue);
    assert_eq!(flow.step(), Step::Fork);
    assert_eq!(flow.advance(Outcome::Forked("octo-bot".to_string())), Step::OpenWorkspace);
    assert_eq!(flow.clone_url(), "https://github.com/octo-bot/demo.git");
    assert_eq!(flow.repo(), "demo");
    assert_eq!(flow.advance(Outcome::Done), Step::FindBranch);
    assert_eq!(flow.branch_name(), "issue-42");
    assert_eq!(flow.advance(Outcome::BranchFound(None)), Step::CreateBranch);
    assert!(!flow.amend_marker());
    assert_eq!(flow.advance(Outcome::Done), Step::Checkout);
    assert_eq!(flow.advance(Outcome::Done), Step::CommitMarker);
    assert_eq!(flow.marker_file(), ".bounty");
    assert_eq!(flow.marker_content(), "Work on issue #42 has started.\n");
    assert_eq!(flow.commit_message(), "Start work on bounty for issue #42");
    assert_eq!(flow.advance(Outcome::Done), Step::Push);
    assert_eq!(flow.push_refspec(), "+refs/heads/issue-42:refs/heads/issue-42");
    assert_eq!(flow.advance(Outcome::Done), Step::GetDefaultBranch);
    assert_eq!(flow.advance(Outcome::DefaultBranch(Some("trunk".to_string()))), Step::FindPullRequest);
    assert_eq!(flow.pull_request_head(), "octo-bot:issue-42");
    assert_eq!(flow.advance(Outcome::PullRequest(None)), Step::CreatePullRequest);
    assert_eq!(flow.base_branch(), "trunk");
    assert_eq!(flow.pull_request_title(), "Resolves: #42");
    assert!(flow.pull_request_title().contains("42"));
    assert!(flow.pull_request_body().starts_with("This pull request resolves issue #42."));
    let created = "https://github.com/octo/demo/pull/9".to_string();
    assert_eq!(flow.advance(Outcome::Created(created.clone())), Step::Finished);
    assert_eq!(flow.issue_url(), "https://github.com/octo/demo/issues/42");
    assert!(flow.issue_url().contains("issues/42"));
    assert_eq!(flow.branch_url(), "https://github.com/octo-bot/demo/tree/issue-42");
    assert_eq!(flow.pull_request_url(), &created);
}

#[test]
fn existing_branch_and_pull_request_are_reused() {
    let issue = RepoIssue::parse("octo/demo#42").unwrap();
    let mut flow = StartFlow::new(&issue);
    flow.advance(Outcome::Forked("octo-bot".to_string()));
    flow.advance(Outcome::Done);
    assert_eq!(
        flow.advance(Outcome::BranchFound(Some("Start work on bounty for issue #42".to_string()))),
        Step::Checkout
    );
    assert!(flow.amend_marker());
    flow.advance(Outcome::Done);
    flow.advance(Outcome::Done);
    flow.advance(Outcome::Done);
    flow.advance(Outcome::DefaultBranch(None));
    assert_eq!(flow.base_branch(), "main");
    let existing = "https://github.com/octo/demo/pull/3".to_string();
    assert_eq!(flow.advance(Outcome::PullRequest(Some(existing.clone()))), Step::Finished);
    assert_eq!(flow.pull_request_url(), &existing);
}

#[test]
fn second_run_creates_nothing_new() {
    let issue = RepoIssue::parse("octo/demo#42").unwrap();
    let mut world = FakeWorld::new();
    let first = world.run(&issue);
    assert_eq!(first.step(), Step::Finished);
    assert_eq!(world.branches, vec!["issue-42".to_string()]);
    assert_eq!(world.pull_requests.len(), 1);
    let second = world.run(&issue);
    assert_eq!(second.step(), Step::Finished);
    assert_eq!(world.branches, vec!["issue-42".to_string()]);
    assert_eq!(world.pull_requests.len(), 1);
    assert_eq!(world.forks, 1);
    assert_eq!(second.pull_request_url(), first.pull_request_url());
    assert_eq!(first.base_branch(), "develop");
}

#[test]
fn rerun_pushes_with_force() {
    let issue = RepoIssue::parse("octo/demo#42").unwrap();
    let mut world = FakeWorld::new();
    world.run(&issue);
    world.run(&issue);
    assert_eq!(world.commits, 2);
    assert_eq!(world.commits_on_branch, vec!["Start work on bounty for issue #42".to_string()]);
    assert_eq!(world.pushes.len(), 2);
    for refspec in &world.pushes {
        assert!(refspec.starts_with('+'));
    }
}

#[test]
fn branch_with_other_work_gets_marker_on_top() {
    let issue = RepoIssue::parse("octo/demo#42").unwrap();
    let mut flow = StartFlow::new(&issue);
    flow.advance(Outcome::Forked("octo-bot".to_string()));
    flow.advance(Outcome::Done);
    assert_eq!(flow.advance(Outcome::BranchFound(Some("Fix parser".to_string()))), Step::Checkout);
    assert!(!flow.amend_marker());
}

#[test]
fn pull_request_body_text() {
    let issue = RepoIssue::parse("octo/demo#42").unwrap();
    let flow = StartFlow::new(&issue);
    let body = flow.pull_request_body();
    assert!(body.starts_with("This pull request resolves issue #42.\n\nWork in progress \u{1F6A7}\n\n## Bounty Guidelines:\n"));
    assert!(body.ends_with("give feedback.\n\nHappy coding! \u{1F389}"));
}

#[test]
fn remote_failure_is_wrapped_with_its_step() {
    let issue = RepoIssue::parse("octo/demo#42").unwrap();
    let mut flow = StartFlow::new(&issue);
    assert_eq!(flow.advance(Outcome::Failed("403".to_string())), Step::Failed);
    assert_eq!(flow.failed_step(), Step::Fork);
    assert_eq!(flow.failure_kind(), ErrorKind::RemoteApi);
    assert_eq!(flow.failure(), "403");
    assert_eq!(flow.advance(Outcome::Done), Step::Failed);
}

#[test]
fn local_failure_is_wrapped_with_its_step() {
    let issue = RepoIssue::parse("octo/demo#42").unwrap();
    let mut flow = StartFlow::new(&issue);
    flow.advance(Outcome::Forked("octo-bot".to_string()));
    flow.advance(Outcome::Done);
    flow.advance(Outcome::BranchFound(None));
    flow.advance(Outcome::Done);
    flow.advance(Outcome::Done);
    flow.advance(Outcome::Done);
    assert_eq!(flow.step(), Step::Push);
    assert_eq!(flow.advance(Outcome::Failed("rejected".to_string())), Step::Failed);
    assert_eq!(flow.failed_step(), Step::Push);
    assert_eq!(flow.failure_kind(), ErrorKind::LocalRepository);
}

#[test]
fn unexpected_outcome_ends_the_run() {
    let issue = RepoIssue::parse("octo/demo#42").unwrap();
    let mut flow = StartFlow::new(&issue);
    assert_eq!(flow.advance(Outcome::Done), Step::Failed);
    assert_eq!(flow.failure_kind(), ErrorKind::UnexpectedOutcome);
    assert_eq!(flow.failed_step(), Step::Fork);
}

#[test]
fn decimal_rendering() {
    assert_eq!(bounty::text::decimal_string(0), "0");
    assert_eq!(bounty::text::decimal_string(1090), "1090");
    assert_eq!(bounty::text::decimal_string(u64::MAX), "18446744073709551615");
}
