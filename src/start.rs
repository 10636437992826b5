//! The bounty-start workflow as a state machine: the caller performs each
//! step (a call to the forge or to the local repository) and hands back its
//! outcome; the workflow decides the next step, and builds every name, URL
//! and text that the steps use.
use vstd::prelude::*;
use crate::parse::RepoIssue;
use crate::text::{decimal_string, decimal_text, opt_seq};

verus! {

/// The step that the caller is to perform next, or how the run ended.
#[derive(Debug, Clone, Copy, PartialEq, Eq, Structural)]
pub enum Step {
    /// Fork `owner/repo`; answer `Forked` with the fork owner's login.
    Fork,
    /// Open the local repository in the directory named `repo` under the
    /// current directory, or clone `clone_url` there; answer `Done`.
    OpenWorkspace,
    /// Look up the local branch `branch_name`; answer `BranchFound` with the
    /// message of its last commit, or with `None` where it does not exist.
    FindBranch,
    /// Create the branch `branch_name` at HEAD; answer `Done`.
    CreateBranch,
    /// Check out `branch_name`; answer `Done`.
    Checkout,
    /// Write `marker_content` to `marker_file`, stage it and commit it with
    /// `commit_message`, amending the branch's last commit where
    /// `amend_marker` says so; answer `Done`.
    CommitMarker,
    /// Push `push_refspec` to `origin`; answer `Done`.
    Push,
    /// Fetch the upstream repository's default branch; answer `DefaultBranch`.
    GetDefaultBranch,
    /// Search the open pull requests with head `pull_request_head`; answer
    /// `PullRequest`.
    FindPullRequest,
    /// Create a draft pull request; answer `Created` with its URL.
    CreatePullRequest,
    /// The run is over: `issue_url`, `branch_url` and `pull_request_url` are
    /// to be reported.
    Finished,
    /// The run failed at `failed_step`.
    Failed,
}

/// The kind of a failure that ends a run.
#[derive(Debug, Clone, Copy, PartialEq, Eq, Structural)]
pub enum ErrorKind {
    /// A call to the forge failed.
    RemoteApi,
    /// An operation on the local repository failed.
    LocalRepository,
    /// The outcome handed in does not answer the pending step.
    UnexpectedOutcome,
}

/// What came of the step that the caller performed.
pub enum Outcome {
    /// The fork exists; its owner's login.
    Forked(String),
    /// The step succeeded and has nothing to report.
    Done,
    /// The message of the branch's last commit, where the branch exists.
    BranchFound(Option<String>),
    /// The upstream repository's default branch, where the forge names one.
    DefaultBranch(Option<String>),
    /// The URL of the first open pull request with the head searched for.
    PullRequest(Option<String>),
    /// The URL of the pull request just created.
    Created(String),
    /// The step failed, with the reason.
    Failed(String),
}

/// An outcome with its texts as sequences of characters.
pub enum Event {
    Forked(Seq<char>),
    Done,
    BranchFound(Option<Seq<char>>),
    DefaultBranch(Option<Seq<char>>),
    PullRequest(Option<Seq<char>>),
    Created(Seq<char>),
    Failed(Seq<char>),
}

impl View for Outcome {
    type V = Event;

    open spec fn view(&self) -> Event {
        match self {
            Outcome::Forked(s) => Event::Forked(s@),
            Outcome::Done => Event::Done,
            Outcome::BranchFound(m) => Event::BranchFound(opt_seq(*m)),
            Outcome::DefaultBranch(b) => Event::DefaultBranch(opt_seq(*b)),
            Outcome::PullRequest(u) => Event::PullRequest(opt_seq(*u)),
            Outcome::Created(u) => Event::Created(u@),
            Outcome::Failed(m) => Event::Failed(m@),
        }
    }
}

/// The state of a run.
pub struct FlowState {
    pub owner: Seq<char>,
    pub repo: Seq<char>,
    pub issue_number: u64,
    pub step: Step,
    pub fork_owner: Seq<char>,
    pub base: Seq<char>,
    pub pr_url: Seq<char>,
    pub amend: bool,
    pub failed_step: Step,
    pub failure_kind: ErrorKind,
    pub failure: Seq<char>,
}

/// One run of the workflow for one issue.
pub struct StartFlow {
    owner: String,
    repo: String,
    issue_number: u64,
    step: Step,
    fork_owner: String,
    base: String,
    pr_url: String,
    amend: bool,
    failed_step: Step,
    failure_kind: ErrorKind,
    failure: String,
}

impl View for StartFlow {
    type V = FlowState;

    closed spec fn view(&self) -> FlowState {
        FlowState {
            owner: self.owner@,
            repo: self.repo@,
            issue_number: self.issue_number,
            step: self.step,
            fork_owner: self.fork_owner@,
            base: self.base@,
            pr_url: self.pr_url@,
            amend: self.amend,
            failed_step: self.failed_step,
            failure_kind: self.failure_kind,
            failure: self.failure@,
        }
    }
}

/// The state in which a run for `owner/repo#issue_number` starts.
pub open spec fn initial(owner: Seq<char>, repo: Seq<char>, issue_number: u64) -> FlowState {
    FlowState {
        owner,
        repo,
        issue_number,
        step: Step::Fork,
        fork_owner: Seq::empty(),
        base: Seq::empty(),
        pr_url: Seq::empty(),
        amend: false,
        failed_step: Step::Fork,
        failure_kind: ErrorKind::UnexpectedOutcome,
        failure: Seq::empty(),
    }
}

/// Whether a step is a call to the forge (else it works on the local repository).
pub open spec fn is_remote(step: Step) -> bool {
    step == Step::Fork || step == Step::GetDefaultBranch || step == Step::FindPullRequest
        || step == Step::CreatePullRequest
}

/// Whether a run is over.
pub open spec fn is_over(step: Step) -> bool {
    step == Step::Finished || step == Step::Failed
}

/// The branch used when the forge names no default branch.
pub open spec fn fallback_base() -> Seq<char> {
    "main"@
}

/// The run ended at its pending step, with a failure of the given kind.
pub open spec fn failed(s: FlowState, kind: ErrorKind, reason: Seq<char>) -> FlowState {
    FlowState { step: Step::Failed, failed_step: s.step, failure_kind: kind, failure: reason, ..s }
}

/// Where a run goes when the pending step comes back with `e`. A failure
/// ends the run with the step's kind; an outcome that does not answer the
/// step ends it as unexpected; a run that is over stays as it is.
pub open spec fn next(s: FlowState, e: Event) -> FlowState {
    if is_over(s.step) {
        s
    } else {
        match e {
            Event::Failed(m) => failed(
                s,
                if is_remote(s.step) { ErrorKind::RemoteApi } else { ErrorKind::LocalRepository },
                m,
            ),
            Event::Forked(login) => if s.step == Step::Fork {
                FlowState { step: Step::OpenWorkspace, fork_owner: login, ..s }
            } else {
                failed(s, ErrorKind::UnexpectedOutcome, Seq::empty())
            },
            Event::Done => if s.step == Step::OpenWorkspace {
                FlowState { step: Step::FindBranch, ..s }
            } else if s.step == Step::CreateBranch {
                FlowState { step: Step::Checkout, ..s }
            } else if s.step == Step::Checkout {
                FlowState { step: Step::CommitMarker, ..s }
            } else if s.step == Step::CommitMarker {
                FlowState { step: Step::Push, ..s }
            } else if s.step == Step::Push {
                FlowState { step: Step::GetDefaultBranch, ..s }
            } else {
                failed(s, ErrorKind::UnexpectedOutcome, Seq::empty())
            },
            Event::BranchFound(found) => if s.step == Step::FindBranch {
                match found {
                    Some(message) => FlowState {
                        step: Step::Checkout,
                        amend: message == commit_message_of(s),
                        ..s
                    },
                    None => FlowState { step: Step::CreateBranch, amend: false, ..s },
                }
            } else {
                failed(s, ErrorKind::UnexpectedOutcome, Seq::empty())
            },
            Event::DefaultBranch(b) => if s.step == Step::GetDefaultBranch {
                FlowState {
                    step: Step::FindPullRequest,
                    base: match b {
                        Some(name) => name,
                        None => fallback_base(),
                    },
                    ..s
                }
            } else {
                failed(s, ErrorKind::UnexpectedOutcome, Seq::empty())
            },
            Event::PullRequest(found) => if s.step == Step::FindPullRequest {
                match found {
                    Some(url) => FlowState { step: Step::Finished, pr_url: url, ..s },
                    None => FlowState { step: Step::CreatePullRequest, ..s },
                }
            } else {
                failed(s, ErrorKind::UnexpectedOutcome, Seq::empty())
            },
            Event::Created(url) => if s.step == Step::CreatePullRequest {
                FlowState { step: Step::Finished, pr_url: url, ..s }
            } else {
                failed(s, ErrorKind::UnexpectedOutcome, Seq::empty())
            },
        }
    }
}

/// The local branch that holds the work on the issue: `issue-N`.
pub open spec fn branch_of(s: FlowState) -> Seq<char> {
    "issue-"@ + decimal_text(s.issue_number as nat)
}

/// The clone URL of the fork.
pub open spec fn clone_url_of(s: FlowState) -> Seq<char> {
    "https://github.com/"@ + s.fork_owner + "/"@ + s.repo + ".git"@
}

/// The head of the pull request: `fork_owner:branch`.
pub open spec fn head_of(s: FlowState) -> Seq<char> {
    s.fork_owner + ":"@ + branch_of(s)
}

/// The refspec pushed: the branch onto the fork's branch of the same name,
/// forced by the leading `+`.
pub open spec fn refspec_of(s: FlowState) -> Seq<char> {
    "+refs/heads/"@ + branch_of(s) + ":refs/heads/"@ + branch_of(s)
}

/// The URL of the issue.
pub open spec fn issue_url_of(s: FlowState) -> Seq<char> {
    "https://github.com/"@ + s.owner + "/"@ + s.repo + "/issues/"@ + decimal_text(
        s.issue_number as nat,
    )
}

/// The URL of the branch on the fork.
pub open spec fn branch_url_of(s: FlowState) -> Seq<char> {
    "https://github.com/"@ + s.fork_owner + "/"@ + s.repo + "/tree/"@ + branch_of(s)
}

/// The title of the pull request: `Resolves: #N`.
pub open spec fn title_of(s: FlowState) -> Seq<char> {
    "Resolves: #"@ + decimal_text(s.issue_number as nat)
}

/// The name of the marker file, at the root of the working copy.
pub open spec fn marker_file() -> Seq<char> {
    ".bounty"@
}

/// What the marker file records.
pub open spec fn marker_content_of(s: FlowState) -> Seq<char> {
    "Work on issue #"@ + decimal_text(s.issue_number as nat) + " has started.\n"@
}

/// The message of the marker commit.
pub open spec fn commit_message_of(s: FlowState) -> Seq<char> {
    "Start work on bounty for issue #"@ + decimal_text(s.issue_number as nat)
}

/// The description of the pull request.
pub open spec fn body_of(s: FlowState) -> Seq<char> {
    "This pull request resolves issue #"@ + decimal_text(s.issue_number as nat) + BODY_GUIDELINES@
}

/// The part of the pull request's description that follows its first line.
pub const BODY_GUIDELINES: &'static str = ".\n\nWork in progress 🚧\n\n## Bounty Guidelines:\n- Please post your progress at least once per day\n- This PR will remain in draft status until work is complete\n- Only mark as ready for review when you have finished your work\n- You may be unassigned from this issue if there are no pushes for several days\n\n## Community\n[Join Our Discord](https://discord.gg/jcQpX6jW8u) to connect with other bounty hunters and give feedback.\n\nHappy coding! 🎉";

impl StartFlow {
    /// A run for the given issue; its first step is `Fork`.
    pub fn new(issue: &RepoIssue) -> (r: StartFlow)
        ensures
            r@ == initial(issue.owner@, issue.repo@, issue.issue_number),
    {
        StartFlow {
            owner: issue.owner.clone(),
            repo: issue.repo.clone(),
            issue_number: issue.issue_number,
            step: Step::Fork,
            fork_owner: String::new(),
            base: String::new(),
            pr_url: String::new(),
            amend: false,
            failed_step: Step::Fork,
            failure_kind: ErrorKind::UnexpectedOutcome,
            failure: String::new(),
        }
    }

    fn fail(&mut self, kind: ErrorKind, reason: String)
        ensures
            final(self)@ == failed(old(self)@, kind, reason@),
    {
        self.failed_step = self.step;
        self.failure_kind = kind;
        self.failure = reason;
        self.step = Step::Failed;
    }

    fn unexpected(&mut self)
        ensures
            final(self)@ == failed(old(self)@, ErrorKind::UnexpectedOutcome, Seq::empty()),
    {
        self.fail(ErrorKind::UnexpectedOutcome, String::new());
    }

    /// Hands in the outcome of the pending step and returns the next step.
    pub fn advance(&mut self, outcome: Outcome) -> (r: Step)
        ensures
            final(self)@ == next(old(self)@, outcome@),
            r == final(self)@.step,
    {
        let step = self.step;
        if step == Step::Finished || step == Step::Failed {
            return step;
        }
        match outcome {
            Outcome::Failed(reason) => {
                let remote = step == Step::Fork || step == Step::GetDefaultBranch
                    || step == Step::FindPullRequest || step == Step::CreatePullRequest;
                let kind = if remote {
                    ErrorKind::RemoteApi
                } else {
                    ErrorKind::LocalRepository
                };
                self.fail(kind, reason);
            },
            Outcome::Forked(login) => {
                if step == Step::Fork {
                    self.fork_owner = login;
                    self.step = Step::OpenWorkspace;
                } else {
                    self.unexpected();
                }
            },
            Outcome::Done => {
                if step == Step::OpenWorkspace {
                    self.step = Step::FindBranch;
                } else if step == Step::CreateBranch {
                    self.step = Step::Checkout;
                } else if step == Step::Checkout {
                    self.step = Step::CommitMarker;
                } else if step == Step::CommitMarker {
                    self.step = Step::Push;
                } else if step == Step::Push {
                    self.step = Step::GetDefaultBranch;
                } else {
                    self.unexpected();
                }
            },
            Outcome::BranchFound(found) => {
                if step == Step::FindBranch {
                    match found {
                        Some(message) => {
                            let marker = self.commit_message();
                            self.amend = message == marker;
                            self.step = Step::Checkout;
                        },
                        None => {
                            self.amend = false;
                            self.step = Step::CreateBranch;
                        },
                    }
                } else {
                    self.unexpected();
                }
            },
            Outcome::DefaultBranch(name) => {
                if step == Step::GetDefaultBranch {
                    self.base = match name {
                        Some(b) => b,
                        None => String::from_str("main"),
                    };
                    self.step = Step::FindPullRequest;
                } else {
                    self.unexpected();
                }
            },
            Outcome::PullRequest(found) => {
                if step == Step::FindPullRequest {
                    match found {
                        Some(url) => {
                            self.pr_url = url;
                            self.step = Step::Finished;
                        },
                        None => {
                            self.step = Step::CreatePullRequest;
                        },
                    }
                } else {
                    self.unexpected();
                }
            },
            Outcome::Created(url) => {
                if step == Step::CreatePullRequest {
                    self.pr_url = url;
                    self.step = Step::Finished;
                } else {
                    self.unexpected();
                }
            },
        }
        self.step
    }

    /// The step that the caller is to perform next.
    pub fn step(&self) -> (r: Step)
        ensures
            r == self@.step,
    {
        self.step
    }

    /// The owner of the upstream repository.
    pub fn owner(&self) -> (r: &String)
        ensures
            r@ == self@.owner,
    {
        &self.owner
    }

    /// The name of the upstream repository, and of the working copy's
    /// directory under the current directory.
    pub fn repo(&self) -> (r: &String)
        ensures
            r@ == self@.repo,
    {
        &self.repo
    }

    /// The issue worked on.
    pub fn issue_number(&self) -> (r: u64)
        ensures
            r == self@.issue_number,
    {
        self.issue_number
    }

    /// The login that owns the fork, once `Fork` has been answered.
    pub fn fork_owner(&self) -> (r: &String)
        ensures
            r@ == self@.fork_owner,
    {
        &self.fork_owner
    }

    /// The base branch of the pull request, once the default branch is known.
    pub fn base_branch(&self) -> (r: &String)
        ensures
            r@ == self@.base,
    {
        &self.base
    }

    /// The URL of the pull request, once the run has finished.
    pub fn pull_request_url(&self) -> (r: &String)
        ensures
            r@ == self@.pr_url,
    {
        &self.pr_url
    }

    /// Whether the marker commit replaces the branch's last commit: so it
    /// does where that commit is the marker commit of an earlier run, so that
    /// a rerun leaves one marker commit, not two.
    pub fn amend_marker(&self) -> (r: bool)
        ensures
            r == self@.amend,
    {
        self.amend
    }

    /// The step at which the run failed.
    pub fn failed_step(&self) -> (r: Step)
        ensures
            r == self@.failed_step,
    {
        self.failed_step
    }

    /// The kind of the failure that ended the run.
    pub fn failure_kind(&self) -> (r: ErrorKind)
        ensures
            r == self@.failure_kind,
    {
        self.failure_kind
    }

    /// The reason given for the failure that ended the run.
    pub fn failure(&self) -> (r: &String)
        ensures
            r@ == self@.failure,
    {
        &self.failure
    }

    /// The local branch for the issue.
    pub fn branch_name(&self) -> (r: String)
        ensures
            r@ == branch_of(self@),
    {
        String::from_str("issue-").concat(decimal_string(self.issue_number).as_str())
    }

    /// The clone URL of the fork.
    pub fn clone_url(&self) -> (r: String)
        ensures
            r@ == clone_url_of(self@),
    {
        String::from_str("https://github.com/").concat(self.fork_owner.as_str()).concat("/").concat(
            self.repo.as_str(),
        ).concat(".git")
    }

    /// The head of the pull request.
    pub fn pull_request_head(&self) -> (r: String)
        ensures
            r@ == head_of(self@),
    {
        String::from_str(self.fork_owner.as_str()).concat(":").concat(self.branch_name().as_str())
    }

    /// The refspec to push to `origin`; it forces the update, so that a rerun
    /// lands its commit whatever the fork's branch holds.
    pub fn push_refspec(&self) -> (r: String)
        ensures
            r@ == refspec_of(self@),
    {
        let branch = self.branch_name();
        String::from_str("+refs/heads/").concat(branch.as_str()).concat(":refs/heads/").concat(
            branch.as_str(),
        )
    }

    /// The URL of the issue.
    pub fn issue_url(&self) -> (r: String)
        ensures
            r@ == issue_url_of(self@),
    {
        String::from_str("https://github.com/").concat(self.owner.as_str()).concat("/").concat(
            self.repo.as_str(),
        ).concat("/issues/").concat(decimal_string(self.issue_number).as_str())
    }

    /// The URL of the branch on the fork.
    pub fn branch_url(&self) -> (r: String)
        ensures
            r@ == branch_url_of(self@),
    {
        String::from_str("https://github.com/").concat(self.fork_owner.as_str()).concat("/").concat(
            self.repo.as_str(),
        ).concat("/tree/").concat(self.branch_name().as_str())
    }

    /// The title of the pull request.
    pub fn pull_request_title(&self) -> (r: String)
        ensures
            r@ == title_of(self@),
    {
        String::from_str("Resolves: #").concat(decimal_string(self.issue_number).as_str())
    }

    /// The description of the pull request.
    pub fn pull_request_body(&self) -> (r: String)
        ensures
            r@ == body_of(self@),
    {
        String::from_str("This pull request resolves issue #").concat(
            decimal_string(self.issue_number).as_str(),
        ).concat(BODY_GUIDELINES)
    }

    /// The name of the marker file.
    pub fn marker_file(&self) -> (r: String)
        ensures
            r@ == marker_file(),
    {
        String::from_str(".bounty")
    }

    /// What the marker file records.
    pub fn marker_content(&self) -> (r: String)
        ensures
            r@ == marker_content_of(self@),
    {
        String::from_str("Work on issue #").concat(decimal_string(self.issue_number).as_str()).concat(
            " has started.\n",
        )
    }

    /// The message of the marker commit.
    pub fn commit_message(&self) -> (r: String)
        ensures
            r@ == commit_message_of(self@),
    {
        String::from_str("Start work on bounty for issue #").concat(
            decimal_string(self.issue_number).as_str(),
        )
    }
}

/// What a run touches, on the forge and in the local repository, as the
/// operations of each step describe it.
pub struct World {
    /// The login under which the forge makes forks.
    pub account: Seq<char>,
    /// The upstream repository's default branch, where the forge names one.
    pub default_branch: Option<Seq<char>>,
    /// The URL that the forge gives the next pull request it creates.
    pub next_pr_url: Seq<char>,
    /// The forked repositories, by owner and name.
    pub forks: Set<(Seq<char>, Seq<char>)>,
    /// The directories that hold a working copy.
    pub workspaces: Set<Seq<char>>,
    /// The local branches, in order of creation.
    pub branches: Seq<Seq<char>>,
    /// The branch checked out.
    pub checked_out: Seq<char>,
    /// The message of the commit that a new branch starts at.
    pub base_message: Seq<char>,
    /// The commits of each local branch above its start, oldest first, each
    /// as its message and the marker it records.
    pub history: Map<Seq<char>, Seq<(Seq<char>, Seq<char>)>>,
    /// The commits that each branch of the fork holds, likewise.
    pub pushed: Map<Seq<char>, Seq<(Seq<char>, Seq<char>)>>,
    /// The pull requests, head and URL, in order of creation.
    pub pull_requests: Seq<(Seq<char>, Seq<char>)>,
}

/// Whether an open pull request has the given head.
pub open spec fn has_pull_request(w: World, head: Seq<char>) -> bool {
    exists|i: int| 0 <= i < w.pull_requests.len() && w.pull_requests[i].0 == head
}

/// The URL of a pull request with the given head.
pub open spec fn pull_request_with(w: World, head: Seq<char>) -> Seq<char> {
    let i = choose|i: int| 0 <= i < w.pull_requests.len() && w.pull_requests[i].0 == head;
    w.pull_requests[i].1
}

/// The message of the last commit of a branch.
pub open spec fn tip_message(w: World, b: Seq<char>) -> Seq<char> {
    if w.history[b].len() > 0 {
        w.history[b].last().0
    } else {
        w.base_message
    }
}

/// Commits `c` in place of the last commit of `h`.
pub open spec fn amended(
    h: Seq<(Seq<char>, Seq<char>)>,
    c: (Seq<char>, Seq<char>),
) -> Seq<(Seq<char>, Seq<char>)> {
    if h.len() > 0 {
        h.drop_last().push(c)
    } else {
        seq![c]
    }
}

/// The marker commit of a run: its message and the marker it records.
pub open spec fn marker_commit_of(s: FlowState) -> (Seq<char>, Seq<char>) {
    (commit_message_of(s), marker_content_of(s))
}

/// How the world performs the pending step of a run, and what it answers.
/// Forking is idempotent; a push is forced, so it lands whatever the fork's
/// branch held.
pub open spec fn respond(w: World, s: FlowState) -> (World, Event) {
    let b = branch_of(s);
    let h = head_of(s);
    match s.step {
        Step::Fork => (World { forks: w.forks.insert((s.owner, s.repo)), ..w }, Event::Forked(w.account)),
        Step::OpenWorkspace => (World { workspaces: w.workspaces.insert(s.repo), ..w }, Event::Done),
        Step::FindBranch => (
            w,
            Event::BranchFound(
                if w.branches.contains(b) {
                    Some(tip_message(w, b))
                } else {
                    None
                },
            ),
        ),
        Step::CreateBranch => (
            World { branches: w.branches.push(b), history: w.history.insert(b, Seq::empty()), ..w },
            Event::Done,
        ),
        Step::Checkout => (World { checked_out: b, ..w }, Event::Done),
        Step::CommitMarker => (
            World {
                history: w.history.insert(
                    b,
                    if s.amend {
                        amended(w.history[b], marker_commit_of(s))
                    } else {
                        w.history[b].push(marker_commit_of(s))
                    },
                ),
                ..w
            },
            Event::Done,
        ),
        Step::Push => (World { pushed: w.pushed.insert(b, w.history[b]), ..w }, Event::Done),
        Step::GetDefaultBranch => (w, Event::DefaultBranch(w.default_branch)),
        Step::FindPullRequest => (
            w,
            Event::PullRequest(
                if has_pull_request(w, h) {
                    Some(pull_request_with(w, h))
                } else {
                    None
                },
            ),
        ),
        Step::CreatePullRequest => (
            World { pull_requests: w.pull_requests.push((h, w.next_pr_url)), ..w },
            Event::Created(w.next_pr_url),
        ),
        _ => (w, Event::Done),
    }
}

/// The order of the steps in a run.
pub open spec fn rank(step: Step) -> int {
    match step {
        Step::Fork => 0,
        Step::OpenWorkspace => 1,
        Step::FindBranch => 2,
        Step::CreateBranch => 3,
        Step::Checkout => 4,
        Step::CommitMarker => 5,
        Step::Push => 6,
        Step::GetDefaultBranch => 7,
        Step::FindPullRequest => 8,
        Step::CreatePullRequest => 9,
        Step::Finished => 10,
        Step::Failed => 11,
    }
}

/// A run carried through against a world until it is over.
pub open spec fn run(w: World, s: FlowState) -> (World, FlowState)
    decreases 11 - rank(s.step),
{
    if is_over(s.step) {
        (w, s)
    } else {
        let (w2, e) = respond(w, s);
        let s2 = next(s, e);
        if rank(s2.step) > rank(s.step) && rank(s2.step) <= 11 {
            run(w2, s2)
        } else {
            (w2, s2)
        }
    }
}

/// The commits of the issue's branch after one run for the issue: the marker
/// commit alone where the branch is new; in place of the last commit where
/// that is the marker commit; else on top.
pub open spec fn history_after_run(w: World, s: FlowState) -> Seq<(Seq<char>, Seq<char>)> {
    let b = branch_of(s);
    if !w.branches.contains(b) {
        seq![marker_commit_of(s)]
    } else if tip_message(w, b) == commit_message_of(s) {
        amended(w.history[b], marker_commit_of(s))
    } else {
        w.history[b].push(marker_commit_of(s))
    }
}

/// The world after one run for an issue, in closed form.
pub open spec fn world_after_run(w: World, s0: FlowState) -> World {
    let s = FlowState { fork_owner: w.account, ..s0 };
    let b = branch_of(s);
    let h = head_of(s);
    World {
        forks: w.forks.insert((s0.owner, s0.repo)),
        workspaces: w.workspaces.insert(s0.repo),
        branches: if w.branches.contains(b) {
            w.branches
        } else {
            w.branches.push(b)
        },
        checked_out: b,
        history: w.history.insert(b, history_after_run(w, s)),
        pushed: w.pushed.insert(b, history_after_run(w, s)),
        pull_requests: if has_pull_request(w, h) {
            w.pull_requests
        } else {
            w.pull_requests.push((h, w.next_pr_url))
        },
        ..w
    }
}

/// One run from the start finishes, and leaves the world as
/// `world_after_run` says.
proof fn lemma_run_closed_form(w: World, owner: Seq<char>, repo: Seq<char>, issue_number: u64)
    ensures
        ({
            let s0 = initial(owner, repo, issue_number);
            let (w1, s1) = run(w, s0);
            let s = FlowState { fork_owner: w.account, ..s0 };
            let h = head_of(s);
            &&& w1 == world_after_run(w, s0)
            &&& s1.step == Step::Finished
            &&& s1.fork_owner == w.account
            &&& s1.owner == owner && s1.repo == repo && s1.issue_number == issue_number
            &&& s1.pr_url == if has_pull_request(w, h) {
                pull_request_with(w, h)
            } else {
                w.next_pr_url
            }
        }),
{
    reveal_with_fuel(run, 12);
    let s0 = initial(owner, repo, issue_number);
    let s = FlowState { fork_owner: w.account, ..s0 };
    let b = branch_of(s);
    let h = head_of(s);
    let after = world_after_run(w, s0);
    let (w1, s1) = run(w, s0);
    assert(w1.branches == after.branches);
    if !w.branches.contains(b) {
        assert(Seq::<(Seq<char>, Seq<char>)>::empty().push(marker_commit_of(s)) =~= seq![
            marker_commit_of(s),
        ]);
    }
    assert(w1.history =~= after.history);
    assert(w1.pushed =~= after.pushed);
    assert(w1 == after);
}

/// Running the workflow twice in a row for one issue, against a world that
/// behaves as the steps describe: both runs finish; the first leaves one
/// branch and one pull request for the issue, creating each only where none
/// existed, and leaves the marker commit at the tip of the branch, and of the
/// fork's branch: on a new branch it is the branch's one commit, and it takes
/// the place of an earlier marker commit rather than stacking on it. The
/// second run reports the same pull request and leaves the world exactly as
/// the first left it, so it creates no second fork, branch, marker commit or
/// pull request.
pub proof fn lemma_rerun_changes_nothing(
    w0: World,
    owner: Seq<char>,
    repo: Seq<char>,
    issue_number: u64,
)
    ensures
        ({
            let s0 = initial(owner, repo, issue_number);
            let (w1, s1) = run(w0, s0);
            let (w2, s2) = run(w1, s0);
            let b = branch_of(s1);
            let h = head_of(s1);
            &&& s1.step == Step::Finished
            &&& s2.step == Step::Finished
            &&& w1.branches == if w0.branches.contains(b) {
                w0.branches
            } else {
                w0.branches.push(b)
            }
            &&& w1.pull_requests == if has_pull_request(w0, h) {
                w0.pull_requests
            } else {
                w0.pull_requests.push((h, w0.next_pr_url))
            }
            &&& w1.history[b] == history_after_run(w0, s1)
            &&& !w0.branches.contains(b) ==> w1.history[b] == seq![marker_commit_of(s1)]
            &&& w1.history[b].last() == marker_commit_of(s1)
            &&& w1.pushed[b] == w1.history[b]
            &&& w2 == w1
            &&& s2.pr_url == s1.pr_url
        }),
{
    let s0 = initial(owner, repo, issue_number);
    lemma_run_closed_form(w0, owner, repo, issue_number);
    let (w1, s1) = run(w0, s0);
    lemma_run_closed_form(w1, owner, repo, issue_number);
    let (w2, s2) = run(w1, s0);
    let s = FlowState { fork_owner: w0.account, ..s0 };
    let b = branch_of(s);
    let h = head_of(s);
    assert(b == branch_of(s1));
    assert(h == head_of(s1));
    assert(marker_commit_of(s) == marker_commit_of(s1));
    assert(history_after_run(w0, s) == history_after_run(w0, s1));
    let hist = w1.history[b];
    assert(hist == history_after_run(w0, s));
    assert(hist.len() > 0 && hist.last() == marker_commit_of(s));
    assert(tip_message(w1, b) == commit_message_of(s));
    assert(amended(hist, marker_commit_of(s)) =~= hist);
    assert(w1.branches.contains(b)) by {
        if !w0.branches.contains(b) {
            assert(w1.branches[w1.branches.len() - 1] == b);
        }
    }
    let n = w1.pull_requests.len() - 1;
    if !has_pull_request(w0, h) {
        assert(w1.pull_requests[n].0 == h);
        let i = choose|i: int| 0 <= i < w1.pull_requests.len() && w1.pull_requests[i].0 == h;
        if i < n {
            assert(w0.pull_requests[i] == w1.pull_requests[i]);
        }
        assert(pull_request_with(w1, h) == w0.next_pr_url);
    } else {
        assert(w1.pull_requests == w0.pull_requests);
    }
    assert(w2.forks =~= w1.forks);
    assert(w2.workspaces =~= w1.workspaces);
    assert(w2.history =~= w1.history);
    assert(w2.pushed =~= w1.pushed);
    assert(w2 == w1);
}

/// The push is forced: its refspec starts with git's force marker `+`, and
/// whatever the fork's branch held before, even commits that the local
/// branch lacks, the push succeeds and leaves there the local branch's commits.
pub proof fn lemma_push_is_forced(w: World, s: FlowState)
    requires
        s.step == Step::Push,
    ensures
        refspec_of(s)[0] == '+',
        respond(w, s).1 == Event::Done,
        next(s, respond(w, s).1).step == Step::GetDefaultBranch,
        respond(w, s).0.pushed[branch_of(s)] == w.history[branch_of(s)],
{
    reveal_strlit("+refs/heads/");
}

} // verus!
