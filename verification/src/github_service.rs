//! Pull-request status as reported by the `gh` tool, and the decisions
//! around creating and looking up pull requests.

use vstd::prelude::*;
use vstd::string::*;
use crate::command::CommandOutcome;
use crate::review_service::{
    invalid_slug_message, slug_name, slug_owner, slug_splits, split_repo_slug,
};
use crate::text::{cat, eq_ignore_ascii_case, eq_ignore_ascii_case_spec, str_eq, trim, trimmed, views};

verus! {

/// Lifecycle state of a pull request.
#[derive(Clone, Copy, Debug, PartialEq, Eq, Structural)]
pub enum PrState {
    Open,
    Draft,
    Merged,
    Closed,
}

/// Aggregate review verdict of a pull request.
#[derive(Clone, Copy, Debug, PartialEq, Eq, Structural)]
pub enum ReviewDecision {
    Approved,
    ChangesRequested,
    Pending,
}

/// Outcome of one check, or of all checks together.
#[derive(Clone, Copy, Debug, PartialEq, Eq, Structural)]
pub enum CheckStatus {
    Success,
    Failure,
    Pending,
}

/// Summary of a pull request.
#[derive(Clone, Debug)]
pub struct PrDetails {
    pub number: u64,
    pub title: String,
    pub url: String,
    pub state: PrState,
    pub base_ref_name: String,
    pub additions: usize,
    pub deletions: usize,
    pub review_decision: ReviewDecision,
    pub checks_status: CheckStatus,
    pub checks: Vec<(String, CheckStatus)>,
}

/// One entry of the `statusCheckRollup` that `gh pr view --json` reports:
/// either a check run (`name`, `status`, `conclusion`) or a commit status
/// (`context`, `state`).
#[derive(Clone, Debug)]
pub struct GhCheckContext {
    pub name: Option<String>,
    pub context: Option<String>,
    pub conclusion: Option<String>,
    pub status: Option<String>,
    pub state: Option<String>,
}

/// The fields of `gh pr view --json` that the summary is built from.
#[derive(Clone, Debug)]
pub struct GhPrResponse {
    pub number: u64,
    pub title: String,
    pub url: String,
    pub state: String,
    pub is_draft: bool,
    pub base_ref_name: String,
    pub additions: usize,
    pub deletions: usize,
    pub review_decision: Option<String>,
    pub status_check_rollup: Vec<GhCheckContext>,
}

/// The name shown for a check: its `name`, else its `context`, else "check".
pub open spec fn check_display_name(c: GhCheckContext) -> Seq<char> {
    match c.name {
        Some(n) => n@,
        None => match c.context {
            Some(x) => x@,
            None => "check"@,
        },
    }
}

/// Status of a check from its `conclusion`.
pub open spec fn conclusion_status(conclusion: Seq<char>) -> CheckStatus {
    if conclusion == ""@ {
        CheckStatus::Pending
    } else if conclusion == "SUCCESS"@ || conclusion == "success"@ || conclusion == "NEUTRAL"@
        || conclusion == "neutral"@ || conclusion == "SKIPPED"@ || conclusion == "skipped"@ {
        CheckStatus::Success
    } else {
        CheckStatus::Failure
    }
}

/// Status of a commit status from its `state`.
pub open spec fn commit_state_status(state: Seq<char>) -> CheckStatus {
    if state == "SUCCESS"@ || state == "success"@ {
        CheckStatus::Success
    } else if state == "FAILURE"@ || state == "failure"@ || state == "ERROR"@ || state == "error"@ {
        CheckStatus::Failure
    } else {
        CheckStatus::Pending
    }
}

/// Status of a check run from its `status` alone.
pub open spec fn run_status_status(status: Seq<char>) -> CheckStatus {
    if status == "COMPLETED"@ || status == "completed"@ {
        CheckStatus::Success
    } else {
        CheckStatus::Pending
    }
}

/// The status of one rollup entry. A run that has not completed is pending
/// whatever its conclusion says; otherwise the conclusion decides, then the
/// commit state, then the run status.
pub open spec fn check_status_of(c: GhCheckContext) -> CheckStatus {
    if c.status is Some && !eq_ignore_ascii_case_spec(c.status->0@, "completed"@) {
        CheckStatus::Pending
    } else if c.conclusion is Some {
        conclusion_status(c.conclusion->0@)
    } else if c.state is Some {
        commit_state_status(c.state->0@)
    } else if c.status is Some {
        run_status_status(c.status->0@)
    } else {
        CheckStatus::Pending
    }
}

/// The combined status of a list of check statuses: pending when there are
/// none, failing when any fails, succeeding when all succeed, else pending.
pub open spec fn overall_status(statuses: Seq<CheckStatus>) -> CheckStatus {
    if statuses.len() == 0 {
        CheckStatus::Pending
    } else if exists|i: int| 0 <= i < statuses.len() && statuses[i] == CheckStatus::Failure {
        CheckStatus::Failure
    } else if forall|i: int| 0 <= i < statuses.len() ==> statuses[i] == CheckStatus::Success {
        CheckStatus::Success
    } else {
        CheckStatus::Pending
    }
}

/// The pull-request state from the reported `state` and draft flag.
pub open spec fn pr_state_of(state: Seq<char>, is_draft: bool) -> PrState {
    if is_draft {
        PrState::Draft
    } else if state == "MERGED"@ || state == "merged"@ {
        PrState::Merged
    } else if state == "CLOSED"@ || state == "closed"@ {
        PrState::Closed
    } else {
        PrState::Open
    }
}

/// The review decision from the reported `reviewDecision`.
pub open spec fn review_decision_of(decision: Option<String>) -> ReviewDecision {
    match decision {
        Some(d) => if d@ == "APPROVED"@ {
            ReviewDecision::Approved
        } else if d@ == "CHANGES_REQUESTED"@ {
            ReviewDecision::ChangesRequested
        } else {
            ReviewDecision::Pending
        },
        None => ReviewDecision::Pending,
    }
}

/// The statuses of the listed checks, in order.
pub open spec fn check_statuses(checks: Seq<(String, CheckStatus)>) -> Seq<CheckStatus> {
    checks.map_values(|c: (String, CheckStatus)| c.1)
}

/// The pull request fails exactly when one of its checks fails.
pub proof fn lemma_failure_dominates(statuses: Seq<CheckStatus>)
    ensures
        overall_status(statuses) == CheckStatus::Failure <==> exists|i: int|
            0 <= i < statuses.len() && statuses[i] == CheckStatus::Failure,
{
}

/// The pull request succeeds exactly when it has checks and all of them succeed.
pub proof fn lemma_success_needs_all(statuses: Seq<CheckStatus>)
    ensures
        overall_status(statuses) == CheckStatus::Success <==> statuses.len() > 0 && forall|i: int|
            0 <= i < statuses.len() ==> statuses[i] == CheckStatus::Success,
{
    if statuses.len() > 0 && forall|i: int|
        0 <= i < statuses.len() ==> statuses[i] == CheckStatus::Success {
        if exists|i: int| 0 <= i < statuses.len() && statuses[i] == CheckStatus::Failure {
            let i = choose|i: int| 0 <= i < statuses.len() && statuses[i] == CheckStatus::Failure;
            assert(statuses[i] == CheckStatus::Success);
        }
    }
}

/// A check run that has not completed is pending, whatever its conclusion.
pub proof fn lemma_in_progress_check_is_pending(c: GhCheckContext)
    requires
        c.status is Some,
        !eq_ignore_ascii_case_spec(c.status->0@, "completed"@),
    ensures
        check_status_of(c) == CheckStatus::Pending,
{
}

/// A commit status (no run status, no conclusion) fails its check when its
/// state reports a failure or an error, in either case that GitHub uses.
pub proof fn lemma_commit_status_failure(c: GhCheckContext)
    requires
        c.status is None,
        c.conclusion is None,
        c.state is Some,
        c.state->0@ == "ERROR"@ || c.state->0@ == "error"@ || c.state->0@ == "FAILURE"@
            || c.state->0@ == "failure"@,
    ensures
        check_status_of(c) == CheckStatus::Failure,
{
    reveal_strlit("ERROR");
    reveal_strlit("error");
    reveal_strlit("FAILURE");
    reveal_strlit("failure");
    reveal_strlit("SUCCESS");
    reveal_strlit("success");
    assert("FAILURE"@[0] != "SUCCESS"@[0]);
    assert("failure"@[0] != "success"@[0]);
    assert("FAILURE"@ != "SUCCESS"@);
    assert("failure"@ != "success"@);
    assert("FAILURE"@ != "success"@);
    assert("failure"@ != "SUCCESS"@);
}

/// A commit status that succeeded makes its check succeed, and one that is
/// still pending or expected leaves it pending.
pub proof fn lemma_commit_status_other_states(c: GhCheckContext)
    requires
        c.status is None,
        c.conclusion is None,
        c.state is Some,
    ensures
        c.state->0@ == "SUCCESS"@ || c.state->0@ == "success"@ ==> check_status_of(c)
            == CheckStatus::Success,
        c.state->0@ == "PENDING"@ || c.state->0@ == "EXPECTED"@ ==> check_status_of(c)
            == CheckStatus::Pending,
{
    reveal_strlit("PENDING");
    reveal_strlit("EXPECTED");
    reveal_strlit("SUCCESS");
    reveal_strlit("success");
    reveal_strlit("FAILURE");
    reveal_strlit("failure");
    reveal_strlit("ERROR");
    reveal_strlit("error");
    assert("PENDING"@[0] != "SUCCESS"@[0]);
    assert("PENDING"@[0] != "success"@[0]);
    assert("PENDING"@[0] != "FAILURE"@[0]);
    assert("PENDING"@[0] != "failure"@[0]);
    assert("PENDING"@ != "SUCCESS"@);
    assert("PENDING"@ != "success"@);
    assert("PENDING"@ != "FAILURE"@);
    assert("PENDING"@ != "failure"@);
    assert("EXPECTED"@.len() == 8);
    assert("EXPECTED"@ != "SUCCESS"@);
    assert("EXPECTED"@ != "success"@);
    assert("EXPECTED"@ != "FAILURE"@);
    assert("EXPECTED"@ != "failure"@);
    assert("EXPECTED"@ != "ERROR"@);
    assert("EXPECTED"@ != "error"@);
    assert("PENDING"@ != "ERROR"@);
    assert("PENDING"@ != "error"@);
}

/// `d` is the summary of `resp`.
pub open spec fn pr_details_of(resp: GhPrResponse, d: PrDetails) -> bool {
    &&& d.number == resp.number
    &&& d.title == resp.title
    &&& d.url == resp.url
    &&& d.state == pr_state_of(resp.state@, resp.is_draft)
    &&& d.base_ref_name == resp.base_ref_name
    &&& d.additions == resp.additions
    &&& d.deletions == resp.deletions
    &&& d.review_decision == review_decision_of(resp.review_decision)
    &&& d.checks@.len() == resp.status_check_rollup@.len()
    &&& forall|i: int|
        0 <= i < d.checks@.len() ==> {
            &&& (#[trigger] d.checks@[i]).0@ == check_display_name(resp.status_check_rollup@[i])
            &&& d.checks@[i].1 == check_status_of(resp.status_check_rollup@[i])
        }
    &&& d.checks_status == overall_status(check_statuses(d.checks@))
}

fn opt_eq(s: &Option<String>, lit: &str) -> (r: bool)
    ensures
        r == (s is Some && s->0@ == lit@),
{
    match s {
        Some(x) => str_eq(x.as_str(), lit),
        None => false,
    }
}

impl GhCheckContext {
    /// The name shown for this check.
    pub fn display_name(&self) -> (r: String)
        ensures
            r@ == check_display_name(*self),
    {
        match &self.name {
            Some(n) => n.clone(),
            None => match &self.context {
                Some(x) => x.clone(),
                None => "check".to_owned(),
            },
        }
    }

    /// The status of this check.
    pub fn to_check_status(&self) -> (r: CheckStatus)
        ensures
            r == check_status_of(*self),
    {
        if let Some(status) = &self.status {
            if !eq_ignore_ascii_case(status.as_str(), "completed") {
                return CheckStatus::Pending;
            }
        }
        if let Some(conclusion) = &self.conclusion {
            let c = conclusion.as_str();
            return if str_eq(c, "") {
                CheckStatus::Pending
            } else if str_eq(c, "SUCCESS") || str_eq(c, "success") || str_eq(c, "NEUTRAL")
                || str_eq(c, "neutral") || str_eq(c, "SKIPPED") || str_eq(c, "skipped") {
                CheckStatus::Success
            } else {
                CheckStatus::Failure
            };
        }
        if let Some(state) = &self.state {
            let s = state.as_str();
            return if str_eq(s, "SUCCESS") || str_eq(s, "success") {
                CheckStatus::Success
            } else if str_eq(s, "FAILURE") || str_eq(s, "failure") || str_eq(s, "ERROR")
                || str_eq(s, "error") {
                CheckStatus::Failure
            } else {
                CheckStatus::Pending
            };
        }
        if let Some(status) = &self.status {
            let s = status.as_str();
            return if str_eq(s, "COMPLETED") || str_eq(s, "completed") {
                CheckStatus::Success
            } else {
                CheckStatus::Pending
            };
        }
        CheckStatus::Pending
    }
}

/// Combines check statuses: pending when empty, failing when any fails,
/// succeeding when all succeed, pending otherwise.
pub fn combined_check_status(checks: &Vec<(String, CheckStatus)>) -> (r: CheckStatus)
    ensures
        r == overall_status(check_statuses(checks@)),
{
    let ghost st = check_statuses(checks@);
    if checks.len() == 0 {
        return CheckStatus::Pending;
    }
    let mut all_success = true;
    let mut i: usize = 0;
    while i < checks.len()
        invariant
            i <= checks.len(),
            st == check_statuses(checks@),
            st.len() == checks@.len(),
            forall|k: int| 0 <= k < i ==> st[k] != CheckStatus::Failure,
            all_success == forall|k: int| 0 <= k < i ==> st[k] == CheckStatus::Success,
        decreases checks.len() - i,
    {
        assert(st[i as int] == checks@[i as int].1);
        match checks[i].1 {
            CheckStatus::Failure => {
                assert(exists|k: int| 0 <= k < st.len() && st[k] == CheckStatus::Failure);
                return CheckStatus::Failure;
            },
            CheckStatus::Success => {},
            CheckStatus::Pending => {
                all_success = false;
            },
        }
        i = i + 1;
    }
    if all_success {
        CheckStatus::Success
    } else {
        CheckStatus::Pending
    }
}

/// Builds the pull-request summary from the `gh pr view` response.
pub fn parse_pr_details(response: GhPrResponse) -> (r: PrDetails)
    ensures
        pr_details_of(response, r),
{
    let state = if response.is_draft {
        PrState::Draft
    } else if str_eq(response.state.as_str(), "MERGED") || str_eq(response.state.as_str(), "merged") {
        PrState::Merged
    } else if str_eq(response.state.as_str(), "CLOSED") || str_eq(response.state.as_str(), "closed") {
        PrState::Closed
    } else {
        PrState::Open
    };
    let review_decision = if opt_eq(&response.review_decision, "APPROVED") {
        ReviewDecision::Approved
    } else if opt_eq(&response.review_decision, "CHANGES_REQUESTED") {
        ReviewDecision::ChangesRequested
    } else {
        ReviewDecision::Pending
    };
    let mut checks: Vec<(String, CheckStatus)> = Vec::new();
    let mut i: usize = 0;
    while i < response.status_check_rollup.len()
        invariant
            i <= response.status_check_rollup@.len(),
            checks@.len() == i,
            forall|k: int|
                0 <= k < i ==> {
                    &&& (#[trigger] checks@[k]).0@ == check_display_name(
                        response.status_check_rollup@[k],
                    )
                    &&& checks@[k].1 == check_status_of(response.status_check_rollup@[k])
                },
        decreases response.status_check_rollup@.len() - i,
    {
        let c = &response.status_check_rollup[i];
        checks.push((c.display_name(), c.to_check_status()));
        i = i + 1;
    }
    let checks_status = combined_check_status(&checks);
    PrDetails {
        number: response.number,
        title: response.title,
        url: response.url,
        state,
        base_ref_name: response.base_ref_name,
        additions: response.additions,
        deletions: response.deletions,
        review_decision,
        checks_status,
        checks,
    }
}


/// The JSON fields that `gh pr view` is asked for.
pub open spec fn pr_view_fields() -> Seq<char> {
    "number,title,url,state,isDraft,baseRefName,additions,deletions,reviewDecision,statusCheckRollup"@
}

/// The `gh` arguments that show the pull request of `branch`.
pub open spec fn pr_view_args(slug: Seq<char>, branch: Seq<char>) -> Seq<Seq<char>> {
    seq!["pr"@, "view"@, "--repo"@, slug, "--json"@, pr_view_fields(), branch]
}

/// The `gh pr view` arguments for the pull request of `branch` in `repo_slug`.
pub fn pull_request_details_command(repo_slug: &str, branch: &str) -> (r: Vec<String>)
    ensures
        views(r@) == pr_view_args(repo_slug@, branch@),
{
    let mut args: Vec<String> = Vec::new();
    args.push("pr".to_owned());
    args.push("view".to_owned());
    args.push("--repo".to_owned());
    args.push(repo_slug.to_owned());
    args.push("--json".to_owned());
    args.push(
        "number,title,url,state,isDraft,baseRefName,additions,deletions,reviewDecision,statusCheckRollup".to_owned(),
    );
    args.push(branch.to_owned());
    assert(views(args@) =~= pr_view_args(repo_slug@, branch@));
    args
}

/// What `gh pr view` comes to: the summary when its output decoded, and
/// nothing when `gh` could not run, failed, or printed something else.
pub fn pull_request_details_result(outcome: CommandOutcome<GhPrResponse>) -> (r: Option<PrDetails>)
    ensures
        outcome is Decoded <==> r is Some,
        outcome matches CommandOutcome::Decoded(resp) ==> pr_details_of(resp, r->0),
{
    match outcome {
        CommandOutcome::Decoded(resp) => Some(parse_pr_details(resp)),
        _ => None,
    }
}

/// The `gh` arguments that print the stored access token.
pub open spec fn access_token_args() -> Seq<Seq<char>> {
    seq!["auth"@, "token"@]
}

/// The `gh auth token` arguments.
pub fn access_token_command() -> (r: Vec<String>)
    ensures
        views(r@) == access_token_args(),
{
    let mut args: Vec<String> = Vec::new();
    args.push("auth".to_owned());
    args.push("token".to_owned());
    assert(views(args@) =~= access_token_args());
    args
}

/// What `gh auth token` comes to: the printed token without surrounding
/// white space, or nothing when `gh` failed, printed no UTF-8, or printed
/// only white space.
pub fn access_token_result(outcome: CommandOutcome<String>) -> (r: Option<String>)
    ensures
        match outcome {
            CommandOutcome::Decoded(out) => if trimmed(out@).len() == 0 {
                r is None
            } else {
                r matches Some(t) && t@ == trimmed(out@)
            },
            _ => r is None,
        },
{
    match outcome {
        CommandOutcome::Decoded(out) => {
            let token = trim(out.as_str());
            if token.as_str().unicode_len() == 0 {
                None
            } else {
                Some(token)
            }
        },
        _ => None,
    }
}

/// Pull-request service backed by the GitHub REST API.
pub struct OctocrabGitHubService;

/// How an attempt to create a pull request through the API ended.
#[derive(Debug)]
pub enum PullRequestCreation {
    /// The async runtime could not be started; the text describes the error.
    RuntimeFailed(String),
    /// The API client could not be built; the text describes the error.
    ClientFailed(String),
    /// The API refused or failed the request; the text describes the error.
    RequestFailed(String),
    /// The pull request was created; its web address, when the API gave one.
    Created(Option<String>),
}

/// Owner, repository and `owner:branch` filter of a pull-request lookup.
pub struct PullRequestQuery {
    pub owner: String,
    pub repo: String,
    pub head: String,
}

impl OctocrabGitHubService {
    /// Owner and repository that a new pull request goes to, or the error
    /// for a slug without `/`.
    pub fn create_pull_request_target<'a>(&self, repo_slug: &'a str) -> (r: Result<
        (&'a str, &'a str),
        String,
    >)
        ensures
            slug_splits(repo_slug@) ==> (r matches Ok(p) && p.0@ == slug_owner(repo_slug@) && p.1@
                == slug_name(repo_slug@)),
            !slug_splits(repo_slug@) ==> (r matches Err(e) && e@ == invalid_slug_message(
                repo_slug@,
            )),
    {
        split_repo_slug(repo_slug)
    }

    /// The message reported for each way creating a pull request can end.
    pub fn create_pull_request_result(&self, outcome: PullRequestCreation) -> (r: Result<
        String,
        String,
    >)
        ensures
            match outcome {
                PullRequestCreation::RuntimeFailed(e) => r matches Err(m) && m@
                    == "failed to create runtime: "@ + e@,
                PullRequestCreation::ClientFailed(e) => r matches Err(m) && m@
                    == "failed to create GitHub client: "@ + e@,
                PullRequestCreation::RequestFailed(e) => r matches Err(m) && m@
                    == "failed to create pull request: "@ + e@,
                PullRequestCreation::Created(url) => r matches Ok(m) && m@ == "created PR: "@ + (
                match url {
                    Some(u) => u@,
                    None => Seq::empty(),
                }),
            },
    {
        match outcome {
            PullRequestCreation::RuntimeFailed(e) => Err(cat("failed to create runtime: ", e.as_str())),
            PullRequestCreation::ClientFailed(e) => Err(
                cat("failed to create GitHub client: ", e.as_str()),
            ),
            PullRequestCreation::RequestFailed(e) => Err(
                cat("failed to create pull request: ", e.as_str()),
            ),
            PullRequestCreation::Created(url) => match url {
                Some(u) => Ok(cat("created PR: ", u.as_str())),
                None => Ok("created PR: ".to_owned()),
            },
        }
    }

    /// The lookup for the pull request of `branch`: the repository's owner
    /// and name and the `owner:branch` head filter; nothing for a slug
    /// without `/`.
    pub fn pull_request_number_query(&self, repo_slug: &str, branch: &str) -> (r: Option<
        PullRequestQuery,
    >)
        ensures
            slug_splits(repo_slug@) <==> r is Some,
            r matches Some(q) ==> {
                &&& q.owner@ == slug_owner(repo_slug@)
                &&& q.repo@ == slug_name(repo_slug@)
                &&& q.head@ == slug_owner(repo_slug@) + ":"@ + branch@
            },
    {
        match split_repo_slug(repo_slug) {
            Ok((owner, repo)) => {
                let mut head = cat(owner, ":");
                head.append(branch);
                Some(PullRequestQuery { owner: owner.to_owned(), repo: repo.to_owned(), head })
            },
            Err(_) => None,
        }
    }

    /// The number of the first pull request listed, or nothing when the
    /// listing failed or was empty.
    pub fn pull_request_number_result(&self, listed: Option<Vec<u64>>) -> (r: Option<u64>)
        ensures
            match listed {
                Some(numbers) => if numbers@.len() > 0 {
                    r == Some(numbers@[0])
                } else {
                    r is None
                },
                None => r is None,
            },
    {
        match listed {
            Some(numbers) => if numbers.len() > 0 {
                Some(numbers[0])
            } else {
                None
            },
            None => None,
        }
    }
}


/// A pull request that has, among its checks, a commit status reporting a
/// failure or an error fails as a whole.
pub proof fn lemma_erroring_status_fails_pull_request(resp: GhPrResponse, d: PrDetails, i: int)
    requires
        pr_details_of(resp, d),
        0 <= i < resp.status_check_rollup@.len(),
        resp.status_check_rollup@[i].status is None,
        resp.status_check_rollup@[i].conclusion is None,
        resp.status_check_rollup@[i].state is Some,
        resp.status_check_rollup@[i].state->0@ == "ERROR"@ || resp.status_check_rollup@[i].state->0@
            == "error"@ || resp.status_check_rollup@[i].state->0@ == "FAILURE"@
            || resp.status_check_rollup@[i].state->0@ == "failure"@,
    ensures
        d.checks@[i].1 == CheckStatus::Failure,
        d.checks_status == CheckStatus::Failure,
{
    lemma_commit_status_failure(resp.status_check_rollup@[i]);
    let st = check_statuses(d.checks@);
    assert(st[i] == d.checks@[i].1);
    lemma_failure_dominates(st);
}

} // verus!
