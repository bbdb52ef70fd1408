use arbor::command::CommandOutcome;
use arbor::github_service::{
    access_token_command, access_token_result, combined_check_status, parse_pr_details,
    pull_request_details_command, pull_request_details_result, CheckStatus, GhCheckContext,
    GhPrResponse, OctocrabGitHubService, PrState, PullRequestCreation, ReviewDecision,
};

fn check(
    name: Option<&str>,
    context: Option<&str>,
    conclusion: Option<&str>,
    status: Option<&str>,
    state: Option<&str>,
) -> GhCheckContext {
    GhCheckContext {
        name: name.map(|s| s.to_owned()),
        context: context.map(|s| s.to_owned()),
        conclusion: conclusion.map(|s| s.to_owned()),
        status: status.map(|s| s.to_owned()),
        state: state.map(|s| s.to_owned()),
    }
}

fn response(state: &str, is_draft: bool, decision: Option<&str>, checks: Vec<GhCheckContext>) -> GhPrResponse {
    GhPrResponse {
        number: 7,
        title: "Title".to_owned(),
        url: "https://example.com/pr/7".to_owned(),
        state: state.to_owned(),
        is_draft,
        base_ref_name: "main".to_owned(),
        additions: 3,
        deletions: 4,
        review_decision: decision.map(|s| s.to_owned()),
        status_check_rollup: checks,
    }
}

#[test]
fn in_progress_checks_remain_pending_without_conclusion() {
    let details = parse_pr_details(GhPrResponse {
        number: 40,
        title: "Fix native toolbar buttons and linked worktree grouping".to_owned(),
        url: "https://github.com/penso/arbor/pull/40".to_owned(),
        state: "OPEN".to_owned(),
        is_draft: false,
        base_ref_name: "main".to_owned(),
        additions: 10,
        deletions: 2,
        review_decision: None,
        status_check_rollup: vec![
            GhCheckContext {
                name: Some("Clippy".to_owned()),
                context: None,
                conclusion: Some(String::new()),
                status: Some("IN_PROGRESS".to_owned()),
                state: None,
            },
            GhCheckContext {
                name: Some("Test".to_owned()),
                context: None,
                conclusion: Some(String::new()),
                status: Some("IN_PROGRESS".to_owned()),
                state: None,
            },
        ],
    });

    assert_eq!(details.checks_status, CheckStatus::Pending);
    assert_eq!(details.checks, vec![
        ("Clippy".to_owned(), CheckStatus::Pending),
        ("Test".to_owned(), CheckStatus::Pending),
    ]);
}

#[test]
fn display_name_falls_back_to_context_then_check() {
    assert_eq!(check(Some("lint"), Some("ci"), None, None, None).display_name(), "lint");
    assert_eq!(check(None, Some("ci/build"), None, None, None).display_name(), "ci/build");
    assert_eq!(check(None, None, None, None, None).display_name(), "check");
}

#[test]
fn completed_status_is_case_insensitive() {
    let c = check(None, None, Some("success"), Some("Completed"), None);
    assert_eq!(c.to_check_status(), CheckStatus::Success);
    let c = check(None, None, Some("SUCCESS"), Some("queued"), None);
    assert_eq!(c.to_check_status(), CheckStatus::Pending);
}

#[test]
fn conclusion_decides_completed_runs() {
    for ok in ["SUCCESS", "success", "NEUTRAL", "neutral", "SKIPPED", "skipped"] {
        assert_eq!(check(None, None, Some(ok), Some("COMPLETED"), None).to_check_status(), CheckStatus::Success);
    }
    assert_eq!(check(None, None, Some("FAILURE"), Some("COMPLETED"), None).to_check_status(), CheckStatus::Failure);
    assert_eq!(check(None, None, Some("TIMED_OUT"), None, None).to_check_status(), CheckStatus::Failure);
    assert_eq!(check(None, None, Some(""), Some("COMPLETED"), None).to_check_status(), CheckStatus::Pending);
}

#[test]
fn commit_state_decides_statuses() {
    assert_eq!(check(None, Some("ci"), None, None, Some("SUCCESS")).to_check_status(), CheckStatus::Success);
    assert_eq!(check(None, Some("ci"), None, None, Some("error")).to_check_status(), CheckStatus::Failure);
    assert_eq!(check(None, Some("ci"), None, None, Some("FAILURE")).to_check_status(), CheckStatus::Failure);
    assert_eq!(check(None, Some("ci"), None, None, Some("PENDING")).to_check_status(), CheckStatus::Pending);
}

#[test]
fn run_status_alone() {
    assert_eq!(check(None, None, None, Some("completed"), None).to_check_status(), CheckStatus::Success);
    assert_eq!(check(None, None, None, Some("cOmPlEtEd"), None).to_check_status(), CheckStatus::Pending);
    assert_eq!(check(None, None, None, None, None).to_check_status(), CheckStatus::Pending);
}

#[test]
fn overall_status_rules() {
    assert_eq!(combined_check_status(&vec![]), CheckStatus::Pending);
    let all_ok = vec![("a".to_owned(), CheckStatus::Success), ("b".to_owned(), CheckStatus::Success)];
    assert_eq!(combined_check_status(&all_ok), CheckStatus::Success);
    let one_fails = vec![
        ("a".to_owned(), CheckStatus::Pending),
        ("b".to_owned(), CheckStatus::Failure),
        ("c".to_owned(), CheckStatus::Success),
    ];
    assert_eq!(combined_check_status(&one_fails), CheckStatus::Failure);
    let mixed = vec![("a".to_owned(), CheckStatus::Success), ("b".to_owned(), CheckStatus::Pending)];
    assert_eq!(combined_check_status(&mixed), CheckStatus::Pending);
}

#[test]
fn pr_state_and_review_decision() {
    let d = parse_pr_details(response("MERGED", true, Some("APPROVED"), vec![]));
    assert_eq!(d.state, PrState::Draft);
    assert_eq!(d.review_decision, ReviewDecision::Approved);
    assert_eq!(d.checks_status, CheckStatus::Pending);
    let d = parse_pr_details(response("merged", false, Some("CHANGES_REQUESTED"), vec![]));
    assert_eq!(d.state, PrState::Merged);
    assert_eq!(d.review_decision, ReviewDecision::ChangesRequested);
    let d = parse_pr_details(response("CLOSED", false, Some("REVIEW_REQUIRED"), vec![]));
    assert_eq!(d.state, PrState::Closed);
    assert_eq!(d.review_decision, ReviewDecision::Pending);
    let d = parse_pr_details(response("Merged", false, None, vec![]));
    assert_eq!(d.state, PrState::Open);
    assert_eq!(d.number, 7);
    assert_eq!(d.title, "Title");
    assert_eq!(d.url, "https://example.com/pr/7");
    assert_eq!(d.base_ref_name, "main");
    assert_eq!((d.additions, d.deletions), (3, 4));
}

#[test]
fn failing_check_fails_pull_request() {
    let d = parse_pr_details(response("OPEN", false, None, vec![
        check(Some("a"), None, Some("SUCCESS"), Some("COMPLETED"), None),
        check(Some("b"), None, Some("FAILURE"), Some("COMPLETED"), None),
        check(Some("c"), None, None, Some("IN_PROGRESS"), None),
    ]));
    assert_eq!(d.checks_status, CheckStatus::Failure);
    assert_eq!(d.checks[1], ("b".to_owned(), CheckStatus::Failure));
}

#[test]
fn pr_view_command_lists_fields() {
    let args = pull_request_details_command("penso/arbor", "feature");
    assert_eq!(args, vec![
        "pr", "view", "--repo", "penso/arbor", "--json",
        "number,title,url,state,isDraft,baseRefName,additions,deletions,reviewDecision,statusCheckRollup",
        "feature",
    ]);
}

#[test]
fn pr_details_only_from_decoded_output() {
    assert!(pull_request_details_result(CommandOutcome::NotStarted("no gh".to_owned())).is_none());
    assert!(pull_request_details_result(CommandOutcome::Failed(String::new())).is_none());
    assert!(pull_request_details_result(CommandOutcome::Undecodable("bad json".to_owned())).is_none());
    let d = pull_request_details_result(CommandOutcome::Decoded(response("OPEN", false, None, vec![])));
    assert_eq!(d.unwrap().number, 7);
}

#[test]
fn access_token_is_trimmed() {
    assert_eq!(access_token_command(), vec!["auth", "token"]);
    assert_eq!(
        access_token_result(CommandOutcome::Decoded("  gho_abc\n".to_owned())),
        Some("gho_abc".to_owned())
    );
    assert_eq!(access_token_result(CommandOutcome::Decoded(" \t\n\u{3000}".to_owned())), None);
    assert_eq!(access_token_result(CommandOutcome::Failed("no auth".to_owned())), None);
    assert_eq!(access_token_result(CommandOutcome::Undecodable("utf8".to_owned())), None);
}

#[test]
fn create_pull_request_messages() {
    let svc = OctocrabGitHubService;
    assert_eq!(svc.create_pull_request_target("owner/repo/extra").unwrap(), ("owner", "repo/extra"));
    assert_eq!(
        svc.create_pull_request_target("noslash").unwrap_err(),
        "invalid repository slug: noslash"
    );
    assert_eq!(
        svc.create_pull_request_result(PullRequestCreation::Created(Some("https://x/pr/1".to_owned()))),
        Ok("created PR: https://x/pr/1".to_owned())
    );
    assert_eq!(svc.create_pull_request_result(PullRequestCreation::Created(None)), Ok("created PR: ".to_owned()));
    assert_eq!(
        svc.create_pull_request_result(PullRequestCreation::RuntimeFailed("io".to_owned())),
        Err("failed to create runtime: io".to_owned())
    );
    assert_eq!(
        svc.create_pull_request_result(PullRequestCreation::ClientFailed("tls".to_owned())),
        Err("failed to create GitHub client: tls".to_owned())
    );
    assert_eq!(
        svc.create_pull_request_result(PullRequestCreation::RequestFailed("422".to_owned())),
        Err("failed to create pull request: 422".to_owned())
    );
}

#[test]
fn pull_request_number_lookup() {
    let svc = OctocrabGitHubService;
    let q = svc.pull_request_number_query("penso/arbor", "topic").unwrap();
    assert_eq!((q.owner.as_str(), q.repo.as_str(), q.head.as_str()), ("penso", "arbor", "penso:topic"));
    assert!(svc.pull_request_number_query("arbor", "topic").is_none());
    assert_eq!(svc.pull_request_number_result(Some(vec![12, 9])), Some(12));
    assert_eq!(svc.pull_request_number_result(Some(vec![])), None);
    assert_eq!(svc.pull_request_number_result(None), None);
}
