use arbor::command::CommandOutcome;
use arbor::review_service::{
    parse_diff_side, review_comment_from_rest, review_threads_from_response, split_repo_slug,
    DiffSide, GhCliReviewService, GqlAuthor, GqlComment, GqlCommentConnection, GqlCommentsResponse,
    GqlData, GqlError, GqlNodeData, GqlPageInfo, GqlPullRequest, GqlRepository, GqlResponse,
    GqlReviewThread, GqlReviewThreadConnection, GqlThreadComments, RestCommentResponse, RestUser,
    ReviewFetchStep, ReviewThreadsFetch, REVIEW_COMMENTS_QUERY, REVIEW_THREADS_QUERY,
};

fn gql_comment(id: Option<u64>, author: Option<&str>, body: &str) -> GqlComment {
    GqlComment {
        database_id: id,
        body: body.to_owned(),
        author: author.map(|a| GqlAuthor { login: a.to_owned() }),
        created_at: "2024-05-01T10:00:00Z".to_owned(),
        outdated: false,
        path: "src/lib.rs".to_owned(),
        line: Some(12),
        start_line: None,
    }
}

fn gql_thread(side: Option<&str>, comments: Vec<GqlComment>) -> GqlReviewThread {
    GqlReviewThread {
        id: "PRRT_1".to_owned(),
        is_resolved: true,
        is_outdated: false,
        path: "src/lib.rs".to_owned(),
        line: Some(12),
        start_line: Some(10),
        diff_side: side.map(|s| s.to_owned()),
        comments: GqlCommentConnection { nodes: comments, page_info: None },
    }
}

fn response_with(threads: Vec<GqlReviewThread>) -> GqlResponse {
    GqlResponse {
        data: Some(GqlData {
            repository: Some(GqlRepository {
                pull_request: Some(GqlPullRequest {
                    review_threads: GqlReviewThreadConnection { nodes: threads, page_info: None },
                }),
            }),
        }),
        errors: None,
    }
}

fn rest(side: Option<&str>, user: Option<&str>) -> RestCommentResponse {
    RestCommentResponse {
        id: 99,
        body: "looks good".to_owned(),
        path: "README.md".to_owned(),
        line: Some(3),
        start_line: Some(1),
        side: side.map(|s| s.to_owned()),
        user: user.map(|u| RestUser { login: u.to_owned() }),
        created_at: "2024-05-02T00:00:00Z".to_owned(),
        in_reply_to_id: Some(5),
    }
}

#[test]
fn split_slug_at_first_slash() {
    assert_eq!(GhCliReviewService::split_slug("penso/arbor"), Ok(("penso", "arbor")));
    assert_eq!(split_repo_slug("a/b/c"), Ok(("a", "b/c")));
    assert_eq!(split_repo_slug("/x"), Ok(("", "x")));
    assert_eq!(split_repo_slug("no-slash"), Err("invalid repository slug: no-slash".to_owned()));
    assert_eq!(split_repo_slug("ünï/cödé"), Ok(("ünï", "cödé")));
}

#[test]
fn diff_side_defaults_to_right() {
    assert_eq!(parse_diff_side(Some("LEFT")), DiffSide::Left);
    assert_eq!(parse_diff_side(Some("left")), DiffSide::Right);
    assert_eq!(parse_diff_side(Some("RIGHT")), DiffSide::Right);
    assert_eq!(parse_diff_side(None), DiffSide::Right);
}

#[test]
fn replies_point_at_first_comment() {
    let resp = response_with(vec![gql_thread(Some("LEFT"), vec![
        gql_comment(Some(5), Some("alice"), "first"),
        gql_comment(Some(6), None, "second"),
        gql_comment(None, Some("bob"), "third"),
    ])]);
    let threads = review_threads_from_response(&resp).unwrap();
    assert_eq!(threads.len(), 1);
    let t = &threads[0];
    assert_eq!(t.id, "PRRT_1");
    assert_eq!(t.side, DiffSide::Left);
    assert!(t.is_resolved);
    assert_eq!((t.line, t.start_line), (Some(12), Some(10)));
    assert_eq!(t.comments.len(), 3);
    assert_eq!(t.comments[0].in_reply_to, None);
    assert_eq!(t.comments[1].in_reply_to, Some(5));
    assert_eq!(t.comments[2].in_reply_to, Some(5));
    assert_eq!(t.comments[1].author, "ghost");
    assert_eq!(t.comments[2].id, 0);
    assert_eq!(t.comments[0].author, "alice");
    assert_eq!(t.comments[2].body, "third");
    assert!(t.comments.iter().all(|c| c.side == DiffSide::Left));
}

#[test]
fn first_comment_without_id_leaves_replies_unlinked() {
    let resp = response_with(vec![gql_thread(None, vec![
        gql_comment(None, Some("alice"), "first"),
        gql_comment(Some(8), Some("bob"), "second"),
    ])]);
    let threads = review_threads_from_response(&resp).unwrap();
    assert_eq!(threads[0].side, DiffSide::Right);
    assert_eq!(threads[0].comments[1].in_reply_to, None);
}

#[test]
fn missing_pull_request_has_no_threads() {
    let resp = GqlResponse {
        data: Some(GqlData { repository: Some(GqlRepository { pull_request: None }) }),
        errors: None,
    };
    assert!(review_threads_from_response(&resp).unwrap().is_empty());
    let resp = GqlResponse { data: None, errors: None };
    assert!(review_threads_from_response(&resp).unwrap().is_empty());
}

#[test]
fn graphql_errors_are_listed() {
    let resp = GqlResponse {
        data: None,
        errors: Some(vec![
            GqlError { message: "not found".to_owned() },
            GqlError { message: "rate limited".to_owned() },
        ]),
    };
    assert_eq!(
        review_threads_from_response(&resp).unwrap_err(),
        "GraphQL errors: not found, rate limited"
    );
    let resp = GqlResponse { data: None, errors: Some(vec![]) };
    assert_eq!(review_threads_from_response(&resp).unwrap_err(), "GraphQL errors: ");
}

#[test]
fn review_threads_command_line() {
    let svc = GhCliReviewService;
    let args = svc.review_threads_command("penso/arbor", 40).unwrap();
    assert_eq!(args.len(), 6);
    assert_eq!(&args[..3], &["api", "graphql", "-f"]);
    assert_eq!(args[3], format!("query={REVIEW_THREADS_QUERY}"));
    assert_eq!(args[4], "-f");
    assert_eq!(args[5], r#"variables={"owner":"penso","repo":"arbor","pr":40,"cursor":null}"#);
    assert_eq!(svc.review_threads_command("arbor", 1).unwrap_err(), "invalid repository slug: arbor");
}

fn more(cursor: &str) -> Option<GqlPageInfo> {
    Some(GqlPageInfo { has_next_page: true, end_cursor: Some(cursor.to_owned()) })
}

fn start() -> ReviewThreadsFetch {
    let (fetch, args) = GhCliReviewService.start_review_threads("penso/arbor", 40).unwrap();
    assert_eq!(args, GhCliReviewService.review_threads_command("penso/arbor", 40).unwrap());
    fetch
}

fn page(threads: Vec<GqlReviewThread>, page_info: Option<GqlPageInfo>) -> GqlResponse {
    let mut resp = response_with(threads);
    resp.data.as_mut().unwrap().repository.as_mut().unwrap().pull_request.as_mut().unwrap().review_threads.page_info =
        page_info;
    resp
}

fn comments_response(comments: Vec<GqlComment>, page_info: Option<GqlPageInfo>) -> GqlCommentsResponse {
    GqlCommentsResponse {
        data: Some(GqlNodeData {
            node: Some(GqlThreadComments {
                comments: Some(GqlCommentConnection { nodes: comments, page_info }),
            }),
        }),
        errors: None,
    }
}

#[test]
fn review_threads_outcomes() {
    let mut fetch = start();
    match fetch.threads_page(CommandOutcome::NotStarted("not found".to_owned())) {
        ReviewFetchStep::Done(Err(e)) => assert_eq!(e, "failed to run `gh api graphql`: not found"),
        other => panic!("{other:?}"),
    }
    match fetch.threads_page(CommandOutcome::Failed("HTTP 401".to_owned())) {
        ReviewFetchStep::Done(Err(e)) => assert_eq!(e, "gh api graphql failed: HTTP 401"),
        other => panic!("{other:?}"),
    }
    match fetch.threads_page(CommandOutcome::Undecodable("EOF".to_owned())) {
        ReviewFetchStep::Done(Err(e)) => assert_eq!(e, "failed to parse GraphQL response: EOF"),
        other => panic!("{other:?}"),
    }
    let errors = GqlResponse { data: None, errors: Some(vec![GqlError { message: "bad".to_owned() }]) };
    match fetch.threads_page(CommandOutcome::Decoded(errors)) {
        ReviewFetchStep::Done(Err(e)) => assert_eq!(e, "GraphQL errors: bad"),
        other => panic!("{other:?}"),
    }
    match fetch.threads_page(CommandOutcome::Decoded(response_with(vec![gql_thread(None, vec![])]))) {
        ReviewFetchStep::Done(Ok(threads)) => assert_eq!(threads.len(), 1),
        other => panic!("{other:?}"),
    }
}

#[test]
fn all_thread_pages_and_comment_pages_are_fetched() {
    let mut fetch = start();
    let mut t1 = gql_thread(Some("LEFT"), vec![gql_comment(Some(5), Some("alice"), "first")]);
    t1.id = "T1".to_owned();
    t1.comments.page_info = more("c1");
    let step = fetch.threads_page(CommandOutcome::Decoded(page(vec![t1], more("p1"))));
    match step {
        ReviewFetchStep::FetchThreads(args) => {
            assert_eq!(args[3], format!("query={REVIEW_THREADS_QUERY}"));
            assert_eq!(args[5], r#"variables={"owner":"penso","repo":"arbor","pr":40,"cursor":"p1"}"#);
        },
        other => panic!("{other:?}"),
    }
    let mut t2 = gql_thread(None, vec![gql_comment(Some(9), Some("bob"), "other")]);
    t2.id = "T2".to_owned();
    let step = fetch.threads_page(CommandOutcome::Decoded(page(vec![t2], None)));
    match step {
        ReviewFetchStep::FetchComments(args) => {
            assert_eq!(args[3], format!("query={REVIEW_COMMENTS_QUERY}"));
            assert_eq!(args[5], r#"variables={"thread":"T1","cursor":"c1"}"#);
        },
        other => panic!("{other:?}"),
    }
    let step = fetch.comments_page(CommandOutcome::Decoded(comments_response(
        vec![gql_comment(Some(6), Some("carol"), "second")],
        more("c2"),
    )));
    match step {
        ReviewFetchStep::FetchComments(args) => assert_eq!(args[5], r#"variables={"thread":"T1","cursor":"c2"}"#),
        other => panic!("{other:?}"),
    }
    let step = fetch.comments_page(CommandOutcome::Decoded(comments_response(
        vec![gql_comment(Some(7), None, "third")],
        Some(GqlPageInfo { has_next_page: false, end_cursor: Some("c3".to_owned()) }),
    )));
    let threads = match step {
        ReviewFetchStep::Done(Ok(threads)) => threads,
        other => panic!("{other:?}"),
    };
    assert_eq!(threads.len(), 2);
    assert_eq!(threads[0].id, "T1");
    let bodies: Vec<&str> = threads[0].comments.iter().map(|c| c.body.as_str()).collect();
    assert_eq!(bodies, vec!["first", "second", "third"]);
    assert_eq!(threads[0].comments[2].in_reply_to, Some(5));
    assert_eq!(threads[0].comments[2].author, "ghost");
    assert_eq!(threads[1].id, "T2");
    assert_eq!(threads[1].comments.len(), 1);
}

#[test]
fn comment_errors_end_the_fetch() {
    let mut fetch = start();
    let mut t1 = gql_thread(None, vec![]);
    t1.comments.page_info = more("c1");
    let _ = fetch.threads_page(CommandOutcome::Decoded(page(vec![t1], None)));
    match fetch.comments_page(CommandOutcome::Failed("HTTP 502".to_owned())) {
        ReviewFetchStep::Done(Err(e)) => assert_eq!(e, "gh api graphql failed: HTTP 502"),
        other => panic!("{other:?}"),
    }
    let missing = GqlCommentsResponse { data: Some(GqlNodeData { node: None }), errors: None };
    match fetch.comments_page(CommandOutcome::Decoded(missing)) {
        ReviewFetchStep::Done(Ok(threads)) => assert_eq!(threads.len(), 1),
        other => panic!("{other:?}"),
    }
}

#[test]
fn page_without_cursor_stops() {
    let mut fetch = start();
    let step = fetch.threads_page(CommandOutcome::Decoded(page(
        vec![gql_thread(None, vec![])],
        Some(GqlPageInfo { has_next_page: true, end_cursor: None }),
    )));
    assert!(matches!(step, ReviewFetchStep::Done(Ok(_))));
}

#[test]
fn post_comment_command_line() {
    let svc = GhCliReviewService;
    let args = svc.post_review_comment_command("penso/arbor", 40, "src/main.rs", 18446744073709, DiffSide::Left, "nit: typo", "abc123");
    assert_eq!(args, vec![
        "api",
        "repos/penso/arbor/pulls/40/comments",
        "-f",
        "body=nit: typo",
        "-f",
        "commit_id=abc123",
        "-f",
        "path=src/main.rs",
        "-F",
        "line=18446744073709",
        "-f",
        "side=LEFT",
    ]);
    let args = svc.post_review_comment_command("o/r", 0, "p", 7, DiffSide::Right, "", "s");
    assert_eq!(args[1], "repos/o/r/pulls/0/comments");
    assert_eq!(args[9], "line=7");
    assert_eq!(args[11], "side=RIGHT");
}

#[test]
fn post_comment_outcomes() {
    let svc = GhCliReviewService;
    let c = svc.post_review_comment_result(CommandOutcome::Decoded(rest(Some("LEFT"), Some("carol")))).unwrap();
    assert_eq!(c.id, 99);
    assert_eq!(c.author, "carol");
    assert_eq!(c.side, DiffSide::Left);
    assert!(!c.outdated);
    assert_eq!(c.in_reply_to, Some(5));
    assert_eq!(
        svc.post_review_comment_result(CommandOutcome::NotStarted("x".to_owned())).unwrap_err(),
        "failed to run `gh api`: x"
    );
    assert_eq!(
        svc.post_review_comment_result(CommandOutcome::Failed("422".to_owned())).unwrap_err(),
        "gh api POST failed: 422"
    );
    assert_eq!(
        svc.post_review_comment_result(CommandOutcome::Undecodable("bad".to_owned())).unwrap_err(),
        "failed to parse comment response: bad"
    );
}

#[test]
fn reply_command_and_outcomes() {
    let svc = GhCliReviewService;
    assert_eq!(svc.reply_to_thread_command("o/r", 12, 345, "thanks"), vec![
        "api",
        "repos/o/r/pulls/12/comments/345/replies",
        "-f",
        "body=thanks",
    ]);
    let c = svc.reply_to_thread_result(CommandOutcome::Decoded(rest(None, None))).unwrap();
    assert_eq!(c.author, "ghost");
    assert_eq!(c.side, DiffSide::Right);
    assert_eq!(c.body, "looks good");
    assert_eq!(
        svc.reply_to_thread_result(CommandOutcome::Failed("404".to_owned())).unwrap_err(),
        "gh api POST reply failed: 404"
    );
    assert_eq!(
        svc.reply_to_thread_result(CommandOutcome::Undecodable("eof".to_owned())).unwrap_err(),
        "failed to parse reply response: eof"
    );
    assert_eq!(
        svc.reply_to_thread_result(CommandOutcome::NotStarted("e".to_owned())).unwrap_err(),
        "failed to run `gh api`: e"
    );
}

#[test]
fn rest_comment_conversion() {
    let c = review_comment_from_rest(rest(Some("RIGHT"), Some("dave")));
    assert_eq!(c.path, "README.md");
    assert_eq!((c.line, c.start_line), (Some(3), Some(1)));
    assert_eq!(c.created_at, "2024-05-02T00:00:00Z");
}
