//! Review threads and comments of a pull request, fetched and posted
//! through the `gh` command-line tool.
//!
//! The library builds the exact command lines, and turns each outcome of
//! running them (including the decoded JSON responses) into review threads,
//! comments or error messages.

use vstd::prelude::*;
use vstd::string::*;
use crate::command::CommandOutcome;
use crate::text::{cat, decimal, decimal_string, join, joined, str_eq, views};

verus! {

/// Side of a diff that a review comment is attached to.
#[derive(Clone, Copy, Debug, PartialEq, Eq, Structural)]
pub enum DiffSide {
    Left,
    Right,
}

/// One comment of a review thread.
#[derive(Clone, Debug)]
pub struct ReviewComment {
    pub id: u64,
    pub author: String,
    pub body: String,
    pub created_at: String,
    pub outdated: bool,
    pub path: String,
    pub line: Option<usize>,
    pub start_line: Option<usize>,
    pub side: DiffSide,
    pub in_reply_to: Option<u64>,
}

/// A review thread with its comments, oldest first.
#[derive(Clone, Debug)]
pub struct ReviewThread {
    pub id: String,
    pub path: String,
    pub line: Option<usize>,
    pub start_line: Option<usize>,
    pub side: DiffSide,
    pub is_resolved: bool,
    pub is_outdated: bool,
    pub comments: Vec<ReviewComment>,
}

/// Review service backed by the `gh` command-line tool.
pub struct GhCliReviewService;

/// Response of the GraphQL review-threads query.
#[derive(Clone, Debug)]
pub struct GqlResponse {
    pub data: Option<GqlData>,
    pub errors: Option<Vec<GqlError>>,
}

/// One error reported by the GraphQL endpoint.
#[derive(Clone, Debug)]
pub struct GqlError {
    pub message: String,
}

#[derive(Clone, Debug)]
pub struct GqlData {
    pub repository: Option<GqlRepository>,
}

#[derive(Clone, Debug)]
pub struct GqlRepository {
    pub pull_request: Option<GqlPullRequest>,
}

#[derive(Clone, Debug)]
pub struct GqlPullRequest {
    pub review_threads: GqlReviewThreadConnection,
}

/// Where a page of a GraphQL connection ends.
#[derive(Clone, Debug)]
pub struct GqlPageInfo {
    pub has_next_page: bool,
    pub end_cursor: Option<String>,
}

/// One page of the review threads of a pull request.
#[derive(Clone, Debug)]
pub struct GqlReviewThreadConnection {
    pub nodes: Vec<GqlReviewThread>,
    pub page_info: Option<GqlPageInfo>,
}

/// A review thread as the GraphQL endpoint reports it.
#[derive(Clone, Debug)]
pub struct GqlReviewThread {
    pub id: String,
    pub is_resolved: bool,
    pub is_outdated: bool,
    pub path: String,
    pub line: Option<usize>,
    pub start_line: Option<usize>,
    pub diff_side: Option<String>,
    pub comments: GqlCommentConnection,
}

/// One page of the comments of a review thread.
#[derive(Clone, Debug)]
pub struct GqlCommentConnection {
    pub nodes: Vec<GqlComment>,
    pub page_info: Option<GqlPageInfo>,
}

/// Response of the GraphQL query for more comments of one thread.
#[derive(Clone, Debug)]
pub struct GqlCommentsResponse {
    pub data: Option<GqlNodeData>,
    pub errors: Option<Vec<GqlError>>,
}

#[derive(Clone, Debug)]
pub struct GqlNodeData {
    pub node: Option<GqlThreadComments>,
}

/// The comments of the node asked for, when it is a review thread.
#[derive(Clone, Debug)]
pub struct GqlThreadComments {
    pub comments: Option<GqlCommentConnection>,
}

/// A review comment as the GraphQL endpoint reports it.
#[derive(Clone, Debug)]
pub struct GqlComment {
    pub database_id: Option<u64>,
    pub body: String,
    pub author: Option<GqlAuthor>,
    pub created_at: String,
    pub outdated: bool,
    pub path: String,
    pub line: Option<usize>,
    pub start_line: Option<usize>,
}

#[derive(Clone, Debug)]
pub struct GqlAuthor {
    pub login: String,
}

/// A review comment as the REST endpoint reports it after posting.
#[derive(Clone, Debug)]
pub struct RestCommentResponse {
    pub id: u64,
    pub body: String,
    pub path: String,
    pub line: Option<usize>,
    pub start_line: Option<usize>,
    pub side: Option<String>,
    pub user: Option<RestUser>,
    pub created_at: String,
    pub in_reply_to_id: Option<u64>,
}

#[derive(Clone, Debug)]
pub struct RestUser {
    pub login: String,
}

/// The GraphQL query that lists one page of the review threads of a pull
/// request, each with the first page of its comments.
pub const REVIEW_THREADS_QUERY: &'static str = "
query($owner: String!, $repo: String!, $pr: Int!, $cursor: String) {
  repository(owner: $owner, name: $repo) {
    pullRequest(number: $pr) {
      reviewThreads(first: 100, after: $cursor) {
        pageInfo {
          hasNextPage
          endCursor
        }
        nodes {
          id
          isResolved
          isOutdated
          path
          line
          startLine
          diffSide
          comments(first: 50) {
            pageInfo {
              hasNextPage
              endCursor
            }
            nodes {
              databaseId
              body
              author { login }
              createdAt
              outdated
              path
              line
              startLine
            }
          }
        }
      }
    }
  }
}
";

/// The GraphQL query that lists the next page of comments of one review thread.
pub const REVIEW_COMMENTS_QUERY: &'static str = "
query($thread: ID!, $cursor: String) {
  node(id: $thread) {
    ... on PullRequestReviewThread {
      comments(first: 50, after: $cursor) {
        pageInfo {
          hasNextPage
          endCursor
        }
        nodes {
          databaseId
          body
          author { login }
          createdAt
          outdated
          path
          line
          startLine
        }
      }
    }
  }
}
";

/// Index of the first `/` in `s`, or `s.len()` if there is none.
pub open spec fn slash_index(s: Seq<char>, i: int) -> int
    decreases s.len() - i,
{
    if i >= s.len() {
        s.len() as int
    } else if s[i] == '/' {
        i
    } else {
        slash_index(s, i + 1)
    }
}

proof fn lemma_slash_index(s: Seq<char>, i: int)
    requires
        0 <= i <= s.len(),
    ensures
        i <= slash_index(s, i) <= s.len(),
        slash_index(s, i) < s.len() ==> s[slash_index(s, i)] == '/',
        forall|k: int| i <= k < slash_index(s, i) ==> s[k] != '/',
    decreases s.len() - i,
{
    if i < s.len() && s[i] != '/' {
        lemma_slash_index(s, i + 1);
    }
}

/// `slug` holds a `/`, so `str::split_once('/')` splits it.
pub open spec fn slug_splits(slug: Seq<char>) -> bool {
    slash_index(slug, 0) < slug.len()
}

/// The part of `slug` before its first `/`.
pub open spec fn slug_owner(slug: Seq<char>) -> Seq<char> {
    slug.take(slash_index(slug, 0))
}

/// The part of `slug` after its first `/`.
pub open spec fn slug_name(slug: Seq<char>) -> Seq<char> {
    slug.skip(slash_index(slug, 0) + 1)
}

/// A slug that splits is its owner, `/` and its name, and the owner holds no `/`.
pub proof fn lemma_slug_rejoins(slug: Seq<char>)
    requires
        slug_splits(slug),
    ensures
        slug_owner(slug) + seq!['/'] + slug_name(slug) == slug,
        !slug_owner(slug).contains('/'),
{
    lemma_slash_index(slug, 0);
    let k = slash_index(slug, 0);
    assert(slug_owner(slug) + seq!['/'] + slug_name(slug) =~= slug);
    if slug_owner(slug).contains('/') {
        let j = choose|j: int| 0 <= j < slug_owner(slug).len() && slug_owner(slug)[j] == '/';
        assert(slug[j] == '/');
    }
}

/// The error reported for a repository slug without `/`.
pub open spec fn invalid_slug_message(slug: Seq<char>) -> Seq<char> {
    "invalid repository slug: "@ + slug
}

/// Splits `owner/name` at its first `/`.
pub fn split_repo_slug<'a>(repo_slug: &'a str) -> (r: Result<(&'a str, &'a str), String>)
    ensures
        slug_splits(repo_slug@) ==> (r matches Ok(p) && p.0@ == slug_owner(repo_slug@) && p.1@
            == slug_name(repo_slug@)),
        !slug_splits(repo_slug@) ==> (r matches Err(e) && e@ == invalid_slug_message(repo_slug@)),
{
    let n = repo_slug.unicode_len();
    let mut i: usize = 0;
    while i < n && repo_slug.get_char(i) != '/'
        invariant
            n == repo_slug@.len(),
            i <= n,
            slash_index(repo_slug@, 0) == slash_index(repo_slug@, i as int),
        decreases n - i,
    {
        i = i + 1;
    }
    proof {
        lemma_slash_index(repo_slug@, 0);
    }
    if i < n {
        let owner = repo_slug.substring_char(0, i);
        let name = repo_slug.substring_char(i + 1, n);
        assert(repo_slug@.skip(i + 1) =~= repo_slug@.subrange(i + 1, n as int));
        Ok((owner, name))
    } else {
        let mut e = "invalid repository slug: ".to_owned();
        e.append(repo_slug);
        Err(e)
    }
}

impl GhCliReviewService {
    /// Splits `owner/name` at its first `/`.
    pub fn split_slug<'a>(repo_slug: &'a str) -> (r: Result<(&'a str, &'a str), String>)
        ensures
            slug_splits(repo_slug@) ==> (r matches Ok(p) && p.0@ == slug_owner(repo_slug@) && p.1@
                == slug_name(repo_slug@)),
            !slug_splits(repo_slug@) ==> (r matches Err(e) && e@ == invalid_slug_message(
                repo_slug@,
            )),
    {
        split_repo_slug(repo_slug)
    }
}


/// The character view of an optional string.
pub open spec fn opt_view(o: Option<String>) -> Option<Seq<char>> {
    match o {
        Some(s) => Some(s@),
        None => None,
    }
}

/// `LEFT` names the left side; anything else, or nothing, the right side.
pub open spec fn diff_side_of(raw: Option<Seq<char>>) -> DiffSide {
    match raw {
        Some(s) => if s == "LEFT"@ {
            DiffSide::Left
        } else {
            DiffSide::Right
        },
        None => DiffSide::Right,
    }
}

/// Reads the diff side reported by GitHub.
pub fn parse_diff_side(raw: Option<&str>) -> (r: DiffSide)
    ensures
        r == diff_side_of(
            match raw {
                Some(s) => Some(s@),
                None => None,
            },
        ),
{
    match raw {
        Some(s) => if str_eq(s, "LEFT") {
            DiffSide::Left
        } else {
            DiffSide::Right
        },
        None => DiffSide::Right,
    }
}

fn parse_opt_diff_side(raw: &Option<String>) -> (r: DiffSide)
    ensures
        r == diff_side_of(opt_view(*raw)),
{
    match raw {
        Some(s) => parse_diff_side(Some(s.as_str())),
        None => parse_diff_side(None),
    }
}

/// The author shown for a comment: the login, or "ghost" for a deleted account.
pub open spec fn gql_author_name(a: Option<GqlAuthor>) -> Seq<char> {
    match a {
        Some(a) => a.login@,
        None => "ghost"@,
    }
}

/// The author shown for a posted comment: the login, or "ghost".
pub open spec fn rest_author_name(u: Option<RestUser>) -> Seq<char> {
    match u {
        Some(u) => u.login@,
        None => "ghost"@,
    }
}

/// `r` is the comment `c` of a thread on `side`, answering `in_reply_to`.
pub open spec fn comment_from_gql(
    c: GqlComment,
    side: DiffSide,
    in_reply_to: Option<u64>,
    r: ReviewComment,
) -> bool {
    &&& r.id == (match c.database_id {
        Some(id) => id,
        None => 0,
    })
    &&& r.author@ == gql_author_name(c.author)
    &&& r.body == c.body
    &&& r.created_at == c.created_at
    &&& r.outdated == c.outdated
    &&& r.path == c.path
    &&& r.line == c.line
    &&& r.start_line == c.start_line
    &&& r.side == side
    &&& r.in_reply_to == in_reply_to
}

/// The database id of the first comment of a thread, if there is one.
pub open spec fn first_comment_id(nodes: Seq<GqlComment>) -> Option<u64> {
    if nodes.len() > 0 {
        nodes[0].database_id
    } else {
        None
    }
}

/// `r` is the thread `t`: every comment after the first answers the first.
pub open spec fn thread_from_gql(t: GqlReviewThread, r: ReviewThread) -> bool {
    &&& r.id == t.id
    &&& r.path == t.path
    &&& r.line == t.line
    &&& r.start_line == t.start_line
    &&& r.side == diff_side_of(opt_view(t.diff_side))
    &&& r.is_resolved == t.is_resolved
    &&& r.is_outdated == t.is_outdated
    &&& r.comments@.len() == t.comments.nodes@.len()
    &&& forall|j: int|
        0 <= j < r.comments@.len() ==> comment_from_gql(
            t.comments.nodes@[j],
            r.side,
            if j > 0 {
                first_comment_id(t.comments.nodes@)
            } else {
                None
            },
            #[trigger] r.comments@[j],
        )
}

/// The threads a response holds; a missing repository or pull request holds none.
pub open spec fn response_threads(resp: GqlResponse) -> Seq<GqlReviewThread> {
    match resp.data {
        Some(d) => match d.repository {
            Some(repo) => match repo.pull_request {
                Some(pr) => pr.review_threads.nodes@,
                None => Seq::empty(),
            },
            None => Seq::empty(),
        },
        None => Seq::empty(),
    }
}

/// The messages of the reported GraphQL errors.
pub open spec fn error_messages(errors: Seq<GqlError>) -> Seq<Seq<char>> {
    errors.map_values(|e: GqlError| e.message@)
}

/// `r` is what a decoded review-threads response comes to: an error listing
/// the GraphQL errors when any are reported, else the converted threads.
pub open spec fn threads_from_response(resp: GqlResponse, r: Result<Vec<ReviewThread>, String>) -> bool {
    match resp.errors {
        Some(errors) => r matches Err(m) && m@ == "GraphQL errors: "@ + joined(
            error_messages(errors@),
            ", "@,
        ),
        None => r matches Ok(threads) && threads@.len() == response_threads(resp).len() && forall|
            i: int,
        |
            0 <= i < threads@.len() ==> thread_from_gql(
                response_threads(resp)[i],
                #[trigger] threads@[i],
            ),
    }
}

/// `r` is the comment that a REST response reports.
pub open spec fn comment_from_rest(resp: RestCommentResponse, r: ReviewComment) -> bool {
    &&& r.id == resp.id
    &&& r.author@ == rest_author_name(resp.user)
    &&& r.body == resp.body
    &&& r.created_at == resp.created_at
    &&& !r.outdated
    &&& r.path == resp.path
    &&& r.line == resp.line
    &&& r.start_line == resp.start_line
    &&& r.side == diff_side_of(opt_view(resp.side))
    &&& r.in_reply_to == resp.in_reply_to_id
}

fn gql_comment_to_review(c: &GqlComment, side: DiffSide, in_reply_to: Option<u64>) -> (r:
    ReviewComment)
    ensures
        comment_from_gql(*c, side, in_reply_to, r),
{
    ReviewComment {
        id: match c.database_id {
            Some(id) => id,
            None => 0,
        },
        author: match &c.author {
            Some(a) => a.login.clone(),
            None => "ghost".to_owned(),
        },
        body: c.body.clone(),
        created_at: c.created_at.clone(),
        outdated: c.outdated,
        path: c.path.clone(),
        line: c.line,
        start_line: c.start_line,
        side,
        in_reply_to,
    }
}

fn gql_thread_to_review(t: &GqlReviewThread) -> (r: ReviewThread)
    ensures
        thread_from_gql(*t, r),
        r.is_resolved == t.is_resolved,
        r.is_outdated == t.is_outdated,
        r.id == t.id,
{
    let side = parse_opt_diff_side(&t.diff_side);
    let nodes = &t.comments.nodes;
    let first_id = if nodes.len() > 0 {
        nodes[0].database_id
    } else {
        None
    };
    let mut comments: Vec<ReviewComment> = Vec::new();
    let mut j: usize = 0;
    while j < nodes.len()
        invariant
            nodes == t.comments.nodes,
            j <= nodes@.len(),
            first_id == first_comment_id(nodes@),
            comments@.len() == j,
            forall|k: int|
                0 <= k < j ==> comment_from_gql(
                    nodes@[k],
                    side,
                    if k > 0 {
                        first_comment_id(nodes@)
                    } else {
                        None
                    },
                    #[trigger] comments@[k],
                ),
        decreases nodes@.len() - j,
    {
        let reply = if j > 0 {
            first_id
        } else {
            None
        };
        comments.push(gql_comment_to_review(&nodes[j], side, reply));
        j = j + 1;
    }
    ReviewThread {
        id: t.id.clone(),
        path: t.path.clone(),
        line: t.line,
        start_line: t.start_line,
        side,
        is_resolved: t.is_resolved,
        is_outdated: t.is_outdated,
        comments,
    }
}

/// Converts a decoded review-threads response: the GraphQL errors, if any
/// are reported, become one error message; otherwise each thread is
/// converted, and a missing repository or pull request yields no threads.
pub fn review_threads_from_response(resp: &GqlResponse) -> (r: Result<Vec<ReviewThread>, String>)
    ensures
        threads_from_response(*resp, r),
{
    if let Some(errors) = &resp.errors {
        return Err(graphql_errors_message(errors));
    }
    let none: Vec<GqlReviewThread> = Vec::new();
    let nodes: &Vec<GqlReviewThread> = match &resp.data {
        Some(d) => match &d.repository {
            Some(repo) => match &repo.pull_request {
                Some(pr) => &pr.review_threads.nodes,
                None => &none,
            },
            None => &none,
        },
        None => &none,
    };
    assert(nodes@ =~= response_threads(*resp));
    Ok(convert_threads(nodes))
}

/// Converts the comment that the REST endpoint reports after posting.
pub fn review_comment_from_rest(resp: RestCommentResponse) -> (r: ReviewComment)
    ensures
        comment_from_rest(resp, r),
{
    let side = parse_opt_diff_side(&resp.side);
    ReviewComment {
        id: resp.id,
        author: match resp.user {
            Some(u) => u.login,
            None => "ghost".to_owned(),
        },
        body: resp.body,
        created_at: resp.created_at,
        outdated: false,
        path: resp.path,
        line: resp.line,
        start_line: resp.start_line,
        side,
        in_reply_to: resp.in_reply_to_id,
    }
}


/// A cursor as a JSON value: `null`, or the cursor text in quotes.
pub open spec fn cursor_json(cursor: Option<Seq<char>>) -> Seq<char> {
    match cursor {
        Some(c) => "\""@ + c + "\""@,
        None => "null"@,
    }
}

/// The `variables` argument of the review-threads query for the page
/// after `cursor` (the first page when there is none).
pub open spec fn review_threads_variables(
    owner: Seq<char>,
    repo: Seq<char>,
    pr_number: u64,
    cursor: Option<Seq<char>>,
) -> Seq<char> {
    "{\"owner\":\""@ + owner + "\",\"repo\":\""@ + repo + "\",\"pr\":"@ + decimal(pr_number as nat)
        + ",\"cursor\":"@ + cursor_json(cursor) + "}"@
}

/// The `gh` arguments that fetch the page of review threads after `cursor`.
pub open spec fn threads_page_args(
    owner: Seq<char>,
    repo: Seq<char>,
    pr_number: u64,
    cursor: Option<Seq<char>>,
) -> Seq<Seq<char>> {
    seq![
        "api"@,
        "graphql"@,
        "-f"@,
        "query="@ + REVIEW_THREADS_QUERY@,
        "-f"@,
        "variables="@ + review_threads_variables(owner, repo, pr_number, cursor),
    ]
}

/// The `gh` arguments that fetch the first page of review threads.
pub open spec fn review_threads_args(slug: Seq<char>, pr_number: u64) -> Seq<Seq<char>> {
    threads_page_args(slug_owner(slug), slug_name(slug), pr_number, None)
}

/// The `gh` arguments that fetch the comments of thread `thread_id` after `cursor`.
pub open spec fn comments_page_args(thread_id: Seq<char>, cursor: Seq<char>) -> Seq<Seq<char>> {
    seq![
        "api"@,
        "graphql"@,
        "-f"@,
        "query="@ + REVIEW_COMMENTS_QUERY@,
        "-f"@,
        "variables="@ + ("{\"thread\":\""@ + thread_id + "\",\"cursor\":\""@ + cursor + "\"}"@),
    ]
}

/// The name of a diff side in the REST API.
pub open spec fn side_name(side: DiffSide) -> Seq<char> {
    match side {
        DiffSide::Left => "LEFT"@,
        DiffSide::Right => "RIGHT"@,
    }
}

/// The `gh` arguments that post an inline review comment.
pub open spec fn post_comment_args(
    slug: Seq<char>,
    pr_number: u64,
    path: Seq<char>,
    line: usize,
    side: DiffSide,
    body: Seq<char>,
    commit_sha: Seq<char>,
) -> Seq<Seq<char>> {
    seq![
        "api"@,
        "repos/"@ + slug + "/pulls/"@ + decimal(pr_number as nat) + "/comments"@,
        "-f"@,
        "body="@ + body,
        "-f"@,
        "commit_id="@ + commit_sha,
        "-f"@,
        "path="@ + path,
        "-F"@,
        "line="@ + decimal(line as nat),
        "-f"@,
        "side="@ + side_name(side),
    ]
}

/// The `gh` arguments that reply to a review comment.
pub open spec fn reply_args(slug: Seq<char>, pr_number: u64, comment_id: u64, body: Seq<char>) -> Seq<
    Seq<char>,
> {
    seq![
        "api"@,
        "repos/"@ + slug + "/pulls/"@ + decimal(pr_number as nat) + "/comments/"@ + decimal(
            comment_id as nat,
        ) + "/replies"@,
        "-f"@,
        "body="@ + body,
    ]
}

/// `r` is the error `prefix` followed by `detail`.
pub open spec fn error_with(r: Result<ReviewComment, String>, prefix: Seq<char>, detail: String) -> bool {
    r matches Err(m) && m@ == prefix + detail@
}

fn side_str(side: DiffSide) -> (r: &'static str)
    ensures
        r@ == side_name(side),
{
    match side {
        DiffSide::Left => "LEFT",
        DiffSide::Right => "RIGHT",
    }
}

impl GhCliReviewService {
    /// The `gh api graphql` arguments that fetch the first page of review
    /// threads of pull request `pr_number`, or the error for a slug without `/`.
    pub fn review_threads_command(&self, repo_slug: &str, pr_number: u64) -> (r: Result<
        Vec<String>,
        String,
    >)
        ensures
            slug_splits(repo_slug@) ==> (r matches Ok(args) && views(args@) == review_threads_args(
                repo_slug@,
                pr_number,
            )),
            !slug_splits(repo_slug@) ==> (r matches Err(e) && e@ == invalid_slug_message(
                repo_slug@,
            )),
    {
        let (owner, repo) = match Self::split_slug(repo_slug) {
            Ok(p) => p,
            Err(e) => return Err(e),
        };
        Ok(threads_page_command(owner, repo, pr_number, None))
    }

    /// Starts fetching all review threads of pull request `pr_number`: the
    /// fetch state and the arguments for the first page, or the error for a
    /// slug without `/`.
    pub fn start_review_threads(&self, repo_slug: &str, pr_number: u64) -> (r: Result<
        (ReviewThreadsFetch, Vec<String>),
        String,
    >)
        ensures
            slug_splits(repo_slug@) ==> (r matches Ok(p) && {
                &&& p.0.owner() == slug_owner(repo_slug@)
                &&& p.0.repo() == slug_name(repo_slug@)
                &&& p.0.pr_number() == pr_number
                &&& p.0.collected().len() == 0
                &&& views(p.1@) == review_threads_args(repo_slug@, pr_number)
            }),
            !slug_splits(repo_slug@) ==> (r matches Err(e) && e@ == invalid_slug_message(
                repo_slug@,
            )),
    {
        let (owner, repo) = match Self::split_slug(repo_slug) {
            Ok(p) => p,
            Err(e) => return Err(e),
        };
        let args = threads_page_command(owner, repo, pr_number, None);
        let fetch = ReviewThreadsFetch {
            owner: owner.to_owned(),
            repo: repo.to_owned(),
            pr_number,
            threads: Vec::new(),
            current: 0,
        };
        Ok((fetch, args))
    }

    /// The `gh api` arguments that post an inline comment on `path` at
    /// `line` of the given diff side.
    pub fn post_review_comment_command(
        &self,
        repo_slug: &str,
        pr_number: u64,
        path: &str,
        line: usize,
        side: DiffSide,
        body: &str,
        commit_sha: &str,
    ) -> (r: Vec<String>)
        ensures
            views(r@) == post_comment_args(
                repo_slug@,
                pr_number,
                path@,
                line,
                side,
                body@,
                commit_sha@,
            ),
    {
        let mut endpoint = cat("repos/", repo_slug);
        endpoint.append("/pulls/");
        endpoint.append(decimal_string(pr_number).as_str());
        endpoint.append("/comments");
        let mut args: Vec<String> = Vec::new();
        args.push("api".to_owned());
        args.push(endpoint);
        args.push("-f".to_owned());
        args.push(cat("body=", body));
        args.push("-f".to_owned());
        args.push(cat("commit_id=", commit_sha));
        args.push("-f".to_owned());
        args.push(cat("path=", path));
        args.push("-F".to_owned());
        args.push(cat("line=", decimal_string(line as u64).as_str()));
        args.push("-f".to_owned());
        args.push(cat("side=", side_str(side)));
        assert(views(args@) =~= post_comment_args(
            repo_slug@,
            pr_number,
            path@,
            line,
            side,
            body@,
            commit_sha@,
        ));
        args
    }

    /// What posting an inline comment comes to.
    pub fn post_review_comment_result(&self, outcome: CommandOutcome<RestCommentResponse>) -> (r:
        Result<ReviewComment, String>)
        ensures
            match outcome {
                CommandOutcome::NotStarted(e) => error_with(r, "failed to run `gh api`: "@, e),
                CommandOutcome::Failed(e) => error_with(r, "gh api POST failed: "@, e),
                CommandOutcome::Undecodable(e) => error_with(
                    r,
                    "failed to parse comment response: "@,
                    e,
                ),
                CommandOutcome::Decoded(resp) => r matches Ok(c) && comment_from_rest(resp, c),
            },
    {
        match outcome {
            CommandOutcome::NotStarted(e) => Err(cat("failed to run `gh api`: ", e.as_str())),
            CommandOutcome::Failed(e) => Err(cat("gh api POST failed: ", e.as_str())),
            CommandOutcome::Undecodable(e) => Err(
                cat("failed to parse comment response: ", e.as_str()),
            ),
            CommandOutcome::Decoded(resp) => Ok(review_comment_from_rest(resp)),
        }
    }

    /// The `gh api` arguments that reply to comment `comment_id`.
    pub fn reply_to_thread_command(
        &self,
        repo_slug: &str,
        pr_number: u64,
        comment_id: u64,
        body: &str,
    ) -> (r: Vec<String>)
        ensures
            views(r@) == reply_args(repo_slug@, pr_number, comment_id, body@),
    {
        let mut endpoint = cat("repos/", repo_slug);
        endpoint.append("/pulls/");
        endpoint.append(decimal_string(pr_number).as_str());
        endpoint.append("/comments/");
        endpoint.append(decimal_string(comment_id).as_str());
        endpoint.append("/replies");
        let mut args: Vec<String> = Vec::new();
        args.push("api".to_owned());
        args.push(endpoint);
        args.push("-f".to_owned());
        args.push(cat("body=", body));
        assert(views(args@) =~= reply_args(repo_slug@, pr_number, comment_id, body@));
        args
    }

    /// What replying to a comment comes to.
    pub fn reply_to_thread_result(&self, outcome: CommandOutcome<RestCommentResponse>) -> (r:
        Result<ReviewComment, String>)
        ensures
            match outcome {
                CommandOutcome::NotStarted(e) => error_with(r, "failed to run `gh api`: "@, e),
                CommandOutcome::Failed(e) => error_with(r, "gh api POST reply failed: "@, e),
                CommandOutcome::Undecodable(e) => error_with(
                    r,
                    "failed to parse reply response: "@,
                    e,
                ),
                CommandOutcome::Decoded(resp) => r matches Ok(c) && comment_from_rest(resp, c),
            },
    {
        match outcome {
            CommandOutcome::NotStarted(e) => Err(cat("failed to run `gh api`: ", e.as_str())),
            CommandOutcome::Failed(e) => Err(cat("gh api POST reply failed: ", e.as_str())),
            CommandOutcome::Undecodable(e) => Err(
                cat("failed to parse reply response: ", e.as_str()),
            ),
            CommandOutcome::Decoded(resp) => Ok(review_comment_from_rest(resp)),
        }
    }
}


/// The view of an optional string slice.
pub open spec fn opt_str_view(o: Option<&str>) -> Option<Seq<char>> {
    match o {
        Some(c) => Some(c@),
        None => None,
    }
}

/// The cursor of the next page, when the page says there is one.
pub open spec fn next_cursor(p: Option<GqlPageInfo>) -> Option<String> {
    match p {
        Some(info) => if info.has_next_page {
            info.end_cursor
        } else {
            None
        },
        None => None,
    }
}

/// Where the page of threads in a response ends.
pub open spec fn response_page_info(resp: GqlResponse) -> Option<GqlPageInfo> {
    match resp.data {
        Some(d) => match d.repository {
            Some(repo) => match repo.pull_request {
                Some(pr) => pr.review_threads.page_info,
                None => None,
            },
            None => None,
        },
        None => None,
    }
}

/// The page of comments in a comments response, when the node is a thread.
pub open spec fn response_comments(resp: GqlCommentsResponse) -> Option<GqlCommentConnection> {
    match resp.data {
        Some(d) => match d.node {
            Some(n) => n.comments,
            None => None,
        },
        None => None,
    }
}

/// The comments a page holds; none when there is no page.
pub open spec fn page_nodes(page: Option<GqlCommentConnection>) -> Seq<GqlComment> {
    match page {
        Some(c) => c.nodes@,
        None => Seq::empty(),
    }
}

/// Where a page of comments ends; nothing when there is no page.
pub open spec fn page_end(page: Option<GqlCommentConnection>) -> Option<GqlPageInfo> {
    match page {
        Some(c) => c.page_info,
        None => None,
    }
}

/// Thread `t` still has comments on later pages.
pub open spec fn needs_more_comments(t: GqlReviewThread) -> bool {
    next_cursor(t.comments.page_info) is Some
}

/// `n` is thread `t` with the comments of `page` appended, ending where the page ends.
pub open spec fn thread_extended(t: GqlReviewThread, page: Option<GqlCommentConnection>, n: GqlReviewThread) -> bool {
    &&& n.id == t.id
    &&& n.is_resolved == t.is_resolved
    &&& n.is_outdated == t.is_outdated
    &&& n.path == t.path
    &&& n.line == t.line
    &&& n.start_line == t.start_line
    &&& n.diff_side == t.diff_side
    &&& n.comments.nodes@ == t.comments.nodes@ + page_nodes(page)
    &&& n.comments.page_info == page_end(page)
}

/// `v` is the conversion of each of `threads`.
pub open spec fn threads_converted(threads: Seq<GqlReviewThread>, v: Seq<ReviewThread>) -> bool {
    &&& v.len() == threads.len()
    &&& forall|i: int| 0 <= i < v.len() ==> thread_from_gql(threads[i], #[trigger] v[i])
}

/// A converted thread is resolved exactly when GitHub reports it resolved,
/// and outdated exactly when GitHub reports it outdated: the two flags are
/// carried over independently of each other.
pub proof fn lemma_thread_flags_kept(t: GqlReviewThread, r: ReviewThread)
    requires
        thread_from_gql(t, r),
    ensures
        r.is_resolved == t.is_resolved,
        r.is_outdated == t.is_outdated,
        r.id == t.id,
        r.path == t.path,
        r.comments@.len() == t.comments.nodes@.len(),
{
}

/// An outdated thread that is still open is reported open, and a resolved
/// thread that is current is reported resolved.
pub proof fn lemma_outdated_open_thread_stays_open(t: GqlReviewThread, r: ReviewThread)
    requires
        thread_from_gql(t, r),
    ensures
        !t.is_resolved && t.is_outdated ==> !r.is_resolved && r.is_outdated,
        t.is_resolved && !t.is_outdated ==> r.is_resolved && !r.is_outdated,
{
}

/// A response without GraphQL errors converts to one thread per reported
/// thread, in order, each resolved exactly when its GraphQL thread is.
pub proof fn lemma_response_keeps_resolution(resp: GqlResponse, r: Result<Vec<ReviewThread>, String>)
    requires
        threads_from_response(resp, r),
        resp.errors is None,
    ensures
        r matches Ok(v) && v@.len() == response_threads(resp).len() && forall|i: int|
            0 <= i < v@.len() ==> (#[trigger] v@[i]).is_resolved == response_threads(resp)[i].is_resolved
                && v@[i].is_outdated == response_threads(resp)[i].is_outdated
                && v@[i].id == response_threads(resp)[i].id,
{
    let v = r->Ok_0;
    assert forall|i: int| 0 <= i < v@.len() implies (#[trigger] v@[i]).is_resolved
        == response_threads(resp)[i].is_resolved && v@[i].is_outdated
        == response_threads(resp)[i].is_outdated && v@[i].id == response_threads(resp)[i].id by {
        lemma_thread_flags_kept(response_threads(resp)[i], v@[i]);
    }
}

/// A paged fetch that ends with the conversion of `threads` reports each
/// thread resolved exactly when its GraphQL thread is.
pub proof fn lemma_fetch_keeps_resolution(step: ReviewFetchStep, threads: Seq<GqlReviewThread>)
    requires
        done_with(step, threads),
    ensures
        step matches ReviewFetchStep::Done(Ok(v)) && v@.len() == threads.len() && forall|i: int|
            0 <= i < v@.len() ==> (#[trigger] v@[i]).is_resolved == threads[i].is_resolved
                && v@[i].is_outdated == threads[i].is_outdated && v@[i].id == threads[i].id,
{
    let v = step->Done_0->Ok_0;
    assert forall|i: int| 0 <= i < v@.len() implies (#[trigger] v@[i]).is_resolved
        == threads[i].is_resolved && v@[i].is_outdated == threads[i].is_outdated && v@[i].id
        == threads[i].id by {
        lemma_thread_flags_kept(threads[i], v@[i]);
    }
}

/// What fetching review threads asks for next, or what it came to.
#[derive(Debug)]
pub enum ReviewFetchStep {
    /// Run `gh` with these arguments, decode a threads response, and hand
    /// it to `ReviewThreadsFetch::threads_page`.
    FetchThreads(Vec<String>),
    /// Run `gh` with these arguments, decode a comments response, and hand
    /// it to `ReviewThreadsFetch::comments_page`.
    FetchComments(Vec<String>),
    /// The fetch is over.
    Done(Result<Vec<ReviewThread>, String>),
}

/// The step is the end of the fetch with the conversion of `threads`.
pub open spec fn done_with(r: ReviewFetchStep, threads: Seq<GqlReviewThread>) -> bool {
    match r {
        ReviewFetchStep::Done(Ok(v)) => threads_converted(threads, v@),
        _ => false,
    }
}

/// The step is the end of the fetch with the error `msg`.
pub open spec fn done_err(r: ReviewFetchStep, msg: Seq<char>) -> bool {
    match r {
        ReviewFetchStep::Done(Err(m)) => m@ == msg,
        _ => false,
    }
}

/// The step runs the threads query with `args`.
pub open spec fn fetch_threads_with(r: ReviewFetchStep, args: Seq<Seq<char>>) -> bool {
    match r {
        ReviewFetchStep::FetchThreads(a) => views(a@) == args,
        _ => false,
    }
}

/// The step runs the comments query with `args`.
pub open spec fn fetch_comments_with(r: ReviewFetchStep, args: Seq<Seq<char>>) -> bool {
    match r {
        ReviewFetchStep::FetchComments(a) => views(a@) == args,
        _ => false,
    }
}

/// The state of fetching all review threads of a pull request, page by
/// page, with all comments of each thread.
#[derive(Debug)]
pub struct ReviewThreadsFetch {
    owner: String,
    repo: String,
    pr_number: u64,
    threads: Vec<GqlReviewThread>,
    current: usize,
}

/// After the threads before `from` are complete: the next thread from
/// `from` on with comments left is fetched, or, when there is none, the
/// fetch ends with all collected threads converted.
pub open spec fn continued(f: ReviewThreadsFetch, from: int, r: ReviewFetchStep) -> bool {
    let t = f.collected();
    ||| (forall|j: int| from <= j < t.len() ==> !needs_more_comments(#[trigger] t[j])) && done_with(
        r,
        t,
    )
    ||| exists|i: int|
        from <= i < t.len() && needs_more_comments(t[i]) && (forall|j: int|
            from <= j < i ==> !needs_more_comments(#[trigger] t[j])) && f.current() == i
            && fetch_comments_with(
            r,
            comments_page_args(t[i].id@, next_cursor(t[i].comments.page_info)->0@),
        )
}

/// The fetch keeps its pull request.
pub open spec fn same_target(a: ReviewThreadsFetch, b: ReviewThreadsFetch) -> bool {
    &&& a.owner() == b.owner()
    &&& a.repo() == b.repo()
    &&& a.pr_number() == b.pr_number()
}

fn cursor_text(cursor: Option<&str>) -> (r: String)
    ensures
        r@ == cursor_json(opt_str_view(cursor)),
{
    match cursor {
        Some(c) => {
            let mut t = cat("\"", c);
            t.append("\"");
            t
        },
        None => "null".to_owned(),
    }
}

fn threads_page_command(owner: &str, repo: &str, pr_number: u64, cursor: Option<&str>) -> (r: Vec<
    String,
>)
    ensures
        views(r@) == threads_page_args(owner@, repo@, pr_number, opt_str_view(cursor)),
{
    let mut variables = cat("{\"owner\":\"", owner);
    variables.append("\",\"repo\":\"");
    variables.append(repo);
    variables.append("\",\"pr\":");
    variables.append(decimal_string(pr_number).as_str());
    variables.append(",\"cursor\":");
    variables.append(cursor_text(cursor).as_str());
    variables.append("}");
    let mut args: Vec<String> = Vec::new();
    args.push("api".to_owned());
    args.push("graphql".to_owned());
    args.push("-f".to_owned());
    args.push(cat("query=", REVIEW_THREADS_QUERY));
    args.push("-f".to_owned());
    args.push(cat("variables=", variables.as_str()));
    assert(views(args@) =~= threads_page_args(owner@, repo@, pr_number, opt_str_view(cursor)));
    args
}

fn comments_page_command(thread_id: &str, cursor: &str) -> (r: Vec<String>)
    ensures
        views(r@) == comments_page_args(thread_id@, cursor@),
{
    let mut variables = cat("{\"thread\":\"", thread_id);
    variables.append("\",\"cursor\":\"");
    variables.append(cursor);
    variables.append("\"}");
    let mut args: Vec<String> = Vec::new();
    args.push("api".to_owned());
    args.push("graphql".to_owned());
    args.push("-f".to_owned());
    args.push(cat("query=", REVIEW_COMMENTS_QUERY));
    args.push("-f".to_owned());
    args.push(cat("variables=", variables.as_str()));
    assert(views(args@) =~= comments_page_args(thread_id@, cursor@));
    args
}

fn next_cursor_of(p: &Option<GqlPageInfo>) -> (r: Option<String>)
    ensures
        r == next_cursor(*p),
{
    match p {
        Some(info) => if info.has_next_page {
            match &info.end_cursor {
                Some(c) => Some(c.clone()),
                None => None,
            }
        } else {
            None
        },
        None => None,
    }
}

fn convert_threads(nodes: &Vec<GqlReviewThread>) -> (r: Vec<ReviewThread>)
    ensures
        threads_converted(nodes@, r@),
{
    let mut threads: Vec<ReviewThread> = Vec::new();
    let mut i: usize = 0;
    while i < nodes.len()
        invariant
            i <= nodes@.len(),
            threads@.len() == i,
            forall|k: int| 0 <= k < i ==> thread_from_gql(nodes@[k], #[trigger] threads@[k]),
        decreases nodes@.len() - i,
    {
        threads.push(gql_thread_to_review(&nodes[i]));
        i = i + 1;
    }
    threads
}

fn graphql_errors_message(errors: &Vec<GqlError>) -> (m: String)
    ensures
        m@ == "GraphQL errors: "@ + joined(error_messages(errors@), ", "@),
{
    let mut messages: Vec<String> = Vec::new();
    let mut i: usize = 0;
    while i < errors.len()
        invariant
            i <= errors@.len(),
            messages@.len() == i,
            forall|k: int| 0 <= k < i ==> #[trigger] messages@[k]@ == errors@[k].message@,
        decreases errors@.len() - i,
    {
        messages.push(errors[i].message.clone());
        i = i + 1;
    }
    assert(views(messages@) =~= error_messages(errors@));
    let listed = join(&messages, ", ");
    cat("GraphQL errors: ", listed.as_str())
}

fn take_threads_page(resp: GqlResponse) -> (r: (Vec<GqlReviewThread>, Option<GqlPageInfo>))
    ensures
        r.0@ == response_threads(resp),
        r.1 == response_page_info(resp),
{
    match resp.data {
        Some(d) => match d.repository {
            Some(repo) => match repo.pull_request {
                Some(pr) => (pr.review_threads.nodes, pr.review_threads.page_info),
                None => (Vec::new(), None),
            },
            None => (Vec::new(), None),
        },
        None => (Vec::new(), None),
    }
}

fn take_comments_page(resp: GqlCommentsResponse) -> (r: Option<GqlCommentConnection>)
    ensures
        r == response_comments(resp),
{
    match resp.data {
        Some(d) => match d.node {
            Some(n) => n.comments,
            None => None,
        },
        None => None,
    }
}

fn extend_thread(t: GqlReviewThread, page: Option<GqlCommentConnection>) -> (n: GqlReviewThread)
    ensures
        thread_extended(t, page, n),
{
    let (mut more, end) = match page {
        Some(c) => (c.nodes, c.page_info),
        None => (Vec::new(), None),
    };
    let mut nodes = t.comments.nodes;
    nodes.append(&mut more);
    GqlReviewThread {
        id: t.id,
        is_resolved: t.is_resolved,
        is_outdated: t.is_outdated,
        path: t.path,
        line: t.line,
        start_line: t.start_line,
        diff_side: t.diff_side,
        comments: GqlCommentConnection { nodes, page_info: end },
    }
}

impl ReviewThreadsFetch {
    /// The owner of the repository.
    pub closed spec fn owner(&self) -> Seq<char> {
        self.owner@
    }

    /// The name of the repository.
    pub closed spec fn repo(&self) -> Seq<char> {
        self.repo@
    }

    /// The pull request whose threads are fetched.
    pub closed spec fn pr_number(&self) -> u64 {
        self.pr_number
    }

    /// The threads collected so far, with the comments collected so far.
    pub closed spec fn collected(&self) -> Seq<GqlReviewThread> {
        self.threads@
    }

    /// The thread whose comments are being completed.
    pub closed spec fn current(&self) -> int {
        self.current as int
    }

    fn continue_from(&mut self, from: usize) -> (r: ReviewFetchStep)
        requires
            from <= old(self).collected().len(),
        ensures
            same_target(*old(self), *final(self)),
            final(self).collected() == old(self).collected(),
            continued(*final(self), from as int, r),
    {
        let mut i: usize = from;
        while i < self.threads.len() && next_cursor_of(&self.threads[i].comments.page_info).is_none()
            invariant
                from <= i <= self.threads@.len(),
                forall|j: int| from <= j < i ==> !needs_more_comments(#[trigger] self.threads@[j]),
            decreases self.threads@.len() - i,
        {
            i = i + 1;
        }
        if i < self.threads.len() {
            let cursor = match next_cursor_of(&self.threads[i].comments.page_info) {
                Some(c) => c,
                None => String::new(),
            };
            let args = comments_page_command(self.threads[i].id.as_str(), cursor.as_str());
            self.current = i;
            let r = ReviewFetchStep::FetchComments(args);
            assert(needs_more_comments(self.threads@[i as int]));
            r
        } else {
            ReviewFetchStep::Done(Ok(convert_threads(&self.threads)))
        }
    }

    /// Takes in what running a threads query came to: the errors end the
    /// fetch; a page of threads is collected, and the next page is asked
    /// for while there is one; after the last page, the remaining comments
    /// of each thread are asked for in turn, and the fetch ends with all
    /// threads converted.
    pub fn threads_page(&mut self, outcome: CommandOutcome<GqlResponse>) -> (r: ReviewFetchStep)
        ensures
            same_target(*old(self), *final(self)),
            match outcome {
                CommandOutcome::NotStarted(e) => done_err(
                    r,
                    "failed to run `gh api graphql`: "@ + e@,
                ) && final(self).collected() == old(self).collected(),
                CommandOutcome::Failed(e) => done_err(r, "gh api graphql failed: "@ + e@)
                    && final(self).collected() == old(self).collected(),
                CommandOutcome::Undecodable(e) => done_err(
                    r,
                    "failed to parse GraphQL response: "@ + e@,
                ) && final(self).collected() == old(self).collected(),
                CommandOutcome::Decoded(resp) => match resp.errors {
                    Some(errors) => done_err(
                        r,
                        "GraphQL errors: "@ + joined(error_messages(errors@), ", "@),
                    ) && final(self).collected() == old(self).collected(),
                    None => final(self).collected() == old(self).collected() + response_threads(
                        resp,
                    ) && if next_cursor(response_page_info(resp)) is Some {
                        fetch_threads_with(
                            r,
                            threads_page_args(
                                old(self).owner(),
                                old(self).repo(),
                                old(self).pr_number(),
                                Some(next_cursor(response_page_info(resp))->0@),
                            ),
                        )
                    } else {
                        continued(*final(self), 0, r)
                    },
                },
            },
    {
        match outcome {
            CommandOutcome::NotStarted(e) => ReviewFetchStep::Done(
                Err(cat("failed to run `gh api graphql`: ", e.as_str())),
            ),
            CommandOutcome::Failed(e) => ReviewFetchStep::Done(
                Err(cat("gh api graphql failed: ", e.as_str())),
            ),
            CommandOutcome::Undecodable(e) => ReviewFetchStep::Done(
                Err(cat("failed to parse GraphQL response: ", e.as_str())),
            ),
            CommandOutcome::Decoded(resp) => {
                if let Some(errors) = &resp.errors {
                    return ReviewFetchStep::Done(Err(graphql_errors_message(errors)));
                }
                let ghost before = self.threads@;
                let (mut page, end) = take_threads_page(resp);
                self.threads.append(&mut page);
                assert(self.threads@ =~= before + response_threads(resp));
                match next_cursor_of(&end) {
                    Some(c) => ReviewFetchStep::FetchThreads(
                        threads_page_command(
                            self.owner.as_str(),
                            self.repo.as_str(),
                            self.pr_number,
                            Some(c.as_str()),
                        ),
                    ),
                    None => self.continue_from(0),
                }
            },
        }
    }

    /// Takes in what running a comments query came to: the errors end the
    /// fetch; a page of comments is appended to the thread being completed,
    /// and the fetch goes on from that thread.
    pub fn comments_page(&mut self, outcome: CommandOutcome<GqlCommentsResponse>) -> (r:
        ReviewFetchStep)
        ensures
            same_target(*old(self), *final(self)),
            match outcome {
                CommandOutcome::NotStarted(e) => done_err(
                    r,
                    "failed to run `gh api graphql`: "@ + e@,
                ) && final(self).collected() == old(self).collected(),
                CommandOutcome::Failed(e) => done_err(r, "gh api graphql failed: "@ + e@)
                    && final(self).collected() == old(self).collected(),
                CommandOutcome::Undecodable(e) => done_err(
                    r,
                    "failed to parse GraphQL response: "@ + e@,
                ) && final(self).collected() == old(self).collected(),
                CommandOutcome::Decoded(resp) => match resp.errors {
                    Some(errors) => done_err(
                        r,
                        "GraphQL errors: "@ + joined(error_messages(errors@), ", "@),
                    ) && final(self).collected() == old(self).collected(),
                    None => if 0 <= old(self).current() < old(self).collected().len() {
                        &&& final(self).collected().len() == old(self).collected().len()
                        &&& forall|j: int|
                            0 <= j < old(self).collected().len() && j != old(self).current()
                                ==> final(self).collected()[j] == old(self).collected()[j]
                        &&& thread_extended(
                            old(self).collected()[old(self).current()],
                            response_comments(resp),
                            final(self).collected()[old(self).current()],
                        )
                        &&& continued(*final(self), old(self).current(), r)
                    } else {
                        &&& final(self).collected() == old(self).collected()
                        &&& continued(*final(self), old(self).collected().len() as int, r)
                    },
                },
            },
    {
        match outcome {
            CommandOutcome::NotStarted(e) => ReviewFetchStep::Done(
                Err(cat("failed to run `gh api graphql`: ", e.as_str())),
            ),
            CommandOutcome::Failed(e) => ReviewFetchStep::Done(
                Err(cat("gh api graphql failed: ", e.as_str())),
            ),
            CommandOutcome::Undecodable(e) => ReviewFetchStep::Done(
                Err(cat("failed to parse GraphQL response: ", e.as_str())),
            ),
            CommandOutcome::Decoded(resp) => {
                if let Some(errors) = &resp.errors {
                    return ReviewFetchStep::Done(Err(graphql_errors_message(errors)));
                }
                let cur = self.current;
                if cur < self.threads.len() {
                    let ghost before = self.threads@;
                    let page = take_comments_page(resp);
                    let t = self.threads.remove(cur);
                    let n = extend_thread(t, page);
                    self.threads.insert(cur, n);
                    assert forall|j: int|
                        0 <= j < before.len() && j != cur implies self.threads@[j] == before[j] by {
                        if j < cur {
                        } else {
                        }
                    }
                    self.continue_from(cur)
                } else {
                    let len = self.threads.len();
                    self.continue_from(len)
                }
            },
        }
    }
}

} // verus!
