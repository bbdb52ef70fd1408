# arbor

Verified core of the arbor workspace tools, written in Verus.

- `src/` is the library, verified by Verus:
  - `github_service`: pull-request summaries from `gh pr view` (check
    statuses, review decision, overall status) and the decisions around
    creating and looking up pull requests and reading the `gh` token.
  - `review_service`: the `gh api` command lines for review threads and
    comments, the page-by-page fetch of all threads and all their comments,
    and the conversion of the responses and failures.
  - `file_agent_store`, `agent`: agent session records built from session
    state files, with liveness and expiry filtering, and which files of the
    state directory count.
  - `log_layer`: the bounded in-memory log that a tracing layer fills.
  - `text`, `command`: string helpers and command outcomes.
- `app/` runs the processes, reads files and environment variables, talks
  to the network, decodes JSON and plugs into `tracing`; it hands plain
  values to the library and back.
- `tests/` exercises the library on concrete values.
