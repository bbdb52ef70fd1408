//! Agent session records read from per-session JSON state files.
//!
//! The caller reads and decodes each file and checks whether the recorded
//! process is alive; the library decides whether the session is still
//! current and what record it yields.

use vstd::prelude::*;
use vstd::string::*;
use std::path::PathBuf;
use std::time::{SystemTime, UNIX_EPOCH};
use crate::agent::{AgentSessionRecord, AgentState, SessionMetadata};
use crate::review_service::opt_view;
use crate::text::{decimal, decimal_string, str_eq};

verus! {

#[verifier::external_type_specification]
#[verifier::external_body]
pub struct ExPathBuf(PathBuf);

/// Reads agent session state from JSON files in a directory.
pub struct FileAgentSessionStore {
    dir: PathBuf,
}

impl FileAgentSessionStore {
    /// The directory the state files are read from.
    pub closed spec fn directory(&self) -> PathBuf {
        self.dir
    }

    /// A store over the state files in `dir`.
    pub fn new(dir: PathBuf) -> (s: Self)
        ensures
            s.directory() == dir,
    {
        Self { dir }
    }

    /// The directory the state files are read from.
    pub fn dir(&self) -> (d: &PathBuf)
        ensures
            *d == self.directory(),
    {
        &self.dir
    }
}

/// The contents of one session state file.
#[derive(Clone, Debug)]
pub struct RawSessionState {
    pub session_id: String,
    pub cwd: String,
    pub status: String,
    pub pid: Option<u32>,
    pub updated_at: Option<String>,
    pub project: Option<String>,
    pub branch: Option<String>,
    pub workspace: Option<String>,
    pub blocked_on: Option<String>,
    pub message: Option<String>,
}

/// Seconds after which a finished session is no longer loaded.
pub const DONE_EXPIRY_SECS: i64 = 600;

/// The status a state file without one is read with.
pub fn default_status() -> (s: String)
    ensures
        s@ == "idle"@,
{
    "idle".to_owned()
}

/// Unix seconds and sub-second nanoseconds of the instant that an RFC 3339
/// timestamp denotes, or nothing when the text is not such a timestamp.
pub uninterp spec fn rfc3339_instant(text: Seq<char>) -> Option<(i64, u32)>;

/// Calls `chrono::DateTime::parse_from_rfc3339`, and gives the parsed
/// instant as `DateTime::timestamp` and `DateTime::timestamp_subsec_nanos`
/// report it; nothing on a parse error. The contract claims only that the
/// result depends on the text alone.
#[verifier::external_body]
fn parse_rfc3339_instant(text: &str) -> (r: Option<(i64, u32)>)
    ensures
        r == rfc3339_instant(text@),
{
    match chrono::DateTime::parse_from_rfc3339(text) {
        Ok(dt) => Some((dt.timestamp(), dt.timestamp_subsec_nanos())),
        Err(_) => None,
    }
}

/// Whole seconds from `earlier` to `later` (Unix seconds and nanoseconds),
/// truncated toward zero, as chrono measures them; nothing when either is
/// not a valid instant.
pub uninterp spec fn whole_seconds_between(later: (i64, u32), earlier: (i64, u32)) -> Option<i64>;

/// The exact signed nanoseconds from `earlier` to `later`.
pub open spec fn nanos_between(later: (i64, u32), earlier: (i64, u32)) -> int {
    (later.0 - earlier.0) * 1_000_000_000 + later.1 - earlier.1
}

/// `n / 1_000_000_000` rounded toward zero.
pub open spec fn whole_seconds_of_nanos(n: int) -> int {
    if n >= 0 {
        n / 1_000_000_000
    } else {
        -((-n) / 1_000_000_000)
    }
}

/// Calls `chrono::DateTime::signed_duration_since` on the two instants
/// (rebuilt with `DateTime::from_timestamp`) and `TimeDelta::num_seconds`
/// on the difference. The contract claims that the result depends on the
/// instants alone, and that outside leap seconds (both nanosecond parts
/// below one second) a result is the exact difference truncated toward
/// zero; it leaves unsaid which instants are valid and how leap seconds
/// count.
#[verifier::external_body]
fn seconds_between(later: (i64, u32), earlier: (i64, u32)) -> (r: Option<i64>)
    ensures
        r == whole_seconds_between(later, earlier),
        later.1 < 1_000_000_000 && earlier.1 < 1_000_000_000 && r is Some ==> r->0
            == whole_seconds_of_nanos(nanos_between(later, earlier)),
{
    match (
        chrono::DateTime::from_timestamp(later.0, later.1),
        chrono::DateTime::from_timestamp(earlier.0, earlier.1),
    ) {
        (Some(l), Some(e)) => Some(l.signed_duration_since(e).num_seconds()),
        _ => None,
    }
}

/// Calls `std::time::SystemTime::now`. Nothing is claimed of the value,
/// which is the time.
#[verifier::external_body]
fn system_time_now() -> (r: SystemTime) {
    SystemTime::now()
}

/// Calls `SystemTime::duration_since(UNIX_EPOCH)` on `t` and gives how far
/// `t` lies from the epoch: whether it is at or after the epoch, then the
/// distance as whole seconds (`Duration::as_secs`) and the nanoseconds past
/// them (`Duration::subsec_nanos`, below one second as its documentation
/// says). For a `t` before the epoch the distance is the one that the
/// error reports (`SystemTimeError::duration`). The contract leaves unsaid
/// which value a given `t` gives, since a `SystemTime` has no view here.
#[verifier::external_body]
fn time_since_unix_epoch(t: SystemTime) -> (r: (bool, u64, u32))
    ensures
        r.2 < 1_000_000_000,
{
    match t.duration_since(UNIX_EPOCH) {
        Ok(d) => (true, d.as_secs(), d.subsec_nanos()),
        Err(e) => (false, e.duration().as_secs(), e.duration().subsec_nanos()),
    }
}

/// The current instant as Unix seconds and nanoseconds within the second;
/// instants before 1970 have negative seconds, and instants beyond what
/// `i64` seconds hold are clamped to its bounds.
fn clock_instant() -> (r: (i64, u32))
    ensures
        r.1 < 1_000_000_000,
{
    let (after, secs, nanos) = time_since_unix_epoch(system_time_now());
    if after {
        if secs <= i64::MAX as u64 {
            (secs as i64, nanos)
        } else {
            (i64::MAX, nanos)
        }
    } else {
        let whole: i128 = if nanos == 0 {
            -(secs as i128)
        } else {
            -(secs as i128) - 1
        };
        let frac: u32 = if nanos == 0 {
            0
        } else {
            1_000_000_000 - nanos
        };
        if whole >= i64::MIN as i128 {
            (whole as i64, frac)
        } else {
            (i64::MIN, frac)
        }
    }
}

/// `working` is working; `done` and `idle` are done; anything else waits.
pub open spec fn state_of_status(status: Seq<char>) -> AgentState {
    if status == "working"@ {
        AgentState::Working
    } else if status == "done"@ || status == "idle"@ {
        AgentState::Done
    } else {
        AgentState::Waiting
    }
}

/// A finished session: `done` or `idle`.
pub open spec fn is_finished_status(status: Seq<char>) -> bool {
    status == "done"@ || status == "idle"@
}

/// Milliseconds since the Unix epoch, as `DateTime::timestamp_millis` counts them.
pub open spec fn unix_millis(instant: (i64, u32)) -> int {
    instant.0 * 1000 + instant.1 / 1_000_000
}

/// A signed millisecond count in two's complement on 64 bits, as `as u64` gives it.
pub open spec fn wrap_u64(m: int) -> u64 {
    (m % 0x1_0000_0000_0000_0000) as u64
}

/// The recorded update time: the parsed timestamp in milliseconds, or 0.
pub open spec fn updated_at_millis(updated: Option<(i64, u32)>) -> u64 {
    match updated {
        Some(i) => wrap_u64(unix_millis(i)),
        None => 0,
    }
}

/// A reported detail, kept only when present and non-empty.
pub open spec fn non_empty(o: Option<String>) -> Option<String> {
    match o {
        Some(s) => if s@.len() > 0 {
            Some(s)
        } else {
            None
        },
        None => None,
    }
}

/// The process id in decimal, when there is one.
pub open spec fn pid_text(pid: Option<u32>) -> Option<Seq<char>> {
    match pid {
        Some(p) => Some(decimal(p as nat)),
        None => None,
    }
}

/// `meta` holds the non-empty details of `raw`: nothing when there are
/// none, else each detail that is present and non-empty.
pub open spec fn metadata_of(raw: RawSessionState, meta: Option<SessionMetadata>) -> bool {
    let none_left = non_empty(raw.project) is None && non_empty(raw.branch) is None && non_empty(
        raw.workspace,
    ) is None && non_empty(raw.blocked_on) is None && non_empty(raw.message) is None
        && raw.pid is None;
    if none_left {
        meta is None
    } else {
        meta matches Some(m) && {
            &&& m.project == non_empty(raw.project)
            &&& m.branch == non_empty(raw.branch)
            &&& m.workspace == non_empty(raw.workspace)
            &&& m.blocked_on == non_empty(raw.blocked_on)
            &&& m.message == non_empty(raw.message)
            &&& opt_view(m.pid) == pid_text(raw.pid)
        }
    }
}

/// `r` is the record of `raw`, with `updated` the parsed update time.
pub open spec fn record_from_state(
    raw: RawSessionState,
    updated: Option<(i64, u32)>,
    r: AgentSessionRecord,
) -> bool {
    &&& r.session_id == raw.session_id
    &&& r.cwd == raw.cwd
    &&& r.state == state_of_status(raw.status@)
    &&& r.updated_at_unix_ms == updated_at_millis(updated)
    &&& metadata_of(raw, r.metadata)
    &&& r.pid == raw.pid
}

/// The session is dropped: its process is gone, or it finished more than
/// the expiry period ago.
pub open spec fn session_dropped(raw: RawSessionState, pid_alive: bool, age_secs: Option<i64>) -> bool {
    ||| raw.pid is Some && !pid_alive
    ||| is_finished_status(raw.status@) && age_secs is Some && age_secs->0 > DONE_EXPIRY_SECS
}

fn keep_non_empty(o: Option<String>) -> (r: Option<String>)
    ensures
        r == non_empty(o),
{
    match o {
        Some(s) => if s.as_str().unicode_len() > 0 {
            Some(s)
        } else {
            None
        },
        None => None,
    }
}

fn millis_u64(instant: (i64, u32)) -> (r: u64)
    ensures
        r == wrap_u64(unix_millis(instant)),
{
    let ms: i128 = (instant.0 as i128) * 1000 + ((instant.1 / 1_000_000) as i128);
    assert(ms == unix_millis(instant));
    if ms >= 0 {
        let m = (ms as u128) % 0x1_0000_0000_0000_0000u128;
        m as u64
    } else {
        let p = ((-ms) as u128) % 0x1_0000_0000_0000_0000u128;
        if p == 0 {
            0
        } else {
            (0x1_0000_0000_0000_0000u128 - p) as u64
        }
    }
}

/// The state a status string maps to.
pub fn session_state(status: &str) -> (r: AgentState)
    ensures
        r == state_of_status(status@),
{
    if str_eq(status, "working") {
        AgentState::Working
    } else if str_eq(status, "done") || str_eq(status, "idle") {
        AgentState::Done
    } else {
        AgentState::Waiting
    }
}

/// The record of a state file, given whether its process is alive, its
/// parsed update time and the age in seconds of a finished session: nothing
/// for a session whose process is gone or that finished more than ten
/// minutes ago.
pub fn session_record_from_parts(
    raw: RawSessionState,
    pid_alive: bool,
    updated: Option<(i64, u32)>,
    age_secs: Option<i64>,
) -> (r: Option<AgentSessionRecord>)
    ensures
        r is None <==> session_dropped(raw, pid_alive, age_secs),
        r matches Some(rec) ==> record_from_state(raw, updated, rec),
        raw.pid is Some && !pid_alive ==> r is None,
        is_finished_status(raw.status@) && age_secs is Some && age_secs->0 > DONE_EXPIRY_SECS
            ==> r is None,
        (raw.pid is None || pid_alive) && !is_finished_status(raw.status@) ==> r is Some,
{
    if raw.pid.is_some() && !pid_alive {
        return None;
    }
    let finished = str_eq(raw.status.as_str(), "done") || str_eq(raw.status.as_str(), "idle");
    if finished {
        if let Some(age) = age_secs {
            if age > DONE_EXPIRY_SECS {
                return None;
            }
        }
    }
    let state = session_state(raw.status.as_str());
    let updated_at_unix_ms = match updated {
        Some(i) => millis_u64(i),
        None => 0,
    };
    let project = keep_non_empty(raw.project);
    let branch = keep_non_empty(raw.branch);
    let workspace = keep_non_empty(raw.workspace);
    let blocked_on = keep_non_empty(raw.blocked_on);
    let message = keep_non_empty(raw.message);
    let pid = match raw.pid {
        Some(p) => Some(decimal_string(p as u64)),
        None => None,
    };
    let metadata = if project.is_none() && branch.is_none() && workspace.is_none()
        && blocked_on.is_none() && message.is_none() && pid.is_none() {
        None
    } else {
        Some(SessionMetadata { project, branch, workspace, blocked_on, message, pid })
    };
    Some(
        AgentSessionRecord {
            session_id: raw.session_id,
            cwd: raw.cwd,
            state,
            updated_at_unix_ms,
            metadata,
            pid: raw.pid,
        },
    )
}

/// The update time that a state file's timestamp parses to.
pub open spec fn parsed_update(raw: RawSessionState) -> Option<(i64, u32)> {
    match raw.updated_at {
        Some(t) => rfc3339_instant(t@),
        None => None,
    }
}

/// The age in seconds at `now` of a finished session with a parseable
/// update time; nothing for any other session.
pub open spec fn finished_age(raw: RawSessionState, now: (i64, u32)) -> Option<i64> {
    if is_finished_status(raw.status@) && parsed_update(raw) is Some {
        whole_seconds_between(now, parsed_update(raw)->0)
    } else {
        None
    }
}

/// `r` is what the state file `raw` comes to at instant `now`.
pub open spec fn record_at(
    raw: RawSessionState,
    pid_alive: bool,
    now: (i64, u32),
    r: Option<AgentSessionRecord>,
) -> bool {
    &&& r is None <==> session_dropped(raw, pid_alive, finished_age(raw, now))
    &&& r matches Some(rec) ==> record_from_state(raw, parsed_update(raw), rec)
}

/// The record of a state file at instant `now` (Unix seconds and nanoseconds).
pub fn session_record_at(raw: RawSessionState, pid_alive: bool, now: (i64, u32)) -> (r: Option<
    AgentSessionRecord,
>)
    ensures
        record_at(raw, pid_alive, now, r),
        raw.pid is Some && !pid_alive ==> r is None,
{
    let updated = match &raw.updated_at {
        Some(t) => parse_rfc3339_instant(t.as_str()),
        None => None,
    };
    let finished = str_eq(raw.status.as_str(), "done") || str_eq(raw.status.as_str(), "idle");
    let age = if finished {
        match updated {
            Some(i) => seconds_between(now, i),
            None => None,
        }
    } else {
        None
    };
    session_record_from_parts(raw, pid_alive, updated, age)
}

/// `r` is what the state file `raw` comes to, given whether its process
/// is alive, its parsed update time and the age of a finished session.
pub open spec fn record_from_parts(
    raw: RawSessionState,
    pid_alive: bool,
    updated: Option<(i64, u32)>,
    age_secs: Option<i64>,
    r: Option<AgentSessionRecord>,
) -> bool {
    &&& r is None <==> session_dropped(raw, pid_alive, age_secs)
    &&& r matches Some(rec) ==> record_from_state(raw, updated, rec)
}

/// `r` is what the state file `raw` comes to when loaded: at some instant
/// of the clock for a finished session with a parseable update time, and
/// with no age for any other session.
pub open spec fn loaded_record(raw: RawSessionState, pid_alive: bool, r: Option<AgentSessionRecord>) -> bool {
    if is_finished_status(raw.status@) && parsed_update(raw) is Some {
        exists|now: (i64, u32)| now.1 < 1_000_000_000 && record_at(raw, pid_alive, now, r)
    } else {
        record_from_parts(raw, pid_alive, parsed_update(raw), None, r)
    }
}

/// The record of a state file now. The clock is read only for a finished
/// session with a parseable update time.
pub fn load_session_record(raw: RawSessionState, pid_alive: bool) -> (r: Option<AgentSessionRecord>)
    ensures
        !(is_finished_status(raw.status@) && parsed_update(raw) is Some) ==> record_from_parts(
            raw,
            pid_alive,
            parsed_update(raw),
            None,
            r,
        ),
        is_finished_status(raw.status@) && parsed_update(raw) is Some ==> exists|now: (i64, u32)|
            now.1 < 1_000_000_000 && record_at(raw, pid_alive, now, r),
        loaded_record(raw, pid_alive, r),
        raw.pid is Some && !pid_alive ==> r is None,
{
    let updated = match &raw.updated_at {
        Some(t) => parse_rfc3339_instant(t.as_str()),
        None => None,
    };
    let finished = str_eq(raw.status.as_str(), "done") || str_eq(raw.status.as_str(), "idle");
    if finished && updated.is_some() {
        let now = clock_instant();
        let r = session_record_at(raw, pid_alive, now);
        assert(now.1 < 1_000_000_000 && record_at(raw, pid_alive, now, r));
        r
    } else {
        session_record_from_parts(raw, pid_alive, updated, None)
    }
}

/// Whatever its status, age or update time, a session whose recorded
/// process is no longer alive is never loaded.
pub proof fn lemma_dead_process_dropped(
    raw: RawSessionState,
    pid_alive: bool,
    updated: Option<(i64, u32)>,
    age_secs: Option<i64>,
    r: Option<AgentSessionRecord>,
)
    requires
        record_from_parts(raw, pid_alive, updated, age_secs, r),
        raw.pid is Some,
        !pid_alive,
    ensures
        r is None,
{
}

/// At every instant, a session whose recorded process is no longer alive
/// comes to nothing; and so does its loading.
pub proof fn lemma_dead_process_dropped_at_any_instant(
    raw: RawSessionState,
    pid_alive: bool,
    now: (i64, u32),
    r: Option<AgentSessionRecord>,
    loaded: Option<AgentSessionRecord>,
)
    requires
        record_at(raw, pid_alive, now, r),
        loaded_record(raw, pid_alive, loaded),
        raw.pid is Some,
        !pid_alive,
    ensures
        r is None,
        loaded is None,
{
}

/// A session that is not finished and whose process is alive (or not
/// recorded) is loaded at every instant, whatever its age, with the state
/// its status maps to.
pub proof fn lemma_unfinished_live_session_kept(
    raw: RawSessionState,
    pid_alive: bool,
    now: (i64, u32),
    r: Option<AgentSessionRecord>,
)
    requires
        record_at(raw, pid_alive, now, r),
        raw.pid is None || pid_alive,
        !is_finished_status(raw.status@),
    ensures
        r matches Some(rec) && rec.session_id == raw.session_id && rec.state == state_of_status(
            raw.status@,
        ) && rec.state != AgentState::Done,
{
}

/// A finished session (status `done` or `idle`) with a parseable update
/// time, whose process is not known dead, is dropped at instant `now`
/// exactly when the whole seconds from its update time to `now` are known
/// and exceed the expiry period.
pub proof fn lemma_finished_session_expiry(
    raw: RawSessionState,
    pid_alive: bool,
    now: (i64, u32),
    r: Option<AgentSessionRecord>,
)
    requires
        record_at(raw, pid_alive, now, r),
        raw.status@ == "done"@ || raw.status@ == "idle"@,
        parsed_update(raw) is Some,
        raw.pid is None || pid_alive,
    ensures
        r is None <==> (whole_seconds_between(now, parsed_update(raw)->0) is Some
            && whole_seconds_between(now, parsed_update(raw)->0)->0 > DONE_EXPIRY_SECS),
        r matches Some(rec) ==> rec.state == AgentState::Done,
{
    reveal_strlit("working");
    reveal_strlit("done");
    reveal_strlit("idle");
    assert("idle"@[0] != "working"@[0]);
    assert("done"@[0] != "working"@[0]);
    assert("idle"@ != "working"@);
    assert("done"@ != "working"@);
}

/// `idle` and `done` sessions expire alike: two state files that differ
/// only in which of the two statuses they hold are, at the same instant,
/// both loaded or both dropped, and a loaded one is `Done` either way.
pub proof fn lemma_idle_expires_like_done(
    done: RawSessionState,
    idle: RawSessionState,
    pid_alive: bool,
    now: (i64, u32),
    r_done: Option<AgentSessionRecord>,
    r_idle: Option<AgentSessionRecord>,
)
    requires
        done.status@ == "done"@,
        idle.status@ == "idle"@,
        idle == (RawSessionState { status: idle.status, ..done }),
        record_at(done, pid_alive, now, r_done),
        record_at(idle, pid_alive, now, r_idle),
    ensures
        r_done is None <==> r_idle is None,
        r_idle matches Some(rec) ==> rec.state == AgentState::Done,
{
    reveal_strlit("working");
    reveal_strlit("done");
    reveal_strlit("idle");
    assert("idle"@[0] != "working"@[0]);
    assert("done"@[0] != "working"@[0]);
    assert("idle"@ != "working"@);
    assert("done"@ != "working"@);
}

/// A session loaded at some instant was, if finished with a parseable
/// update time and a process not known dead, at most the expiry period old
/// by the clock at that instant, or of unknown age; one dropped was older.
pub proof fn lemma_loaded_finished_session_age(
    raw: RawSessionState,
    pid_alive: bool,
    r: Option<AgentSessionRecord>,
)
    requires
        loaded_record(raw, pid_alive, r),
        is_finished_status(raw.status@),
        parsed_update(raw) is Some,
        raw.pid is None || pid_alive,
    ensures
        exists|now: (i64, u32)|
            now.1 < 1_000_000_000 && (r is None <==> (whole_seconds_between(
                now,
                parsed_update(raw)->0,
            ) is Some && whole_seconds_between(now, parsed_update(raw)->0)->0
                > DONE_EXPIRY_SECS)),
{
    let now = choose|now: (i64, u32)| now.1 < 1_000_000_000 && record_at(raw, pid_alive, now, r);
    assert(now.1 < 1_000_000_000 && (r is None <==> (whole_seconds_between(
        now,
        parsed_update(raw)->0,
    ) is Some && whole_seconds_between(now, parsed_update(raw)->0)->0 > DONE_EXPIRY_SECS)));
}

/// One past the index of the last `.` before `j` in `name`, or 0 if none.
pub open spec fn last_dot_end(name: Seq<u8>, j: int) -> int
    decreases j,
{
    if j <= 0 {
        0
    } else if name[j - 1] == 0x2e {
        j
    } else {
        last_dot_end(name, j - 1)
    }
}

proof fn lemma_last_dot_end(name: Seq<u8>, j: int)
    requires
        0 <= j <= name.len(),
    ensures
        0 <= last_dot_end(name, j) <= j,
        last_dot_end(name, j) > 0 ==> name[last_dot_end(name, j) - 1] == 0x2e,
    decreases j,
{
    if j > 0 && name[j - 1] != 0x2e {
        lemma_last_dot_end(name, j - 1);
    }
}

/// A directory entry named `name` has the extension `json`, as
/// `Path::extension` reads a single file name: the text after the last `.`,
/// where a name whose only `.` comes first has no extension.
pub open spec fn has_json_extension(name: Seq<u8>) -> bool {
    let k = last_dot_end(name, name.len() as int);
    k > 1 && name.skip(k) == seq![0x6au8, 0x73u8, 0x6fu8, 0x6eu8]
}

/// Whether the directory entry named `name` (its bytes) is a state file.
pub fn is_state_file_name(name: &[u8]) -> (r: bool)
    ensures
        r == has_json_extension(name@),
{
    let n = name.len();
    let mut k: usize = n;
    while k > 0 && name[k - 1] != 0x2e
        invariant
            n == name@.len(),
            k <= n,
            last_dot_end(name@, n as int) == last_dot_end(name@, k as int),
        decreases k,
    {
        k = k - 1;
    }
    proof {
        lemma_last_dot_end(name@, n as int);
    }
    if k <= 1 {
        return false;
    }
    if n - k != 4 {
        assert(name@.skip(k as int).len() != seq![0x6au8, 0x73u8, 0x6fu8, 0x6eu8].len());
        return false;
    }
    let r = name[k] == 0x6a && name[k + 1] == 0x73 && name[k + 2] == 0x6f && name[k + 3] == 0x6e;
    assert(r == (name@.skip(k as int) =~= seq![0x6au8, 0x73u8, 0x6fu8, 0x6eu8]));
    r
}

/// What reading one state file came to.
#[derive(Debug)]
pub enum StateFileRead {
    /// The file held a current session.
    Loaded(AgentSessionRecord),
    /// The file held a session that is no longer current.
    Stale,
    /// The file could not be read or decoded.
    Unreadable,
}

/// What listing the state directory came to.
#[derive(Debug)]
pub enum StateDirListing<E> {
    /// The directory does not exist.
    Missing,
    /// The directory could not be listed.
    Failed(E),
    /// The state files found in it, each as reading it came to.
    Read(Vec<StateFileRead>),
}

/// The records of the current sessions among `reads`, in order.
pub open spec fn loaded_records(reads: Seq<StateFileRead>) -> Seq<AgentSessionRecord>
    decreases reads.len(),
{
    if reads.len() == 0 {
        Seq::empty()
    } else {
        match reads[0] {
            StateFileRead::Loaded(r) => seq![r] + loaded_records(reads.drop_first()),
            _ => loaded_records(reads.drop_first()),
        }
    }
}

/// The sessions a state directory holds: none when it is missing, the
/// listing error when it cannot be listed, and otherwise the current
/// sessions of the files read, skipping stale and unreadable ones.
pub fn collect_session_records<E>(listing: StateDirListing<E>) -> (r: Result<
    Vec<AgentSessionRecord>,
    E,
>)
    ensures
        match listing {
            StateDirListing::Missing => r matches Ok(v) && v@.len() == 0,
            StateDirListing::Failed(e) => r matches Err(x) && x == e,
            StateDirListing::Read(reads) => r matches Ok(v) && v@ == loaded_records(reads@),
        },
{
    match listing {
        StateDirListing::Missing => Ok(Vec::new()),
        StateDirListing::Failed(e) => Err(e),
        StateDirListing::Read(reads) => {
            let ghost all = reads@;
            let mut rest = reads;
            let mut out: Vec<AgentSessionRecord> = Vec::new();
            while rest.len() > 0
                invariant
                    out@ + loaded_records(rest@) == loaded_records(all),
                decreases rest@.len(),
            {
                let ghost before = rest@;
                let read = rest.remove(0);
                assert(rest@ =~= before.drop_first());
                match read {
                    StateFileRead::Loaded(rec) => {
                        assert(out@.push(rec) + loaded_records(rest@) =~= out@ + loaded_records(
                            before,
                        ));
                        out.push(rec);
                    },
                    _ => {},
                }
            }
            assert(out@ + loaded_records(rest@) =~= out@);
            Ok(out)
        },
    }
}

} // verus!
