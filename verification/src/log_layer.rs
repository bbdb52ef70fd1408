//! A bounded in-memory log that a tracing layer fills and the interface
//! reads.
//!
//! `LogHistory` is the log itself: it keeps the most recent
//! `MAX_LOG_ENTRIES` entries in arrival order and counts every arrival.
//! `LogBuffer` shares one history between the layer that writes it and the
//! readers, behind a lock whose invariant is the history's bound.

use vstd::prelude::*;
use vstd::rwlock::{RwLock, RwLockPredicate};
use std::sync::Arc;
use std::time::SystemTime;
use crate::text::str_eq;

verus! {

#[verifier::external_type_specification]
#[verifier::external_body]
pub struct ExSystemTime(SystemTime);

#[verifier::external_type_specification]
#[verifier::external_body]
pub struct ExLevel(tracing::Level);

/// The most entries the log keeps; older ones are dropped first.
pub const MAX_LOG_ENTRIES: usize = 10_000;

/// One recorded event.
#[derive(Debug)]
pub struct LogEntry {
    pub timestamp: SystemTime,
    pub level: tracing::Level,
    pub target: String,
    pub message: String,
    pub fields: Vec<(String, String)>,
}

/// `a` and `b` record the same event.
pub open spec fn same_entry(a: LogEntry, b: LogEntry) -> bool {
    &&& a.timestamp == b.timestamp
    &&& a.level == b.level
    &&& a.target == b.target
    &&& a.message == b.message
    &&& a.fields@ == b.fields@
}

impl LogEntry {
    /// A copy of this entry.
    pub fn duplicate(&self) -> (r: LogEntry)
        ensures
            same_entry(r, *self),
    {
        let mut fields: Vec<(String, String)> = Vec::new();
        let mut i: usize = 0;
        while i < self.fields.len()
            invariant
                i <= self.fields@.len(),
                fields@ =~= self.fields@.take(i as int),
            decreases self.fields@.len() - i,
        {
            let pair = &self.fields[i];
            fields.push((pair.0.clone(), pair.1.clone()));
            i = i + 1;
        }
        assert(self.fields@.take(self.fields@.len() as int) =~= self.fields@);
        LogEntry {
            timestamp: self.timestamp,
            level: self.level,
            target: self.target.clone(),
            message: self.message.clone(),
            fields,
        }
    }
}

impl Clone for LogEntry {
    fn clone(&self) -> (r: Self)
        ensures
            same_entry(r, *self),
    {
        self.duplicate()
    }
}

/// The log kept after recording `entry` in a log holding `entries`: the
/// entry is appended, and the oldest entry is dropped when the log was full.
pub open spec fn after_push(entries: Seq<LogEntry>, entry: LogEntry) -> Seq<LogEntry> {
    if entries.len() >= MAX_LOG_ENTRIES {
        entries.drop_first().push(entry)
    } else {
        entries.push(entry)
    }
}

/// The arrival count after one more arrival, wrapping at `u64::MAX`.
pub open spec fn next_generation(g: u64) -> u64 {
    if g == u64::MAX {
        0
    } else {
        (g + 1) as u64
    }
}

/// The log after recording each of `pushed` in turn, starting from `entries`.
pub open spec fn after_pushes(entries: Seq<LogEntry>, pushed: Seq<LogEntry>) -> Seq<LogEntry>
    decreases pushed.len(),
{
    if pushed.len() == 0 {
        entries
    } else {
        after_push(after_pushes(entries, pushed.drop_last()), pushed.last())
    }
}

/// The last `MAX_LOG_ENTRIES` elements of `s`, or all of it when shorter.
pub open spec fn latest(s: Seq<LogEntry>) -> Seq<LogEntry> {
    if s.len() > MAX_LOG_ENTRIES {
        s.skip(s.len() - MAX_LOG_ENTRIES)
    } else {
        s
    }
}

/// A log within its bound, after any series of recorded entries, holds the
/// `MAX_LOG_ENTRIES` most recent of all the entries it held and received,
/// oldest first.
pub proof fn lemma_log_keeps_latest(entries: Seq<LogEntry>, pushed: Seq<LogEntry>)
    requires
        entries.len() <= MAX_LOG_ENTRIES,
    ensures
        after_pushes(entries, pushed) == latest(entries + pushed),
    decreases pushed.len(),
{
    if pushed.len() == 0 {
        assert(entries + pushed =~= entries);
    } else {
        let init = pushed.drop_last();
        let x = pushed.last();
        lemma_log_keeps_latest(entries, init);
        let s = entries + init;
        assert(entries + pushed =~= s.push(x));
        if s.len() >= MAX_LOG_ENTRIES {
            assert(latest(s).drop_first().push(x) =~= latest(s.push(x)));
        } else {
            assert(latest(s).push(x) =~= latest(s.push(x)));
        }
    }
}

/// The arrival count after `n` more arrivals.
pub open spec fn generation_after(g: u64, n: nat) -> u64
    decreases n,
{
    if n == 0 {
        g
    } else {
        next_generation(generation_after(g, (n - 1) as nat))
    }
}

/// Every recorded entry advances the arrival count by one, modulo 2^64.
pub proof fn lemma_generation_counts(g: u64, n: nat)
    ensures
        generation_after(g, n) as int == (g + n) % 0x1_0000_0000_0000_0000,
    decreases n,
{
    if n > 0 {
        lemma_generation_counts(g, (n - 1) as nat);
    }
}

/// The most recent log entries and a count of all arrivals.
pub struct LogHistory {
    entries: std::collections::VecDeque<LogEntry>,
    generation: u64,
}

impl LogHistory {
    /// The kept entries, oldest first.
    pub closed spec fn entries(&self) -> Seq<LogEntry> {
        self.entries@
    }

    /// How many entries have arrived, modulo 2^64.
    pub closed spec fn arrivals(&self) -> u64 {
        self.generation
    }

    /// The log holds at most `MAX_LOG_ENTRIES` entries.
    pub open spec fn wf(&self) -> bool {
        self.entries().len() <= MAX_LOG_ENTRIES
    }

    /// An empty log.
    pub fn new() -> (r: Self)
        ensures
            r.entries() == Seq::<LogEntry>::empty(),
            r.arrivals() == 0,
            r.wf(),
    {
        LogHistory { entries: std::collections::VecDeque::with_capacity(MAX_LOG_ENTRIES), generation: 0 }
    }

    /// How many entries have arrived, modulo 2^64.
    pub fn generation(&self) -> (r: u64)
        ensures
            r == self.arrivals(),
    {
        self.generation
    }

    /// Copies of the kept entries, oldest first.
    pub fn snapshot(&self) -> (r: Vec<LogEntry>)
        ensures
            r@.len() == self.entries().len(),
            forall|i: int| 0 <= i < r@.len() ==> same_entry(#[trigger] r@[i], self.entries()[i]),
    {
        broadcast use vstd::std_specs::vecdeque::axiom_spec_len;
        let mut r: Vec<LogEntry> = Vec::new();
        let mut i: usize = 0;
        while i < self.entries.len()
            invariant
                i <= self.entries@.len(),
                r@.len() == i,
                forall|k: int| 0 <= k < i ==> same_entry(#[trigger] r@[k], self.entries@[k]),
            decreases self.entries@.len() - i,
        {
            r.push(self.entries[i].duplicate());
            i = i + 1;
        }
        r
    }

    /// Records one entry, dropping the oldest when the log is full.
    pub fn push(&mut self, entry: LogEntry)
        requires
            old(self).wf(),
        ensures
            final(self).wf(),
            final(self).entries() == after_push(old(self).entries(), entry),
            final(self).arrivals() == next_generation(old(self).arrivals()),
    {
        broadcast use vstd::std_specs::vecdeque::axiom_spec_len;
        if self.entries.len() >= MAX_LOG_ENTRIES {
            self.entries.pop_front();
        }
        self.entries.push_back(entry);
        self.generation = if self.generation == u64::MAX {
            0
        } else {
            self.generation + 1
        };
        assert(self.entries@ =~= after_push(old(self).entries(), entry));
    }
}

/// The invariant of the shared log: it stays within its bound.
pub struct BoundedHistory;

impl RwLockPredicate<LogHistory> for BoundedHistory {
    open spec fn inv(self, v: LogHistory) -> bool {
        v.wf()
    }
}

/// A log shared between the layer that writes it and its readers; clones
/// share the same log.
#[derive(Clone)]
pub struct LogBuffer {
    inner: Arc<RwLock<LogHistory, BoundedHistory>>,
}

impl LogBuffer {
    /// A new, empty shared log.
    pub fn new() -> (r: Self) {
        LogBuffer { inner: Arc::new(RwLock::new(LogHistory::new(), Ghost(BoundedHistory))) }
    }

    /// How many entries have arrived so far, modulo 2^64. Other clones of
    /// the buffer may record entries at any time, so no value is promised.
    pub fn generation(&self) -> (r: u64) {
        let handle = self.inner.acquire_read();
        let g = handle.borrow().generation();
        handle.release_read();
        g
    }

    /// Copies of the kept entries, oldest first; at most `MAX_LOG_ENTRIES`.
    pub fn snapshot(&self) -> (r: Vec<LogEntry>)
        ensures
            r@.len() <= MAX_LOG_ENTRIES,
    {
        let handle = self.inner.acquire_read();
        let entries = handle.borrow().snapshot();
        handle.release_read();
        entries
    }

    /// Records one entry in the shared log.
    pub fn push(&self, entry: LogEntry) {
        let (mut history, handle) = self.inner.acquire_write();
        history.push(entry);
        handle.release_write(history);
    }
}


/// The character views of recorded field name and value pairs.
pub open spec fn field_views(fields: Seq<(String, String)>) -> Seq<(Seq<char>, Seq<char>)> {
    fields.map_values(|f: (String, String)| (f.0@, f.1@))
}

/// Collects the message and the other fields of one event.
#[derive(Debug)]
pub struct FieldVisitor {
    pub message: String,
    pub fields: Vec<(String, String)>,
}

impl Default for FieldVisitor {
    fn default() -> (r: Self)
        ensures
            r.message@ == Seq::<char>::empty(),
            r.fields@ == Seq::<(String, String)>::empty(),
    {
        FieldVisitor::new()
    }
}

impl FieldVisitor {
    /// A visitor that has seen no field yet.
    pub fn new() -> (r: Self)
        ensures
            r.message@ == Seq::<char>::empty(),
            r.fields@ == Seq::<(String, String)>::empty(),
    {
        FieldVisitor { message: String::new(), fields: Vec::new() }
    }

    /// Records the field `field_name` with its value as text: the field
    /// named `message` becomes the message, every other field is appended
    /// to the fields in the order seen.
    pub fn record_field(&mut self, field_name: &str, value: String)
        ensures
            field_name@ == "message"@ ==> final(self).message == value && final(self).fields@
                == old(self).fields@,
            field_name@ != "message"@ ==> final(self).message == old(self).message && field_views(
                final(self).fields@,
            ) == field_views(old(self).fields@).push((field_name@, value@)),
    {
        if str_eq(field_name, "message") {
            self.message = value;
        } else {
            self.fields.push((field_name.to_owned(), value));
            assert(field_views(self.fields@) =~= field_views(old(self).fields@).push(
                (field_name@, value@),
            ));
        }
    }

    /// Records a field given as a string slice.
    pub fn record_str(&mut self, field_name: &str, value: &str)
        ensures
            field_name@ == "message"@ ==> final(self).message@ == value@ && final(self).fields@
                == old(self).fields@,
            field_name@ != "message"@ ==> final(self).message == old(self).message && field_views(
                final(self).fields@,
            ) == field_views(old(self).fields@).push((field_name@, value@)),
    {
        self.record_field(field_name, value.to_owned());
    }

    /// Records a field given by its debug rendering.
    pub fn record_debug(&mut self, field_name: &str, rendered: String)
        ensures
            field_name@ == "message"@ ==> final(self).message == rendered && final(self).fields@
                == old(self).fields@,
            field_name@ != "message"@ ==> final(self).message == old(self).message && field_views(
                final(self).fields@,
            ) == field_views(old(self).fields@).push((field_name@, rendered@)),
    {
        self.record_field(field_name, rendered);
    }
}

/// A tracing layer that records every event in a shared log.
pub struct InMemoryLayer {
    buffer: LogBuffer,
}

/// The entry recorded for an event.
pub open spec fn entry_of_event(
    timestamp: SystemTime,
    level: tracing::Level,
    target: String,
    visitor: FieldVisitor,
    e: LogEntry,
) -> bool {
    &&& e.timestamp == timestamp
    &&& e.level == level
    &&& e.target == target
    &&& e.message == visitor.message
    &&& e.fields == visitor.fields
}

/// The entry for an event seen at `timestamp`, with the event's level,
/// target and recorded fields.
pub fn event_entry(
    timestamp: SystemTime,
    level: tracing::Level,
    target: String,
    visitor: FieldVisitor,
) -> (e: LogEntry)
    ensures
        entry_of_event(timestamp, level, target, visitor, e),
{
    LogEntry { timestamp, level, target, message: visitor.message, fields: visitor.fields }
}

impl InMemoryLayer {
    /// The shared log this layer writes to.
    pub closed spec fn log(&self) -> LogBuffer {
        self.buffer
    }

    /// A layer writing to `buffer`.
    pub fn new(buffer: LogBuffer) -> (r: Self)
        ensures
            r.log() == buffer,
    {
        Self { buffer }
    }

    /// Records one event in the shared log.
    pub fn record_event(
        &self,
        timestamp: SystemTime,
        level: tracing::Level,
        target: String,
        visitor: FieldVisitor,
    ) {
        self.buffer.push(event_entry(timestamp, level, target, visitor));
    }
}

} // verus!
