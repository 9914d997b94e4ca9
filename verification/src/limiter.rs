//! Debug message rate limiter.
//!
//! The graphics validation layer can invoke its diagnostic callback with the
//! same message every frame. The limiter deduplicates by exact message text
//! and forwards a given message at most `MESSAGE_EMIT_LIMIT` times; further
//! repetitions are suppressed. Each distinct text has its own independent
//! count. The limiter never asks the calling API to abort.
//!
//! The callback shell at the unverified edge owns the process-wide lock and
//! the raw-pointer handling; it hands the message text and severity in as
//! plain values and performs the logging that the returned disposition asks
//! for.

use vstd::prelude::*;

verus! {

/// How many times one message text is forwarded before it is suppressed.
pub const MESSAGE_EMIT_LIMIT: u32 = 5;

/// Severity flag bit: verbose diagnostics.
pub const SEVERITY_VERBOSE: u32 = 0x1;

/// Severity flag bit: informational messages.
pub const SEVERITY_INFO: u32 = 0x10;

/// Severity flag bit: warnings.
pub const SEVERITY_WARNING: u32 = 0x100;

/// Severity flag bit: errors.
pub const SEVERITY_ERROR: u32 = 0x1000;

/// The log level a forwarded message is reported at.
#[derive(Clone, Copy, Debug, PartialEq, Eq, Structural)]
pub enum LogLevel {
    Error,
    Warn,
    Debug,
    Trace,
}

/// Severity maps to a log level by direct comparison against the reported
/// severity flag: errors and above log as errors, warnings as warnings,
/// informational messages as debug output, anything lower as trace output.
pub open spec fn level_spec(severity: u32) -> LogLevel {
    if severity >= SEVERITY_ERROR {
        LogLevel::Error
    } else if severity >= SEVERITY_WARNING {
        LogLevel::Warn
    } else if severity >= SEVERITY_INFO {
        LogLevel::Debug
    } else {
        LogLevel::Trace
    }
}

/// Map a reported severity flag to the log level it is forwarded at.
pub fn level_for_severity(severity: u32) -> (l: LogLevel)
    ensures
        l == level_spec(severity),
{
    if severity >= SEVERITY_ERROR {
        LogLevel::Error
    } else if severity >= SEVERITY_WARNING {
        LogLevel::Warn
    } else if severity >= SEVERITY_INFO {
        LogLevel::Debug
    } else {
        LogLevel::Trace
    }
}

/// One deduplication record: a message text and how often it was forwarded.
#[derive(Clone, Debug)]
pub struct MessageEntry {
    pub message: String,
    pub count: u32,
}

/// The message texts of `s` are pairwise distinct and every count lies in
/// `[1, MESSAGE_EMIT_LIMIT]`.
pub open spec fn entries_wf(s: Seq<MessageEntry>) -> bool {
    &&& forall|i: int, j: int|
        0 <= i < s.len() && 0 <= j < s.len() && i != j
            ==> s[i].message@ != s[j].message@
    &&& forall|i: int| 0 <= i < s.len() ==> 1 <= #[trigger] s[i].count <= MESSAGE_EMIT_LIMIT
}

/// Some entry of `s` carries the message text `m`.
pub open spec fn has_message(s: Seq<MessageEntry>, m: Seq<char>) -> bool {
    exists|i: int| 0 <= i < s.len() && s[i].message@ == m
}

/// The index of the entry carrying `m` (meaningful when `has_message` holds;
/// unique under `entries_wf`).
pub open spec fn message_index(s: Seq<MessageEntry>, m: Seq<char>) -> int {
    choose|i: int| 0 <= i < s.len() && s[i].message@ == m
}

/// The emission counts as a map from message text to count.
pub open spec fn counts_of(s: Seq<MessageEntry>) -> Map<Seq<char>, nat> {
    Map::new(
        |m: Seq<char>| has_message(s, m),
        |m: Seq<char>| s[message_index(s, m)].count as nat,
    )
}

/// The count recorded for `m`, taking an untracked message as zero.
pub open spec fn emitted_count(counts: Map<Seq<char>, nat>, m: Seq<char>) -> nat {
    if counts.contains_key(m) {
        counts[m]
    } else {
        0
    }
}

/// The count after one more report of a message currently at `c`: it grows
/// until the emission limit and then stays.
pub open spec fn next_count(c: nat) -> nat {
    if c < MESSAGE_EMIT_LIMIT {
        c + 1
    } else {
        c
    }
}

proof fn lemma_message_index_agrees(s: Seq<MessageEntry>, m: Seq<char>, j: int)
    requires
        entries_wf(s),
        0 <= j < s.len(),
        s[j].message@ == m,
    ensures
        has_message(s, m),
        message_index(s, m) == j,
{
    assert(has_message(s, m));
    let i0 = message_index(s, m);
    assert(0 <= i0 < s.len() && s[i0].message@ == m);
    if i0 != j {
        assert(s[i0].message@ != s[j].message@);
    }
}

/// Deduplicating message counter. Its abstract value is the map from message
/// text to how often that text has been forwarded so far.
#[derive(Clone, Debug)]
pub struct DebugMessageLimiter {
    entries: Vec<MessageEntry>,
}

impl View for DebugMessageLimiter {
    type V = Map<Seq<char>, nat>;

    closed spec fn view(&self) -> Map<Seq<char>, nat> {
        counts_of(self.entries@)
    }
}

impl DebugMessageLimiter {
    /// The limiter's internal invariant.
    pub closed spec fn wf(&self) -> bool {
        entries_wf(self.entries@)
    }

    /// A fresh limiter: no message has been seen, every count is zero.
    pub fn new() -> (l: DebugMessageLimiter)
        ensures
            l.wf(),
            l@ =~= Map::<Seq<char>, nat>::empty(),
    {
        let l = DebugMessageLimiter { entries: Vec::new() };
        proof {
            assert forall|m: Seq<char>| !has_message(l.entries@, m) by {}
        }
        l
    }

    fn find_index(&self, message: &String) -> (r: Option<usize>)
        ensures
            match r {
                Some(i) => i < self.entries@.len() && self.entries@[i as int].message@
                    == message@,
                None => forall|j: int|
                    0 <= j < self.entries@.len() ==> self.entries@[j].message@ != message@,
            },
    {
        let mut i: usize = 0;
        while i < self.entries.len()
            invariant
                0 <= i <= self.entries@.len(),
                forall|j: int| 0 <= j < i ==> self.entries@[j].message@ != message@,
            decreases self.entries@.len() - i,
        {
            if self.entries[i].message == *message {
                return Some(i);
            }
            i = i + 1;
        }
        None
    }

    /// Record one report of `message` and decide whether to forward it.
    ///
    /// The message is forwarded exactly when it has been forwarded fewer than
    /// `MESSAGE_EMIT_LIMIT` times before this call; its count then grows by
    /// one, and saturates at the limit otherwise. No other message's count
    /// changes.
    pub fn record(&mut self, message: &String) -> (emit: bool)
        requires
            old(self).wf(),
        ensures
            final(self).wf(),
            emit == (emitted_count(old(self)@, message@) < MESSAGE_EMIT_LIMIT),
            final(self)@ == old(self)@.insert(
                message@,
                next_count(emitted_count(old(self)@, message@)),
            ),
    {
        let ghost s0 = self.entries@;
        match self.find_index(message) {
            Some(i) => {
                proof {
                    lemma_message_index_agrees(s0, message@, i as int);
                }
                let c = self.entries[i].count;
                if c < MESSAGE_EMIT_LIMIT {
                    self.entries[i].count = c + 1;
                    proof {
                        Self::lemma_counts_after_update(s0, self.entries@, i as int, message@);
                    }
                    true
                } else {
                    proof {
                        assert(self@ =~= old(self)@.insert(
                            message@,
                            next_count(emitted_count(old(self)@, message@)),
                        )) by {
                            assert(emitted_count(counts_of(s0), message@) == c as nat);
                        }
                    }
                    false
                }
            },
            None => {
                proof {
                    assert(!has_message(s0, message@));
                }
                self.entries.push(MessageEntry { message: message.clone(), count: 1 });
                proof {
                    Self::lemma_counts_after_push(s0, self.entries@, message@);
                }
                true
            },
        }
    }

    proof fn lemma_counts_after_update(s0: Seq<MessageEntry>, s1: Seq<MessageEntry>, i: int, m: Seq<char>)
        requires
            entries_wf(s0),
            0 <= i < s0.len(),
            s0[i].message@ == m,
            s0[i].count < MESSAGE_EMIT_LIMIT,
            s1 == s0.update(i, MessageEntry { message: s0[i].message, count: (s0[i].count + 1) as u32 }),
        ensures
            entries_wf(s1),
            counts_of(s1) == counts_of(s0).insert(m, next_count(emitted_count(counts_of(s0), m))),
    {
        assert(s1.len() == s0.len());
        assert forall|j: int| 0 <= j < s1.len() implies s1[j].message@ == s0[j].message@ by {}
        assert(entries_wf(s1));
        lemma_message_index_agrees(s0, m, i);
        assert(emitted_count(counts_of(s0), m) == s0[i].count as nat);
        lemma_message_index_agrees(s1, m, i);
        assert forall|k: Seq<char>| #[trigger] has_message(s1, k) == has_message(s0, k) by {
            if has_message(s0, k) {
                let w = choose|w: int| 0 <= w < s0.len() && s0[w].message@ == k;
                assert(s1[w].message@ == k);
            }
            if has_message(s1, k) {
                let w = choose|w: int| 0 <= w < s1.len() && s1[w].message@ == k;
                assert(s0[w].message@ == k);
            }
        }
        assert forall|k: Seq<char>| has_message(s1, k) && k != m implies
            s1[message_index(s1, k)].count == s0[message_index(s0, k)].count by {
            let w = message_index(s1, k);
            assert(0 <= w < s1.len() && s1[w].message@ == k);
            assert(w != i);
            lemma_message_index_agrees(s0, k, w);
            assert(s1[w].count == s0[w].count);
        }
        assert(counts_of(s1) =~= counts_of(s0).insert(m, next_count(emitted_count(counts_of(s0), m))));
    }

    proof fn lemma_counts_after_push(s0: Seq<MessageEntry>, s1: Seq<MessageEntry>, m: Seq<char>)
        requires
            entries_wf(s0),
            !has_message(s0, m),
            s1.len() == s0.len() + 1,
            forall|j: int| 0 <= j < s0.len() ==> s1[j] == s0[j],
            s1[s0.len() as int].message@ == m,
            s1[s0.len() as int].count == 1,
        ensures
            entries_wf(s1),
            counts_of(s1) == counts_of(s0).insert(m, next_count(emitted_count(counts_of(s0), m))),
    {
        let n = s0.len() as int;
        assert forall|i: int, j: int|
            0 <= i < s1.len() && 0 <= j < s1.len() && i != j implies
            s1[i].message@ != s1[j].message@ by {
            if i < n && j < n {
                assert(s0[i].message@ != s0[j].message@);
            } else if i == n && j < n {
                assert(!(s0[j].message@ == m));
            } else if j == n && i < n {
                assert(!(s0[i].message@ == m));
            }
        }
        assert(entries_wf(s1));
        assert(emitted_count(counts_of(s0), m) == 0);
        lemma_message_index_agrees(s1, m, n);
        assert forall|k: Seq<char>| k != m implies
            #[trigger] has_message(s1, k) == has_message(s0, k) by {
            if has_message(s0, k) {
                let w = choose|w: int| 0 <= w < s0.len() && s0[w].message@ == k;
                assert(s1[w].message@ == k);
            }
            if has_message(s1, k) {
                let w = choose|w: int| 0 <= w < s1.len() && s1[w].message@ == k;
                assert(w != n);
                assert(s0[w].message@ == k);
            }
        }
        assert forall|k: Seq<char>| has_message(s1, k) && k != m implies
            s1[message_index(s1, k)].count == s0[message_index(s0, k)].count by {
            let w = message_index(s1, k);
            assert(0 <= w < s1.len() && s1[w].message@ == k);
            assert(w != n);
            lemma_message_index_agrees(s0, k, w);
            assert(s1[w].count == s0[w].count);
        }
        assert(counts_of(s1) =~= counts_of(s0).insert(m, next_count(emitted_count(counts_of(s0), m))));
    }
}

/// What the callback shell should do with one reported message: forward it at
/// the given level, or stay silent; and whether to ask the calling API to
/// abort (never).
#[derive(Clone, Copy, Debug, PartialEq, Eq, Structural)]
pub struct DebugDisposition {
    pub forward: Option<LogLevel>,
    pub abort_call: bool,
}

/// Handle one diagnostic callback: count the message, decide whether it is
/// forwarded and at which level, and never ask the caller to abort.
pub fn handle_debug_message(
    limiter: &mut DebugMessageLimiter,
    severity: u32,
    message: &String,
) -> (r: DebugDisposition)
    requires
        old(limiter).wf(),
    ensures
        final(limiter).wf(),
        r.abort_call == false,
        r.forward == (if emitted_count(old(limiter)@, message@) < MESSAGE_EMIT_LIMIT {
            Some(level_spec(severity))
        } else {
            None::<LogLevel>
        }),
        final(limiter)@ == old(limiter)@.insert(
            message@,
            next_count(emitted_count(old(limiter)@, message@)),
        ),
{
    let emit = limiter.record(message);
    let forward = if emit {
        Some(level_for_severity(severity))
    } else {
        None
    };
    DebugDisposition { forward, abort_call: false }
}

/// How many of `n` consecutive reports of one message are forwarded when its
/// count starts at `c`: each report is forwarded exactly while the count is
/// below the limit, and each forwarded report raises the count by one.
pub open spec fn forwarded_of_repeats(c: nat, n: nat) -> nat
    decreases n,
{
    if n == 0 {
        0
    } else {
        (if c < MESSAGE_EMIT_LIMIT {
            1nat
        } else {
            0nat
        }) + forwarded_of_repeats(next_count(c), (n - 1) as nat)
    }
}

/// Of `n` repeated reports of one message text starting from a fresh count,
/// exactly `n` are forwarded while `n` is within the emission limit, and
/// exactly `MESSAGE_EMIT_LIMIT` once `n` exceeds it: the sixth and every
/// later repetition is suppressed.
pub proof fn lemma_identical_messages_capped(n: nat)
    ensures
        forwarded_of_repeats(0, n) == if n <= MESSAGE_EMIT_LIMIT {
            n
        } else {
            MESSAGE_EMIT_LIMIT as nat
        },
{
    lemma_repeats_forward_remaining(0, n);
}

/// From a count of `c`, `n` repeated reports forward exactly the smaller of
/// `n` and what remains below the emission limit.
pub proof fn lemma_repeats_forward_remaining(c: nat, n: nat)
    requires
        c <= MESSAGE_EMIT_LIMIT,
    ensures
        forwarded_of_repeats(c, n) == if n <= MESSAGE_EMIT_LIMIT - c {
            n
        } else {
            (MESSAGE_EMIT_LIMIT - c) as nat
        },
    decreases n,
{
    if n > 0 {
        lemma_repeats_forward_remaining(next_count(c), (n - 1) as nat);
    }
}

/// Counting one message leaves every other message's count unchanged:
/// distinct texts are limited independently.
pub proof fn lemma_distinct_messages_independent(
    counts: Map<Seq<char>, nat>,
    m1: Seq<char>,
    m2: Seq<char>,
)
    requires
        m1 != m2,
    ensures
        emitted_count(counts.insert(m1, next_count(emitted_count(counts, m1))), m2)
            == emitted_count(counts, m2),
{
}

} // verus!
