//! MFA login: the per-challenge-token attempt limiter and the application that
//! owns it.
//!
//! After a password login with MFA enrolled, the client holds a short-lived
//! challenge token. Each verification attempt for a token is keyed by the
//! SHA-256 of the token. Five failed codes within a fifteen-minute window lock
//! the token; a successful verification forgets it; windows that have run out
//! are pruned on every attempt.

use vstd::prelude::*;
use crate::crypto::{hex_lower, sha256, sha256_hex};
use crate::domain::{found_or_not_found, UserIdentity};
use crate::errors::{ErrorKind, ServiceError};
use vstd::string::StringSliceAdditionalSpecFns;

verus! {

/// Maximum failed codes accepted for one challenge token within a window.
pub const MAX_MFA_ATTEMPTS: u8 = 5;

/// Length of the attempt window in seconds (fifteen minutes).
pub const MFA_WINDOW_SECS: u64 = 900;

/// What the limiter knows of one token: failures so far and when the window began.
pub type AttemptRecord = (u8, u64);

/// Seconds from `start` to `now`; zero when the clock reads earlier than `start`.
pub open spec fn window_elapsed(start: u64, now: u64) -> int {
    if now >= start {
        now - start
    } else {
        0
    }
}

/// Whether a window that began at `start` is still open at `now`.
pub open spec fn window_open(start: u64, now: u64) -> bool {
    window_elapsed(start, now) < MFA_WINDOW_SECS
}

/// The records of `m` whose windows are still open at `now`.
pub open spec fn pruned(m: Map<Seq<char>, AttemptRecord>, now: u64) -> Map<Seq<char>, AttemptRecord> {
    Map::new(|k: Seq<char>| m.contains_key(k) && window_open(m[k].1, now), |k: Seq<char>| m[k])
}

/// Whether `key` is locked at `now`: its window is open and holds the maximum
/// number of failures.
pub open spec fn locked(m: Map<Seq<char>, AttemptRecord>, key: Seq<char>, now: u64) -> bool {
    &&& m.contains_key(key)
    &&& window_open(m[key].1, now)
    &&& m[key].0 >= MAX_MFA_ATTEMPTS
}

/// The record of a token after one more failure at `now`: a missing record or
/// one whose window ran out starts a new window with one failure; otherwise the
/// count grows by one (saturating).
pub open spec fn failed_record(old: Option<AttemptRecord>, now: u64) -> AttemptRecord {
    match old {
        None => (1, now),
        Some(r) => if window_elapsed(r.1, now) >= MFA_WINDOW_SECS {
            (1, now)
        } else if r.0 == u8::MAX {
            (u8::MAX, r.1)
        } else {
            ((r.0 + 1) as u8, r.1)
        },
    }
}

/// The records after a failed code for `key` at `now`.
pub open spec fn after_failure(
    m: Map<Seq<char>, AttemptRecord>,
    key: Seq<char>,
    now: u64,
) -> Map<Seq<char>, AttemptRecord> {
    m.insert(key, failed_record(if m.contains_key(key) { Some(m[key]) } else { None }, now))
}

/// The records after failed codes for `key` at each of `times`, in order.
pub open spec fn after_failures(
    m: Map<Seq<char>, AttemptRecord>,
    key: Seq<char>,
    times: Seq<u64>,
) -> Map<Seq<char>, AttemptRecord>
    decreases times.len(),
{
    if times.len() == 0 {
        m
    } else {
        after_failure(after_failures(m, key, times.drop_last()), key, times.last())
    }
}

/// The error a locked token is answered with.
pub open spec fn limit_exceeded(e: ServiceError) -> bool {
    e@ == (ErrorKind::MfaAttemptLimitExceeded, "Too many MFA attempts. Try again later."@)
}

/// Failures recorded for one token key.
pub struct MfaAttemptEntry {
    pub key: String,
    pub count: u8,
    pub window_start: u64,
}

/// The attempt records of all challenge tokens, at most one per key.
pub struct MfaAttemptLimiter {
    entries: Vec<MfaAttemptEntry>,
}

impl MfaAttemptLimiter {
    /// Whether some entry has key `k`.
    pub closed spec fn has_key(self, k: Seq<char>) -> bool {
        exists|i: int| 0 <= i < self.entries@.len() && #[trigger] self.entries@[i].key@ == k
    }

    /// The index of the entry with key `k`.
    pub closed spec fn index_of(self, k: Seq<char>) -> int {
        choose|i: int| 0 <= i < self.entries@.len() && #[trigger] self.entries@[i].key@ == k
    }

    /// No two entries share a key.
    pub closed spec fn wf(self) -> bool {
        forall|i: int, j: int|
            0 <= i < self.entries@.len() && 0 <= j < self.entries@.len() && i != j
                ==> #[trigger] self.entries@[i].key@ != #[trigger] self.entries@[j].key@
    }

    proof fn lemma_index(self, i: int)
        requires
            self.wf(),
            0 <= i < self.entries@.len(),
        ensures
            self.has_key(self.entries@[i].key@),
            self.index_of(self.entries@[i].key@) == i,
            self@.contains_key(self.entries@[i].key@),
            self@[self.entries@[i].key@] == (self.entries@[i].count, self.entries@[i].window_start),
    {
        let k = self.entries@[i].key@;
        assert(self.has_key(k));
        let j: int = self.index_of(k);
        assert(self.entries@[j].key@ == k);
    }
}

impl View for MfaAttemptLimiter {
    type V = Map<Seq<char>, AttemptRecord>;

    closed spec fn view(&self) -> Map<Seq<char>, AttemptRecord> {
        Map::new(
            |k: Seq<char>| self.has_key(k),
            |k: Seq<char>|
                (
                    self.entries@[self.index_of(k)].count,
                    self.entries@[self.index_of(k)].window_start,
                ),
        )
    }
}

impl MfaAttemptLimiter {
    /// The well-formedness the limiter keeps across all operations.
    pub closed spec fn inv(self) -> bool {
        self.wf()
    }

    /// A limiter that knows no token.
    pub fn new() -> (l: MfaAttemptLimiter)
        ensures
            l.inv(),
            l@ == Map::<Seq<char>, AttemptRecord>::empty(),
    {
        let l = MfaAttemptLimiter { entries: Vec::new() };
        assert(l@ =~= Map::<Seq<char>, AttemptRecord>::empty());
        l
    }

    /// The position of the entry for `key`, if there is one.
    fn find(&self, key: &str) -> (r: Option<usize>)
        requires
            self.wf(),
        ensures
            r is None ==> !self@.contains_key(key@),
            r matches Some(i) ==> i < self.entries@.len() && self.entries@[i as int].key@ == key@,
    {
        let wanted = key.to_owned();
        let mut i: usize = 0;
        while i < self.entries.len()
            invariant
                0 <= i <= self.entries@.len(),
                wanted@ == key@,
                forall|j: int| 0 <= j < i ==> #[trigger] self.entries@[j].key@ != key@,
            decreases self.entries.len() - i,
        {
            if self.entries[i].key == wanted {
                return Some(i);
            }
            i = i + 1;
        }
        assert(!self.has_key(key@));
        None
    }

    /// Forget every token whose window has run out at `now`.
    pub fn prune(&mut self, now: u64)
        requires
            old(self).inv(),
        ensures
            final(self).inv(),
            final(self)@ == pruned(old(self)@, now),
    {
        let ghost before = *self;
        let mut kept: Vec<MfaAttemptEntry> = Vec::new();
        let ghost mut pos: Seq<int> = Seq::empty();
        let ghost mut src: Seq<int> = Seq::empty();
        let mut i: usize = 0;
        while i < self.entries.len()
            invariant
                *self == before,
                before.wf(),
                0 <= i <= before.entries@.len(),
                pos.len() == i,
                src.len() == kept@.len(),
                forall|b: int|
                    0 <= b < i && window_open(before.entries@[b].window_start, now) ==> 0 <= pos[b]
                        < kept@.len() && kept@[pos[b]] == before.entries@[b],
                forall|j: int|
                    #![trigger src[j]]
                    #![trigger kept@[j]]
                    0 <= j < kept@.len() ==> 0 <= src[j] < i && kept@[j] == before.entries@[src[j]]
                        && window_open(before.entries@[src[j]].window_start, now),
                forall|x: int, y: int| 0 <= x < y < src.len() ==> #[trigger] src[x] < #[trigger] src[y],
            decreases before.entries@.len() - i,
        {
            let e = &self.entries[i];
            let open = if now >= e.window_start {
                now - e.window_start < MFA_WINDOW_SECS
            } else {
                true
            };
            if open {
                let ghost old_kept = kept@;
                let ghost old_src = src;
                assert(forall|j: int| 0 <= j < old_src.len() ==> #[trigger] old_src[j] < i);
                let entry = MfaAttemptEntry {
                    key: e.key.clone(),
                    count: e.count,
                    window_start: e.window_start,
                };
                assert(entry == before.entries@[i as int]);
                kept.push(entry);
                proof {
                    pos = pos.push(kept@.len() - 1);
                    src = src.push(i as int);
                    assert forall|j: int| 0 <= j < kept@.len() implies 0 <= src[j] < i + 1
                        && kept@[j] == before.entries@[src[j]] && window_open(
                        before.entries@[src[j]].window_start,
                        now,
                    ) by {
                        if j < old_kept.len() {
                            assert(kept@[j] == old_kept[j]);
                            assert(src[j] == old_src[j]);
                            assert(old_src[j] < i);
                        } else {
                            assert(j == old_kept.len());
                            assert(src[j] == i);
                            assert(kept@[j] == entry);
                        }
                    }
                    assert forall|x: int, y: int| 0 <= x < y < src.len() implies src[x] < src[y] by {
                        if y < old_src.len() {
                            assert(src[x] == old_src[x] && src[y] == old_src[y]);
                        } else {
                            assert(src[x] == old_src[x]);
                            assert(old_src[x] < i);
                            assert(src[y] == i);
                        }
                    }
                }
            } else {
                proof {
                    pos = pos.push(-1);
                }
            }
            i = i + 1;
        }
        self.entries = kept;
        proof {
            assert forall|x: int, y: int|
                0 <= x < self.entries@.len() && 0 <= y < self.entries@.len() && x != y
                    implies #[trigger] self.entries@[x].key@ != #[trigger] self.entries@[y].key@ by {
                assert(src[x] != src[y]) by {
                    if x < y {
                        assert(src[x] < src[y]);
                    } else {
                        assert(src[y] < src[x]);
                    }
                }
            }
            let m = pruned(before@, now);
            assert forall|k: Seq<char>| #[trigger] self@.contains_key(k) <==> m.contains_key(k) by {
                if self.has_key(k) {
                    let x: int = choose|x: int|
                        0 <= x < self.entries@.len() && #[trigger] self.entries@[x].key@ == k;
                    before.lemma_index(src[x]);
                }
                if m.contains_key(k) {
                    let b: int = before.index_of(k);
                    before.lemma_index(b);
                    assert(self.entries@[pos[b]].key@ == k);
                    assert(self.has_key(k));
                }
            }
            assert forall|k: Seq<char>| #[trigger] self@.contains_key(k) implies self@[k] == m[k] by {
                let x: int = self.index_of(k);
                self.lemma_index(x);
                before.lemma_index(src[x]);
            }
            assert(self@ =~= m);
        }
    }

    /// Whether `key` is locked at `now`.
    pub fn is_locked(&self, key: &str, now: u64) -> (b: bool)
        requires
            self.inv(),
        ensures
            b == locked(self@, key@, now),
    {
        match self.find(key) {
            None => false,
            Some(i) => {
                proof {
                    self.lemma_index(i as int);
                }
                let e = &self.entries[i];
                let open = if now >= e.window_start {
                    now - e.window_start < MFA_WINDOW_SECS
                } else {
                    true
                };
                open && e.count >= MAX_MFA_ATTEMPTS
            },
        }
    }

    /// Start an attempt for `key` at `now`: prune, then refuse a locked token.
    pub fn try_attempt(&mut self, key: &str, now: u64) -> (r: Result<(), ServiceError>)
        requires
            old(self).inv(),
        ensures
            final(self).inv(),
            final(self)@ == pruned(old(self)@, now),
            r.is_ok() == !locked(old(self)@, key@, now),
            r matches Err(e) ==> limit_exceeded(e),
    {
        self.prune(now);
        if self.is_locked(key, now) {
            return Err(
                ServiceError::MfaAttemptLimitExceeded(
                    "Too many MFA attempts. Try again later.".to_owned(),
                ),
            );
        }
        Ok(())
    }

    /// Record a failed code for `key` at `now`.
    pub fn record_failure(&mut self, key: String, now: u64)
        requires
            old(self).inv(),
        ensures
            final(self).inv(),
            final(self)@ == after_failure(old(self)@, key@, now),
    {
        let ghost before = *self;
        let ghost k = key@;
        match self.find(key.as_str()) {
            None => {
                self.entries.push(MfaAttemptEntry { key, count: 1, window_start: now });
                proof {
                    let last: int = self.entries@.len() - 1;
                    assert forall|i: int, j: int|
                        0 <= i < self.entries@.len() && 0 <= j < self.entries@.len() && i != j
                            implies #[trigger] self.entries@[i].key@
                        != #[trigger] self.entries@[j].key@ by {
                        if i == last && j < last {
                            assert(before.entries@[j].key@ != k) by {
                                if before.entries@[j].key@ == k {
                                    assert(before.has_key(k));
                                }
                            }
                        } else if j == last && i < last {
                            assert(before.entries@[i].key@ != k) by {
                                if before.entries@[i].key@ == k {
                                    assert(before.has_key(k));
                                }
                            }
                        }
                    }
                    self.lemma_view_push(before, last);
                }
            },
            Some(i) => {
                proof {
                    before.lemma_index(i as int);
                }
                let start: u64 = self.entries[i].window_start;
                let count: u8 = self.entries[i].count;
                let expired = now >= start && now - start >= MFA_WINDOW_SECS;
                let (new_count, new_start): (u8, u64) = if expired {
                    (1u8, now)
                } else {
                    (count.saturating_add(1), start)
                };
                self.entries.set(i, MfaAttemptEntry { key, count: new_count, window_start: new_start });
                proof {
                    assert forall|x: int, y: int|
                        0 <= x < self.entries@.len() && 0 <= y < self.entries@.len() && x != y
                            implies #[trigger] self.entries@[x].key@
                        != #[trigger] self.entries@[y].key@ by {
                        assert(self.entries@[x].key@ == before.entries@[x].key@);
                        assert(self.entries@[y].key@ == before.entries@[y].key@);
                    }
                    self.lemma_view_set(before, i as int);
                }
            },
        }
    }

    proof fn lemma_view_push(self, before: MfaAttemptLimiter, last: int)
        requires
            before.wf(),
            self.wf(),
            last == before.entries@.len(),
            self.entries@.len() == last + 1,
            forall|j: int| 0 <= j < last ==> self.entries@[j] == before.entries@[j],
            !before@.contains_key(self.entries@[last].key@),
        ensures
            self@ == before@.insert(
                self.entries@[last].key@,
                (self.entries@[last].count, self.entries@[last].window_start),
            ),
    {
        let k = self.entries@[last].key@;
        let m = before@.insert(k, (self.entries@[last].count, self.entries@[last].window_start));
        assert forall|q: Seq<char>| #[trigger] self@.contains_key(q) <==> m.contains_key(q) by {
            if self.has_key(q) {
                let x: int = choose|x: int| 0 <= x < self.entries@.len() && #[trigger] self.entries@[x].key@ == q;
                if x < last {
                    assert(before.entries@[x].key@ == q);
                    assert(before.has_key(q));
                }
            }
            if before.has_key(q) {
                let x: int = choose|x: int| 0 <= x < before.entries@.len() && #[trigger] before.entries@[x].key@ == q;
                assert(self.entries@[x].key@ == q);
                assert(self.has_key(q));
            }
            if q == k {
                assert(self.has_key(q));
            }
        }
        assert forall|q: Seq<char>| #[trigger] self@.contains_key(q) implies self@[q] == m[q] by {
            let x: int = self.index_of(q);
            self.lemma_index(x);
            if x < last {
                before.lemma_index(x);
            }
        }
        assert(self@ =~= m);
    }

    proof fn lemma_view_set(self, before: MfaAttemptLimiter, i: int)
        requires
            before.wf(),
            self.wf(),
            0 <= i < before.entries@.len(),
            self.entries@.len() == before.entries@.len(),
            forall|j: int| 0 <= j < self.entries@.len() && j != i ==> self.entries@[j] == before.entries@[j],
            self.entries@[i].key@ == before.entries@[i].key@,
        ensures
            self@ == before@.insert(
                self.entries@[i].key@,
                (self.entries@[i].count, self.entries@[i].window_start),
            ),
    {
        let k = self.entries@[i].key@;
        let m = before@.insert(k, (self.entries@[i].count, self.entries@[i].window_start));
        assert forall|q: Seq<char>| #[trigger] self@.contains_key(q) <==> m.contains_key(q) by {
            if self.has_key(q) {
                let x: int = choose|x: int| 0 <= x < self.entries@.len() && #[trigger] self.entries@[x].key@ == q;
                assert(before.entries@[x].key@ == q);
                assert(before.has_key(q));
            }
            if before.has_key(q) {
                let x: int = choose|x: int| 0 <= x < before.entries@.len() && #[trigger] before.entries@[x].key@ == q;
                assert(self.entries@[x].key@ == q);
                assert(self.has_key(q));
            }
        }
        assert forall|q: Seq<char>| #[trigger] self@.contains_key(q) implies self@[q] == m[q] by {
            let x: int = self.index_of(q);
            self.lemma_index(x);
            if x != i {
                before.lemma_index(x);
            }
        }
        assert(self@ =~= m);
    }

    /// Forget `key` (after a successful verification).
    pub fn clear(&mut self, key: &str)
        requires
            old(self).inv(),
        ensures
            final(self).inv(),
            final(self)@ == old(self)@.remove(key@),
    {
        let ghost before = *self;
        match self.find(key) {
            None => {
                assert(self@ =~= before@.remove(key@));
            },
            Some(i) => {
                self.entries.remove(i);
                proof {
                    let m = before@.remove(key@);
                    assert forall|x: int, y: int|
                        0 <= x < self.entries@.len() && 0 <= y < self.entries@.len() && x != y
                            implies #[trigger] self.entries@[x].key@
                        != #[trigger] self.entries@[y].key@ by {
                        let bx: int = if x < i { x } else { x + 1 };
                        let by: int = if y < i { y } else { y + 1 };
                        assert(self.entries@[x] == before.entries@[bx]);
                        assert(self.entries@[y] == before.entries@[by]);
                    }
                    assert forall|q: Seq<char>| #[trigger] self@.contains_key(q) <==> m.contains_key(q) by {
                        if self.has_key(q) {
                            let x: int = choose|x: int| 0 <= x < self.entries@.len() && #[trigger] self.entries@[x].key@ == q;
                            let bx: int = if x < i { x } else { x + 1 };
                            assert(self.entries@[x] == before.entries@[bx]);
                            assert(before.entries@[bx].key@ == q);
                            assert(before.has_key(q));
                            assert(bx != i);
                        }
                        if m.contains_key(q) {
                            let bx: int = before.index_of(q);
                            before.lemma_index(bx);
                            assert(bx != i);
                            let x: int = if bx < i { bx } else { bx - 1 };
                            assert(self.entries@[x] == before.entries@[bx]);
                            assert(self.has_key(q));
                        }
                    }
                    assert forall|q: Seq<char>| #[trigger] self@.contains_key(q) implies self@[q] == m[q] by {
                        let x: int = self.index_of(q);
                        self.lemma_index(x);
                        let bx: int = if x < i { x } else { x + 1 };
                        assert(self.entries@[x] == before.entries@[bx]);
                        before.lemma_index(bx);
                    }
                    assert(self@ =~= m);
                }
            },
        }
    }

    /// Account for the outcome of a verification attempt for `key` at `now`:
    /// success forgets the token, an invalid code counts as a failure, any
    /// other error leaves the records as they are.
    pub fn record_outcome<T>(&mut self, key: String, outcome: &Result<T, ServiceError>, now: u64)
        requires
            old(self).inv(),
        ensures
            final(self).inv(),
            outcome is Ok ==> final(self)@ == old(self)@.remove(key@),
            (outcome matches Err(e) && e@.0 == ErrorKind::MfaInvalidCode) ==> final(self)@
                == after_failure(old(self)@, key@, now),
            (outcome matches Err(e) && e@.0 != ErrorKind::MfaInvalidCode) ==> final(self)@
                == old(self)@,
    {
        match outcome {
            Ok(_) => self.clear(key.as_str()),
            Err(e) => {
                if e.kind() == ErrorKind::MfaInvalidCode {
                    self.record_failure(key, now);
                }
            },
        }
    }
}

/// Five failures for one token within a window lock it; fewer never do.
///
/// Starting from no record for `key`, failures at `times` (none earlier than the
/// first, all within one window of it) leave exactly `times.len()` failures
/// recorded in a window that began at the first of them; the token is then
/// locked at any `now` in that window exactly when there were at least five.
pub proof fn lemma_failures_lock_token(
    m: Map<Seq<char>, AttemptRecord>,
    key: Seq<char>,
    times: Seq<u64>,
    now: u64,
)
    requires
        !m.contains_key(key),
        0 < times.len() <= u8::MAX,
        forall|i: int|
            0 <= i < times.len() ==> times[0] <= #[trigger] times[i] && times[i] - times[0]
                < MFA_WINDOW_SECS,
        times[0] <= now && now - times[0] < MFA_WINDOW_SECS,
    ensures
        after_failures(m, key, times).contains_key(key),
        after_failures(m, key, times)[key] == (times.len() as u8, times[0]),
        locked(after_failures(m, key, times), key, now) <==> times.len() >= MAX_MFA_ATTEMPTS,
{
    lemma_failures_count(m, key, times);
}

proof fn lemma_failures_count(m: Map<Seq<char>, AttemptRecord>, key: Seq<char>, times: Seq<u64>)
    requires
        !m.contains_key(key),
        0 < times.len() <= u8::MAX,
        forall|i: int|
            0 <= i < times.len() ==> times[0] <= #[trigger] times[i] && times[i] - times[0]
                < MFA_WINDOW_SECS,
    ensures
        after_failures(m, key, times).contains_key(key),
        after_failures(m, key, times)[key] == (times.len() as u8, times[0]),
    decreases times.len(),
{
    if times.len() == 1 {
        assert(times.drop_last().len() == 0);
        assert(after_failures(m, key, times.drop_last()) == m);
    } else {
        let prefix = times.drop_last();
        assert(prefix[0] == times[0]);
        assert forall|i: int| 0 <= i < prefix.len() implies prefix[0] <= #[trigger] prefix[i]
            && prefix[i] - prefix[0] < MFA_WINDOW_SECS by {
            assert(prefix[i] == times[i]);
        }
        lemma_failures_count(m, key, prefix);
        assert(times.last() == times[times.len() - 1]);
    }
}

/// A verified success unlocks the token: after it is forgotten, no later
/// attempt for it is refused.
pub proof fn lemma_success_unlocks(m: Map<Seq<char>, AttemptRecord>, key: Seq<char>, now: u64)
    ensures
        !locked(m.remove(key), key, now),
        !locked(pruned(m.remove(key), now), key, now),
{
}

/// A token whose window has run out is never refused, and its record is dropped
/// by the next pruning.
pub proof fn lemma_expired_window_unlocks(
    m: Map<Seq<char>, AttemptRecord>,
    key: Seq<char>,
    now: u64,
)
    requires
        m.contains_key(key),
        window_elapsed(m[key].1, now) >= MFA_WINDOW_SECS,
    ensures
        !locked(m, key, now),
        !pruned(m, now).contains_key(key),
{
}

/// Failures for one token never touch the record of another.
pub proof fn lemma_failure_is_per_token(
    m: Map<Seq<char>, AttemptRecord>,
    key: Seq<char>,
    other: Seq<char>,
    now: u64,
)
    requires
        key != other,
    ensures
        after_failure(m, key, now).contains_key(other) == m.contains_key(other),
        m.contains_key(other) ==> after_failure(m, key, now)[other] == m[other],
        locked(after_failure(m, key, now), other, now) == locked(m, other, now),
{
}

/// Pruning never changes whether a token is locked.
pub proof fn lemma_pruning_keeps_locks(m: Map<Seq<char>, AttemptRecord>, key: Seq<char>, now: u64)
    ensures
        locked(pruned(m, now), key, now) == locked(m, key, now),
{
}

/// The MFA application: TOTP enrollment, and login verification guarded by the
/// attempt limiter.
pub struct MfaApplication {
    attempts: MfaAttemptLimiter,
}

impl MfaApplication {
    /// The state of the application is its limiter's.
    pub closed spec fn attempts_view(&self) -> Map<Seq<char>, AttemptRecord> {
        self.attempts@
    }

    /// The limiter's invariant.
    pub closed spec fn inv(&self) -> bool {
        self.attempts.inv()
    }

    /// An application that has seen no attempt yet.
    pub fn new() -> (a: MfaApplication)
        ensures
            a.inv(),
            a.attempts_view() == Map::<Seq<char>, AttemptRecord>::empty(),
    {
        MfaApplication { attempts: MfaAttemptLimiter::new() }
    }

    /// The key a challenge token is tracked under: the lowercase hex SHA-256 of
    /// its bytes, so that raw tokens are never kept.
    pub fn token_key(token: &str) -> (k: String)
        ensures
            k@ == hex_lower(sha256(token.spec_bytes())),
    {
        sha256_hex(token)
    }

    /// Begin verifying a code for `mfa_session_token` at `now` (after the token
    /// itself has been validated): refuse a locked token, and hand back the key
    /// to report the outcome under.
    pub fn begin_verification(&mut self, mfa_session_token: &str, now: u64) -> (r: Result<String, ServiceError>)
        requires
            old(self).inv(),
        ensures
            final(self).inv(),
            final(self).attempts_view() == pruned(old(self).attempts_view(), now),
            r matches Ok(k) ==> k@ == hex_lower(sha256(mfa_session_token.spec_bytes())),
            r.is_ok() == !locked(
                old(self).attempts_view(),
                hex_lower(sha256(mfa_session_token.spec_bytes())),
                now,
            ),
            r matches Err(e) ==> limit_exceeded(e),
    {
        let key = Self::token_key(mfa_session_token);
        match self.attempts.try_attempt(key.as_str(), now) {
            Ok(()) => Ok(key),
            Err(e) => Err(e),
        }
    }

    /// Account for the outcome of the verification begun under `key`.
    pub fn finish_verification<T>(&mut self, key: String, outcome: &Result<T, ServiceError>, now: u64)
        requires
            old(self).inv(),
        ensures
            final(self).inv(),
            outcome is Ok ==> final(self).attempts_view() == old(self).attempts_view().remove(key@),
            (outcome matches Err(e) && e@.0 == ErrorKind::MfaInvalidCode)
                ==> final(self).attempts_view() == after_failure(old(self).attempts_view(), key@, now),
            (outcome matches Err(e) && e@.0 != ErrorKind::MfaInvalidCode)
                ==> final(self).attempts_view() == old(self).attempts_view(),
    {
        self.attempts.record_outcome(key, outcome, now);
    }

    /// The identity whose e-mail labels a new authenticator entry: the
    /// user's primary identity, which must exist.
    pub fn enrollment_identity(found: Option<UserIdentity>) -> (r: Result<UserIdentity, ServiceError>)
        ensures
            found matches Some(i) ==> r == Ok::<UserIdentity, ServiceError>(i),
            found is None ==> (r matches Err(e) && e@ == (ErrorKind::NotFoundError, "Identity not found"@)),
    {
        found_or_not_found(found, "Identity not found")
    }

    /// The answer to the start of an enrollment.
    pub fn start_enrollment_response(otpauth_uri: String) -> (r: StartMfaEnrollmentResponse)
        ensures
            r.otpauth_uri == otpauth_uri,
    {
        StartMfaEnrollmentResponse { otpauth_uri }
    }

    /// The answer to a confirmed enrollment: the one-time recovery codes.
    pub fn confirm_enrollment_response(recovery_codes: Vec<String>) -> (r: ConfirmMfaEnrollmentResponse)
        ensures
            r.recovery_codes@ == recovery_codes@,
    {
        ConfirmMfaEnrollmentResponse { recovery_codes }
    }
}

/// The start of a TOTP enrollment: the `otpauth://` URI to scan.
#[derive(Debug)]
pub struct StartMfaEnrollmentResponse {
    pub otpauth_uri: String,
}

/// A confirmed TOTP enrollment: the recovery codes, shown once.
#[derive(Debug)]
pub struct ConfirmMfaEnrollmentResponse {
    pub recovery_codes: Vec<String>,
}

} // verus!
