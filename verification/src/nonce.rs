//! Replay defence: every nonce is accepted as new at most once within its
//! time to live.
//!
//! The store offers one indivisible operation, `check_and_mark`: it marks a
//! nonce if it is unmarked and says which of the two was the case. A check
//! followed by a separate set would let two racing requests both pass; with
//! the single operation exactly one of them sees the nonce as new.
//!
//! A deployment with several gateway instances keeps the marks in a store
//! that all instances share. `NonceStore` holds them in the process, with
//! the same contract; `NonceValidator` says what key and time to live a
//! shared store is to be asked with.

use vstd::prelude::*;
use crate::error::ScrybeError;
use crate::table::TextMap;

verus! {

/// Time to live of a nonce, in seconds, where none is configured.
pub const DEFAULT_NONCE_TTL_SECONDS: usize = 300;

/// Milliseconds in a second.
pub const MILLIS_PER_SECOND: u64 = 1000;

/// What `check_and_mark` found.
#[derive(Debug, Clone, Copy, PartialEq, Eq)]
pub enum NonceStatus {
    /// The nonce was unmarked and is now marked.
    New,
    /// The nonce was marked already.
    AlreadyExists,
}

/// The marks of a store: for each marked key, the time in milliseconds at
/// which the mark expires.
pub type Marks = Map<Seq<char>, i128>;

/// Whether `key` is marked at the time `now_ms`: it has a mark that has not
/// expired.
pub open spec fn is_marked(marks: Marks, key: Seq<char>, now_ms: int) -> bool {
    marks.contains_key(key) && now_ms < marks[key]
}

/// The time at which a mark set at `now_ms` expires.
pub open spec fn expiry(now_ms: int, ttl_seconds: int) -> int {
    now_ms + ttl_seconds * MILLIS_PER_SECOND
}

/// Computes the time at which a mark set at `now_ms` expires.
pub fn expiry_time(now_ms: i64, ttl_seconds: u64) -> (expires_at_ms: i128)
    ensures
        expires_at_ms == expiry(now_ms as int, ttl_seconds as int),
{
    let span: i128 = ttl_seconds as i128 * 1000;
    now_ms as i128 + span
}

/// What `check_and_mark` answers for `key` at `now_ms`.
pub open spec fn status_of(marks: Marks, key: Seq<char>, now_ms: int) -> NonceStatus {
    if is_marked(marks, key, now_ms) {
        NonceStatus::AlreadyExists
    } else {
        NonceStatus::New
    }
}

/// The marks after `check_and_mark` for `key` at `now_ms`: a marked key
/// keeps its mark and its expiry, an unmarked one is marked for the time to
/// live.
pub open spec fn marks_after(marks: Marks, key: Seq<char>, now_ms: int, ttl_seconds: int) -> Marks {
    if is_marked(marks, key, now_ms) {
        marks
    } else {
        marks.insert(key, expiry(now_ms, ttl_seconds) as i128)
    }
}

/// Whether every mark of `part` is a mark of `marks`, with the same expiry.
pub open spec fn part_of(part: Marks, marks: Marks) -> bool {
    forall|key: Seq<char>| #[trigger]
        part.contains_key(key) ==> marks.contains_key(key) && part[key] == marks[key]
}

/// Whether `part` holds marks of `marks` only, and none that has expired at
/// `now_ms`.
pub open spec fn only_live(part: Marks, marks: Marks, now_ms: int) -> bool {
    part_of(part, marks) && forall|key: Seq<char>| #[trigger]
        part.contains_key(key) ==> now_ms < part[key]
}

/// The key under which a nonce is kept in a store.
pub open spec fn nonce_key(nonce: Seq<char>) -> Seq<char> {
    "nonce:"@ + nonce
}

/// An in-process store of used nonces.
pub struct NonceStore {
    marks: TextMap<i128>,
}

impl View for NonceStore {
    type V = Marks;

    closed spec fn view(&self) -> Marks {
        self.marks@
    }
}

impl NonceStore {
    /// A store without marks.
    pub fn new() -> (store: NonceStore)
        ensures
            store@ == Marks::empty(),
    {
        NonceStore { marks: TextMap::new() }
    }

    /// Marks `key` for `ttl_seconds` if it is unmarked at `now_ms`, and says
    /// whether it was. The two happen as one step: the exclusive borrow
    /// leaves no room for another caller between the check and the mark.
    pub fn check_and_mark(&mut self, key: &str, now_ms: i64, ttl_seconds: u64) -> (status:
        NonceStatus)
        ensures
            status == status_of(old(self)@, key@, now_ms as int),
            final(self)@ == marks_after(old(self)@, key@, now_ms as int, ttl_seconds as int),
    {
        let live = match self.marks.get(key) {
            Some(expires_at) => (now_ms as i128) < expires_at,
            None => false,
        };
        if live {
            NonceStatus::AlreadyExists
        } else {
            let expires_at: i128 = expiry_time(now_ms, ttl_seconds);
            self.marks.insert(key, expires_at);
            NonceStatus::New
        }
    }

    /// Drops the marks that have expired at `now_ms`. No key is marked or
    /// unmarked by this, at `now_ms` or at any later time: the store only
    /// stops holding what no longer counts.
    pub fn purge_expired(&mut self, now_ms: i64)
        ensures
            forall|key: Seq<char>, at_ms: int|
                at_ms >= now_ms ==> #[trigger] is_marked(final(self)@, key, at_ms) == is_marked(
                    old(self)@,
                    key,
                    at_ms,
                ),
            only_live(final(self)@, old(self)@, now_ms as int),
    {
        let keys = self.marks.keys();
        let count: usize = keys.len();
        let mut i: usize = 0;
        while i < count
            invariant
                count == keys@.len(),
                i <= count,
                forall|key: Seq<char>|
                    old(self)@.contains_key(key) ==> exists|j: int|
                        0 <= j < keys@.len() && (#[trigger] keys@[j])@ == key,
                part_of(self@, old(self)@),
                forall|key: Seq<char>|
                    old(self)@.contains_key(key) && now_ms < old(self)@[key]
                        ==> #[trigger] self@.contains_key(key),
                forall|j: int|
                    0 <= j < i && self@.contains_key((#[trigger] keys@[j])@) ==> now_ms
                        < self@[keys@[j]@],
            decreases count - i,
        {
            let expired = match self.marks.get(keys[i].as_str()) {
                Some(expires_at) => expires_at <= now_ms as i128,
                None => false,
            };
            if expired {
                self.marks.remove(keys[i].as_str());
            }
            i = i + 1;
        }
        assert forall|key: Seq<char>| #[trigger] self@.contains_key(key) implies now_ms
            < self@[key] by {
            let j = choose|j: int| 0 <= j < keys@.len() && (#[trigger] keys@[j])@ == key;
            assert(self@.contains_key(keys@[j]@));
        }
    }

    /// Whether `key` is marked at `now_ms`. Marks nothing.
    pub fn contains(&self, key: &str, now_ms: i64) -> (marked: bool)
        ensures
            marked == is_marked(self@, key@, now_ms as int),
    {
        match self.marks.get(key) {
            Some(expires_at) => (now_ms as i128) < expires_at,
            None => false,
        }
    }
}

/// Validates nonces against a store: each nonce passes once.
pub struct NonceValidator {
    ttl_seconds: usize,
}

impl NonceValidator {
    /// A validator whose nonces live for `ttl_seconds`, or for 300 seconds
    /// where none is given.
    pub fn new(ttl_seconds: Option<usize>) -> (validator: NonceValidator)
        ensures
            validator.ttl() == (match ttl_seconds {
                Some(ttl) => ttl,
                None => DEFAULT_NONCE_TTL_SECONDS,
            }),
    {
        NonceValidator {
            ttl_seconds: match ttl_seconds {
                Some(ttl) => ttl,
                None => DEFAULT_NONCE_TTL_SECONDS,
            },
        }
    }

    /// The time to live of a nonce, in seconds.
    pub closed spec fn ttl(&self) -> usize {
        self.ttl_seconds
    }

    /// The time to live of a nonce, in seconds.
    pub fn ttl_seconds(&self) -> (ttl: usize)
        ensures
            ttl == self.ttl(),
    {
        self.ttl_seconds
    }

    /// The key under which a store keeps `nonce`.
    pub fn key_for(nonce: &str) -> (key: String)
        ensures
            key@ == nonce_key(nonce@),
    {
        "nonce:".to_owned().concat(nonce)
    }

    /// Checks `nonce` and marks it as used, in one step. `Ok(true)` says the
    /// nonce is new, `Ok(false)` that it was used before: a replay. The
    /// in-process store cannot fail, so the result is never an error.
    pub fn validate_nonce(&self, store: &mut NonceStore, nonce: &str, now_ms: i64) -> (result:
        Result<bool, ScrybeError>)
        ensures
            result matches Ok(fresh) && fresh == !is_marked(
                old(store)@,
                nonce_key(nonce@),
                now_ms as int,
            ),
            final(store)@ == marks_after(
                old(store)@,
                nonce_key(nonce@),
                now_ms as int,
                self.ttl() as int,
            ),
    {
        let key = Self::key_for(nonce);
        let status = store.check_and_mark(key.as_str(), now_ms, self.ttl_seconds as u64);
        Ok(Self::is_fresh(status))
    }

    /// Whether `nonce` was used, without marking it.
    pub fn was_used(&self, store: &NonceStore, nonce: &str, now_ms: i64) -> (result: Result<
        bool,
        ScrybeError,
    >)
        ensures
            result matches Ok(used) && used == is_marked(store@, nonce_key(nonce@), now_ms as int),
    {
        let key = Self::key_for(nonce);
        Ok(store.contains(key.as_str(), now_ms))
    }

    /// Whether a store's answer says that the nonce may pass.
    pub fn is_fresh(status: NonceStatus) -> (fresh: bool)
        ensures
            fresh == (status == NonceStatus::New),
    {
        match status {
            NonceStatus::New => true,
            NonceStatus::AlreadyExists => false,
        }
    }
}

/// A nonce is accepted once: of two `check_and_mark` calls for a key that
/// was unmarked, the second falling within the time to live of the first,
/// the one that the store serves first is answered `New` and the other
/// `AlreadyExists`. The calls are alike, so this holds whichever caller
/// comes first: exactly one of them sees the nonce as new.
pub proof fn lemma_accepted_once(
    marks: Marks,
    key: Seq<char>,
    first_ms: i64,
    second_ms: i64,
    ttl_seconds: u64,
)
    requires
        !is_marked(marks, key, first_ms as int),
        second_ms < expiry(first_ms as int, ttl_seconds as int),
    ensures
        status_of(marks, key, first_ms as int) == NonceStatus::New,
        status_of(
            marks_after(marks, key, first_ms as int, ttl_seconds as int),
            key,
            second_ms as int,
        ) == NonceStatus::AlreadyExists,
        marks_after(
            marks_after(marks, key, first_ms as int, ttl_seconds as int),
            key,
            second_ms as int,
            ttl_seconds as int,
        ) == marks_after(marks, key, first_ms as int, ttl_seconds as int),
{
}

/// A mark lapses with its time to live: at or after the expiry of the
/// first mark the nonce counts as new again.
pub proof fn lemma_mark_expires(
    marks: Marks,
    key: Seq<char>,
    first_ms: i64,
    later_ms: i64,
    ttl_seconds: u64,
)
    requires
        !is_marked(marks, key, first_ms as int),
        expiry(first_ms as int, ttl_seconds as int) <= later_ms,
    ensures
        status_of(
            marks_after(marks, key, first_ms as int, ttl_seconds as int),
            key,
            later_ms as int,
        ) == NonceStatus::New,
{
}

/// Marking one key leaves every other key as it was.
pub proof fn lemma_other_keys_untouched(
    marks: Marks,
    key: Seq<char>,
    other: Seq<char>,
    now_ms: int,
    ttl_seconds: int,
    at_ms: int,
)
    requires
        other != key,
    ensures
        is_marked(marks_after(marks, key, now_ms, ttl_seconds), other, at_ms) == is_marked(
            marks,
            other,
            at_ms,
        ),
{
}

} // verus!
