//! Off-chain replay protection: chain-scoped nonce keys, TTL derivation and
//! an atomic check-and-mark store.
use vstd::prelude::*;

use crate::text::{
    chars_of, decimal, parse_u64_spec, parse_unsigned, push_decimal, push_str, split, split_chars,
    string_of,
};

verus! {

/// Errors of a nonce store.
#[derive(Debug, Clone, PartialEq, Eq)]
pub enum NonceStoreError {
    /// The key is already marked and its record has not expired (a replay).
    NonceAlreadyUsed(String),
    /// The storage backend could not be reached.
    ConnectionFailed(String),
    /// A read from the backend failed.
    ReadError(String),
    /// A write to the backend failed.
    WriteError(String),
    /// The backend is not configured.
    NotConfigured(String),
}

/// The lowercase hexadecimal digit of a nibble.
pub open spec fn hex_digit(n: u8) -> char {
    if n < 10 {
        ((48 + n) as u8) as char
    } else {
        ((87 + n) as u8) as char
    }
}

/// Lowercase hexadecimal text of `b`, two digits per byte, high nibble first.
pub open spec fn hex_of(b: Seq<u8>) -> Seq<char>
    decreases b.len(),
{
    if b.len() == 0 {
        Seq::empty()
    } else {
        hex_of(b.drop_last()) + seq![hex_digit(b.last() / 16), hex_digit(b.last() % 16)]
    }
}

/// `chain#address#nonce`: the key of a Stellar authorization nonce.
pub open spec fn stellar_key(chain: Seq<char>, address: Seq<char>, nonce: u64) -> Seq<char> {
    chain + seq!['#'] + address + seq!['#'] + decimal(nonce as nat)
}

/// `chain#group#<hex of group id>`: the key of an Algorand atomic group.
pub open spec fn algorand_key(chain: Seq<char>, group_id: Seq<u8>) -> Seq<char> {
    chain + seq!['#', 'g', 'r', 'o', 'u', 'p', '#'] + hex_of(group_id)
}

/// Relies on `hex::encode`: lowercase hexadecimal, two digits per byte.
#[verifier::external_body]
fn hex_encode(b: &[u8]) -> (r: String)
    ensures
        r@ == hex_of(b@),
{
    hex::encode(b)
}

/// The key of a Stellar nonce: `{chain}#{address}#{nonce}`.
pub fn stellar_nonce_key(chain: &str, address: &str, nonce: u64) -> (r: String)
    ensures
        r@ == stellar_key(chain@, address@, nonce),
{
    let mut out: Vec<char> = Vec::new();
    push_str(&mut out, chain);
    out.push('#');
    push_str(&mut out, address);
    out.push('#');
    push_decimal(&mut out, nonce);
    assert(out@ =~= stellar_key(chain@, address@, nonce));
    string_of(&out)
}

/// The key of an Algorand atomic group: `{chain}#group#{hex(group_id)}`.
pub fn algorand_nonce_key(chain: &str, group_id: &[u8]) -> (r: String)
    ensures
        r@ == algorand_key(chain@, group_id@),
{
    let mut out: Vec<char> = Vec::new();
    push_str(&mut out, chain);
    push_str(&mut out, "#group#");
    let h = hex_encode(group_id);
    push_str(&mut out, h.as_str());
    proof {
        reveal_strlit("#group#");
    }
    assert(out@ =~= algorand_key(chain@, group_id@));
    string_of(&out)
}

/// Seconds from `current` until `expiration` at `secs_per_step` each, plus a
/// one-hour safety buffer; zero steps when already past.
pub open spec fn ttl_spec(current: int, expiration: int, secs_per_step: int) -> int {
    (if expiration > current { (expiration - current) * secs_per_step } else { 0 }) + 3600
}

/// TTL of a Stellar nonce: five seconds per ledger until expiration, plus one hour.
pub fn stellar_ttl_seconds(current_ledger: u32, expiration_ledger: u32) -> (r: u64)
    ensures
        r == ttl_spec(current_ledger as int, expiration_ledger as int, 5),
{
    let ledgers: u32 = expiration_ledger.saturating_sub(current_ledger);
    let seconds: u64 = (ledgers as u64) * 5;
    seconds + 3600
}

/// TTL of an Algorand group: four seconds per round until `last_valid_round`,
/// plus one hour.
pub fn algorand_ttl_seconds(current_round: u64, last_valid_round: u64) -> (r: u64)
    requires
        ttl_spec(current_round as int, last_valid_round as int, 4) <= u64::MAX,
    ensures
        r == ttl_spec(current_round as int, last_valid_round as int, 4),
{
    let rounds: u64 = last_valid_round.saturating_sub(current_round);
    let seconds: u64 = rounds * 4;
    seconds + 3600
}

/// Whether `key` is marked in `m` with a record that has not expired at `now`.
pub open spec fn is_live(m: Map<Seq<char>, u64>, key: Seq<char>, now: u64) -> bool {
    m.contains_key(key) && m[key] > now
}

/// Check-and-mark on a store holding `m`: the store afterwards, and whether
/// the call succeeded. A live key is refused and nothing changes; otherwise
/// the key is (re)written to expire at `now + ttl`.
pub open spec fn check_and_mark(m: Map<Seq<char>, u64>, key: Seq<char>, ttl: u64, now: u64) -> (
    Map<Seq<char>, u64>,
    bool,
) {
    if is_live(m, key, now) {
        (m, false)
    } else {
        (m.insert(key, (now + ttl) as u64), true)
    }
}

/// Once a key has been marked at `t1` with `ttl`, every later check-and-mark
/// of that key before `t1 + ttl` is refused: at most one call succeeds within
/// the stored expiry window.
pub proof fn lemma_at_most_one_mark(
    m: Map<Seq<char>, u64>,
    key: Seq<char>,
    ttl: u64,
    t1: u64,
    ttl2: u64,
    t2: u64,
)
    requires
        t1 + ttl <= u64::MAX,
        check_and_mark(m, key, ttl, t1).1,
        t1 <= t2 < t1 + ttl,
    ensures
        !check_and_mark(check_and_mark(m, key, ttl, t1).0, key, ttl2, t2).1,
{
}

/// Check-and-mark of another key leaves a live mark live, so interleaved
/// calls on other keys cannot reopen a key's window.
pub proof fn lemma_other_keys_keep_mark(
    m: Map<Seq<char>, u64>,
    key: Seq<char>,
    other: Seq<char>,
    ttl: u64,
    now: u64,
    t: u64,
)
    requires
        is_live(m, key, t),
        other != key,
    ensures
        is_live(check_and_mark(m, other, ttl, now).0, key, t),
{
}

/// The store after a sequence of check-and-mark calls, each a key, a TTL
/// and the time of the call.
pub open spec fn run_calls(m: Map<Seq<char>, u64>, calls: Seq<(Seq<char>, u64, u64)>) -> Map<Seq<char>, u64>
    decreases calls.len(),
{
    if calls.len() == 0 {
        m
    } else {
        let c = calls.last();
        check_and_mark(run_calls(m, calls.drop_last()), c.0, c.1, c.2).0
    }
}

/// Whether call `j` of the sequence succeeds.
pub open spec fn call_succeeds(m: Map<Seq<char>, u64>, calls: Seq<(Seq<char>, u64, u64)>, j: int) -> bool {
    check_and_mark(run_calls(m, calls.take(j)), calls[j].0, calls[j].1, calls[j].2).1
}

proof fn lemma_mark_persists(m: Map<Seq<char>, u64>, calls: Seq<(Seq<char>, u64, u64)>, i: int, j: int, n: int)
    requires
        0 <= i < n <= j < calls.len(),
        forall|a: int| 0 <= a < calls.len() ==> calls[a].2 + calls[a].1 <= u64::MAX,
        forall|a: int, b: int| 0 <= a <= b < calls.len() ==> calls[a].2 <= calls[b].2,
        call_succeeds(m, calls, i),
        calls[j].2 < calls[i].2 + calls[i].1,
    ensures
        run_calls(m, calls.take(n)).contains_key(calls[i].0),
        run_calls(m, calls.take(n))[calls[i].0] == calls[i].2 + calls[i].1,
    decreases n,
{
    assert(calls.take(n).drop_last() =~= calls.take(n - 1));
    assert(calls.take(n).last() == calls[n - 1]);
    if n > i + 1 {
        lemma_mark_persists(m, calls, i, j, n - 1);
        assert(calls[n - 1].2 <= calls[j].2);
    }
}

/// At most one call succeeds per expiry window: in any time-ordered
/// sequence of calls, once a call marks key `k` at `t` with TTL `d`, every
/// later call on `k` before `t + d` is refused, whatever other calls came in
/// between.
pub proof fn lemma_one_mark_per_window(m: Map<Seq<char>, u64>, calls: Seq<(Seq<char>, u64, u64)>, i: int, j: int)
    requires
        0 <= i < j < calls.len(),
        forall|a: int| 0 <= a < calls.len() ==> calls[a].2 + calls[a].1 <= u64::MAX,
        forall|a: int, b: int| 0 <= a <= b < calls.len() ==> calls[a].2 <= calls[b].2,
        calls[i].0 == calls[j].0,
        call_succeeds(m, calls, i),
        calls[j].2 < calls[i].2 + calls[i].1,
    ensures
        !call_succeeds(m, calls, j),
{
    lemma_mark_persists(m, calls, i, j, j);
}

/// An abstract nonce store: atomic one-shot check-and-mark of keys with a TTL.
pub trait NonceStore {
    /// The store's internal consistency.
    spec fn store_wf(&self) -> bool;

    /// The marked keys and the time each mark expires.
    spec fn marks(&self) -> Map<Seq<char>, u64>;

    /// Marks `key` as used until `now + ttl_seconds` unless it is already
    /// marked with a record that has not expired.
    fn check_and_mark_used(&mut self, key: &str, ttl_seconds: u64, now: u64) -> (r: Result<
        (),
        NonceStoreError,
    >)
        requires
            old(self).store_wf(),
            now + ttl_seconds <= u64::MAX,
        ensures
            final(self).store_wf(),
            (final(self).marks(), r is Ok) == check_and_mark(old(self).marks(), key@, ttl_seconds, now),
    ;

    /// Advisory read: whether `key` is marked with an unexpired record.
    fn is_used(&self, key: &str, now: u64) -> (r: Result<bool, NonceStoreError>)
        requires
            self.store_wf(),
        ensures
            r matches Ok(b) ==> b == is_live(self.marks(), key@, now),
    ;

    /// Whether the store is reachable.
    fn health_check(&self) -> (r: Result<(), NonceStoreError>);

    /// A short name of the backend.
    fn store_type(&self) -> &'static str;
}

/// In-memory nonce store with lazy expiry; its records do not survive the process.
pub struct MemoryNonceStore {
    keys: Vec<String>,
    expires: Vec<u64>,
    model: Ghost<Map<Seq<char>, u64>>,
}

impl MemoryNonceStore {
    /// The marked keys and the time each record expires.
    pub closed spec fn view(&self) -> Map<Seq<char>, u64> {
        self.model@
    }

    /// Keys are unique and the two columns describe the model exactly.
    pub closed spec fn wf(&self) -> bool {
        &&& self.keys@.len() == self.expires@.len()
        &&& forall|i: int, j: int|
            0 <= i < j < self.keys@.len() ==> #[trigger] self.keys@[i]@ != #[trigger] self.keys@[j]@
        &&& forall|k: Seq<char>|
            #[trigger] self.model@.contains_key(k) <==> exists|i: int|
                0 <= i < self.keys@.len() && #[trigger] self.keys@[i]@ == k
        &&& forall|i: int|
            0 <= i < self.keys@.len() ==> self.model@[#[trigger] self.keys@[i]@] == self.expires@[i]
    }

    /// An empty store.
    pub fn new() -> (r: Self)
        ensures
            r.wf(),
            r.view() == Map::<Seq<char>, u64>::empty(),
    {
        MemoryNonceStore { keys: Vec::new(), expires: Vec::new(), model: Ghost(Map::empty()) }
    }

    fn find(&self, key: &str) -> (r: Option<usize>)
        requires
            self.wf(),
        ensures
            match r {
                Some(i) => i < self.keys@.len() && self.keys@[i as int]@ == key@,
                None => !self.view().contains_key(key@),
            },
    {
        let k = String::from_str(key);
        let mut i: usize = 0;
        while i < self.keys.len()
            invariant
                self.wf(),
                k@ == key@,
                0 <= i <= self.keys@.len(),
                forall|j: int| 0 <= j < i ==> self.keys@[j]@ != key@,
            decreases self.keys@.len() - i,
        {
            if self.keys[i] == k {
                return Some(i);
            }
            i = i + 1;
        }
        None
    }

    /// Marks `key` as used until `now + ttl_seconds`, unless it is marked with
    /// a record that expires after `now`; an expired record is replaced.
    pub fn check_and_mark_used(&mut self, key: &str, ttl_seconds: u64, now: u64) -> (r: Result<
        (),
        NonceStoreError,
    >)
        requires
            old(self).wf(),
            now + ttl_seconds <= u64::MAX,
        ensures
            final(self).wf(),
            (final(self).view(), r is Ok) == check_and_mark(old(self).view(), key@, ttl_seconds, now),
            r matches Err(e) ==> e matches NonceStoreError::NonceAlreadyUsed(k) && k@ == key@,
    {
        let expires_at: u64 = now + ttl_seconds;
        match self.find(key) {
            Some(i) => {
                if self.expires[i] > now {
                    return Err(NonceStoreError::NonceAlreadyUsed(String::from_str(key)));
                }
                self.expires.set(i, expires_at);
                self.model = Ghost(self.model@.insert(key@, expires_at));
                assert forall|k: Seq<char>| #[trigger] self.model@.contains_key(k) <==> exists|j: int|
                    0 <= j < self.keys@.len() && #[trigger] self.keys@[j]@ == k by {
                    assert(self.keys@ == old(self).keys@);
                    if k == key@ {
                        assert(self.keys@[i as int]@ == k);
                    } else {
                        assert(old(self).model@.contains_key(k) == self.model@.contains_key(k));
                    }
                }
                Ok(())
            },
            None => {
                self.keys.push(String::from_str(key));
                self.expires.push(expires_at);
                self.model = Ghost(self.model@.insert(key@, expires_at));
                let ghost n = self.keys@.len() - 1;
                assert(self.keys@[n]@ == key@);
                assert forall|k: Seq<char>| #[trigger] self.model@.contains_key(k) <==> exists|j: int|
                    0 <= j < self.keys@.len() && #[trigger] self.keys@[j]@ == k by {
                    if k != key@ && self.model@.contains_key(k) {
                        assert(old(self).model@.contains_key(k));
                        let j = choose|j: int| 0 <= j < old(self).keys@.len() && #[trigger] old(self).keys@[j]@ == k;
                        assert(self.keys@[j]@ == k);
                    }
                }
                Ok(())
            },
        }
    }

    /// Whether `key` is marked with a record that expires after `now`.
    pub fn is_used(&self, key: &str, now: u64) -> (r: bool)
        requires
            self.wf(),
        ensures
            r == is_live(self.view(), key@, now),
    {
        match self.find(key) {
            Some(i) => self.expires[i] > now,
            None => false,
        }
    }
}

impl Default for MemoryNonceStore {
    fn default() -> (r: Self)
        ensures
            r.wf(),
            r.view() == Map::<Seq<char>, u64>::empty(),
    {
        MemoryNonceStore::new()
    }
}

impl NonceStore for MemoryNonceStore {
    closed spec fn store_wf(&self) -> bool {
        self.wf()
    }

    closed spec fn marks(&self) -> Map<Seq<char>, u64> {
        self.view()
    }

    fn check_and_mark_used(&mut self, key: &str, ttl_seconds: u64, now: u64) -> (r: Result<
        (),
        NonceStoreError,
    >) {
        MemoryNonceStore::check_and_mark_used(self, key, ttl_seconds, now)
    }

    fn is_used(&self, key: &str, now: u64) -> (r: Result<bool, NonceStoreError>) {
        Ok(MemoryNonceStore::is_used(self, key, now))
    }

    fn health_check(&self) -> (r: Result<(), NonceStoreError>) {
        Ok(())
    }

    fn store_type(&self) -> &'static str {
        "memory"
    }
}

} // verus!

verus! {

/// The chain of a nonce key: its text before the first `#`.
pub open spec fn key_chain(key: Seq<char>) -> Seq<char> {
    split(key, '#')[0]
}

/// The conditional write that marks a key in the persistent backend: one
/// record under primary key `pk`, written only if absent or expired before
/// `condition_now`.
#[derive(Debug, Clone, PartialEq, Eq)]
pub struct NoncePutItem {
    pub pk: String,
    pub chain: String,
    pub created_at: u64,
    pub expires_at: u64,
    pub condition_now: u64,
}

/// How the backend answered a conditional write.
#[derive(Debug, Clone, PartialEq, Eq)]
pub enum PutOutcome {
    /// The record was written.
    Written,
    /// The condition failed: a live record exists.
    ConditionFailed,
    /// Any other failure, with its message.
    Failed(String),
}

/// Persistent nonce backend addressed by table name; the client that talks
/// to it is held by the caller.
#[derive(Debug, Clone)]
pub struct DynamoNonceStore {
    pub table_name: String,
}

impl DynamoNonceStore {
    /// A store over `table_name`.
    pub fn new(table_name: String) -> (r: Self)
        ensures
            r.table_name == table_name,
    {
        DynamoNonceStore { table_name }
    }

    /// A short name of the backend.
    pub fn store_type(&self) -> (r: &'static str)
        ensures
            r@ == "dynamodb"@,
    {
        "dynamodb"
    }

    /// The conditional write that marks `key` for `ttl_seconds` from `now`.
    pub fn put_item(&self, key: &str, ttl_seconds: u64, now: u64) -> (r: NoncePutItem)
        requires
            now + ttl_seconds <= u64::MAX,
        ensures
            r.pk@ == key@,
            r.chain@ == key_chain(key@),
            r.created_at == now,
            r.expires_at == now + ttl_seconds,
            r.condition_now == now,
    {
        let cs = chars_of(key);
        let pieces = split_chars(cs.as_slice(), '#');
        NoncePutItem {
            pk: String::from_str(key),
            chain: string_of(&pieces[0]),
            created_at: now,
            expires_at: now + ttl_seconds,
            condition_now: now,
        }
    }

    /// The check-and-mark result for the backend's answer: a failed condition
    /// is a replay, any other failure a transient write error.
    pub fn put_result(key: &str, outcome: PutOutcome) -> (r: Result<(), NonceStoreError>)
        ensures
            match outcome {
                PutOutcome::Written => r is Ok,
                PutOutcome::ConditionFailed => r matches Err(NonceStoreError::NonceAlreadyUsed(k)) && k@ == key@,
                PutOutcome::Failed(m) => r == Err::<(), _>(NonceStoreError::WriteError(m)),
            },
    {
        match outcome {
            PutOutcome::Written => Ok(()),
            PutOutcome::ConditionFailed => Err(NonceStoreError::NonceAlreadyUsed(String::from_str(key))),
            PutOutcome::Failed(m) => Err(NonceStoreError::WriteError(m)),
        }
    }

    /// The advisory read from a stored `expires_at` attribute: used while
    /// it parses as an integer later than `now`.
    pub fn is_used_from(expires_at: Option<&str>, now: u64) -> (r: bool)
        ensures
            r == (expires_at matches Some(s) && (parse_u64_spec(s@) matches Some(e) && e > now)),
    {
        match expires_at {
            Some(s) => {
                let cs = chars_of(s);
                match parse_unsigned(cs.as_slice(), 18446744073709551615u64) {
                    Some(e) => e > now,
                    None => false,
                }
            },
            None => false,
        }
    }
}

/// Which backend a configuration selects: the persistent one for a
/// non-empty table name, else the in-memory one.
pub fn uses_persistent_backend(table_name: Option<&str>) -> (r: bool)
    ensures
        r == (table_name matches Some(t) && t@.len() > 0),
{
    match table_name {
        Some(t) => !t.is_empty(),
        None => false,
    }
}

} // verus!
