//! The instance registry: the requests that are sent to the transactional
//! key/value store, what they mean, and what is made of its answers.
//!
//! The store itself is outside the library. `Db` says what to ask of it; the
//! caller runs each request in one transaction and hands back the answer.

use vstd::prelude::*;

verus! {

/// The value that `scan_prefix` passes on as the iteration of its range read.
pub const SCAN_ITERATION: usize = 100000000;

/// A handle on the registry.
#[derive(Clone, Copy, Debug)]
pub struct Db {}

/// One request to the store, to be run in a transaction of its own.
#[derive(Clone, Debug, PartialEq, Eq)]
pub enum StoreRequest {
    /// Read the value under `key`.
    Get { key: Vec<u8> },
    /// Store `value` under `key`.
    Put { key: Vec<u8>, value: Vec<u8> },
    /// Read every pair whose key is at least `begin` and less than `end`, in
    /// the order of the keys.
    GetRange { begin: Vec<u8>, end: Vec<u8>, iteration: usize },
    /// Delete `key`.
    Clear { key: Vec<u8> },
}

/// A request as plain values.
pub enum StoreRequestView {
    Get { key: Seq<u8> },
    Put { key: Seq<u8>, value: Seq<u8> },
    GetRange { begin: Seq<u8>, end: Seq<u8>, iteration: usize },
    Clear { key: Seq<u8> },
}

impl View for StoreRequest {
    type V = StoreRequestView;

    open spec fn view(&self) -> StoreRequestView {
        match self {
            StoreRequest::Get { key } => StoreRequestView::Get { key: key@ },
            StoreRequest::Put { key, value } => StoreRequestView::Put { key: key@, value: value@ },
            StoreRequest::GetRange { begin, end, iteration } => StoreRequestView::GetRange {
                begin: begin@,
                end: end@,
                iteration: *iteration,
            },
            StoreRequest::Clear { key } => StoreRequestView::Clear { key: key@ },
        }
    }
}

/// The operations of the registry.
#[derive(Clone, Copy, Debug, PartialEq, Eq, Structural)]
pub enum Operation {
    Get,
    Insert,
    ScanPrefix,
    Remove,
}

/// Why the store did not answer a request.
#[derive(Clone, Copy, Debug, PartialEq, Eq, Structural)]
pub enum StoreFailure {
    /// The store could not be reached.
    Unavailable,
    /// The transaction did not go through; it may be tried again.
    Conflict,
    /// The store refuses the request as such, as it does a malformed key.
    Rejected,
}

/// An error of the registry.
#[derive(Clone, Copy, Debug, PartialEq, Eq, Structural)]
pub struct DbError {
    /// The operation that failed.
    pub operation: Operation,
    /// What the store reported.
    pub failure: StoreFailure,
}

/// The text of a registry error.
pub open spec fn db_message_of(error: DbError) -> Seq<char> {
    match (error.operation, error.failure) {
        (Operation::Get, StoreFailure::Unavailable) => "Database get error"@,
        (Operation::Get, StoreFailure::Conflict) => "cannot commit transaction"@,
        (Operation::Get, StoreFailure::Rejected) => "Database get rejected"@,
        (Operation::Insert, StoreFailure::Unavailable) => "Database insert error"@,
        (Operation::Insert, StoreFailure::Conflict) => "Database insert transaction failed"@,
        (Operation::Insert, StoreFailure::Rejected) => "Database insert rejected"@,
        (Operation::ScanPrefix, StoreFailure::Unavailable) => "Database scan_prefix error"@,
        (Operation::ScanPrefix, StoreFailure::Conflict) => "Scan prefix error"@,
        (Operation::ScanPrefix, StoreFailure::Rejected) => "Scan prefix value error"@,
        (Operation::Remove, StoreFailure::Unavailable) => "Database remove error"@,
        (Operation::Remove, StoreFailure::Conflict) => "Db removal error"@,
        (Operation::Remove, StoreFailure::Rejected) => "Db removal rejected"@,
    }
}

impl DbError {
    /// The text of the error.
    pub fn message(&self) -> (text: &'static str)
        ensures
            text@ == db_message_of(*self),
    {
        match (self.operation, self.failure) {
            (Operation::Get, StoreFailure::Unavailable) => "Database get error",
            (Operation::Get, StoreFailure::Conflict) => "cannot commit transaction",
            (Operation::Get, StoreFailure::Rejected) => "Database get rejected",
            (Operation::Insert, StoreFailure::Unavailable) => "Database insert error",
            (Operation::Insert, StoreFailure::Conflict) => "Database insert transaction failed",
            (Operation::Insert, StoreFailure::Rejected) => "Database insert rejected",
            (Operation::ScanPrefix, StoreFailure::Unavailable) => "Database scan_prefix error",
            (Operation::ScanPrefix, StoreFailure::Conflict) => "Scan prefix error",
            (Operation::ScanPrefix, StoreFailure::Rejected) => "Scan prefix value error",
            (Operation::Remove, StoreFailure::Unavailable) => "Database remove error",
            (Operation::Remove, StoreFailure::Conflict) => "Db removal error",
            (Operation::Remove, StoreFailure::Rejected) => "Db removal rejected",
        }
    }

    /// Whether the same request may succeed when it is sent again: anything
    /// but a request that the store refuses as such.
    pub fn is_recoverable(&self) -> (recoverable: bool)
        ensures
            recoverable == (self.failure != StoreFailure::Rejected),
    {
        match self.failure {
            StoreFailure::Rejected => false,
            _ => true,
        }
    }
}

/// The bytes of a key given as text.
pub open spec fn key_bytes(key: Seq<char>) -> Seq<u8> {
    vstd::utf8::encode_utf8(key)
}

/// The end of the range that `scan_prefix` reads: the prefix and one byte
/// 0xFF.
pub open spec fn prefix_end(prefix: Seq<u8>) -> Seq<u8> {
    prefix.push(0xFFu8)
}

/// What the store's answer to an operation becomes: its payload, or the
/// error of that operation.
pub open spec fn reply_of<T>(operation: Operation, answer: Result<T, StoreFailure>) -> Result<
    T,
    DbError,
> {
    match answer {
        Ok(payload) => Ok(payload),
        Err(failure) => Err(DbError { operation, failure }),
    }
}

impl Db {
    /// The request that reads the value under `k`.
    pub fn get(self, k: &str) -> (request: StoreRequest)
        ensures
            request@ == (StoreRequestView::Get { key: key_bytes(k@) }),
    {
        StoreRequest::Get { key: k.as_bytes_vec() }
    }

    /// The request that stores `v` under `k`.
    pub fn insert(self, k: &str, v: &[u8]) -> (request: StoreRequest)
        ensures
            request@ == (StoreRequestView::Put { key: key_bytes(k@), value: v@ }),
    {
        StoreRequest::Put { key: k.as_bytes_vec(), value: vstd::slice::slice_to_vec(v) }
    }

    /// The request that reads every pair whose key starts with `prefix`: the
    /// range from the prefix itself up to, but without, the prefix followed
    /// by the byte 0xFF.
    pub fn scan_prefix(self, prefix: &str) -> (request: StoreRequest)
        ensures
            request@ == (StoreRequestView::GetRange {
                begin: key_bytes(prefix@),
                end: prefix_end(key_bytes(prefix@)),
                iteration: SCAN_ITERATION,
            }),
    {
        let begin = prefix.as_bytes_vec();
        let mut end = prefix.as_bytes_vec();
        end.push(0xFF);
        StoreRequest::GetRange { begin, end, iteration: SCAN_ITERATION }
    }

    /// The request that deletes `k`.
    pub fn remove(self, k: &str) -> (request: StoreRequest)
        ensures
            request@ == (StoreRequestView::Clear { key: key_bytes(k@) }),
    {
        StoreRequest::Clear { key: k.as_bytes_vec() }
    }

    /// What the answer to a `get` becomes.
    pub fn get_reply(self, answer: Result<Option<Vec<u8>>, StoreFailure>) -> (reply: Result<
        Option<Vec<u8>>,
        DbError,
    >)
        ensures
            reply == reply_of(Operation::Get, answer),
    {
        match answer {
            Ok(value) => Ok(value),
            Err(failure) => Err(DbError { operation: Operation::Get, failure }),
        }
    }

    /// What the answer to an `insert` becomes.
    pub fn insert_reply(self, answer: Result<(), StoreFailure>) -> (reply: Result<(), DbError>)
        ensures
            reply == reply_of(Operation::Insert, answer),
    {
        match answer {
            Ok(done) => Ok(done),
            Err(failure) => Err(DbError { operation: Operation::Insert, failure }),
        }
    }

    /// What the answer to a `scan_prefix` becomes.
    pub fn scan_prefix_reply(
        self,
        answer: Result<Vec<(Vec<u8>, Vec<u8>)>, StoreFailure>,
    ) -> (reply: Result<Vec<(Vec<u8>, Vec<u8>)>, DbError>)
        ensures
            reply == reply_of(Operation::ScanPrefix, answer),
    {
        match answer {
            Ok(pairs) => Ok(pairs),
            Err(failure) => Err(DbError { operation: Operation::ScanPrefix, failure }),
        }
    }

    /// What the answer to a `remove` becomes.
    pub fn remove_reply(self, answer: Result<(), StoreFailure>) -> (reply: Result<(), DbError>)
        ensures
            reply == reply_of(Operation::Remove, answer),
    {
        match answer {
            Ok(done) => Ok(done),
            Err(failure) => Err(DbError { operation: Operation::Remove, failure }),
        }
    }

    /// The second half of a guarded insert, in the transaction that has just
    /// read the guard: nothing is written when the guard is held, else `v`
    /// is stored under `k`.
    pub fn insert_unless(self, guard_held: bool, k: &str, v: &[u8]) -> (request: Option<
        StoreRequest,
    >)
        ensures
            guard_held ==> request is None,
            !guard_held ==> (request matches Some(r) && r@ == (StoreRequestView::Put {
                key: key_bytes(k@),
                value: v@,
            })),
    {
        if guard_held {
            None
        } else {
            Some(self.insert(k, v))
        }
    }

    /// Whether a `get` has shown the key to be held. A failed read shows
    /// nothing: the key then counts as free.
    pub fn holds(self, reply: &Result<Option<Vec<u8>>, DbError>) -> (held: bool)
        ensures
            held == (reply matches Ok(Some(_))),
    {
        match reply {
            Ok(Some(_)) => true,
            _ => false,
        }
    }
}

/// The store's content: the pairs it holds, by key.
pub type Store = Map<Seq<u8>, Seq<u8>>;

/// The store's content after a request has been carried out.
pub open spec fn store_after(store: Store, request: StoreRequestView) -> Store {
    match request {
        StoreRequestView::Put { key, value } => store.insert(key, value),
        StoreRequestView::Clear { key } => store.remove(key),
        _ => store,
    }
}

/// The store's content after a guarded insert: unchanged when the guard is
/// held, else with `value` under `key`.
pub open spec fn store_after_guarded_insert(
    store: Store,
    guard: Seq<u8>,
    key: Seq<u8>,
    value: Seq<u8>,
) -> Store {
    if store.dom().contains(guard) {
        store
    } else {
        store_after(store, StoreRequestView::Put { key, value })
    }
}

/// A guarded insert changes nothing for an instance whose guard is held;
/// otherwise the key holds the value afterwards, and every other key holds
/// what it held before.
pub proof fn guarded_insert_is_atomic(
    store: Store,
    guard: Seq<u8>,
    key: Seq<u8>,
    value: Seq<u8>,
    other: Seq<u8>,
)
    requires
        other != key,
    ensures
        ({
            let after = store_after_guarded_insert(store, guard, key, value);
            &&& store.dom().contains(guard) ==> after == store
            &&& !store.dom().contains(guard) ==> after.dom().contains(key) && after[key] == value
            &&& after.dom().contains(other) == store.dom().contains(other)
            &&& store.dom().contains(other) ==> after[other] == store[other]
        }),
{
}

/// Whether `a` starts with `prefix`.
pub open spec fn starts_with(a: Seq<u8>, prefix: Seq<u8>) -> bool {
    prefix.len() <= a.len() && a.subrange(0, prefix.len() as int) == prefix
}

/// Whether `a` comes before `b` in the order of the store's keys: byte by
/// byte, a proper prefix first.
pub open spec fn key_less(a: Seq<u8>, b: Seq<u8>) -> bool {
    ||| (a.len() < b.len() && starts_with(b, a))
    ||| exists|i: int|
        0 <= i < a.len() && i < b.len() && a.subrange(0, i) == b.subrange(0, i) && #[trigger] a[i]
            < b[i]
}

/// Whether a range read from `begin` to `end` returns the pair under `key`.
pub open spec fn in_range(begin: Seq<u8>, end: Seq<u8>, key: Seq<u8>) -> bool {
    (key == begin || key_less(begin, key)) && key_less(key, end)
}

/// The range of `scan_prefix` holds the keys that start with the prefix, and
/// no others. A key is left out only if the byte after the prefix is 0xFF,
/// which no key made from text has.
pub proof fn prefix_range_is_exact(prefix: Seq<u8>, key: Seq<u8>)
    requires
        key.len() > prefix.len() ==> key[prefix.len() as int] != 0xFF,
    ensures
        in_range(prefix, prefix_end(prefix), key) <==> starts_with(key, prefix),
{
    let end = prefix_end(prefix);
    let n = prefix.len() as int;
    if starts_with(key, prefix) {
        if key.len() == n {
            assert(key =~= prefix);
            assert(end.subrange(0, n) =~= prefix);
        } else {
            assert(prefix =~= key.subrange(0, n));
            assert(key.subrange(0, n) =~= end.subrange(0, n));
            assert(key[n] < end[n]);
        }
    } else if in_range(prefix, end, key) {
        // the key is not below the prefix, so it differs from it at a byte
        // where it is greater; it is below the end, so it cannot be
        assert(prefix.subrange(0, n) =~= prefix);
        assert(key != prefix);
        assert(!(prefix.len() < key.len() && starts_with(key, prefix)));
        let i = choose|i: int|
            0 <= i < prefix.len() && i < key.len() && prefix.subrange(0, i) == key.subrange(0, i)
                && #[trigger] prefix[i] < key[i];
        if key.len() < end.len() && starts_with(end, key) {
            assert(key[i] == end.subrange(0, key.len() as int)[i]);
        } else {
            let j = choose|j: int|
                0 <= j < key.len() && j < end.len() && key.subrange(0, j) == end.subrange(0, j)
                    && #[trigger] key[j] < end[j];
            if j < i {
                assert(prefix.subrange(0, i)[j] == key.subrange(0, i)[j]);
            } else if j > i {
                assert(key.subrange(0, j)[i] == end.subrange(0, j)[i]);
            }
        }
    }
}

/// No byte of the encoding of one character is 0xFF.
proof fn scalar_bytes_hold_no_ff(scalar: u32, j: int)
    requires
        0 <= j < vstd::utf8::encode_scalar(scalar).len(),
    ensures
        vstd::utf8::encode_scalar(scalar)[j] != 0xFF,
{
    assert(((scalar & 0x7F) as u8) != 0xFF) by (bit_vector);
    assert(0xC0u8 | (((scalar >> 6) & 0x1F) as u8) != 0xFF) by (bit_vector);
    assert(0xE0u8 | (((scalar >> 12) & 0x0F) as u8) != 0xFF) by (bit_vector);
    assert(0xF0u8 | (((scalar >> 18) & 0x7) as u8) != 0xFF) by (bit_vector);
    assert(0x80u8 | ((scalar & 0x3F) as u8) != 0xFF) by (bit_vector);
    assert(0x80u8 | (((scalar >> 6) & 0x3F) as u8) != 0xFF) by (bit_vector);
    assert(0x80u8 | (((scalar >> 12) & 0x3F) as u8) != 0xFF) by (bit_vector);
}

/// Text never encodes to the byte 0xFF, so `scan_prefix` misses no key that
/// was made from text.
pub proof fn text_keys_hold_no_ff(key: Seq<char>, i: int)
    requires
        0 <= i < key_bytes(key).len(),
    ensures
        key_bytes(key)[i] != 0xFF,
    decreases key.len(),
{
    if key.len() > 0 {
        let first = vstd::utf8::encode_scalar(key[0] as u32);
        if i < first.len() {
            scalar_bytes_hold_no_ff(key[0] as u32, i);
        } else {
            text_keys_hold_no_ff(key.drop_first(), i - first.len());
        }
    }
}

/// `scan_prefix` reads exactly the keys that start with its prefix, among
/// the keys that were made from text.
pub proof fn scan_prefix_finds_text_keys(prefix: Seq<char>, key: Seq<char>)
    ensures
        in_range(key_bytes(prefix), prefix_end(key_bytes(prefix)), key_bytes(key)) <==> starts_with(
            key_bytes(key),
            key_bytes(prefix),
        ),
{
    if key_bytes(key).len() > key_bytes(prefix).len() {
        text_keys_hold_no_ff(key, key_bytes(prefix).len() as int);
    }
    prefix_range_is_exact(key_bytes(prefix), key_bytes(key));
}

} // verus!
