//! Key-value persistence with expiry and typed retrieval, and the record
//! locator built on it: records are stored under their payment id, and a
//! secondary index maps an attempt id to that payment id so a record stays
//! reachable by either identifier.

use vstd::prelude::*;
use crate::strings::str_equal;
use crate::types::{DummyConnectorErrors, DummyConnectorPaymentData, DummyConnectorResult};

verus! {

/// A stored value: either a payment record or a payment id written by the
/// secondary index. Retrieval asks for one of the two shapes and fails when
/// the stored value does not decode as it.
pub enum StoreValue {
    Record(DummyConnectorPaymentData),
    Id(String),
}

impl Clone for StoreValue {
    fn clone(&self) -> (r: Self)
        ensures
            r == *self,
    {
        match self {
            StoreValue::Record(d) => StoreValue::Record(d.clone()),
            StoreValue::Id(s) => StoreValue::Id(s.clone()),
        }
    }
}

/// One write to the store: a key, the value written under it, and the
/// time-to-live in seconds that the write carried.
pub struct StoreEntry {
    pub key: String,
    pub value: StoreValue,
    pub ttl: i64,
}

/// The contents that a sequence of writes leaves behind: a map from key to
/// the last value (and time-to-live) written under it.
pub open spec fn seq_contents(s: Seq<StoreEntry>) -> Map<Seq<char>, (StoreValue, i64)>
    decreases s.len(),
{
    if s.len() == 0 {
        Map::empty()
    } else {
        seq_contents(s.drop_last()).insert(s.last().key@, (s.last().value, s.last().ttl))
    }
}

/// The key-value store backing the simulator, modeled as the log of writes it
/// has received; a later write to a key replaces an earlier one.
pub struct Store {
    entries: Vec<StoreEntry>,
}

impl Store {
    /// What the store holds: each key maps to the last value written under it.
    pub closed spec fn contents(self) -> Map<Seq<char>, (StoreValue, i64)> {
        seq_contents(self.entries@)
    }

    /// Creates an empty store.
    pub fn new() -> (r: Self)
        ensures
            r.contents() == Map::<Seq<char>, (StoreValue, i64)>::empty(),
    {
        Store { entries: Vec::new() }
    }

    /// Writes `value` under `key` with the given expiry, replacing any value
    /// already there.
    pub fn put(&mut self, key: String, value: StoreValue, ttl: i64)
        ensures
            final(self).contents() == old(self).contents().insert(key@, (value, ttl)),
    {
        let ghost entries0 = self.entries@;
        self.entries.push(StoreEntry { key, value, ttl });
        proof {
            assert(self.entries@.drop_last() =~= entries0);
        }
    }

    /// Reads the value under `key`, or `None` when no write covered the key.
    pub fn get(&self, key: &str) -> (r: Option<&StoreValue>)
        ensures
            match r {
                Some(v) => self.contents().contains_key(key@) && *v == self.contents()[key@].0,
                None => !self.contents().contains_key(key@),
            },
    {
        let mut i: usize = self.entries.len();
        while i > 0
            invariant
                i <= self.entries@.len(),
                forall|j: int| i <= j < self.entries@.len() ==> self.entries@[j].key@ != key@,
            decreases i,
        {
            i = i - 1;
            if str_equal(self.entries[i].key.as_str(), key) {
                proof {
                    lemma_last_write_wins(self.entries@, i as int, key@);
                }
                return Some(&self.entries[i].value);
            }
        }
        proof {
            lemma_unwritten_key_absent(self.entries@, key@);
        }
        None
    }
}

/// The value under a key is the one of the last write to that key.
proof fn lemma_last_write_wins(s: Seq<StoreEntry>, i: int, key: Seq<char>)
    requires
        0 <= i < s.len(),
        s[i].key@ == key,
        forall|j: int| i < j < s.len() ==> s[j].key@ != key,
    ensures
        seq_contents(s).contains_key(key),
        seq_contents(s)[key] == (s[i].value, s[i].ttl),
    decreases s.len(),
{
    if i == s.len() - 1 {
    } else {
        lemma_last_write_wins(s.drop_last(), i, key);
    }
}

/// A key that no write covered is absent from the contents.
proof fn lemma_unwritten_key_absent(s: Seq<StoreEntry>, key: Seq<char>)
    requires
        forall|j: int| 0 <= j < s.len() ==> s[j].key@ != key,
    ensures
        !seq_contents(s).contains_key(key),
    decreases s.len(),
{
    if s.len() > 0 {
        lemma_unwritten_key_absent(s.drop_last(), key);
    }
}

/// What a record lookup returns for given store contents: the record stored
/// under the key, or `PaymentNotFound` when the key is absent or holds
/// something that is not a record.
pub open spec fn spec_find_record(
    m: Map<Seq<char>, (StoreValue, i64)>,
    key: Seq<char>,
) -> DummyConnectorResult<DummyConnectorPaymentData> {
    if m.contains_key(key) && m[key].0 matches StoreValue::Record(d) {
        Ok(m[key].0->Record_0)
    } else {
        Err(DummyConnectorErrors::PaymentNotFound)
    }
}

/// What an attempt-id lookup returns for given store contents: follow the
/// secondary index to a payment id, then look the record up under it; a miss
/// at either step is `PaymentNotFound`.
pub open spec fn spec_find_by_attempt(
    m: Map<Seq<char>, (StoreValue, i64)>,
    key: Seq<char>,
) -> DummyConnectorResult<DummyConnectorPaymentData> {
    if m.contains_key(key) {
        match m[key].0 {
            StoreValue::Id(payment_id) => spec_find_record(m, payment_id@),
            StoreValue::Record(_) => Err(DummyConnectorErrors::PaymentNotFound),
        }
    } else {
        Err(DummyConnectorErrors::PaymentNotFound)
    }
}

/// Round trip: storing a new record and immediately looking it up by its
/// payment id returns that record.
pub proof fn lemma_store_then_find_round_trip(
    m: Map<Seq<char>, (StoreValue, i64)>,
    record: DummyConnectorPaymentData,
    ttl: i64,
)
    ensures
        spec_find_record(m.insert(record.payment_id@, (StoreValue::Record(record), ttl)),
            record.payment_id@,
        ) == Ok::<_, DummyConnectorErrors>(record),
{
}

/// Indirection: after writing the index entry for an attempt and then the
/// record under its payment id, looking up by the attempt id returns the same
/// record as looking up by the payment id. The two writes must land under
/// distinct keys; an attempt id equal to the payment id would have the record
/// overwrite its own index entry.
pub proof fn lemma_index_then_find_by_attempt(
    m: Map<Seq<char>, (StoreValue, i64)>,
    attempt_id: String,
    payment_id: String,
    record: DummyConnectorPaymentData,
    ttl: i64,
)
    requires
        record.payment_id == payment_id,
        attempt_id@ != payment_id@,
    ensures
        ({
            let stored = m.insert(attempt_id@, (StoreValue::Id(payment_id), ttl)).insert(
                payment_id@,
                (StoreValue::Record(record), ttl),
            );
            spec_find_by_attempt(stored, attempt_id@) == spec_find_record(stored, payment_id@)
                && spec_find_record(stored, payment_id@) == Ok::<_, DummyConnectorErrors>(record)
        }),
{
}

/// A lookup by an identifier that nothing was stored under fails with
/// `PaymentNotFound`, by either access path.
pub proof fn lemma_unknown_id_not_found(m: Map<Seq<char>, (StoreValue, i64)>, key: Seq<char>)
    requires
        !m.contains_key(key),
    ensures
        spec_find_record(m, key) == Err::<DummyConnectorPaymentData, _>(
            DummyConnectorErrors::PaymentNotFound,
        ),
        spec_find_by_attempt(m, key) == Err::<DummyConnectorPaymentData, _>(
            DummyConnectorErrors::PaymentNotFound,
        ),
{
}

/// Serializes `data` and writes it under `key` with the given expiry,
/// replacing any value already there.
pub fn store_data_in_redis(store: &mut Store, key: String, data: StoreValue, ttl: i64) -> (r:
    DummyConnectorResult<()>)
    ensures
        r == Ok::<(), DummyConnectorErrors>(()),
        final(store).contents() == old(store).contents().insert(key@, (data, ttl)),
{
    store.put(key, data, ttl);
    Ok(())
}

/// Persists a newly created payment record under its payment id.
pub fn store_new_record(store: &mut Store, record: DummyConnectorPaymentData, ttl: i64) -> (r:
    DummyConnectorResult<()>)
    ensures
        r == Ok::<(), DummyConnectorErrors>(()),
        final(store).contents() == old(store).contents().insert(
            record.payment_id@,
            (StoreValue::Record(record), ttl),
        ),
{
    let key = record.payment_id.clone();
    store_data_in_redis(store, key, StoreValue::Record(record), ttl)
}

/// Writes the secondary index entry mapping an attempt id to the payment id
/// whose record it belongs to.
pub fn index_attempt(store: &mut Store, attempt_id: String, payment_id: String, ttl: i64) -> (r:
    DummyConnectorResult<()>)
    ensures
        r == Ok::<(), DummyConnectorErrors>(()),
        final(store).contents() == old(store).contents().insert(
            attempt_id@,
            (StoreValue::Id(payment_id), ttl),
        ),
{
    store_data_in_redis(store, attempt_id, StoreValue::Id(payment_id), ttl)
}

/// Looks a payment record up by its payment id.
pub fn get_payment_data_from_payment_id(store: &Store, payment_id: String) -> (r:
    DummyConnectorResult<DummyConnectorPaymentData>)
    ensures
        r == spec_find_record(store.contents(), payment_id@),
{
    match store.get(payment_id.as_str()) {
        Some(StoreValue::Record(d)) => Ok(d.clone()),
        _ => Err(DummyConnectorErrors::PaymentNotFound),
    }
}

/// Looks a payment record up by the attempt id that created it, through the
/// secondary index; a miss at either step is `PaymentNotFound`.
pub fn get_payment_data_by_attempt_id(store: &Store, attempt_id: String) -> (r:
    DummyConnectorResult<DummyConnectorPaymentData>)
    ensures
        r == spec_find_by_attempt(store.contents(), attempt_id@),
{
    let payment_id = match store.get(attempt_id.as_str()) {
        Some(StoreValue::Id(payment_id)) => payment_id,
        _ => {
            return Err(DummyConnectorErrors::PaymentNotFound);
        },
    };
    match store.get(payment_id.as_str()) {
        Some(StoreValue::Record(d)) => Ok(d.clone()),
        _ => Err(DummyConnectorErrors::PaymentNotFound),
    }
}

} // verus!
