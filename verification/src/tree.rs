//! A persistent, typed, ordered tree: the typed operations on one
//! partition of the byte-store.
//!
//! Each operation comes in two steps around the one raw call that it needs.
//! The first step encodes the operands into buffers of an allocation
//! strategy and says which raw call to make. The caller makes that call on
//! the partition. The second step reads the typed result out of the store's
//! answer and hands the buffers back to the strategy, whatever the answer.

use crate::buffer::{held_after_make, held_after_save, Allocation, Buffer, DefaultPool};
use crate::codec::Codec;
use crate::decode;
use crate::error::{Error, ErrorKind};
pub use crate::id::IdBuilder;
use crate::store::{raw_contains_key, raw_get, raw_insert, raw_remove, Contents};
use sled::Error as StoreFailure;
use sled::Tree as Partition;
use std::marker::PhantomData;
use vstd::prelude::*;

verus! {

/// `sled::Tree`, the handle of one partition of the byte-store. The library
/// only carries it: nothing is known of what it holds.
#[verifier::external_type_specification]
#[verifier::external_body]
pub struct ExPartition(Partition);

/// `sled::Tree::clone`: another handle of the same partition. The two
/// handles stand for one and the same partition, so they count as equal.
#[verifier::external_body]
fn share_partition(storage: &Partition) -> (shared: Partition)
    ensures
        shared == *storage,
{
    storage.clone()
}

/// An ID generated by the tree.
pub type Id = u64;

/// The raw calls that the typed operations need.
#[derive(Debug, Clone, Copy, PartialEq, Eq, Structural)]
pub enum RawCall {
    /// Read the value under the key.
    Get,
    /// Write the value under the key, and answer the value that was there.
    Insert,
    /// Tell whether there is a value under the key.
    ContainsKey,
    /// Take the value under the key away, and answer it.
    Remove,
}

/// The operands of one raw call, encoded, in buffers on loan from an
/// allocation strategy.
#[derive(Debug)]
pub struct Request {
    call: RawCall,
    key: Buffer,
    value: Option<Buffer>,
}

impl Request {
    /// The raw call to make.
    pub closed spec fn spec_call(&self) -> RawCall {
        self.call
    }

    /// The buffer that holds the encoded key.
    pub closed spec fn key_buffer(&self) -> Buffer {
        self.key
    }

    /// The buffer that holds the encoded value, where the call takes one.
    pub closed spec fn value_buffer(&self) -> Option<Buffer> {
        self.value
    }

    /// What a strategy of type `A` holds once the buffers of the request
    /// were saved to it, the key's first, when `held` was held before.
    pub open spec fn returned<A: Allocation>(&self, held: Seq<Buffer>) -> Seq<Buffer> {
        let with_key = held_after_save::<A>(held, self.key_buffer());
        match self.value_buffer() {
            Some(buffer) => held_after_save::<A>(with_key, buffer),
            None => with_key,
        }
    }

    /// The raw call to make.
    #[verifier::when_used_as_spec(spec_call)]
    pub fn call(&self) -> (call: RawCall)
        ensures
            call == self.spec_call(),
    {
        self.call
    }

    /// The encoded key to make the call with.
    pub fn key(&self) -> (bytes: &[u8])
        ensures
            bytes@ == self.key_buffer()@,
    {
        self.key.bytes()
    }

    /// The encoded value to make the call with, where the call takes one.
    pub fn value(&self) -> (bytes: Option<&[u8]>)
        ensures
            bytes_view(bytes) == buffer_view(self.value_buffer()),
    {
        match &self.value {
            Some(buffer) => Some(buffer.bytes()),
            None => None,
        }
    }

    /// Hands the buffers of the request back to the strategy, the key's
    /// first.
    fn give_back<A: Allocation>(self, allocation: &mut A)
        ensures
            (*final(allocation)).held() == self.returned::<A>((*old(allocation)).held()),
    {
        let Request { call: _, key, value } = self;
        allocation.save(key);
        match value {
            Some(buffer) => allocation.save(buffer),
            None => {},
        }
    }
}

/// The bytes of a slice that may be there.
pub open spec fn bytes_view(found: Option<&[u8]>) -> Option<Seq<u8>> {
    match found {
        Some(bytes) => Some(bytes@),
        None => None,
    }
}

/// The bytes of a buffer that may be there.
pub open spec fn buffer_view(found: Option<Buffer>) -> Option<Seq<u8>> {
    match found {
        Some(buffer) => Some(buffer@),
        None => None,
    }
}

/// The typed value that stands at the place of a value that may be there.
pub open spec fn value_view<V: View>(value: Option<V>) -> Option<V::V> {
    match value {
        Some(value) => Some(value@),
        None => None,
    }
}

/// The value that the store answered, typed: the value that the bytes
/// stand for, nothing where the store found nothing, and `Err` where it
/// found bytes that stand for no value.
pub open spec fn typed<V: Codec>(found: Option<Seq<u8>>) -> Result<Option<V::V>, ()> {
    match found {
        None => Ok(None),
        Some(bytes) => match V::decoding(bytes) {
            Some(value) => Ok(Some(value)),
            None => Err(()),
        },
    }
}

/// What the store answered to a raw call that answers a value, with the
/// bytes themselves at the place of the slice.
pub open spec fn reply_view(
    reply: Result<Option<&[u8]>, StoreFailure>,
) -> Result<Option<Seq<u8>>, StoreFailure> {
    match reply {
        Ok(found) => Ok(bytes_view(found)),
        Err(failure) => Err(failure),
    }
}

/// Whether `r` is what a typed operation returns when the store answered
/// `reply` with a value that may be there: the store's failure as it is,
/// the typed value, or a codec failure where the bytes stand for no value.
pub open spec fn value_outcome<V: Codec>(
    reply: Result<Option<Seq<u8>>, StoreFailure>,
    r: Result<Option<V>, Error>,
) -> bool {
    match reply {
        Err(failure) => (r matches Err(error) && error@ == ErrorKind::Sled(failure)),
        Ok(found) => match typed::<V>(found) {
            Ok(value) => (r matches Ok(read) && value_view(read) == value),
            Err(_) => (r matches Err(error) && error@ is Serde),
        },
    }
}

/// Whether `r` is what a typed operation returns when the store answered
/// `reply` to a question of presence: the store's failure as it is, or the
/// answer.
pub open spec fn presence_outcome(
    reply: Result<bool, StoreFailure>,
    r: Result<bool, Error>,
) -> bool {
    match reply {
        Err(failure) => (r matches Err(error) && error@ == ErrorKind::Sled(failure)),
        Ok(present) => r == Ok::<bool, Error>(present),
    }
}

/// Whether `r` and `after` are what the first step of an operation on a key
/// gives, when a strategy of type `A` held `before`: a request for `call`
/// with the encoded key in a buffer taken from the strategy, or, where the
/// codec refuses the key, a codec failure with the buffer handed back.
pub open spec fn key_requested<K: Codec, A: Allocation>(
    call: RawCall,
    key: K::V,
    before: Seq<Buffer>,
    after: Seq<Buffer>,
    r: Result<Request, Error>,
) -> bool {
    let lent = held_after_make::<A>(before);
    match K::encoding(key) {
        Some(bytes) => (r matches Ok(request) && request.call() == call && request.key_buffer()@
            == bytes && request.value_buffer() is None && after == lent),
        None => (r matches Err(error) && error@ is Serde && exists|buffer: Buffer|
            after == held_after_save::<A>(lent, buffer)),
    }
}

/// Whether `r` and `after` are what the first step of an insertion gives,
/// when a strategy of type `A` held `before`: a request with the encoded
/// key and value in two buffers taken from the strategy, or, where the
/// codec refuses one of them, a codec failure with both buffers handed
/// back.
pub open spec fn pair_requested<K: Codec, V: Codec, A: Allocation>(
    key: K::V,
    value: V::V,
    before: Seq<Buffer>,
    after: Seq<Buffer>,
    r: Result<Request, Error>,
) -> bool {
    let lent = held_after_make::<A>(held_after_make::<A>(before));
    if K::encoding(key) is Some && V::encoding(value) is Some {
        r matches Ok(request) && request.call() == RawCall::Insert
            && Some(request.key_buffer()@) == K::encoding(key)
            && buffer_view(request.value_buffer()) == V::encoding(value)
            && after == lent
    } else {
        r matches Err(error) && error@ is Serde && exists|first: Buffer, second: Buffer|
            after == held_after_save::<A>(held_after_save::<A>(lent, first), second)
    }
}

/// A persistent key-value structure.
#[derive(Debug)]
pub struct Tree<K: Codec, V: Codec> {
    storage: Partition,
    marker: PhantomData<(K, V)>,
}

impl<K: Codec, V: Codec> Clone for Tree<K, V> {
    /// Another handle of the same partition.
    fn clone(&self) -> (tree: Self)
        ensures
            tree.partition() == self.partition(),
    {
        Tree { storage: share_partition(&self.storage), marker: PhantomData }
    }
}

impl<K: Codec, V: Codec> Tree<K, V> {
    /// The partition of the byte-store that the tree reads and writes.
    pub closed spec fn partition(&self) -> Partition {
        self.storage
    }

    /// Opens this tree from what the store answered when it was asked to
    /// open the partition.
    pub fn open(opened: Result<Partition, StoreFailure>) -> (r: Result<Self, Error>)
        ensures
            match opened {
                Ok(storage) => (r matches Ok(tree) && tree.partition() == storage),
                Err(failure) => (r matches Err(error) && error@ == ErrorKind::Sled(failure)),
            },
    {
        match opened {
            Ok(storage) => Ok(Tree { storage, marker: PhantomData }),
            Err(failure) => Err(Error::new(ErrorKind::Sled(failure))),
        }
    }

    /// The partition to make the raw calls on.
    pub fn storage(&self) -> (storage: &Partition)
        ensures
            *storage == self.partition(),
    {
        &self.storage
    }

    /// Encodes `key` into a buffer of the strategy, as the operand of
    /// `call`.
    fn key_request<A: Allocation>(call: RawCall, key: &K, allocation: &mut A) -> (r: Result<
        Request,
        Error,
    >)
        ensures
            key_requested::<K, A>(
                call,
                key@,
                (*old(allocation)).held(),
                (*final(allocation)).held(),
                r,
            ),
    {
        let ghost lent = held_after_make::<A>(allocation.held());
        let mut key_buf = allocation.make();
        match key_buf.encode(key) {
            Ok(_) => Ok(Request { call, key: key_buf, value: None }),
            Err(error) => {
                let ghost first = key_buf;
                allocation.save(key_buf);
                assert(allocation.held() == held_after_save::<A>(lent, first));
                Err(error)
            },
        }
    }

    /// First step of `get`: encodes the key with a buffer of the given
    /// allocation strategy.
    pub fn get_with<A: Allocation>(&self, key: &K, allocation: &mut A) -> (r: Result<
        Request,
        Error,
    >)
        ensures
            key_requested::<K, A>(
                RawCall::Get,
                key@,
                (*old(allocation)).held(),
                (*final(allocation)).held(),
                r,
            ),
    {
        Self::key_request(RawCall::Get, key, allocation)
    }

    /// First step of `get`: encodes the key with a buffer of the worker's
    /// default pool.
    pub fn get(&self, key: &K, pool: &mut DefaultPool) -> (r: Result<Request, Error>)
        ensures
            key_requested::<K, DefaultPool>(
                RawCall::Get,
                key@,
                (*old(pool)).held(),
                (*final(pool)).held(),
                r,
            ),
    {
        self.get_with(key, pool)
    }

    /// First step of `insert`: encodes the key and the value with two
    /// buffers of the given allocation strategy.
    pub fn insert_with<A: Allocation>(&self, key: &K, val: &V, allocation: &mut A) -> (r: Result<
        Request,
        Error,
    >)
        ensures
            pair_requested::<K, V, A>(
                key@,
                val@,
                (*old(allocation)).held(),
                (*final(allocation)).held(),
                r,
            ),
    {
        let ghost lent = held_after_make::<A>(held_after_make::<A>(allocation.held()));
        let mut key_buf = allocation.make();
        let mut val_buf = allocation.make();
        let encoded = match key_buf.encode(key) {
            Ok(_) => match val_buf.encode(val) {
                Ok(_) => Ok(()),
                Err(error) => Err(error),
            },
            Err(error) => Err(error),
        };
        match encoded {
            Ok(()) => Ok(Request { call: RawCall::Insert, key: key_buf, value: Some(val_buf) }),
            Err(error) => {
                let ghost first = key_buf;
                let ghost second = val_buf;
                allocation.save(key_buf);
                allocation.save(val_buf);
                assert(allocation.held() == held_after_save::<A>(
                    held_after_save::<A>(lent, first),
                    second,
                ));
                Err(error)
            },
        }
    }

    /// First step of `insert`: encodes the key and the value with two
    /// buffers of the worker's default pool.
    pub fn insert(&self, key: &K, val: &V, pool: &mut DefaultPool) -> (r: Result<Request, Error>)
        ensures
            pair_requested::<K, V, DefaultPool>(
                key@,
                val@,
                (*old(pool)).held(),
                (*final(pool)).held(),
                r,
            ),
    {
        self.insert_with(key, val, pool)
    }

    /// First step of `contains_key`: encodes the key with a buffer of the
    /// given allocation strategy.
    pub fn contains_key_with<A: Allocation>(&self, key: &K, allocation: &mut A) -> (r: Result<
        Request,
        Error,
    >)
        ensures
            key_requested::<K, A>(
                RawCall::ContainsKey,
                key@,
                (*old(allocation)).held(),
                (*final(allocation)).held(),
                r,
            ),
    {
        Self::key_request(RawCall::ContainsKey, key, allocation)
    }

    /// First step of `contains_key`: encodes the key with a buffer of the
    /// worker's default pool.
    pub fn contains_key(&self, key: &K, pool: &mut DefaultPool) -> (r: Result<Request, Error>)
        ensures
            key_requested::<K, DefaultPool>(
                RawCall::ContainsKey,
                key@,
                (*old(pool)).held(),
                (*final(pool)).held(),
                r,
            ),
    {
        self.contains_key_with(key, pool)
    }

    /// First step of `remove`: encodes the key with a buffer of the given
    /// allocation strategy.
    pub fn remove_with<A: Allocation>(&self, key: &K, allocation: &mut A) -> (r: Result<
        Request,
        Error,
    >)
        ensures
            key_requested::<K, A>(
                RawCall::Remove,
                key@,
                (*old(allocation)).held(),
                (*final(allocation)).held(),
                r,
            ),
    {
        Self::key_request(RawCall::Remove, key, allocation)
    }

    /// First step of `remove`: encodes the key with a buffer of the
    /// worker's default pool.
    pub fn remove(&self, key: &K, pool: &mut DefaultPool) -> (r: Result<Request, Error>)
        ensures
            key_requested::<K, DefaultPool>(
                RawCall::Remove,
                key@,
                (*old(pool)).held(),
                (*final(pool)).held(),
                r,
            ),
    {
        self.remove_with(key, pool)
    }

    /// Reads the typed value out of what the store answered to a `get`, an
    /// `insert` or a `remove`.
    pub fn read_value(reply: Result<Option<&[u8]>, StoreFailure>) -> (r: Result<Option<V>, Error>)
        ensures
            value_outcome::<V>(reply_view(reply), r),
    {
        match reply {
            Err(failure) => Err(Error::new(ErrorKind::Sled(failure))),
            Ok(None) => Ok(None),
            Ok(Some(bytes)) => match decode::<V>(bytes) {
                Ok(value) => Ok(Some(value)),
                Err(error) => Err(error),
            },
        }
    }

    /// Reads the result out of what the store answered to a `contains_key`.
    pub fn read_presence(reply: Result<bool, StoreFailure>) -> (r: Result<bool, Error>)
        ensures
            presence_outcome(reply, r),
    {
        match reply {
            Err(failure) => Err(Error::new(ErrorKind::Sled(failure))),
            Ok(present) => Ok(present),
        }
    }

    /// Second step of `get`, `insert` and `remove`: the value that the
    /// store answered, typed. For `get` it is the value under the key, for
    /// `insert` and `remove` the value that was there before. The buffers
    /// of the request go back to the strategy, whatever the answer.
    pub fn finish_value<A: Allocation>(
        &self,
        request: Request,
        reply: Result<Option<&[u8]>, StoreFailure>,
        allocation: &mut A,
    ) -> (r: Result<Option<V>, Error>)
        ensures
            value_outcome::<V>(reply_view(reply), r),
            (*final(allocation)).held() == request.returned::<A>((*old(allocation)).held()),
    {
        let result = Self::read_value(reply);
        request.give_back(allocation);
        result
    }

    /// Second step of `contains_key`: whether the store holds the key. The
    /// buffer of the request goes back to the strategy, whatever the answer.
    pub fn finish_presence<A: Allocation>(
        &self,
        request: Request,
        reply: Result<bool, StoreFailure>,
        allocation: &mut A,
    ) -> (r: Result<bool, Error>)
        ensures
            presence_outcome(reply, r),
            (*final(allocation)).held() == request.returned::<A>((*old(allocation)).held()),
    {
        let result = Self::read_presence(reply);
        request.give_back(allocation);
        result
    }
}

/// Two values with one encoding are one value: what is stored under a key
/// is never read back under another.
pub proof fn lemma_encoding_tells_apart<T: Codec>(first: T::V, second: T::V)
    requires
        T::encoding(first) is Some,
        T::encoding(first) == T::encoding(second),
    ensures
        first == second,
{
    T::lemma_round_trip(first);
    T::lemma_round_trip(second);
}

/// Whether all that a partition holds was put there through a tree of
/// these types: every key stands for a key, every value for a value.
pub open spec fn holds_typed<K: Codec, V: Codec>(contents: Contents) -> bool {
    forall|key: Seq<u8>| #[trigger]
        contents.contains_key(key) ==> K::decoding(key) is Some && V::decoding(contents[key])
            is Some
}

/// A partition that only a tree of these types writes to holds nothing
/// else: insertions and removals keep it so, and no read of it ever finds
/// bytes that stand for no value.
pub proof fn lemma_tree_stays_typed<K: Codec, V: Codec>(
    contents: Contents,
    key: K::V,
    value: V::V,
)
    requires
        holds_typed::<K, V>(contents),
        K::encoding(key) is Some,
        V::encoding(value) is Some,
    ensures
        holds_typed::<K, V>(
            raw_insert(contents, K::encoding(key).unwrap(), V::encoding(value).unwrap()),
        ),
        holds_typed::<K, V>(raw_remove(contents, K::encoding(key).unwrap())),
        forall|any: Seq<u8>| typed::<V>(#[trigger] raw_get(contents, any)) is Ok,
{
    K::lemma_round_trip(key);
    V::lemma_round_trip(value);
}

/// After an insertion, a `get` of the key returns the value inserted:
/// whatever the tree held before, `got` is that value when it is what the
/// second step of `get` returns for the store's answer.
pub proof fn lemma_insert_then_get<K: Codec, V: Codec>(
    contents: Contents,
    key: K::V,
    value: V::V,
    got: Result<Option<V>, Error>,
)
    requires
        K::encoding(key) is Some,
        V::encoding(value) is Some,
        value_outcome::<V>(
            Ok(
                raw_get(
                    raw_insert(contents, K::encoding(key).unwrap(), V::encoding(value).unwrap()),
                    K::encoding(key).unwrap(),
                ),
            ),
            got,
        ),
    ensures
        (got matches Ok(Some(read)) && read@ == value),
{
    V::lemma_round_trip(value);
}

/// An insertion returns nothing the first time a key is used, and the
/// value that was there when it overwrites: `first` is what `insert`
/// returns on a tree without the key, `second` what it returns once
/// `earlier` was inserted under the key.
pub proof fn lemma_insert_returns_previous<K: Codec, V: Codec>(
    contents: Contents,
    key: K::V,
    earlier: V::V,
    first: Result<Option<V>, Error>,
    second: Result<Option<V>, Error>,
)
    requires
        K::encoding(key) is Some,
        V::encoding(earlier) is Some,
        !raw_contains_key(contents, K::encoding(key).unwrap()),
        value_outcome::<V>(Ok(raw_get(contents, K::encoding(key).unwrap())), first),
        value_outcome::<V>(
            Ok(
                raw_get(
                    raw_insert(contents, K::encoding(key).unwrap(), V::encoding(earlier).unwrap()),
                    K::encoding(key).unwrap(),
                ),
            ),
            second,
        ),
    ensures
        (first matches Ok(None)),
        (second matches Ok(Some(read)) && read@ == earlier),
{
    V::lemma_round_trip(earlier);
}

/// An insertion under one key changes nothing of what a `get` of another
/// key gives.
pub proof fn lemma_insert_keeps_other_keys<K: Codec, V: Codec>(
    contents: Contents,
    key: K::V,
    value: V::V,
    other: K::V,
)
    requires
        K::encoding(key) is Some,
        K::encoding(other) is Some,
        V::encoding(value) is Some,
        key != other,
    ensures
        raw_get(
            raw_insert(contents, K::encoding(key).unwrap(), V::encoding(value).unwrap()),
            K::encoding(other).unwrap(),
        ) == raw_get(contents, K::encoding(other).unwrap()),
{
    if K::encoding(key) == K::encoding(other) {
        lemma_encoding_tells_apart::<K>(key, other);
    }
}

/// Removing a key that is not in the tree returns nothing and leaves the
/// tree as it was: `removed` is what `remove` returns for the store's
/// answer.
pub proof fn lemma_remove_absent<K: Codec, V: Codec>(
    contents: Contents,
    key: K::V,
    removed: Result<Option<V>, Error>,
)
    requires
        K::encoding(key) is Some,
        !raw_contains_key(contents, K::encoding(key).unwrap()),
        value_outcome::<V>(Ok(raw_get(contents, K::encoding(key).unwrap())), removed),
    ensures
        (removed matches Ok(None)),
        raw_remove(contents, K::encoding(key).unwrap()) == contents,
{
    assert(raw_remove(contents, K::encoding(key).unwrap()) =~= contents);
}

/// Removing a key that is in the tree returns the value that was stored
/// under it, and `contains_key` is false afterwards: `removed` is what
/// `remove` returns, `present` what a `contains_key` after it returns.
pub proof fn lemma_remove_present<K: Codec, V: Codec>(
    contents: Contents,
    key: K::V,
    value: V::V,
    removed: Result<Option<V>, Error>,
    present: Result<bool, Error>,
)
    requires
        K::encoding(key) is Some,
        V::encoding(value) is Some,
        raw_get(contents, K::encoding(key).unwrap()) == V::encoding(value),
        value_outcome::<V>(Ok(raw_get(contents, K::encoding(key).unwrap())), removed),
        presence_outcome(
            Ok(
                raw_contains_key(
                    raw_remove(contents, K::encoding(key).unwrap()),
                    K::encoding(key).unwrap(),
                ),
            ),
            present,
        ),
    ensures
        (removed matches Ok(Some(read)) && read@ == value),
        present == Ok::<bool, Error>(false),
{
    V::lemma_round_trip(value);
}

} // verus!
