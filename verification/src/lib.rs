//! A typed key-value layer in front of an ordered byte-store.
//!
//! The byte-store itself is somebody else's, and so is every call on it.
//! This library prepares the bytes of each raw call, in buffers that are
//! reused from call to call, and reads the typed result out of what the
//! store answered. Allocating a new ID is a protocol of several such calls
//! and of the caller's own hooks; the library decides each next step of it.
//!
//! - [`codec`]: which bytes stand for which value.
//! - [`buffer`]: encode buffers and the strategies that lend them.
//! - [`tree`]: the typed operations on one partition.
//! - [`generation`]: the protocol that allocates a new ID.
//! - [`id`]: the builder that configures a run of that protocol.
//! - [`store`]: what the library counts on from the byte-store.
//! - [`error`]: what can go wrong.

pub mod buffer;
pub mod codec;
pub mod error;
pub mod generation;
pub mod id;
pub mod store;
pub mod tree;

use crate::codec::Codec;
use crate::error::{Error, ErrorKind};
use vstd::prelude::*;

verus! {

/// A pair of buffers, one for an encoded key and one for an encoded value.
#[derive(Debug)]
pub struct EncodeBuffer {
    key: Vec<u8>,
    value: Vec<u8>,
}

impl Default for EncodeBuffer {
    /// A pair of empty buffers.
    fn default() -> (buffer: Self)
        ensures
            buffer.key_bytes() == Seq::<u8>::empty(),
            buffer.value_bytes() == Seq::<u8>::empty(),
    {
        EncodeBuffer { key: Vec::new(), value: Vec::new() }
    }
}

impl EncodeBuffer {
    /// The bytes of the key encoded last; empty before the first one and
    /// after `free_key`.
    pub closed spec fn key_bytes(&self) -> Seq<u8> {
        self.key@
    }

    /// The bytes of the value encoded last; empty before the first one and
    /// after `free_value`.
    pub closed spec fn value_bytes(&self) -> Seq<u8> {
        self.value@
    }

    /// Frees the memory of the key buffer.
    pub fn free_key(&mut self)
        ensures
            final(self).key_bytes() == Seq::<u8>::empty(),
            final(self).value_bytes() == old(self).value_bytes(),
    {
        self.key = Vec::new();
    }

    /// Frees the memory of the value buffer.
    pub fn free_value(&mut self)
        ensures
            final(self).value_bytes() == Seq::<u8>::empty(),
            final(self).key_bytes() == old(self).key_bytes(),
    {
        self.value = Vec::new();
    }

    /// Encodes a key in place of the last one and returns its bytes. The
    /// value buffer is left alone.
    pub fn encode_key<K: Codec>(&mut self, key: &K) -> (r: Result<&[u8], Error>)
        ensures
            r is Ok <==> K::encoding(key@) is Some,
            (r matches Ok(bytes) ==> Some(bytes@) == K::encoding(key@) && final(self).key_bytes()
                == bytes@),
            (r matches Err(error) ==> error@ is Serde),
            final(self).value_bytes() == old(self).value_bytes(),
    {
        self.key.clear();
        match encode(key, &mut self.key) {
            Ok(()) => Ok(self.key.as_slice()),
            Err(error) => Err(error),
        }
    }

    /// Encodes a value in place of the last one and returns its bytes. The
    /// key buffer is left alone.
    pub fn encode_value<V: Codec>(&mut self, value: &V) -> (r: Result<&[u8], Error>)
        ensures
            r is Ok <==> V::encoding(value@) is Some,
            (r matches Ok(bytes) ==> Some(bytes@) == V::encoding(value@)
                && final(self).value_bytes() == bytes@),
            (r matches Err(error) ==> error@ is Serde),
            final(self).key_bytes() == old(self).key_bytes(),
    {
        self.value.clear();
        match encode(value, &mut self.value) {
            Ok(()) => Ok(self.value.as_slice()),
            Err(error) => Err(error),
        }
    }

    /// Encodes a key and then a value, and returns the bytes of both. Where
    /// the key is refused, the value buffer is not touched.
    pub fn encode<K: Codec, V: Codec>(&mut self, key: &K, value: &V) -> (r: Result<
        (&[u8], &[u8]),
        Error,
    >)
        ensures
            r is Ok <==> K::encoding(key@) is Some && V::encoding(value@) is Some,
            (r matches Ok(pair) ==> Some(pair.0@) == K::encoding(key@)
                && Some(pair.1@) == V::encoding(value@)
                && final(self).key_bytes() == pair.0@
                && final(self).value_bytes() == pair.1@),
            (r matches Err(error) ==> error@ is Serde),
            K::encoding(key@) is None ==> final(self).value_bytes() == old(self).value_bytes(),
            (K::encoding(key@) matches Some(bytes) ==> final(self).key_bytes() == bytes),
    {
        match self.encode_key(key) {
            Ok(_) => {},
            Err(error) => {
                return Err(error);
            },
        }
        match self.encode_value(value) {
            Ok(_) => {},
            Err(error) => {
                return Err(error);
            },
        }
        Ok((self.key.as_slice(), self.value.as_slice()))
    }

    /// Returns the bytes of the key encoded last.
    pub fn last_key(&self) -> (bytes: &[u8])
        ensures
            bytes@ == self.key_bytes(),
    {
        self.key.as_slice()
    }

    /// Returns the bytes of the value encoded last.
    pub fn last_value(&self) -> (bytes: &[u8])
        ensures
            bytes@ == self.value_bytes(),
    {
        self.value.as_slice()
    }
}

/// Encodes a value into binary, behind what `buffer` holds. Where the codec
/// refuses the value, what the buffer held is still at its head.
pub fn encode<T: Codec>(data: &T, buffer: &mut Vec<u8>) -> (r: Result<(), Error>)
    ensures
        r is Ok <==> T::encoding(data@) is Some,
        r is Ok ==> final(buffer)@ == old(buffer)@ + T::encoding(data@).unwrap(),
        (r matches Err(error) ==> error@ is Serde && old(buffer)@.is_prefix_of(final(buffer)@)),
{
    match data.encode_into(buffer) {
        Ok(()) => Ok(()),
        Err(failure) => Err(Error::new(ErrorKind::Serde(failure))),
    }
}

/// Decodes a value from binary: the value that `bytes`, all of them, stand
/// for.
pub fn decode<T: Codec>(bytes: &[u8]) -> (r: Result<T, Error>)
    ensures
        r is Ok <==> T::decoding(bytes@) is Some,
        (r matches Ok(value) ==> T::decoding(bytes@) == Some(value@)),
        (r matches Err(error) ==> error@ is Serde),
{
    match T::decode_from(bytes) {
        Ok(value) => Ok(value),
        Err(failure) => Err(Error::new(ErrorKind::Serde(failure))),
    }
}

} // verus!
