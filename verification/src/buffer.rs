//! Encode buffers, and the strategies that hand them out and take them
//! back, so that repeated encoding does not throw allocations away.

use crate::codec::Codec;
use crate::error::{Error, ErrorKind};
use vstd::prelude::*;

verus! {

/// An encode buffer. Useful for not throwing away allocations.
#[derive(Debug)]
pub struct Buffer {
    bytes: Vec<u8>,
}

impl View for Buffer {
    type V = Seq<u8>;

    /// The bytes of the last encoding; empty before the first one and after
    /// `free`.
    closed spec fn view(&self) -> Seq<u8> {
        self.bytes@
    }
}

impl Default for Buffer {
    /// A buffer that holds no bytes.
    fn default() -> (buffer: Self)
        ensures
            buffer@ == Seq::<u8>::empty(),
    {
        Buffer { bytes: Vec::new() }
    }
}

impl Clone for Buffer {
    /// A clone shares nothing with the buffer it was made from: it starts
    /// empty.
    fn clone(&self) -> (buffer: Self)
        ensures
            buffer@ == Seq::<u8>::empty(),
    {
        Buffer { bytes: Vec::new() }
    }
}

impl Buffer {
    /// Encodes the given input data, in place of what the buffer held, and
    /// returns the bytes just written. Decoding them gives the data back.
    /// Where the codec refuses the data, nothing is promised of what the
    /// buffer holds.
    pub fn encode<T: Codec>(&mut self, data: &T) -> (r: Result<&[u8], Error>)
        ensures
            r is Ok <==> T::encoding(data@) is Some,
            (r matches Ok(bytes) ==> Some(bytes@) == T::encoding(data@) && final(self)@ == bytes@
                && T::decoding(bytes@) == Some(data@)),
            (r matches Err(error) ==> error@ is Serde),
    {
        proof {
            T::lemma_round_trip(data@);
        }
        self.bytes.clear();
        match data.encode_into(&mut self.bytes) {
            Ok(()) => Ok(self.bytes.as_slice()),
            Err(failure) => Err(Error::new(ErrorKind::Serde(failure))),
        }
    }

    /// Returns the last encoded bytes. Initially, this is just an empty slice.
    pub fn bytes(&self) -> (bytes: &[u8])
        ensures
            bytes@ == self@,
    {
        self.bytes.as_slice()
    }

    /// Frees all the memory of this buffer.
    pub fn free(&mut self)
        ensures
            final(self)@ == Seq::<u8>::empty(),
    {
        self.bytes = Vec::new();
    }
}

/// The place that a strategy picked, where it lies in `held`.
pub open spec fn place_in(picked: Option<int>, held: Seq<Buffer>) -> Option<int> {
    match picked {
        Some(place) => if 0 <= place < held.len() {
            Some(place)
        } else {
            None
        },
        None => None,
    }
}

/// Whether `buffer` is what is handed out when `picked` was picked among
/// `held`: the buffer picked, bytes and storage, or an empty one.
pub open spec fn hands_out(picked: Option<int>, held: Seq<Buffer>, buffer: Buffer) -> bool {
    match place_in(picked, held) {
        Some(place) => buffer == held[place],
        None => buffer@ == Seq::<u8>::empty(),
    }
}

/// What is left of `held` when `picked` was picked and handed out.
pub open spec fn rest_of(picked: Option<int>, held: Seq<Buffer>) -> Seq<Buffer> {
    match place_in(picked, held) {
        Some(place) => held.remove(place),
        None => held,
    }
}

/// `held` with `buffer` behind it where it is kept.
pub open spec fn with_saved(kept: bool, held: Seq<Buffer>, buffer: Buffer) -> Seq<Buffer> {
    if kept {
        held.push(buffer)
    } else {
        held
    }
}

/// Allocation strategy for encode buffers.
///
/// A strategy is described by the buffers that it holds for reuse, by which
/// of them `make` hands out, and by whether `save` keeps what it is given.
pub trait Allocation {
    /// The buffers held for reuse, in the order in which they were saved.
    spec fn held(&self) -> Seq<Buffer>;

    /// The place in `held` of the buffer that `make` hands out next; `None`
    /// (or a place outside `held`) where it makes a fresh one.
    spec fn pick(held: Seq<Buffer>) -> Option<int>;

    /// Whether `save` keeps `buffer` when `held` is held.
    spec fn keeps(held: Seq<Buffer>, buffer: Buffer) -> bool;

    /// Allocates a buffer: one of those held, which then is held no longer,
    /// or a fresh, empty one.
    fn make(&mut self) -> (buffer: Buffer)
        ensures
            hands_out(Self::pick(old(self).held()), old(self).held(), buffer),
            final(self).held() == rest_of(Self::pick(old(self).held()), old(self).held()),
    ;

    /// Saves an allocated buffer.
    fn save(&mut self, buffer: Buffer)
        ensures
            final(self).held() == with_saved(
                Self::keeps(old(self).held(), buffer),
                old(self).held(),
                buffer,
            ),
    ;

    /// Frees all allocated buffers.
    fn free(&mut self)
        ensures
            final(self).held() == Seq::<Buffer>::empty(),
    ;
}

/// Whether `buffer` is what `make` of a strategy of type `A` hands out when
/// `held` is held.
pub open spec fn made_from<A: Allocation + ?Sized>(held: Seq<Buffer>, buffer: Buffer) -> bool {
    hands_out(A::pick(held), held, buffer)
}

/// What a strategy of type `A` holds after `make`, when `held` was held
/// before.
pub open spec fn held_after_make<A: Allocation + ?Sized>(held: Seq<Buffer>) -> Seq<Buffer> {
    rest_of(A::pick(held), held)
}

/// What a strategy of type `A` holds after `save(buffer)`, when `held` was
/// held before.
pub open spec fn held_after_save<A: Allocation + ?Sized>(
    held: Seq<Buffer>,
    buffer: Buffer,
) -> Seq<Buffer> {
    with_saved(A::keeps(held, buffer), held, buffer)
}

impl<'this, A: Allocation> Allocation for &'this mut A {
    open spec fn held(&self) -> Seq<Buffer> {
        (**self).held()
    }

    open spec fn pick(held: Seq<Buffer>) -> Option<int> {
        A::pick(held)
    }

    open spec fn keeps(held: Seq<Buffer>, buffer: Buffer) -> bool {
        A::keeps(held, buffer)
    }

    fn make(&mut self) -> (buffer: Buffer) {
        (**self).make()
    }

    fn save(&mut self, buffer: Buffer) {
        (**self).save(buffer)
    }

    fn free(&mut self) {
        (**self).free()
    }
}

/// Allocator for one time use buffers. Saving buffers through this does
/// nothing.
#[derive(Debug)]
pub struct OneTime;

impl Clone for OneTime {
    fn clone(&self) -> (strategy: Self) {
        OneTime
    }
}

impl Default for OneTime {
    fn default() -> (strategy: Self)
        ensures
            strategy.held() == Seq::<Buffer>::empty(),
    {
        OneTime
    }
}

impl Allocation for OneTime {
    open spec fn held(&self) -> Seq<Buffer> {
        Seq::empty()
    }

    open spec fn pick(held: Seq<Buffer>) -> Option<int> {
        None
    }

    open spec fn keeps(held: Seq<Buffer>, buffer: Buffer) -> bool {
        false
    }

    fn make(&mut self) -> (buffer: Buffer)
        ensures
            buffer@ == Seq::<u8>::empty(),
    {
        Buffer::default()
    }

    fn save(&mut self, _buffer: Buffer) {
    }

    fn free(&mut self) {
    }
}

/// A pool for buffer allocations. Saves all allocated buffers.
#[derive(Debug)]
pub struct Pool {
    buffers: Vec<Buffer>,
}

impl Default for Pool {
    /// A pool that holds no buffer.
    fn default() -> (pool: Self)
        ensures
            pool.held() == Seq::<Buffer>::empty(),
    {
        Pool { buffers: Vec::new() }
    }
}

impl Clone for Pool {
    /// A clone shares no buffer with the pool it was made from: it starts
    /// empty.
    fn clone(&self) -> (pool: Self)
        ensures
            pool.held() == Seq::<Buffer>::empty(),
    {
        Pool { buffers: Vec::new() }
    }
}

impl Allocation for Pool {
    closed spec fn held(&self) -> Seq<Buffer> {
        self.buffers@
    }

    /// A pool hands out the buffer that was saved last.
    open spec fn pick(held: Seq<Buffer>) -> Option<int> {
        if held.len() > 0 {
            Some(held.len() - 1)
        } else {
            None
        }
    }

    open spec fn keeps(held: Seq<Buffer>, buffer: Buffer) -> bool {
        true
    }

    fn make(&mut self) -> (buffer: Buffer) {
        match self.buffers.pop() {
            Some(buffer) => buffer,
            None => Buffer::default(),
        }
    }

    fn save(&mut self, buffer: Buffer) {
        self.buffers.push(buffer);
    }

    fn free(&mut self) {
        self.buffers = Vec::new();
    }
}

/// The default pool of one worker: a pool that lives as long as the worker
/// and that every operation of the worker can reach.
///
/// The worker keeps one such value for itself, so no two workers ever see
/// each other's buffers. Every access goes through [`with_default_pool`].
#[derive(Debug)]
pub struct DefaultPool {
    slot: Pool,
}

impl Default for DefaultPool {
    /// The default pool of a worker that has not saved a buffer yet.
    fn default() -> (pool: Self)
        ensures
            pool.held() == Seq::<Buffer>::empty(),
    {
        DefaultPool { slot: Pool::default() }
    }
}

/// Runs `visitor` on the pool in `default_pool`. The pool is taken out for
/// the time of the visit, during which `default_pool` holds no buffer, and
/// put back as the visitor left it.
pub fn with_default_pool<F, T>(default_pool: &mut DefaultPool, visitor: F) -> (ret: T)
    where
        F: FnOnce(&mut Pool) -> T,
    requires
        forall|pool: &mut Pool|
            (*pool).held() == (*old(default_pool)).held() ==> call_requires(visitor, (pool,)),
    ensures
        exists|pool: &mut Pool|
            (*pool).held() == (*old(default_pool)).held()
                && (*final(pool)).held() == (*final(default_pool)).held()
                && call_ensures(visitor, (pool,), ret),
{
    let mut pool = Pool::default();
    std::mem::swap(&mut default_pool.slot, &mut pool);
    let ret = visitor(&mut pool);
    default_pool.slot = pool;
    ret
}

impl Allocation for DefaultPool {
    closed spec fn held(&self) -> Seq<Buffer> {
        self.slot.held()
    }

    open spec fn pick(held: Seq<Buffer>) -> Option<int> {
        Pool::pick(held)
    }

    open spec fn keeps(held: Seq<Buffer>, buffer: Buffer) -> bool {
        Pool::keeps(held, buffer)
    }

    fn make(&mut self) -> (buffer: Buffer) {
        let visitor = |pool: &mut Pool| -> (buffer: Buffer)
            ensures
                made_from::<Pool>((*old(pool)).held(), buffer),
                (*final(pool)).held() == held_after_make::<Pool>((*old(pool)).held()),
            {
                pool.make()
            };
        with_default_pool(self, visitor)
    }

    fn save(&mut self, buffer: Buffer) {
        let visitor = |pool: &mut Pool|
            ensures
                (*final(pool)).held() == held_after_save::<Pool>((*old(pool)).held(), buffer),
            {
                pool.save(buffer)
            };
        with_default_pool(self, visitor)
    }

    fn free(&mut self) {
        let visitor = |pool: &mut Pool|
            ensures
                (*final(pool)).held() == Seq::<Buffer>::empty(),
            {
                pool.free()
            };
        with_default_pool(self, visitor)
    }
}

/// A pool hands out again the buffer that it was given last, bytes and
/// storage, and is then as it was before that buffer was saved: nothing is
/// allocated for a buffer that the pool can supply.
pub proof fn lemma_pool_reuses_saved(held: Seq<Buffer>, buffer: Buffer)
    ensures
        ({
            let saved = held_after_save::<Pool>(held, buffer);
            &&& place_in(Pool::pick(saved), saved) == Some(held.len() as int)
            &&& forall|made: Buffer| made_from::<Pool>(saved, made) <==> made == buffer
            &&& held_after_make::<Pool>(saved) == held
        }),
{
    let saved = held_after_save::<Pool>(held, buffer);
    assert(saved.remove(held.len() as int) =~= held);
}

/// The default pool of a worker reuses buffers as a pool does.
pub proof fn lemma_default_pool_reuses_saved(held: Seq<Buffer>, buffer: Buffer)
    ensures
        ({
            let saved = held_after_save::<DefaultPool>(held, buffer);
            &&& forall|made: Buffer| made_from::<DefaultPool>(saved, made) <==> made == buffer
            &&& held_after_make::<DefaultPool>(saved) == held
        }),
{
    lemma_pool_reuses_saved(held, buffer);
    let saved = held_after_save::<DefaultPool>(held, buffer);
    assert(saved.remove(held.len() as int) =~= held);
}

/// A pool neither loses a buffer nor grows without need: when as many
/// buffers come back as were taken, it holds as many as before, or as many as
/// were taken where it held fewer. So once a pool holds the one or two
/// buffers that an operation takes, operations allocate no more.
pub proof fn lemma_pool_settles(held: Seq<Buffer>, first: Buffer, second: Buffer)
    ensures
        ({
            let lent = held_after_make::<Pool>(held);
            let back = held_after_save::<Pool>(lent, first);
            back.len() == if held.len() >= 1 {
                held.len()
            } else {
                1
            }
        }),
        ({
            let lent = held_after_make::<Pool>(held_after_make::<Pool>(held));
            let back = held_after_save::<Pool>(held_after_save::<Pool>(lent, first), second);
            back.len() == if held.len() >= 2 {
                held.len()
            } else {
                2
            }
        }),
{
}

/// A one-time strategy never hands out a buffer that it was given: whatever
/// was saved, it holds nothing and the next buffer is a fresh, empty one.
pub proof fn lemma_one_time_never_reuses(held: Seq<Buffer>, buffer: Buffer)
    ensures
        held_after_save::<OneTime>(held, buffer) == held,
        OneTime::pick(held_after_save::<OneTime>(held, buffer)) is None,
        forall|made: Buffer|
            made_from::<OneTime>(held_after_save::<OneTime>(held, buffer), made) <==> made@
                == Seq::<u8>::empty(),
        held_after_make::<OneTime>(held) == held,
{
}

} // verus!
