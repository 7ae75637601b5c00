//! The builder of an ID generation: the tree to insert into and the four
//! things a run is configured with, each of which can be set by itself.
//!
//! The hooks come in four shapes, along two lines: a hook can fail or not,
//! and it answers at once or hands out a future. The builder keeps each
//! hook in a wrapper that tells its shape. The two shapes that answer at
//! once are called here; the driver awaits the other two.

use crate::buffer::{held_after_make, Allocation, DefaultPool};
use crate::codec::Codec;
use crate::error::Error;
use crate::generation::{Generation, Phase};
use crate::tree::{Id, Tree};
use core::future::Future;
use vstd::prelude::*;

verus! {

/// A hook that cannot fail and answers at once.
#[derive(Debug, Clone)]
pub struct Infallible<F>(pub F);

/// A hook that can fail and answers at once.
#[derive(Debug, Clone)]
pub struct Fallible<F>(pub F);

/// A hook that cannot fail and hands out a future.
#[derive(Debug, Clone)]
pub struct AsyncInfallible<F>(pub F);

/// A hook that can fail and hands out a future.
#[derive(Debug, Clone)]
pub struct AsyncFallible<F>(pub F);

impl<F> Infallible<F> {
    /// Asks the hook, as an ID-maker, for the key of a raw ID. The answer
    /// is a success, whatever the error type.
    pub fn make_id<K, E>(&mut self, raw: Id) -> (r: Result<K, E>)
        where
            F: FnMut(Id) -> K,
        requires
            call_requires(old(self).0, (raw,)),
        ensures
            (r matches Ok(key) && call_ensures(old(self).0, (raw,), key)),
    {
        Ok((self.0)(raw))
    }

    /// Asks the hook, as a data-maker, for the value of a key. The answer
    /// is a success, whatever the error type.
    pub fn make_data<K, V, E>(self, key: &K) -> (r: Result<V, E>)
        where
            F: FnOnce(&K) -> V,
        requires
            call_requires(self.0, (key,)),
        ensures
            (r matches Ok(value) && call_ensures(self.0, (key,), value)),
    {
        Ok((self.0)(key))
    }
}

impl<F> Fallible<F> {
    /// Asks the hook, as an ID-maker, for the key of a raw ID.
    pub fn make_id<K, E>(&mut self, raw: Id) -> (r: Result<K, E>)
        where
            F: FnMut(Id) -> Result<K, E>,
        requires
            call_requires(old(self).0, (raw,)),
        ensures
            call_ensures(old(self).0, (raw,), r),
    {
        (self.0)(raw)
    }

    /// Asks the hook, as a data-maker, for the value of a key.
    pub fn make_data<K, V, E>(self, key: &K) -> (r: Result<V, E>)
        where
            F: FnOnce(&K) -> Result<V, E>,
        requires
            call_requires(self.0, (key,)),
        ensures
            call_ensures(self.0, (key,), r),
    {
        (self.0)(key)
    }
}

/// The shapes that an ID-maker can have, for keys of type `K` and failures
/// of type `E`.
pub trait IdHook<K, E> {}

impl<K, E, F> IdHook<K, E> for Infallible<F> where F: FnMut(Id) -> K {}

impl<K, E, F> IdHook<K, E> for Fallible<F> where F: FnMut(Id) -> Result<K, E> {}

impl<K, E, F, AK> IdHook<K, E> for AsyncInfallible<F> where
    F: FnMut(Id) -> AK,
    AK: Future<Output = K>,
{}

impl<K, E, F, AK> IdHook<K, E> for AsyncFallible<F> where
    F: FnMut(Id) -> AK,
    AK: Future<Output = Result<K, E>>,
{}

/// The shapes that a data-maker can have, for keys of type `K`, values of
/// type `V` and failures of type `E`.
pub trait DataHook<K, V, E> {}

impl<K, V, E, F> DataHook<K, V, E> for Infallible<F> where F: FnOnce(&K) -> V {}

impl<K, V, E, F> DataHook<K, V, E> for Fallible<F> where F: FnOnce(&K) -> Result<V, E> {}

impl<K, V, E, F, AV> DataHook<K, V, E> for AsyncInfallible<F> where
    F: FnOnce(&K) -> AV,
    AV: Future<Output = V>,
{}

impl<K, V, E, F, AV> DataHook<K, V, E> for AsyncFallible<F> where
    F: FnOnce(&K) -> AV,
    AV: Future<Output = Result<V, E>>,
{}

/// The error conversor of a builder that was given none: the error stays as
/// it is.
pub fn unconverted(error: Error) -> (same: Error)
    ensures
        same == error,
{
    error
}

/// What a builder is configured with.
#[derive(Debug, Clone)]
pub struct Slots<A, FE, FK, FV> {
    /// The allocation strategy that lends the two buffers of a run.
    pub allocation: A,
    /// The error conversor: how a failure of the store or of the codec
    /// becomes an error of the caller's type.
    pub make_error: FE,
    /// The ID-maker: from a raw ID to a key.
    pub make_id: FK,
    /// The data-maker: from a key that is new to its value.
    pub make_data: FV,
}

/// An ID generator builder. See [`Tree::id_builder`] for more details.
#[derive(Debug, Clone)]
pub struct IdBuilder<'tree, K: Codec, V: Codec, A, FE, FK, FV> {
    tree: &'tree Tree<K, V>,
    allocation: A,
    make_error: FE,
    make_id: FK,
    make_data: FV,
}

impl<'tree, K: Codec, V: Codec, A, FE, FK, FV> View for IdBuilder<'tree, K, V, A, FE, FK, FV> {
    type V = Slots<A, FE, FK, FV>;

    closed spec fn view(&self) -> Slots<A, FE, FK, FV> {
        Slots {
            allocation: self.allocation,
            make_error: self.make_error,
            make_id: self.make_id,
            make_data: self.make_data,
        }
    }
}

impl<K: Codec, V: Codec> Tree<K, V> {
    /// Creates a builder for an ID generator.
    ///
    /// An ID generator tries to generate a new ID as a key of an entry, and
    /// when successful, inserts the key with a value. First of all, it
    /// generates an integer, and then it uses the ID-maker to produce a
    /// key. When such a key is indeed new, it uses the data-maker to
    /// produce a value associated with the key, and inserts the pair in the
    /// tree.
    ///
    /// The builder starts with the worker's default pool as its allocation
    /// strategy, with an error conversor that leaves errors as they are,
    /// and with no ID-maker and no data-maker.
    pub fn id_builder<'tree, 'pool>(&'tree self, pool: &'pool mut DefaultPool) -> (builder:
        IdBuilder<'tree, K, V, &'pool mut DefaultPool, impl FnOnce(Error) -> Error, (), ()>)
        ensures
            builder.tree() == self,
            *builder@.allocation == *old(pool),
            *final(builder@.allocation) == *final(pool),
            forall|error: Error| call_requires(builder@.make_error, (error,)),
            forall|error: Error, converted: Error|
                call_ensures(builder@.make_error, (error,), converted) ==> converted == error,
    {
        IdBuilder {
            tree: self,
            allocation: pool,
            make_error: unconverted,
            make_id: (),
            make_data: (),
        }
    }
}

impl<'tree, K: Codec, V: Codec, A, FE, FK, FV> IdBuilder<'tree, K, V, A, FE, FK, FV> {
    /// The tree that a run of the builder inserts into.
    pub closed spec fn tree(&self) -> &'tree Tree<K, V> {
        self.tree
    }

    /// Changes the serialization buffer allocation. By default, the builder
    /// would use the worker's default pool.
    pub fn allocation<A0>(self, allocation: A0) -> (builder: IdBuilder<'tree, K, V, A0, FE, FK, FV>)
        where
            A0: Allocation,
        ensures
            builder.tree() == self.tree(),
            builder@.allocation == allocation,
            builder@.make_error == self@.make_error,
            builder@.make_id == self@.make_id,
            builder@.make_data == self@.make_data,
    {
        IdBuilder {
            tree: self.tree,
            allocation,
            make_error: self.make_error,
            make_id: self.make_id,
            make_data: self.make_data,
        }
    }

    /// Sets the error conversor (a function).
    pub fn error_conversor<FE0, E>(self, make_error: FE0) -> (builder: IdBuilder<
        'tree,
        K,
        V,
        A,
        FE0,
        FK,
        FV,
    >)
        where
            FE0: FnOnce(Error) -> E,
        ensures
            builder.tree() == self.tree(),
            builder@.allocation == self@.allocation,
            builder@.make_error == make_error,
            builder@.make_id == self@.make_id,
            builder@.make_data == self@.make_data,
    {
        IdBuilder {
            tree: self.tree,
            allocation: self.allocation,
            make_error,
            make_id: self.make_id,
            make_data: self.make_data,
        }
    }

    /// Sets the error conversor simply as the implementation of the `From`
    /// trait.
    pub fn error_from<E>(self) -> (builder: IdBuilder<
        'tree,
        K,
        V,
        A,
        impl FnOnce(Error) -> E,
        FK,
        FV,
    >)
        where
            E: From<Error>,
        ensures
            builder.tree() == self.tree(),
            builder@.allocation == self@.allocation,
            builder@.make_id == self@.make_id,
            builder@.make_data == self@.make_data,
            forall|error: Error| call_requires(builder@.make_error, (error,)),
            forall|error: Error, converted: E|
                call_ensures(builder@.make_error, (error,), converted) ==> call_ensures(
                    E::from,
                    (error,),
                    converted,
                ),
    {
        let convert = |error: Error| -> (converted: E)
            ensures
                call_ensures(E::from, (error,), converted),
            {
                E::from(error)
            };
        self.error_conversor(convert)
    }

    /// Sets the given function as the "id maker", a function that CANNOT
    /// fail and is SYNChronous.
    pub fn id_maker<FK0>(self, make_id: FK0) -> (builder: IdBuilder<
        'tree,
        K,
        V,
        A,
        FE,
        Infallible<FK0>,
        FV,
    >)
        where
            FK0: FnMut(Id) -> K,
        ensures
            builder.tree() == self.tree(),
            builder@.allocation == self@.allocation,
            builder@.make_error == self@.make_error,
            builder@.make_id == Infallible(make_id),
            builder@.make_data == self@.make_data,
    {
        self.set_id_maker(Infallible(make_id))
    }

    /// Sets the given function as the "id maker", a function that CAN fail
    /// and is SYNChronous.
    pub fn fallible_id_maker<FK0, E>(self, make_id: FK0) -> (builder: IdBuilder<
        'tree,
        K,
        V,
        A,
        FE,
        Fallible<FK0>,
        FV,
    >)
        where
            FK0: FnMut(Id) -> Result<K, E>,
        ensures
            builder.tree() == self.tree(),
            builder@.allocation == self@.allocation,
            builder@.make_error == self@.make_error,
            builder@.make_id == Fallible(make_id),
            builder@.make_data == self@.make_data,
    {
        self.set_id_maker(Fallible(make_id))
    }

    /// Sets the given function as the "id maker", a function that CANNOT
    /// fail and is ASYNChronous.
    pub fn async_id_maker<FK0, AK>(self, make_id: FK0) -> (builder: IdBuilder<
        'tree,
        K,
        V,
        A,
        FE,
        AsyncInfallible<FK0>,
        FV,
    >)
        where
            FK0: FnMut(Id) -> AK,
            AK: Future<Output = K>,
        ensures
            builder.tree() == self.tree(),
            builder@.allocation == self@.allocation,
            builder@.make_error == self@.make_error,
            builder@.make_id == AsyncInfallible(make_id),
            builder@.make_data == self@.make_data,
    {
        self.set_id_maker(AsyncInfallible(make_id))
    }

    /// Sets the given function as the "id maker", a function that CAN fail
    /// and is ASYNChronous.
    pub fn fallible_async_id_maker<FK0, AK, E>(self, make_id: FK0) -> (builder: IdBuilder<
        'tree,
        K,
        V,
        A,
        FE,
        AsyncFallible<FK0>,
        FV,
    >)
        where
            FK0: FnMut(Id) -> AK,
            AK: Future<Output = Result<K, E>>,
        ensures
            builder.tree() == self.tree(),
            builder@.allocation == self@.allocation,
            builder@.make_error == self@.make_error,
            builder@.make_id == AsyncFallible(make_id),
            builder@.make_data == self@.make_data,
    {
        self.set_id_maker(AsyncFallible(make_id))
    }

    /// Sets the given function as the "data maker", a function that CANNOT
    /// fail and is SYNChronous.
    pub fn data_maker<FV0>(self, make_data: FV0) -> (builder: IdBuilder<
        'tree,
        K,
        V,
        A,
        FE,
        FK,
        Infallible<FV0>,
    >)
        where
            FV0: FnOnce(&K) -> V,
        ensures
            builder.tree() == self.tree(),
            builder@.allocation == self@.allocation,
            builder@.make_error == self@.make_error,
            builder@.make_id == self@.make_id,
            builder@.make_data == Infallible(make_data),
    {
        self.set_data_maker(Infallible(make_data))
    }

    /// Sets the given function as the "data maker", a function that CAN
    /// fail and is SYNChronous.
    pub fn fallible_data_maker<FV0, E>(self, make_data: FV0) -> (builder: IdBuilder<
        'tree,
        K,
        V,
        A,
        FE,
        FK,
        Fallible<FV0>,
    >)
        where
            FV0: FnOnce(&K) -> Result<V, E>,
        ensures
            builder.tree() == self.tree(),
            builder@.allocation == self@.allocation,
            builder@.make_error == self@.make_error,
            builder@.make_id == self@.make_id,
            builder@.make_data == Fallible(make_data),
    {
        self.set_data_maker(Fallible(make_data))
    }

    /// Sets the given function as the "data maker", a function that CANNOT
    /// fail and is ASYNChronous.
    pub fn async_data_maker<FV0, AV>(self, make_data: FV0) -> (builder: IdBuilder<
        'tree,
        K,
        V,
        A,
        FE,
        FK,
        AsyncInfallible<FV0>,
    >)
        where
            FV0: FnOnce(&K) -> AV,
            AV: Future<Output = V>,
        ensures
            builder.tree() == self.tree(),
            builder@.allocation == self@.allocation,
            builder@.make_error == self@.make_error,
            builder@.make_id == self@.make_id,
            builder@.make_data == AsyncInfallible(make_data),
    {
        self.set_data_maker(AsyncInfallible(make_data))
    }

    /// Sets the given function as the "data maker", a function that CAN
    /// fail and is ASYNChronous.
    pub fn fallible_async_data_maker<FV0, AV, E>(self, make_data: FV0) -> (builder: IdBuilder<
        'tree,
        K,
        V,
        A,
        FE,
        FK,
        AsyncFallible<FV0>,
    >)
        where
            FV0: FnOnce(&K) -> AV,
            AV: Future<Output = Result<V, E>>,
        ensures
            builder.tree() == self.tree(),
            builder@.allocation == self@.allocation,
            builder@.make_error == self@.make_error,
            builder@.make_id == self@.make_id,
            builder@.make_data == AsyncFallible(make_data),
    {
        self.set_data_maker(AsyncFallible(make_data))
    }

    /// Generates the ID whenever the builder is ready. The builder is ready
    /// once it has an "error conversor", an "id maker" and a "data maker";
    /// the allocation strategy has a default value.
    ///
    /// This begins the run: it takes the two buffers of the run from the
    /// allocation strategy and hands the run to its driver, with the tree to
    /// make the raw calls on and the hooks to ask.
    pub fn generate<E>(self) -> (started: (
        Generation<K, V, E>,
        &'tree Tree<K, V>,
        Slots<A, FE, FK, FV>,
    ))
        where
            A: Allocation,
            FE: FnOnce(Error) -> E,
            FK: IdHook<K, E>,
            FV: DataHook<K, V, E>,
        ensures
            started.0.phase() == Phase::<K, V, E>::AwaitId,
            started.1 == self.tree(),
            started.2.allocation.held() == held_after_make::<A>(
                held_after_make::<A>(self@.allocation.held()),
            ),
            started.2.make_error == self@.make_error,
            started.2.make_id == self@.make_id,
            started.2.make_data == self@.make_data,
    {
        let mut allocation = self.allocation;
        let run = Generation::begin(&mut allocation);
        (
            run,
            self.tree,
            Slots {
                allocation,
                make_error: self.make_error,
                make_id: self.make_id,
                make_data: self.make_data,
            },
        )
    }

    /// Takes the builder apart: the tree to insert into, and what a run is
    /// configured with.
    pub fn into_parts(self) -> (parts: (&'tree Tree<K, V>, Slots<A, FE, FK, FV>))
        ensures
            parts.0 == self.tree(),
            parts.1 == self@,
    {
        (
            self.tree,
            Slots {
                allocation: self.allocation,
                make_error: self.make_error,
                make_id: self.make_id,
                make_data: self.make_data,
            },
        )
    }

    /// Puts an ID-maker in its slot, whatever its shape.
    fn set_id_maker<FK0>(self, make_id: FK0) -> (builder: IdBuilder<'tree, K, V, A, FE, FK0, FV>)
        ensures
            builder.tree() == self.tree(),
            builder@.allocation == self@.allocation,
            builder@.make_error == self@.make_error,
            builder@.make_id == make_id,
            builder@.make_data == self@.make_data,
    {
        IdBuilder {
            tree: self.tree,
            allocation: self.allocation,
            make_error: self.make_error,
            make_id,
            make_data: self.make_data,
        }
    }

    /// Puts a data-maker in its slot, whatever its shape.
    fn set_data_maker<FV0>(self, make_data: FV0) -> (builder: IdBuilder<
        'tree,
        K,
        V,
        A,
        FE,
        FK,
        FV0,
    >)
        ensures
            builder.tree() == self.tree(),
            builder@.allocation == self@.allocation,
            builder@.make_error == self@.make_error,
            builder@.make_id == self@.make_id,
            builder@.make_data == make_data,
    {
        IdBuilder {
            tree: self.tree,
            allocation: self.allocation,
            make_error: self.make_error,
            make_id: self.make_id,
            make_data,
        }
    }
}

} // verus!
