//! The protocol that allocates a new ID: ask the store for a raw ID, turn
//! it into a key, try again while the key is in use, and insert the key
//! with its value once it is not.
//!
//! The protocol is a machine that never calls out. It says which action
//! comes next; whoever drives it performs the action (a raw call on the
//! store, one of the caller's hooks, letting other work run) and hands the
//! result back as an event. The two buffers of a run are taken from the
//! allocation strategy when the run begins and go back to it when it ends.

use crate::buffer::{held_after_make, held_after_save, Allocation, Buffer};
use crate::codec::Codec;
use crate::error::{Error, ErrorKind};
use crate::store::{raw_contains_key, raw_get, raw_insert, Contents};
use crate::tree::{bytes_view, typed, value_outcome, Id, Tree};
use sled::Error as StoreFailure;
use vstd::prelude::*;

verus! {

/// How a run ended.
#[derive(Debug)]
pub enum Outcome<K, V, E> {
    /// The key was new, and it was inserted with the value.
    Generated(K, V),
    /// One of the caller's hooks failed. The failure is the caller's own and
    /// stays as it is.
    Failed(E),
    /// The store or the codec failed. The failure is still to be converted
    /// to the caller's error type.
    Aborted(Error),
}

/// Where a run stands: what it waits for.
#[derive(Debug)]
pub enum Phase<K, V, E> {
    /// For a raw ID from the store.
    AwaitId,
    /// For the key that the ID-maker makes of the raw ID.
    AwaitKey(Id),
    /// For the store to tell whether the key is in use.
    AwaitPresence(K),
    /// For other work to have had its turn, after a key that was in use.
    AwaitYield,
    /// For the value that the data-maker makes for the key, which was not in
    /// use.
    AwaitData(K),
    /// For the store to insert the key with the value.
    AwaitInsert(K, V),
    /// For nothing: the run is over.
    Done(Outcome<K, V, E>),
}

/// What the driver of a run has to do next.
#[derive(Debug, Clone, Copy, PartialEq, Eq, Structural)]
pub enum Action {
    /// Ask the store for a raw ID.
    GenerateId,
    /// Ask the ID-maker for the key of this raw ID.
    MakeId(Id),
    /// Ask the store whether it holds the encoded key.
    ContainsKey,
    /// Let other work run, once.
    Yield,
    /// Ask the data-maker for the value of the candidate key.
    MakeData,
    /// Ask the store to insert the encoded key with the encoded value.
    Insert,
    /// End the run.
    Finish,
}

/// What came of an action.
#[derive(Debug)]
pub enum Event<'a, K, V, E> {
    /// The store generated a raw ID, or failed.
    RawId(Result<Id, StoreFailure>),
    /// The ID-maker made a key, or failed.
    Key(Result<K, E>),
    /// The store told whether it holds the key, or failed.
    Presence(Result<bool, StoreFailure>),
    /// Other work has had its turn.
    Yielded,
    /// The data-maker made a value, or failed.
    Data(Result<V, E>),
    /// The store inserted the pair and answered the value that was under the
    /// key before, or failed.
    Inserted(Result<Option<&'a [u8]>, StoreFailure>),
}

/// The action that a run in `phase` asks for.
pub open spec fn action_of<K, V, E>(phase: Phase<K, V, E>) -> Action {
    match phase {
        Phase::AwaitId => Action::GenerateId,
        Phase::AwaitKey(raw) => Action::MakeId(raw),
        Phase::AwaitPresence(_) => Action::ContainsKey,
        Phase::AwaitYield => Action::Yield,
        Phase::AwaitData(_) => Action::MakeData,
        Phase::AwaitInsert(_, _) => Action::Insert,
        Phase::Done(_) => Action::Finish,
    }
}

/// Whether `phase` is the end of a run on a failure of the store or of the
/// codec, of the given kind.
pub open spec fn aborted_with<K, V, E>(phase: Phase<K, V, E>, kind: ErrorKind) -> bool {
    phase matches Phase::Done(Outcome::Aborted(error)) && error@ == kind
}

/// Whether `phase` is the end of a run on a failure of the codec.
pub open spec fn aborted_by_codec<K, V, E>(phase: Phase<K, V, E>) -> bool {
    phase matches Phase::Done(Outcome::Aborted(error)) && error@ is Serde
}

/// Whether a run in phase `before` that is handed `event` goes on in phase
/// `after`.
///
/// A failure of the store or of the codec ends the run as aborted; a
/// failure of a hook ends it as failed, with the hook's own error. A key in
/// use sends the run back to the start, by way of a yield. An event that
/// the phase does not wait for changes nothing.
pub open spec fn follows<K: Codec, V: Codec, E>(
    before: Phase<K, V, E>,
    event: Event<K, V, E>,
    after: Phase<K, V, E>,
) -> bool {
    match (before, event) {
        (Phase::AwaitId, Event::RawId(Ok(raw))) => after == Phase::<K, V, E>::AwaitKey(raw),
        (Phase::AwaitId, Event::RawId(Err(failure))) => aborted_with(
            after,
            ErrorKind::Sled(failure),
        ),
        (Phase::AwaitKey(_), Event::Key(Ok(key))) => if K::encoding(key@) is Some {
            after == Phase::<K, V, E>::AwaitPresence(key)
        } else {
            aborted_by_codec(after)
        },
        (Phase::AwaitKey(_), Event::Key(Err(error))) => after == Phase::<K, V, E>::Done(
            Outcome::Failed(error),
        ),
        (Phase::AwaitPresence(key), Event::Presence(Ok(present))) => if present {
            after == Phase::<K, V, E>::AwaitYield
        } else {
            after == Phase::<K, V, E>::AwaitData(key)
        },
        (Phase::AwaitPresence(_), Event::Presence(Err(failure))) => aborted_with(
            after,
            ErrorKind::Sled(failure),
        ),
        (Phase::AwaitYield, Event::Yielded) => after == Phase::<K, V, E>::AwaitId,
        (Phase::AwaitData(key), Event::Data(Ok(value))) => if K::encoding(key@) is Some
            && V::encoding(value@) is Some {
            after == Phase::<K, V, E>::AwaitInsert(key, value)
        } else {
            aborted_by_codec(after)
        },
        (Phase::AwaitData(_), Event::Data(Err(error))) => after == Phase::<K, V, E>::Done(
            Outcome::Failed(error),
        ),
        (Phase::AwaitInsert(key, value), Event::Inserted(Ok(previous))) => {
            if typed::<V>(bytes_view(previous)) is Ok {
                after == Phase::<K, V, E>::Done(Outcome::Generated(key, value))
            } else {
                aborted_by_codec(after)
            }
        },
        (Phase::AwaitInsert(_, _), Event::Inserted(Err(failure))) => aborted_with(
            after,
            ErrorKind::Sled(failure),
        ),
        _ => after == before,
    }
}

/// Whether the buffers of a run in `phase` hold the operands of the raw
/// call that the phase asks for: the encoded key while the store is asked
/// whether it holds the key, the encoded key and value while it is asked to
/// insert them.
pub open spec fn holds_operands<K: Codec, V: Codec, E>(
    phase: Phase<K, V, E>,
    key_bytes: Seq<u8>,
    value_bytes: Seq<u8>,
) -> bool {
    match phase {
        Phase::AwaitPresence(key) => K::encoding(key@) == Some(key_bytes),
        Phase::AwaitInsert(key, value) => {
            K::encoding(key@) == Some(key_bytes) && V::encoding(value@) == Some(value_bytes)
        },
        _ => true,
    }
}

/// One run of the protocol.
#[derive(Debug)]
pub struct Generation<K: Codec, V: Codec, E> {
    key_buf: Buffer,
    val_buf: Buffer,
    phase: Phase<K, V, E>,
}

impl<K: Codec, V: Codec, E> Generation<K, V, E> {
    #[verifier::type_invariant]
    spec fn well_formed(&self) -> bool {
        holds_operands(self.phase, self.key_buf@, self.val_buf@)
    }

    /// Where the run stands.
    pub closed spec fn phase(&self) -> Phase<K, V, E> {
        self.phase
    }

    /// The buffer for the encoded key.
    pub closed spec fn key_buffer(&self) -> Buffer {
        self.key_buf
    }

    /// The buffer for the encoded value.
    pub closed spec fn value_buffer(&self) -> Buffer {
        self.val_buf
    }

    /// Begins a run with two buffers of the strategy, one for the key and
    /// one for the value.
    pub fn begin<A: Allocation>(allocation: &mut A) -> (run: Self)
        ensures
            run.phase() == Phase::<K, V, E>::AwaitId,
            (*final(allocation)).held() == held_after_make::<A>(
                held_after_make::<A>((*old(allocation)).held()),
            ),
    {
        let key_buf = allocation.make();
        let val_buf = allocation.make();
        Generation { key_buf, val_buf, phase: Phase::AwaitId }
    }

    /// What the driver has to do next.
    pub fn action(&self) -> (action: Action)
        ensures
            action == action_of(self.phase()),
    {
        match &self.phase {
            Phase::AwaitId => Action::GenerateId,
            Phase::AwaitKey(raw) => Action::MakeId(*raw),
            Phase::AwaitPresence(_) => Action::ContainsKey,
            Phase::AwaitYield => Action::Yield,
            Phase::AwaitData(_) => Action::MakeData,
            Phase::AwaitInsert(_, _) => Action::Insert,
            Phase::Done(_) => Action::Finish,
        }
    }

    /// The key that the data-maker is asked about: the key that the store
    /// just said it does not hold.
    pub fn candidate(&self) -> (key: Option<&K>)
        ensures
            match self.phase() {
                Phase::AwaitData(candidate) => key == Some(&candidate),
                _ => key is None,
            },
    {
        match &self.phase {
            Phase::AwaitData(candidate) => Some(candidate),
            _ => None,
        }
    }

    /// The encoded key: the operand of `ContainsKey` and the first operand
    /// of `Insert`.
    pub fn key_bytes(&self) -> (bytes: &[u8])
        ensures
            bytes@ == self.key_buffer()@,
            holds_operands(self.phase(), bytes@, self.value_buffer()@),
    {
        proof {
            use_type_invariant(self);
        }
        self.key_buf.bytes()
    }

    /// The encoded value: the second operand of `Insert`.
    pub fn value_bytes(&self) -> (bytes: &[u8])
        ensures
            bytes@ == self.value_buffer()@,
            holds_operands(self.phase(), self.key_buffer()@, bytes@),
    {
        proof {
            use_type_invariant(self);
        }
        self.val_buf.bytes()
    }

    /// Takes the run one step on: from the phase it was in and the event
    /// that came of its action to the next phase.
    pub fn step(self, event: Event<'_, K, V, E>) -> (next: Self)
        ensures
            follows(self.phase(), event, next.phase()),
    {
        proof {
            use_type_invariant(&self);
        }
        let Generation { mut key_buf, mut val_buf, phase } = self;
        let phase = match (phase, event) {
            (Phase::AwaitId, Event::RawId(Ok(raw))) => Phase::AwaitKey(raw),
            (Phase::AwaitId, Event::RawId(Err(failure))) => Phase::Done(
                Outcome::Aborted(Error::new(ErrorKind::Sled(failure))),
            ),
            (Phase::AwaitKey(_), Event::Key(Ok(key))) => match key_buf.encode(&key) {
                Ok(_) => Phase::AwaitPresence(key),
                Err(error) => Phase::Done(Outcome::Aborted(error)),
            },
            (Phase::AwaitKey(_), Event::Key(Err(error))) => Phase::Done(Outcome::Failed(error)),
            (Phase::AwaitPresence(key), Event::Presence(Ok(present))) => if present {
                Phase::AwaitYield
            } else {
                Phase::AwaitData(key)
            },
            (Phase::AwaitPresence(_), Event::Presence(Err(failure))) => Phase::Done(
                Outcome::Aborted(Error::new(ErrorKind::Sled(failure))),
            ),
            (Phase::AwaitYield, Event::Yielded) => Phase::AwaitId,
            (Phase::AwaitData(key), Event::Data(Ok(value))) => {
                let encoded = match key_buf.encode(&key) {
                    Ok(_) => match val_buf.encode(&value) {
                        Ok(_) => Ok(()),
                        Err(error) => Err(error),
                    },
                    Err(error) => Err(error),
                };
                match encoded {
                    Ok(()) => Phase::AwaitInsert(key, value),
                    Err(error) => Phase::Done(Outcome::Aborted(error)),
                }
            },
            (Phase::AwaitData(_), Event::Data(Err(error))) => Phase::Done(Outcome::Failed(error)),
            (Phase::AwaitInsert(key, value), Event::Inserted(reply)) => {
                match Tree::<K, V>::read_value(reply) {
                    Ok(_) => Phase::Done(Outcome::Generated(key, value)),
                    Err(error) => Phase::Done(Outcome::Aborted(error)),
                }
            },
            (phase, _) => phase,
        };
        Generation { key_buf, val_buf, phase }
    }

    /// Ends the run: hands both buffers back to the strategy, the key's
    /// first, and tells how the run ended. A run that is not over yet is
    /// given up, and its buffers go back all the same.
    pub fn end<A: Allocation>(self, allocation: &mut A) -> (outcome: Option<Outcome<K, V, E>>)
        ensures
            match self.phase() {
                Phase::Done(ended) => outcome == Some(ended),
                _ => outcome is None,
            },
            (*final(allocation)).held() == held_after_save::<A>(
                held_after_save::<A>((*old(allocation)).held(), self.key_buffer()),
                self.value_buffer(),
            ),
    {
        let Generation { key_buf, val_buf, phase } = self;
        allocation.save(key_buf);
        allocation.save(val_buf);
        match phase {
            Phase::Done(ended) => Some(ended),
            _ => None,
        }
    }
}

impl<K, V, E> Outcome<K, V, E> {
    /// The result of the run for the caller: the pair generated, the
    /// failure of a hook untouched, or the failure of the store or of the
    /// codec as the error conversor converts it.
    pub fn into_result<FE>(self, make_error: FE) -> (r: Result<(K, V), E>)
        where
            FE: FnOnce(Error) -> E,
        requires
            (self matches Outcome::Aborted(error) ==> call_requires(make_error, (error,))),
        ensures
            match self {
                Outcome::Generated(key, value) => r == Ok::<(K, V), E>((key, value)),
                Outcome::Failed(failure) => r == Err::<(K, V), E>(failure),
                Outcome::Aborted(error) => (r matches Err(converted) && call_ensures(
                    make_error,
                    (error,),
                    converted,
                )),
            },
    {
        match self {
            Outcome::Generated(key, value) => Ok((key, value)),
            Outcome::Failed(failure) => Err(failure),
            Outcome::Aborted(error) => Err(make_error(error)),
        }
    }
}

/// Whether a run is past the one call of the data-maker: it waits for the
/// insertion, or is over.
pub open spec fn past_data<K, V, E>(phase: Phase<K, V, E>) -> bool {
    phase is AwaitInsert || phase is Done
}

/// A run asks each thing only for the reason it has: the data-maker only
/// for a key that the store just said it does not hold, the insertion only
/// for that key with the value that the data-maker made, and it ends with a
/// pair only when that insertion was made. A key that the store holds is
/// never inserted: the run lets other work run and starts again.
pub proof fn lemma_inserts_only_new_keys<K: Codec, V: Codec, E>(
    before: Phase<K, V, E>,
    event: Event<K, V, E>,
    after: Phase<K, V, E>,
)
    requires
        follows(before, event, after),
        before != after,
    ensures
        (after matches Phase::AwaitData(key) ==> before == Phase::<K, V, E>::AwaitPresence(key)),
        after is AwaitData ==> event == Event::<K, V, E>::Presence(Ok(false)),
        (after matches Phase::AwaitInsert(key, value) ==> before == Phase::<K, V, E>::AwaitData(key)
            && event == Event::<K, V, E>::Data(Ok(value))),
        (after matches Phase::Done(Outcome::Generated(key, value)) ==> before == Phase::<
            K,
            V,
            E,
        >::AwaitInsert(key, value) && event is Inserted),
        before is AwaitPresence && event == Event::<K, V, E>::Presence(Ok(true))
            ==> after is AwaitYield,
{
}

/// The failure of a hook ends the run with that very failure, which no
/// conversion touches afterwards.
pub proof fn lemma_hook_failure_is_kept<K: Codec, V: Codec, E>(
    before: Phase<K, V, E>,
    failure: E,
    after: Phase<K, V, E>,
)
    ensures
        before is AwaitKey && follows(before, Event::<K, V, E>::Key(Err(failure)), after)
            ==> after == Phase::<K, V, E>::Done(Outcome::Failed(failure)),
        before is AwaitData && follows(before, Event::<K, V, E>::Data(Err(failure)), after)
            ==> after == Phase::<K, V, E>::Done(Outcome::Failed(failure)),
{
}

/// The data-maker is asked at most once in a run: its answer takes the run
/// past it, and a run that is past it stays so.
pub proof fn lemma_data_is_made_once<K: Codec, V: Codec, E>(
    before: Phase<K, V, E>,
    event: Event<K, V, E>,
    after: Phase<K, V, E>,
)
    requires
        follows(before, event, after),
    ensures
        before is AwaitData && event is Data ==> past_data(after),
        past_data(before) ==> past_data(after),
{
}

/// Whether `after` is what the store holds once a run has generated `key`
/// with `value` on a store that held `before`: the key was not there, and
/// now it is, with the value.
pub open spec fn generated<K: Codec, V: Codec>(
    before: Contents,
    key: K::V,
    value: V::V,
    after: Contents,
) -> bool {
    &&& K::encoding(key) is Some
    &&& V::encoding(value) is Some
    &&& !raw_contains_key(before, K::encoding(key).unwrap())
    &&& after == raw_insert(before, K::encoding(key).unwrap(), V::encoding(value).unwrap())
}

/// A run that the store answers by what it holds ends with a pair only by
/// generating it: from the question whether the key is there to the
/// insertion, the key was not in the store and now is, with the value.
pub proof fn lemma_run_generates<K: Codec, V: Codec, E>(
    contents: Contents,
    key: K,
    value: V,
    checked: Phase<K, V, E>,
    made: Phase<K, V, E>,
    ended: Phase<K, V, E>,
)
    requires
        K::encoding(key@) is Some,
        follows(
            Phase::<K, V, E>::AwaitPresence(key),
            Event::<K, V, E>::Presence(
                Ok(raw_contains_key(contents, K::encoding(key@).unwrap())),
            ),
            checked,
        ),
        follows(checked, Event::<K, V, E>::Data(Ok(value)), made),
        made is AwaitInsert,
    ensures
        made == Phase::<K, V, E>::AwaitInsert(key, value),
        generated::<K, V>(
            contents,
            key@,
            value@,
            raw_insert(contents, K::encoding(key@).unwrap(), V::encoding(value@).unwrap()),
        ),
        raw_get(contents, K::encoding(key@).unwrap()) is None,
{
}

/// Whether `pairs` were generated one after the other on a store that
/// nothing else wrote to, which held `stages[0]` at first and `stages[i +
/// 1]` after the pair `i`.
pub open spec fn generations<K: Codec, V: Codec>(
    stages: Seq<Contents>,
    pairs: Seq<(K::V, V::V)>,
) -> bool {
    &&& stages.len() == pairs.len() + 1
    &&& forall|i: int|
        0 <= i < pairs.len() ==> generated::<K, V>(
            stages[i],
            (#[trigger] pairs[i]).0,
            pairs[i].1,
            stages[i + 1],
        )
}

/// What the store holds at one stage of a series of generations, it holds
/// at every later stage: a generation writes only under a key that was not
/// there.
proof fn lemma_stages_keep<K: Codec, V: Codec>(
    stages: Seq<Contents>,
    pairs: Seq<(K::V, V::V)>,
    early: int,
    late: int,
)
    requires
        generations::<K, V>(stages, pairs),
        0 <= early <= late <= pairs.len(),
    ensures
        forall|key: Seq<u8>| #[trigger]
            stages[early].contains_key(key) ==> stages[late].contains_key(key)
                && stages[late][key] == stages[early][key],
    decreases late - early,
{
    if early < late {
        lemma_stages_keep::<K, V>(stages, pairs, early, late - 1);
        let pair = pairs[late - 1];
        assert(generated::<K, V>(stages[late - 1], pair.0, pair.1, stages[late - 1 + 1]));
    }
}

/// The keys of a series of generations are pairwise distinct, and at the
/// end the tree holds each of them with its value: a `get` of the key
/// would read that value.
pub proof fn lemma_generated_keys_are_distinct<K: Codec, V: Codec>(
    stages: Seq<Contents>,
    pairs: Seq<(K::V, V::V)>,
)
    requires
        generations::<K, V>(stages, pairs),
    ensures
        forall|i: int, j: int|
            0 <= i < j < pairs.len() ==> (#[trigger] pairs[i]).0 != (#[trigger] pairs[j]).0,
        forall|i: int|
            0 <= i < pairs.len() ==> typed::<V>(
                raw_get(stages.last(), K::encoding((#[trigger] pairs[i]).0).unwrap()),
            ) == Ok::<Option<V::V>, ()>(Some(pairs[i].1)),
        forall|i: int, got: Result<Option<V>, Error>|
            0 <= i < pairs.len() && #[trigger] value_outcome::<V>(
                Ok(raw_get(stages.last(), K::encoding((#[trigger] pairs[i]).0).unwrap())),
                got,
            ) ==> (got matches Ok(Some(read)) && read@ == pairs[i].1),
{
    assert forall|i: int, j: int| 0 <= i < j < pairs.len() implies (#[trigger] pairs[i]).0 != (
    #[trigger] pairs[j]).0 by {
        let first = pairs[i];
        let second = pairs[j];
        assert(generated::<K, V>(stages[i], first.0, first.1, stages[i + 1]));
        assert(generated::<K, V>(stages[j], second.0, second.1, stages[j + 1]));
        lemma_stages_keep::<K, V>(stages, pairs, i + 1, j);
        assert(stages[i + 1].contains_key(K::encoding(first.0).unwrap()));
    }
    assert forall|i: int| 0 <= i < pairs.len() implies typed::<V>(
        raw_get(stages.last(), K::encoding((#[trigger] pairs[i]).0).unwrap()),
    ) == Ok::<Option<V::V>, ()>(Some(pairs[i].1)) by {
        let pair = pairs[i];
        assert(generated::<K, V>(stages[i], pair.0, pair.1, stages[i + 1]));
        lemma_stages_keep::<K, V>(stages, pairs, i + 1, pairs.len() as int);
        assert(stages[i + 1].contains_key(K::encoding(pair.0).unwrap()));
        V::lemma_round_trip(pair.1);
    }
}

} // verus!
