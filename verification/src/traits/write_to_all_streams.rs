//! Fan-out: one payload, written to every connection of a registry.

use crate::types::stream_map::{ConnId, StreamMap};
use vstd::prelude::*;
use vstd::std_specs::convert::IntoSpec;

verus! {

/// The first error among `results`, or `Ok` where every write succeeded.
pub open spec fn first_error<E>(results: Seq<Result<(), E>>) -> Result<(), E>
    decreases results.len(),
{
    if results.len() == 0 {
        Ok(())
    } else if first_error(results.drop_last()) is Err {
        first_error(results.drop_last())
    } else {
        results.last()
    }
}

/// `results[i]` is what `write` gave for the `i`-th of `targets`, each of
/// them handed the same `bytes`.
pub open spec fn written_to<E, W: Fn(ConnId, &Vec<u8>) -> Result<(), E>>(
    write: W,
    targets: Seq<ConnId>,
    bytes: Vec<u8>,
    results: Seq<Result<(), E>>,
) -> bool {
    &&& results.len() == targets.len()
    &&& forall|i: int|
        0 <= i < targets.len() ==> call_ensures(write, (targets[i], &bytes), #[trigger] results[i])
}

pub trait WriteToAllStreams {
    /// The connections that a fan-out writes to, in the order of the writes.
    spec fn targets(&self) -> Seq<ConnId>;

    /// Turns `data` into bytes once and hands them to `write` for every
    /// connection, one call each. A failed write does not keep the others
    /// from being made; the first error is returned.
    fn write_to_all_streams<T: Into<Vec<u8>>, E, W: Fn(ConnId, &Vec<u8>) -> Result<(), E>>(
        &self,
        data: T,
        write: W,
    ) -> (res: Result<(), E>)
        requires
            forall|stream: ConnId, bytes: &Vec<u8>| call_requires(write, (stream, bytes)),
        ensures
            exists|bytes: Vec<u8>, results: Seq<Result<(), E>>|
                {
                    &&& T::obeys_into_spec() ==> bytes == data.into_spec()
                    &&& #[trigger] written_to(write, self.targets(), bytes, results)
                    &&& res == first_error(results)
                },
    ;
}

impl WriteToAllStreams for StreamMap {
    open spec fn targets(&self) -> Seq<ConnId> {
        self.streams()
    }

    fn write_to_all_streams<T: Into<Vec<u8>>, E, W: Fn(ConnId, &Vec<u8>) -> Result<(), E>>(
        &self,
        data: T,
        write: W,
    ) -> (res: Result<(), E>) {
        let bytes: Vec<u8> = data.into();
        let targets = self.values();
        let mut first: Result<(), E> = Ok(());
        let ghost mut results: Seq<Result<(), E>> = Seq::empty();
        let mut i: usize = 0;
        while i < targets.len()
            invariant
                i <= targets@.len(),
                forall|stream: ConnId, bytes: &Vec<u8>| call_requires(write, (stream, bytes)),
                written_to(write, targets@.subrange(0, i as int), bytes, results),
                first == first_error(results),
            decreases targets@.len() - i,
        {
            let result = write(targets[i], &bytes);
            proof {
                assert(results.push(result).drop_last() =~= results);
                assert(targets@.subrange(0, i + 1) =~= targets@.subrange(0, i as int).push(
                    targets@[i as int],
                ));
                results = results.push(result);
            }
            if first.is_ok() {
                first = result;
            }
            i += 1;
        }
        assert(targets@.subrange(0, i as int) =~= targets@);
        assert(T::obeys_into_spec() ==> bytes == data.into_spec());
        assert(written_to(write, self.targets(), bytes, results));
        first
    }
}

/// The error that a fan-out returns is that of the earliest write that
/// failed; it returns `Ok` exactly where no write failed.
pub proof fn lemma_first_error_is_earliest<E>(results: Seq<Result<(), E>>)
    ensures
        first_error(results) is Err ==> exists|at: int|
            {
                &&& 0 <= at < results.len()
                &&& #[trigger] results[at] == first_error(results)
                &&& forall|before: int| 0 <= before < at ==> #[trigger] results[before] is Ok
            },
        first_error(results) is Ok ==> forall|i: int|
            0 <= i < results.len() ==> #[trigger] results[i] is Ok,
    decreases results.len(),
{
    if results.len() > 0 {
        let earlier = results.drop_last();
        lemma_first_error_is_earliest(earlier);
        if first_error(earlier) is Err {
            let at = choose|at: int|
                {
                    &&& 0 <= at < earlier.len()
                    &&& #[trigger] earlier[at] == first_error(earlier)
                    &&& forall|before: int| 0 <= before < at ==> #[trigger] earlier[before] is Ok
                };
            assert(results[at] == earlier[at]);
            assert forall|before: int| 0 <= before < at implies
                #[trigger] results[before] is Ok by {
                assert(results[before] == earlier[before]);
            }
        } else {
            assert forall|i: int| 0 <= i < results.len() - 1 implies
                #[trigger] results[i] is Ok by {
                assert(results[i] == earlier[i]);
            }
            if first_error(results) is Err {
                assert(results[results.len() - 1] == first_error(results));
            }
        }
    }
}

/// A fan-out over a registry writes to every registered client, and to
/// each once: a name that is registered has exactly one place among the
/// writes, and the write at that place goes to the connection registered
/// under the name.
pub proof fn lemma_every_client_written_once(streams: StreamMap, name: Seq<char>)
    requires
        streams.wf(),
        streams@.contains_key(name),
    ensures
        streams.targets().len() == streams@.len(),
        exists|at: int|
            {
                &&& 0 <= at < streams.targets().len()
                &&& #[trigger] streams.keys()[at] == name
                &&& streams.targets()[at] == streams@[name]
                &&& forall|other: int|
                    0 <= other < streams.targets().len() && other != at
                        ==> #[trigger] streams.keys()[other] != name
            },
{
    streams.lemma_dom();
    assert(streams.keys().to_set().contains(name));
    let at = streams.keys().index_of(name);
    assert(streams.keys()[at] == name);
}

/// A fan-out reaches every registered client, unless the write to it
/// fails: among the writes that were made there is one to the connection
/// registered under the name, with the bytes of the fan-out, and the client
/// has them where that write succeeded.
pub proof fn lemma_fan_out_reaches_every_client<E, W: Fn(ConnId, &Vec<u8>) -> Result<(), E>>(
    streams: StreamMap,
    name: Seq<char>,
    write: W,
    bytes: Vec<u8>,
    results: Seq<Result<(), E>>,
)
    requires
        streams.wf(),
        streams@.contains_key(name),
        written_to(write, streams.targets(), bytes, results),
    ensures
        exists|at: int|
            {
                &&& 0 <= at < results.len()
                &&& #[trigger] streams.keys()[at] == name
                &&& call_ensures(write, (streams@[name], &bytes), results[at])
            },
{
    lemma_every_client_written_once(streams, name);
    let at = choose|at: int|
        {
            &&& 0 <= at < streams.targets().len()
            &&& #[trigger] streams.keys()[at] == name
            &&& streams.targets()[at] == streams@[name]
        };
    assert(call_ensures(write, (streams.targets()[at], &bytes), results[at]));
}

} // verus!
