//! The reconciler: the single consumer of the update stream.
//!
//! It takes one address after the other out of the stream and has each of
//! them materialized, in the order in which they come. It remembers nothing:
//! an address that equals the one before is materialized again.

use crate::address::{Address, AddressView};
use vstd::prelude::*;

verus! {

/// What an attempt to receive from the update stream gave.
#[derive(Debug)]
pub enum Delivery {
    /// The oldest address that waited.
    Update(Address),
    /// Receiving failed.
    Failure,
}

/// What the reconciler does next.
#[derive(Debug)]
pub enum Reaction {
    /// Have this address materialized, then receive again.
    Materialize(Address),
    /// Receive again.
    Retry,
}

/// The reconciler's answer to a delivery: every address that arrives is
/// materialized, and a failure to receive is followed by the next attempt.
pub fn react(delivery: Delivery) -> (reaction: Reaction)
    ensures
        match delivery {
            Delivery::Update(address) => reaction == Reaction::Materialize(address),
            Delivery::Failure => reaction is Retry,
        },
{
    match delivery {
        Delivery::Update(address) => Reaction::Materialize(address),
        Delivery::Failure => Reaction::Retry,
    }
}

/// One thing that happens between the detection paths, the update stream
/// and the reconciler.
pub enum Move {
    /// A detection path publishes an address, as `UpdateStream::publish`
    /// does.
    Publish(AddressView),
    /// The reconciler receives: it takes the oldest address that waits, as
    /// `UpdateStream::deliver` does, and has it materialized, as [`react`]
    /// says. Where nothing waits, it goes on waiting.
    Receive,
    /// The reconciler fails to receive, and tries again.
    ReceiveFailure,
}

/// The update stream and the reconciler, seen from outside.
pub struct Pipeline {
    /// What waits in the update stream, oldest first.
    pub waiting: Seq<AddressView>,
    /// What was handed to the materializer, in the order of the calls.
    pub materialized: Seq<AddressView>,
}

/// The pipeline after one move.
pub open spec fn pipeline_after(pipeline: Pipeline, step: Move) -> Pipeline {
    match step {
        Move::Publish(address) => Pipeline {
            waiting: pipeline.waiting.push(address),
            materialized: pipeline.materialized,
        },
        Move::Receive => if pipeline.waiting.len() > 0 {
            Pipeline {
                waiting: pipeline.waiting.drop_first(),
                materialized: pipeline.materialized.push(pipeline.waiting.first()),
            }
        } else {
            pipeline
        },
        Move::ReceiveFailure => pipeline,
    }
}

/// The pipeline after a run of moves.
pub open spec fn pipeline_after_all(pipeline: Pipeline, moves: Seq<Move>) -> Pipeline
    decreases moves.len(),
{
    if moves.len() == 0 {
        pipeline
    } else {
        pipeline_after(pipeline_after_all(pipeline, moves.drop_last()), moves.last())
    }
}

/// The addresses that a run of moves publishes, in order.
pub open spec fn published(moves: Seq<Move>) -> Seq<AddressView>
    decreases moves.len(),
{
    if moves.len() == 0 {
        Seq::empty()
    } else {
        match moves.last() {
            Move::Publish(address) => published(moves.drop_last()).push(address),
            _ => published(moves.drop_last()),
        }
    }
}

/// Nothing is lost, doubled or reordered: whatever the moves and their
/// order, what was materialized followed by what still waits is what was
/// materialized and waited before followed by what was published since, in
/// the order of publication. So the addresses of one detection path are
/// materialized in the order in which that path published them.
pub proof fn lemma_pipeline_keeps_every_update(pipeline: Pipeline, moves: Seq<Move>)
    ensures
        pipeline_after_all(pipeline, moves).materialized + pipeline_after_all(
            pipeline,
            moves,
        ).waiting == pipeline.materialized + pipeline.waiting + published(moves),
    decreases moves.len(),
{
    let end = pipeline_after_all(pipeline, moves);
    if moves.len() == 0 {
        assert(end.materialized + end.waiting == pipeline.materialized + pipeline.waiting
            + published(moves));
    } else {
        let before = pipeline_after_all(pipeline, moves.drop_last());
        lemma_pipeline_keeps_every_update(pipeline, moves.drop_last());
        let sum = before.materialized + before.waiting;
        match moves.last() {
            Move::Publish(address) => {
                assert(end.materialized + end.waiting == sum.push(address));
                assert(pipeline.materialized + pipeline.waiting + published(moves) == (
                pipeline.materialized + pipeline.waiting + published(moves.drop_last())).push(
                    address,
                ));
            },
            Move::Receive => {
                assert(end.materialized + end.waiting == sum);
            },
            Move::ReceiveFailure => {},
        }
    }
}

/// Every update is materialized in the end: once the reconciler has
/// received at least as often as addresses were published, in whatever
/// order the moves came, nothing waits any more and what was materialized is
/// exactly what was published.
pub proof fn lemma_every_update_is_materialized(moves: Seq<Move>)
    requires
        receives_cover(moves),
    ensures
        pipeline_after_all(idle(), moves).waiting.len() == 0,
        pipeline_after_all(idle(), moves).materialized == published(moves),
{
    lemma_receives_empty_the_stream(moves);
    lemma_pipeline_keeps_every_update(idle(), moves);
    let end = pipeline_after_all(idle(), moves);
    assert(end.materialized + end.waiting == end.materialized);
    assert(idle().materialized + idle().waiting + published(moves) == published(moves));
}

/// The pipeline in which nothing waits and nothing was materialized.
pub open spec fn idle() -> Pipeline {
    Pipeline { waiting: Seq::empty(), materialized: Seq::empty() }
}

/// Tells whether the run ends with receives that no publication
/// interrupts, at least as many as the run publishes addresses.
pub open spec fn receives_cover(moves: Seq<Move>) -> bool {
    exists|k: int|
        0 <= k <= moves.len() && #[trigger] only_receives(moves.skip(k)) && moves.len() - k
            >= published(moves).len()
}

/// Tells whether every move of the run is a receive.
pub open spec fn only_receives(moves: Seq<Move>) -> bool {
    forall|i: int| 0 <= i < moves.len() ==> (#[trigger] moves[i]) is Receive
}

/// The number of addresses that wait never exceeds what was there plus what
/// was published.
proof fn lemma_waiting_is_bounded(pipeline: Pipeline, moves: Seq<Move>)
    ensures
        pipeline_after_all(pipeline, moves).waiting.len() <= pipeline.waiting.len() + published(
            moves,
        ).len(),
    decreases moves.len(),
{
    if moves.len() > 0 {
        lemma_waiting_is_bounded(pipeline, moves.drop_last());
    }
}

/// A run of receives takes one address out of the stream each, until
/// nothing waits.
proof fn lemma_receives_take_one_each(pipeline: Pipeline, moves: Seq<Move>)
    requires
        only_receives(moves),
    ensures
        pipeline_after_all(pipeline, moves).waiting.len() == if pipeline.waiting.len()
            >= moves.len() {
            pipeline.waiting.len() - moves.len()
        } else {
            0
        },
    decreases moves.len(),
{
    if moves.len() > 0 {
        assert(only_receives(moves.drop_last())) by {
            assert forall|i: int| 0 <= i < moves.drop_last().len() implies (
            #[trigger] moves.drop_last()[i]) is Receive by {
                assert(moves.drop_last()[i] == moves[i]);
            }
        }
        lemma_receives_take_one_each(pipeline, moves.drop_last());
        assert(moves.last() == moves[moves.len() - 1]);
    }
}

/// A run can be cut in two: the pipeline after the whole is the pipeline
/// after the second part, started from the pipeline after the first.
proof fn lemma_pipeline_after_parts(pipeline: Pipeline, first: Seq<Move>, second: Seq<Move>)
    ensures
        pipeline_after_all(pipeline, first + second) == pipeline_after_all(
            pipeline_after_all(pipeline, first),
            second,
        ),
    decreases second.len(),
{
    if second.len() == 0 {
        assert(first + second == first);
    } else {
        assert((first + second).drop_last() == first + second.drop_last());
        assert((first + second).last() == second.last());
        lemma_pipeline_after_parts(pipeline, first, second.drop_last());
    }
}

/// A run of receives publishes nothing.
proof fn lemma_receives_publish_nothing(moves: Seq<Move>)
    requires
        only_receives(moves),
    ensures
        published(moves).len() == 0,
    decreases moves.len(),
{
    if moves.len() > 0 {
        assert forall|i: int| 0 <= i < moves.drop_last().len() implies (
        #[trigger] moves.drop_last()[i]) is Receive by {
            assert(moves.drop_last()[i] == moves[i]);
        }
        lemma_receives_publish_nothing(moves.drop_last());
        assert(moves.last() == moves[moves.len() - 1]);
    }
}

/// What two runs publish, one after the other.
proof fn lemma_published_parts(first: Seq<Move>, second: Seq<Move>)
    ensures
        published(first + second) == published(first) + published(second),
    decreases second.len(),
{
    if second.len() == 0 {
        assert(first + second == first);
        assert(published(first) + published(second) == published(first));
    } else {
        assert((first + second).drop_last() == first + second.drop_last());
        assert((first + second).last() == second.last());
        lemma_published_parts(first, second.drop_last());
        match second.last() {
            Move::Publish(address) => {
                assert(published(first) + published(second) == (published(first) + published(
                    second.drop_last(),
                )).push(address));
            },
            _ => {},
        }
    }
}

/// Receives that cover the publications leave nothing waiting.
proof fn lemma_receives_empty_the_stream(moves: Seq<Move>)
    requires
        receives_cover(moves),
    ensures
        pipeline_after_all(idle(), moves).waiting.len() == 0,
{
    let k = choose|k: int|
        0 <= k <= moves.len() && #[trigger] only_receives(moves.skip(k)) && moves.len() - k
            >= published(moves).len();
    let first = moves.take(k);
    let second = moves.skip(k);
    assert(moves == first + second);
    lemma_pipeline_after_parts(idle(), first, second);
    lemma_published_parts(first, second);
    lemma_receives_publish_nothing(second);
    lemma_waiting_is_bounded(idle(), first);
    lemma_receives_take_one_each(pipeline_after_all(idle(), first), second);
}

/// Equal updates are not merged: an address that is published twice, with
/// anything before, between and after, stands twice among what was
/// materialized or still waits, each time at its place. Once the reconciler
/// has received as often as something was published, it stands twice among
/// what was materialized.
pub proof fn lemma_equal_updates_are_not_merged(
    before: Seq<Move>,
    between: Seq<Move>,
    after: Seq<Move>,
    address: AddressView,
)
    ensures
        ({
            let moves = before.push(Move::Publish(address)) + between.push(Move::Publish(address))
                + after;
            let twice = published(before).push(address) + published(between).push(address)
                + published(after);
            let end = pipeline_after_all(idle(), moves);
            &&& end.materialized + end.waiting == twice
            &&& receives_cover(moves) ==> end.materialized == twice
        }),
{
    let first = before.push(Move::Publish(address));
    let second = between.push(Move::Publish(address));
    let moves = first + second + after;
    lemma_pipeline_keeps_every_update(idle(), moves);
    assert(idle().materialized + idle().waiting + published(moves) == published(moves));
    lemma_published_parts(first + second, after);
    lemma_published_parts(first, second);
    assert(first.drop_last() == before);
    assert(second.drop_last() == between);
    if receives_cover(moves) {
        lemma_every_update_is_materialized(moves);
    }
}

} // verus!
