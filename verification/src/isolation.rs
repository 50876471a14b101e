//! Failure isolation: what a category's list holds after its elements have
//! been taken up one by one.
//!
//! Each element comes to an outcome, a record or a reason to skip it. The
//! list of the category then holds the records of the elements that
//! resolved, in the order of the elements, and nothing else.

use crate::reason::SkipReason;
use crate::run::{run_through, Occurrence, Phase, RunState};
use vstd::prelude::*;

verus! {

/// The records among `outcomes`, in order.
pub open spec fn successes<R>(outcomes: Seq<Result<R, SkipReason>>) -> Seq<R>
    decreases outcomes.len(),
{
    if outcomes.len() == 0 {
        Seq::empty()
    } else {
        match outcomes.last() {
            Ok(record) => successes(outcomes.drop_last()).push(record),
            Err(_) => successes(outcomes.drop_last()),
        }
    }
}

/// What is reported to the run for the outcome of one image element.
pub open spec fn image_event(outcome: Result<(Seq<char>, Seq<char>), SkipReason>) -> Occurrence {
    match outcome {
        Ok(record) => Occurrence::ImageStored(record),
        Err(reason) => Occurrence::Skipped(reason),
    }
}

/// What is reported to the run for the outcome of one frame.
pub open spec fn video_event(outcome: Result<(Seq<char>, Seq<char>), SkipReason>) -> Occurrence {
    match outcome {
        Ok(record) => Occurrence::VideoFound(record),
        Err(reason) => Occurrence::Skipped(reason),
    }
}

/// What is reported to the run for the outcome of one anchor.
pub open spec fn link_event(outcome: Result<Seq<char>, SkipReason>) -> Occurrence {
    match outcome {
        Ok(link) => Occurrence::LinkFound(link),
        Err(reason) => Occurrence::Skipped(reason),
    }
}

/// No record stands for an element that was skipped: each record is the
/// record of an element that resolved, there are no more records than
/// elements, and none at all where every element was skipped.
pub proof fn lemma_successes_resolved<R>(outcomes: Seq<Result<R, SkipReason>>)
    ensures
        successes(outcomes).len() <= outcomes.len(),
        forall|i: int|
            0 <= i < successes(outcomes).len() ==> outcomes.contains(
                Ok(#[trigger] successes(outcomes)[i]),
            ),
        (forall|i: int| 0 <= i < outcomes.len() ==> outcomes[i] is Err) ==> successes(
            outcomes,
        ).len() == 0,
    decreases outcomes.len(),
{
    if outcomes.len() > 0 {
        let front = outcomes.drop_last();
        lemma_successes_resolved(front);
        assert(outcomes.last() == outcomes[outcomes.len() - 1]);
        assert forall|i: int| 0 <= i < successes(outcomes).len() implies outcomes.contains(
            Ok(#[trigger] successes(outcomes)[i]),
        ) by {
            if i < successes(front).len() {
                assert(successes(outcomes)[i] == successes(front)[i]);
                let k = choose|k: int|
                    0 <= k < front.len() && front[k] == Ok::<R, SkipReason>(successes(front)[i]);
                assert(outcomes[k] == front[k]);
            }
        }
        if forall|i: int| 0 <= i < outcomes.len() ==> outcomes[i] is Err {
            assert forall|i: int| 0 <= i < front.len() implies front[i] is Err by {
                assert(front[i] == outcomes[i]);
            }
        }
    }
}

/// The records of two runs of elements, one after the other, are the
/// records of the first followed by those of the second: the order of the
/// elements is the order of the records.
pub proof fn lemma_successes_concat<R>(
    first: Seq<Result<R, SkipReason>>,
    second: Seq<Result<R, SkipReason>>,
)
    ensures
        successes(first + second) == successes(first) + successes(second),
    decreases second.len(),
{
    if second.len() == 0 {
        assert(first + second =~= first);
        assert(successes(first) + successes(second) =~= successes(first));
    } else {
        lemma_successes_concat(first, second.drop_last());
        assert((first + second).drop_last() =~= first + second.drop_last());
        assert((first + second).last() == second.last());
        match second.last() {
            Ok(record) => {
                assert(successes(first) + successes(second.drop_last()).push(record) =~= (
                successes(first) + successes(second.drop_last())).push(record));
            },
            Err(_) => {},
        }
    }
}

/// While the images are being processed, the outcomes of the image elements
/// add the records of those that resolved to the images, in order, and
/// change nothing else: no skipped element leaves a trace, moves the phase
/// or ends the run.
pub proof fn lemma_images_isolated(
    state: RunState,
    outcomes: Seq<Result<(Seq<char>, Seq<char>), SkipReason>>,
)
    requires
        state.phase == Phase::Navigated,
    ensures
        run_through(state, outcomes.map_values(|o| image_event(o))) == (RunState {
            images: state.images + successes(outcomes),
            ..state
        }),
    decreases outcomes.len(),
{
    let events = outcomes.map_values(|o| image_event(o));
    if outcomes.len() == 0 {
        assert(state.images + successes(outcomes) =~= state.images);
    } else {
        let front = outcomes.drop_last();
        lemma_images_isolated(state, front);
        assert(events.drop_last() =~= front.map_values(|o| image_event(o)));
        assert(events.last() == image_event(outcomes.last()));
        match outcomes.last() {
            Ok(record) => {
                assert((state.images + successes(front)).push(record) =~= state.images
                    + successes(outcomes));
            },
            Err(_) => {},
        }
    }
}

/// While the videos are being processed, the outcomes of the frames add the
/// records of those that resolved to the videos, in order, and change
/// nothing else.
pub proof fn lemma_videos_isolated(
    state: RunState,
    outcomes: Seq<Result<(Seq<char>, Seq<char>), SkipReason>>,
)
    requires
        state.phase == Phase::ImagesDone,
    ensures
        run_through(state, outcomes.map_values(|o| video_event(o))) == (RunState {
            videos: state.videos + successes(outcomes),
            ..state
        }),
    decreases outcomes.len(),
{
    let events = outcomes.map_values(|o| video_event(o));
    if outcomes.len() == 0 {
        assert(state.videos + successes(outcomes) =~= state.videos);
    } else {
        let front = outcomes.drop_last();
        lemma_videos_isolated(state, front);
        assert(events.drop_last() =~= front.map_values(|o| video_event(o)));
        assert(events.last() == video_event(outcomes.last()));
        match outcomes.last() {
            Ok(record) => {
                assert((state.videos + successes(front)).push(record) =~= state.videos
                    + successes(outcomes));
            },
            Err(_) => {},
        }
    }
}

/// While the links are being processed, the outcomes of the anchors add the
/// links of those that resolved, in order, and change nothing else.
pub proof fn lemma_links_isolated(state: RunState, outcomes: Seq<Result<Seq<char>, SkipReason>>)
    requires
        state.phase == Phase::VideosDone,
    ensures
        run_through(state, outcomes.map_values(|o| link_event(o))) == (RunState {
            links: state.links + successes(outcomes),
            ..state
        }),
    decreases outcomes.len(),
{
    let events = outcomes.map_values(|o| link_event(o));
    if outcomes.len() == 0 {
        assert(state.links + successes(outcomes) =~= state.links);
    } else {
        let front = outcomes.drop_last();
        lemma_links_isolated(state, front);
        assert(events.drop_last() =~= front.map_values(|o| link_event(o)));
        assert(events.last() == link_event(outcomes.last()));
        match outcomes.last() {
            Ok(link) => {
                assert((state.links + successes(front)).push(link) =~= state.links + successes(
                    outcomes,
                ));
            },
            Err(_) => {},
        }
    }
}

} // verus!
