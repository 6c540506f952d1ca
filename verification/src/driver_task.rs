//! The operations on virtual pairs as sequences of commands of the control
//! utility. A task says which command to run next; told what the command
//! printed, or how it failed, it says what follows. Running the commands is
//! left to the caller.

use vstd::prelude::*;
use vstd::string::*;
use crate::com0com_manager::{PortPair, PortPairView};
use crate::decimal::{decimal_digits, decimal_string};
use crate::error::{SerialError, SerialErrorView};
use crate::listing::{listing, parse_listing};

verus! {

/// What a task waits for.
#[derive(Debug)]
pub enum TaskPhase {
    /// The list that was asked for.
    Listing,
    /// The end of `install`; the new pair is then looked up in a fresh list.
    Installing,
    /// The list that follows `install`.
    ListingCreated,
    /// The end of the `change` of side A; `change_b` renames side B next.
    RenamingA { change_b: Vec<String> },
    /// The end of the `change` of side B.
    RenamingB,
    /// The end of a single `remove`.
    Removing,
    /// The list of the pairs that are all to be removed.
    ListingAll,
    /// The end of one `remove` among several; `remaining` are still to go.
    RemovingEach { remaining: Vec<u32> },
}

pub enum TaskPhaseView {
    Listing,
    Installing,
    ListingCreated,
    RenamingA { change_b: Seq<Seq<char>> },
    RenamingB,
    Removing,
    ListingAll,
    RemovingEach { remaining: Seq<u32> },
}

impl View for TaskPhase {
    type V = TaskPhaseView;

    open spec fn view(&self) -> TaskPhaseView {
        match self {
            TaskPhase::Listing => TaskPhaseView::Listing,
            TaskPhase::Installing => TaskPhaseView::Installing,
            TaskPhase::ListingCreated => TaskPhaseView::ListingCreated,
            TaskPhase::RenamingA { change_b } => TaskPhaseView::RenamingA {
                change_b: change_b.deep_view(),
            },
            TaskPhase::RenamingB => TaskPhaseView::RenamingB,
            TaskPhase::Removing => TaskPhaseView::Removing,
            TaskPhase::ListingAll => TaskPhaseView::ListingAll,
            TaskPhase::RemovingEach { remaining } => TaskPhaseView::RemovingEach {
                remaining: remaining@,
            },
        }
    }
}

/// What a task yields when it ends well.
#[derive(Debug)]
pub enum TaskOutput {
    /// The pairs that are listed.
    Pairs(Vec<PortPair>),
    /// The pair that was created.
    Pair(PortPair),
    /// Nothing to report.
    Done,
}

pub enum TaskOutputView {
    Pairs(Seq<PortPairView>),
    Pair(PortPairView),
    Done,
}

impl View for TaskOutput {
    type V = TaskOutputView;

    open spec fn view(&self) -> TaskOutputView {
        match self {
            TaskOutput::Pairs(pairs) => TaskOutputView::Pairs(pairs.deep_view()),
            TaskOutput::Pair(pair) => TaskOutputView::Pair(pair@),
            TaskOutput::Done => TaskOutputView::Done,
        }
    }
}

/// What is to happen next.
#[derive(Debug)]
pub enum TaskStep {
    /// Run the utility with `args`, then hand the outcome to `then`.
    Run { args: Vec<String>, then: TaskPhase },
    /// The task is over.
    Finished(Result<TaskOutput, SerialError>),
}

pub enum TaskStepView {
    Run { args: Seq<Seq<char>>, then: TaskPhaseView },
    Finished(Result<TaskOutputView, SerialErrorView>),
}

impl View for TaskStep {
    type V = TaskStepView;

    open spec fn view(&self) -> TaskStepView {
        match self {
            TaskStep::Run { args, then } => TaskStepView::Run {
                args: args.deep_view(),
                then: then@,
            },
            TaskStep::Finished(Ok(output)) => TaskStepView::Finished(Ok(output@)),
            TaskStep::Finished(Err(error)) => TaskStepView::Finished(Err(error@)),
        }
    }
}

/// The outcome of a command, as a task sees it.
pub open spec fn outcome_view(outcome: Result<String, SerialError>) -> Result<
    Seq<char>,
    SerialErrorView,
> {
    match outcome {
        Ok(printed) => Ok(printed@),
        Err(error) => Err(error@),
    }
}

/// The command that lists the ports.
pub open spec fn list_args() -> Seq<Seq<char>> {
    seq!["list"@]
}

/// The command that removes pair `id`.
pub open spec fn remove_args(id: u32) -> Seq<Seq<char>> {
    seq!["remove"@, decimal_digits(id as nat)]
}

/// Removing the pairs `ids` one after the other, in this order.
pub open spec fn remove_each(ids: Seq<u32>) -> TaskStepView {
    if ids.len() == 0 {
        TaskStepView::Finished(Ok(TaskOutputView::Done))
    } else {
        TaskStepView::Run {
            args: remove_args(ids[0]),
            then: TaskPhaseView::RemovingEach { remaining: ids.drop_first() },
        }
    }
}

/// The ids of some pairs, in their order.
pub open spec fn pair_ids(pairs: Seq<PortPairView>) -> Seq<u32> {
    Seq::new(pairs.len(), |i: int| pairs[i].pair_id)
}

/// What is reported where `install` went well and the list that follows
/// holds no pair.
pub open spec fn nothing_created() -> SerialErrorView {
    SerialErrorView::DriverCommandFailed { stderr: "no port pair is listed after install"@ }
}

/// What follows when the command that `phase` waits for ends with `outcome`.
/// A command that fails ends the task with its failure. A created pair is
/// the one with the greatest id in the list that follows `install`.
pub open spec fn advance_spec(
    phase: TaskPhaseView,
    outcome: Result<Seq<char>, SerialErrorView>,
) -> TaskStepView {
    match outcome {
        Err(error) => TaskStepView::Finished(Err(error)),
        Ok(printed) => match phase {
            TaskPhaseView::Listing => TaskStepView::Finished(
                Ok(TaskOutputView::Pairs(listing(printed))),
            ),
            TaskPhaseView::Installing => TaskStepView::Run {
                args: list_args(),
                then: TaskPhaseView::ListingCreated,
            },
            TaskPhaseView::ListingCreated => if listing(printed).len() == 0 {
                TaskStepView::Finished(Err(nothing_created()))
            } else {
                TaskStepView::Finished(Ok(TaskOutputView::Pair(listing(printed).last())))
            },
            TaskPhaseView::RenamingA { change_b } => TaskStepView::Run {
                args: change_b,
                then: TaskPhaseView::RenamingB,
            },
            TaskPhaseView::RenamingB => TaskStepView::Finished(Ok(TaskOutputView::Done)),
            TaskPhaseView::Removing => TaskStepView::Finished(Ok(TaskOutputView::Done)),
            TaskPhaseView::ListingAll => remove_each(pair_ids(listing(printed))),
            TaskPhaseView::RemovingEach { remaining } => remove_each(remaining),
        },
    }
}

pub fn make_list_args() -> (args: Vec<String>)
    ensures
        args.deep_view() == list_args(),
{
    let mut args: Vec<String> = Vec::new();
    args.push(String::from_str("list"));
    proof {
        assert(args.deep_view() =~= list_args());
    }
    args
}

pub fn make_remove_args(id: u32) -> (args: Vec<String>)
    ensures
        args.deep_view() == remove_args(id),
{
    let mut args: Vec<String> = Vec::new();
    args.push(String::from_str("remove"));
    args.push(decimal_string(id));
    proof {
        assert(args.deep_view() =~= remove_args(id));
    }
    args
}

fn remove_next(ids: Vec<u32>) -> (step: TaskStep)
    ensures
        step@ == remove_each(ids@),
{
    let mut remaining = ids;
    if remaining.len() == 0 {
        TaskStep::Finished(Ok(TaskOutput::Done))
    } else {
        let id = remaining.remove(0);
        proof {
            assert(remaining@ =~= ids@.drop_first());
        }
        TaskStep::Run { args: make_remove_args(id), then: TaskPhase::RemovingEach { remaining } }
    }
}

fn ids_of(pairs: &Vec<PortPair>) -> (ids: Vec<u32>)
    ensures
        ids@ == pair_ids(pairs.deep_view()),
{
    let mut ids: Vec<u32> = Vec::new();
    let mut i: usize = 0;
    while i < pairs.len()
        invariant
            i <= pairs.len(),
            ids@ == pair_ids(pairs.deep_view()).take(i as int),
        decreases pairs.len() - i,
    {
        ids.push(pairs[i].pair_id);
        proof {
            assert(ids@ =~= pair_ids(pairs.deep_view()).take(i + 1));
        }
        i = i + 1;
    }
    proof {
        assert(ids@ =~= pair_ids(pairs.deep_view()));
    }
    ids
}

impl TaskPhase {
    /// Says what follows, now that the command this phase waited for has
    /// ended with `outcome`: `Ok` with what it printed, or its failure.
    pub fn advance(self, outcome: Result<String, SerialError>) -> (step: TaskStep)
        ensures
            step@ == advance_spec(self@, outcome_view(outcome)),
    {
        let printed = match outcome {
            Err(error) => {
                return TaskStep::Finished(Err(error));
            },
            Ok(printed) => printed,
        };
        match self {
            TaskPhase::Listing => {
                let pairs = parse_listing(printed.as_str());
                TaskStep::Finished(Ok(TaskOutput::Pairs(pairs)))
            },
            TaskPhase::Installing => TaskStep::Run {
                args: make_list_args(),
                then: TaskPhase::ListingCreated,
            },
            TaskPhase::ListingCreated => {
                let mut pairs = parse_listing(printed.as_str());
                let ghost all = pairs.deep_view();
                match pairs.pop() {
                    None => TaskStep::Finished(
                        Err(
                            SerialError::DriverCommandFailed {
                                stderr: String::from_str("no port pair is listed after install"),
                            },
                        ),
                    ),
                    Some(pair) => {
                        proof {
                            assert(pair@ == all.last());
                        }
                        TaskStep::Finished(Ok(TaskOutput::Pair(pair)))
                    },
                }
            },
            TaskPhase::RenamingA { change_b } => TaskStep::Run {
                args: change_b,
                then: TaskPhase::RenamingB,
            },
            TaskPhase::RenamingB => TaskStep::Finished(Ok(TaskOutput::Done)),
            TaskPhase::Removing => TaskStep::Finished(Ok(TaskOutput::Done)),
            TaskPhase::ListingAll => {
                let pairs = parse_listing(printed.as_str());
                remove_next(ids_of(&pairs))
            },
            TaskPhase::RemovingEach { remaining } => remove_next(remaining),
        }
    }
}

/// Where the removal of all pairs stands once the list has printed
/// `printed` and the first `done` removals have succeeded.
pub open spec fn after_removals(printed: Seq<char>, done: nat) -> TaskStepView
    decreases done,
{
    if done == 0 {
        advance_spec(TaskPhaseView::ListingAll, Ok(printed))
    } else {
        match after_removals(printed, (done - 1) as nat) {
            TaskStepView::Run { args, then } => advance_spec(then, Ok(Seq::empty())),
            TaskStepView::Finished(result) => TaskStepView::Finished(result),
        }
    }
}

/// Removing all pairs removes the pairs of the list that was taken at the
/// beginning, each once, by ascending id, and then ends well: after `done`
/// removals the next command removes the pair that stands at `done` in
/// that list, and after the last nothing is left to do.
pub proof fn remove_all_takes_the_snapshot(printed: Seq<char>, done: nat)
    requires
        done <= listing(printed).len(),
    ensures
        after_removals(printed, done) == remove_each(pair_ids(listing(printed)).skip(done as int)),
        done < listing(printed).len() ==> (after_removals(printed, done) matches TaskStepView::Run {
            args,
            ..
        } && args == remove_args(listing(printed)[done as int].pair_id)),
        done == listing(printed).len() ==> after_removals(printed, done) == TaskStepView::Finished(
            Ok(TaskOutputView::Done),
        ),
    decreases done,
{
    let ids = pair_ids(listing(printed));
    if done == 0 {
        assert(ids.skip(0) =~= ids);
    } else {
        remove_all_takes_the_snapshot(printed, (done - 1) as nat);
        assert(ids.skip(done - 1).drop_first() =~= ids.skip(done as int));
    }
    if done < ids.len() {
        assert(ids.skip(done as int)[0] == ids[done as int]);
    }
}

} // verus!
