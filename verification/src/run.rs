//! Whole runs: what a pipeline asks for and where it ends when its actions
//! meet a given sequence of outcomes, and what holds of every such run.

use vstd::prelude::*;
use crate::action::{Action, ActionView};
use crate::error::DistributeError;
use crate::layout::spec_install;
use crate::pipeline::{action_at, Fault, Outcome, Pipeline, Step};
use crate::request::{DependencySource, DistributionRequest};

verus! {

/// The step that a run for `request` reaches from `step` when its actions go
/// as `outcomes` say, one after the other.
pub open spec fn run(request: DistributionRequest, step: Step, outcomes: Seq<Outcome>) -> Step
    decreases outcomes.len(),
{
    if outcomes.len() == 0 {
        step
    } else {
        run(
            request,
            step.next(outcomes[0], request.dependencies.is_wanted(), request.compress),
            outcomes.drop_first(),
        )
    }
}

/// The actions that such a run asks for, one for each outcome.
pub open spec fn asked(request: DistributionRequest, step: Step, outcomes: Seq<Outcome>) -> Seq<
    ActionView,
>
    decreases outcomes.len(),
{
    if outcomes.len() == 0 {
        Seq::<ActionView>::empty()
    } else {
        seq![action_at(request, step)] + asked(
            request,
            step.next(outcomes[0], request.dependencies.is_wanted(), request.compress),
            outcomes.drop_first(),
        )
    }
}

/// The actions of `actions` as plain text.
pub open spec fn views(actions: Seq<Action>) -> Seq<ActionView> {
    actions.map_values(|action: Action| action@)
}

impl Pipeline {
    /// Plays the run on without doing anything: each action that comes due
    /// is noted and taken to have gone as the next of `outcomes` says.
    /// Returns the actions, in the order in which they came due.
    pub fn replay(&mut self, outcomes: &Vec<Outcome>) -> (actions: Vec<Action>)
        ensures
            *final(self).request() == *old(self).request(),
            final(self).step() == run(*old(self).request(), old(self).step(), outcomes@),
            views(actions@) == asked(*old(self).request(), old(self).step(), outcomes@),
    {
        let mut actions: Vec<Action> = Vec::new();
        let ghost request = *self.request();
        let ghost first = self.step();
        let mut i: usize = 0;
        assert(outcomes@.subrange(0, outcomes@.len() as int) == outcomes@);
        while i < outcomes.len()
            invariant
                i <= outcomes.len(),
                *self.request() == request,
                run(request, self.step(), outcomes@.subrange(i as int, outcomes@.len() as int))
                    == run(request, first, outcomes@),
                views(actions@) + asked(
                    request,
                    self.step(),
                    outcomes@.subrange(i as int, outcomes@.len() as int),
                ) == asked(request, first, outcomes@),
            decreases outcomes.len() - i,
        {
            assert(outcomes@.subrange(i as int, outcomes@.len() as int).drop_first()
                == outcomes@.subrange(i + 1, outcomes@.len() as int));
            let action = self.action();
            actions.push(action);
            self.advance(outcomes[i]);
            i = i + 1;
        }
        actions
    }
}

/// A run never goes back: after any outcomes it stands where it stood or
/// further on.
pub proof fn lemma_run_never_goes_back(
    request: DistributionRequest,
    step: Step,
    outcomes: Seq<Outcome>,
)
    ensures
        run(request, step, outcomes).rank() >= step.rank(),
    decreases outcomes.len(),
{
    if outcomes.len() > 0 {
        lemma_run_never_goes_back(
            request,
            step.next(outcomes[0], request.dependencies.is_wanted(), request.compress),
            outcomes.drop_first(),
        );
    }
}

/// A run that is over stays as it ended and asks for nothing more, whatever
/// is reported to it.
pub proof fn lemma_run_over_stays_over(
    request: DistributionRequest,
    step: Step,
    outcomes: Seq<Outcome>,
)
    requires
        step.is_terminal(),
    ensures
        run(request, step, outcomes) == step,
        asked(request, step, outcomes).len() == outcomes.len(),
        forall|i: int|
            0 <= i < outcomes.len() ==> #[trigger] asked(request, step, outcomes)[i]
                == ActionView::Stop,
    decreases outcomes.len(),
{
    if outcomes.len() > 0 {
        lemma_run_over_stays_over(request, step, outcomes.drop_first());
    }
}

/// The first fault ends the run: it fails with the error that the fault
/// stands for at that step and stays so.
pub proof fn lemma_fault_ends_run(
    request: DistributionRequest,
    step: Step,
    fault: Fault,
    outcomes: Seq<Outcome>,
)
    requires
        !step.is_terminal(),
        outcomes.len() > 0,
        outcomes[0] == Outcome::Failed(fault),
    ensures
        run(request, step, outcomes) == Step::Failed(step.failure(fault)),
{
    lemma_run_over_stays_over(request, Step::Failed(step.failure(fault)), outcomes.drop_first());
}

/// Where a directory already stands at the destination, the run fails with
/// `DestinationAlreadyExists`. It has then asked for the look at the
/// destination and for nothing else: no download, no directory, no program.
pub proof fn lemma_occupied_destination_stops_run(
    request: DistributionRequest,
    outcomes: Seq<Outcome>,
)
    requires
        outcomes.len() > 0,
        outcomes[0] == Outcome::Failed(Fault::Occupied),
    ensures
        run(request, Step::ProbeDestination, outcomes) == Step::Failed(
            DistributeError::DestinationAlreadyExists,
        ),
        asked(request, Step::ProbeDestination, outcomes).len() == outcomes.len(),
        forall|i: int|
            0 <= i < outcomes.len() ==> !(#[trigger] asked(
                request,
                Step::ProbeDestination,
                outcomes,
            )[i]).is_effect(),
{
    let failed = Step::Failed(DistributeError::DestinationAlreadyExists);
    lemma_run_over_stays_over(request, failed, outcomes.drop_first());
}

/// Whether a directory stands at the destination once the action of `step`
/// went as `outcome` says, given whether one stood there before: creating
/// the destination puts one there, removing the bundle takes it away, and
/// nothing else touches it.
pub open spec fn stands_after(step: Step, outcome: Outcome, stood: bool) -> bool {
    if outcome.lets_go_on() && step == Step::CreateDestination {
        true
    } else if outcome.lets_go_on() && step == Step::RemoveBundle {
        false
    } else {
        stood
    }
}

/// Whether a directory stands at the destination after a whole run.
pub open spec fn stands_after_run(
    request: DistributionRequest,
    step: Step,
    outcomes: Seq<Outcome>,
    stood: bool,
) -> bool
    decreases outcomes.len(),
{
    if outcomes.len() == 0 {
        stood
    } else {
        stands_after_run(
            request,
            step.next(outcomes[0], request.dependencies.is_wanted(), request.compress),
            outcomes.drop_first(),
            stands_after(step, outcomes[0], stood),
        )
    }
}

/// Whether the look at the destination was answered as the disk is: a
/// directory is reported there if and only if one stands there.
pub open spec fn probe_answers_truly(outcome: Outcome, stands: bool) -> bool {
    outcome == Outcome::Failed(Fault::Occupied) <==> stands
}

/// A run that is not asked to pack the bundle and reaches its end leaves the
/// destination directory standing.
pub proof fn lemma_finished_run_leaves_destination(
    request: DistributionRequest,
    step: Step,
    outcomes: Seq<Outcome>,
    stood: bool,
)
    requires
        !request.compress,
        step != Step::Compress && step != Step::RemoveBundle,
        step.rank() > Step::CreateDestination.rank() && !(step is Failed) ==> stood,
        run(request, step, outcomes) == Step::Finished,
    ensures
        stands_after_run(request, step, outcomes, stood),
    decreases outcomes.len(),
{
    if outcomes.len() > 0 {
        lemma_finished_run_leaves_destination(
            request,
            step.next(outcomes[0], request.dependencies.is_wanted(), request.compress),
            outcomes.drop_first(),
            stands_after(step, outcomes[0], stood),
        );
    }
}

/// Running twice with the same request and no cleaning up in between: where
/// the first run completes a bundle that is not packed, the second run fails
/// with `DestinationAlreadyExists` at its look at the destination, provided
/// that look is answered truly.
pub proof fn lemma_second_run_fails_at_destination(
    request: DistributionRequest,
    first: Seq<Outcome>,
    second: Seq<Outcome>,
    stood: bool,
)
    requires
        !request.compress,
        run(request, Step::ProbeDestination, first) == Step::Finished,
        second.len() > 0,
        probe_answers_truly(
            second[0],
            stands_after_run(request, Step::ProbeDestination, first, stood),
        ),
    ensures
        run(request, Step::ProbeDestination, second) == Step::Failed(
            DistributeError::DestinationAlreadyExists,
        ),
        forall|i: int|
            0 <= i < second.len() ==> !(#[trigger] asked(
                request,
                Step::ProbeDestination,
                second,
            )[i]).is_effect(),
{
    lemma_finished_run_leaves_destination(request, Step::ProbeDestination, first, stood);
    lemma_occupied_destination_stops_run(request, second);
}

/// A requirements file wins over an inline list. Take two requests that are
/// alike but for this: one was given a requirements file and an inline list,
/// the other the requirements file alone. They are the same request, so every
/// run asks for the same actions, and the installation is the one from the
/// file: the list is handed to no program.
pub proof fn lemma_requirements_file_wins(
    base: DistributionRequest,
    path: String,
    list: String,
    step: Step,
    outcomes: Seq<Outcome>,
)
    ensures
        ({
            let both = DistributionRequest {
                dependencies: DependencySource::resolved(Some(path), Some(list)),
                ..base
            };
            let alone = DistributionRequest {
                dependencies: DependencySource::resolved(Some(path), None),
                ..base
            };
            &&& both == alone
            &&& action_at(both, step) == action_at(alone, step)
            &&& asked(both, step, outcomes) == asked(alone, step, outcomes)
            &&& action_at(both, Step::InstallDependencies) == spec_install(
                base.destination@,
                DependencySource::RequirementsFile(path),
            )
        }),
{
}

} // verus!
