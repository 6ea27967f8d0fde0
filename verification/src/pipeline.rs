//! The order of the work. A [`Pipeline`] names the next action; the caller
//! carries it out and reports the outcome; the pipeline then moves on or
//! stops for good. Nothing is ever retried and nothing is undone.

use vstd::prelude::*;
use vstd::string::*;
use crate::action::{Action, ActionView};
use crate::error::DistributeError;
use crate::layout::{
    archive_name, archive_url, bootstrap, bootstrap_file, bootstrap_url, install, pack,
    search_path_body, search_path_file, spec_archive_name, spec_archive_url, spec_bootstrap,
    spec_bootstrap_file, spec_bootstrap_url, spec_install, spec_pack, spec_search_path_body,
    spec_search_path_file, spec_unpack, unpack,
};
use crate::request::DistributionRequest;
use crate::text::{backslashed, pieces, to_backslashes};
use crate::version::{is_version, make_semantic_versioning, SemanticVersioning};

verus! {

/// Where a run stands: the piece of work that is due next, or how it ended.
#[derive(Clone, Copy, Debug, PartialEq, Eq, Structural)]
pub enum Step {
    /// The version is read; the destination has to be free.
    ProbeDestination,
    /// The runtime archive has to be downloaded.
    FetchRuntime,
    /// The destination directory has to be created.
    CreateDestination,
    /// The runtime archive has to be unpacked into the destination.
    Unpack,
    /// The runtime archive has to be deleted.
    DiscardArchive,
    /// The module search file has to be written.
    WriteSearchPath,
    /// The package manager's install script has to be downloaded.
    FetchBootstrapper,
    /// The install script has to be run.
    RunBootstrapper,
    /// The dependencies have to be installed.
    InstallDependencies,
    /// The bundle has to be packed into one archive.
    Compress,
    /// The unpacked bundle has to be deleted.
    RemoveBundle,
    /// The bundle is complete.
    Finished,
    /// The run was given up.
    Failed(DistributeError),
}

/// What went wrong with an action.
#[derive(Clone, Copy, Debug, PartialEq, Eq, Structural)]
pub enum Fault {
    /// A directory stands where none was to be.
    Occupied,
    /// The host was not reached, answered with an error status, or the
    /// transfer broke off.
    Network,
    /// A file or directory could not be created, written or removed.
    Storage,
    /// A program could not be started.
    Launch,
}

/// How an action went.
#[derive(Clone, Copy, Debug, PartialEq, Eq, Structural)]
pub enum Outcome {
    /// The action was carried out.
    Succeeded,
    /// A program was started, ran to its end, and reported failure through
    /// its exit status. This stops no run: the run goes on as after a
    /// success. In particular the unpacked bundle is removed after packing
    /// even where the packing program reported failure.
    ExitedWithFailure,
    /// The action could not be carried out.
    Failed(Fault),
}

impl Outcome {
    /// Whether the run goes on after this outcome.
    pub open spec fn lets_go_on(self) -> bool {
        !(self is Failed)
    }
}

impl Step {
    /// Whether the run is over.
    pub open spec fn is_terminal(self) -> bool {
        self is Finished || self is Failed
    }

    /// How far the run has come. Every transition moves to a higher rank.
    pub open spec fn rank(self) -> nat {
        match self {
            Step::ProbeDestination => 0,
            Step::FetchRuntime => 1,
            Step::CreateDestination => 2,
            Step::Unpack => 3,
            Step::DiscardArchive => 4,
            Step::WriteSearchPath => 5,
            Step::FetchBootstrapper => 6,
            Step::RunBootstrapper => 7,
            Step::InstallDependencies => 8,
            Step::Compress => 9,
            Step::RemoveBundle => 10,
            Step::Finished => 11,
            Step::Failed(_) => 12,
        }
    }

    /// The step after the installation of dependencies, or after the
    /// package manager's installation where nothing is to be installed.
    pub open spec fn after_install(compress: bool) -> Step {
        if compress {
            Step::Compress
        } else {
            Step::Finished
        }
    }

    /// The step that follows this one when its action succeeded. The
    /// installation of dependencies is left out where there are none, packing
    /// and the removal of the unpacked bundle where no archive is asked for.
    pub open spec fn successor(self, installs: bool, compress: bool) -> Step {
        match self {
            Step::ProbeDestination => Step::FetchRuntime,
            Step::FetchRuntime => Step::CreateDestination,
            Step::CreateDestination => Step::Unpack,
            Step::Unpack => Step::DiscardArchive,
            Step::DiscardArchive => Step::WriteSearchPath,
            Step::WriteSearchPath => Step::FetchBootstrapper,
            Step::FetchBootstrapper => Step::RunBootstrapper,
            Step::RunBootstrapper => if installs {
                Step::InstallDependencies
            } else {
                Step::after_install(compress)
            },
            Step::InstallDependencies => Step::after_install(compress),
            Step::Compress => Step::RemoveBundle,
            Step::RemoveBundle => Step::Finished,
            Step::Finished => Step::Finished,
            Step::Failed(error) => Step::Failed(error),
        }
    }

    /// The error that a fault at this step ends the run with. A program that
    /// cannot be started is an extraction failure where it was to unpack the
    /// runtime, and a spawn failure everywhere else.
    pub open spec fn failure(self, fault: Fault) -> DistributeError {
        match fault {
            Fault::Occupied => DistributeError::DestinationAlreadyExists,
            Fault::Network => DistributeError::NetworkFailure,
            Fault::Storage => DistributeError::WriteFailure,
            Fault::Launch => if self == Step::Unpack {
                DistributeError::ExtractionFailure
            } else {
                DistributeError::ProcessSpawnFailure
            },
        }
    }

    /// The step that follows this one, given how its action went. A run that
    /// is over stays as it is.
    pub open spec fn next(self, outcome: Outcome, installs: bool, compress: bool) -> Step {
        if self.is_terminal() {
            self
        } else {
            match outcome {
                Outcome::Succeeded => self.successor(installs, compress),
                Outcome::ExitedWithFailure => self.successor(installs, compress),
                Outcome::Failed(fault) => Step::Failed(self.failure(fault)),
            }
        }
    }

    /// Whether the run is over.
    pub fn is_over(&self) -> (over: bool)
        ensures
            over == self.is_terminal(),
    {
        match self {
            Step::Finished => true,
            Step::Failed(_) => true,
            _ => false,
        }
    }

    /// The step that follows this one, given how its action went.
    pub fn advance(self, outcome: Outcome, installs: bool, compress: bool) -> (next: Step)
        ensures
            next == self.next(outcome, installs, compress),
            !self.is_terminal() ==> next.rank() > self.rank(),
    {
        if self.is_over() {
            return self;
        }
        let fault = match outcome {
            Outcome::Failed(fault) => fault,
            Outcome::Succeeded | Outcome::ExitedWithFailure => {
                let after_install = if compress {
                    Step::Compress
                } else {
                    Step::Finished
                };
                return match self {
                    Step::ProbeDestination => Step::FetchRuntime,
                    Step::FetchRuntime => Step::CreateDestination,
                    Step::CreateDestination => Step::Unpack,
                    Step::Unpack => Step::DiscardArchive,
                    Step::DiscardArchive => Step::WriteSearchPath,
                    Step::WriteSearchPath => Step::FetchBootstrapper,
                    Step::FetchBootstrapper => Step::RunBootstrapper,
                    Step::RunBootstrapper => if installs {
                        Step::InstallDependencies
                    } else {
                        after_install
                    },
                    Step::InstallDependencies => after_install,
                    Step::Compress => Step::RemoveBundle,
                    Step::RemoveBundle => Step::Finished,
                    Step::Finished => Step::Finished,
                    Step::Failed(error) => Step::Failed(error),
                };
            },
        };
        let error = match fault {
            Fault::Occupied => DistributeError::DestinationAlreadyExists,
            Fault::Network => DistributeError::NetworkFailure,
            Fault::Storage => DistributeError::WriteFailure,
            Fault::Launch => match self {
                Step::Unpack => DistributeError::ExtractionFailure,
                _ => DistributeError::ProcessSpawnFailure,
            },
        };
        Step::Failed(error)
    }
}

/// The action that is due at `step` of the run for `request`.
pub open spec fn action_at(request: DistributionRequest, step: Step) -> ActionView {
    let version = request.version@;
    let cpu = request.architecture.name();
    let destination = request.destination@;
    let major = pieces(version, '.')[0];
    let minor = pieces(version, '.')[1];
    match step {
        Step::ProbeDestination => ActionView::RequireAbsent { path: destination },
        Step::FetchRuntime => ActionView::Fetch {
            url: spec_archive_url(version, cpu),
            path: spec_archive_name(version, cpu),
        },
        Step::CreateDestination => ActionView::CreateDirectory { path: destination },
        Step::Unpack => spec_unpack(spec_archive_name(version, cpu), destination),
        Step::DiscardArchive => ActionView::RemoveFile { path: spec_archive_name(version, cpu) },
        Step::WriteSearchPath => ActionView::WriteFile {
            path: spec_search_path_file(destination, major, minor),
            content: spec_search_path_body(major, minor),
        },
        Step::FetchBootstrapper => ActionView::Fetch {
            url: spec_bootstrap_url(),
            path: spec_bootstrap_file(destination),
        },
        Step::RunBootstrapper => spec_bootstrap(destination),
        Step::InstallDependencies => spec_install(destination, request.dependencies),
        Step::Compress => spec_pack(destination),
        Step::RemoveBundle => ActionView::RemoveDirectory { path: backslashed(destination) },
        Step::Finished => ActionView::Stop,
        Step::Failed(_) => ActionView::Stop,
    }
}

/// One run of the assembly, from the reading of the version to the finished
/// bundle or to the first failure.
pub struct Pipeline {
    request: DistributionRequest,
    version: SemanticVersioning,
    step: Step,
}

impl Pipeline {
    /// The version that the pipeline keeps is the one that the request names.
    #[verifier::type_invariant]
    spec fn consistent(&self) -> bool {
        &&& is_version(self.request.version@)
        &&& self.version.major@ == pieces(self.request.version@, '.')[0]
        &&& self.version.minor@ == pieces(self.request.version@, '.')[1]
        &&& self.version.patch@ == pieces(self.request.version@, '.')[2]
    }

    /// The request that the run works on.
    pub closed spec fn spec_request(&self) -> &DistributionRequest {
        &self.request
    }

    /// Where the run stands.
    pub closed spec fn spec_step(&self) -> Step {
        self.step
    }

    /// Reads the version and starts a run for `request`. A version that is
    /// not three non-empty tokens separated by dots starts no run.
    pub fn begin(request: DistributionRequest) -> (started: Result<Pipeline, DistributeError>)
        ensures
            started is Ok <==> is_version(request.version@),
            started is Err ==> started->Err_0 == DistributeError::InvalidVersionFormat,
            started is Ok ==> *started->Ok_0.request() == request,
            started is Ok ==> started->Ok_0.step() == Step::ProbeDestination,
    {
        match make_semantic_versioning(&request.version) {
            Ok(version) => Ok(Pipeline { request, version, step: Step::ProbeDestination }),
            Err(error) => Err(error),
        }
    }

    /// The request that the run works on.
    #[verifier::when_used_as_spec(spec_request)]
    pub fn request(&self) -> (request: &DistributionRequest)
        ensures
            request == self.spec_request(),
            is_version(request.version@),
    {
        proof {
            use_type_invariant(self);
        }
        &self.request
    }

    /// Where the run stands.
    #[verifier::when_used_as_spec(spec_step)]
    pub fn step(&self) -> (step: Step)
        ensures
            step == self.spec_step(),
    {
        self.step
    }

    /// Whether the run is over, completed or failed.
    pub fn is_over(&self) -> (over: bool)
        ensures
            over == self.step().is_terminal(),
    {
        self.step.is_over()
    }

    /// How the run ended: `Some(Ok(()))` when the bundle is complete,
    /// `Some(Err(..))` when the run was given up, `None` while work is left.
    pub fn result(&self) -> (result: Option<Result<(), DistributeError>>)
        ensures
            result == match self.step() {
                Step::Finished => Some(Ok::<(), DistributeError>(())),
                Step::Failed(error) => Some(Err::<(), DistributeError>(error)),
                _ => None::<Result<(), DistributeError>>,
            },
    {
        match self.step {
            Step::Finished => Some(Ok(())),
            Step::Failed(error) => Some(Err(error)),
            _ => None,
        }
    }

    /// The action that is due now. A run that is over asks for nothing more.
    pub fn action(&self) -> (action: Action)
        ensures
            action@ == action_at(*self.request(), self.step()),
    {
        proof {
            use_type_invariant(self);
        }
        let version = self.request.version.as_str();
        let cpu = self.request.architecture.as_str();
        let destination = self.request.destination.as_str();
        let major = self.version.major.as_str();
        let minor = self.version.minor.as_str();
        match self.step {
            Step::ProbeDestination => Action::RequireAbsent {
                path: String::from_str(destination),
            },
            Step::FetchRuntime => Action::Fetch {
                url: archive_url(version, cpu),
                path: archive_name(version, cpu),
            },
            Step::CreateDestination => Action::CreateDirectory {
                path: String::from_str(destination),
            },
            Step::Unpack => {
                let archive = archive_name(version, cpu);
                unpack(archive.as_str(), destination)
            },
            Step::DiscardArchive => Action::RemoveFile { path: archive_name(version, cpu) },
            Step::WriteSearchPath => Action::WriteFile {
                path: search_path_file(destination, major, minor),
                content: search_path_body(major, minor),
            },
            Step::FetchBootstrapper => Action::Fetch {
                url: bootstrap_url(),
                path: bootstrap_file(destination),
            },
            Step::RunBootstrapper => bootstrap(destination),
            Step::InstallDependencies => install(destination, &self.request.dependencies),
            Step::Compress => pack(destination),
            Step::RemoveBundle => Action::RemoveDirectory { path: to_backslashes(destination) },
            Step::Finished => Action::Stop,
            Step::Failed(_) => Action::Stop,
        }
    }

    /// Takes in how the action that was due went, and moves on: to the next
    /// piece of work, to the end, or to the failure that the fault stands for.
    /// A run that is over stays as it is.
    pub fn advance(&mut self, outcome: Outcome)
        ensures
            *final(self).request() == *old(self).request(),
            final(self).step() == old(self).step().next(
                outcome,
                old(self).request().dependencies.is_wanted(),
                old(self).request().compress,
            ),
            !old(self).step().is_terminal() ==> final(self).step().rank() > old(self).step().rank(),
    {
        proof {
            use_type_invariant(&*self);
        }
        let installs = self.request.dependencies.wanted();
        self.step = self.step.advance(outcome, installs, self.request.compress);
    }
}

} // verus!
