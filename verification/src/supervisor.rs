//! Starting a run: which sources get a worker.

use crate::data::{AudioMessage, InterlocutorProfile, MessageModel, ProfileModel};
use crate::worker::{Pending, SourceWorker, WorkerModel};
use vstd::prelude::*;
use vstd::string::StringExecFns;

verus! {

/// Why a run cannot start.
#[derive(Clone, Copy, Debug, PartialEq, Eq, Structural)]
pub enum PipelineError {
    /// No profile is active.
    NoActiveSources,
}

/// The active profiles among `profiles`, in their order.
pub open spec fn active_of(profiles: Seq<ProfileModel>) -> Seq<ProfileModel> {
    profiles.filter(|p: ProfileModel| p.is_active)
}

/// The worker that a run starts for `profile`.
pub open spec fn fresh_worker<T>(profile: ProfileModel) -> WorkerModel<T> {
    WorkerModel {
        pending: Pending::Begin,
        name: profile.name,
        source_type: profile.source_type,
        target_rate: profile.target_sample_rate as u32,
        chunk_secs: profile.chunk_duration_secs as u32,
        native_rate: 0,
        channels: 0,
        target: 0,
        buffered: Seq::<T>::empty(),
    }
}

/// The models of a list of workers.
pub open spec fn worker_models<T: Copy>(workers: Seq<SourceWorker<T>>) -> Seq<WorkerModel<T>> {
    workers.map_values(|w: SourceWorker<T>| w@)
}

/// Copies the active profiles out of `profiles`, keeping their order.
pub fn active_profiles(profiles: &Vec<InterlocutorProfile>) -> (active: Vec<InterlocutorProfile>)
    ensures
        active.deep_view() == active_of(profiles.deep_view()),
{
    let ghost all = profiles.deep_view();
    let ghost keep = |p: ProfileModel| p.is_active;
    let mut active: Vec<InterlocutorProfile> = Vec::new();
    let mut i: usize = 0;
    assert(all.subrange(0, 0) =~= Seq::<ProfileModel>::empty());
    assert(active.deep_view() =~= Seq::<ProfileModel>::empty());
    while i < profiles.len()
        invariant
            i <= profiles.len(),
            all == profiles.deep_view(),
            keep == (|p: ProfileModel| p.is_active),
            active.deep_view() == all.subrange(0, i as int).filter(keep),
        decreases profiles.len() - i,
    {
        let ghost before = active.deep_view();
        proof {
            let next = all.subrange(0, i + 1);
            assert(next.drop_last() =~= all.subrange(0, i as int));
            assert(next.last() == profiles[i as int]@);
            reveal(Seq::filter);
        }
        if profiles[i].is_active {
            let copy = profiles[i].clone();
            active.push(copy);
            assert(active.deep_view() =~= before.push(profiles[i as int]@));
        }
        i += 1;
    }
    assert(all.subrange(0, profiles.len() as int) =~= all);
    active
}

/// Makes the workers of a run: one for each active profile, in the profiles' order,
/// none of them started. With no active profile there is no run.
pub fn start<T: Copy>(profiles: &Vec<InterlocutorProfile>) -> (run: Result<
    Vec<SourceWorker<T>>,
    PipelineError,
>)
    ensures
        run is Err <==> active_of(profiles.deep_view()).len() == 0,
        run is Err ==> run->Err_0 == PipelineError::NoActiveSources,
        run is Ok ==> worker_models(run->Ok_0@) == active_of(profiles.deep_view()).map_values(
            |p: ProfileModel| fresh_worker::<T>(p),
        ),
{
    let active = active_profiles(profiles);
    if active.len() == 0 {
        return Err(PipelineError::NoActiveSources);
    }
    let ghost models = active.deep_view();
    let mut workers: Vec<SourceWorker<T>> = Vec::new();
    let mut i: usize = 0;
    while i < active.len()
        invariant
            i <= active.len(),
            models == active.deep_view(),
            workers.len() == i,
            forall|k: int| 0 <= k < i ==> (#[trigger] workers[k])@ == fresh_worker::<T>(models[k]),
        decreases active.len() - i,
    {
        let worker = SourceWorker::<T>::new(&active[i]);
        assert(models[i as int] == active[i as int]@);
        workers.push(worker);
        i += 1;
    }
    assert(worker_models(workers@) =~= models.map_values(|p: ProfileModel| fresh_worker::<T>(p)));
    Ok(workers)
}

/// Time between two looks at the cancellation flag while the workers run, in
/// milliseconds.
pub const POLL_INTERVAL_MS: u64 = 50;

/// The outside work whose outcome the supervisor of a run awaits.
#[derive(Clone, Copy, Debug, PartialEq, Eq, Structural)]
pub enum SupervisorPending {
    /// Nothing yet: the run was not started.
    Begin,
    /// The first status message is being sent.
    Greeting,
    /// The engine's model is being fetched.
    Model,
    /// The workers run until the cancellation flag is set.
    Stop,
    /// The last status message is being sent.
    Farewell,
    /// Nothing more: the run is over.
    Done,
}

/// What came of a piece of the supervisor's outside work.
#[derive(Debug, PartialEq)]
pub enum SupervisorEvent {
    /// The run was started.
    Spawned,
    /// The message was handed to the consumer.
    Sent,
    /// The consumer is gone.
    Disconnected,
    /// The model is in place.
    ModelReady,
    /// The model could not be had; the text says why.
    ModelFailed(String),
    /// The cancellation flag is set.
    StopRequested,
    /// The cancellation flag is not set.
    StillRunning,
}

/// A [`SupervisorEvent`] as mathematical values.
pub enum SupervisorEventModel {
    Spawned,
    Sent,
    Disconnected,
    ModelReady,
    ModelFailed(Seq<char>),
    StopRequested,
    StillRunning,
}

impl View for SupervisorEvent {
    type V = SupervisorEventModel;

    open spec fn view(&self) -> SupervisorEventModel {
        match self {
            SupervisorEvent::Spawned => SupervisorEventModel::Spawned,
            SupervisorEvent::Sent => SupervisorEventModel::Sent,
            SupervisorEvent::Disconnected => SupervisorEventModel::Disconnected,
            SupervisorEvent::ModelReady => SupervisorEventModel::ModelReady,
            SupervisorEvent::ModelFailed(detail) => SupervisorEventModel::ModelFailed(detail@),
            SupervisorEvent::StopRequested => SupervisorEventModel::StopRequested,
            SupervisorEvent::StillRunning => SupervisorEventModel::StillRunning,
        }
    }
}

/// The supervisor's next piece of outside work.
#[derive(Debug, PartialEq)]
pub enum SupervisorAction {
    /// Send the message; answer `Sent` or `Disconnected`.
    Emit(AudioMessage),
    /// Fetch the engine's model, once for all workers; answer `ModelReady` or
    /// `ModelFailed`.
    AcquireModel,
    /// Start every worker, then look at the cancellation flag; answer `StopRequested`
    /// or `StillRunning`.
    SpawnWorkers,
    /// Wait for [`POLL_INTERVAL_MS`], then look at the cancellation flag; answer
    /// `StopRequested` or `StillRunning`.
    Poll,
    /// Send the message if anyone listens, and end without starting a worker.
    Fail(AudioMessage),
    /// End.
    Finish,
}

/// A [`SupervisorAction`] as mathematical values.
pub enum SupervisorActionModel {
    Emit(MessageModel),
    AcquireModel,
    SpawnWorkers,
    Poll,
    Fail(MessageModel),
    Finish,
}

impl View for SupervisorAction {
    type V = SupervisorActionModel;

    open spec fn view(&self) -> SupervisorActionModel {
        match self {
            SupervisorAction::Emit(m) => SupervisorActionModel::Emit(m@),
            SupervisorAction::AcquireModel => SupervisorActionModel::AcquireModel,
            SupervisorAction::SpawnWorkers => SupervisorActionModel::SpawnWorkers,
            SupervisorAction::Poll => SupervisorActionModel::Poll,
            SupervisorAction::Fail(m) => SupervisorActionModel::Fail(m@),
            SupervisorAction::Finish => SupervisorActionModel::Finish,
        }
    }
}

/// The transitions of a run's supervisor: what it awaits next and what is to be done,
/// or nothing where it does not await such an event.
///
/// The model is fetched before any worker starts, and a run whose model cannot be had
/// starts none.
pub open spec fn supervise(pending: SupervisorPending, event: SupervisorEventModel) -> Option<
    (SupervisorPending, SupervisorActionModel),
> {
    match (pending, event) {
        (SupervisorPending::Begin, SupervisorEventModel::Spawned) => Some(
            (
                SupervisorPending::Greeting,
                SupervisorActionModel::Emit(MessageModel::Status("Verificando modelo..."@)),
            ),
        ),
        (SupervisorPending::Greeting, SupervisorEventModel::Sent) => Some(
            (SupervisorPending::Model, SupervisorActionModel::AcquireModel),
        ),
        (SupervisorPending::Greeting, SupervisorEventModel::Disconnected) => Some(
            (SupervisorPending::Done, SupervisorActionModel::Finish),
        ),
        (SupervisorPending::Model, SupervisorEventModel::ModelReady) => Some(
            (SupervisorPending::Stop, SupervisorActionModel::SpawnWorkers),
        ),
        (SupervisorPending::Model, SupervisorEventModel::ModelFailed(detail)) => Some(
            (SupervisorPending::Done, SupervisorActionModel::Fail(MessageModel::Error(detail))),
        ),
        (SupervisorPending::Stop, SupervisorEventModel::StillRunning) => Some(
            (SupervisorPending::Stop, SupervisorActionModel::Poll),
        ),
        (SupervisorPending::Stop, SupervisorEventModel::StopRequested) => Some(
            (
                SupervisorPending::Farewell,
                SupervisorActionModel::Emit(MessageModel::Status("Captura finalizada."@)),
            ),
        ),
        (SupervisorPending::Farewell, SupervisorEventModel::Sent) => Some(
            (SupervisorPending::Done, SupervisorActionModel::Finish),
        ),
        (SupervisorPending::Farewell, SupervisorEventModel::Disconnected) => Some(
            (SupervisorPending::Done, SupervisorActionModel::Finish),
        ),
        _ => None,
    }
}

/// The supervisor of one run.
pub struct Supervisor {
    pending: SupervisorPending,
}

impl Supervisor {
    /// What the supervisor awaits.
    pub closed spec fn awaited(&self) -> SupervisorPending {
        self.pending
    }

    /// The supervisor of a run that was not started.
    pub fn new() -> (supervisor: Self)
        ensures
            supervisor.awaited() == SupervisorPending::Begin,
    {
        Supervisor { pending: SupervisorPending::Begin }
    }

    /// What the supervisor awaits.
    pub fn pending(&self) -> (pending: SupervisorPending)
        ensures
            pending == self.awaited(),
    {
        self.pending
    }

    /// Takes the outcome of the last action and answers with the next one. An event
    /// that the supervisor does not await is refused: nothing is returned and
    /// nothing changes.
    pub fn step(&mut self, event: SupervisorEvent) -> (action: Option<SupervisorAction>)
        ensures
            match supervise(old(self).awaited(), event@) {
                Some((next, act)) => action is Some && action->0@ == act && final(self).awaited()
                    == next,
                None => action is None && final(self).awaited() == old(self).awaited(),
            },
    {
        match (self.pending, event) {
            (SupervisorPending::Begin, SupervisorEvent::Spawned) => {
                self.pending = SupervisorPending::Greeting;
                Some(
                    SupervisorAction::Emit(
                        AudioMessage::Status(String::from_str("Verificando modelo...")),
                    ),
                )
            },
            (SupervisorPending::Greeting, SupervisorEvent::Sent) => {
                self.pending = SupervisorPending::Model;
                Some(SupervisorAction::AcquireModel)
            },
            (SupervisorPending::Greeting, SupervisorEvent::Disconnected) => {
                self.pending = SupervisorPending::Done;
                Some(SupervisorAction::Finish)
            },
            (SupervisorPending::Model, SupervisorEvent::ModelReady) => {
                self.pending = SupervisorPending::Stop;
                Some(SupervisorAction::SpawnWorkers)
            },
            (SupervisorPending::Model, SupervisorEvent::ModelFailed(detail)) => {
                self.pending = SupervisorPending::Done;
                Some(SupervisorAction::Fail(AudioMessage::Error(detail)))
            },
            (SupervisorPending::Stop, SupervisorEvent::StillRunning) => Some(
                SupervisorAction::Poll,
            ),
            (SupervisorPending::Stop, SupervisorEvent::StopRequested) => {
                self.pending = SupervisorPending::Farewell;
                Some(
                    SupervisorAction::Emit(
                        AudioMessage::Status(String::from_str("Captura finalizada.")),
                    ),
                )
            },
            (SupervisorPending::Farewell, SupervisorEvent::Sent) => {
                self.pending = SupervisorPending::Done;
                Some(SupervisorAction::Finish)
            },
            (SupervisorPending::Farewell, SupervisorEvent::Disconnected) => {
                self.pending = SupervisorPending::Done;
                Some(SupervisorAction::Finish)
            },
            _ => None,
        }
    }
}

/// Workers are started only once the model is in place: the supervisor asks for them
/// in answer to `ModelReady` and to nothing else.
pub proof fn lemma_workers_need_model(pending: SupervisorPending, event: SupervisorEventModel)
    requires
        supervise(pending, event) is Some,
        (supervise(pending, event)->0).1 is SpawnWorkers,
    ensures
        pending == SupervisorPending::Model,
        event is ModelReady,
{
}

} // verus!
