//! The root of the bridge: which tasks run, what the end of one of them
//! means, and in which order everything is taken down.

use crate::config::Config;
use crate::error::{Error, ProcessError};
use crate::mqtt::client::CHANNEL_CAPACITY;
use crate::mqtt::client::topic_under;
use crate::mqtt::subscriber::{Subscriber, REQUEST_SUFFIX};
use vstd::prelude::*;

verus! {

/// What runs beside the broker session and the process monitor, which
/// always run.
#[derive(Debug)]
pub struct LaunchPlan {
    /// The topics the broker session subscribes to on every connection.
    pub subscribe_topics: Vec<String>,
    /// The capacity of the channel that carries incoming messages to the
    /// subscriber, where there is one.
    pub channel_capacity: Option<usize>,
    /// Whether the polling scheduler runs.
    pub polling: bool,
    /// Whether the subscriber runs.
    pub subscriber: bool,
}

/// The mathematical model of a [`LaunchPlan`].
pub struct LaunchPlanView {
    pub subscribe_topics: Seq<Seq<char>>,
    pub channel_capacity: Option<usize>,
    pub polling: bool,
    pub subscriber: bool,
}

impl View for LaunchPlan {
    type V = LaunchPlanView;

    open spec fn view(&self) -> LaunchPlanView {
        LaunchPlanView {
            subscribe_topics: self.subscribe_topics.deep_view(),
            channel_capacity: self.channel_capacity,
            polling: self.polling,
            subscriber: self.subscriber,
        }
    }
}

/// What runs under the configuration `config`: the scheduler where at
/// least one command is configured; the subscriber, its channel and the
/// subscription to the request topic, and to nothing else, where the bridge
/// for requests is enabled.
pub open spec fn launch_plan_spec(config: Config) -> LaunchPlanView {
    LaunchPlanView {
        subscribe_topics: if config.mqtt_subscribe {
            seq![topic_under(config.mqtt.topic@, REQUEST_SUFFIX@)]
        } else {
            Seq::empty()
        },
        channel_capacity: if config.mqtt_subscribe {
            Some(CHANNEL_CAPACITY)
        } else {
            None
        },
        polling: config.commands@.len() > 0,
        subscriber: config.mqtt_subscribe,
    }
}

/// Decides what runs.
pub fn launch_plan(config: &Config) -> (r: LaunchPlan)
    ensures
        r@ == launch_plan_spec(*config),
{
    let mut subscribe_topics: Vec<String> = Vec::new();
    let mut channel_capacity: Option<usize> = None;
    if config.mqtt_subscribe {
        let subscriber: Subscriber = Subscriber::new(config.mqtt.topic.as_str());
        subscribe_topics.push(subscriber.request_topic());
        channel_capacity = Some(CHANNEL_CAPACITY);
        assert(subscribe_topics.deep_view() =~= seq![
            topic_under(config.mqtt.topic@, REQUEST_SUFFIX@),
        ]);
    } else {
        assert(subscribe_topics.deep_view() =~= Seq::<Seq<char>>::empty());
    }
    LaunchPlan {
        subscribe_topics,
        channel_capacity,
        polling: config.commands.len() > 0,
        subscriber: config.mqtt_subscribe,
    }
}

/// What ended first among the things the root waits for.
#[derive(Debug)]
pub enum Completion {
    /// The daemon ended, or waiting for it failed.
    ProcessMonitor(ProcessError),
    /// The broker session's loop ended.
    EventLoop,
    /// The polling scheduler ended.
    Scheduler,
    /// The subscriber ended.
    Subscriber,
    /// The operating system asked the bridge to stop.
    ShutdownSignal,
}

/// How the bridge ends.
#[derive(Debug)]
pub struct Exit {
    /// The exit code of the process.
    pub code: i32,
    /// The error that ended the bridge, where there is one to report.
    pub error: Option<Error>,
}

/// How the bridge ends after `completion`: a signal to stop ends it with
/// code 0; the end of anything else was not expected and ends it with code
/// 1, and the end of the daemon is reported as an error.
pub open spec fn exit_of(completion: Completion) -> Exit {
    match completion {
        Completion::ProcessMonitor(e) => Exit { code: 1, error: Some(Error::Process(e)) },
        Completion::ShutdownSignal => Exit { code: 0, error: None },
        _ => Exit { code: 1, error: None },
    }
}

/// Decides how the bridge ends after `completion`.
pub fn exit_for(completion: Completion) -> (r: Exit)
    ensures
        r == exit_of(completion),
{
    match completion {
        Completion::ProcessMonitor(e) => Exit { code: 1, error: Some(Error::Process(e)) },
        Completion::ShutdownSignal => Exit { code: 0, error: None },
        _ => Exit { code: 1, error: None },
    }
}

/// One step of taking the bridge down.
#[derive(Clone, Copy, Debug, PartialEq, Eq, Structural)]
pub enum CleanupStep {
    /// Stop the daemon.
    KillChild,
    /// Say good-bye to the daemon and drop the connection.
    DisconnectSession,
    /// Drop the session with the broker.
    DropMqtt,
}

/// The steps that take the bridge down, in order: the daemon first, then
/// the session with it, then the session with the broker. No step fails the
/// exit.
pub fn cleanup_order() -> (r: [CleanupStep; 3])
    ensures
        r@ == seq![CleanupStep::KillChild, CleanupStep::DisconnectSession, CleanupStep::DropMqtt],
{
    let r = [CleanupStep::KillChild, CleanupStep::DisconnectSession, CleanupStep::DropMqtt];
    assert(r@ =~= seq![
        CleanupStep::KillChild,
        CleanupStep::DisconnectSession,
        CleanupStep::DropMqtt,
    ]);
    r
}

/// How far the bridge has come.
#[derive(Clone, Copy, Debug, PartialEq, Eq, Structural)]
pub enum Phase {
    /// Nothing was started yet.
    Idle,
    /// The daemon is being started.
    Spawning,
    /// The daemon runs and its readiness is waited for.
    Probing,
    /// Everything runs, and the end of the first task is waited for.
    Running,
    /// The bridge is on its way out.
    Stopped,
}

/// What happened to the bridge.
#[derive(Debug)]
pub enum Event {
    /// The bridge was asked to start.
    Start,
    /// The daemon was started.
    Spawned,
    /// The daemon answers.
    Ready,
    /// Something the root waits for has ended.
    Completed(Completion),
    /// A step on the way up has failed.
    Failed(Error),
}

/// What the root of the bridge does next.
#[derive(Debug)]
pub enum Step {
    /// Start the daemon, and report `Spawned` or `Failed`.
    SpawnChild,
    /// Wait until the daemon answers, and report `Ready` or `Failed`.
    WaitReady,
    /// Open the sessions and launch what the launch plan names; then wait
    /// for the first of them to end, or for a signal to stop, and report
    /// `Completed`. Where a session cannot be opened, report `Failed`.
    Launch,
    /// Take everything down in the order of [`cleanup_order`], then end
    /// the bridge like this.
    Shutdown(Exit),
    /// End the bridge at once like this.
    Exit(Exit),
}

/// What an event does to the bridge in a phase.
///
/// On the way up every step has to succeed: a failure ends the bridge at
/// once, with code 1 and the error. Once everything runs, the first thing
/// to end takes the bridge down, in order, and decides how it ends. An
/// event that comes out of turn ends the bridge with code 1.
pub open spec fn next_step(phase: Phase, event: Event) -> (Phase, Step) {
    match (phase, event) {
        (Phase::Idle, Event::Start) => (Phase::Spawning, Step::SpawnChild),
        (Phase::Spawning, Event::Spawned) => (Phase::Probing, Step::WaitReady),
        (Phase::Probing, Event::Ready) => (Phase::Running, Step::Launch),
        (Phase::Running, Event::Completed(completion)) => (
            Phase::Stopped,
            Step::Shutdown(exit_of(completion)),
        ),
        (_, Event::Failed(e)) => (Phase::Stopped, Step::Exit(Exit { code: 1, error: Some(e) })),
        _ => (Phase::Stopped, Step::Exit(Exit { code: 1, error: None })),
    }
}

/// Only a signal to stop ends the bridge with code 0, and it does so after
/// everything was taken down; whatever else ends while the bridge runs
/// takes it down too, and ends it with another code.
pub proof fn lemma_first_completion_ends(completion: Completion)
    ensures
        next_step(Phase::Running, Event::Completed(completion)).0 is Stopped,
        next_step(Phase::Running, Event::Completed(completion)).1 matches Step::Shutdown(exit)
            && (exit.code == 0 <==> completion is ShutdownSignal),
{
}

/// The root of the bridge: it brings everything up in order, waits for the
/// first thing to end, and takes everything down.
#[derive(Debug)]
pub struct Supervisor {
    phase: Phase,
    plan: LaunchPlan,
}

impl Supervisor {
    /// How far the bridge has come.
    pub closed spec fn at(&self) -> Phase {
        self.phase
    }

    /// What is launched once the daemon answers.
    pub closed spec fn launches(&self) -> LaunchPlan {
        self.plan
    }

    /// The root of a bridge with the configuration `config`, with nothing
    /// started yet.
    pub fn new(config: &Config) -> (r: Supervisor)
        ensures
            r.at() is Idle,
            r.launches()@ == launch_plan_spec(*config),
    {
        Supervisor { phase: Phase::Idle, plan: launch_plan(config) }
    }

    /// How far the bridge has come.
    pub fn phase(&self) -> (r: Phase)
        ensures
            r == self.at(),
    {
        self.phase
    }

    /// What is launched once the daemon answers.
    pub fn plan(&self) -> (r: &LaunchPlan)
        ensures
            *r == self.launches(),
    {
        &self.plan
    }

    /// Takes an event and says what is done next.
    pub fn next(&mut self, event: Event) -> (step: Step)
        ensures
            (final(self).at(), step) == next_step(old(self).at(), event),
            final(self).launches() == old(self).launches(),
    {
        let phase: Phase = self.phase;
        self.phase = Phase::Stopped;
        match event {
            Event::Failed(e) => Step::Exit(Exit { code: 1, error: Some(e) }),
            Event::Start => match phase {
                Phase::Idle => {
                    self.phase = Phase::Spawning;
                    Step::SpawnChild
                },
                _ => Step::Exit(Exit { code: 1, error: None }),
            },
            Event::Spawned => match phase {
                Phase::Spawning => {
                    self.phase = Phase::Probing;
                    Step::WaitReady
                },
                _ => Step::Exit(Exit { code: 1, error: None }),
            },
            Event::Ready => match phase {
                Phase::Probing => {
                    self.phase = Phase::Running;
                    Step::Launch
                },
                _ => Step::Exit(Exit { code: 1, error: None }),
            },
            Event::Completed(completion) => match phase {
                Phase::Running => Step::Shutdown(exit_for(completion)),
                _ => Step::Exit(Exit { code: 1, error: None }),
            },
        }
    }
}

} // verus!
