//! MQTT plumbing: quality-of-service levels, outgoing messages, subscriptions,
//! and the decisions of the client's restart and publishing loops.
pub mod add_on;
pub mod event;
pub mod message;

use vstd::prelude::*;
use self::event::RestartClient;

verus! {

/// MQTT quality of service.
#[derive(Debug, Clone, Copy, PartialEq, Eq, Structural)]
pub enum Qos {
    _0,
    _1,
    _2,
}

/// The protocol value of a quality of service.
pub open spec fn qos_value(q: Qos) -> i32 {
    match q {
        Qos::_0 => 0,
        Qos::_1 => 1,
        Qos::_2 => 2,
    }
}

impl Qos {
    pub fn as_i32(&self) -> (r: i32)
        ensures
            r == qos_value(*self),
    {
        match self {
            Qos::_0 => 0,
            Qos::_1 => 1,
            Qos::_2 => 2,
        }
    }
}

/// What the restart system does with its rate-limiting timer on a frame with a
/// restart request.
#[derive(Debug, Clone, Copy, PartialEq, Eq, Structural)]
pub enum TimerStep {
    /// Advance the running timer by the frame time.
    Tick,
    /// Start a repeating timer of the restart interval.
    Start,
    /// Leave the timer absent.
    Keep,
}

/// The outcome of polling the task that builds a new client.
#[derive(Debug, Clone, Copy, PartialEq, Eq, Structural)]
pub enum ConnectPoll {
    /// The task has not answered yet.
    Empty,
    /// The task is gone without answering.
    Disconnected,
    /// The task built and connected a client.
    Connected,
    /// The task failed to connect.
    Failed,
}

/// What the deferred part of a restart does once the old client is dropped.
#[derive(Debug, Clone, Copy, PartialEq, Eq, Structural)]
pub enum RestartAction {
    /// Rate-limited: the timer did not just finish, so nothing is started.
    Hold,
    /// Spawn a task that builds and connects a new client.
    StartConnect,
    /// The connecting task is still running; keep waiting.
    StillConnecting,
    /// Install the new client with its receive and ping tasks, then drop the task.
    InstallClient,
    /// Ask for another restart ("failed to connect"), then drop the task.
    RetryLater,
    /// Report the lost task, then drop it.
    FactoryGone,
}

/// The timer step of a frame: `None` when no restart was asked for, else a tick
/// of a running timer, or a new timer once there is a client to protect.
pub fn restart_timer_step(has_event: bool, timer_present: bool, client_present: bool) -> (r: Option<TimerStep>)
    ensures
        !has_event ==> r is None,
        has_event && timer_present ==> r == Some(TimerStep::Tick),
        has_event && !timer_present && client_present ==> r == Some(TimerStep::Start),
        has_event && !timer_present && !client_present ==> r == Some(TimerStep::Keep),
{
    if !has_event {
        return None;
    }
    if timer_present {
        Some(TimerStep::Tick)
    } else if client_present {
        Some(TimerStep::Start)
    } else {
        Some(TimerStep::Keep)
    }
}

/// The deferred part of a restart. `timer_finished` is whether the timer, as it
/// stood before this frame's tick, had just finished (`None` when there was no
/// timer); `poll` is the answer of the connecting task, `None` when there is no
/// such task.
pub open spec fn restart_action_spec(timer_finished: Option<bool>, poll: Option<ConnectPoll>) -> RestartAction {
    match poll {
        None => if timer_finished == Some(false) {
            RestartAction::Hold
        } else {
            RestartAction::StartConnect
        },
        Some(ConnectPoll::Empty) => RestartAction::StillConnecting,
        Some(ConnectPoll::Disconnected) => RestartAction::FactoryGone,
        Some(ConnectPoll::Connected) => RestartAction::InstallClient,
        Some(ConnectPoll::Failed) => RestartAction::RetryLater,
    }
}

/// Decides the deferred part of a restart; the connecting task is polled only
/// when there is one.
pub fn restart_action(timer_finished: Option<bool>, poll: Option<ConnectPoll>) -> (r: RestartAction)
    ensures
        r == restart_action_spec(timer_finished, poll),
{
    match poll {
        None => match timer_finished {
            Some(false) => RestartAction::Hold,
            _ => RestartAction::StartConnect,
        },
        Some(ConnectPoll::Empty) => RestartAction::StillConnecting,
        Some(ConnectPoll::Disconnected) => RestartAction::FactoryGone,
        Some(ConnectPoll::Connected) => RestartAction::InstallClient,
        Some(ConnectPoll::Failed) => RestartAction::RetryLater,
    }
}

/// Whether the connecting task is dropped after a restart action: once it has
/// answered or is gone.
pub open spec fn drops_task_spec(action: RestartAction) -> bool {
    action == RestartAction::InstallClient || action == RestartAction::RetryLater
        || action == RestartAction::FactoryGone
}

pub fn drops_task(action: RestartAction) -> (r: bool)
    ensures
        r == drops_task_spec(action),
{
    match action {
        RestartAction::InstallClient | RestartAction::RetryLater | RestartAction::FactoryGone => true,
        _ => false,
    }
}

/// A restart without rate limit: a restart request is ignored while a connected
/// client exists; otherwise the old client is dropped and, with no connecting
/// task, one is started, or the task's answer is taken. `connected` is `None`
/// when there is no client; `poll` is `None` when there is no connecting task.
/// A task that is gone without answering is not a case this restart handles.
pub open spec fn direct_restart_spec(has_event: bool, connected: Option<bool>, poll: Option<ConnectPoll>) -> Option<
    RestartAction,
> {
    if !has_event || connected == Some(true) {
        None
    } else {
        Some(
            match poll {
                None => RestartAction::StartConnect,
                Some(ConnectPoll::Empty) => RestartAction::StillConnecting,
                Some(ConnectPoll::Connected) => RestartAction::InstallClient,
                Some(_) => RestartAction::RetryLater,
            },
        )
    }
}

/// Decides a restart without rate limit.
pub fn direct_restart_step(has_event: bool, connected: Option<bool>, poll: Option<ConnectPoll>) -> (r: Option<
    RestartAction,
>)
    requires
        has_event && connected != Some(true) ==> poll != Some(ConnectPoll::Disconnected),
    ensures
        r == direct_restart_spec(has_event, connected, poll),
{
    if !has_event {
        return None;
    }
    if let Some(true) = connected {
        return None;
    }
    match poll {
        None => Some(RestartAction::StartConnect),
        Some(ConnectPoll::Empty) => Some(RestartAction::StillConnecting),
        Some(ConnectPoll::Connected) => Some(RestartAction::InstallClient),
        Some(_) => Some(RestartAction::RetryLater),
    }
}

/// At most one connecting task runs: a new one is started only when there is
/// none, and a task is dropped only once it exists and has answered or is
/// gone; a task that is still connecting is kept.
pub proof fn lemma_one_connect_task(timer_finished: Option<bool>, poll: Option<ConnectPoll>)
    ensures
        restart_action_spec(timer_finished, poll) == RestartAction::StartConnect ==> poll is None,
        drops_task_spec(restart_action_spec(timer_finished, poll)) ==> poll is Some,
        poll == Some(ConnectPoll::Empty) ==> !drops_task_spec(restart_action_spec(timer_finished, poll)),
{
}

/// Restarts are rate-limited: with no connecting task, a new one is started
/// only when there was no timer or the timer has just finished.
pub proof fn lemma_restart_waits_for_timer(timer_finished: Option<bool>)
    ensures
        restart_action_spec(timer_finished, None) == RestartAction::StartConnect <==> timer_finished != Some(false),
{
}

/// Once a connecting task exists, its answer decides, and the timer does not:
/// a connected client is installed, a failed attempt is retried, a task that is
/// still working is waited for, and a lost task is reported, whatever the timer
/// says.
pub proof fn lemma_task_answer_decides(t1: Option<bool>, t2: Option<bool>, p: ConnectPoll)
    ensures
        restart_action_spec(t1, Some(p)) == restart_action_spec(t2, Some(p)),
        p == ConnectPoll::Connected ==> restart_action_spec(t1, Some(p)) == RestartAction::InstallClient,
        p == ConnectPoll::Failed ==> restart_action_spec(t1, Some(p)) == RestartAction::RetryLater,
        p == ConnectPoll::Empty ==> restart_action_spec(t1, Some(p)) == RestartAction::StillConnecting,
        p == ConnectPoll::Disconnected ==> restart_action_spec(t1, Some(p)) == RestartAction::FactoryGone,
        restart_action_spec(t1, Some(p)) != RestartAction::Hold,
{
}

/// A connecting task is dropped exactly when it has answered or is gone: after
/// its client is installed, after a failed attempt, and when it was lost; it
/// is kept while it is still connecting.
pub proof fn lemma_answered_task_dropped(t: Option<bool>, p: ConnectPoll)
    ensures
        drops_task_spec(restart_action_spec(t, Some(p))) <==> p != ConnectPoll::Empty,
        drops_task_spec(RestartAction::InstallClient),
        drops_task_spec(RestartAction::RetryLater),
        drops_task_spec(RestartAction::FactoryGone),
        !drops_task_spec(RestartAction::StartConnect),
        !drops_task_spec(RestartAction::StillConnecting),
        !drops_task_spec(RestartAction::Hold),
{
}

/// The restart request sent when a connection attempt fails.
pub fn failed_to_connect() -> (r: RestartClient)
    ensures
        r.0@ == "failed to connect"@,
{
    RestartClient("failed to connect")
}

/// What the offline cache system does on a frame.
#[derive(Debug, Clone, Copy)]
pub enum CacheStep {
    /// Ask for a restart, for the given reason, and publish nothing.
    Restart(RestartClient),
    /// Read up to this many cached messages and queue them for publishing.
    Read(u32),
}

/// Cached messages are only read back while a client is connected; otherwise a
/// restart is asked for.
pub fn offline_cache_step(client_present: bool, connected: bool) -> (r: CacheStep)
    ensures
        !client_present ==> (r matches CacheStep::Restart(e) && e.0@ == "client not present"@),
        client_present && !connected ==> (r matches CacheStep::Restart(e) && e.0@ == "client not connected"@),
        client_present && connected ==> r == CacheStep::Read(10),
{
    if !client_present {
        return CacheStep::Restart(RestartClient("client not present"));
    }
    if !connected {
        return CacheStep::Restart(RestartClient("client not connected"));
    }
    CacheStep::Read(10)
}

/// What the publishing system does with the queued messages on a frame.
#[derive(Debug, Clone, Copy, PartialEq, Eq, Structural)]
pub enum PublishStep {
    /// The client exists but is not connected: keep every message queued.
    Hold,
    /// Try to publish every message, caching those that fail, and dequeue them.
    Publish,
    /// There is no client: cache every message and dequeue them.
    Cache,
}

pub fn publish_step(client_present: bool, connected: bool) -> (r: PublishStep)
    ensures
        r == (if !client_present {
            PublishStep::Cache
        } else if connected {
            PublishStep::Publish
        } else {
            PublishStep::Hold
        }),
{
    if client_present {
        if !connected {
            return PublishStep::Hold;
        }
        PublishStep::Publish
    } else {
        PublishStep::Cache
    }
}

/// Whether a message goes to the offline cache after an attempt to publish it:
/// exactly when the attempt failed.
pub fn caches_after_publish(published: bool) -> (r: bool)
    ensures
        r == !published,
{
    !published
}

} // verus!
