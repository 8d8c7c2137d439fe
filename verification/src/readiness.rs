//! Waiting for a gateway to become ready.
//!
//! [`ReadinessWait`] decides what to do next while the port of a gateway is probed. The
//! caller does it and reports what came of it.

use vstd::prelude::*;

use crate::metadata::GatewayMetadata;
use crate::runtime_apple::{pid_in, recent_lines, recent_lines_of, AppleContainerRuntime};
use crate::text::{concat2, concat3, decimal, decimal_text, joined, lines_of};

verus! {

/// Attempts to connect before the wait is given up.
pub const READY_ATTEMPTS: u32 = 30;

/// Seconds between two attempts.
pub const READY_PAUSE_SECS: u64 = 1;

/// Lines of the log that are shown of a gateway that exited.
pub const EXIT_LOG_LINES: usize = 10;

/// What is to be done next.
#[derive(Debug, Clone, Copy, PartialEq, Eq, Structural)]
pub enum WaitStage {
    /// Ask whether the process of the gateway is still alive.
    CheckProcess,
    /// Connect to the port of the gateway.
    Connect,
    /// Pause for [`READY_PAUSE_SECS`].
    Pause,
    /// Read the log of the gateway, whose process is dead.
    ReadLog,
    /// Nothing: the gateway accepts connections.
    Ready,
    /// Nothing: the wait has failed.
    Failed,
}

/// What came of it.
#[derive(Debug, Clone)]
pub enum WaitEvent {
    /// The process that the PID file names is alive, or there is no PID file.
    ProcessNotDead,
    /// The process that the PID file names is dead.
    ProcessDead,
    /// The connection was accepted.
    Connected,
    /// The connection was refused.
    Refused,
    /// The pause is over.
    Paused,
    /// What the log holds, or `None` where it cannot be read.
    Log(Option<String>),
}

/// A wait for a gateway to become ready.
#[derive(Debug)]
pub struct ReadinessWait {
    endpoint: String,
    port: u16,
    attempt: u32,
    stage: WaitStage,
    failure: Option<String>,
}

/// The state of a wait.
#[verifier::ext_equal]
pub struct WaitState {
    /// Endpoint of the gateway.
    pub endpoint: Seq<char>,
    /// Port that is probed.
    pub port: u16,
    /// Attempts that are over.
    pub attempt: nat,
    /// What is to be done next.
    pub stage: WaitStage,
    /// Why the wait has failed.
    pub failure: Option<Seq<char>>,
}

/// Where a wait stands when it begins.
pub open spec fn wait_begun(endpoint: Seq<char>, port: u16) -> WaitState {
    WaitState { endpoint, port, attempt: 0, stage: WaitStage::Connect, failure: None }
}

/// The error of a gateway whose process exited.
pub open spec fn exit_message(log: Option<Seq<char>>) -> Seq<char> {
    "Gateway process exited unexpectedly.\n\nServer log:\n"@ + recent_lines_of(
        match log {
            Some(content) => content,
            None => Seq::empty(),
        },
        10,
    )
}

/// The error of a gateway that was never ready.
pub open spec fn timeout_message(endpoint: Seq<char>) -> Seq<char> {
    "Timed out waiting for gateway at "@ + endpoint
}

/// The wait after its next attempt begins. Before every fifth attempt the process is
/// checked. There are thirty attempts, and the process is checked once more before the wait
/// is given up.
pub open spec fn next_attempt(state: WaitState) -> WaitState {
    let attempt = state.attempt + 1;
    if attempt >= 30 || attempt % 5 == 0 {
        WaitState { attempt, stage: WaitStage::CheckProcess, ..state }
    } else {
        WaitState { attempt, stage: WaitStage::Connect, ..state }
    }
}

/// The wait after an event. An event that does not answer what was to be done changes
/// nothing.
pub open spec fn wait_after(state: WaitState, event: WaitEvent) -> WaitState {
    match (state.stage, event) {
        (WaitStage::CheckProcess, WaitEvent::ProcessNotDead) => if state.attempt >= 30 {
            WaitState {
                stage: WaitStage::Failed,
                failure: Some(timeout_message(state.endpoint)),
                ..state
            }
        } else {
            WaitState { stage: WaitStage::Connect, ..state }
        },
        (WaitStage::CheckProcess, WaitEvent::ProcessDead) => WaitState {
            stage: WaitStage::ReadLog,
            ..state
        },
        (WaitStage::ReadLog, WaitEvent::Log(log)) => WaitState {
            stage: WaitStage::Failed,
            failure: Some(exit_message(log.deep_view())),
            ..state
        },
        (WaitStage::Connect, WaitEvent::Connected) => WaitState {
            stage: WaitStage::Ready,
            ..state
        },
        (WaitStage::Connect, WaitEvent::Refused) => WaitState {
            stage: WaitStage::Pause,
            ..state
        },
        (WaitStage::Pause, WaitEvent::Paused) => next_attempt(state),
        _ => state,
    }
}

/// The wait after a run of events.
pub open spec fn wait_run(state: WaitState, events: Seq<WaitEvent>) -> WaitState
    decreases events.len(),
{
    if events.len() == 0 {
        state
    } else {
        wait_after(wait_run(state, events.drop_last()), events.last())
    }
}

/// Whether a wait can be in this state: its attempts are not used up, and it has a
/// failure exactly where it has failed.
pub open spec fn wait_inv(state: WaitState) -> bool {
    &&& state.attempt <= 30
    &&& state.stage == WaitStage::Connect || state.stage == WaitStage::Pause ==> state.attempt
        < 30
    &&& state.failure is Some <==> state.stage == WaitStage::Failed
}

impl View for ReadinessWait {
    type V = WaitState;

    closed spec fn view(&self) -> WaitState {
        WaitState {
            endpoint: self.endpoint@,
            port: self.port,
            attempt: self.attempt as nat,
            stage: self.stage,
            failure: self.failure.deep_view(),
        }
    }
}

impl ReadinessWait {
    #[verifier::type_invariant]
    spec fn type_inv(self) -> bool {
        wait_inv(self@)
    }

    /// The wait for the gateway that `metadata` describes.
    pub fn new(metadata: &GatewayMetadata) -> (wait: Self)
        ensures
            wait@ == wait_begun(metadata.gateway_endpoint@, metadata.gateway_port),
            wait_inv(wait@),
    {
        ReadinessWait {
            endpoint: metadata.gateway_endpoint.clone(),
            port: metadata.gateway_port,
            attempt: 0,
            stage: WaitStage::Connect,
            failure: None,
        }
    }

    /// What is to be done next.
    pub fn stage(&self) -> (stage: WaitStage)
        ensures
            stage == self@.stage,
    {
        self.stage
    }

    /// The address to connect to.
    pub fn address(&self) -> (address: String)
        ensures
            address@ == "127.0.0.1:"@ + decimal(self@.port as nat),
    {
        concat2("127.0.0.1:", decimal_text(self.port as u64).as_str())
    }

    /// What is logged before the next thing is done.
    pub fn progress_line(&self) -> (line: Option<String>)
        ensures
            line.deep_view() == (match self@.stage {
                WaitStage::CheckProcess => if self@.attempt < 30 {
                    Some("[progress] Waiting for gateway ("@ + decimal(self@.attempt) + "/30)"@)
                } else {
                    None
                },
                WaitStage::Ready => Some("[progress] Gateway is ready"@),
                _ => None,
            }),
    {
        match self.stage {
            WaitStage::CheckProcess => if self.attempt < READY_ATTEMPTS {
                Some(
                    concat3(
                        "[progress] Waiting for gateway (",
                        decimal_text(self.attempt as u64).as_str(),
                        "/30)",
                    ),
                )
            } else {
                None
            },
            WaitStage::Ready => Some("[progress] Gateway is ready".to_string()),
            _ => None,
        }
    }

    /// Why the wait has failed.
    pub fn failure(&self) -> (failure: Option<&String>)
        ensures
            match failure {
                Some(message) => self@.failure == Some(message@),
                None => self@.failure is None,
            },
    {
        self.failure.as_ref()
    }

    /// Take note of what came of the last thing that was done.
    pub fn advance(&mut self, event: WaitEvent)
        ensures
            final(self)@ == wait_after(old(self)@, event),
            wait_inv(final(self)@),
    {
        proof {
            use_type_invariant(&*self);
        }
        let attempt: u32 = match (self.stage, &event) {
            (WaitStage::Pause, WaitEvent::Paused) => self.attempt + 1,
            _ => self.attempt,
        };
        let (stage, failure): (WaitStage, Option<String>) = match (self.stage, event) {
            (WaitStage::CheckProcess, WaitEvent::ProcessNotDead) => {
                if attempt >= READY_ATTEMPTS {
                    let message = concat2(
                        "Timed out waiting for gateway at ",
                        self.endpoint.as_str(),
                    );
                    (WaitStage::Failed, Some(message))
                } else {
                    (WaitStage::Connect, None)
                }
            },
            (WaitStage::CheckProcess, WaitEvent::ProcessDead) => (WaitStage::ReadLog, None),
            (WaitStage::ReadLog, WaitEvent::Log(log)) => {
                let content = match log {
                    Some(content) => content,
                    None => String::new(),
                };
                let message = concat2(
                    "Gateway process exited unexpectedly.\n\nServer log:\n",
                    recent_lines(content.as_str(), EXIT_LOG_LINES).as_str(),
                );
                (WaitStage::Failed, Some(message))
            },
            (WaitStage::Connect, WaitEvent::Connected) => (WaitStage::Ready, None),
            (WaitStage::Connect, WaitEvent::Refused) => (WaitStage::Pause, None),
            (WaitStage::Pause, WaitEvent::Paused) => {
                if attempt >= READY_ATTEMPTS || attempt % 5 == 0 {
                    (WaitStage::CheckProcess, None)
                } else {
                    (WaitStage::Connect, None)
                }
            },
            _ => {
                return ;
            },
        };
        *self = ReadinessWait {
            endpoint: self.endpoint.clone(),
            port: self.port,
            attempt,
            stage,
            failure,
        };
        assert(self@ =~= wait_after(old(self)@, event));
    }
}

/// What the PID file of a gateway says of its process. A gateway whose PID file names no
/// process is not taken for dead. `alive` tells whether the process that the file names
/// answers.
pub fn process_event(pid_file: Option<&str>, alive: bool) -> (event: WaitEvent)
    ensures
        event is ProcessDead <==> pid_in(pid_file.deep_view()) is Some && !alive,
        event is ProcessDead || event is ProcessNotDead,
{
    if AppleContainerRuntime::new().read_pid(pid_file).is_some() && !alive {
        WaitEvent::ProcessDead
    } else {
        WaitEvent::ProcessNotDead
    }
}

// ---------------------------------------------------------------------------
// Laws
// ---------------------------------------------------------------------------

/// How many events say that a connection was refused.
pub open spec fn refusals(events: Seq<WaitEvent>) -> nat
    decreases events.len(),
{
    if events.len() == 0 {
        0
    } else if events.last() is Refused {
        refusals(events.drop_last()) + 1
    } else {
        refusals(events.drop_last())
    }
}

/// A bound on the events that a wait still answers to.
pub open spec fn wait_measure(state: WaitState) -> nat {
    match state.stage {
        WaitStage::CheckProcess => (30 - state.attempt) as nat * 4 + 2,
        WaitStage::ReadLog => 1,
        WaitStage::Connect => (30 - state.attempt) as nat * 4 + 1,
        WaitStage::Pause => (30 - state.attempt) as nat * 4,
        WaitStage::Ready => 0,
        WaitStage::Failed => 0,
    }
}

/// A wait keeps its invariant through every run of events.
pub proof fn wait_keeps_invariant(endpoint: Seq<char>, port: u16, events: Seq<WaitEvent>)
    ensures
        wait_inv(wait_run(wait_begun(endpoint, port), events)),
        wait_run(wait_begun(endpoint, port), events).endpoint == endpoint,
        wait_run(wait_begun(endpoint, port), events).port == port,
    decreases events.len(),
{
    if events.len() > 0 {
        wait_keeps_invariant(endpoint, port, events.drop_last());
    }
}

/// Every event that a wait answers to brings it nearer to its end, so that no wait goes
/// on for ever.
pub proof fn wait_makes_progress(state: WaitState, event: WaitEvent)
    requires
        wait_inv(state),
        wait_after(state, event) != state,
    ensures
        wait_measure(wait_after(state, event)) < wait_measure(state),
{
}

/// A gateway is ready only if a connection was accepted.
pub proof fn ready_means_connected(endpoint: Seq<char>, port: u16, events: Seq<WaitEvent>)
    requires
        wait_run(wait_begun(endpoint, port), events).stage == WaitStage::Ready,
    ensures
        exists|i: int| 0 <= i < events.len() && #[trigger] events[i] is Connected,
    decreases events.len(),
{
    let last = events.last();
    if last is Connected {
        assert(events[events.len() - 1] is Connected);
    } else {
        ready_means_connected(endpoint, port, events.drop_last());
        let i = choose|i: int|
            0 <= i < events.drop_last().len() && #[trigger] events.drop_last()[i] is Connected;
        assert(events[i] is Connected);
    }
}

/// Every attempt that is over was refused, so that a wait is given up for want of time only
/// after thirty refused connections.
pub proof fn attempts_are_refusals(endpoint: Seq<char>, port: u16, events: Seq<WaitEvent>)
    ensures
        ({
            let state = wait_run(wait_begun(endpoint, port), events);
            &&& refusals(events) >= state.attempt
            &&& state.stage == WaitStage::Pause ==> refusals(events) >= state.attempt + 1
            &&& state.attempt == 30 ==> refusals(events) >= 30
        }),
    decreases events.len(),
{
    if events.len() > 0 {
        attempts_are_refusals(endpoint, port, events.drop_last());
        wait_keeps_invariant(endpoint, port, events.drop_last());
    }
}

/// A wait ends in one of three ways: a connection was accepted, the process was found dead
/// and its log was read, or the process was not found dead after thirty attempts.
pub proof fn wait_ends_in_three_ways(state: WaitState, event: WaitEvent)
    requires
        state.stage != WaitStage::Ready,
        state.stage != WaitStage::Failed,
    ensures
        ({
            let after = wait_after(state, event);
            &&& after.stage == WaitStage::Ready ==> event is Connected
            &&& after.stage == WaitStage::Failed ==> (event is Log && after.failure == Some(
                exit_message(event->Log_0.deep_view()),
            )) || (event is ProcessNotDead && state.attempt >= 30 && after.failure == Some(
                timeout_message(state.endpoint),
            ))
        }),
{
}

/// A process that is found dead is reported with the end of its log, at whichever attempt.
pub proof fn dead_process_is_reported(state: WaitState, log: Option<String>)
    requires
        state.stage == WaitStage::CheckProcess,
    ensures
        ({
            let over = wait_after(
                wait_after(state, WaitEvent::ProcessDead),
                WaitEvent::Log(log),
            );
            over.stage == WaitStage::Failed && over.failure == Some(exit_message(log.deep_view()))
        }),
{
}

/// A wait that is over stays as it is, whatever else happens.
pub proof fn finished_wait_stays(state: WaitState, event: WaitEvent)
    requires
        state.stage == WaitStage::Ready || state.stage == WaitStage::Failed,
    ensures
        wait_after(state, event) == state,
{
}

/// A wait begins with a connection to the port of the gateway, with all of its attempts ahead.
pub proof fn wait_begins_with_a_connection(endpoint: Seq<char>, port: u16)
    ensures
        ({
            let begun = wait_begun(endpoint, port);
            &&& begun.stage == WaitStage::Connect
            &&& begun.attempt == 0
            &&& begun.failure is None
            &&& begun.endpoint == endpoint
            &&& begun.port == port
        }),
{
}

/// A gateway that accepts a connection is ready, at whichever attempt and whatever happened
/// before.
pub proof fn accepted_connection_means_ready(state: WaitState)
    requires
        state.stage == WaitStage::Connect,
    ensures
        ({
            let after = wait_after(state, WaitEvent::Connected);
            &&& after.stage == WaitStage::Ready
            &&& after.failure == state.failure
            &&& after.attempt == state.attempt
        }),
{
}

/// A refused connection costs one pause and one attempt. Then the next connection is tried,
/// except that after every fifth attempt the process is checked first.
pub proof fn refused_connection_costs_one_attempt(state: WaitState)
    requires
        state.stage == WaitStage::Connect,
        state.attempt < 30,
    ensures
        ({
            let refused = wait_after(state, WaitEvent::Refused);
            let paused = wait_after(refused, WaitEvent::Paused);
            &&& refused.stage == WaitStage::Pause
            &&& refused.attempt == state.attempt
            &&& paused.attempt == state.attempt + 1
            &&& (state.attempt + 1) % 5 == 0 ==> paused.stage == WaitStage::CheckProcess
            &&& (state.attempt + 1) % 5 != 0 ==> paused.stage == WaitStage::Connect
            &&& refused.failure == state.failure
            &&& paused.failure == state.failure
        }),
{
}

/// A process that is not dead is waited for further, until thirty attempts are over: then the
/// wait fails and names the endpoint.
pub proof fn living_process_is_waited_for(state: WaitState)
    requires
        state.stage == WaitStage::CheckProcess,
    ensures
        ({
            let after = wait_after(state, WaitEvent::ProcessNotDead);
            &&& after.attempt == state.attempt
            &&& state.attempt < 30 ==> after.stage == WaitStage::Connect && after.failure
                == state.failure
            &&& state.attempt >= 30 ==> after.stage == WaitStage::Failed && after.failure == Some(
                "Timed out waiting for gateway at "@ + state.endpoint,
            )
        }),
{
}

/// The log is read of a process that was found dead, and only of one.
pub proof fn log_is_read_of_a_dead_process_only(state: WaitState, event: WaitEvent)
    ensures
        state.stage == WaitStage::CheckProcess && event is ProcessDead ==> wait_after(
            state,
            event,
        ).stage == WaitStage::ReadLog,
        wait_after(state, event).stage == WaitStage::ReadLog && state.stage != WaitStage::ReadLog
            ==> state.stage == WaitStage::CheckProcess && event is ProcessDead,
{
}

/// The error of a gateway that exited ends with the last ten lines of its log. A log that
/// cannot be read counts as empty.
pub proof fn exit_is_reported_with_ten_lines(state: WaitState, log: Option<String>)
    requires
        state.stage == WaitStage::ReadLog,
    ensures
        ({
            let after = wait_after(state, WaitEvent::Log(log));
            let content = match log {
                Some(text) => text@,
                None => Seq::empty(),
            };
            let lines = lines_of(content);
            let tail = joined(
                if lines.len() > 10 {
                    lines.skip(lines.len() - 10)
                } else {
                    lines
                },
                "\n"@,
            );
            &&& after.stage == WaitStage::Failed
            &&& after.failure == Some(
                "Gateway process exited unexpectedly.\n\nServer log:\n"@ + tail,
            )
        }),
{
}

/// An event that does not answer what was to be done changes nothing, and no event changes
/// the endpoint or the port.
pub proof fn other_events_change_nothing(state: WaitState, event: WaitEvent)
    ensures
        wait_after(state, event).endpoint == state.endpoint,
        wait_after(state, event).port == state.port,
        state.stage == WaitStage::CheckProcess && !(event is ProcessDead || event
            is ProcessNotDead) ==> wait_after(state, event) == state,
        state.stage == WaitStage::Connect && !(event is Connected || event is Refused)
            ==> wait_after(state, event) == state,
        state.stage == WaitStage::Pause && !(event is Paused) ==> wait_after(state, event)
            == state,
        state.stage == WaitStage::ReadLog && !(event is Log) ==> wait_after(state, event)
            == state,
{
}

/// The events of a gateway that refuses `n` connections while its process is not dead.
pub open spec fn refused_times(n: nat) -> Seq<WaitEvent>
    decreases n,
{
    if n == 0 {
        Seq::empty()
    } else {
        refused_times((n - 1) as nat) + seq![WaitEvent::Refused, WaitEvent::Paused] + (if n % 5
            == 0 {
            seq![WaitEvent::ProcessNotDead]
        } else {
            Seq::empty()
        })
    }
}

proof fn lemma_run_in_parts(state: WaitState, first: Seq<WaitEvent>, then: Seq<WaitEvent>)
    ensures
        wait_run(state, first + then) == wait_run(wait_run(state, first), then),
    decreases then.len(),
{
    if then.len() == 0 {
        assert(first + then =~= first);
    } else {
        assert((first + then).drop_last() =~= first + then.drop_last());
        assert((first + then).last() == then.last());
        lemma_run_in_parts(state, first, then.drop_last());
    }
}

/// A gateway that takes its time is waited for: as long as it refuses fewer than thirty
/// connections and does not exit, the first connection that it accepts makes it ready. One
/// that refuses thirty is given up.
pub proof fn slow_gateway_becomes_ready(endpoint: Seq<char>, port: u16, n: nat)
    requires
        n <= 30,
    ensures
        ({
            let state = wait_run(wait_begun(endpoint, port), refused_times(n));
            let asked = wait_after(state, WaitEvent::Connected);
            &&& state.attempt == n
            &&& n < 30 ==> state.stage == WaitStage::Connect && asked.stage == WaitStage::Ready
                && asked.failure is None
            &&& n == 30 ==> state.stage == WaitStage::Failed && state.failure == Some(
                "Timed out waiting for gateway at "@ + endpoint,
            )
        }),
    decreases n,
{
    let begun = wait_begun(endpoint, port);
    if n > 0 {
        let before = refused_times((n - 1) as nat);
        slow_gateway_becomes_ready(endpoint, port, (n - 1) as nat);
        wait_keeps_invariant(endpoint, port, before);
        let state = wait_run(begun, before);
        let refused = wait_after(state, WaitEvent::Refused);
        let paused = wait_after(refused, WaitEvent::Paused);
        let two = seq![WaitEvent::Refused, WaitEvent::Paused];
        assert(two.drop_last() =~= seq![WaitEvent::Refused]);
        assert(two.drop_last().drop_last() =~= Seq::empty());
        reveal_with_fuel(wait_run, 3);
        assert(wait_run(state, two) == paused);
        lemma_run_in_parts(begun, before, two);
        if n % 5 == 0 {
            let one = seq![WaitEvent::ProcessNotDead];
            assert(one.drop_last() =~= Seq::empty());
            lemma_run_in_parts(begun, before + two, one);
            assert(refused_times(n) =~= before + two + one);
        } else {
            assert(refused_times(n) =~= before + two);
        }
    }
}

/// A process is taken for dead exactly where its PID file names it and it does not answer.
pub proof fn process_is_dead_where_it_does_not_answer(
    pid_file: Option<&str>,
    alive: bool,
    event: WaitEvent,
)
    requires
        call_ensures(process_event, (pid_file, alive), event),
    ensures
        event is ProcessDead <==> !alive && pid_in(pid_file.deep_view()) is Some,
        event is ProcessNotDead <==> alive || pid_in(pid_file.deep_view()) is None,
{
}

/// The address that is probed has the port of the gateway that is waited for.
pub proof fn wait_probes_the_port_of_the_gateway(
    metadata: GatewayMetadata,
    wait: ReadinessWait,
    address: String,
    stage: WaitStage,
    failure: Option<&String>,
)
    requires
        call_ensures(ReadinessWait::new, (&metadata,), wait),
        call_ensures(ReadinessWait::address, (&wait,), address),
        call_ensures(ReadinessWait::stage, (&wait,), stage),
        call_ensures(ReadinessWait::failure, (&wait,), failure),
    ensures
        address@ == "127.0.0.1:"@ + decimal(metadata.gateway_port as nat),
        stage == WaitStage::Connect,
        failure is None,
        wait@.endpoint == metadata.gateway_endpoint@,
{
}

/// Progress is told where the process is checked while attempts are left, with how many of the
/// thirty are over, and where the gateway is ready.
pub proof fn progress_is_told(wait: ReadinessWait, line: Option<String>)
    requires
        call_ensures(ReadinessWait::progress_line, (&wait,), line),
    ensures
        wait@.stage == WaitStage::Ready ==> line.deep_view() == Some(
            "[progress] Gateway is ready"@,
        ),
        wait@.stage == WaitStage::CheckProcess && wait@.attempt < 30 ==> line.deep_view() == Some(
            "[progress] Waiting for gateway ("@ + decimal(wait@.attempt) + "/30)"@,
        ),
        line is Some ==> wait@.stage == WaitStage::Ready || (wait@.stage
            == WaitStage::CheckProcess && wait@.attempt < 30),
{
}

}
