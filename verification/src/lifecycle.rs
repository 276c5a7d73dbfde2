//! Connection counts and process lifetime for the TCP listener.
//!
//! [`ConnectionLifecycle`] owns the state needed to decide when the process can exit.
//! The listener records accepted transports and forwards the [`ConnectionEvent`]
//! messages of its workers. Times are nanoseconds on the clock of the listener.

use vstd::prelude::*;

verus! {

/// What a worker tells the listener of its connection.
#[derive(Clone, Copy, Debug, Eq, PartialEq, Structural)]
pub enum ConnectionEvent {
    Initialized,
    TransportClosed,
}

/// Tracks the connections that keep this server process alive.
///
/// A regular process waits for its first client, then exits when the last transport
/// closes. A daemon instead waits for an idle timeout, both at startup and after its
/// last client disconnects. Any accepted connection cancels that timeout, including
/// probes which never complete initialization.
pub struct ConnectionLifecycle {
    active_connections: usize,
    has_accepted_connection: bool,
    idle_deadline: Option<u128>,
    daemon: bool,
    idle_timeout: u128,
}

/// The state that decides when a process can exit.
pub struct Lifetime {
    pub active: nat,
    pub accepted: bool,
    pub deadline: Option<nat>,
    pub daemon: bool,
    pub timeout: nat,
}

impl View for ConnectionLifecycle {
    type V = Lifetime;

    closed spec fn view(&self) -> Lifetime {
        Lifetime {
            active: self.active_connections as nat,
            accepted: self.has_accepted_connection,
            deadline: match self.idle_deadline {
                Some(deadline) => Some(deadline as nat),
                None => None,
            },
            daemon: self.daemon,
            timeout: self.idle_timeout as nat,
        }
    }
}

/// Only an idle daemon has a deadline.
pub open spec fn well_formed(state: Lifetime) -> bool {
    &&& state.deadline is Some ==> state.daemon && state.active == 0
    &&& state.active > 0 ==> state.accepted
}

/// The state of a process that starts.
pub open spec fn started(daemon: bool, timeout: nat, now: nat) -> Lifetime {
    Lifetime {
        active: 0,
        accepted: false,
        deadline: if daemon {
            Some(now + timeout)
        } else {
            None
        },
        daemon,
        timeout,
    }
}

/// The state after a transport was accepted.
pub open spec fn after_connected(state: Lifetime) -> Lifetime {
    Lifetime { active: state.active + 1, accepted: true, deadline: None, ..state }
}

/// The state after a transport was closed.
pub open spec fn after_disconnected(state: Lifetime, now: nat) -> Lifetime {
    let active: nat = if state.active > 0 {
        (state.active - 1) as nat
    } else {
        0
    };
    Lifetime {
        active,
        deadline: if state.daemon && active == 0 {
            Some(now + state.timeout)
        } else {
            state.deadline
        },
        ..state
    }
}

/// Whether a closed transport leaves a daemon without clients, and so sets a deadline.
pub open spec fn becomes_idle(state: Lifetime) -> bool {
    state.daemon && state.active <= 1
}

/// The state after an event.
pub open spec fn after_event(state: Lifetime, event: ConnectionEvent, now: nat) -> Lifetime {
    match event {
        ConnectionEvent::Initialized => Lifetime { deadline: None, ..state },
        ConnectionEvent::TransportClosed => after_disconnected(state, now),
    }
}

/// Whether a regular process is done: it had clients, and has none left.
pub open spec fn is_done(state: Lifetime) -> bool {
    !state.daemon && state.accepted && state.active == 0
}

/// Whether a daemon has been idle until its deadline.
pub open spec fn is_timed_out(state: Lifetime, now: nat) -> bool {
    state.deadline is Some && state.deadline->0 <= now
}

impl ConnectionLifecycle {
    #[verifier::type_invariant]
    spec fn consistent(self) -> bool {
        well_formed(self@)
    }

    /// The state of a process that starts.
    pub fn new(daemon: bool, idle_timeout: u128, now: u128) -> (lifecycle: Self)
        requires
            daemon ==> now + idle_timeout <= u128::MAX,
        ensures
            lifecycle@ == started(daemon, idle_timeout as nat, now as nat),
            well_formed(lifecycle@),
    {
        ConnectionLifecycle {
            active_connections: 0,
            has_accepted_connection: false,
            idle_deadline: if daemon {
                Some(now + idle_timeout)
            } else {
                None
            },
            daemon,
            idle_timeout,
        }
    }

    /// The number of open connections.
    pub fn active_connections(&self) -> (active: usize)
        ensures
            active == self@.active,
    {
        self.active_connections
    }

    /// Records an accepted transport before its worker starts serving it.
    pub fn connected(&mut self)
        requires
            old(self)@.active < usize::MAX,
        ensures
            final(self)@ == after_connected(old(self)@),
            well_formed(final(self)@),
    {
        proof {
            use_type_invariant(&*self);
        }
        *self = ConnectionLifecycle {
            active_connections: self.active_connections + 1,
            has_accepted_connection: true,
            idle_deadline: None,
            daemon: self.daemon,
            idle_timeout: self.idle_timeout,
        };
    }

    /// Applies a notification of a worker. The transport counts as open until the worker
    /// has stopped serving it.
    pub fn on_event(&mut self, event: ConnectionEvent, now: u128)
        requires
            event == ConnectionEvent::TransportClosed && becomes_idle(old(self)@) ==> now + old(
                self,
            )@.timeout <= u128::MAX,
        ensures
            final(self)@ == after_event(old(self)@, event, now as nat),
            well_formed(final(self)@),
    {
        proof {
            use_type_invariant(&*self);
        }
        match event {
            ConnectionEvent::Initialized => {
                self.idle_deadline = None;
            },
            ConnectionEvent::TransportClosed => {
                self.disconnected(now);
            },
        }
    }

    /// Records a closed transport.
    fn disconnected(&mut self, now: u128)
        requires
            becomes_idle(old(self)@) ==> now + old(self)@.timeout <= u128::MAX,
        ensures
            final(self)@ == after_disconnected(old(self)@, now as nat),
            well_formed(final(self)@),
    {
        proof {
            use_type_invariant(&*self);
        }
        let active_connections: usize = self.active_connections.saturating_sub(1);
        let idle_deadline = if self.daemon && active_connections == 0 {
            Some(now + self.idle_timeout)
        } else {
            self.idle_deadline
        };
        *self = ConnectionLifecycle {
            active_connections,
            has_accepted_connection: self.has_accepted_connection,
            idle_deadline,
            daemon: self.daemon,
            idle_timeout: self.idle_timeout,
        };
    }

    /// Whether a regular process should exit after its last client disconnected. A
    /// daemon exits at its deadline instead.
    pub fn should_exit(&self) -> (exit: bool)
        ensures
            exit == is_done(self@),
    {
        !self.daemon && self.has_accepted_connection && self.active_connections == 0
    }

    /// The time until which to wait before a daemon exits. Without one the wait never
    /// ends. The listener asks again after each event.
    pub fn wait_for_idle_timeout(&self) -> (deadline: Option<u128>)
        ensures
            (match deadline {
                Some(deadline) => Some(deadline as nat),
                None => None,
            }) == self@.deadline,
            well_formed(self@),
    {
        proof {
            use_type_invariant(self);
        }
        self.idle_deadline
    }
}

/// What can happen to a process.
pub enum Step {
    Connected,
    Event { event: ConnectionEvent, now: nat },
}

/// The state after one step.
pub open spec fn after_step(state: Lifetime, step: Step) -> Lifetime {
    match step {
        Step::Connected => after_connected(state),
        Step::Event { event, now } => after_event(state, event, now),
    }
}

/// The state after all steps.
pub open spec fn after_steps(state: Lifetime, steps: Seq<Step>) -> Lifetime
    decreases steps.len(),
{
    if steps.len() == 0 {
        state
    } else {
        after_step(after_steps(state, steps.drop_last()), steps.last())
    }
}

/// A server does not shut down while a client is connected: whatever happened since it
/// started, with an open connection it is neither done nor timed out.
pub proof fn lemma_no_exit_while_connected(
    daemon: bool,
    timeout: nat,
    start: nat,
    steps: Seq<Step>,
    now: nat,
)
    ensures
        well_formed(after_steps(started(daemon, timeout, start), steps)),
        after_steps(started(daemon, timeout, start), steps).active > 0 ==> !is_done(
            after_steps(started(daemon, timeout, start), steps),
        ) && !is_timed_out(after_steps(started(daemon, timeout, start), steps), now),
    decreases steps.len(),
{
    if steps.len() > 0 {
        lemma_no_exit_while_connected(daemon, timeout, start, steps.drop_last(), now);
    }
}

/// A regular process waits for its first client: until a connection is accepted it is
/// not done, and it never times out.
pub proof fn lemma_regular_process_waits_for_a_client(
    timeout: nat,
    start: nat,
    steps: Seq<Step>,
    now: nat,
)
    ensures
        ({
            let state = after_steps(started(false, timeout, start), steps);
            &&& !state.daemon
            &&& !is_timed_out(state, now)
            &&& is_done(state) ==> exists|i: int|
                0 <= i < steps.len() && #[trigger] steps[i] is Connected
        }),
    decreases steps.len(),
{
    if steps.len() > 0 {
        let shorter = steps.drop_last();
        lemma_regular_process_waits_for_a_client(timeout, start, shorter, now);
        lemma_accepted_means_connected(false, timeout, start, steps);
    }
}

proof fn lemma_accepted_means_connected(daemon: bool, timeout: nat, start: nat, steps: Seq<Step>)
    ensures
        after_steps(started(daemon, timeout, start), steps).accepted ==> exists|i: int|
            0 <= i < steps.len() && #[trigger] steps[i] is Connected,
    decreases steps.len(),
{
    if steps.len() > 0 {
        let shorter = steps.drop_last();
        lemma_accepted_means_connected(daemon, timeout, start, shorter);
        if after_steps(started(daemon, timeout, start), shorter).accepted {
            let i = choose|i: int| 0 <= i < shorter.len() && #[trigger] shorter[i] is Connected;
            assert(steps[i] is Connected);
        } else {
            assert(steps[steps.len() - 1] == steps.last());
        }
    }
}

/// A regular process is done as soon as its last transport closes, and a daemon then
/// has the full timeout left.
pub proof fn lemma_last_disconnect(state: Lifetime, now: nat)
    requires
        well_formed(state),
        state.active == 1,
    ensures
        ({
            let after = after_event(state, ConnectionEvent::TransportClosed, now);
            &&& !state.daemon ==> is_done(after)
            &&& state.daemon ==> !is_done(after) && after.deadline == Some(now + state.timeout)
        }),
{
}

/// A daemon has the full timeout at startup, never counts as done, and any accepted
/// connection cancels the timeout.
pub proof fn lemma_daemon_timeout(state: Lifetime, timeout: nat, start: nat)
    ensures
        started(true, timeout, start).deadline == Some(start + timeout),
        state.daemon ==> !is_done(state),
        after_connected(state).deadline is None,
{
}

/// Whether workers report that their connection is initialized only while it is open.
pub open spec fn events_in_order(state: Lifetime, steps: Seq<Step>) -> bool {
    forall|i: int|
        #![trigger steps[i]]
        0 <= i < steps.len() && (steps[i] matches Step::Event { event, .. } && event
            == ConnectionEvent::Initialized) ==> after_steps(state, steps.take(i)).active > 0
}

/// A daemon without clients always has a deadline, provided that workers report
/// initialization only while their connection is open.
pub proof fn lemma_idle_daemon_has_a_deadline(timeout: nat, start: nat, steps: Seq<Step>)
    requires
        events_in_order(started(true, timeout, start), steps),
    ensures
        ({
            let state = after_steps(started(true, timeout, start), steps);
            &&& state.daemon
            &&& state.active == 0 ==> state.deadline is Some
        }),
    decreases steps.len(),
{
    if steps.len() > 0 {
        let first = started(true, timeout, start);
        let shorter = steps.drop_last();
        assert(events_in_order(first, shorter)) by {
            assert forall|i: int|
                #![trigger shorter[i]]
                0 <= i < shorter.len() && (shorter[i] matches Step::Event { event, .. } && event
                    == ConnectionEvent::Initialized) implies after_steps(
                first,
                shorter.take(i),
            ).active > 0 by {
                assert(shorter[i] == steps[i]);
                assert(shorter.take(i) =~= steps.take(i));
            }
        }
        lemma_idle_daemon_has_a_deadline(timeout, start, shorter);
        let last = steps.len() - 1;
        assert(steps.take(last) =~= shorter);
        assert(steps[last] == steps.last());
    }
}

/// How many transports were accepted.
pub open spec fn accepted_count(steps: Seq<Step>) -> nat
    decreases steps.len(),
{
    if steps.len() == 0 {
        0
    } else if steps.last() is Connected {
        accepted_count(steps.drop_last()) + 1
    } else {
        accepted_count(steps.drop_last())
    }
}

/// How many transports were closed.
pub open spec fn closed_count(steps: Seq<Step>) -> nat
    decreases steps.len(),
{
    if steps.len() == 0 {
        0
    } else if steps.last() matches Step::Event { event, .. } && event
        == ConnectionEvent::TransportClosed {
        closed_count(steps.drop_last()) + 1
    } else {
        closed_count(steps.drop_last())
    }
}

/// Whether at no time more transports were closed than had been accepted.
pub open spec fn closes_what_was_accepted(steps: Seq<Step>) -> bool {
    forall|i: int|
        0 <= i <= steps.len() ==> closed_count(#[trigger] steps.take(i)) <= accepted_count(
            steps.take(i),
        )
}

/// What holds of all steps holds of all but the last.
proof fn lemma_closes_what_was_accepted(steps: Seq<Step>)
    requires
        closes_what_was_accepted(steps),
        steps.len() > 0,
    ensures
        closes_what_was_accepted(steps.drop_last()),
        closed_count(steps) <= accepted_count(steps),
{
    let shorter = steps.drop_last();
    assert forall|i: int| 0 <= i <= shorter.len() implies closed_count(#[trigger] shorter.take(i))
        <= accepted_count(shorter.take(i)) by {
        assert(shorter.take(i) =~= steps.take(i));
    }
    assert(steps.take(steps.len() as int) =~= steps);
}

/// The open connections are those that were accepted and have not been closed. So a
/// regular process is done exactly when it accepted a transport and as many were closed as
/// were accepted, and only then can a daemon have a deadline. What a process was started
/// with does not change.
pub proof fn lemma_open_connections_are_counted(
    daemon: bool,
    timeout: nat,
    start: nat,
    steps: Seq<Step>,
    now: nat,
)
    requires
        closes_what_was_accepted(steps),
    ensures
        ({
            let state = after_steps(started(daemon, timeout, start), steps);
            let all_closed = closed_count(steps) == accepted_count(steps);
            &&& state.active == accepted_count(steps) - closed_count(steps)
            &&& state.accepted <==> accepted_count(steps) > 0
            &&& state.daemon == daemon
            &&& state.timeout == timeout
            &&& is_done(state) <==> !daemon && accepted_count(steps) > 0 && all_closed
            &&& state.deadline is Some ==> daemon && all_closed
            &&& is_timed_out(state, now) ==> daemon && all_closed
        }),
    decreases steps.len(),
{
    if steps.len() > 0 {
        lemma_closes_what_was_accepted(steps);
        lemma_open_connections_are_counted(daemon, timeout, start, steps.drop_last(), now);
    }
}

/// A closed transport takes away one connection and an accepted one adds one, whatever the
/// number is. Where none is open, nothing is taken away. An initialized connection changes
/// no number.
pub proof fn lemma_one_step_counts_one_connection(state: Lifetime, now: nat)
    ensures
        state.active > 0 ==> after_event(state, ConnectionEvent::TransportClosed, now).active + 1
            == state.active,
        state.active == 0 ==> after_event(state, ConnectionEvent::TransportClosed, now).active == 0,
        after_event(state, ConnectionEvent::Initialized, now).active == state.active,
        after_connected(state).active == state.active + 1,
{
}

/// An idle daemon waits for its full timeout, counted from its start where nothing
/// happened yet and otherwise from the time at which its last transport was closed. It is
/// timed out from that moment on, and not before.
pub proof fn lemma_idle_daemon_waits_for_its_timeout(
    timeout: nat,
    start: nat,
    steps: Seq<Step>,
    now: nat,
)
    requires
        closes_what_was_accepted(steps),
        events_in_order(started(true, timeout, start), steps),
        closed_count(steps) == accepted_count(steps),
    ensures
        ({
            let state = after_steps(started(true, timeout, start), steps);
            let since = if steps.len() == 0 {
                start
            } else {
                steps.last()->now
            };
            &&& steps.len() > 0 ==> (steps.last() matches Step::Event { event, .. } && event
                == ConnectionEvent::TransportClosed)
            &&& state.deadline == Some(since + timeout)
            &&& is_timed_out(state, now) <==> since + timeout <= now
        }),
{
    if steps.len() > 0 {
        let first = started(true, timeout, start);
        let shorter = steps.drop_last();
        let last = steps.len() - 1;
        lemma_closes_what_was_accepted(steps);
        lemma_open_connections_are_counted(true, timeout, start, shorter, now);
        lemma_open_connections_are_counted(true, timeout, start, steps, now);
        assert(steps.take(last) =~= shorter);
        assert(steps[last] == steps.last());
        if shorter.len() > 0 {
            lemma_closes_what_was_accepted(shorter);
        }
    }
}

} // verus!
