//! What is decided about the lifetime of the process.

use crate::launch::LaunchArguments;
use crate::lifecycle::{ConnectionEvent, ConnectionLifecycle};
use vstd::prelude::*;

verus! {

/// A timeout is given in whole seconds, each of which has a billion nanoseconds.
pub proof fn lemma_timeout_is_given_in_seconds(arguments: LaunchArguments, timeout: u128)
    requires
        call_ensures(LaunchArguments::idle_timeout, (&arguments,), timeout),
    ensures
        timeout == arguments.idle_timeout_seconds * 1_000_000_000,
{
}

/// A process starts without connections. A daemon then waits for its timeout, and a
/// regular process for its first client.
pub proof fn lemma_process_starts_without_connections(
    daemon: bool,
    timeout: u128,
    now: u128,
    lifecycle: ConnectionLifecycle,
    active: usize,
    exit: bool,
    deadline: Option<u128>,
)
    requires
        call_ensures(ConnectionLifecycle::new, (daemon, timeout, now), lifecycle),
        call_ensures(ConnectionLifecycle::active_connections, (&lifecycle,), active),
        call_ensures(ConnectionLifecycle::should_exit, (&lifecycle,), exit),
        call_ensures(ConnectionLifecycle::wait_for_idle_timeout, (&lifecycle,), deadline),
    ensures
        active == 0,
        !exit,
        daemon ==> deadline is Some && deadline->0 == now + timeout,
        !daemon ==> deadline is None,
        lifecycle@.daemon == daemon,
        lifecycle@.timeout == timeout,
        !lifecycle@.accepted,
{
}

/// An accepted transport is one more open connection and ends all waiting. The process does
/// not exit then, and stays what it was started as.
pub proof fn lemma_accepted_transport_keeps_the_process(
    lifecycle: &mut ConnectionLifecycle,
    active: usize,
    exit: bool,
    deadline: Option<u128>,
)
    requires
        call_ensures(ConnectionLifecycle::connected, (lifecycle,), ()),
        call_ensures(ConnectionLifecycle::active_connections, (&*final(lifecycle),), active),
        call_ensures(ConnectionLifecycle::should_exit, (&*final(lifecycle),), exit),
        call_ensures(
            ConnectionLifecycle::wait_for_idle_timeout,
            (&*final(lifecycle),),
            deadline,
        ),
    ensures
        active == old(lifecycle)@.active + 1,
        !exit,
        deadline is None,
        final(lifecycle)@.accepted,
        final(lifecycle)@.daemon == old(lifecycle)@.daemon,
        final(lifecycle)@.timeout == old(lifecycle)@.timeout,
{
}

/// A closed transport is one open connection less. While others are open, the process goes
/// on. With the last one a regular process exits, and a daemon waits for its timeout from
/// then on.
pub proof fn lemma_closed_transport(
    lifecycle: &mut ConnectionLifecycle,
    now: u128,
    active: usize,
    exit: bool,
    deadline: Option<u128>,
)
    requires
        old(lifecycle)@.active > 0,
        old(lifecycle)@.accepted,
        call_ensures(
            ConnectionLifecycle::on_event,
            (lifecycle, ConnectionEvent::TransportClosed, now),
            (),
        ),
        call_ensures(ConnectionLifecycle::active_connections, (&*final(lifecycle),), active),
        call_ensures(ConnectionLifecycle::should_exit, (&*final(lifecycle),), exit),
        call_ensures(
            ConnectionLifecycle::wait_for_idle_timeout,
            (&*final(lifecycle),),
            deadline,
        ),
    ensures
        active + 1 == old(lifecycle)@.active,
        exit <==> !old(lifecycle)@.daemon && old(lifecycle)@.active == 1,
        deadline is Some <==> old(lifecycle)@.daemon && old(lifecycle)@.active == 1,
        deadline matches Some(deadline) ==> deadline == now + old(lifecycle)@.timeout,
        final(lifecycle)@.accepted,
        final(lifecycle)@.daemon == old(lifecycle)@.daemon,
        final(lifecycle)@.timeout == old(lifecycle)@.timeout,
{
}

/// A transport that closes while none is open changes no count. A daemon waits for its
/// timeout from then on, and a regular process exits if it ever accepted one.
pub proof fn lemma_closed_without_a_connection(
    lifecycle: &mut ConnectionLifecycle,
    now: u128,
    active: usize,
    exit: bool,
    deadline: Option<u128>,
)
    requires
        old(lifecycle)@.active == 0,
        old(lifecycle)@.deadline is Some ==> old(lifecycle)@.daemon,
        call_ensures(
            ConnectionLifecycle::on_event,
            (lifecycle, ConnectionEvent::TransportClosed, now),
            (),
        ),
        call_ensures(ConnectionLifecycle::active_connections, (&*final(lifecycle),), active),
        call_ensures(ConnectionLifecycle::should_exit, (&*final(lifecycle),), exit),
        call_ensures(
            ConnectionLifecycle::wait_for_idle_timeout,
            (&*final(lifecycle),),
            deadline,
        ),
    ensures
        active == 0,
        exit <==> !old(lifecycle)@.daemon && old(lifecycle)@.accepted,
        deadline is Some <==> old(lifecycle)@.daemon,
        deadline matches Some(deadline) ==> deadline == now + old(lifecycle)@.timeout,
{
}

/// A connection that was initialized changes no count, and ends all waiting.
pub proof fn lemma_initialized_connection(
    lifecycle: &mut ConnectionLifecycle,
    now: u128,
    deadline: Option<u128>,
)
    requires
        call_ensures(
            ConnectionLifecycle::on_event,
            (lifecycle, ConnectionEvent::Initialized, now),
            (),
        ),
        call_ensures(
            ConnectionLifecycle::wait_for_idle_timeout,
            (&*final(lifecycle),),
            deadline,
        ),
    ensures
        deadline is None,
        final(lifecycle)@.active == old(lifecycle)@.active,
        final(lifecycle)@.accepted == old(lifecycle)@.accepted,
        final(lifecycle)@.daemon == old(lifecycle)@.daemon,
        final(lifecycle)@.timeout == old(lifecycle)@.timeout,
{
}

} // verus!
