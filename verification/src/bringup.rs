use vstd::prelude::*;

use crate::clock::Clock;
use crate::errors::{SetupError, StackError};
use crate::link::{LinkStatus, rank};
use crate::stack::{Endpoint, NetStack, SocketHandle, StackModel, creds_ok, endpoint_ok, quiet};

verus! {

/// Spins on the status query alone until the client radio reports it has
/// started associating. The radio advances on its own between queries.
pub fn wait_for_started<S: NetStack>(stack: &mut S, max_queries: u32) -> (r: Result<(), SetupError>)
    ensures
        final(stack).model() == (StackModel {
            link: final(stack).model().link,
            ..old(stack).model()
        }),
        r is Ok ==> rank(final(stack).model().link) >= 1,
        r is Err ==> r == Err::<(), SetupError>(SetupError::TimedOut),
        r is Err && max_queries > 0 ==> final(stack).model().link == LinkStatus::Idle,
{
    let mut fuel: u32 = max_queries;
    loop
        invariant
            stack.model() == (StackModel { link: stack.model().link, ..old(stack).model() }),
            max_queries > 0 ==> fuel == max_queries || stack.model().link == LinkStatus::Idle,
        decreases fuel,
    {
        if fuel == 0 {
            return Err(SetupError::TimedOut);
        }
        fuel = fuel - 1;
        let s = stack.get_status();
        match s {
            LinkStatus::Idle => {}
            _ => {
                return Ok(());
            }
        }
    }
}

/// Spins until the status reports an assigned IP address; each turn performs
/// one DHCP protocol step and one time-stamped stack poll step, then queries
/// the status. A lower-level link error from either poll step is fatal here:
/// it is reported, never retried.
pub fn wait_for_ip<S: NetStack, C: Clock>(
    stack: &mut S,
    clock: &mut C,
    max_iters: u32,
) -> (r: Result<u32, SetupError>)
    requires
        old(stack).model().watchdogs_off,
    ensures
        quiet(old(stack).model(), final(stack).model()),
        final(stack).model().watchdogs_off,
        r matches Ok(ip) ==> final(stack).model().link == LinkStatus::IpAssigned(ip),
        r matches Err(e) ==> (e == SetupError::TimedOut || e matches SetupError::Link(_)),
        r == Err::<u32, SetupError>(SetupError::TimedOut) && max_iters > 0
            ==> !(final(stack).model().link is IpAssigned),
{
    let mut fuel: u32 = max_iters;
    loop
        invariant
            stack.model().watchdogs_off,
            quiet(old(stack).model(), stack.model()),
            max_iters > 0 ==> fuel == max_iters || !(stack.model().link is IpAssigned),
        decreases fuel,
    {
        if fuel == 0 {
            return Err(SetupError::TimedOut);
        }
        fuel = fuel - 1;
        match stack.poll_dhcp() {
            Ok(_) => {}
            Err(e) => {
                return Err(SetupError::Link(e));
            }
        }
        let now = clock.now_ms();
        match stack.poll(now) {
            Ok(_) => {}
            Err(e) => {
                return Err(SetupError::Link(e));
            }
        }
        let s = stack.get_status();
        if let LinkStatus::IpAssigned(ip) = s {
            return Ok(ip);
        }
    }
}

/// The whole bring-up sequence: disables the watchdog timers — which must
/// happen before any poll loop — starts the client radio with the supplied
/// credentials, then blocks until the device has an assigned IP address,
/// which it returns. A rejected configuration is fatal and reported at once;
/// exactly the credential pairs outside the Wi-Fi standard limits are
/// rejected.
pub fn bring_up<S: NetStack, C: Clock>(
    stack: &mut S,
    clock: &mut C,
    ssid: &Vec<u8>,
    psk: &Vec<u8>,
    max_iters: u32,
) -> (r: Result<u32, SetupError>)
    ensures
        quiet(
            (StackModel { watchdogs_off: true, ..old(stack).model() }),
            final(stack).model(),
        ),
        final(stack).model().watchdogs_off,
        r == Err::<u32, SetupError>(SetupError::BadConfig) <==> !creds_ok(ssid@, psk@),
        r matches Ok(ip) ==> final(stack).model().link == LinkStatus::IpAssigned(ip),
        r == Err::<u32, SetupError>(SetupError::TimedOut) && max_iters > 0
            ==> !(final(stack).model().link is IpAssigned),
{
    stack.disable_watchdogs();
    match stack.start_client(ssid, psk) {
        Ok(_) => {}
        Err(_) => {
            return Err(SetupError::BadConfig);
        }
    }
    match wait_for_started(stack, max_iters) {
        Ok(_) => {}
        Err(_) => {
            return Err(SetupError::TimedOut);
        }
    }
    wait_for_ip(stack, clock, max_iters)
}

/// Takes the first socket handle from the stack's pre-populated pool and
/// issues a single non-blocking connect to the fixed remote endpoint, with a
/// TCP-level timeout budget the stack enforces. Runs only once an assigned
/// IP address has been observed; an empty pool or a synchronously rejected
/// endpoint is fatal and reported, never retried.
pub fn acquire_and_connect<S: NetStack>(
    stack: &mut S,
    ep: Endpoint,
    timeout_ms: u64,
) -> (r: Result<SocketHandle, SetupError>)
    requires
        old(stack).model().link is IpAssigned,
    ensures
        ({
            let m0 = old(stack).model();
            let m1 = final(stack).model();
            &&& (m0.pool == 0 ==> r == Err::<SocketHandle, SetupError>(SetupError::PoolEmpty)
                    && m1 == m0)
            &&& (m0.pool > 0 && !endpoint_ok(ep)
                    ==> r == Err::<SocketHandle, SetupError>(SetupError::BadEndpoint)
                        && m1 == (StackModel {
                            pool: (m0.pool - 1) as nat,
                            socket_taken: true,
                            ..m0
                        }))
            &&& (m0.pool > 0 && endpoint_ok(ep) ==> r is Ok
                    && m1 == (StackModel {
                        pool: (m0.pool - 1) as nat,
                        socket_taken: true,
                        connect_issued: true,
                        ..m0
                    }))
        }),
{
    let sock = match stack.take_socket() {
        Some(s) => s,
        None => {
            return Err(SetupError::PoolEmpty);
        }
    };
    match stack.connect(&sock, ep, timeout_ms) {
        Ok(_) => Ok(sock),
        Err(_) => Err(SetupError::BadEndpoint),
    }
}

} // verus!
