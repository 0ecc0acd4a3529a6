use vstd::prelude::*;

use crate::errors::StackError;
use crate::link::LinkStatus;

verus! {

/// The abstract state of the network stack and of the one TCP socket this
/// design uses, as the contracts see it. Time only moves it forward: arrived
/// bytes are never un-received, a closed direction stays closed, and the send
/// buffer is only ever drained by polling.
#[verifier::ext_equal]
pub struct StackModel {
    /// The watchdog timers are disabled; polling is only safe once this holds.
    pub watchdogs_off: bool,
    /// The link status the most recent status query reported.
    pub link: LinkStatus,
    /// A poll step has run, so socket-state queries are current.
    pub polled: bool,
    /// Sockets remaining in the stack's fixed-size pool.
    pub pool: nat,
    /// A socket handle has been taken from the pool.
    pub socket_taken: bool,
    /// A connect has been issued on the taken socket.
    pub connect_issued: bool,
    /// The backlog of work reports left in the stack: an upper bound on how
    /// many more poll steps will report work or an error before the stack
    /// falls idle. Accepting bytes for sending replenishes it; at zero the
    /// stack is idle until the next send.
    pub pending: nat,
    /// The socket reports "may receive".
    pub rx_est: bool,
    /// Bytes that have arrived and were not yet handed to the caller.
    pub rx: Seq<u8>,
    /// The peer may still send more; once false it stays false.
    pub rx_open: bool,
    /// Every byte handed to the caller so far, in order.
    pub rx_given: Seq<u8>,
    /// The socket reports "may send".
    pub tx_est: bool,
    /// The send direction is usable; once false it stays false.
    pub tx_open: bool,
    /// Outbound work queued locally and not yet handed to the wire. Only
    /// accepting bytes for sending raises it; polling only lowers it.
    pub tx_queue: nat,
    /// Free space in the socket's send buffer.
    pub tx_room: nat,
    /// Every byte the socket has accepted for sending so far, in order.
    pub tx_sent: Seq<u8>,
}

/// An opaque index into the stack's socket pool, identifying one TCP socket.
/// There is exactly one owner for the lifetime of the connection.
#[derive(Clone, Copy, Debug, PartialEq, Eq, Structural)]
pub struct SocketHandle {
    pub index: usize,
}

/// A remote IPv4 address, as four packed octets, and a TCP port.
#[derive(Clone, Copy, Debug, PartialEq, Eq, Structural)]
pub struct Endpoint {
    pub addr: u32,
    pub port: u16,
}

/// An endpoint a connect call accepts synchronously: neither the unspecified
/// address nor port zero.
pub open spec fn endpoint_ok(ep: Endpoint) -> bool {
    ep.addr != 0 && ep.port != 0
}

/// Credentials within the Wi-Fi standard limits: a nonempty SSID of at most
/// 32 bytes and a pre-shared key of at most 63 bytes.
pub open spec fn creds_ok(ssid: Seq<u8>, psk: Seq<u8>) -> bool {
    0 < ssid.len() <= 32 && psk.len() <= 63
}

/// The boundary to the network stack: status queries, the cooperative poll
/// step that alone makes the stack progress, and the non-blocking socket
/// operations. The stack is free to make progress of its own on every poll
/// (bytes arriving, the send buffer draining, the link advancing), so the
/// contracts only pin down what holds of every outcome.
pub trait NetStack: Sized {
    /// The abstract state this stack is in. Unspecified unless the
    /// implementation says otherwise; implementations outside the verifier's
    /// reach leave it at that.
    open spec fn model(&self) -> StackModel {
        arbitrary()
    }

    /// Disables the watchdog timers. This must come before any poll loop: an
    /// unhandled watchdog reset during a blocking loop would be fatal.
    fn disable_watchdogs(&mut self)
        ensures
            final(self).model() == (StackModel { watchdogs_off: true, ..old(self).model() }),
    ;

    /// Starts the radio in client mode. Exactly the credential pairs within
    /// the Wi-Fi standard limits are accepted; association itself happens on
    /// the side and is observed through later status queries.
    fn start_client(&mut self, ssid: &Vec<u8>, psk: &Vec<u8>) -> (r: Result<(), StackError>)
        ensures
            r is Ok <==> creds_ok(ssid@, psk@),
            r matches Err(e) ==> e == StackError::Config,
            final(self).model() == old(self).model(),
    ;

    /// Queries the link status. The radio and DHCP advance on their own, so
    /// consecutive queries may observe progress; nothing else changes.
    fn get_status(&mut self) -> (s: LinkStatus)
        ensures
            s == final(self).model().link,
            final(self).model() == (StackModel { link: final(self).model().link, ..old(self).model() }),
    ;

    /// Runs one DHCP protocol step; only the link status can move.
    fn poll_dhcp(&mut self) -> (r: Result<(), StackError>)
        requires
            old(self).model().watchdogs_off,
        ensures
            final(self).model() == (StackModel { link: final(self).model().link, ..old(self).model() }),
    ;

    /// One cooperative poll step, stamped with the current time. `Ok(true)`
    /// means the step found buffered work for this round. A poll never
    /// invents or discards traffic: arrived bytes only accumulate — and only
    /// while the peer can still send — delivered and accepted bytes stay as
    /// they are, the send buffer only gains room and only while outbound work
    /// is queued, a closed direction stays closed, and readiness, once
    /// reported, is not withdrawn. Every step that reports work or an error
    /// consumes backlog, so an idle stack — one whose backlog is spent —
    /// reports nothing and changes nothing beyond making socket-state
    /// queries current, until a send queues new work.
    fn poll(&mut self, now_ms: u64) -> (r: Result<bool, StackError>)
        requires
            old(self).model().watchdogs_off,
        ensures
            ({
                let m0 = old(self).model();
                let m1 = final(self).model();
                &&& m1.watchdogs_off == m0.watchdogs_off
                &&& m1.polled
                &&& m1.pool == m0.pool
                &&& m1.socket_taken == m0.socket_taken
                &&& m1.connect_issued == m0.connect_issued
                &&& extends(m0.rx, m1.rx)
                &&& (!m0.rx_open ==> m1.rx == m0.rx)
                &&& m1.rx_given == m0.rx_given
                &&& (!m0.rx_open ==> !m1.rx_open)
                &&& m1.tx_sent == m0.tx_sent
                &&& m1.tx_room >= m0.tx_room
                &&& (!m0.tx_open ==> !m1.tx_open)
                &&& m1.tx_queue <= m0.tx_queue
                &&& (m0.tx_queue == 0 ==> m1.tx_room == m0.tx_room)
                &&& (m0.rx_est ==> m1.rx_est)
                &&& (m0.tx_est ==> m1.tx_est)
                &&& m1.pending <= m0.pending
                &&& (!(r == Ok::<bool, StackError>(false)) ==> m1.pending < m0.pending)
                &&& (m0.pending == 0 ==> r == Ok::<bool, StackError>(false)
                        && m1 == (StackModel { polled: true, ..m0 }))
            }),
    ;

    /// Whether the socket may receive: a receive now would return data or
    /// report the close. Only current right after a poll step.
    fn may_recv(&self, sock: &SocketHandle) -> (r: bool)
        requires
            self.model().polled,
        ensures
            r == self.model().rx_est,
    ;

    /// Whether the socket may send. Only current right after a poll step.
    fn may_send(&self, sock: &SocketHandle) -> (r: bool)
        requires
            self.model().polled,
        ensures
            r == self.model().tx_est,
    ;

    /// A non-blocking receive into the front of `buf`. With data arrived it
    /// hands over at least one byte and at most `buf.len()`; with nothing
    /// arrived it reports zero while the peer may still send, and the close
    /// once the peer no longer can. Called only after readiness was observed
    /// on the most recent poll.
    fn recv_slice(&mut self, sock: &SocketHandle, buf: &mut Vec<u8>) -> (r: Result<usize, StackError>)
        requires
            old(self).model().polled,
            old(self).model().rx_est,
        ensures
            final(buf)@.len() == old(buf)@.len(),
            ({
                let m0 = old(self).model();
                let m1 = final(self).model();
                &&& (old(buf)@.len() == 0 ==> r == Ok::<usize, StackError>(0)
                        && m1 == m0 && final(buf)@ == old(buf)@)
                &&& (old(buf)@.len() > 0 && m0.rx.len() > 0 ==> ({
                        &&& r matches Ok(n)
                        &&& 1 <= n <= old(buf)@.len()
                        &&& n <= m0.rx.len()
                        &&& final(buf)@ == m0.rx.take(n as int) + old(buf)@.skip(n as int)
                        &&& m1 == (StackModel {
                            rx: m0.rx.skip(n as int),
                            rx_given: m0.rx_given + m0.rx.take(n as int),
                            ..m0
                        })
                    }))
                &&& (old(buf)@.len() > 0 && m0.rx.len() == 0 && m0.rx_open
                        ==> r == Ok::<usize, StackError>(0) && m1 == m0 && final(buf)@ == old(buf)@)
                &&& (old(buf)@.len() > 0 && m0.rx.len() == 0 && !m0.rx_open
                        ==> r == Err::<usize, StackError>(StackError::Illegal)
                            && m1 == m0 && final(buf)@ == old(buf)@)
            }),
    ;

    /// A non-blocking send of as much of `buf` as the send buffer accepts
    /// right now: all of it if there is room, else exactly the free room.
    /// Accepted bytes become queued outbound work, replenishing the backlog
    /// of work reports; whether the socket still reports may-send afterwards
    /// is the stack's business. Called only after readiness was observed on
    /// the most recent poll.
    fn send_slice(&mut self, sock: &SocketHandle, buf: &Vec<u8>) -> (r: Result<usize, StackError>)
        requires
            old(self).model().polled,
            old(self).model().tx_est,
        ensures
            ({
                let m0 = old(self).model();
                let m1 = final(self).model();
                let k: int = if buf@.len() <= m0.tx_room { buf@.len() as int } else { m0.tx_room as int };
                &&& (m0.tx_open ==> (r matches Ok(n)
                        && n == k
                        && m1 == (StackModel {
                            tx_room: (m0.tx_room - k) as nat,
                            tx_sent: m0.tx_sent + buf@.take(k),
                            tx_queue: m1.tx_queue,
                            tx_est: m1.tx_est,
                            pending: m1.pending,
                            ..m0
                        })
                        && m1.tx_queue >= m0.tx_queue
                        && m1.pending >= m0.pending
                        && (n == 0 ==> m1.tx_queue == m0.tx_queue && m1.pending == m0.pending
                                && m1.tx_est == m0.tx_est)))
                &&& (!m0.tx_open ==> r == Err::<usize, StackError>(StackError::Illegal) && m1 == m0)
            }),
    ;

    /// Takes the next socket handle from the stack's pre-populated pool, if
    /// one remains. The pool is only consulted once an assigned IP address
    /// has been observed.
    fn take_socket(&mut self) -> (r: Option<SocketHandle>)
        requires
            old(self).model().link is IpAssigned,
        ensures
            ({
                let m0 = old(self).model();
                let m1 = final(self).model();
                &&& (m0.pool > 0 ==> r is Some && m1 == (StackModel {
                        pool: (m0.pool - 1) as nat,
                        socket_taken: true,
                        ..m0
                    }))
                &&& (m0.pool == 0 ==> r is None && m1 == m0)
            }),
    ;

    /// Issues one non-blocking connect to a fixed remote endpoint with a
    /// TCP-level timeout budget. Rejects exactly the malformed endpoints;
    /// establishment itself happens through later polls.
    fn connect(&mut self, sock: &SocketHandle, ep: Endpoint, timeout_ms: u64) -> (r: Result<(), StackError>)
        requires
            old(self).model().socket_taken,
        ensures
            ({
                let m0 = old(self).model();
                let m1 = final(self).model();
                &&& (endpoint_ok(ep) ==> r is Ok && m1 == (StackModel { connect_issued: true, ..m0 }))
                &&& (!endpoint_ok(ep) ==> r == Err::<(), StackError>(StackError::Unaddressable)
                        && m1 == m0)
            }),
    ;
}

/// `b` carries `a` unchanged at its front: nothing of `a` is dropped or
/// reordered, only more may follow.
pub open spec fn extends(a: Seq<u8>, b: Seq<u8>) -> bool {
    &&& a.len() <= b.len()
    &&& forall|i: int| 0 <= i < a.len() ==> a[i] == b[i]
}

/// What a stretch of polling and status queries leaves alone: the bring-up
/// facts and the byte tallies stay, and the send buffer only gains room.
/// Transitive, so loops can carry it.
pub open spec fn quiet(m0: StackModel, m1: StackModel) -> bool {
    &&& m1.watchdogs_off == m0.watchdogs_off
    &&& m1.pool == m0.pool
    &&& m1.socket_taken == m0.socket_taken
    &&& m1.connect_issued == m0.connect_issued
    &&& m1.rx_given == m0.rx_given
    &&& m1.tx_sent == m0.tx_sent
    &&& m1.tx_room >= m0.tx_room
    &&& m1.tx_queue <= m0.tx_queue
    &&& m1.pending <= m0.pending
    &&& (m0.rx_est ==> m1.rx_est)
    &&& (m0.tx_est ==> m1.tx_est)
    &&& extends(m0.rx, m1.rx)
}

} // verus!
