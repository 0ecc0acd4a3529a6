use vstd::prelude::*;

use crate::clock::Clock;
use crate::errors::{IoError, StackError};
use crate::stack::{NetStack, SocketHandle, StackModel, extends, quiet};

verus! {

/// The blocking byte-stream adapter: a stateless facade over the one socket,
/// re-derived each call from the stack's live state. Every wait is a spin
/// loop whose each turn is one poll step; a wait that spends `budget` polls
/// without progress reports a timeout instead of spinning forever.
pub struct InputOutput<S: NetStack, C: Clock> {
    pub stack: S,
    pub clock: C,
    pub socket: SocketHandle,
    pub budget: u32,
}

impl<S: NetStack, C: Clock> InputOutput<S, C> {
    /// The abstract state of the underlying stack.
    pub open spec fn sm(&self) -> StackModel {
        self.stack.model()
    }

    /// The adapter stands over a stack whose watchdogs are off — polling is
    /// unsafe otherwise — whose one socket has been taken and had its connect
    /// issued, and with at least one poll per wait to spend.
    pub open spec fn wf(&self) -> bool {
        &&& self.sm().watchdogs_off
        &&& self.sm().socket_taken
        &&& self.sm().connect_issued
        &&& self.budget >= 1
    }

    /// Wraps a brought-up stack, the socket taken from it, and a clock.
    pub fn new(stack: S, clock: C, socket: SocketHandle, budget: u32) -> (io: Self)
        requires
            stack.model().watchdogs_off,
            stack.model().socket_taken,
            stack.model().connect_issued,
            budget >= 1,
        ensures
            io.wf(),
            io.sm() == stack.model(),
            io.socket == socket,
            io.budget == budget,
            io.clock == clock,
    {
        InputOutput { stack, clock, socket, budget }
    }

    /// Spins — one poll step per turn — until the socket reports
    /// may-receive; readiness is only queried right after a poll.
    fn wait_recv_ready(&mut self) -> (r: Result<(), IoError>)
        requires
            old(self).wf(),
        ensures
            final(self).wf(),
            final(self).socket == old(self).socket,
            final(self).budget == old(self).budget,
            quiet(old(self).sm(), final(self).sm()),
            r is Ok ==> final(self).sm().polled && final(self).sm().rx_est,
            r matches Err(e) ==> (e == IoError::TimedOut || e matches IoError::Other(_)),
            old(self).sm().pending == 0 ==> final(self).sm() == old(self).sm()
                || final(self).sm() == (StackModel { polled: true, ..old(self).sm() }),
            old(self).sm().pending == 0 && old(self).sm().rx_est ==> r is Ok,
    {
        let mut fuel: u32 = self.budget;
        loop
            invariant
                self.wf(),
                self.socket == old(self).socket,
                self.budget == old(self).budget,
                quiet(old(self).sm(), self.sm()),
                old(self).sm().pending == 0 && old(self).sm().rx_est ==> fuel >= 1,
                old(self).sm().pending == 0 ==> self.sm() == old(self).sm()
                    || self.sm() == (StackModel { polled: true, ..old(self).sm() }),
            decreases fuel,
        {
            if fuel == 0 {
                return Err(IoError::TimedOut);
            }
            fuel = fuel - 1;
            let now = self.clock.now_ms();
            match self.stack.poll(now) {
                Ok(_) => {}
                Err(e) => {
                    return Err(IoError::Other(e));
                }
            }
            if self.stack.may_recv(&self.socket) {
                return Ok(());
            }
        }
    }

    /// Spins — one poll step per turn — until the socket reports may-send;
    /// readiness is only queried right after a poll.
    fn wait_send_ready(&mut self) -> (r: Result<(), IoError>)
        requires
            old(self).wf(),
        ensures
            final(self).wf(),
            final(self).socket == old(self).socket,
            final(self).budget == old(self).budget,
            quiet(old(self).sm(), final(self).sm()),
            r is Ok ==> final(self).sm().polled && final(self).sm().tx_est,
            r matches Err(e) ==> (e == IoError::TimedOut || e matches IoError::Other(_)),
            old(self).sm().pending == 0 ==> final(self).sm() == old(self).sm()
                || final(self).sm() == (StackModel { polled: true, ..old(self).sm() }),
            old(self).sm().pending == 0 && old(self).sm().tx_est ==> r is Ok,
    {
        let mut fuel: u32 = self.budget;
        loop
            invariant
                self.wf(),
                self.socket == old(self).socket,
                self.budget == old(self).budget,
                quiet(old(self).sm(), self.sm()),
                old(self).sm().pending == 0 && old(self).sm().tx_est ==> fuel >= 1,
                old(self).sm().pending == 0 ==> self.sm() == old(self).sm()
                    || self.sm() == (StackModel { polled: true, ..old(self).sm() }),
            decreases fuel,
        {
            if fuel == 0 {
                return Err(IoError::TimedOut);
            }
            fuel = fuel - 1;
            let now = self.clock.now_ms();
            match self.stack.poll(now) {
                Ok(_) => {}
                Err(e) => {
                    return Err(IoError::Other(e));
                }
            }
            if self.stack.may_send(&self.socket) {
                return Ok(());
            }
        }
    }

    /// Drains the stack's buffered internal work: polls until a step reports
    /// no more work this round, so buffered incoming segments reach the
    /// socket's receive buffer and queued outgoing ones are handed on before
    /// the caller acts on socket state. Poll errors here are treated as
    /// transient and retried while the budget lasts. With nothing pending
    /// this changes nothing beyond making socket-state queries current.
    fn drain_pending(&mut self) -> (r: Result<(), IoError>)
        requires
            old(self).wf(),
        ensures
            final(self).wf(),
            final(self).socket == old(self).socket,
            final(self).budget == old(self).budget,
            quiet(old(self).sm(), final(self).sm()),
            r is Ok ==> final(self).sm().polled,
            r is Err ==> r == Err::<(), IoError>(IoError::TimedOut),
            old(self).sm().pending < old(self).budget as nat ==> r is Ok,
            old(self).sm().tx_queue == 0 ==> final(self).sm().tx_room == old(self).sm().tx_room
                && final(self).sm().tx_queue == 0,
            old(self).sm().pending == 0 ==> r is Ok
                && final(self).sm() == (StackModel { polled: true, ..old(self).sm() }),
    {
        let mut fuel: u32 = self.budget;
        loop
            invariant
                self.wf(),
                self.socket == old(self).socket,
                self.budget == old(self).budget,
                quiet(old(self).sm(), self.sm()),
                old(self).sm().pending < old(self).budget as nat ==> self.sm().pending < fuel,
                old(self).sm().tx_queue == 0 ==> self.sm().tx_room == old(self).sm().tx_room,
                old(self).sm().pending == 0 ==> fuel >= 1,
                old(self).sm().pending == 0 ==> self.sm() == old(self).sm()
                    || self.sm() == (StackModel { polled: true, ..old(self).sm() }),
            decreases fuel,
        {
            if fuel == 0 {
                return Err(IoError::TimedOut);
            }
            fuel = fuel - 1;
            let now = self.clock.now_ms();
            match self.stack.poll(now) {
                Ok(more) => {
                    if !more {
                        return Ok(());
                    }
                }
                Err(_) => {}
            }
        }
    }

    /// Blocking read into the front of `buf`. Each attempt spins until the
    /// socket reports may-receive, drains the stack's buffered work, polls
    /// once more, re-checks readiness, and only then tries one non-blocking
    /// receive; a receive of zero bytes means no data yet and starts the
    /// sequence over. A success hands over at least one byte unless `buf`
    /// itself is empty, leaves the rest of `buf` alone, and the bytes handed
    /// out over all calls are exactly the stream in order: the delivered
    /// tally grows by just what this call returned. On an idle stack with
    /// data arrived the read is owed; on an idle stack with the peer gone
    /// and nothing left, the close surfaces as an error rather than a hang.
    /// Reading touches nothing outbound and neither creates nor destroys
    /// sockets.
    pub fn read(&mut self, buf: &mut Vec<u8>) -> (r: Result<usize, IoError>)
        requires
            old(self).wf(),
        ensures
            final(self).wf(),
            final(self).socket == old(self).socket,
            final(self).budget == old(self).budget,
            final(self).sm().pool == old(self).sm().pool,
            final(self).sm().socket_taken == old(self).sm().socket_taken,
            final(self).sm().connect_issued == old(self).sm().connect_issued,
            final(self).sm().watchdogs_off == old(self).sm().watchdogs_off,
            final(self).sm().tx_room >= old(self).sm().tx_room,
            final(self).sm().tx_queue <= old(self).sm().tx_queue,
            final(self).sm().pending <= old(self).sm().pending,
            final(buf)@.len() == old(buf)@.len(),
            final(self).sm().tx_sent == old(self).sm().tx_sent,
            extends(
                old(self).sm().rx_given + old(self).sm().rx,
                final(self).sm().rx_given + final(self).sm().rx,
            ),
            old(buf)@.len() == 0 ==> r == Ok::<usize, IoError>(0),
            r matches Ok(n) ==> ({
                &&& n <= old(buf)@.len()
                &&& (n == 0 ==> old(buf)@.len() == 0)
                &&& final(self).sm().rx_given
                    == old(self).sm().rx_given + final(buf)@.take(n as int)
                &&& final(buf)@.skip(n as int) == old(buf)@.skip(n as int)
            }),
            r is Err ==> final(self).sm().rx_given == old(self).sm().rx_given
                && final(buf)@ == old(buf)@,
            old(self).sm().pending == 0 && old(self).sm().rx_est
                && old(self).sm().rx.len() > 0 && old(buf)@.len() > 0 ==> r is Ok,
            old(self).sm().pending == 0 && old(self).sm().rx_est
                && old(self).sm().rx.len() == 0 && !old(self).sm().rx_open
                && old(buf)@.len() > 0
                ==> r == Err::<usize, IoError>(IoError::Other(StackError::Illegal)),
    {
        if buf.len() == 0 {
            return Ok(0);
        }
        let mut fuel: u32 = self.budget;
        loop
            invariant
                self.wf(),
                self.socket == old(self).socket,
                self.budget == old(self).budget,
                old(buf)@.len() > 0,
                buf@ == old(buf)@,
                quiet(old(self).sm(), self.sm()),
                old(self).sm().pending == 0 && old(self).sm().rx_est
                    && (old(self).sm().rx.len() > 0
                        || (old(self).sm().rx.len() == 0 && !old(self).sm().rx_open))
                    ==> fuel >= 1,
                old(self).sm().pending == 0 ==> self.sm() == old(self).sm()
                    || self.sm() == (StackModel { polled: true, ..old(self).sm() }),
            decreases fuel,
        {
            if fuel == 0 {
                return Err(IoError::TimedOut);
            }
            fuel = fuel - 1;
            match self.wait_recv_ready() {
                Ok(_) => {}
                Err(e) => {
                    return Err(e);
                }
            }
            match self.drain_pending() {
                Ok(_) => {}
                Err(e) => {
                    return Err(e);
                }
            }
            let now = self.clock.now_ms();
            match self.stack.poll(now) {
                Ok(_) => {}
                Err(e) => {
                    return Err(IoError::Other(e));
                }
            }
            if self.stack.may_recv(&self.socket) {
                let ghost pre = self.sm();
                match self.stack.recv_slice(&self.socket, buf) {
                    Ok(n) => {
                        if n > 0 {
                            proof {
                                assert(buf@.take(n as int)
                                    =~= pre.rx.take(n as int));
                                assert(pre.rx.take(n as int) + pre.rx.skip(n as int)
                                    =~= pre.rx);
                                assert(self.sm().rx_given + self.sm().rx
                                    =~= pre.rx_given + pre.rx);
                                assert(buf@.skip(n as int) =~= old(buf)@.skip(n as int));
                            }
                            return Ok(n);
                        }
                    }
                    Err(e) => {
                        return Err(IoError::Other(e));
                    }
                }
            }
        }
    }

    /// Blocking write. Spins until the socket reports may-send, drains the
    /// stack's buffered work, re-checks readiness, and then issues exactly
    /// one non-blocking send — never a loop to place the remainder. The send
    /// accepts as much of `buf` as the send buffer has room for: never less
    /// than the room seen at entry allows, all of it whenever that room
    /// suffices, and a short count only with the send buffer left full; on
    /// an idle stack the count is exactly the smaller of the buffer and the
    /// room, and a closed send direction surfaces as an error. The accepted
    /// tally grows by just the bytes reported sent, in order.
    pub fn write(&mut self, buf: &Vec<u8>) -> (r: Result<usize, IoError>)
        requires
            old(self).wf(),
        ensures
            final(self).wf(),
            final(self).socket == old(self).socket,
            final(self).budget == old(self).budget,
            final(self).sm().pool == old(self).sm().pool,
            final(self).sm().socket_taken == old(self).sm().socket_taken,
            final(self).sm().connect_issued == old(self).sm().connect_issued,
            final(self).sm().watchdogs_off == old(self).sm().watchdogs_off,
            final(self).sm().rx_given == old(self).sm().rx_given,
            extends(old(self).sm().rx, final(self).sm().rx),
            r matches Ok(n) ==> ({
                let k0: int = if buf@.len() <= old(self).sm().tx_room {
                    buf@.len() as int
                } else {
                    old(self).sm().tx_room as int
                };
                &&& n <= buf@.len()
                &&& n >= k0
                &&& final(self).sm().tx_sent
                    == old(self).sm().tx_sent + buf@.take(n as int)
                &&& (n < buf@.len() ==> final(self).sm().tx_room == 0)
                &&& (buf@.len() <= old(self).sm().tx_room ==> n == buf@.len())
            }),
            r is Err ==> final(self).sm().tx_sent == old(self).sm().tx_sent,
            old(self).sm().pending == 0 && old(self).sm().tx_est && old(self).sm().tx_open
                ==> (r matches Ok(n) && n == (if buf@.len() <= old(self).sm().tx_room {
                        buf@.len() as int
                    } else {
                        old(self).sm().tx_room as int
                    })),
            old(self).sm().pending == 0 && old(self).sm().tx_est && !old(self).sm().tx_open
                ==> r == Err::<usize, IoError>(IoError::Other(StackError::Illegal)),
    {
        let mut fuel: u32 = self.budget;
        loop
            invariant
                self.wf(),
                self.socket == old(self).socket,
                self.budget == old(self).budget,
                quiet(old(self).sm(), self.sm()),
                old(self).sm().pending == 0 && old(self).sm().tx_est ==> fuel >= 1,
                old(self).sm().pending == 0 ==> self.sm() == old(self).sm()
                    || self.sm() == (StackModel { polled: true, ..old(self).sm() }),
            decreases fuel,
        {
            if fuel == 0 {
                return Err(IoError::TimedOut);
            }
            fuel = fuel - 1;
            match self.wait_send_ready() {
                Ok(_) => {}
                Err(e) => {
                    return Err(e);
                }
            }
            match self.drain_pending() {
                Ok(_) => {}
                Err(e) => {
                    return Err(e);
                }
            }
            if self.stack.may_send(&self.socket) {
                match self.stack.send_slice(&self.socket, buf) {
                    Ok(n) => {
                        return Ok(n);
                    }
                    Err(e) => {
                        return Err(IoError::Other(e));
                    }
                }
            }
        }
    }

    /// Drains the stack's buffered work and returns: locally queued work is
    /// handed to the stack for transmission, with no claim about remote
    /// acknowledgment. Succeeds whenever the poll budget covers the backlog.
    /// With no outbound work queued, nothing outbound moves; with nothing
    /// pending at all, this is a no-op that succeeds without altering socket
    /// state beyond making socket-state queries current.
    pub fn flush(&mut self) -> (r: Result<(), IoError>)
        requires
            old(self).wf(),
        ensures
            final(self).wf(),
            final(self).socket == old(self).socket,
            final(self).budget == old(self).budget,
            quiet(old(self).sm(), final(self).sm()),
            r is Ok ==> final(self).sm().polled,
            r is Err ==> r == Err::<(), IoError>(IoError::TimedOut),
            old(self).sm().pending < old(self).budget as nat ==> r is Ok,
            old(self).sm().tx_queue == 0 ==> final(self).sm().tx_room == old(self).sm().tx_room
                && final(self).sm().tx_queue == 0,
            old(self).sm().pending == 0 ==> r is Ok
                && final(self).sm() == (StackModel { polled: true, ..old(self).sm() }),
    {
        self.drain_pending()
    }
}

} // verus!
