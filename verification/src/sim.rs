use vstd::prelude::*;

use crate::clock::Clock;
use crate::entropy::EntropyRegister;
use crate::errors::StackError;
use crate::link::LinkStatus;
use crate::stack::{Endpoint, NetStack, SocketHandle, StackModel};

verus! {

/// A deterministic, fully verified network stack for driving the adapter and
/// the sequencer without hardware: every transition is scripted at
/// construction. Status queries walk a status script; polls first report a
/// scripted number of errors, then work off the scripted backlog while
/// counting the socket down to readiness; arrived bytes and the sizes of the
/// segments they arrived in are laid out up front.
pub struct SimStack {
    watchdogs_off: bool,
    link_script: Vec<LinkStatus>,
    link_idx: usize,
    pool: usize,
    socket_taken: bool,
    connect_issued: bool,
    work: u32,
    poll_errs: u32,
    rx_cd: u32,
    tx_cd: u32,
    rx_buf: Vec<u8>,
    chunk_sizes: Vec<usize>,
    rx_open: bool,
    rx_given: Ghost<Seq<u8>>,
    tx_open: bool,
    tx_queue: u32,
    tx_room: usize,
    tx_sent: Vec<u8>,
    polled: bool,
}

impl SimStack {
    /// Builds a scripted stack. `link_script` holds the link's successive
    /// states: the first entry is the state before any query, each status
    /// query steps to the next entry and observes it, and the last repeats
    /// (an empty script reads as idle); `work` is the backlog of internal
    /// work units and `poll_errs`
    /// the number of polls that report an error first; `rx_cd`/`tx_cd` are
    /// how many working polls pass before the socket reports may-receive and
    /// may-send; `rx_buf` holds every byte that will ever arrive, cut into
    /// segments of the sizes in `chunk_sizes` (a receive never crosses a
    /// segment); `rx_open` false means the peer closes after those bytes.
    pub fn new(
        link_script: Vec<LinkStatus>,
        pool: usize,
        work: u32,
        poll_errs: u32,
        rx_cd: u32,
        tx_cd: u32,
        rx_buf: Vec<u8>,
        chunk_sizes: Vec<usize>,
        rx_open: bool,
        tx_open: bool,
        tx_room: usize,
    ) -> (s: SimStack)
        ensures
            s.model() == (StackModel {
                watchdogs_off: false,
                link: if link_script@.len() > 0 { link_script@[0] } else { LinkStatus::Idle },
                polled: false,
                pool: pool as nat,
                socket_taken: false,
                connect_issued: false,
                pending: (work + poll_errs) as nat,
                rx_est: rx_cd == 0,
                rx: rx_buf@,
                rx_open: rx_open,
                rx_given: Seq::<u8>::empty(),
                tx_est: tx_cd == 0,
                tx_open: tx_open,
                tx_queue: 0,
                tx_room: tx_room as nat,
                tx_sent: Seq::<u8>::empty(),
            }),
    {
        SimStack {
            watchdogs_off: false,
            link_script,
            link_idx: 0,
            pool,
            socket_taken: false,
            connect_issued: false,
            work,
            poll_errs,
            rx_cd,
            tx_cd,
            rx_buf,
            chunk_sizes,
            rx_open,
            rx_given: Ghost(Seq::empty()),
            tx_open,
            tx_queue: 0,
            tx_room,
            tx_sent: Vec::new(),
            polled: false,
        }
    }

    /// Every byte the socket has accepted for sending so far.
    pub fn sent(&self) -> (r: &Vec<u8>)
        ensures
            r@ == self.model().tx_sent,
    {
        &self.tx_sent
    }

    /// Whether any scripted backlog (work or poll errors) remains.
    pub fn has_pending(&self) -> (r: bool)
        ensures
            r == (self.model().pending > 0),
    {
        self.work > 0 || self.poll_errs > 0
    }

    /// Free space left in the send buffer.
    pub fn room_left(&self) -> (r: usize)
        ensures
            r as nat == self.model().tx_room,
    {
        self.tx_room
    }

    /// Bytes arrived but not yet handed to the caller.
    pub fn unread(&self) -> (r: usize)
        ensures
            r as nat == self.model().rx.len(),
    {
        self.rx_buf.len()
    }
}

impl NetStack for SimStack {
    closed spec fn model(&self) -> StackModel {
        StackModel {
            watchdogs_off: self.watchdogs_off,
            link: if self.link_idx < self.link_script@.len() {
                self.link_script@[self.link_idx as int]
            } else {
                LinkStatus::Idle
            },
            polled: self.polled,
            pool: self.pool as nat,
            socket_taken: self.socket_taken,
            connect_issued: self.connect_issued,
            pending: (self.work + self.poll_errs) as nat,
            rx_est: self.rx_cd == 0,
            rx: self.rx_buf@,
            rx_open: self.rx_open,
            rx_given: self.rx_given@,
            tx_est: self.tx_cd == 0,
            tx_open: self.tx_open,
            tx_queue: self.tx_queue as nat,
            tx_room: self.tx_room as nat,
            tx_sent: self.tx_sent@,
        }
    }

    fn disable_watchdogs(&mut self) {
        self.watchdogs_off = true;
    }

    fn start_client(&mut self, ssid: &Vec<u8>, psk: &Vec<u8>) -> (r: Result<(), StackError>) {
        if ssid.len() >= 1 && ssid.len() <= 32 && psk.len() <= 63 {
            Ok(())
        } else {
            Err(StackError::Config)
        }
    }

    fn get_status(&mut self) -> (s: LinkStatus) {
        let len = self.link_script.len();
        if len > 0 && self.link_idx < len - 1 {
            self.link_idx = self.link_idx + 1;
        }
        if self.link_idx < len {
            self.link_script[self.link_idx]
        } else {
            LinkStatus::Idle
        }
    }

    fn poll_dhcp(&mut self) -> (r: Result<(), StackError>) {
        Ok(())
    }

    fn poll(&mut self, _now_ms: u64) -> (r: Result<bool, StackError>) {
        self.polled = true;
        if self.poll_errs > 0 {
            self.poll_errs = self.poll_errs - 1;
            return Err(StackError::Illegal);
        }
        if self.work > 0 {
            self.work = self.work - 1;
            if self.rx_cd > 0 {
                self.rx_cd = self.rx_cd - 1;
            }
            if self.tx_cd > 0 {
                self.tx_cd = self.tx_cd - 1;
            }
            if self.tx_queue > 0 {
                self.tx_queue = self.tx_queue - 1;
            }
            return Ok(self.work > 0);
        }
        Ok(false)
    }

    fn may_recv(&self, _sock: &SocketHandle) -> (r: bool) {
        self.rx_cd == 0
    }

    fn may_send(&self, _sock: &SocketHandle) -> (r: bool) {
        self.tx_cd == 0
    }

    fn recv_slice(&mut self, _sock: &SocketHandle, buf: &mut Vec<u8>) -> (r: Result<usize, StackError>) {
        if buf.len() == 0 {
            return Ok(0);
        }
        let avail = self.rx_buf.len();
        if avail == 0 {
            if self.rx_open {
                return Ok(0);
            } else {
                return Err(StackError::Illegal);
            }
        }
        let mut cap = avail;
        if self.chunk_sizes.len() > 0 {
            let first = self.chunk_sizes[0];
            self.chunk_sizes.remove(0);
            if first > 0 && first < cap {
                cap = first;
            }
        }
        let n = if buf.len() < cap { buf.len() } else { cap };
        let mut i: usize = 0;
        while i < n
            invariant
                i <= n,
                n <= self.rx_buf@.len(),
                n <= buf@.len(),
                buf@.len() == old(buf)@.len(),
                forall|j: int| 0 <= j < i ==> buf@[j] == self.rx_buf@[j],
                forall|j: int| i <= j < buf@.len() ==> buf@[j] == old(buf)@[j],
            decreases n - i,
        {
            let b = self.rx_buf[i];
            buf.set(i, b);
            i = i + 1;
        }
        let mut rest: Vec<u8> = Vec::new();
        let mut j: usize = n;
        while j < avail
            invariant
                n <= j <= avail,
                avail == self.rx_buf@.len(),
                rest@ == self.rx_buf@.subrange(n as int, j as int),
            decreases avail - j,
        {
            let b = self.rx_buf[j];
            rest.push(b);
            proof {
                assert(rest@ =~= self.rx_buf@.subrange(n as int, j + 1 as int));
            }
            j = j + 1;
        }
        proof {
            assert(rest@ =~= self.rx_buf@.skip(n as int));
            assert(buf@ =~= self.rx_buf@.take(n as int) + old(buf)@.skip(n as int));
        }
        self.rx_given = Ghost(self.rx_given@ + self.rx_buf@.take(n as int));
        self.rx_buf = rest;
        Ok(n)
    }

    fn send_slice(&mut self, _sock: &SocketHandle, buf: &Vec<u8>) -> (r: Result<usize, StackError>) {
        if !self.tx_open {
            return Err(StackError::Illegal);
        }
        let n = if buf.len() <= self.tx_room { buf.len() } else { self.tx_room };
        let mut accepted: Vec<u8> = Vec::new();
        let mut i: usize = 0;
        while i < n
            invariant
                i <= n,
                n <= buf@.len(),
                accepted@ == buf@.take(i as int),
            decreases n - i,
        {
            let b = buf[i];
            accepted.push(b);
            proof {
                assert(accepted@ =~= buf@.take(i + 1 as int));
            }
            i = i + 1;
        }
        self.tx_sent.append(&mut accepted);
        self.tx_room = self.tx_room - n;
        if n > 0 {
            if self.tx_queue < u32::MAX {
                self.tx_queue = self.tx_queue + 1;
            }
            if self.work < u32::MAX {
                self.work = self.work + 1;
            }
        }
        Ok(n)
    }

    fn take_socket(&mut self) -> (r: Option<SocketHandle>) {
        if self.pool > 0 {
            self.pool = self.pool - 1;
            self.socket_taken = true;
            Some(SocketHandle { index: 0 })
        } else {
            None
        }
    }

    fn connect(&mut self, _sock: &SocketHandle, ep: Endpoint, _timeout_ms: u64) -> (r: Result<(), StackError>) {
        if ep.addr != 0 && ep.port != 0 {
            self.connect_issued = true;
            Ok(())
        } else {
            Err(StackError::Unaddressable)
        }
    }
}

/// A deterministic clock for driving the adapter without hardware: each
/// reading advances a fixed step, saturating at the top of the range.
pub struct SimClock {
    now: u64,
    step: u64,
}

impl SimClock {
    /// A clock that starts at `start` and advances by `step` per reading.
    pub fn new(start: u64, step: u64) -> (c: SimClock)
        ensures
            c.last_ms() == start,
    {
        SimClock { now: start, step }
    }
}

impl Clock for SimClock {
    closed spec fn last_ms(&self) -> u64 {
        self.now
    }

    fn now_ms(&mut self) -> (ms: u64) {
        if self.now <= u64::MAX - self.step {
            self.now = self.now + self.step;
        } else {
            self.now = u64::MAX;
        }
        self.now
    }
}

/// A deterministic entropy register for driving the generator without
/// hardware: reads walk a scripted sample sequence, yielding zero once it is
/// exhausted.
pub struct ScriptedEntropy {
    given: Ghost<Seq<u32>>,
    script: Vec<u32>,
}

impl ScriptedEntropy {
    /// A register whose consecutive reads yield `script`, then zeroes.
    pub fn new(script: Vec<u32>) -> (e: ScriptedEntropy)
        ensures
            e.taken() == 0,
            forall|i: nat| e.sample_at(i)
                == if i < script@.len() { script@[i as int] } else { 0u32 },
    {
        ScriptedEntropy { given: Ghost(Seq::empty()), script }
    }
}

impl EntropyRegister for ScriptedEntropy {
    closed spec fn taken(&self) -> nat {
        self.given@.len()
    }

    closed spec fn sample_at(&self, i: nat) -> u32 {
        if i < self.given@.len() {
            self.given@[i as int]
        } else if i - self.given@.len() < self.script@.len() {
            self.script@[i - self.given@.len()]
        } else {
            0u32
        }
    }

    fn sample(&mut self) -> (r: u32) {
        if self.script.len() > 0 {
            let v = self.script.remove(0);
            proof {
                assert(self.script@ =~= old(self).script@.skip(1));
            }
            self.given = Ghost(self.given@.push(v));
            v
        } else {
            self.given = Ghost(self.given@.push(0));
            0
        }
    }
}

} // verus!
