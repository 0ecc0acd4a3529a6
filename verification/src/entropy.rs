use vstd::prelude::*;

verus! {

/// The hardware random-number peripheral: each read yields one fresh 32-bit
/// sample. Which values come out is never promised — only that every read
/// consumes exactly one sample of the instance's sample sequence, in order.
pub trait EntropyRegister: Sized {
    /// How many samples have been consumed so far. Unspecified unless the
    /// implementation says otherwise; implementations outside the verifier's
    /// reach leave it and the sample sequence at that.
    open spec fn taken(&self) -> nat {
        arbitrary()
    }

    /// The sample the i-th read of this instance yields.
    open spec fn sample_at(&self, i: nat) -> u32 {
        arbitrary()
    }

    /// Reads one 32-bit sample from the register.
    fn sample(&mut self) -> (r: u32)
        ensures
            final(self).taken() == old(self).taken() + 1,
            r == old(self).sample_at(old(self).taken()),
            forall|i: nat| final(self).sample_at(i) == old(self).sample_at(i),
    ;
}

/// The byte a sample contributes to a filled buffer: its low byte.
pub open spec fn low_byte(s: u32) -> u8 {
    (s % 256) as u8
}

/// A byte-stream random generator over the hardware register, offered to the
/// upper-layer protocol engine for key material and nonces. Stateless but
/// for the register itself: nothing is buffered, no seed is kept, and no
/// call can fail.
pub struct Rng<E: EntropyRegister> {
    pub reg: E,
}

/// The error of the fallible fill variant. The fill cannot in fact fail; the
/// type exists because the byte-stream generator interface wants a fallible
/// form.
#[derive(Clone, Copy, Debug, PartialEq, Eq, Structural)]
pub struct EntropyError {
    pub(crate) hidden: bool,
}

impl<E: EntropyRegister> Rng<E> {
    /// Takes exclusive ownership of the peripheral.
    pub fn new(reg: E) -> (r: Rng<E>)
        ensures
            r.reg == reg,
    {
        Rng { reg }
    }

    /// One fresh 32-bit random value: a single register read.
    pub fn next_u32(&mut self) -> (r: u32)
        ensures
            final(self).reg.taken() == old(self).reg.taken() + 1,
            r == old(self).reg.sample_at(old(self).reg.taken()),
            forall|i: nat| final(self).reg.sample_at(i) == old(self).reg.sample_at(i),
    {
        self.reg.sample()
    }

    /// One 64-bit random value from two register reads, packed low word
    /// first.
    pub fn next_u64(&mut self) -> (r: u64)
        ensures
            final(self).reg.taken() == old(self).reg.taken() + 2,
            r == old(self).reg.sample_at(old(self).reg.taken())
                + old(self).reg.sample_at((old(self).reg.taken() + 1) as nat) * 0x1_0000_0000,
            forall|i: nat| final(self).reg.sample_at(i) == old(self).reg.sample_at(i),
    {
        let lo = self.reg.sample();
        let hi = self.reg.sample();
        let lo64: u64 = lo as u64;
        let hi64: u64 = hi as u64;
        let r: u64 = lo64 | (hi64 << 32);
        proof {
            assert(lo64 | (hi64 << 32) == lo64 + hi64 * 0x1_0000_0000) by (bit_vector)
                requires
                    lo64 < 0x1_0000_0000,
                    hi64 < 0x1_0000_0000,
            ;
        }
        r
    }

    /// Fills all of `dest`, front to back, with the low byte of one fresh
    /// 32-bit sample each — deliberately wasteful of entropy per register
    /// read, but simple and branch-free. Every byte is written, whatever the
    /// length; there is no early return and no failure path.
    pub fn fill_bytes(&mut self, dest: &mut Vec<u8>)
        ensures
            final(dest)@.len() == old(dest)@.len(),
            final(self).reg.taken() == old(self).reg.taken() + old(dest)@.len(),
            forall|j: int| 0 <= j < old(dest)@.len()
                ==> final(dest)@[j]
                    == low_byte(old(self).reg.sample_at((old(self).reg.taken() + j) as nat)),
            forall|i: nat| final(self).reg.sample_at(i) == old(self).reg.sample_at(i),
    {
        let n = dest.len();
        let mut idx: usize = 0;
        while idx < n
            invariant
                idx <= n,
                n == dest@.len(),
                dest@.len() == old(dest)@.len(),
                self.reg.taken() == old(self).reg.taken() + idx,
                forall|j: int| 0 <= j < idx
                    ==> dest@[j]
                        == low_byte(old(self).reg.sample_at((old(self).reg.taken() + j) as nat)),
                forall|i: nat| self.reg.sample_at(i) == old(self).reg.sample_at(i),
            decreases n - idx,
        {
            let s = self.reg.sample();
            proof {
                assert(s & 0xff == s % 256) by (bit_vector);
            }
            let b: u8 = (s & 0xff) as u8;
            dest.set(idx, b);
            idx = idx + 1;
        }
    }

    /// The fallible form of the fill; it fills exactly as `fill_bytes` does
    /// and always succeeds.
    pub fn try_fill_bytes(&mut self, dest: &mut Vec<u8>) -> (r: Result<(), EntropyError>)
        ensures
            r is Ok,
            final(dest)@.len() == old(dest)@.len(),
            final(self).reg.taken() == old(self).reg.taken() + old(dest)@.len(),
            forall|j: int| 0 <= j < old(dest)@.len()
                ==> final(dest)@[j]
                    == low_byte(old(self).reg.sample_at((old(self).reg.taken() + j) as nat)),
            forall|i: nat| final(self).reg.sample_at(i) == old(self).reg.sample_at(i),
    {
        self.fill_bytes(dest);
        Ok(())
    }
}

} // verus!
