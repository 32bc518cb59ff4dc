//! The byte-code buffer behind the kernel's run-time generated
//! routines: machine-code bytes laid out one after another from a fixed
//! start address, within one page.  Mapping the page executable and
//! jumping into it are platform glue; here the buffer's layout — where
//! it starts, where the next byte goes, and what it holds — is exact.

use vstd::prelude::*;

verus! {

/// Bytes one page holds: the whole buffer a compiler writes into.
pub const CODE_CAPACITY: u64 = 4096;

/// An append-only machine-code buffer starting at a fixed address.
#[derive(Debug)]
pub struct Compiler {
    start: u64,
    code: Vec<u8>,
}

impl View for Compiler {
    type V = Seq<u8>;

    closed spec fn view(&self) -> Seq<u8> {
        self.code@
    }
}

impl Compiler {
    /// The buffer's fixed start address.
    pub closed spec fn start_spec(&self) -> u64 {
        self.start
    }

    pub open spec fn wf(&self) -> bool {
        &&& self@.len() <= CODE_CAPACITY
        &&& self.start_spec() + CODE_CAPACITY <= u64::MAX
    }

    /// An empty buffer at the given page-aligned start address, which
    /// the caller obtained from its allocator.
    pub fn new(start: u64) -> (c: Compiler)
        requires
            start + CODE_CAPACITY <= u64::MAX,
        ensures
            c.wf(),
            c@ == Seq::<u8>::empty(),
            c.start_spec() == start,
    {
        Compiler { start, code: Vec::new() }
    }

    /// Append one machine-code byte.
    pub fn push(&mut self, code: u8)
        requires
            old(self).wf(),
            old(self)@.len() < CODE_CAPACITY,
        ensures
            final(self).wf(),
            final(self)@ == old(self)@.push(code),
            final(self).start_spec() == old(self).start_spec(),
    {
        self.code.push(code);
    }

    /// Append a run of machine-code bytes.
    pub fn push_codes(&mut self, codes: &[u8])
        requires
            old(self).wf(),
            old(self)@.len() + codes@.len() <= CODE_CAPACITY,
        ensures
            final(self).wf(),
            final(self)@ == old(self)@ + codes@,
            final(self).start_spec() == old(self).start_spec(),
    {
        let mut i: usize = 0;
        while i < codes.len()
            invariant
                i <= codes@.len(),
                self.code@ == old(self)@ + codes@.subrange(0, i as int),
                self.start == old(self).start_spec(),
                old(self)@.len() + codes@.len() <= CODE_CAPACITY,
            decreases codes@.len() - i,
        {
            self.code.push(codes[i]);
            proof {
                assert(self.code@ =~= old(self)@ + codes@.subrange(0, i + 1));
            }
            i = i + 1;
        }
        proof {
            assert(self.code@ =~= old(self)@ + codes@);
        }
    }

    /// The buffer's start address: where the generated routine begins.
    pub fn start_p(&self) -> (r: u64)
        ensures
            r == self.start_spec(),
    {
        self.start
    }

    /// The address the next byte would be written to.
    pub fn current_p(&self) -> (r: u64)
        requires
            self.wf(),
        ensures
            r == self.start_spec() + self@.len(),
    {
        self.start + self.code.len() as u64
    }

    /// The bytes written so far, for the caller to copy into executable
    /// memory.
    pub fn code(&self) -> (r: &Vec<u8>)
        ensures
            r@ == self@,
    {
        &self.code
    }
}

} // verus!
