use vstd::prelude::*;
use vstd::pervasive::VecAdditionalExecFns;
use crate::errors::ExecutionError;

verus! {

/// The size in bytes of one page of guest memory, the minimum unit of guest
/// memory growth.
pub const GUEST_PAGE_SIZE: usize = 65536;

/// The contents of a byte region after `bytes` has been written into it at
/// `offset`, leaving everything outside `[offset, offset + bytes.len())`
/// untouched.
pub open spec fn write_seq(region: Seq<u8>, offset: int, bytes: Seq<u8>) -> Seq<u8> {
    Seq::new(
        region.len(),
        |i: int|
            if offset <= i < offset + bytes.len() {
                bytes[i - offset]
            } else {
                region[i]
            },
    )
}

/// The contiguous linear memory exported by a loaded module, with host-side
/// bounds-checked accessors. This host grants exactly one page: a module
/// requesting more must fail to instantiate with `ResourceLimitExceeded`.
#[derive(Debug)]
pub struct GuestMemory {
    data: Vec<u8>,
}

impl View for GuestMemory {
    type V = Seq<u8>;

    closed spec fn view(&self) -> Seq<u8> {
        self.data@
    }
}

impl GuestMemory {
    /// Guest memory always spans exactly the one granted page.
    pub open spec fn wf(&self) -> bool {
        self@.len() == GUEST_PAGE_SIZE
    }

    /// One zero-initialized page.
    pub fn new() -> (r: GuestMemory)
        ensures
            r.wf(),
            r@ == Seq::new(GUEST_PAGE_SIZE as nat, |i: int| 0u8),
    {
        let mut data: Vec<u8> = Vec::new();
        let mut i: usize = 0;
        while i < GUEST_PAGE_SIZE
            invariant
                i <= GUEST_PAGE_SIZE,
                data@.len() == i,
                forall|j: int| 0 <= j < i ==> data@[j] == 0u8,
            decreases GUEST_PAGE_SIZE - i,
        {
            data.push(0u8);
            i += 1;
        }
        proof {
            assert(data@ =~= Seq::new(GUEST_PAGE_SIZE as nat, |i: int| 0u8));
        }
        GuestMemory { data }
    }

    /// Adopt one page of existing memory contents, byte for byte.
    pub fn from_page(data: Vec<u8>) -> (r: GuestMemory)
        requires
            data@.len() == GUEST_PAGE_SIZE,
        ensures
            r.wf(),
            r@ == data@,
    {
        GuestMemory { data }
    }

    /// The current memory contents, byte for byte.
    pub fn contents(&self) -> (r: &Vec<u8>)
        ensures
            r@ == self@,
    {
        &self.data
    }

    /// The current size of the region in bytes.
    pub fn size(&self) -> (r: usize)
        ensures
            r == self@.len(),
    {
        self.data.len()
    }

    /// Bounds-checked read of `length` bytes starting at `offset`. Fails with
    /// `MemoryAccessViolation`, leaving the region untouched, exactly when
    /// `offset + length` exceeds the region's current size.
    pub fn read_bytes(&self, offset: u32, length: u32) -> (r: Result<Vec<u8>, ExecutionError>)
        ensures
            r is Ok <==> offset + length <= self@.len(),
            r is Ok ==> r->Ok_0@ == self@.subrange(offset as int, offset + length),
            r is Err ==> r == Err::<Vec<u8>, ExecutionError>(ExecutionError::MemoryAccessViolation),
    {
        if (offset as u64) + (length as u64) > (self.data.len() as u64) {
            return Err(ExecutionError::MemoryAccessViolation);
        }
        let mut out: Vec<u8> = Vec::new();
        let base = offset as usize;
        let mut i: usize = 0;
        while i < length as usize
            invariant
                i <= length,
                base == offset,
                base + length <= self.data@.len(),
                self.data@.len() <= usize::MAX,
                out@.len() == i,
                forall|j: int| 0 <= j < i ==> out@[j] == self.data@[base + j],
            decreases length - i,
        {
            out.push(self.data[base + i]);
            i += 1;
        }
        proof {
            assert(out@ =~= self@.subrange(offset as int, offset + length));
        }
        Ok(out)
    }

    /// Bounds-checked write of `bytes` starting at `offset`. Fails with
    /// `MemoryAccessViolation`, leaving the region untouched, exactly when
    /// `offset + bytes.len()` exceeds the region's current size; a failed
    /// write never writes partially.
    pub fn write_bytes(&mut self, offset: u32, bytes: &Vec<u8>) -> (r: Result<
        (),
        ExecutionError,
    >)
        ensures
            final(self)@.len() == old(self)@.len(),
            r is Ok <==> offset + bytes@.len() <= old(self)@.len(),
            r is Ok ==> final(self)@ == write_seq(old(self)@, offset as int, bytes@),
            r is Err ==> r == Err::<(), ExecutionError>(ExecutionError::MemoryAccessViolation)
                && *final(self) == *old(self),
    {
        let base = offset as usize;
        if base > self.data.len() || bytes.len() > self.data.len() - base {
            return Err(ExecutionError::MemoryAccessViolation);
        }
        let ghost m0 = self.data@;
        let mut i: usize = 0;
        while i < bytes.len()
            invariant
                i <= bytes@.len(),
                base == offset,
                base + bytes@.len() <= m0.len(),
                m0.len() <= usize::MAX,
                self.data@.len() == m0.len(),
                forall|j: int| 0 <= j < i ==> self.data@[base + j] == bytes@[j],
                forall|j: int|
                    0 <= j < m0.len() && !(base <= j < base + i) ==> self.data@[j] == m0[j],
            decreases bytes@.len() - i,
        {
            self.data.set(base + i, bytes[i]);
            i += 1;
        }
        proof {
            assert(self.data@ =~= write_seq(m0, offset as int, bytes@));
        }
        Ok(())
    }
}

} // verus!
