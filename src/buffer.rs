//! The Buffer Manager: one exchange region sized to the largest request seen.

use vstd::prelude::*;

verus! {

/// Abstract state of an [`ExchangeBuffer`].
pub struct BufferView {
    /// The region's bytes; its length is the region's capacity.
    pub bytes: Seq<u8>,
    /// Number of regions allocated so far. Each allocation gets the next
    /// number, so a number is never handed out twice: two equal numbers mean
    /// the same region at the same base address.
    pub region: nat,
}

impl BufferView {
    pub open spec fn capacity(self) -> nat {
        self.bytes.len()
    }

    /// The state after a request for a region of at least `n` bytes:
    /// unchanged when the region already holds `n` bytes, otherwise a new,
    /// zero-filled region of exactly `n` bytes replaces it.
    pub open spec fn ensured(self, n: nat) -> BufferView {
        if n <= self.capacity() {
            self
        } else {
            BufferView { bytes: Seq::new(n, |i: int| 0u8), region: self.region + 1 }
        }
    }

    /// The state after `data` is written at the start of the region.
    pub open spec fn written(self, data: Seq<u8>) -> BufferView {
        BufferView { bytes: data + self.bytes.subrange(data.len() as int, self.bytes.len() as int), region: self.region }
    }
}

/// The single exchange region of a guest instance.
///
/// A request for zero bytes never allocates: the empty region serves it. So
/// the region exists (has been allocated) exactly when its capacity is not
/// zero, and the count of allocations never exceeds the capacity.
pub struct ExchangeBuffer {
    region: Vec<u8>,
    allocations: usize,
}

impl View for ExchangeBuffer {
    type V = BufferView;

    closed spec fn view(&self) -> BufferView {
        BufferView { bytes: self.region@, region: self.allocations as nat }
    }
}

/// The host-side write did not fit in the exchange region.
#[derive(Debug, Clone, Copy, PartialEq, Eq, Structural)]
pub enum RegionOverflow {
    TooLong,
}

impl ExchangeBuffer {
    pub closed spec fn wf(&self) -> bool {
        &&& self.allocations <= self.region@.len()
        &&& (self.allocations == 0 <==> self.region@.len() == 0)
    }

    /// A manager that has allocated nothing yet.
    pub fn new() -> (b: ExchangeBuffer)
        ensures
            b.wf(),
            b@.bytes.len() == 0,
            b@.region == 0,
    {
        ExchangeBuffer { region: Vec::new(), allocations: 0 }
    }

    /// Bytes the current region can hold.
    pub fn capacity(&self) -> (c: usize)
        ensures
            c == self@.capacity(),
    {
        self.region.len()
    }

    /// Whether a region has ever been allocated.
    pub fn is_allocated(&self) -> (a: bool)
        requires
            self.wf(),
        ensures
            a == (self@.region > 0),
    {
        self.allocations > 0
    }

    /// Number of the region now in place; a new region gets a larger number.
    pub fn region_number(&self) -> (r: usize)
        ensures
            r == self@.region,
    {
        self.allocations
    }

    /// The region's bytes, from its base address on.
    pub fn region(&self) -> (s: &[u8])
        ensures
            s@ == self@.bytes,
    {
        self.region.as_slice()
    }

    /// Makes the region hold at least `requested` bytes and returns the number
    /// of the region now in place.
    ///
    /// A region that is already large enough is kept as it is (it is not
    /// shrunk); otherwise it is released and a zero-filled region of exactly
    /// `requested` bytes takes its place.
    pub fn ensure_capacity(&mut self, requested: usize) -> (region: usize)
        requires
            old(self).wf(),
        ensures
            final(self).wf(),
            final(self)@ == old(self)@.ensured(requested as nat),
            region == final(self)@.region,
    {
        if requested > self.region.len() {
            self.region = vec![0u8; requested];
            self.allocations = self.allocations + 1;
            assert(self.region@ =~= Seq::new(requested as nat, |i: int| 0u8));
        }
        self.allocations
    }

    /// Copies `data` to the start of the region, leaving the rest of it as it
    /// was. Fails, changing nothing, when `data` is longer than the region.
    pub fn write_region(&mut self, data: &[u8]) -> (r: Result<(), RegionOverflow>)
        requires
            old(self).wf(),
        ensures
            final(self).wf(),
            r is Ok <==> data@.len() <= old(self)@.capacity(),
            r is Ok ==> final(self)@ == old(self)@.written(data@),
            r is Err ==> final(self)@ == old(self)@,
    {
        if data.len() > self.region.len() {
            return Err(RegionOverflow::TooLong);
        }
        let mut i: usize = 0;
        while i < data.len()
            invariant
                data@.len() <= self.region@.len(),
                self.region@.len() == old(self).region@.len(),
                self.allocations == old(self).allocations,
                i <= data@.len(),
                forall|k: int| 0 <= k < i ==> self.region@[k] == data@[k],
                forall|k: int| i <= k < self.region@.len() ==> self.region@[k] == old(self).region@[k],
            decreases data@.len() - i,
        {
            self.region.set(i, data[i]);
            i = i + 1;
        }
        assert(self.region@ =~= data@ + old(self).region@.subrange(data@.len() as int, old(self).region@.len() as int));
        Ok(())
    }

    /// A copy of the first `len` bytes of the region, owned apart from it.
    pub fn read_region(&self, len: usize) -> (m: Vec<u8>)
        requires
            len <= self@.capacity(),
        ensures
            m@ == self@.bytes.subrange(0, len as int),
    {
        let mut m: Vec<u8> = Vec::with_capacity(len);
        let mut i: usize = 0;
        while i < len
            invariant
                len <= self.region@.len(),
                i <= len,
                m@ == self.region@.subrange(0, i as int),
            decreases len - i,
        {
            m.push(self.region[i]);
            i = i + 1;
        }
        m
    }
}

} // verus!
