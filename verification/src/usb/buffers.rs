//! The packet-buffer allocator: a bump allocator over one fixed region of
//! memory. It hands out addresses and never takes one back.

use crate::usb::types::UsbError;
use vstd::prelude::*;

verus! {

/// Size in bytes of the region that packet buffers are cut from.
pub const BUFFER_SIZE: usize = 2048;

/// The first multiple of four that is not below `addr`.
pub open spec fn align4(addr: int) -> int {
    if addr % 4 == 0 {
        addr
    } else {
        addr + (4 - addr % 4)
    }
}

/// Whether `size` is one of the eight buffer sizes that the peripheral knows.
pub open spec fn is_tier(size: int) -> bool {
    size == 8 || size == 16 || size == 32 || size == 64 || size == 128 || size == 256 || size
        == 512 || size == 1024
}

/// Whether the peripheral can carry packets of up to `max_packet_size`
/// bytes.
pub open spec fn supported_packet_size(max_packet_size: int) -> bool {
    1 <= max_packet_size <= 1023
}

/// The buffer size that is reserved for packets of up to `max_packet_size`
/// bytes.
pub open spec fn tier_of(max_packet_size: int) -> int {
    if max_packet_size <= 8 {
        8
    } else if max_packet_size <= 16 {
        16
    } else if max_packet_size <= 32 {
        32
    } else if max_packet_size <= 64 {
        64
    } else if max_packet_size <= 128 {
        128
    } else if max_packet_size <= 256 {
        256
    } else if max_packet_size <= 512 {
        512
    } else {
        1024
    }
}

/// The buffer size to reserve for packets of up to `max_packet_size` bytes,
/// or nothing where the peripheral cannot carry such packets.
pub fn buffer_tier(max_packet_size: u16) -> (tier: Option<u16>)
    ensures
        supported_packet_size(max_packet_size as int) ==> tier == Some(
            tier_of(max_packet_size as int) as u16,
        ),
        !supported_packet_size(max_packet_size as int) ==> tier.is_none(),
{
    if max_packet_size == 0 || max_packet_size > 1023 {
        None
    } else if max_packet_size <= 8 {
        Some(8)
    } else if max_packet_size <= 16 {
        Some(16)
    } else if max_packet_size <= 32 {
        Some(32)
    } else if max_packet_size <= 64 {
        Some(64)
    } else if max_packet_size <= 128 {
        Some(128)
    } else if max_packet_size <= 256 {
        Some(256)
    } else if max_packet_size <= 512 {
        Some(512)
    } else {
        Some(1024)
    }
}

/// The size reserved for a supported packet size is the smallest of the
/// peripheral's buffer sizes that holds such a packet.
pub proof fn lemma_tier_is_smallest(max_packet_size: int, other: int)
    requires
        supported_packet_size(max_packet_size),
        is_tier(other),
        max_packet_size <= other,
    ensures
        is_tier(tier_of(max_packet_size)),
        max_packet_size <= tier_of(max_packet_size),
        tier_of(max_packet_size) <= other,
{
}

/// Hands out word-aligned pieces of the region `[base, base + BUFFER_SIZE)`,
/// each one above all those handed out before.
#[derive(Clone, Copy, Debug)]
pub struct BufferAllocator {
    base: usize,
    next_buf: u16,
}

impl BufferAllocator {
    #[verifier::type_invariant]
    spec fn inv(self) -> bool {
        self.wf()
    }

    /// Address of the region's first byte.
    pub closed spec fn base(self) -> int {
        self.base as int
    }

    /// Offset of the first byte that no buffer has reached yet.
    pub closed spec fn used(self) -> int {
        self.next_buf as int
    }

    /// The region lies in the address space, and what is used lies in it.
    pub open spec fn wf(self) -> bool {
        &&& 0 <= self.base()
        &&& 0 <= self.used() <= BUFFER_SIZE
        &&& self.base() + BUFFER_SIZE <= usize::MAX
    }

    /// Address one past the region's last byte.
    pub open spec fn limit(self) -> int {
        self.base() + BUFFER_SIZE
    }

    /// Where the next buffer would start.
    pub open spec fn next_start(self) -> int {
        align4(self.base() + self.used())
    }

    /// Whether a buffer of `size` bytes still has room: its start and its end
    /// must both stay inside the region.
    pub open spec fn fits(self, size: int) -> bool {
        &&& self.next_start() < self.limit()
        &&& self.next_start() + size <= self.limit()
    }

    /// Whether `after` is this allocator once it has handed out a buffer of
    /// `size` bytes: over the same region, with all used up to the end of
    /// the new buffer.
    pub open spec fn grown_by(self, after: BufferAllocator, size: int) -> bool {
        &&& after.base() == self.base()
        &&& after.used() == self.next_start() + size - self.base()
    }

    /// The allocator after it has handed out a buffer of `size` bytes.
    pub closed spec fn advanced(self, size: int) -> BufferAllocator {
        BufferAllocator {
            base: self.base,
            next_buf: (self.next_start() + size - self.base()) as u16,
        }
    }

    /// The allocator after it has handed out buffers of these sizes in turn.
    pub open spec fn after(self, sizes: Seq<u16>) -> BufferAllocator
        decreases sizes.len(),
    {
        if sizes.len() == 0 {
            self
        } else {
            self.after(sizes.drop_last()).advanced(sizes.last() as int)
        }
    }

    /// Whether each of these requests, made in turn, is granted.
    pub open spec fn all_fit(self, sizes: Seq<u16>) -> bool
        decreases sizes.len(),
    {
        sizes.len() > 0 ==> {
            &&& self.all_fit(sizes.drop_last())
            &&& self.after(sizes.drop_last()).fits(sizes.last() as int)
        }
    }

    /// Address of the buffer that request `i` of `sizes` is granted.
    pub open spec fn granted(self, sizes: Seq<u16>, i: int) -> int {
        self.after(sizes.take(i)).next_start()
    }

    /// An allocator over the region that starts at `base`, with nothing
    /// handed out.
    pub fn new(base: usize) -> (allocator: Self)
        requires
            base + BUFFER_SIZE <= usize::MAX,
        ensures
            allocator.wf(),
            allocator.base() == base,
            allocator.used() == 0,
    {
        BufferAllocator { base, next_buf: 0 }
    }

    pub fn base_address(&self) -> (base: usize)
        ensures
            base == self.base(),
            self.wf(),
    {
        proof {
            use_type_invariant(self);
        }
        self.base
    }

    /// Hands out the next `size` bytes, starting at a multiple of four.
    /// Fails, and changes nothing, when the aligned start or the end of the
    /// buffer would leave the region.
    pub fn allocate_buffer(&mut self, size: u16) -> (result: Result<usize, UsbError>)
        requires
            size % 2 == 0,
        ensures
            final(self).wf(),
            old(self).fits(size as int) ==> {
                &&& result == Ok::<usize, UsbError>(old(self).next_start() as usize)
                &&& *final(self) == old(self).advanced(size as int)
                &&& old(self).grown_by(*final(self), size as int)
            },
            !old(self).fits(size as int) ==> result == Err::<usize, UsbError>(
                UsbError::EndpointMemoryOverflow,
            ) && *final(self) == *old(self),
            result is Ok ==> {
                &&& result->Ok_0 % 4 == 0
                &&& old(self).base() + old(self).used() <= result->Ok_0
                &&& result->Ok_0 + size == final(self).base() + final(self).used()
                &&& final(self).base() + final(self).used() <= old(self).limit()
                &&& final(self).base() == old(self).base()
            },
    {
        proof {
            use_type_invariant(&*self);
        }
        let limit: usize = self.base + BUFFER_SIZE;
        let start: usize = self.base + self.next_buf as usize;
        let rem: usize = start % 4;
        let pad: usize = if rem == 0 {
            0
        } else {
            4 - rem
        };
        if pad >= limit - start {
            return Err(UsbError::EndpointMemoryOverflow);
        }
        let aligned: usize = start + pad;
        if size as usize > limit - aligned {
            return Err(UsbError::EndpointMemoryOverflow);
        }
        self.next_buf = (aligned + size as usize - self.base) as u16;
        Ok(aligned)
    }
}

/// Rounding up to a multiple of four gives a multiple of four, moves an
/// address up by less than four, and leaves a multiple of four alone.
pub proof fn lemma_align4(addr: int)
    ensures
        align4(addr) % 4 == 0,
        addr <= align4(addr) < addr + 4,
        addr % 4 == 0 ==> align4(addr) == addr,
{
}

/// A granted request leaves the allocator well formed, leaves its region
/// where it was, and moves the used part up to the end of the new buffer,
/// which starts at a multiple of four at or above what was used before.
pub proof fn lemma_advanced(a: BufferAllocator, size: int)
    requires
        a.wf(),
        0 <= size,
        a.fits(size),
    ensures
        a.advanced(size).wf(),
        a.grown_by(a.advanced(size), size),
        a.advanced(size).base() == a.base(),
        a.base() + a.used() <= a.next_start(),
        a.next_start() % 4 == 0,
        a.advanced(size).base() + a.advanced(size).used() == a.next_start() + size,
{
    lemma_align4(a.base() + a.used());
}

/// A run of granted requests leaves the allocator well formed, over the same
/// region, with no less of it used than before.
pub proof fn lemma_after(a: BufferAllocator, sizes: Seq<u16>)
    requires
        a.wf(),
        a.all_fit(sizes),
    ensures
        a.after(sizes).wf(),
        a.after(sizes).base() == a.base(),
        a.used() <= a.after(sizes).used(),
    decreases sizes.len(),
{
    if sizes.len() > 0 {
        let front = a.after(sizes.drop_last());
        lemma_after(a, sizes.drop_last());
        lemma_advanced(front, sizes.last() as int);
        assert(a.after(sizes) == front.advanced(sizes.last() as int));
    }
}

/// Every prefix of a run of granted requests is itself a run of granted
/// requests, and leaves no more of the region used than the whole run.
pub proof fn lemma_prefix(a: BufferAllocator, sizes: Seq<u16>, n: int)
    requires
        a.wf(),
        a.all_fit(sizes),
        0 <= n <= sizes.len(),
    ensures
        a.all_fit(sizes.take(n)),
        a.after(sizes.take(n)).wf(),
        a.after(sizes.take(n)).base() == a.base(),
        a.after(sizes.take(n)).used() <= a.after(sizes).used(),
    decreases sizes.len(),
{
    if n == sizes.len() {
        assert(sizes.take(n) =~= sizes);
        lemma_after(a, sizes);
    } else {
        let front = sizes.drop_last();
        lemma_after(a, front);
        lemma_advanced(a.after(front), sizes.last() as int);
        assert(a.after(sizes) == a.after(front).advanced(sizes.last() as int));
        assert(front.take(n) =~= sizes.take(n));
        lemma_prefix(a, front, n);
    }
}

/// The request that follows a prefix of a run of granted requests is
/// granted, and the allocator moves on by it.
pub proof fn lemma_step(a: BufferAllocator, sizes: Seq<u16>, n: int)
    requires
        a.wf(),
        a.all_fit(sizes),
        0 <= n < sizes.len(),
    ensures
        a.after(sizes.take(n)).wf(),
        a.after(sizes.take(n)).fits(sizes[n] as int),
        a.after(sizes.take(n + 1)) == a.after(sizes.take(n)).advanced(sizes[n] as int),
{
    let upto = sizes.take(n + 1);
    lemma_prefix(a, sizes, n + 1);
    lemma_prefix(a, sizes, n);
    assert(upto.drop_last() =~= sizes.take(n));
    assert(upto.last() == sizes[n]);
}

/// Buffers never overlap and never leave the region: of any two requests
/// that were granted in one run, the earlier buffer ends at or below the
/// start of the later one, the earlier one starts at or above the region's
/// base, and the later one ends at or below the region's limit. Both start
/// at a multiple of four.
pub proof fn lemma_buffers_disjoint(a: BufferAllocator, sizes: Seq<u16>, i: int, j: int)
    requires
        a.wf(),
        a.all_fit(sizes),
        0 <= i < j < sizes.len(),
    ensures
        a.base() <= a.granted(sizes, i),
        a.granted(sizes, i) + sizes[i] <= a.granted(sizes, j),
        a.granted(sizes, j) + sizes[j] <= a.limit(),
        a.granted(sizes, i) % 4 == 0,
        a.granted(sizes, j) % 4 == 0,
{
    let before_i = a.after(sizes.take(i));
    let after_i = a.after(sizes.take(i + 1));
    let before_j = a.after(sizes.take(j));
    lemma_step(a, sizes, i);
    lemma_step(a, sizes, j);
    lemma_prefix(a, sizes, i);
    lemma_prefix(a, sizes, j);
    lemma_advanced(before_i, sizes[i] as int);
    lemma_advanced(before_j, sizes[j] as int);
    assert(a.granted(sizes, i) + sizes[i] == a.base() + after_i.used());
    // What is used after request i is still used when request j is made.
    assert(after_i.used() <= before_j.used()) by {
        let upto_j = sizes.take(j);
        assert(upto_j.take(i + 1) =~= sizes.take(i + 1));
        lemma_prefix(a, upto_j, i + 1);
    }
}

} // verus!
