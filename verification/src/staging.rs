//! The staged-transfer primitive, modeled over byte contents: host-visible
//! writes, recorded buffer-copy regions, and the row-pitch layout of texture
//! staging buffers.

use vstd::prelude::*;
use vstd::pervasive::VecAdditionalExecFns;

verus! {

/// Write caller bytes into a mapped host-visible buffer at `offset`, as a
/// memory-mapped update does: the addressed range takes the new bytes, every
/// other byte keeps its value, and the buffer's size never changes.
pub fn write_bytes(dst: &mut Vec<u8>, offset: usize, data: &[u8])
    requires
        offset + data@.len() <= old(dst)@.len(),
    ensures
        final(dst)@.len() == old(dst)@.len(),
        forall|i: int| 0 <= i < offset ==> final(dst)@[i] == old(dst)@[i],
        forall|i: int| 0 <= i < data@.len() ==> final(dst)@[offset + i] == data@[i],
        forall|i: int| offset + data@.len() <= i < old(dst)@.len() ==> final(dst)@[i] == old(dst)@[i],
{
    let ghost dst0 = dst@;
    let total = dst.len();
    let len = data.len();
    let mut k: usize = 0;
    while k < len
        invariant
            len == data@.len(),
            total == dst0.len(),
            offset + len <= total,
            dst@.len() == dst0.len(),
            k <= len,
            forall|i: int| 0 <= i < offset ==> dst@[i] == dst0[i],
            forall|i: int| 0 <= i < k ==> dst@[offset + i] == data@[i],
            forall|i: int| offset + k <= i < dst0.len() ==> dst@[i] == dst0[i],
        decreases len - k,
    {
        dst.set(offset + k, data[k]);
        k = k + 1;
    }
}

/// One recorded buffer-copy region, as a transfer command names it.
pub struct BufferCopy {
    /// Offset of the first byte read from the source buffer.
    pub src_offset: usize,
    /// Offset of the first byte written in the destination buffer.
    pub dst_offset: usize,
    /// Number of bytes copied.
    pub size: usize,
}

/// The single region a staged upload records: the whole payload, from the
/// start of the staging buffer to the start of the destination.
pub fn whole_buffer_copy(size: usize) -> (c: BufferCopy)
    ensures
        c.src_offset == 0,
        c.dst_offset == 0,
        c.size == size,
{
    BufferCopy { src_offset: 0, dst_offset: 0, size }
}

/// Execute one recorded buffer-copy region: the destination range takes the
/// source range's bytes; every destination byte outside the range keeps its
/// value.
pub fn copy_region(src: &Vec<u8>, dst: &mut Vec<u8>, c: &BufferCopy)
    requires
        c.src_offset + c.size <= src@.len(),
        c.dst_offset + c.size <= old(dst)@.len(),
    ensures
        final(dst)@.len() == old(dst)@.len(),
        forall|i: int| 0 <= i < c.size ==> #[trigger] final(dst)@[c.dst_offset + i] == src@[c.src_offset + i],
        forall|i: int| 0 <= i < c.dst_offset ==> final(dst)@[i] == old(dst)@[i],
        forall|i: int| c.dst_offset + c.size <= i < old(dst)@.len() ==> final(dst)@[i] == old(dst)@[i],
{
    let ghost dst0 = dst@;
    let src_total = src.len();
    let dst_total = dst.len();
    let mut k: usize = 0;
    while k < c.size
        invariant
            src_total == src@.len(),
            dst_total == dst0.len(),
            c.src_offset + c.size <= src_total,
            c.dst_offset + c.size <= dst_total,
            dst@.len() == dst0.len(),
            k <= c.size,
            forall|i: int| 0 <= i < k ==> #[trigger] dst@[c.dst_offset + i] == src@[c.src_offset + i],
            forall|i: int| 0 <= i < c.dst_offset ==> dst@[i] == dst0[i],
            forall|i: int| c.dst_offset + k <= i < dst0.len() ==> dst@[i] == dst0[i],
        decreases c.size - k,
    {
        dst.set(c.dst_offset + k, src[c.src_offset + k]);
        k = k + 1;
    }
}

/// The staged-transfer path for one payload: fill a host-visible staging
/// buffer with the caller's bytes, allocate a device-local destination of
/// the same size, and replay the recorded staging-to-destination copy. The
/// returned destination contents equal the caller's bytes exactly; the
/// synchronous wait that bounds the staging buffer's lifetime is the
/// caller's device concern.
pub fn staged_upload(data: &[u8]) -> (device_local: Vec<u8>)
    ensures
        device_local@ == data@,
{
    let len = data.len();
    let mut staging: Vec<u8> = vec![0u8; len];
    write_bytes(&mut staging, 0, data);
    let mut device_local: Vec<u8> = vec![0u8; len];
    let copy = whole_buffer_copy(len);
    copy_region(&staging, &mut device_local, &copy);
    proof {
        assert(device_local@ =~= data@);
    }
    device_local
}

/// Read a range back from a buffer, as a host-visible mirror does in a test
/// harness.
pub fn read_back(buf: &Vec<u8>, offset: usize, len: usize) -> (r: Vec<u8>)
    requires
        offset + len <= buf@.len(),
    ensures
        r@ == buf@.subrange(offset as int, offset + len),
{
    let total = buf.len();
    let mut r: Vec<u8> = Vec::new();
    let mut k: usize = 0;
    while k < len
        invariant
            total == buf@.len(),
            offset + len <= total,
            k <= len,
            r@.len() == k,
            forall|i: int| 0 <= i < k ==> r@[i] == buf@[offset + i],
        decreases len - k,
    {
        r.push(buf[offset + k]);
        k = k + 1;
    }
    proof {
        assert(r@ =~= buf@.subrange(offset as int, offset + len));
    }
    r
}

/// Law: data written through the staged-transfer path and later read back in
/// full equals the original byte sequence — the destination holds exactly
/// the caller's bytes, and a whole-buffer read-back reproduces them.
pub proof fn lemma_staged_transfer_round_trip(data: Seq<u8>, device_local: Seq<u8>)
    requires
        device_local == data,
    ensures
        device_local.subrange(0, device_local.len() as int) == data,
{
    assert(device_local.subrange(0, device_local.len() as int) =~= data);
}

} // verus!
