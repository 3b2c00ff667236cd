//! The backing store adapter: a host file seen as a device of fixed-size blocks.
//!
//! The adapter itself holds the guard and the host file. What it decides is
//! here: where a block lies, when a transfer may start, and when it counts as
//! complete.

use vstd::prelude::*;

verus! {

/// Codes that a block transfer hands to the filesystem engine when it fails
/// without having touched the device.
#[derive(Clone, Copy, Debug, PartialEq, Eq, Structural)]
pub enum RawDeviceErrorCode {
    /// The guard of the backing store could not be acquired.
    Locked,
}

impl RawDeviceErrorCode {
    /// The number that stands for this code on the engine's side.
    pub open spec fn spec_code(self) -> int {
        -1
    }

    /// The number that stands for this code on the engine's side.
    pub fn code(self) -> (c: isize)
        ensures
            c == self.spec_code(),
    {
        match self {
            RawDeviceErrorCode::Locked => -1,
        }
    }
}

/// A broken invariant of the device: after one of these the image cannot be
/// trusted and no layer above can go on.
#[derive(Clone, Copy, Debug, PartialEq, Eq, Structural)]
pub enum DeviceFault {
    /// The buffer handed in is not exactly one block long.
    BufferLength,
    /// The byte offset of the block does not fit the host's address range.
    OffsetOverflow,
    /// The host moved fewer or more bytes than one block.
    PartialTransfer,
}

/// What the adapter does once it has tried to take the guard.
#[derive(Clone, Copy, Debug, PartialEq, Eq, Structural)]
pub enum TransferStart {
    /// Give the engine this code and leave the device untouched.
    Refuse(RawDeviceErrorCode),
    /// Move the host file's cursor to this byte offset, then transfer one block.
    Seek(u64),
    /// Stop: an invariant of the device is broken.
    Fault(DeviceFault),
}

/// The byte offset of block `id` on a device of `block_size`-byte blocks.
pub open spec fn spec_block_offset(id: nat, block_size: nat) -> nat {
    id * block_size
}

/// The byte length of an image of `total_blocks` blocks.
pub open spec fn spec_image_byte_size(total_blocks: nat, block_size: nat) -> nat {
    total_blocks * block_size
}

/// The decision at the start of a transfer, as a function of its inputs.
pub open spec fn spec_start_transfer(
    guard_acquired: bool,
    id: usize,
    buffer_len: usize,
    block_size: usize,
) -> TransferStart {
    if !guard_acquired {
        TransferStart::Refuse(RawDeviceErrorCode::Locked)
    } else if buffer_len != block_size {
        TransferStart::Fault(DeviceFault::BufferLength)
    } else if spec_block_offset(id as nat, block_size as nat) > usize::MAX {
        TransferStart::Fault(DeviceFault::OffsetOverflow)
    } else {
        TransferStart::Seek(spec_block_offset(id as nat, block_size as nat) as u64)
    }
}

/// The byte offset of block `id`, or `None` where it exceeds the host's
/// address range.
pub fn block_offset(id: usize, block_size: usize) -> (offset: Option<u64>)
    ensures
        offset == if spec_block_offset(id as nat, block_size as nat) <= usize::MAX {
            Some(spec_block_offset(id as nat, block_size as nat) as u64)
        } else {
            None::<u64>
        },
{
    match id.checked_mul(block_size) {
        Some(bytes) => Some(bytes as u64),
        None => None,
    }
}

/// The byte length of an image of `total_blocks` blocks, or `None` where it
/// does not fit in 64 bits.
pub fn image_byte_size(total_blocks: u32, block_size: usize) -> (size: Option<u64>)
    ensures
        size == if spec_image_byte_size(total_blocks as nat, block_size as nat) <= u64::MAX {
            Some(spec_image_byte_size(total_blocks as nat, block_size as nat) as u64)
        } else {
            None::<u64>
        },
{
    (total_blocks as u64).checked_mul(block_size as u64)
}

/// Decides how a block read or write begins. `guard_acquired` says whether the
/// adapter holds the guard of the host file; without it the engine gets the
/// `Locked` code whatever the other arguments are. With it, the buffer must be
/// exactly one block long and the block's offset must be addressable; then the
/// cursor goes to `id * block_size`.
pub fn start_transfer(guard_acquired: bool, id: usize, buffer_len: usize, block_size: usize) -> (start:
    TransferStart)
    ensures
        start == spec_start_transfer(guard_acquired, id, buffer_len, block_size),
{
    if !guard_acquired {
        return TransferStart::Refuse(RawDeviceErrorCode::Locked);
    }
    if buffer_len != block_size {
        return TransferStart::Fault(DeviceFault::BufferLength);
    }
    match block_offset(id, block_size) {
        Some(offset) => TransferStart::Seek(offset),
        None => TransferStart::Fault(DeviceFault::OffsetOverflow),
    }
}

/// Judges a transfer by the number of bytes that the host moved: one full
/// block is success, anything else a fault.
pub fn finish_transfer(transferred: usize, block_size: usize) -> (end: Result<(), DeviceFault>)
    ensures
        end == if transferred == block_size {
            Ok::<(), DeviceFault>(())
        } else {
            Err::<(), DeviceFault>(DeviceFault::PartialTransfer)
        },
{
    if transferred == block_size {
        Ok(())
    } else {
        Err(DeviceFault::PartialTransfer)
    }
}

/// The value that a block read or write returns to the engine: nothing after
/// a complete transfer, the code's number after a refusal.
pub fn outcome_code(refusal: Option<RawDeviceErrorCode>) -> (code: Option<isize>)
    ensures
        code == match refusal {
            Some(c) => Some(c.spec_code() as isize),
            None => None::<isize>,
        },
{
    match refusal {
        Some(c) => Some(c.code()),
        None => None,
    }
}

/// Blocks lie side by side: a block ends where the next one starts, so two
/// different blocks share no byte.
pub proof fn lemma_blocks_do_not_overlap(first: nat, second: nat, block_size: nat)
    requires
        first < second,
    ensures
        spec_block_offset(first, block_size) + block_size <= spec_block_offset(second, block_size),
{
    assert(first * block_size + block_size <= second * block_size) by (nonlinear_arith)
        requires
            first < second,
    ;
}

/// Every block of an image lies within its byte length, and the last one ends
/// with it.
pub proof fn lemma_block_within_image(id: nat, total_blocks: nat, block_size: nat)
    requires
        id < total_blocks,
    ensures
        spec_block_offset(id, block_size) + block_size <= spec_image_byte_size(
            total_blocks,
            block_size,
        ),
        id + 1 == total_blocks ==> spec_block_offset(id, block_size) + block_size
            == spec_image_byte_size(total_blocks, block_size),
{
    assert(id * block_size + block_size == (id + 1) * block_size) by (nonlinear_arith);
    assert((id + 1) * block_size <= total_blocks * block_size) by (nonlinear_arith)
        requires
            id < total_blocks,
    ;
}

} // verus!
