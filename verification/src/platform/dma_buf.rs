//! DMA-BUF synchronization: the access rights and flags passed to the kernel, and what
//! the kernel's answers mean.
use vstd::prelude::*;
use core::ops::{BitOr, BitOrAssign};
use crate::platform::errno::Errno;
use crate::sys::errno::EBADF;

verus! {

/// The ioctl type of the DMA-BUF interface (`'b'`).
pub const DMA_BUF_BASE: u8 = 0x62;

/// The DMA-BUF sync flag for the start of a CPU access.
pub const SYNC_START: u64 = 0;
/// The DMA-BUF sync flag for the end of a CPU access.
pub const SYNC_END: u64 = 4;
/// The DMA-BUF sync flag for reading.
pub const SYNC_READ: u64 = 1;
/// The DMA-BUF sync flag for writing.
pub const SYNC_WRITE: u64 = 2;

/// The flags of a DMA-BUF sync: the start or end flag, with the read and write flags set
/// as requested.
pub open spec fn access_flags(end: bool, read: bool, write: bool) -> u64 {
    ((if end { 4u64 } else { 0u64 }) + (if read { 1u64 } else { 0u64 }) + (if write { 2u64 } else {
        0u64
    })) as u64
}

/// The flags for beginning a CPU access to a DMA buffer with the given rights.
pub fn dma_buf_access_begin_flags(read: bool, write: bool) -> (r: u64)
    ensures
        r == access_flags(false, read, write),
{
    let mut flags = SYNC_START;
    if read {
        flags = flags | SYNC_READ;
    }
    if write {
        flags = flags | SYNC_WRITE;
    }
    proof {
        assert((0u64 | 1u64 == 1u64) && (0u64 | 2u64 == 2u64) && (1u64 | 2u64 == 3u64)) by (bit_vector);
    }
    flags
}

/// The flags for ending a CPU access to a DMA buffer with the given rights.
pub fn dma_buf_access_end_flags(read: bool, write: bool) -> (r: u64)
    ensures
        r == access_flags(true, read, write),
{
    let mut flags = SYNC_END;
    if read {
        flags = flags | SYNC_READ;
    }
    if write {
        flags = flags | SYNC_WRITE;
    }
    proof {
        assert((4u64 | 1u64 == 5u64) && (4u64 | 2u64 == 6u64) && (5u64 | 2u64 == 7u64)) by (bit_vector);
    }
    flags
}

/// The rights of a CPU access to a DMA buffer.
#[derive(Debug, Clone, Copy, PartialEq, Eq, Structural, PartialOrd, Ord, Hash)]
pub enum SyncRights {
    /// The mapped DMA buffer will be read by the client through the CPU map.
    Read,
    /// The mapped DMA buffer will be written by the client through the CPU map.
    Write,
    /// The mapped DMA buffer will be read and written by the client through the CPU map.
    ReadWrite,
}

/// The bits that stand for some rights: `0b001` to read, `0b010` to write.
pub open spec fn rights_bits(rights: SyncRights) -> u8 {
    match rights {
        SyncRights::Read => 1,
        SyncRights::Write => 2,
        SyncRights::ReadWrite => 3,
    }
}

/// The rights that the bits `0b001`, `0b010` or `0b011` stand for.
pub open spec fn rights_of_bits(bits: u8) -> Option<SyncRights> {
    if bits == 1 {
        Some(SyncRights::Read)
    } else if bits == 2 {
        Some(SyncRights::Write)
    } else if bits == 3 {
        Some(SyncRights::ReadWrite)
    } else {
        None
    }
}

/// Whether some rights permit reading.
pub open spec fn reads(rights: SyncRights) -> bool {
    rights is Read || rights is ReadWrite
}

/// Whether some rights permit writing.
pub open spec fn writes(rights: SyncRights) -> bool {
    rights is Write || rights is ReadWrite
}

/// The rights that permit reading and writing as either of two rights does.
pub open spec fn rights_union(a: SyncRights, b: SyncRights) -> SyncRights {
    if (reads(a) || reads(b)) && (writes(a) || writes(b)) {
        SyncRights::ReadWrite
    } else if reads(a) || reads(b) {
        SyncRights::Read
    } else {
        SyncRights::Write
    }
}

impl SyncRights {
    /// Create some [`SyncRights`] from a `read` and a `write` flag.
    ///
    /// Returns `None` if neither is set.
    pub fn new(read: bool, write: bool) -> (r: Option<SyncRights>)
        ensures
            r is None <==> (!read && !write),
            r matches Some(rights) ==> reads(rights) == read && writes(rights) == write,
    {
        let read_bits: u8 = if read { 1 } else { 0 };
        let write_bits: u8 = if write { 2 } else { 0 };
        proof {
            assert((0u8 | 0u8 == 0u8) && (1u8 | 0u8 == 1u8) && (0u8 | 2u8 == 2u8) && (1u8 | 2u8 == 3u8)) by (bit_vector);
        }
        SyncRights::from_bits(read_bits | write_bits)
    }

    /// Create some [`SyncRights`] from their raw bits.
    ///
    /// Returns `None` for every value but `0b001`, `0b010` and `0b011`.
    pub fn from_bits(bits: u8) -> (r: Option<SyncRights>)
        ensures
            r == rights_of_bits(bits),
    {
        match bits {
            1 => Some(SyncRights::Read),
            2 => Some(SyncRights::Write),
            3 => Some(SyncRights::ReadWrite),
            _ => None,
        }
    }

    /// The raw bits of these rights.
    pub fn bits(self) -> (r: u8)
        ensures
            r == rights_bits(self),
    {
        match self {
            SyncRights::Read => 1,
            SyncRights::Write => 2,
            SyncRights::ReadWrite => 3,
        }
    }

    /// Returns whether these rights permit reading.
    pub fn can_read(self) -> (r: bool)
        ensures
            r == reads(self),
    {
        matches!(self, SyncRights::Read | SyncRights::ReadWrite)
    }

    /// Returns whether these rights permit writing.
    pub fn can_write(self) -> (r: bool)
        ensures
            r == writes(self),
    {
        matches!(self, SyncRights::Write | SyncRights::ReadWrite)
    }

    /// The outcome of the ioctl that imports a sync file into a DMA buffer: a
    /// nonnegative result is a success, a negative one failed with `last`, the thread's
    /// last error number.
    pub fn import_sync_status(result: i32, last: Errno) -> (r: Result<(), Errno>)
        ensures
            result >= 0 ==> r is Ok,
            result < 0 ==> r == Err::<(), Errno>(last),
    {
        if result >= 0 {
            Ok(())
        } else {
            Err(last)
        }
    }

    /// The outcome of the ioctl that exports a sync file from a DMA buffer: on success
    /// the kernel wrote the exported file descriptor `fd`, which must not be `-1`
    /// (that is a bad file descriptor); a negative result failed with `last`.
    pub fn export_sync_status(result: i32, fd: i32, last: Errno) -> (r: Result<i32, Errno>)
        ensures
            result >= 0 && fd != -1 ==> r == Ok::<i32, Errno>(fd),
            result >= 0 && fd == -1 ==> r == Err::<i32, Errno>(Errno(EBADF)),
            result < 0 ==> r == Err::<i32, Errno>(last),
    {
        if result >= 0 {
            if fd == -1 {
                Err(Errno(EBADF))
            } else {
                Ok(fd)
            }
        } else {
            Err(last)
        }
    }
}

/// The bits of some rights stand for those rights, and `new` gives the rights that
/// permit exactly what was asked.
pub proof fn lemma_rights_bits_roundtrip(rights: SyncRights, read: bool, write: bool)
    ensures
        rights_of_bits(rights_bits(rights)) == Some(rights),
        (read || write) ==> (rights_of_bits(
            ((if read { 1u8 } else { 0u8 }) + (if write { 2u8 } else { 0u8 })) as u8,
        ) matches Some(r) && reads(r) == read && writes(r) == write),
{
}

impl BitOr for SyncRights {
    type Output = SyncRights;

    /// The union of two rights. The union of two rights is always a right.
    fn bitor(self, rhs: Self) -> (r: SyncRights)
        ensures
            r == rights_union(self, rhs),
    {
        let bits = self.bits() | rhs.bits();
        proof {
            assert((1u8 | 1u8 == 1u8) && (1u8 | 2u8 == 3u8) && (1u8 | 3u8 == 3u8) && (2u8 | 1u8 == 3u8) && (2u8 | 2u8 == 2u8) && (2u8 | 3u8 == 3u8) && (3u8 | 1u8 == 3u8) && (3u8 | 2u8 == 3u8) && (3u8 | 3u8 == 3u8)) by (bit_vector);
        }
        SyncRights::from_bits(bits).unwrap()
    }
}

impl vstd::std_specs::ops::BitOrSpecImpl for SyncRights {
    open spec fn obeys_bitor_spec() -> bool {
        true
    }

    open spec fn bitor_req(self, rhs: SyncRights) -> bool {
        true
    }

    open spec fn bitor_spec(self, rhs: SyncRights) -> SyncRights {
        rights_union(self, rhs)
    }
}

/// The options of a CPU synchronization of a DMA buffer.
#[derive(Debug, Clone, Copy, PartialEq, Eq, Structural, PartialOrd, Ord, Hash)]
pub enum SyncOptions {
    /// We're starting a CPU synchronization operation.
    Start(SyncRights),
    /// We're ending a CPU synchronization operation.
    End(SyncRights),
}

/// The rights that some options carry.
pub open spec fn options_rights(options: SyncOptions) -> SyncRights {
    match options {
        SyncOptions::Start(rights) | SyncOptions::End(rights) => rights,
    }
}

/// The flags of some options for the `dma_buf_sync` ioctl: the end flag (`0b100`) when
/// ending, together with the bits of the rights.
pub open spec fn options_flags(options: SyncOptions) -> u8 {
    match options {
        SyncOptions::Start(rights) => rights_bits(rights),
        SyncOptions::End(rights) => (4 + rights_bits(rights)) as u8,
    }
}

impl SyncOptions {
    /// The flags of these options for a `dma_buf_sync` ioctl.
    pub fn to_flags(self) -> (r: u8)
        ensures
            r == options_flags(self),
    {
        let kind: u8 = match self {
            SyncOptions::Start(..) => 0,
            SyncOptions::End(..) => 4,
        };
        let rights = match self {
            SyncOptions::Start(rights) | SyncOptions::End(rights) => rights.bits(),
        };
        proof {
            assert((0u8 | 1u8 == 1u8) && (0u8 | 2u8 == 2u8) && (0u8 | 3u8 == 3u8) && (4u8 | 1u8 == 5u8) && (4u8 | 2u8 == 6u8) && (4u8 | 3u8 == 7u8)) by (bit_vector);
        }
        kind | rights
    }

    /// The outcome of the `dma_buf_sync` ioctl: a nonnegative result is a success, a
    /// negative one failed with `last`, the thread's last error number.
    pub fn sync_status(result: i32, last: Errno) -> (r: Result<(), Errno>)
        ensures
            result >= 0 ==> r is Ok,
            result < 0 ==> r == Err::<(), Errno>(last),
    {
        if result >= 0 {
            Ok(())
        } else {
            Err(last)
        }
    }
}

impl BitOr for SyncOptions {
    type Output = SyncOptions;

    /// Combine two options: the union of their rights, starting only when both start.
    fn bitor(self, rhs: Self) -> (r: SyncOptions)
        ensures
            r == options_union(self, rhs),
    {
        let rights = match (self, rhs) {
            (SyncOptions::Start(lhs) | SyncOptions::End(lhs), SyncOptions::Start(rhs) | SyncOptions::End(rhs)) => lhs | rhs,
        };
        match (self, rhs) {
            (SyncOptions::Start(..), SyncOptions::Start(..)) => SyncOptions::Start(rights),
            _ => SyncOptions::End(rights),
        }
    }
}

impl BitOr<SyncRights> for SyncOptions {
    type Output = SyncOptions;

    /// Add rights to these options, keeping whether they start or end.
    fn bitor(self, rhs: SyncRights) -> (r: SyncOptions)
        ensures
            r == options_with_rights(self, rhs),
    {
        match self {
            SyncOptions::Start(lhs) => SyncOptions::Start(lhs | rhs),
            SyncOptions::End(lhs) => SyncOptions::End(lhs | rhs),
        }
    }
}

impl BitOrAssign for SyncRights {
    /// Add the rights of `rhs` to these rights.
    fn bitor_assign(&mut self, rhs: Self)
        ensures
            *final(self) == rights_union(*old(self), rhs),
    {
        *self = *self | rhs;
    }
}

impl BitOrAssign for SyncOptions {
    /// Combine `rhs` into these options.
    fn bitor_assign(&mut self, rhs: Self)
        ensures
            *final(self) == options_union(*old(self), rhs),
    {
        *self = *self | rhs;
    }
}

impl BitOrAssign<SyncRights> for SyncOptions {
    /// Add rights to these options.
    fn bitor_assign(&mut self, rhs: SyncRights)
        ensures
            *final(self) == options_with_rights(*old(self), rhs),
    {
        *self = *self | rhs;
    }
}

/// Combining two options.
pub open spec fn options_union(a: SyncOptions, b: SyncOptions) -> SyncOptions {
    if a is Start && b is Start {
        SyncOptions::Start(rights_union(options_rights(a), options_rights(b)))
    } else {
        SyncOptions::End(rights_union(options_rights(a), options_rights(b)))
    }
}

/// Adding rights to options.
pub open spec fn options_with_rights(a: SyncOptions, rights: SyncRights) -> SyncOptions {
    match a {
        SyncOptions::Start(lhs) => SyncOptions::Start(rights_union(lhs, rights)),
        SyncOptions::End(lhs) => SyncOptions::End(rights_union(lhs, rights)),
    }
}

impl vstd::std_specs::ops::BitOrSpecImpl for SyncOptions {
    open spec fn obeys_bitor_spec() -> bool {
        true
    }

    open spec fn bitor_req(self, rhs: SyncOptions) -> bool {
        true
    }

    open spec fn bitor_spec(self, rhs: SyncOptions) -> SyncOptions {
        options_union(self, rhs)
    }
}

impl vstd::std_specs::ops::BitOrSpecImpl<SyncRights> for SyncOptions {
    open spec fn obeys_bitor_spec() -> bool {
        true
    }

    open spec fn bitor_req(self, rhs: SyncRights) -> bool {
        true
    }

    open spec fn bitor_spec(self, rhs: SyncRights) -> SyncOptions {
        options_with_rights(self, rhs)
    }
}

/// The flags of a DMA-BUF CPU access say exactly what was asked: the read bit is set
/// exactly when reading, the write bit exactly when writing, the end bit exactly when
/// ending, and no other bit; ending differs from beginning only by the end bit.
pub proof fn lemma_access_flags_bits(end: bool, read: bool, write: bool)
    ensures
        (access_flags(end, read, write) & SYNC_READ != 0) == read,
        (access_flags(end, read, write) & SYNC_WRITE != 0) == write,
        (access_flags(end, read, write) & SYNC_END != 0) == end,
        access_flags(end, read, write) < 8,
        access_flags(true, read, write) == access_flags(false, read, write) | SYNC_END,
{
    assert(forall|x: u64|
        x < 8 ==> ((x & 1 != 0) == (x % 2 == 1)) && ((x & 2 != 0) == ((x / 2) % 2 == 1)) && ((x
            & 4 != 0) == (x >= 4)) && (x < 4 ==> x | 4 == x + 4)) by (bit_vector);
}

/// The ioctl flags of sync options say exactly what they carry: the end bit is set exactly
/// when ending, the read bit exactly when the rights permit reading, and the write bit
/// exactly when they permit writing.
pub proof fn lemma_options_flags_bits(options: SyncOptions)
    ensures
        (options_flags(options) & 4 != 0) == (options is End),
        (options_flags(options) & 1 != 0) == reads(options_rights(options)),
        (options_flags(options) & 2 != 0) == writes(options_rights(options)),
        options_flags(options) < 8,
{
    assert(forall|x: u8|
        x < 8 ==> ((x & 1 != 0) == (x % 2 == 1)) && ((x & 2 != 0) == ((x / 2) % 2 == 1)) && ((x
            & 4 != 0) == (x >= 4))) by (bit_vector);
}

/// Combining rights permits reading when either permits it and writing when either does,
/// whichever order they come in.
pub proof fn lemma_rights_union(a: SyncRights, b: SyncRights)
    ensures
        reads(rights_union(a, b)) == (reads(a) || reads(b)),
        writes(rights_union(a, b)) == (writes(a) || writes(b)),
        rights_union(a, b) == rights_union(b, a),
{
}

/// Combining two options starts exactly when both start (it ends when either ends), it
/// carries the union of their rights, and the order of the two does not matter.
pub proof fn lemma_options_union(a: SyncOptions, b: SyncOptions)
    ensures
        options_union(a, b) is Start <==> (a is Start && b is Start),
        options_union(a, b) is End <==> (a is End || b is End),
        reads(options_rights(options_union(a, b))) == (reads(options_rights(a)) || reads(
            options_rights(b),
        )),
        writes(options_rights(options_union(a, b))) == (writes(options_rights(a)) || writes(
            options_rights(b),
        )),
        options_union(a, b) == options_union(b, a),
{
}

/// Adding rights keeps whether the options start or end, and adds the rights.
pub proof fn lemma_options_with_rights(a: SyncOptions, rights: SyncRights)
    ensures
        options_with_rights(a, rights) is Start <==> a is Start,
        reads(options_rights(options_with_rights(a, rights))) == (reads(options_rights(a))
            || reads(rights)),
        writes(options_rights(options_with_rights(a, rights))) == (writes(options_rights(a))
            || writes(rights)),
{
}

} // verus!
