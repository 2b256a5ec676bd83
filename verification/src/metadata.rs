//! What an archive entry says of its file besides the content: its path, size, access
//! mode and modification time, each as far as the entry's header could be read.

use vstd::prelude::*;

verus! {

/// The header of one archive entry. A field that could not be read is `None`.
pub struct EntryHeader {
    /// The path the entry is stored under, relative to the archive's root.
    pub path: String,
    /// The size of the stored payload in bytes.
    pub size: Option<u64>,
    /// The POSIX mode bits.
    pub mode: Option<u32>,
    /// The modification time, in seconds since the epoch.
    pub mtime: Option<u64>,
}

/// A count of seconds read as a signed number of the same 64 bits: itself where it
/// fits, and 2^64 less where it does not.
pub open spec fn signed_seconds(mtime: u64) -> int {
    if mtime <= i64::MAX {
        mtime as int
    } else {
        mtime - 0x1_0000_0000_0000_0000
    }
}

/// The modification time as the signed count of seconds that file times are set with.
pub fn seconds_of(mtime: u64) -> (r: i64)
    ensures
        r == signed_seconds(mtime),
{
    if mtime <= 0x7FFF_FFFF_FFFF_FFFF {
        mtime as i64
    } else {
        let over: u64 = mtime - 0x8000_0000_0000_0000;
        (over as i64) + i64::MIN
    }
}

/// A count of seconds as a number, if there is one.
pub open spec fn seconds_view(seconds: Option<i64>) -> Option<int> {
    match seconds {
        Some(count) => Some(count as int),
        None => None,
    }
}

impl EntryHeader {
    /// The time to set on the file restored from this entry, if the header has one.
    pub open spec fn spec_restored_mtime(self) -> Option<int> {
        match self.mtime {
            Some(mtime) => Some(signed_seconds(mtime)),
            None => None,
        }
    }

    /// The time to set on the file restored from this entry: the header's modification
    /// time, whole seconds. `None` where the header has none; the file then keeps the
    /// time of its writing.
    pub fn restored_mtime(&self) -> (r: Option<i64>)
        ensures
            seconds_view(r) == self.spec_restored_mtime(),
    {
        match self.mtime {
            Some(mtime) => Some(seconds_of(mtime)),
            None => None,
        }
    }
}

/// A modification time that a signed count can hold comes back as it was captured.
pub proof fn lemma_mtime_survives(mtime: u64)
    requires
        mtime <= i64::MAX,
    ensures
        signed_seconds(mtime) == mtime,
{
}

} // verus!
