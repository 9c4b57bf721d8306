//! The device handle provider: how the device manager's open requests become
//! file-open options.
use vstd::prelude::*;

verus! {

/// `open(2)` access mode: read only (Linux).
pub const O_RDONLY: i32 = 0;

/// `open(2)` access mode: write only (Linux).
pub const O_WRONLY: i32 = 1;

/// `open(2)` access mode: read and write (Linux).
pub const O_RDWR: i32 = 2;

/// Mask of the access-mode field of `open(2)` flags (Linux).
pub const O_ACCMODE: i32 = 3;

/// How to open a device file.
#[derive(Clone, Copy, Debug, PartialEq, Eq, Structural)]
pub struct OpenOptions {
    /// Ask for read access.
    pub read: bool,
    /// Ask for write access.
    pub write: bool,
    /// The flags passed on to the OS as they came.
    pub custom_flags: i32,
}

/// Whether any bit of `mask` is set in `flags`.
pub open spec fn has_bits(flags: i32, mask: i32) -> bool {
    flags & mask != 0
}

/// Whether the flags ask for read-only access. Read-only is the zero value of
/// the access-mode field, so it is told by that field, not by a bit.
pub open spec fn is_read_only(flags: i32) -> bool {
    flags & O_ACCMODE == O_RDONLY
}

/// The options for an open request with the given flags: read where read-only
/// is asked for or the read-write bits are set, write where the write-only or
/// the read-write bits are set, each checked on its own.
pub open spec fn options_for(flags: i32) -> OpenOptions {
    OpenOptions {
        read: is_read_only(flags) || has_bits(flags, O_RDWR),
        write: has_bits(flags, O_WRONLY) || has_bits(flags, O_RDWR),
        custom_flags: flags,
    }
}

/// The handle provider that the device manager opens and closes devices through.
pub struct Interface;

impl Interface {
    /// The options to open a device with, for the device manager's flags.
    pub fn open_options(&self, flags: i32) -> (r: OpenOptions)
        ensures
            r == options_for(flags),
    {
        OpenOptions {
            read: (flags & O_ACCMODE == O_RDONLY) || (flags & O_RDWR != 0),
            write: (flags & O_WRONLY != 0) || (flags & O_RDWR != 0),
            custom_flags: flags,
        }
    }
}

} // verus!
