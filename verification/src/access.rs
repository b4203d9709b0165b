//! Which permissions a device is opened with, decided from the open flags
//! that the input-device context asks for.

use vstd::prelude::*;

verus! {

/// The permissions to open a device with.
#[derive(Clone, Copy, Debug, PartialEq, Eq, Structural)]
pub struct AccessMode {
    pub read: bool,
    pub write: bool,
}

/// One platform's encoding of the access mode inside its open flags: the
/// three access-mode constants and the mask that cuts the access mode out of
/// a set of flags.
#[derive(Clone, Copy, Debug, PartialEq, Eq, Structural)]
pub struct AccessFlags {
    pub read_only: i32,
    pub write_only: i32,
    pub read_write: i32,
    pub mask: i32,
}

impl AccessFlags {
    /// The access mode that `flags` asks for: the bits of `flags` under the
    /// mask.
    pub open spec fn requested_mode(self, flags: i32) -> i32 {
        flags & self.mask
    }

    /// An encoding is well formed when its three constants differ from each
    /// other and each lies under the mask, so that a request for one of them
    /// is told from a request for another.
    pub open spec fn well_formed(self) -> bool {
        &&& self.read_only != self.write_only
        &&& self.read_only != self.read_write
        &&& self.write_only != self.read_write
        &&& self.read_only & self.mask == self.read_only
        &&& self.write_only & self.mask == self.write_only
        &&& self.read_write & self.mask == self.read_write
    }

    /// Reading is granted to read-only and to read-write requests.
    pub open spec fn grants_read(self, flags: i32) -> bool {
        self.requested_mode(flags) == self.read_only || self.requested_mode(flags)
            == self.read_write
    }

    /// Writing is granted to write-only and to read-write requests.
    pub open spec fn grants_write(self, flags: i32) -> bool {
        self.requested_mode(flags) == self.write_only || self.requested_mode(flags)
            == self.read_write
    }

    /// The permissions that `flags` asks for under this encoding.
    pub open spec fn decoded(self, flags: i32) -> AccessMode {
        AccessMode { read: self.grants_read(flags), write: self.grants_write(flags) }
    }

    /// Decodes the permissions that `flags` asks for under this encoding.
    ///
    /// The request is decided by its access mode, compared as a whole with
    /// each constant. Asking whether `flags` shares a bit with a constant
    /// would not do: where the read-only constant is zero it shares a bit
    /// with nothing, and a read-only request would be granted no permission.
    pub fn decode(&self, flags: i32) -> (mode: AccessMode)
        ensures
            mode == self.decoded(flags),
    {
        let requested: i32 = flags & self.mask;
        let both = requested == self.read_write;
        AccessMode {
            read: requested == self.read_only || both,
            write: requested == self.write_only || both,
        }
    }
}

/// The four constants `libc::O_RDONLY`, `libc::O_WRONLY`, `libc::O_RDWR` and
/// `libc::O_ACCMODE` of the platform this crate is built for, gathered into
/// one encoding.
///
/// Their values differ between platforms and are not claimed. What is
/// claimed holds on every platform that has all four: the three access-mode
/// constants differ from each other, each lies under the mask, and the
/// write-only constant, the read-write constant and the mask are not zero.
/// The read-only constant is zero on most platforms.
#[verifier::external_body]
fn platform_encoding() -> (encoding: AccessFlags)
    ensures
        encoding.well_formed(),
        encoding.write_only != 0,
        encoding.read_write != 0,
        encoding.mask != 0,
{
    AccessFlags {
        read_only: libc::O_RDONLY,
        write_only: libc::O_WRONLY,
        read_write: libc::O_RDWR,
        mask: libc::O_ACCMODE,
    }
}

/// Decodes the permissions that `flags` asks for on the platform this crate
/// is built for, and hands out the encoding they were decoded under.
///
/// The values of the platform's constants are not known to the proof, so
/// the result is stated over the encoding handed out: it is well formed,
/// and the permissions are the decoding of `flags` under it. A request for
/// one of its three constants, with whatever bits outside its mask, is
/// therefore granted exactly the permissions of that constant.
pub fn requested_access(flags: i32) -> (out: (AccessFlags, AccessMode))
    ensures
        out.0.well_formed(),
        out.1 == out.0.decoded(flags),
        out.0.write_only != 0,
        out.0.read_write != 0,
        out.0.mask != 0,
{
    let platform = platform_encoding();
    let mode = platform.decode(flags);
    (platform, mode)
}

/// Under a well-formed encoding each kind of request is granted exactly its
/// own permissions, whatever other flag bits come with it: a read-only
/// request may read, a write-only request may write, and a read-write
/// request may do both.
pub proof fn lemma_each_request_gets_its_mode(encoding: AccessFlags, other: i32)
    requires
        encoding.well_formed(),
        other & encoding.mask == 0,
    ensures
        encoding.decoded(encoding.read_only | other) == (AccessMode { read: true, write: false }),
        encoding.decoded(encoding.write_only | other) == (AccessMode {
            read: false,
            write: true,
        }),
        encoding.decoded(encoding.read_write | other) == (AccessMode { read: true, write: true }),
{
    let mask: i32 = encoding.mask;
    let read_only: i32 = encoding.read_only;
    let write_only: i32 = encoding.write_only;
    let read_write: i32 = encoding.read_write;
    assert((read_only | other) & mask == read_only) by (bit_vector)
        requires
            read_only & mask == read_only,
            other & mask == 0,
    ;
    assert((write_only | other) & mask == write_only) by (bit_vector)
        requires
            write_only & mask == write_only,
            other & mask == 0,
    ;
    assert((read_write | other) & mask == read_write) by (bit_vector)
        requires
            read_write & mask == read_write,
            other & mask == 0,
    ;
}

/// Flag bits outside the mask do not change what a request is granted.
pub proof fn lemma_other_bits_keep_the_mode(encoding: AccessFlags, flags: i32, other: i32)
    requires
        other & encoding.mask == 0,
    ensures
        encoding.decoded(flags | other) == encoding.decoded(flags),
{
    let mask: i32 = encoding.mask;
    assert((flags | other) & mask == flags & mask) by (bit_vector)
        requires
            other & mask == 0,
    ;
}

/// A request whose access mode is none of the three constants is granted
/// nothing.
pub proof fn lemma_unknown_mode_gets_nothing(encoding: AccessFlags, flags: i32)
    requires
        encoding.requested_mode(flags) != encoding.read_only,
        encoding.requested_mode(flags) != encoding.write_only,
        encoding.requested_mode(flags) != encoding.read_write,
    ensures
        encoding.decoded(flags) == (AccessMode { read: false, write: false }),
{
}

/// Where the read-only constant is zero, a request with no bit under the
/// mask is a read-only request: it may read and may not write.
pub proof fn lemma_zero_read_only_request_reads(encoding: AccessFlags, flags: i32)
    requires
        encoding.read_only == 0,
        encoding.write_only != 0,
        encoding.read_write != 0,
        flags & encoding.mask == 0,
    ensures
        encoding.decoded(flags) == (AccessMode { read: true, write: false }),
{
}

} // verus!
