//! Mounting and formatting the inactive bank.
//!
//! Every operation re-derives which bank is active from the mount
//! table handed in, never from cached state.  Mounting yields a
//! `MountGuard` that owns the mount for the duration of an operation
//! and gives it back to the kernel afterwards.

use vstd::prelude::*;

use crate::bank::Bank;
use crate::errors::UpdaterError;
use crate::mount_table::{detect, entry_bank_at, no_entry_before, root_entry_at};

verus! {

/// The kernel-side mount handle, opaque to the library.  It holds
/// sys-mount's `UnmountDrop` over the mount; dropping it issues a
/// detached unmount.  The type stays behind this wrapper because its
/// declaration carries the crate's `Unmount` trait bound.
#[verifier::external_body]
pub struct MountHandle {
    guard: sys_mount::UnmountDrop<sys_mount::Mount>,
}

/// The fixed mountpoint of the inactive bank.
pub fn mount_point() -> (r: &'static str)
    ensures
        r@ == "/mnt/other_bank"@,
{
    "/mnt/other_bank"
}

/// Relies on sys-mount: `Mount::builder().fstype("ext4").mount(..)`
/// mounts the device at the target, and `into_unmount_drop` with the
/// detach flag arms a handle whose drop issues a detached unmount.
/// Whether mounting succeeds depends on the machine, so only the error
/// kind is claimed.
#[verifier::external_body]
fn mount_ext4(device: &str, target: &str) -> (r: Result<MountHandle, UpdaterError>)
    ensures
        r is Err ==> (r matches Err(e) && e == UpdaterError::Mount),
{
    match sys_mount::Mount::builder().fstype("ext4").mount(device, target) {
        Ok(m) => Ok(MountHandle {
            guard: sys_mount::Unmount::into_unmount_drop(m, sys_mount::UnmountFlags::DETACH),
        }),
        Err(_) => Err(UpdaterError::Mount),
    }
}

/// Exclusive owner of one active mount of the inactive bank.  Releasing
/// the guard — explicitly or by letting it go out of scope, on success
/// and error paths alike — drops the handle inside, and that handle's
/// owner (sys-mount's `UnmountDrop`) issues a detached unmount: the
/// request is handed to the kernel without waiting for in-flight I/O.
pub struct MountGuard {
    bank: Bank,
    handle: MountHandle,
}

impl MountGuard {
    /// The bank behind the mount.
    pub closed spec fn spec_bank(self) -> Bank {
        self.bank
    }

    /// Returns the mounted bank: the one not booted.
    pub fn other_bank(&self) -> (r: Bank)
        ensures
            r == self.spec_bank(),
    {
        self.bank
    }

    /// Returns the path the bank is mounted at.
    pub fn target_path(&self) -> (r: &'static str)
        ensures
            r@ == "/mnt/other_bank"@,
    {
        "/mnt/other_bank"
    }

    /// Releases the mount.  Consuming the guard drops the handle inside,
    /// which issues the detached unmount exactly once.
    pub fn release(self) {
    }
}

/// Mounts the bank across from the one the mount table names as
/// booted.  The mountpoint directory exists; the caller made sure of
/// it.  On success the returned guard owns the mount and names the
/// mounted bank: the one other than the detected active bank.
pub fn mount_other_bank(table: &str) -> (r: Result<MountGuard, UpdaterError>)
    ensures
        match r {
            Ok(g) => exists|i: int|
                #[trigger] root_entry_at(table@, i) && no_entry_before(table@, i)
                    && entry_bank_at(table@, i) == Some(g.spec_bank().spec_other()),
            Err(e) => (e == UpdaterError::Detection || e == UpdaterError::Mount) && (e
                == UpdaterError::Detection <==> no_entry_before(table@, table@.len() as int)),
        },
{
    let active = match detect(table) {
        Ok(b) => b,
        Err(e) => {
            return Err(e);
        },
    };
    proof {
        // the detected root entry stands within the table, so a table
        // that detects cannot be entry-free
        assert(!no_entry_before(table@, table@.len() as int)) by {
            let i = choose|i: int|
                #[trigger] root_entry_at(table@, i) && no_entry_before(table@, i)
                    && entry_bank_at(table@, i) == Some(active);
            assert(root_entry_at(table@, i));
            assert(0 <= i < table@.len());
        }
    }
    let target = active.other();
    match mount_ext4(target.device(), mount_point()) {
        Ok(handle) => Ok(MountGuard { bank: target, handle }),
        Err(e) => Err(e),
    }
}

/// The external formatting tool.
pub fn format_tool() -> (r: &'static str)
    ensures
        r@ == "mkfs.ext4"@,
{
    "mkfs.ext4"
}

/// The arguments handed to the formatting tool to format a bank:
/// a bank-identifying volume label and the bank's device.
pub fn format_tool_args(target: Bank) -> (r: Vec<String>)
    ensures
        r@.len() == 3,
        r@[0]@ == "-L"@,
        r@[1]@ == target.spec_label(),
        r@[2]@ == target.spec_device(),
{
    let mut args: Vec<String> = Vec::new();
    args.push(String::from_str("-L"));
    args.push(String::from_str(target.label()));
    args.push(String::from_str(target.device()));
    args
}

/// The manifest listing the configuration files carried across banks.
pub fn config_manifest_filename() -> (r: &'static str)
    ensures
        r@ == "firmware-update-filelist.txt"@,
{
    "firmware-update-filelist.txt"
}

} // verus!
