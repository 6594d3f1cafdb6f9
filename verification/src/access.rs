//! Access rights, access masks and the capability level.
//!
//! An access mask is a `u64` in which each set bit grants one filesystem
//! operation class. The bit values equal the kernel's Landlock UAPI values,
//! so a mask can be handed to the kernel as it stands. Which rights exist is
//! versioned by the capability level: level 2 adds the refer and truncate
//! rights, level 3 adds the device-ioctl right.

use vstd::prelude::*;

verus! {

/// Execute a file.
pub const ACCESS_EXECUTE: u64 = 0x1;

/// Open a file for writing.
pub const ACCESS_WRITE_FILE: u64 = 0x2;

/// Open a file for reading.
pub const ACCESS_READ_FILE: u64 = 0x4;

/// Open or list a directory.
pub const ACCESS_READ_DIR: u64 = 0x8;

/// Remove an empty directory or rename one.
pub const ACCESS_REMOVE_DIR: u64 = 0x10;

/// Unlink or rename a file.
pub const ACCESS_REMOVE_FILE: u64 = 0x20;

/// Create a character device.
pub const ACCESS_MAKE_CHAR: u64 = 0x40;

/// Create a directory.
pub const ACCESS_MAKE_DIR: u64 = 0x80;

/// Create a regular file.
pub const ACCESS_MAKE_REG: u64 = 0x100;

/// Create a UNIX domain socket.
pub const ACCESS_MAKE_SOCK: u64 = 0x200;

/// Create a named pipe.
pub const ACCESS_MAKE_FIFO: u64 = 0x400;

/// Create a block device.
pub const ACCESS_MAKE_BLOCK: u64 = 0x800;

/// Create a symbolic link.
pub const ACCESS_MAKE_SYM: u64 = 0x1000;

/// Link or rename a file across directories (reparent). Exists at level 2.
pub const ACCESS_REFER: u64 = 0x2000;

/// Truncate a file. Exists at level 2.
pub const ACCESS_TRUNCATE: u64 = 0x4000;

/// Send ioctl commands to a device file. Exists at level 3.
pub const ACCESS_IOCTL_DEV: u64 = 0x8000;

/// Every right that creates a new filesystem object.
pub const CREATION_RIGHTS: u64 = ACCESS_MAKE_CHAR | ACCESS_MAKE_DIR | ACCESS_MAKE_REG
    | ACCESS_MAKE_SOCK | ACCESS_MAKE_FIFO | ACCESS_MAKE_BLOCK | ACCESS_MAKE_SYM;

/// Every right that removes an existing filesystem object.
pub const REMOVAL_RIGHTS: u64 = ACCESS_REMOVE_DIR | ACCESS_REMOVE_FILE;

/// Every right that writes to or reshapes existing data: the write-class
/// rights, at any capability level.
pub const WRITE_CLASS_RIGHTS: u64 = ACCESS_WRITE_FILE | ACCESS_REFER | ACCESS_TRUNCATE
    | ACCESS_IOCTL_DEV;

/// The highest capability level this library knows rights for.
pub const MAX_CAPABILITY_LEVEL: u8 = 3;

/// A capability level is an ordinal naming which access rights the running
/// kernel recognizes; only levels from 1 up to `MAX_CAPABILITY_LEVEL` are
/// meaningful here.
pub open spec fn valid_level(level: u8) -> bool {
    1 <= level <= MAX_CAPABILITY_LEVEL
}

/// The rights granted for a read-only path: execute and the two read rights.
/// The refer right is never part of a read-only grant, at any level.
pub open spec fn spec_read_mask(level: u8) -> u64 {
    ACCESS_EXECUTE | ACCESS_READ_FILE | ACCESS_READ_DIR
}

/// The rights granted for a read-write path: the read mask plus writing,
/// removal and creation, plus the rights the level recognizes beyond those.
pub open spec fn spec_write_mask(level: u8) -> u64 {
    spec_read_mask(level) | ACCESS_WRITE_FILE | REMOVAL_RIGHTS | CREATION_RIGHTS
        | (if level >= 2 { ACCESS_REFER | ACCESS_TRUNCATE } else { 0 })
        | (if level >= 3 { ACCESS_IOCTL_DEV } else { 0 })
}

/// The full set of rights the process declares it will govern.
pub open spec fn spec_handled_mask(level: u8) -> u64 {
    spec_read_mask(level) | spec_write_mask(level)
}

/// `a` grants no right outside `b`.
pub open spec fn mask_within(a: u64, b: u64) -> bool {
    a & b == a
}

pub fn read_mask(level: u8) -> (m: u64)
    requires
        valid_level(level),
    ensures
        m == spec_read_mask(level),
{
    ACCESS_EXECUTE | ACCESS_READ_FILE | ACCESS_READ_DIR
}

pub fn write_mask(level: u8) -> (m: u64)
    requires
        valid_level(level),
    ensures
        m == spec_write_mask(level),
{
    let base: u64 = ACCESS_EXECUTE | ACCESS_READ_FILE | ACCESS_READ_DIR | ACCESS_WRITE_FILE
        | REMOVAL_RIGHTS | CREATION_RIGHTS;
    let with_level2: u64 = if level >= 2 { base | ACCESS_REFER | ACCESS_TRUNCATE } else { base };
    let m: u64 = if level >= 3 { with_level2 | ACCESS_IOCTL_DEV } else { with_level2 };
    proof {
        assert(m == spec_write_mask(level)) by (bit_vector)
            requires
                base == (ACCESS_EXECUTE | ACCESS_READ_FILE | ACCESS_READ_DIR | ACCESS_WRITE_FILE
                    | REMOVAL_RIGHTS | CREATION_RIGHTS),
                with_level2 == (if level >= 2 { base | ACCESS_REFER | ACCESS_TRUNCATE } else { base }),
                m == (if level >= 3 { with_level2 | ACCESS_IOCTL_DEV } else { with_level2 }),
        ;
    }
    m
}

pub fn handled_mask(level: u8) -> (m: u64)
    requires
        valid_level(level),
    ensures
        m == spec_handled_mask(level),
{
    let r = read_mask(level);
    let w = write_mask(level);
    r | w
}

/// Law: the read-only mask never contains a write-class, removal-class or
/// creation-class right, at any capability level.
pub proof fn lemma_read_mask_excludes_write_class(level: u8)
    ensures
        spec_read_mask(level) & (WRITE_CLASS_RIGHTS | REMOVAL_RIGHTS | CREATION_RIGHTS) == 0,
{
    assert(spec_read_mask(level) & (WRITE_CLASS_RIGHTS | REMOVAL_RIGHTS | CREATION_RIGHTS) == 0)
        by (bit_vector);
}

/// Law: a lower capability level's handled mask is a strict subset of a
/// higher level's handled mask.
pub proof fn lemma_handled_mask_strictly_grows(l1: u8, l2: u8)
    requires
        valid_level(l1),
        valid_level(l2),
        l1 < l2,
    ensures
        mask_within(spec_handled_mask(l1), spec_handled_mask(l2)),
        spec_handled_mask(l1) != spec_handled_mask(l2),
{
    assert(mask_within(spec_handled_mask(l1), spec_handled_mask(l2))
        && spec_handled_mask(l1) != spec_handled_mask(l2)) by (bit_vector)
        requires
            1 <= l1 < l2 <= 3,
    ;
}

/// Law: every mask the classifier can produce stays within the handled mask
/// of the same level; the read and write masks are within it directly.
pub proof fn lemma_base_masks_within_handled(level: u8)
    ensures
        mask_within(spec_read_mask(level), spec_handled_mask(level)),
        mask_within(spec_write_mask(level), spec_handled_mask(level)),
{
    assert(mask_within(spec_read_mask(level), spec_handled_mask(level))
        && mask_within(spec_write_mask(level), spec_handled_mask(level))) by (bit_vector);
}

} // verus!
