use vstd::prelude::*;

verus! {

/// Calls `git2::Status::is_wt_modified` on the status with these flags. Trusted: it tests
/// the flag that libgit2 numbers `1 << 8`.
#[verifier::external_body]
pub(crate) fn flags_wt_modified(flags: u32) -> (r: bool)
    ensures
        r == (flags & 0x100 != 0),
{
    git2::Status::from_bits_truncate(flags).is_wt_modified()
}

/// Calls `git2::Status::is_index_modified` on the status with these flags. Trusted: it tests
/// the flag that libgit2 numbers `1 << 1`.
#[verifier::external_body]
pub(crate) fn flags_index_modified(flags: u32) -> (r: bool)
    ensures
        r == (flags & 0x2 != 0),
{
    git2::Status::from_bits_truncate(flags).is_index_modified()
}

/// Calls `git2::Status::is_wt_new` on the status with these flags. Trusted: it tests the
/// flag that libgit2 numbers `1 << 7`.
#[verifier::external_body]
pub(crate) fn flags_wt_new(flags: u32) -> (r: bool)
    ensures
        r == (flags & 0x80 != 0),
{
    git2::Status::from_bits_truncate(flags).is_wt_new()
}

/// Calls `git2::Status::is_index_new` on the status with these flags. Trusted: it tests the
/// flag that libgit2 numbers `1 << 0`.
#[verifier::external_body]
pub(crate) fn flags_index_new(flags: u32) -> (r: bool)
    ensures
        r == (flags & 0x1 != 0),
{
    git2::Status::from_bits_truncate(flags).is_index_new()
}

/// Calls `git2::Status::is_wt_deleted` on the status with these flags. Trusted: it tests
/// the flag that libgit2 numbers `1 << 9`.
#[verifier::external_body]
pub(crate) fn flags_wt_deleted(flags: u32) -> (r: bool)
    ensures
        r == (flags & 0x200 != 0),
{
    git2::Status::from_bits_truncate(flags).is_wt_deleted()
}

/// Calls `git2::Status::is_index_deleted` on the status with these flags. Trusted: it tests
/// the flag that libgit2 numbers `1 << 2`.
#[verifier::external_body]
pub(crate) fn flags_index_deleted(flags: u32) -> (r: bool)
    ensures
        r == (flags & 0x4 != 0),
{
    git2::Status::from_bits_truncate(flags).is_index_deleted()
}

} // verus!
