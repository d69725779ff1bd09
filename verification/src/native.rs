//! The constants of `<dlfcn.h>`, read from `libc`.
//!
//! Nothing in this file is proved. Each function returns one constant of
//! `libc`, and its contract states the value that `libc` gives the constant
//! on Linux with glibc. `RTLD_LAZY`, `RTLD_LOCAL`, `RTLD_NOW` and
//! `RTLD_NODELETE` have one value on every Linux target. `RTLD_GLOBAL`,
//! `RTLD_NOLOAD` and `RTLD_DEEPBIND` are defined per architecture, with the
//! values stated here on each of them but MIPS. The crate is not meant for a
//! target on which a value differs.

use vstd::prelude::*;

verus! {

/// Reads `libc::RTLD_LAZY`. Assumed: it is `1`, as `libc` defines it.
#[verifier::external_body]
pub(crate) fn rtld_lazy() -> (bits: libc::c_int)
    ensures
        bits == 0x1,
{
    libc::RTLD_LAZY
}

/// Reads `libc::RTLD_NOW`. Assumed: it is `0x2`, as `libc` defines it.
#[verifier::external_body]
pub(crate) fn rtld_now() -> (bits: libc::c_int)
    ensures
        bits == 0x2,
{
    libc::RTLD_NOW
}

/// Reads `libc::RTLD_GLOBAL`. Assumed: it is `0x100`, as `libc` defines it.
#[verifier::external_body]
pub(crate) fn rtld_global() -> (bits: libc::c_int)
    ensures
        bits == 0x100,
{
    libc::RTLD_GLOBAL
}

/// Reads `libc::RTLD_LOCAL`. Assumed: it is `0`, as `libc` defines it, so
/// that it sets no bit.
#[verifier::external_body]
pub(crate) fn rtld_local() -> (bits: libc::c_int)
    ensures
        bits == 0,
{
    libc::RTLD_LOCAL
}

/// Reads `libc::RTLD_NODELETE`. Assumed: it is `0x1000`, as `libc` defines
/// it.
#[verifier::external_body]
pub(crate) fn rtld_nodelete() -> (bits: libc::c_int)
    ensures
        bits == 0x1000,
{
    libc::RTLD_NODELETE
}

/// Reads `libc::RTLD_NOLOAD`. Assumed: it is `0x4`, as `libc` defines it.
#[verifier::external_body]
pub(crate) fn rtld_noload() -> (bits: libc::c_int)
    ensures
        bits == 0x4,
{
    libc::RTLD_NOLOAD
}

/// Reads `libc::RTLD_DEEPBIND`. Assumed: it is `0x8`, as `libc` defines it.
#[verifier::external_body]
pub(crate) fn rtld_deepbind() -> (bits: libc::c_int)
    ensures
        bits == 0x8,
{
    libc::RTLD_DEEPBIND
}

} // verus!
