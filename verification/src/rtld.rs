//! The flags of a load, and their native bitmask.
//!
//! The bits are those of glibc's `<dlfcn.h>` on Linux, as `libc` gives them.

use crate::native;
use vstd::prelude::*;

verus! {

/// The binding mode of a load: exactly one is in force.
#[derive(Clone, Copy, Debug, PartialEq, Eq, Structural)]
pub enum RtldMain {
    /// Resolve a symbol only when it is first referenced.
    Lazy,
    /// Resolve every undefined symbol before the load returns.
    Now,
}

impl RtldMain {
    /// The bit of the native mask that stands for this mode.
    pub open spec fn bits(self) -> i32 {
        match self {
            RtldMain::Lazy => 0x1,
            RtldMain::Now => 0x2,
        }
    }

    /// Maps the mode to its native constant.
    pub fn to_libc(&self) -> (mask: libc::c_int)
        ensures
            mask == self.bits(),
    {
        match *self {
            RtldMain::Lazy => native::rtld_lazy(),
            RtldMain::Now => native::rtld_now(),
        }
    }
}

/// A modifier that is ORed on top of the binding mode.
#[derive(Clone, Copy, Debug, PartialEq, Eq, Structural)]
pub enum RtldOr {
    /// The library's symbols become visible to libraries loaded after it.
    Global,
    /// The library's symbols are not exposed to other libraries. This is the
    /// loader's default when neither `Global` nor `Local` is given.
    Local,
    /// A close never unloads the library.
    NoDelete,
    /// Do not load the library; only find it if it is loaded already.
    NoLoad,
    /// The library's own definitions win over global symbols of the same
    /// name when its undefined references are resolved.
    DeepBind,
}

impl RtldOr {
    /// The bit of the native mask that stands for this modifier. `Local` is
    /// the absence of `Global` and has no bit of its own.
    pub open spec fn bits(self) -> i32 {
        match self {
            RtldOr::Global => 0x100,
            RtldOr::Local => 0,
            RtldOr::NoDelete => 0x1000,
            RtldOr::NoLoad => 0x4,
            RtldOr::DeepBind => 0x8,
        }
    }

    /// Maps the modifier to its native constant.
    pub fn to_libc(&self) -> (mask: libc::c_int)
        ensures
            mask == self.bits(),
    {
        match *self {
            RtldOr::Global => native::rtld_global(),
            RtldOr::Local => native::rtld_local(),
            RtldOr::NoDelete => native::rtld_nodelete(),
            RtldOr::NoLoad => native::rtld_noload(),
            RtldOr::DeepBind => native::rtld_deepbind(),
        }
    }
}

/// What a [`RtldValue`] stands for: a binding mode and the modifiers in the
/// order in which they were added.
pub struct RtldFlags {
    pub main: RtldMain,
    pub ors: Seq<RtldOr>,
}

impl RtldFlags {
    /// The flags with one more modifier at the end.
    pub open spec fn with(self, or: RtldOr) -> RtldFlags {
        RtldFlags { main: self.main, ors: self.ors.push(or) }
    }

    /// The bit of `or` if it is among the modifiers, and no bit if not.
    pub open spec fn bit_of(self, or: RtldOr) -> i32 {
        if self.ors.contains(or) {
            or.bits()
        } else {
            0
        }
    }

    /// The native mask: the bit of the binding mode, ORed with the bits of
    /// the modifiers one after the other.
    pub open spec fn mask(self) -> i32
        decreases self.ors.len(),
    {
        if self.ors.len() == 0 {
            self.main.bits()
        } else {
            RtldFlags { main: self.main, ors: self.ors.drop_last() }.mask() | self.ors.last().bits()
        }
    }
}

/// The flags of a load: one binding mode and any number of modifiers.
#[derive(Debug)]
pub struct RtldValue {
    pub(crate) main: RtldMain,
    pub(crate) ors: Vec<RtldOr>,
}

impl View for RtldValue {
    type V = RtldFlags;

    closed spec fn view(&self) -> RtldFlags {
        RtldFlags { main: self.main, ors: self.ors@ }
    }
}

impl RtldValue {
    /// Makes flags with the binding mode `main` and no modifier.
    pub fn new(main: RtldMain) -> (flags: Self)
        ensures
            flags@ == (RtldFlags { main, ors: Seq::empty() }),
    {
        Self { main, ors: Vec::new() }
    }

    /// Adds a modifier. Nothing is checked: a modifier may repeat, and
    /// `Global` and `Local` may both be given; the loader judges the
    /// combination when the library is opened.
    pub fn with(self, or: RtldOr) -> (flags: Self)
        ensures
            flags@ == self@.with(or),
    {
        let mut flags = self;
        flags.ors.push(or);
        flags
    }

    /// Computes the native mask.
    pub fn to_libc(&self) -> (mask: libc::c_int)
        ensures
            mask == self@.mask(),
    {
        let mut ret: i32 = self.main.to_libc();
        let mut i: usize = 0;
        while i < self.ors.len()
            invariant
                i <= self.ors.len(),
                ret == (RtldFlags { main: self.main, ors: self.ors@.take(i as int) }).mask(),
            decreases self.ors.len() - i,
        {
            proof {
                let next = self.ors@.take(i + 1);
                assert(next.drop_last() == self.ors@.take(i as int));
                assert(next.last() == self.ors@[i as int]);
            }
            ret = ret | self.ors[i].to_libc();
            i = i + 1;
        }
        proof {
            assert(self.ors@.take(i as int) == self.ors@);
        }
        ret
    }
}

/// The two bits of the binding modes together.
pub open spec fn main_bits() -> i32 {
    0x3
}

/// The mask is a function of the flags: two values that stand for the same
/// flags have the same mask, however often it is computed.
pub proof fn lemma_mask_deterministic(a: RtldValue, b: RtldValue)
    requires
        a@ == b@,
    ensures
        a@.mask() == b@.mask(),
{
}

/// Of the two bits of the binding modes, the mask holds the bit of its own
/// mode and not the other: no modifier touches them.
pub proof fn lemma_mask_has_one_main_bit(flags: RtldFlags)
    ensures
        flags.mask() & main_bits() == flags.main.bits(),
        flags.mask() & RtldMain::Lazy.bits() != 0 <==> flags.main == RtldMain::Lazy,
        flags.mask() & RtldMain::Now.bits() != 0 <==> flags.main == RtldMain::Now,
    decreases flags.ors.len(),
{
    if flags.ors.len() == 0 {
        assert(0x1i32 & 0x3 == 0x1 && 0x1i32 & 0x1 != 0 && 0x1i32 & 0x2 == 0) by (bit_vector);
        assert(0x2i32 & 0x3 == 0x2 && 0x2i32 & 0x1 == 0 && 0x2i32 & 0x2 != 0) by (bit_vector);
    } else {
        let rest = RtldFlags { main: flags.main, ors: flags.ors.drop_last() };
        lemma_mask_has_one_main_bit(rest);
        let before = rest.mask();
        let bits = flags.ors.last().bits();
        assert(bits == 0x100 || bits == 0 || bits == 0x1000 || bits == 0x4 || bits == 0x8);
        assert({
            &&& (before | bits) & 0x3 == before & 0x3
            &&& (before | bits) & 0x1 == before & 0x1
            &&& (before | bits) & 0x2 == before & 0x2
        }) by (bit_vector)
            requires
                bits == 0x100 || bits == 0 || bits == 0x1000 || bits == 0x4 || bits == 0x8,
        ;
    }
}

/// Adding a modifier ORs its bit into the mask: every bit that was set stays
/// set, the modifier's bit is set, and no other bit changes.
pub proof fn lemma_with_accumulates(flags: RtldFlags, or: RtldOr)
    ensures
        flags.with(or).mask() == flags.mask() | or.bits(),
        flags.with(or).mask() & flags.mask() == flags.mask(),
        flags.with(or).mask() & or.bits() == or.bits(),
        flags.with(or).mask() & !(flags.mask() | or.bits()) == 0,
{
    let before = flags.mask();
    let bits = or.bits();
    assert(flags.with(or).ors.drop_last() == flags.ors);
    assert(flags.with(or).ors.last() == or);
    assert({
        &&& (before | bits) & before == before
        &&& (before | bits) & bits == bits
        &&& (before | bits) & !(before | bits) == 0
    }) by (bit_vector);
}

/// A modifier is among the modifiers after one was added if it was among
/// them before or is the one added.
proof fn lemma_contains_after_push(ors: Seq<RtldOr>, last: RtldOr, or: RtldOr)
    ensures
        ors.push(last).contains(or) <==> ors.contains(or) || or == last,
{
    let all = ors.push(last);
    if all.contains(or) {
        let i = choose|i: int| 0 <= i < all.len() && all[i] == or;
        if i < ors.len() {
            assert(ors[i] == or);
        }
    }
    if ors.contains(or) {
        let i = choose|i: int| 0 <= i < ors.len() && ors[i] == or;
        assert(all[i] == or);
    }
    if or == last {
        assert(all[ors.len() as int] == or);
    }
}

/// The mask is the bit of the binding mode together with the bit of each
/// modifier that occurs among the modifiers. How often a modifier was added,
/// and in which order, does not show in it.
pub proof fn lemma_mask_is_union(flags: RtldFlags)
    ensures
        flags.mask() == flags.main.bits() | flags.bit_of(RtldOr::Global) | flags.bit_of(
            RtldOr::Local,
        ) | flags.bit_of(RtldOr::NoDelete) | flags.bit_of(RtldOr::NoLoad) | flags.bit_of(
            RtldOr::DeepBind,
        ),
    decreases flags.ors.len(),
{
    let m = flags.main.bits();
    if flags.ors.len() == 0 {
        assert(m | 0 | 0 | 0 | 0 | 0 == m) by (bit_vector);
    } else {
        let rest = RtldFlags { main: flags.main, ors: flags.ors.drop_last() };
        let last = flags.ors.last();
        lemma_mask_is_union(rest);
        assert(flags.ors == rest.ors.push(last));
        lemma_contains_after_push(rest.ors, last, RtldOr::Global);
        lemma_contains_after_push(rest.ors, last, RtldOr::Local);
        lemma_contains_after_push(rest.ors, last, RtldOr::NoDelete);
        lemma_contains_after_push(rest.ors, last, RtldOr::NoLoad);
        lemma_contains_after_push(rest.ors, last, RtldOr::DeepBind);
        let g = rest.bit_of(RtldOr::Global);
        let l = rest.bit_of(RtldOr::Local);
        let d = rest.bit_of(RtldOr::NoDelete);
        let n = rest.bit_of(RtldOr::NoLoad);
        let b = rest.bit_of(RtldOr::DeepBind);
        match last {
            RtldOr::Global => {
                assert((m | g | l | d | n | b) | 0x100 == m | 0x100 | l | d | n | b) by (bit_vector)
                    requires
                        g == 0 || g == 0x100,
                ;
            },
            RtldOr::Local => {
                assert((m | g | l | d | n | b) | 0 == m | g | 0 | d | n | b) by (bit_vector)
                    requires
                        l == 0,
                ;
            },
            RtldOr::NoDelete => {
                assert((m | g | l | d | n | b) | 0x1000 == m | g | l | 0x1000 | n | b)
                    by (bit_vector)
                    requires
                        d == 0 || d == 0x1000,
                ;
            },
            RtldOr::NoLoad => {
                assert((m | g | l | d | n | b) | 0x4 == m | g | l | d | 0x4 | b) by (bit_vector)
                    requires
                        n == 0 || n == 0x4,
                ;
            },
            RtldOr::DeepBind => {
                assert((m | g | l | d | n | b) | 0x8 == m | g | l | d | n | 0x8) by (bit_vector)
                    requires
                        b == 0 || b == 0x8,
                ;
            },
        }
    }
}

/// Two sets of flags with the same binding mode and the same modifiers,
/// added in any order and any number of times, have the same mask.
pub proof fn lemma_mask_ignores_order_and_repeats(a: RtldFlags, b: RtldFlags)
    requires
        a.main == b.main,
        forall|or: RtldOr| a.ors.contains(or) <==> b.ors.contains(or),
    ensures
        a.mask() == b.mask(),
{
    lemma_mask_is_union(a);
    lemma_mask_is_union(b);
}

} // verus!
