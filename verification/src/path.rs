//! File-system paths as the raw bytes that Unix file systems store.
//!
//! A path is a byte string; components are joined with `/`. Joining follows the
//! Unix rules of path buffers: an absolute component replaces the path, and a
//! separator is inserted only when the path does not already end with one.

use vstd::prelude::*;
use vstd::string::StringSliceAdditionalSpecFns;

verus! {

/// The path separator, `/`.
pub const SEPARATOR: u8 = 47u8;

/// A path starts at the root when its first byte is the separator.
pub open spec fn is_absolute_spec(p: Seq<u8>) -> bool {
    p.len() > 0 && p[0] == SEPARATOR
}

/// A separator is needed before a relative component when the path is not
/// empty and does not already end with a separator.
pub open spec fn needs_separator(p: Seq<u8>) -> bool {
    p.len() > 0 && p.last() != SEPARATOR
}

/// The path obtained by joining `comp` onto `base`.
pub open spec fn push_spec(base: Seq<u8>, comp: Seq<u8>) -> Seq<u8> {
    if is_absolute_spec(comp) {
        comp
    } else if needs_separator(base) {
        base.push(SEPARATOR) + comp
    } else {
        base + comp
    }
}

/// The path obtained by joining every component of `comps`, in order, onto `base`.
pub open spec fn push_all_spec(base: Seq<u8>, comps: Seq<Seq<u8>>) -> Seq<u8>
    decreases comps.len(),
{
    if comps.len() == 0 {
        base
    } else {
        push_spec(push_all_spec(base, comps.drop_last()), comps.last())
    }
}

/// Joining an absolute path replaces the path it is joined onto.
pub proof fn lemma_push_absolute(base: Seq<u8>, comp: Seq<u8>)
    requires
        is_absolute_spec(comp),
    ensures
        push_spec(base, comp) == comp,
{
}

/// Joining a relative path appends it, after a separator where the path does
/// not already end with one; the path joined onto comes first, unchanged.
pub proof fn lemma_push_relative(base: Seq<u8>, comp: Seq<u8>)
    requires
        !is_absolute_spec(comp),
    ensures
        push_spec(base, comp).len() == base.len() + comp.len() + if needs_separator(base) {
            1int
        } else {
            0int
        },
        push_spec(base, comp).subrange(0, base.len() as int) == base,
        push_spec(base, comp).skip(push_spec(base, comp).len() - comp.len()) == comp,
{
    let p = push_spec(base, comp);
    assert(p.subrange(0, base.len() as int) =~= base);
    assert(p.skip(p.len() - comp.len()) =~= comp);
}

/// An owned file-system path.
#[derive(Debug, Clone, PartialEq, Eq)]
pub struct FsPath {
    /// The bytes of the path.
    pub bytes: Vec<u8>,
}

impl View for FsPath {
    type V = Seq<u8>;

    open spec fn view(&self) -> Seq<u8> {
        self.bytes@
    }
}

impl FsPath {
    /// The empty path.
    pub fn new() -> (res: FsPath)
        ensures
            res@ == Seq::<u8>::empty(),
    {
        FsPath { bytes: Vec::new() }
    }

    /// The path made of the given bytes.
    pub fn from_bytes(bytes: Vec<u8>) -> (res: FsPath)
        ensures
            res@ == bytes@,
    {
        FsPath { bytes }
    }

    /// The path made of the UTF-8 encoding of `s`.
    pub fn from_str(s: &str) -> (res: FsPath)
        ensures
            res@ == s.spec_bytes(),
    {
        let b = s.as_bytes();
        let mut bytes: Vec<u8> = Vec::new();
        bytes.extend_from_slice(b);
        proof {
            assert(bytes@ =~= b@);
        }
        FsPath { bytes }
    }

    /// The bytes of the path.
    pub fn as_bytes(&self) -> (res: &[u8])
        ensures
            res@ == self@,
    {
        self.bytes.as_slice()
    }

    /// A copy of the path.
    pub fn duplicate(&self) -> (res: FsPath)
        ensures
            res@ == self@,
    {
        let mut bytes: Vec<u8> = Vec::new();
        bytes.extend_from_slice(self.bytes.as_slice());
        proof {
            assert(bytes@ =~= self@);
        }
        FsPath { bytes }
    }

    /// The length of the path in bytes.
    pub fn len(&self) -> (res: usize)
        ensures
            res == self@.len(),
    {
        self.bytes.len()
    }

    /// Whether the path starts at the root.
    pub fn is_absolute(&self) -> (res: bool)
        ensures
            res == is_absolute_spec(self@),
    {
        self.bytes.len() > 0 && self.bytes[0] == SEPARATOR
    }

    /// Joins `comp` onto the path: an absolute `comp` replaces the path, a
    /// relative one is appended after a separator where one is needed.
    pub fn push(&mut self, comp: &[u8])
        ensures
            final(self)@ == push_spec(old(self)@, comp@),
    {
        if comp.len() > 0 && comp[0] == SEPARATOR {
            self.bytes.clear();
        } else if self.bytes.len() > 0 && self.bytes[self.bytes.len() - 1] != SEPARATOR {
            self.bytes.push(SEPARATOR);
        }
        let ghost before = self.bytes@;
        self.bytes.extend_from_slice(comp);
        proof {
            assert(self.bytes@ =~= before + comp@);
        }
    }

    /// A new path made of this one with `comp` joined onto it.
    pub fn join(&self, comp: &[u8]) -> (res: FsPath)
        ensures
            res@ == push_spec(self@, comp@),
    {
        let mut res = self.duplicate();
        res.push(comp);
        res
    }

    /// Joins every component of `comps`, in order, onto the path.
    pub fn extend(&mut self, comps: &[Vec<u8>])
        ensures
            final(self)@ == push_all_spec(old(self)@, comps@.map_values(|c: Vec<u8>| c@)),
    {
        let ghost views = comps@.map_values(|c: Vec<u8>| c@);
        let mut i: usize = 0;
        while i < comps.len()
            invariant
                i <= comps@.len(),
                views == comps@.map_values(|c: Vec<u8>| c@),
                self@ == push_all_spec(old(self)@, views.take(i as int)),
            decreases comps@.len() - i,
        {
            self.push(comps[i].as_slice());
            proof {
                assert(views.take(i + 1).drop_last() =~= views.take(i as int));
            }
            i = i + 1;
        }
        proof {
            assert(views.take(comps@.len() as int) =~= views);
        }
    }
}

} // verus!
