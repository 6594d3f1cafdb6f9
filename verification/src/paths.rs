//! Path classification.
//!
//! Paths are byte strings, as the operating system sees them. For each
//! requested path the caller reports what the filesystem metadata said
//! (`PathKind`), and the classifier derives the final rule anchor and access
//! mask: a directory anchors the rule as requested; a non-directory anchors
//! it at the parent directory with removal and creation rights dropped; a
//! missing path passes through unchanged so that rule installation fails
//! loudly rather than being skipped.

use vstd::prelude::*;
use crate::access::{
    spec_read_mask, spec_write_mask, valid_level, read_mask, write_mask,
    REMOVAL_RIGHTS, CREATION_RIGHTS, WRITE_CLASS_RIGHTS,
};

verus! {

/// The byte `'/'`.
pub const SLASH: u8 = 47;

/// What filesystem metadata reported for a requested path.
#[derive(Clone, Copy, PartialEq, Eq, Structural, Debug)]
pub enum PathKind {
    /// The path exists and is a directory.
    Directory,
    /// The path exists and is not a directory (file, device node, ...).
    NonDirectory,
    /// Metadata lookup failed: the path does not exist or is unreachable.
    Missing,
}

/// A classified rule: an anchor path and the access mask granted beneath it.
pub struct PathRule {
    pub path: Vec<u8>,
    pub mask: u64,
}

/// `p` with trailing slash bytes removed; a lone `"/"` is kept.
pub open spec fn strip_trailing_slashes(p: Seq<u8>) -> Seq<u8>
    decreases p.len(),
{
    if p.len() > 1 && p.last() == SLASH {
        strip_trailing_slashes(p.drop_last())
    } else {
        p
    }
}

/// Index of the last slash in `p`, or -1 if there is none.
pub open spec fn last_slash_index(p: Seq<u8>) -> int
    decreases p.len(),
{
    if p.len() == 0 {
        -1
    } else if p.last() == SLASH {
        p.len() - 1
    } else {
        last_slash_index(p.drop_last())
    }
}

/// The parent directory of a path, as a byte string: everything before the
/// last slash of the path (ignoring trailing slashes), itself stripped of
/// trailing slashes. The root's parent is the root; a single relative
/// component has the empty parent.
pub open spec fn parent_of(p: Seq<u8>) -> Seq<u8> {
    let t = strip_trailing_slashes(p);
    let i = last_slash_index(t);
    if i < 0 {
        if t.len() == 0 {
            seq![SLASH]
        } else {
            Seq::empty()
        }
    } else if i == 0 {
        seq![SLASH]
    } else {
        strip_trailing_slashes(t.subrange(0, i))
    }
}

proof fn lemma_strip_prefix_step(p: Seq<u8>, e: int)
    requires
        1 < e <= p.len(),
        p[e - 1] == SLASH,
    ensures
        strip_trailing_slashes(p.subrange(0, e)) == strip_trailing_slashes(p.subrange(0, e - 1)),
{
    let s = p.subrange(0, e);
    assert(s.drop_last() =~= p.subrange(0, e - 1));
}

proof fn lemma_strip_fixed(p: Seq<u8>, e: int)
    requires
        0 <= e <= p.len(),
        !(e > 1 && p[e - 1] == SLASH),
    ensures
        strip_trailing_slashes(p.subrange(0, e)) == p.subrange(0, e),
{
    let s = p.subrange(0, e);
    assert(!(s.len() > 1 && s.last() == SLASH));
}

proof fn lemma_last_slash_step(p: Seq<u8>, i: int)
    requires
        0 < i <= p.len(),
        p[i - 1] != SLASH,
    ensures
        last_slash_index(p.subrange(0, i)) == last_slash_index(p.subrange(0, i - 1)),
{
    let s = p.subrange(0, i);
    assert(s.drop_last() =~= p.subrange(0, i - 1));
}

/// Strips trailing slashes of the first `from` bytes of `p`, returning the
/// length of the stripped prefix.
fn strip_len(p: &Vec<u8>, from: usize) -> (e: usize)
    requires
        from <= p@.len(),
    ensures
        e <= from,
        p@.subrange(0, e as int) == strip_trailing_slashes(p@.subrange(0, from as int)),
{
    let mut e = from;
    while e > 1 && p[e - 1] == SLASH
        invariant
            e <= from <= p@.len(),
            strip_trailing_slashes(p@.subrange(0, e as int))
                == strip_trailing_slashes(p@.subrange(0, from as int)),
        decreases e,
    {
        proof {
            lemma_strip_prefix_step(p@, e as int);
        }
        e = e - 1;
    }
    proof {
        lemma_strip_fixed(p@, e as int);
    }
    e
}

/// The parent directory of `path`, by `parent_of`.
pub fn parent_dir(path: &Vec<u8>) -> (r: Vec<u8>)
    ensures
        r@ == parent_of(path@),
{
    let ghost whole = path@;
    proof {
        assert(whole.subrange(0, whole.len() as int) =~= whole);
    }
    let e = strip_len(path, path.len());
    let ghost t = strip_trailing_slashes(whole);

    // Find the last slash within the stripped prefix.
    let mut i = e;
    while i > 0 && path[i - 1] != SLASH
        invariant
            i <= e <= path@.len(),
            path@.subrange(0, e as int) == t,
            last_slash_index(path@.subrange(0, i as int)) == last_slash_index(t),
        decreases i,
    {
        proof {
            lemma_last_slash_step(path@, i as int);
        }
        i = i - 1;
    }
    if i == 0 {
        proof {
            assert(path@.subrange(0, 0) =~= Seq::<u8>::empty());
        }
        if e == 0 {
            // Empty path: fall back to the root.
            let mut r: Vec<u8> = Vec::new();
            r.push(SLASH);
            proof {
                assert(r@ =~= seq![SLASH]);
            }
            return r;
        }
        // No slash at all: a single relative component has no parent.
        let r: Vec<u8> = Vec::new();
        return r;
    }
    if i == 1 {
        // The last slash is the leading one: the parent is the root.
        assert(t[0] == SLASH);
        let mut r: Vec<u8> = Vec::new();
        r.push(SLASH);
        proof {
            assert(r@ =~= seq![SLASH]);
        }
        return r;
    }
    // Copy the prefix before the last slash, without its own trailing slashes.
    let e2 = strip_len(path, i - 1);
    proof {
        assert(t.subrange(0, i as int - 1) =~= path@.subrange(0, i as int - 1));
    }
    let mut r: Vec<u8> = Vec::new();
    let mut k: usize = 0;
    while k < e2
        invariant
            k <= e2 <= path@.len(),
            r@ =~= path@.subrange(0, k as int),
        decreases e2 - k,
    {
        r.push(path[k]);
        proof {
            assert(r@ =~= path@.subrange(0, k + 1 as int));
        }
        k = k + 1;
    }
    r
}

/// The classifier's result on a path: the rule's anchor path and mask.
pub open spec fn classify_spec(path: Seq<u8>, kind: PathKind, write: bool, level: u8) -> (Seq<
    u8,
>, u64) {
    let base = if write {
        spec_write_mask(level)
    } else {
        spec_read_mask(level)
    };
    match kind {
        PathKind::Directory => (path, base),
        PathKind::Missing => (path, base),
        PathKind::NonDirectory => (parent_of(path), base & !(REMOVAL_RIGHTS | CREATION_RIGHTS)),
    }
}

/// Classifies one requested path: picks the base mask from the intent, keeps
/// a directory unchanged, anchors a non-directory at its parent with removal
/// and creation rights dropped, and passes a missing path through so that
/// rule installation reports it.
pub fn classify_path(path: &Vec<u8>, kind: PathKind, write: bool, level: u8) -> (r: PathRule)
    requires
        valid_level(level),
    ensures
        (r.path@, r.mask) == classify_spec(path@, kind, write, level),
        kind == PathKind::Directory ==> r.path@ == path@,
        kind == PathKind::Missing ==> r.path@ == path@,
        kind == PathKind::NonDirectory ==> r.path@ == parent_of(path@)
            && r.mask & (REMOVAL_RIGHTS | CREATION_RIGHTS) == 0,
{
    let base = if write { write_mask(level) } else { read_mask(level) };
    match kind {
        PathKind::Directory => PathRule { path: clone_bytes(path), mask: base },
        PathKind::Missing => PathRule { path: clone_bytes(path), mask: base },
        PathKind::NonDirectory => {
            let narrowed = base & !(REMOVAL_RIGHTS | CREATION_RIGHTS);
            proof {
                assert(narrowed & (REMOVAL_RIGHTS | CREATION_RIGHTS) == 0) by (bit_vector)
                    requires
                        narrowed == base & !(REMOVAL_RIGHTS | CREATION_RIGHTS),
                ;
            }
            PathRule { path: parent_dir(path), mask: narrowed }
        },
    }
}

/// Law: a classified rule's mask never exceeds the handled mask negotiated
/// for the same capability level.
pub proof fn lemma_classified_mask_within_handled(
    path: Seq<u8>,
    kind: PathKind,
    write: bool,
    level: u8,
)
    ensures
        crate::access::mask_within(
            classify_spec(path, kind, write, level).1,
            crate::access::spec_handled_mask(level),
        ),
{
    let m = classify_spec(path, kind, write, level).1;
    let base = if write {
        spec_write_mask(level)
    } else {
        spec_read_mask(level)
    };
    let handled = crate::access::spec_handled_mask(level);
    crate::access::lemma_base_masks_within_handled(level);
    assert(crate::access::mask_within(m, handled)) by (bit_vector)
        requires
            base & handled == base,
            m == base || m == base & !(REMOVAL_RIGHTS | CREATION_RIGHTS),
    ;
}

/// Law: a rule classified from a read-only request never grants a
/// write-class, removal-class or creation-class right, whatever the path's
/// kind and the capability level.
pub proof fn lemma_readonly_rule_excludes_write_class(
    path: Seq<u8>,
    kind: PathKind,
    level: u8,
)
    ensures
        classify_spec(path, kind, false, level).1
            & (WRITE_CLASS_RIGHTS | REMOVAL_RIGHTS | CREATION_RIGHTS) == 0,
{
    let m = classify_spec(path, kind, false, level).1;
    assert(m & (WRITE_CLASS_RIGHTS | REMOVAL_RIGHTS | CREATION_RIGHTS) == 0) by (bit_vector)
        requires
            m == spec_read_mask(level) || m == spec_read_mask(level) & !(REMOVAL_RIGHTS
                | CREATION_RIGHTS),
    ;
}

/// A byte-for-byte copy of `v`.
pub fn clone_bytes(v: &Vec<u8>) -> (r: Vec<u8>)
    ensures
        r@ == v@,
{
    let mut r: Vec<u8> = Vec::new();
    let mut k: usize = 0;
    while k < v.len()
        invariant
            k <= v@.len(),
            r@ =~= v@.subrange(0, k as int),
        decreases v@.len() - k,
    {
        r.push(v[k]);
        proof {
            assert(r@ =~= v@.subrange(0, k + 1 as int));
        }
        k = k + 1;
    }
    proof {
        assert(v@.subrange(0, v@.len() as int) =~= v@);
    }
    r
}

} // verus!
