//! Safe placement of archive entries under a destination directory.
//!
//! An archive's entry names are untrusted text: a name with a
//! parent-directory segment, an absolute name, or one carrying bytes with a
//! platform meaning of their own could place a file outside the destination.
//! The check here admits only names that extend the destination, so every
//! written path has the destination as a prefix; rejected entries are
//! skipped by the extraction, never written anywhere.

use vstd::prelude::*;

use vstd::string::StringSliceAdditionalSpecFns;

verus! {

/// Whether position `i` of an entry name starts a parent-directory segment:
/// two dots bounded by the name's ends or by slashes.
pub open spec fn spec_dotdot_at(name: Seq<u8>, i: int) -> bool {
    &&& 0 <= i
    &&& i + 2 <= name.len()
    &&& name[i] == 46
    &&& name[i + 1] == 46
    &&& (i == 0 || name[i - 1] == 47)
    &&& (i + 2 == name.len() || name[i + 2] == 47)
}

/// Whether an entry name has a parent-directory segment anywhere.
pub open spec fn spec_has_dotdot_segment(name: Seq<u8>) -> bool {
    exists|i: int| spec_dotdot_at(name, i)
}

/// An entry name that may be placed under the destination: non-empty,
/// relative (no leading slash), free of parent-directory segments, and free
/// of NUL and backslash bytes.
pub open spec fn spec_safe_entry_name(name: Seq<u8>) -> bool {
    &&& name.len() > 0
    &&& name[0] != 47
    &&& (forall|i: int| 0 <= i < name.len() ==> name[i] != 0 && #[trigger] name[i] != 92)
    &&& !spec_has_dotdot_segment(name)
}

/// Checks an entry name, byte by byte.
pub fn is_safe_entry_name(name: &[u8]) -> (r: bool)
    ensures
        r == spec_safe_entry_name(name@),
{
    let n = name.len();
    if n == 0 {
        return false;
    }
    if name[0] == 47 {
        return false;
    }
    let mut i: usize = 0;
    while i < n
        invariant
            n == name@.len(),
            i <= n,
            forall|k: int| 0 <= k < i ==> name@[k] != 0 && #[trigger] name@[k] != 92,
            forall|k: int| 0 <= k < i ==> !(#[trigger] spec_dotdot_at(name@, k)),
        decreases n - i,
    {
        let b = name[i];
        if b == 0 || b == 92 {
            return false;
        }
        if b == 46 && n - i >= 2 && name[i + 1] == 46 && (i == 0 || name[i - 1] == 47) && (n - i
            == 2 || name[i + 2] == 47) {
            assert(spec_dotdot_at(name@, i as int));
            return false;
        }
        i += 1;
    }
    assert(forall|k: int| spec_dotdot_at(name@, k) ==> 0 <= k < n);
    true
}

/// The path an entry is written to: the destination, a slash, the entry's
/// name — granted only to names [`spec_safe_entry_name`] admits, so the
/// destination's text is a prefix of every path handed out.
pub fn entry_destination(dest: &str, name: &str) -> (r: Option<String>)
    ensures
        (r is Some) <==> spec_safe_entry_name(name.spec_bytes()),
        r matches Some(p) ==> p@ == dest@ + "/"@ + name@ && p@.subrange(0, dest@.len() as int)
            == dest@,
{
    if is_safe_entry_name(name.as_bytes()) {
        let mut p = dest.to_owned();
        p.append("/");
        p.append(name);
        proof {
            assert(p@.subrange(0, dest@.len() as int) =~= dest@);
        }
        Some(p)
    } else {
        None
    }
}

/// An entry whose name has a parent-directory segment is never written: its
/// name fails the safety check outright.
pub proof fn lemma_traversal_rejected(name: Seq<u8>)
    requires
        spec_has_dotdot_segment(name),
    ensures
        !spec_safe_entry_name(name),
{
}

/// Every path granted by the check extends the destination: the
/// destination's text is a prefix of the resolved path.
pub proof fn lemma_entry_stays_within(dest: Seq<char>, name: Seq<char>)
    ensures
        (dest + "/"@ + name).subrange(0, dest.len() as int) == dest,
{
    assert((dest + "/"@ + name).subrange(0, dest.len() as int) =~= dest);
}

} // verus!
