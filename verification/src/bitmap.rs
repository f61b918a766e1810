//! Recognising bitmap files by name. The directory listing itself is the
//! caller's business; this module decides, from a file name's bytes, whether
//! the name carries the `bmp` extension.

use vstd::prelude::*;

verus! {

/// The index of the last `.` in a file name, ignoring a dot at index 0 (a
/// leading dot marks a hidden file, not an extension separator).
pub open spec fn last_dot_index(name: Seq<u8>) -> Option<int>
    decreases name.len(),
{
    if name.len() <= 1 {
        None
    } else if name[name.len() - 1] == 46 {
        Some(name.len() - 1)
    } else {
        last_dot_index(name.drop_last())
    }
}

/// The extension of a file name: the bytes after the last `.`, where a dot
/// at index 0 does not count. `None` when the name has no such dot.
pub open spec fn extension_of(name: Seq<u8>) -> Option<Seq<u8>> {
    match last_dot_index(name) {
        Option::None => Option::None,
        Option::Some(i) => Option::Some(name.skip(i + 1)),
    }
}

/// Whether a file name's extension is exactly `bmp` (the ASCII bytes
/// 98, 109, 112; the comparison is case-sensitive).
pub open spec fn is_bitmap_name(name: Seq<u8>) -> bool {
    match extension_of(name) {
        Option::None => false,
        Option::Some(e) => e == seq![98u8, 109u8, 112u8],
    }
}

proof fn lemma_last_dot_at(name: Seq<u8>, i: int)
    requires
        1 <= i < name.len(),
        name[i] == 46,
        forall|j: int| i < j < name.len() ==> name[j] != 46,
    ensures
        last_dot_index(name) == Some(i),
    decreases name.len(),
{
    if i < name.len() - 1 {
        lemma_last_dot_at(name.drop_last(), i);
    }
}

proof fn lemma_last_dot_none(name: Seq<u8>)
    requires
        forall|j: int| 1 <= j < name.len() ==> name[j] != 46,
    ensures
        last_dot_index(name) is None,
    decreases name.len(),
{
    if name.len() > 1 {
        lemma_last_dot_none(name.drop_last());
    }
}

/// Whether this file name ends in the `bmp` extension.
pub fn has_bmp_extension(name: &Vec<u8>) -> (r: bool)
    ensures
        r == is_bitmap_name(name@),
{
    let len = name.len();
    let mut i: usize = len;
    while i > 1
        invariant
            i <= len,
            len == name@.len(),
            forall|j: int| i <= j < len ==> name@[j] != 46,
        decreases i,
    {
        if name[i - 1] == 46 {
            proof {
                lemma_last_dot_at(name@, i - 1);
            }
            let r = len - i == 3 && name[i] == 98 && name[i + 1] == 109 && name[i + 2] == 112;
            proof {
                if r {
                    assert(name@.skip(i as int) =~= seq![98u8, 109u8, 112u8]);
                } else {
                    assert(!(name@.skip(i as int) =~= seq![98u8, 109u8, 112u8]));
                }
            }
            return r;
        }
        i = i - 1;
    }
    proof {
        lemma_last_dot_none(name@);
    }
    false
}

} // verus!
