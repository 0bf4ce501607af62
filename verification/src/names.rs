//! Filename conventions: recognising a pre-made container by its extension,
//! and the double-density marker in a file stem.

use vstd::prelude::*;
use crate::classify::DensityClass;

verus! {

/// The container format's native extension, as the bytes `.icns`.
pub open spec fn native_extension() -> Seq<u8> {
    seq![46u8, 105u8, 99u8, 110u8, 115u8]
}

/// The double-density marker, as the bytes `@2x`.
pub open spec fn density_marker() -> Seq<u8> {
    seq![64u8, 50u8, 120u8]
}

/// Whether a file name already bears the container's native extension: it is
/// longer than the extension and ends with it, so the stem is not empty.
pub open spec fn is_native_name(s: Seq<u8>) -> bool {
    s.len() > 5 && s.subrange(s.len() - 5, s.len() as int) == native_extension()
}

/// Whether `s` has a dot that separates a non-empty stem from an extension.
pub open spec fn has_extension_dot(s: Seq<u8>) -> bool {
    exists|i: int| 1 <= i < s.len() && s[i] == 46u8
}

/// The index of the last dot of `s`, counted only past the first byte, so a
/// leading dot alone marks no extension.
pub open spec fn last_dot(s: Seq<u8>) -> int {
    choose|i: int|
        1 <= i < s.len() && s[i] == 46u8 && (forall|j: int| i < j < s.len() ==> s[j] != 46u8)
}

/// The stem of a file name: everything before the last dot, or the whole name
/// when there is no extension.
pub open spec fn spec_stem(s: Seq<u8>) -> Seq<u8> {
    if has_extension_dot(s) {
        s.subrange(0, last_dot(s))
    } else {
        s
    }
}

/// Whether a sequence ends with the double-density marker.
pub open spec fn ends_with_marker(s: Seq<u8>) -> bool {
    s.len() >= 3 && s.subrange(s.len() - 3, s.len() as int) == density_marker()
}

/// The density class a file name announces: double when its stem ends with
/// the recognised high-resolution marker, standard otherwise.
pub open spec fn spec_density_of(s: Seq<u8>) -> DensityClass {
    if ends_with_marker(spec_stem(s)) {
        DensityClass::Double
    } else {
        DensityClass::Standard
    }
}

/// Checks whether a file name (the final path component, as bytes) already
/// bears the container's native extension.
pub fn is_native(name: &Vec<u8>) -> (r: bool)
    ensures
        r == is_native_name(name@),
{
    let n = name.len();
    if n <= 5 {
        return false;
    }
    let r = name[n - 5] == 46u8 && name[n - 4] == 105u8 && name[n - 3] == 99u8 && name[n - 2]
        == 110u8 && name[n - 1] == 115u8;
    proof {
        if r {
            assert(name@.subrange(n - 5, n as int) =~= native_extension());
        } else {
            assert(name@.subrange(n - 5, n as int) != native_extension()) by {
                if name@.subrange(n - 5, n as int) == native_extension() {
                    assert(name@[n - 5] == native_extension()[0]);
                    assert(name@[n - 4] == native_extension()[1]);
                    assert(name@[n - 3] == native_extension()[2]);
                    assert(name@[n - 2] == native_extension()[3]);
                    assert(name@[n - 1] == native_extension()[4]);
                }
            }
        }
    }
    r
}

/// Reads the density class off a file name (the final path component, as
/// bytes): double density exactly when the stem ends with the marker.
pub fn density_of(name: &Vec<u8>) -> (r: DensityClass)
    ensures
        r == spec_density_of(name@),
{
    let n = name.len();
    let mut cut: usize = n;
    let mut k: usize = n;
    while k > 1
        invariant
            1 <= k <= n || (n == 0 && k == 0),
            n == name@.len(),
            cut == n ==> forall|j: int| k <= j < n ==> name@[j] != 46u8,
            cut < n ==> {
                &&& 1 <= cut
                &&& name@[cut as int] == 46u8
                &&& forall|j: int| cut < j < n ==> name@[j] != 46u8
            },
            cut <= n,
        decreases k,
    {
        k = k - 1;
        if name[k] == 46u8 && cut == n {
            cut = k;
        }
    }
    let ghost stem = spec_stem(name@);
    proof {
        if cut == n {
            assert(!has_extension_dot(name@));
            assert(stem == name@);
        } else {
            assert(has_extension_dot(name@));
            let w = last_dot(name@);
            assert(1 <= w < n && name@[w] == 46u8 && (forall|j: int|
                w < j < n ==> name@[j] != 46u8));
            assert(w == cut) by {
                if w < cut {
                    assert(name@[cut as int] == 46u8);
                } else if w > cut {
                    assert(name@[w] == 46u8);
                }
            }
            assert(stem == name@.subrange(0, cut as int));
        }
        assert(stem.len() == if cut == n { n as int } else { cut as int });
    }
    let e: usize = cut;
    if e >= 3 && name[e - 3] == 64u8 && name[e - 2] == 50u8 && name[e - 1] == 120u8 {
        proof {
            assert(stem.subrange(stem.len() - 3, stem.len() as int) =~= density_marker());
        }
        DensityClass::Double
    } else {
        proof {
            if ends_with_marker(stem) {
                assert(stem[stem.len() - 3] == density_marker()[0]);
                assert(stem[stem.len() - 2] == density_marker()[1]);
                assert(stem[stem.len() - 1] == density_marker()[2]);
            }
        }
        DensityClass::Standard
    }
}

/// The index of the first candidate name that bears the native extension, if
/// any: the candidate whose file short-circuits icon synthesis.
pub fn first_native_index(names: &Vec<Vec<u8>>) -> (r: Option<usize>)
    ensures
        match r {
            Some(i) => {
                &&& i < names@.len()
                &&& is_native_name(names@[i as int]@)
                &&& forall|j: int| 0 <= j < i ==> !is_native_name(#[trigger] names@[j]@)
            },
            None => forall|j: int| 0 <= j < names@.len() ==> !is_native_name(#[trigger] names@[j]@),
        },
{
    let mut i: usize = 0;
    while i < names.len()
        invariant
            i <= names@.len(),
            forall|j: int| 0 <= j < i ==> !is_native_name(#[trigger] names@[j]@),
        decreases names@.len() - i,
    {
        if is_native(&names[i]) {
            return Some(i);
        }
        i += 1;
    }
    None
}

} // verus!
