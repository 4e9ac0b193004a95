//! Small string helpers shared by the directory and command modules.

use vstd::prelude::*;
use vstd::string::*;

verus! {

/// Whether two string slices hold the same characters.
pub fn str_equal(a: &str, b: &str) -> (r: bool)
    ensures
        r == (a@ == b@),
{
    let sa = String::from_str(a);
    let sb = String::from_str(b);
    sa == sb
}

/// Copy `v[from..to]` into a fresh vector.
pub fn copy_range(v: &Vec<u8>, from: usize, to: usize) -> (r: Vec<u8>)
    requires
        from <= to <= v@.len(),
    ensures
        r@ == v@.subrange(from as int, to as int),
{
    let mut out: Vec<u8> = Vec::new();
    let mut j: usize = from;
    while j < to
        invariant
            from <= j <= to <= v@.len(),
            out@ == v@.subrange(from as int, j as int),
        decreases to - j,
    {
        out.push(v[j]);
        proof {
            assert(v@.subrange(from as int, j + 1) =~= v@.subrange(from as int, j as int).push(
                v@[j as int],
            ));
        }
        j = j + 1;
    }
    out
}

/// The view of an optional string.
pub open spec fn opt_text(o: Option<String>) -> Option<Seq<char>> {
    match o {
        None => None,
        Some(s) => Some(s@),
    }
}

/// Clone an optional string.
pub fn clone_opt_string(o: &Option<String>) -> (r: Option<String>)
    ensures
        opt_text(r) == opt_text(*o),
{
    match o {
        None => None,
        Some(s) => Some(s.clone()),
    }
}

} // verus!
