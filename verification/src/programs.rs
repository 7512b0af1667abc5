//! Naming of the program builds that `cargo build-sbf` produces.

use vstd::prelude::*;

use crate::text::{push_char, push_str};

verus! {

/// `s` with every `-` replaced by `_`, as Cargo turns a package name into a
/// crate name.
pub open spec fn dashes_to_underscores(s: Seq<char>) -> Seq<char> {
    Seq::new(s.len(), |i: int| if s[i] == '-' { '_' } else { s[i] })
}

/// The file name of the shared object that `cargo build-sbf` writes for the
/// package `crate_name`: its crate name followed by `.so`.
pub fn program_artifact_name(crate_name: &str) -> (r: String)
    ensures
        r@ == dashes_to_underscores(crate_name@) + ".so"@,
{
    let n = crate_name.unicode_len();
    let mut out = String::new();
    let mut i: usize = 0;
    while i < n
        invariant
            n == crate_name@.len(),
            i <= n,
            out@ == dashes_to_underscores(crate_name@).subrange(0, i as int),
        decreases n - i,
    {
        let c = crate_name.get_char(i);
        if c == '-' {
            push_char(&mut out, '_');
        } else {
            push_char(&mut out, c);
        }
        i = i + 1;
        assert(out@ =~= dashes_to_underscores(crate_name@).subrange(0, i as int));
    }
    assert(dashes_to_underscores(crate_name@).subrange(0, n as int) =~= dashes_to_underscores(crate_name@));
    push_str(&mut out, ".so");
    out
}

} // verus!
