//! Lists of test names, copied and joined with their order kept.

use vstd::prelude::*;

verus! {

/// A copy of `src`, name for name.
pub fn copy_names(src: &[String]) -> (r: Vec<String>)
    ensures
        r.deep_view() == src.deep_view(),
{
    let mut out: Vec<String> = Vec::new();
    append_names(&mut out, src);
    assert(out.deep_view() =~= src.deep_view());
    out
}

/// Appends a copy of every name of `src` to `dst`, in order.
pub fn append_names(dst: &mut Vec<String>, src: &[String])
    ensures
        final(dst).deep_view() == old(dst).deep_view() + src.deep_view(),
{
    let ghost before = dst@;
    let mut i: usize = 0;
    while i < src.len()
        invariant
            i <= src.len(),
            dst@.len() == before.len() + i,
            forall|j: int| 0 <= j < before.len() ==> dst@[j] == before[j],
            forall|j: int| 0 <= j < i ==> (#[trigger] dst@[before.len() + j])@ == src@[j]@,
        decreases src.len() - i,
    {
        dst.push(src[i].clone());
        i += 1;
    }
    assert(dst.deep_view() =~= old(dst).deep_view() + src.deep_view()) by {
        let joined = old(dst).deep_view() + src.deep_view();
        assert forall|k: int| 0 <= k < dst@.len() implies dst.deep_view()[k] == joined[k] by {
            if k >= before.len() {
                let j = k - before.len();
                assert(dst@[before.len() + j]@ == src@[j]@);
            }
        }
    }
}

} // verus!
