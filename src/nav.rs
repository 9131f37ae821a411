use vstd::arithmetic::div_mod::lemma_fundamental_div_mod_converse;
use vstd::prelude::*;

verus! {

/// The cursor reached from index `i` by a step of `d` in a collection of
/// length `n`, wrapping around at both ends.
pub open spec fn wrap_step(i: int, n: int, d: int) -> int {
    (i + d) % n
}

/// A step of one place from a valid index wraps to 0 past the end and to
/// the last index before 0.
pub proof fn lemma_wrap_step_unit(i: int, n: int, d: int)
    requires
        0 <= i < n,
        d == 1 || d == -1,
    ensures
        wrap_step(i, n, d) == if i + d == n {
            0
        } else if i + d < 0 {
            n - 1
        } else {
            i + d
        },
        0 <= wrap_step(i, n, d) < n,
{
    if i + d == n {
        lemma_fundamental_div_mod_converse(i + d, n, 1, 0);
    } else if i + d < 0 {
        lemma_fundamental_div_mod_converse(i + d, n, -1, n - 1);
    } else {
        lemma_fundamental_div_mod_converse(i + d, n, 0, i + d);
    }
}

/// Moves a cursor one place forward or back in a collection of length `len`,
/// wrapping around; an unset cursor counts as index 0.
pub fn wrapped_index(current: Option<usize>, len: usize, forward: bool) -> (r: usize)
    requires
        len > 0,
        current matches Some(i) ==> i < len,
    ensures
        r < len,
        r == wrap_step(
            match current { Some(i) => i as int, None => 0 },
            len as int,
            if forward { 1 } else { -1 },
        ),
{
    let i: usize = match current {
        Some(i) => i,
        None => 0,
    };
    proof {
        lemma_wrap_step_unit(i as int, len as int, if forward { 1 } else { -1 });
    }
    if forward {
        if i + 1 >= len { 0 } else { i + 1 }
    } else {
        if i == 0 { len - 1 } else { i - 1 }
    }
}

} // verus!
