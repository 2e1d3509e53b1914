//! Highlight movement shared by every single-choice list.
use vstd::prelude::*;

verus! {

/// `index + delta` wrapped into `[0, len)`; 0 for an empty list.
pub open spec fn wrapped(index: int, delta: int, len: int) -> int {
    if len == 0 {
        0
    } else {
        (index + delta) % len
    }
}

/// Wrap an index by `delta` steps within `[0, len)`, giving 0 when the list is empty. The single source for
/// the highlight movement of the command menu, the picker, the wizard's lists, and the approval and plan
/// boxes, so they all wrap alike.
pub fn wrapping_step(index: usize, delta: i32, len: usize) -> (r: usize)
    ensures
        r as int == wrapped(index as int, delta as int, len as int),
        len > 0 ==> r < len,
{
    if len == 0 {
        return 0;
    }
    let n: i128 = len as i128;
    let sum: i128 = index as i128 + delta as i128;
    if sum >= 0 {
        (sum % n) as usize
    } else {
        let short: i128 = (-1 - sum) % n;
        proof {
            vstd::arithmetic::div_mod::lemma_fundamental_div_mod(-1 - sum as int, n as int);
            let q = (-1 - sum as int) / (n as int);
            assert(sum as int == (-q - 1) * n + (n - 1 - short)) by (nonlinear_arith)
                requires
                    -1 - sum as int == n as int * q + short,
            ;
            vstd::arithmetic::div_mod::lemma_fundamental_div_mod_converse(
                sum as int,
                n as int,
                -q - 1,
                n - 1 - short,
            );
        }
        (n - 1 - short) as usize
    }
}

/// Stepping forth and back by the same amount returns to where the highlight was.
pub proof fn step_and_back(index: int, delta: int, len: int)
    requires
        0 <= index < len,
    ensures
        wrapped(wrapped(index, delta, len), -delta, len) == index,
        wrapped(index, 0, len) == index,
{
    vstd::arithmetic::div_mod::lemma_add_mod_noop(index + delta, -delta, len);
    vstd::arithmetic::div_mod::lemma_add_mod_noop((index + delta) % len, -delta, len);
    vstd::arithmetic::div_mod::lemma_mod_twice(index + delta, len);
    vstd::arithmetic::div_mod::lemma_small_mod(index as nat, len as nat);
}

/// One step down from the last row lands on the first, one step up from the first on the last.
pub proof fn ends_meet(len: int)
    requires
        len > 0,
    ensures
        wrapped(len - 1, 1, len) == 0,
        wrapped(0, -1, len) == len - 1,
{
    vstd::arithmetic::div_mod::lemma_fundamental_div_mod_converse(len, len, 1, 0);
    vstd::arithmetic::div_mod::lemma_fundamental_div_mod_converse(-1, len, -1, len - 1);
}

/// A step down goes to the next row and a step up to the one before, wrapping at the ends.
pub proof fn steps_wrap(index: int, len: int)
    requires
        0 <= index < len,
    ensures
        wrapped(index, 1, len) == if index + 1 == len { 0 } else { index + 1 },
        wrapped(index, -1, len) == if index == 0 { len - 1 } else { index - 1 },
{
    ends_meet(len);
    if index + 1 < len {
        vstd::arithmetic::div_mod::lemma_small_mod((index + 1) as nat, len as nat);
    }
    if index > 0 {
        vstd::arithmetic::div_mod::lemma_small_mod((index - 1) as nat, len as nat);
    }
}

} // verus!
