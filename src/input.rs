//! Reading the player's menu choice.

use vstd::prelude::*;

verus! {

/// `b` is an ASCII decimal digit.
pub open spec fn is_digit(b: u8) -> bool {
    48 <= b <= 57
}

/// The number written by the decimal digits `d`, most significant first.
pub open spec fn digits_value(d: Seq<u8>) -> int
    decreases d.len(),
{
    if d.len() == 0 {
        0
    } else {
        digits_value(d.drop_last()) * 10 + (d.last() - 48)
    }
}

/// The digits of a typed choice: the text after an optional leading `+`.
pub open spec fn choice_digits(input: Seq<u8>) -> Seq<u8> {
    if input.len() > 0 && input[0] == 43 {
        input.skip(1)
    } else {
        input
    }
}

/// The zero-based choice that `input` selects among `len` options: a decimal number, with
/// an optional leading `+`, below `len`; `None` for anything else.
pub open spec fn choice_spec(input: Seq<u8>, len: nat) -> Option<nat> {
    let d = choice_digits(input);
    if d.len() > 0 && (forall|i: int| 0 <= i < d.len() ==> is_digit(#[trigger] d[i]))
        && digits_value(d) < len {
        Some(digits_value(d) as nat)
    } else {
        None
    }
}

proof fn lemma_digits_step(d: Seq<u8>, k: int)
    requires
        0 <= k < d.len(),
    ensures
        digits_value(d.take(k + 1)) == digits_value(d.take(k)) * 10 + (d[k] - 48),
{
    assert(d.take(k + 1).drop_last() =~= d.take(k));
}

proof fn lemma_digits_nonneg(d: Seq<u8>)
    requires
        forall|i: int| 0 <= i < d.len() ==> is_digit(#[trigger] d[i]),
    ensures
        digits_value(d) >= 0,
    decreases d.len(),
{
    if d.len() > 0 {
        lemma_digits_nonneg(d.drop_last());
    }
}

/// The zero-based choice that the typed line `input` selects among `len` options: a
/// decimal number, with an optional leading `+`, below `len`; `None` for anything else.
pub fn choice_index(input: &[u8], len: usize) -> (r: Option<usize>)
    ensures
        r matches Some(i) ==> choice_spec(input@, len as nat) == Some(i as nat),
        r is None ==> choice_spec(input@, len as nat) is None,
{
    let start: usize = if input.len() > 0 && input[0] == 43 { 1 } else { 0 };
    let ghost d = choice_digits(input@);
    proof {
        assert(d =~= input@.skip(start as int));
    }
    if start >= input.len() {
        assert(d.len() == 0);
        return None;
    }
    if len == 0 {
        proof {
            if forall|j: int| 0 <= j < d.len() ==> is_digit(#[trigger] d[j]) {
                lemma_digits_nonneg(d);
            }
        }
        return None;
    }
    proof {
        assert(d.take(0) =~= Seq::<u8>::empty());
    }
    let mut v: usize = 0;
    let mut big = false;
    let mut i: usize = start;
    while i < input.len()
        invariant
            start <= i <= input@.len(),
            d =~= input@.skip(start as int),
            d == choice_digits(input@),
            forall|j: int| 0 <= j < i - start ==> is_digit(#[trigger] d[j]),
            !big ==> v == digits_value(d.take(i - start)) && v < len,
            big ==> digits_value(d.take(i - start)) >= len,
        decreases input.len() - i,
    {
        let b = input[i];
        if b < 48 || b > 57 {
            proof {
                assert(d.len() == input@.len() - start);
                assert(d[i - start] == b);
                assert(!is_digit(d[i - start]));
                assert(!(forall|j: int| 0 <= j < d.len() ==> is_digit(#[trigger] d[j])));
            }
            return None;
        }
        proof {
            lemma_digits_step(d, i - start);
            lemma_digits_nonneg(d.take(i - start));
            assert(forall|j: int| 0 <= j < i - start ==> #[trigger] d.take(i - start)[j] == d[j]);
        }
        if !big {
            let next: u128 = v as u128 * 10 + (b - 48) as u128;
            if next >= len as u128 {
                big = true;
            } else {
                v = next as usize;
            }
        }
        i = i + 1;
    }
    proof {
        assert(d.take(d.len() as int) =~= d);
    }
    if big {
        None
    } else {
        Some(v)
    }
}

} // verus!
