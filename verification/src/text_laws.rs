//! What trimming and decimal numbers mean.
use crate::text::{decimal, trimmed, trimmed_end, trimmed_start, white};
use vstd::prelude::*;

verus! {

/// White space is the 25 characters that Unicode gives the property, by number.
pub proof fn law_white_space_by_number(c: char)
    ensures
        white(c) <==> ({
            let u = c as int;
            ||| 0x9 <= u <= 0xd
            ||| u == 0x20
            ||| u == 0x85
            ||| u == 0xa0
            ||| u == 0x1680
            ||| 0x2000 <= u <= 0x200a
            ||| u == 0x2028
            ||| u == 0x2029
            ||| u == 0x202f
            ||| u == 0x205f
            ||| u == 0x3000
        }),
{
}

/// Whether `s[a..b]` is `s` with exactly the white space at its ends taken off.
pub open spec fn core_at(s: Seq<char>, a: int, b: int) -> bool {
    &&& 0 <= a <= b <= s.len()
    &&& forall|i: int| 0 <= i < a ==> white(#[trigger] s[i])
    &&& forall|i: int| b <= i < s.len() ==> white(#[trigger] s[i])
    &&& a < b ==> !white(s[a]) && !white(s[b - 1])
}

/// Trimming gives the part of the text between its first and its last character
/// that is not white space: nothing else is taken off, and nothing is changed.
pub proof fn law_trimming_takes_off_the_white_ends(s: Seq<char>)
    ensures
        exists|a: int, b: int| #[trigger] core_at(s, a, b) && trimmed(s) == s.subrange(a, b),
{
    let front = trimmed_start(s);
    let a = s.len() - front.len();
    lemma_start_is_a_suffix(s);
    lemma_end_is_a_prefix(front);
    let b = a + trimmed(s).len();
    assert(forall|i: int| 0 <= i < front.len() ==> front[i] == s[i + a]);
    assert forall|i: int| b <= i < s.len() implies white(#[trigger] s[i]) by {
        assert(white(front[i - a]));
    }
    if a < b {
        assert(trimmed(s)[0] == front[0]);
        assert(trimmed(s).last() == s[b - 1]);
    }
    assert(trimmed(s) =~= s.subrange(a, b));
    assert(core_at(s, a, b));
}

proof fn lemma_start_is_a_suffix(s: Seq<char>)
    ensures
        trimmed_start(s).len() <= s.len(),
        trimmed_start(s) == s.skip(s.len() - trimmed_start(s).len()),
        forall|i: int| 0 <= i < s.len() - trimmed_start(s).len() ==> white(#[trigger] s[i]),
        trimmed_start(s).len() > 0 ==> !white(trimmed_start(s)[0]),
    decreases s.len(),
{
    let rest = trimmed_start(s);
    if s.len() > 0 && white(s[0]) {
        lemma_start_is_a_suffix(s.drop_first());
        assert(rest =~= s.skip(s.len() - rest.len()));
        assert forall|i: int| 0 <= i < s.len() - rest.len() implies white(#[trigger] s[i]) by {
            if i > 0 {
                assert(white(s.drop_first()[i - 1]));
            }
        }
    } else {
        assert(rest =~= s.skip(0));
    }
}

proof fn lemma_end_is_a_prefix(s: Seq<char>)
    ensures
        trimmed_end(s).len() <= s.len(),
        trimmed_end(s) == s.take(trimmed_end(s).len() as int),
        forall|i: int| trimmed_end(s).len() <= i < s.len() ==> white(#[trigger] s[i]),
        trimmed_end(s).len() > 0 ==> !white(trimmed_end(s).last()),
    decreases s.len(),
{
    let rest = trimmed_end(s);
    if s.len() > 0 && white(s.last()) {
        lemma_end_is_a_prefix(s.drop_last());
        assert(rest =~= s.take(rest.len() as int));
        assert forall|i: int| rest.len() <= i < s.len() implies white(#[trigger] s[i]) by {
            if i < s.len() - 1 {
                assert(white(s.drop_last()[i]));
            }
        }
    } else {
        assert(rest =~= s.take(s.len() as int));
    }
}

/// The number that a run of digits writes, each digit worth ten times the one
/// after it.
pub open spec fn value_of(s: Seq<char>) -> int
    decreases s.len(),
{
    if s.len() == 0 {
        0
    } else {
        10 * value_of(s.drop_last()) + (s.last() as int - 48)
    }
}

/// A number in decimal reads back as the number: it is made of the digits 0 to
/// 9, and begins with a 0 only where it is 0 itself.
pub proof fn law_decimal_reads_back(n: nat)
    ensures
        value_of(decimal(n)) == n,
        decimal(n).len() > 0,
        forall|i: int| 0 <= i < decimal(n).len() ==> 48 <= #[trigger] decimal(n)[i] as int <= 57,
        decimal(n)[0] as int == 48 ==> n == 0 && decimal(n).len() == 1,
    decreases n,
{
    let d = decimal(n);
    if n < 10 {
        assert(d.drop_last() =~= Seq::<char>::empty());
        assert(value_of(d.drop_last()) == 0);
    } else {
        law_decimal_reads_back(n / 10);
        assert(d.drop_last() =~= decimal(n / 10));
        assert(d[0] == decimal(n / 10)[0]);
    }
}

} // verus!
