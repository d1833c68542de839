//! How an IPv6 literal is written, entry by entry.
use crate::ipv6::{
    compressed_at, decimal_digit, dotted_quad, first_colon, hex_digit, is_group, is_ipv4, is_ipv6,
    is_octet, lemma_weight_step, number, weight,
};
use crate::text::{decimal, digit_char};
use crate::text_laws::{law_decimal_reads_back, value_of};
use vstd::prelude::*;

verus! {

/// Whether this is the number of a hex digit's character.
pub open spec fn hex_code(u: int) -> bool {
    48 <= u <= 57 || 97 <= u <= 102 || 65 <= u <= 70
}

/// One to four hex digits.
pub open spec fn hex_group(s: Seq<char>) -> bool {
    &&& 1 <= s.len() <= 4
    &&& forall|i: int| 0 <= i < s.len() ==> hex_code(#[trigger] s[i] as int)
}

/// Four bytes in decimal, with dots between them.
pub open spec fn dotted(a: u8, b: u8, c: u8, d: u8) -> Seq<char> {
    decimal(a as nat) + seq!['.'] + decimal(b as nat) + seq!['.'] + decimal(c as nat) + seq!['.']
        + decimal(d as nat)
}

/// An IPv4 address.
pub open spec fn quad(s: Seq<char>) -> bool {
    exists|a: u8, b: u8, c: u8, d: u8| s == #[trigger] dotted(a, b, c, d)
}

/// The entries with colons between them.
pub open spec fn joined_by_colons(es: Seq<Seq<char>>) -> Seq<char>
    decreases es.len(),
{
    if es.len() == 0 {
        Seq::empty()
    } else if es.len() == 1 {
        es[0]
    } else {
        es[0] + seq![':'] + joined_by_colons(es.drop_first())
    }
}

/// Whether the entries are groups, where the last may be an IPv4 address if `v4`.
pub open spec fn entries(es: Seq<Seq<char>>, v4: bool) -> bool {
    forall|i: int|
        0 <= i < es.len() ==> hex_group(#[trigger] es[i]) || v4 && i == es.len() - 1 && quad(es[i])
}

/// How many 16-bit groups the entries stand for.
pub open spec fn groups_in(es: Seq<Seq<char>>) -> nat {
    if es.len() > 0 && !hex_group(es.last()) {
        es.len() + 1
    } else {
        es.len()
    }
}

/// Whether `s` is eight groups, written out.
pub open spec fn written_out(s: Seq<char>, es: Seq<Seq<char>>) -> bool {
    entries(es, true) && groups_in(es) == 8 && s == joined_by_colons(es)
}

/// Whether `s` is fewer than eight groups with a `::` where the zeros are.
pub open spec fn written_short(s: Seq<char>, head: Seq<Seq<char>>, tail: Seq<Seq<char>>) -> bool {
    &&& entries(head, false)
    &&& entries(tail, true)
    &&& groups_in(head) + groups_in(tail) <= 7
    &&& s == joined_by_colons(head) + seq![':', ':'] + joined_by_colons(tail)
}

/// An octet is a byte in decimal.
pub proof fn law_octet_is_a_byte_in_decimal(s: Seq<char>)
    ensures
        is_octet(s) <==> exists|n: u8| s == #[trigger] decimal(n as nat),
{
    if is_octet(s) {
        lemma_octet_is_decimal(s);
        let n = number(s) as u8;
        assert(s == decimal(n as nat));
    }
    if exists|n: u8| s == #[trigger] decimal(n as nat) {
        let n = choose|n: u8| s == #[trigger] decimal(n as nat);
        lemma_byte_is_an_octet(n);
    }
}

proof fn lemma_number_is_the_value(s: Seq<char>)
    ensures
        number(s) == value_of(s),
    decreases s.len(),
{
    if s.len() > 0 {
        lemma_number_is_the_value(s.drop_last());
    }
}

proof fn lemma_byte_is_an_octet(n: u8)
    ensures
        is_octet(decimal(n as nat)),
{
    let d = decimal(n as nat);
    law_decimal_reads_back(n as nat);
    lemma_number_is_the_value(d);
    reveal_with_fuel(decimal, 4);
    assert(1 <= d.len() <= 3);
    assert forall|i: int| 0 <= i < d.len() implies decimal_digit(#[trigger] d[i]) by {
        assert(48 <= d[i] as int <= 57);
    }
}

proof fn lemma_digit(c: char)
    requires
        decimal_digit(c),
    ensures
        digit_char((c as int - 48) as nat) == c,
{
}

proof fn lemma_octet_is_decimal(s: Seq<char>)
    requires
        is_octet(s),
    ensures
        0 <= number(s) <= 255,
        s == decimal(number(s) as nat),
{
    reveal_with_fuel(number, 4);
    reveal_with_fuel(decimal, 4);
    assert(decimal_digit(s[0]));
    lemma_digit(s[0]);
    let x = s[0] as int - 48;
    if s.len() == 1 {
        assert(s.drop_last() =~= Seq::<char>::empty());
        assert(number(s) == x);
        assert(s =~= decimal(x as nat));
    } else {
        assert(decimal_digit(s[1]));
        lemma_digit(s[1]);
        let y = s[1] as int - 48;
        if s.len() == 2 {
            assert(s.drop_last() =~= seq![s[0]]);
            assert(seq![s[0]].drop_last() =~= Seq::<char>::empty());
            assert(number(s) == x * 10 + y);
            let n = (x * 10 + y) as nat;
            assert(n / 10 == x && n % 10 == y);
            assert(s =~= decimal(n));
        } else {
            assert(decimal_digit(s[2]));
            lemma_digit(s[2]);
            let z = s[2] as int - 48;
            assert(s.drop_last() =~= seq![s[0], s[1]]);
            assert(seq![s[0], s[1]].drop_last() =~= seq![s[0]]);
            assert(seq![s[0]].drop_last() =~= Seq::<char>::empty());
            assert(number(s) == (x * 10 + y) * 10 + z);
            let m = (x * 10 + y) as nat;
            let n = (m * 10 + z) as nat;
            assert(m / 10 == x && m % 10 == y);
            assert(n / 10 == m && n % 10 == z);
            assert(s =~= decimal(n));
        }
    }
}

proof fn lemma_byte_of(s: Seq<char>) -> (n: u8)
    requires
        is_octet(s),
    ensures
        s == decimal(n as nat),
{
    lemma_octet_is_decimal(s);
    number(s) as u8
}

proof fn lemma_parts(s: Seq<char>, i: int, j: int, k: int)
    requires
        0 <= i < j < k < s.len(),
        s[i] == '.' && s[j] == '.' && s[k] == '.',
    ensures
        s == s.subrange(0, i) + seq!['.'] + s.subrange(i + 1, j) + seq!['.'] + s.subrange(j + 1, k)
            + seq!['.'] + s.subrange(k + 1, s.len() as int),
{
}

proof fn lemma_quad_of(s: Seq<char>, i: int, j: int, k: int)
    requires
        dotted_quad(s, i, j, k),
    ensures
        quad(s),
{
    lemma_parts(s, i, j, k);
    let a = lemma_byte_of(s.subrange(0, i));
    let b = lemma_byte_of(s.subrange(i + 1, j));
    let c = lemma_byte_of(s.subrange(j + 1, k));
    let d = lemma_byte_of(s.subrange(k + 1, s.len() as int));
    assert(s == dotted(a, b, c, d));
}

/// An IPv4 address is four bytes in decimal with dots between them.
pub proof fn law_ipv4_is_four_bytes(s: Seq<char>)
    ensures
        is_ipv4(s) <==> quad(s),
{
    if is_ipv4(s) {
        let (i, j, k) = choose|i: int, j: int, k: int| dotted_quad(s, i, j, k);
        lemma_quad_of(s, i, j, k);
    }
    if quad(s) {
        let (a, b, c, d) = choose|a: u8, b: u8, c: u8, d: u8| s == #[trigger] dotted(a, b, c, d);
        lemma_dotted_is_ipv4(a, b, c, d);
    }
}

proof fn lemma_dotted_is_ipv4(a: u8, b: u8, c: u8, d: u8)
    ensures
        is_ipv4(dotted(a, b, c, d)),
{
    let s = dotted(a, b, c, d);
    let w = decimal(a as nat);
    let x = decimal(b as nat);
    let y = decimal(c as nat);
    let z = decimal(d as nat);
    lemma_byte_is_an_octet(a);
    lemma_byte_is_an_octet(b);
    lemma_byte_is_an_octet(c);
    lemma_byte_is_an_octet(d);
    let i = w.len() as int;
    let j = i + 1 + x.len();
    let k = j + 1 + y.len();
    assert(s.subrange(0, i) =~= w);
    assert(s.subrange(i + 1, j) =~= x);
    assert(s.subrange(j + 1, k) =~= y);
    assert(s.subrange(k + 1, s.len() as int) =~= z);
    assert(dotted_quad(s, i, j, k));
}

/// A quad holds a dot and no colon, so it is no group.
proof fn lemma_quad_chars(s: Seq<char>)
    requires
        quad(s),
    ensures
        s.len() > 0,
        !s.contains(':'),
        !hex_group(s),
{
    let (a, b, c, d) = choose|a: u8, b: u8, c: u8, d: u8| s == #[trigger] dotted(a, b, c, d);
    law_decimal_reads_back(a as nat);
    law_decimal_reads_back(b as nat);
    law_decimal_reads_back(c as nat);
    law_decimal_reads_back(d as nat);
    let w = decimal(a as nat);
    let x = decimal(b as nat);
    let y = decimal(c as nat);
    let z = decimal(d as nat);
    let i = w.len() as int;
    let j = i + 1 + x.len();
    let k = j + 1 + y.len();
    assert(s[i] == '.');
    assert forall|m: int| 0 <= m < s.len() implies #[trigger] s[m] != ':' by {
        if m < i {
            assert(s[m] == w[m]);
        } else if i < m < j {
            assert(s[m] == x[m - i - 1]);
        } else if j < m < k {
            assert(s[m] == y[m - j - 1]);
        } else if k < m {
            assert(s[m] == z[m - k - 1]);
        }
    }
    assert(!hex_code(s[i] as int));
}

proof fn lemma_group_is_hex(s: Seq<char>)
    ensures
        is_group(s) <==> hex_group(s),
        hex_group(s) ==> !s.contains(':'),
{
    if is_group(s) {
        assert forall|i: int| 0 <= i < s.len() implies hex_code(#[trigger] s[i] as int) by {
            assert(hex_digit(s[i]));
        }
    }
    if hex_group(s) {
        assert forall|i: int| 0 <= i < s.len() implies hex_digit(#[trigger] s[i]) && s[i] != ':' by {
            assert(hex_code(s[i] as int));
        }
    }
}

/// The weight of joined entries is the groups they stand for.
proof fn lemma_weight_of_entries(es: Seq<Seq<char>>, v4: bool)
    requires
        es.len() > 0,
        entries(es, v4),
    ensures
        weight(joined_by_colons(es), v4) == Some(groups_in(es)),
        joined_by_colons(es).len() > 0,
    decreases es.len(),
{
    let s = joined_by_colons(es);
    let g = es[0];
    lemma_group_is_hex(g);
    if es.len() == 1 {
        if hex_group(g) {
        } else {
            lemma_quad_chars(g);
            law_ipv4_is_four_bytes(g);
        }
    } else {
        let rest = es.drop_first();
        assert forall|i: int| 0 <= i < rest.len() implies hex_group(#[trigger] rest[i]) || v4 && i
            == rest.len() - 1 && quad(rest[i]) by {
            assert(rest[i] == es[i + 1]);
        }
        assert(rest.last() == es.last());
        lemma_weight_of_entries(rest, v4);
        assert(hex_group(g));
        let n = g.len() as int;
        assert(s[n] == ':');
        assert forall|k: int| 0 <= k < n implies #[trigger] s[k] != ':' by {
            assert(s[k] == g[k]);
        }
        assert(first_colon(s, n));
        lemma_weight_step(s, v4, n);
        assert(s.subrange(0, n) =~= g);
        assert(s.subrange(n + 1, s.len() as int) =~= joined_by_colons(rest));
    }
}

/// What has a weight is made of entries.
proof fn lemma_entries_of_weight(s: Seq<char>, v4: bool) -> (es: Seq<Seq<char>>)
    requires
        weight(s, v4) is Some,
    ensures
        es.len() > 0,
        entries(es, v4),
        s == joined_by_colons(es),
        weight(s, v4) == Some(groups_in(es)),
    decreases s.len(),
{
    let i = choose|i: int| first_colon(s, i);
    if !s.contains(':') {
        lemma_group_is_hex(s);
        law_ipv4_is_four_bytes(s);
        let es = seq![s];
        if !is_group(s) {
            lemma_quad_chars(s);
        }
        es
    } else {
        lemma_weight_step(s, v4, i);
        let g = s.subrange(0, i);
        let after = s.subrange(i + 1, s.len() as int);
        lemma_group_is_hex(g);
        let rest = lemma_entries_of_weight(after, v4);
        let es = seq![g] + rest;
        assert(es.drop_first() =~= rest);
        assert(es.last() == rest.last());
        assert(s =~= g + seq![':'] + after);
        assert forall|k: int| 0 <= k < es.len() implies hex_group(#[trigger] es[k]) || v4 && k
            == es.len() - 1 && quad(es[k]) by {
            if k > 0 {
                assert(es[k] == rest[k - 1]);
            }
        }
        es
    }
}

/// An IPv6 literal is eight groups of one to four hex digits with colons between
/// them, or fewer than eight with a `::` in place of the zeros; an IPv4 address
/// may stand for the last two groups. It is written in no other way.
pub proof fn law_how_an_ipv6_literal_is_written(s: Seq<char>)
    ensures
        is_ipv6(s) <==> (exists|es: Seq<Seq<char>>| written_out(s, es)) || (exists|
            head: Seq<Seq<char>>,
            tail: Seq<Seq<char>>,
        | written_short(s, head, tail)),
{
    if is_ipv6(s) {
        if weight(s, true) == Some(8nat) {
            let es = lemma_entries_of_weight(s, true);
            assert(written_out(s, es));
        } else {
            let i = choose|i: int| compressed_at(s, i);
            lemma_short_form(s, i);
        }
    }
    if exists|es: Seq<Seq<char>>| written_out(s, es) {
        let es = choose|es: Seq<Seq<char>>| written_out(s, es);
        lemma_weight_of_entries(es, true);
    }
    if exists|head: Seq<Seq<char>>, tail: Seq<Seq<char>>| written_short(s, head, tail) {
        let (head, tail) = choose|head: Seq<Seq<char>>, tail: Seq<Seq<char>>|
            written_short(s, head, tail);
        lemma_short_is_compressed(s, head, tail);
    }
}

proof fn lemma_short_form(s: Seq<char>, i: int)
    requires
        compressed_at(s, i),
    ensures
        exists|head: Seq<Seq<char>>, tail: Seq<Seq<char>>| written_short(s, head, tail),
{
    let before = s.subrange(0, i);
    let after = s.subrange(i + 2, s.len() as int);
    let head = if before.len() == 0 {
        Seq::empty()
    } else {
        lemma_entries_of_weight(before, false)
    };
    let tail = if after.len() == 0 {
        Seq::empty()
    } else {
        lemma_entries_of_weight(after, true)
    };
    assert(before =~= joined_by_colons(head));
    assert(after =~= joined_by_colons(tail));
    assert(s =~= before + seq![':', ':'] + after);
    assert(written_short(s, head, tail));
}

proof fn lemma_short_is_compressed(s: Seq<char>, head: Seq<Seq<char>>, tail: Seq<Seq<char>>)
    requires
        written_short(s, head, tail),
    ensures
        is_ipv6(s),
{
    let before = joined_by_colons(head);
    let after = joined_by_colons(tail);
    let i = before.len() as int;
    if head.len() > 0 {
        lemma_weight_of_entries(head, false);
    }
    if tail.len() > 0 {
        lemma_weight_of_entries(tail, true);
    }
    assert(s.subrange(0, i) =~= before);
    assert(s.subrange(i + 2, s.len() as int) =~= after);
    assert(compressed_at(s, i));
}

} // verus!
