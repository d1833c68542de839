//! IPv6 literals as a host may be written: eight groups of up to four hex
//! digits, at most one `::` standing for one group of zeros or more, and an
//! IPv4 address allowed in place of the last two groups. No brackets, no zone.
use crate::text::chars_of;
use vstd::prelude::*;

verus! {

pub open spec fn decimal_digit(c: char) -> bool {
    '0' <= c <= '9'
}

pub open spec fn hex_digit(c: char) -> bool {
    decimal_digit(c) || 'a' <= c <= 'f' || 'A' <= c <= 'F'
}

/// One to four hex digits.
pub open spec fn is_group(s: Seq<char>) -> bool {
    &&& 1 <= s.len() <= 4
    &&& forall|i: int| 0 <= i < s.len() ==> hex_digit(#[trigger] s[i])
}

/// The number that a run of decimal digits writes.
pub open spec fn number(s: Seq<char>) -> int
    decreases s.len(),
{
    if s.len() == 0 {
        0
    } else {
        number(s.drop_last()) * 10 + (s.last() as int - '0' as int)
    }
}

/// A number up to 255 in decimal, without a leading zero.
pub open spec fn is_octet(s: Seq<char>) -> bool {
    &&& 1 <= s.len() <= 3
    &&& forall|i: int| 0 <= i < s.len() ==> decimal_digit(#[trigger] s[i])
    &&& s.len() > 1 ==> s[0] != '0'
    &&& number(s) <= 255
}

/// Whether the dots at `a`, `b` and `c` split `s` into four octets.
pub open spec fn dotted_quad(s: Seq<char>, a: int, b: int, c: int) -> bool {
    &&& 0 <= a < b < c < s.len()
    &&& s[a] == '.' && s[b] == '.' && s[c] == '.'
    &&& is_octet(s.subrange(0, a))
    &&& is_octet(s.subrange(a + 1, b))
    &&& is_octet(s.subrange(b + 1, c))
    &&& is_octet(s.subrange(c + 1, s.len() as int))
}

pub open spec fn is_ipv4(s: Seq<char>) -> bool {
    exists|a: int, b: int, c: int| dotted_quad(s, a, b, c)
}

/// Whether `s[i]` is the first colon of `s`.
pub open spec fn first_colon(s: Seq<char>, i: int) -> bool {
    &&& 0 <= i < s.len()
    &&& s[i] == ':'
    &&& forall|j: int| 0 <= j < i ==> #[trigger] s[j] != ':'
}

/// How many 16-bit groups a colon-separated list stands for, where an IPv4
/// address may close the list if `v4` and counts for two. `None` if `s` is no
/// such list.
pub open spec fn weight(s: Seq<char>, v4: bool) -> Option<nat>
    decreases s.len(),
{
    let i = choose|i: int| first_colon(s, i);
    if !s.contains(':') {
        if is_group(s) {
            Some(1)
        } else if v4 && is_ipv4(s) {
            Some(2)
        } else {
            None
        }
    } else if first_colon(s, i) && is_group(s.subrange(0, i)) {
        match weight(s.subrange(i + 1, s.len() as int), v4) {
            Some(n) => Some(n + 1),
            None => None,
        }
    } else {
        None
    }
}

/// The groups on one side of a `::`, where nothing at all is allowed too.
pub open spec fn side(s: Seq<char>, v4: bool) -> Option<nat> {
    if s.len() == 0 {
        Some(0)
    } else {
        weight(s, v4)
    }
}

/// Whether `s[i]` and `s[i + 1]` are the `::` of an address whose two sides
/// leave at least one group to the `::`.
pub open spec fn compressed_at(s: Seq<char>, i: int) -> bool {
    &&& 0 <= i < s.len() - 1
    &&& s[i] == ':' && s[i + 1] == ':'
    &&& side(s.subrange(0, i), false) matches Some(h) && side(
        s.subrange(i + 2, s.len() as int),
        true,
    ) matches Some(t) && h + t <= 7
}

pub open spec fn is_ipv6(s: Seq<char>) -> bool {
    weight(s, true) == Some(8nat) || exists|i: int| compressed_at(s, i)
}

proof fn lemma_first_colon_unique(s: Seq<char>, i: int)
    requires
        first_colon(s, i),
    ensures
        s.contains(':'),
        i == choose|i: int| first_colon(s, i),
{
    let j = choose|i: int| first_colon(s, i);
    assert(first_colon(s, j));
    assert(s[i] == ':');
    if j < i {
        assert(s[j] != ':');
    } else if i < j {
        assert(s[i] != ':');
    }
}

/// A list that counts has no empty entry.
proof fn lemma_weight_no_empty(s: Seq<char>, v4: bool, j: int)
    requires
        weight(s, v4) is Some,
        0 <= j < s.len(),
        s[j] == ':',
    ensures
        0 < j < s.len() - 1,
        s[j + 1] != ':',
    decreases s.len(),
{
    let i = choose|i: int| first_colon(s, i);
    assert(s.contains(':'));
    let rest = s.subrange(i + 1, s.len() as int);
    if j < i {
        assert(s[j] != ':');
    } else if j == i {
        assert(weight(rest, v4) is Some);
        if rest.len() == 0 {
            assert(!rest.contains(':'));
            assert(!is_ipv4(rest)) by {
                assert forall|a: int, b: int, c: int| !dotted_quad(rest, a, b, c) by {}
            }
        } else {
            assert(rest[0] == s[j + 1]);
            if rest[0] == ':' {
                lemma_weight_no_empty(rest, v4, 0);
            }
        }
    } else {
        assert(rest[j - i - 1] == ':');
        lemma_weight_no_empty(rest, v4, j - i - 1);
        assert(rest[j - i] == s[j + 1]);
    }
}

/// The `::` of an address is the first one.
proof fn lemma_compressed_at_first(s: Seq<char>, i: int, j: int)
    requires
        compressed_at(s, j),
        0 <= i < s.len() - 1,
        s[i] == ':' && s[i + 1] == ':',
        forall|k: int| 0 <= k < i ==> !(s[k] == ':' && #[trigger] s[k + 1] == ':'),
    ensures
        i == j,
{
    if j < i {
        assert(!(s[j] == ':' && s[j + 1] == ':'));
    } else if i < j {
        let head = s.subrange(0, j);
        assert(head[i] == ':');
        lemma_weight_no_empty(head, false, i);
        assert(head[i + 1] == s[i + 1]);
    }
}

/// A list without a colon counts for two groups at most, so an IPv6 literal
/// always holds a colon.
pub proof fn lemma_ipv6_has_colon(s: Seq<char>)
    requires
        is_ipv6(s),
    ensures
        s.contains(':'),
{
    if weight(s, true) != Some(8nat) {
        let i = choose|i: int| compressed_at(s, i);
        assert(s[i] == ':');
    }
}

pub open spec fn address_char(c: char) -> bool {
    hex_digit(c) || c == ':' || c == '.'
}

proof fn lemma_ipv4_chars(s: Seq<char>)
    requires
        is_ipv4(s),
    ensures
        forall|k: int| 0 <= k < s.len() ==> address_char(#[trigger] s[k]),
{
    let (a, b, c) = choose|a: int, b: int, c: int| dotted_quad(s, a, b, c);
    assert forall|k: int| 0 <= k < s.len() implies address_char(#[trigger] s[k]) by {
        if k < a {
            assert(decimal_digit(s.subrange(0, a)[k]));
        } else if a < k < b {
            assert(decimal_digit(s.subrange(a + 1, b)[k - a - 1]));
        } else if b < k < c {
            assert(decimal_digit(s.subrange(b + 1, c)[k - b - 1]));
        } else if c < k {
            assert(decimal_digit(s.subrange(c + 1, s.len() as int)[k - c - 1]));
        }
    }
}

proof fn lemma_weight_chars(s: Seq<char>, v4: bool)
    requires
        weight(s, v4) is Some,
    ensures
        forall|k: int| 0 <= k < s.len() ==> address_char(#[trigger] s[k]),
    decreases s.len(),
{
    if !s.contains(':') {
        if !is_group(s) {
            lemma_ipv4_chars(s);
        }
    } else {
        let i = choose|i: int| first_colon(s, i);
        let rest = s.subrange(i + 1, s.len() as int);
        lemma_weight_chars(rest, v4);
        assert forall|k: int| 0 <= k < s.len() implies address_char(#[trigger] s[k]) by {
            if k < i {
                assert(hex_digit(s.subrange(0, i)[k]));
            } else if k > i {
                assert(address_char(rest[k - i - 1]));
            }
        }
    }
}

/// An IPv6 literal is made of hex digits, colons and dots alone.
pub proof fn lemma_ipv6_chars(s: Seq<char>)
    requires
        is_ipv6(s),
    ensures
        forall|k: int| 0 <= k < s.len() ==> address_char(#[trigger] s[k]),
{
    if weight(s, true) == Some(8nat) {
        lemma_weight_chars(s, true);
    } else {
        let i = choose|i: int| compressed_at(s, i);
        let head = s.subrange(0, i);
        let tail = s.subrange(i + 2, s.len() as int);
        if head.len() > 0 {
            lemma_weight_chars(head, false);
        }
        if tail.len() > 0 {
            lemma_weight_chars(tail, true);
        }
        assert forall|k: int| 0 <= k < s.len() implies address_char(#[trigger] s[k]) by {
            if k < i {
                assert(address_char(head[k]));
            } else if k > i + 1 {
                assert(address_char(tail[k - i - 2]));
            }
        }
    }
}

fn is_decimal_digit(c: char) -> (r: bool)
    ensures
        r == decimal_digit(c),
{
    '0' <= c && c <= '9'
}

fn is_hex_digit(c: char) -> (r: bool)
    ensures
        r == hex_digit(c),
{
    is_decimal_digit(c) || ('a' <= c && c <= 'f') || ('A' <= c && c <= 'F')
}

fn group(s: &Vec<char>, from: usize, to: usize) -> (r: bool)
    requires
        from <= to <= s@.len(),
    ensures
        r == is_group(s@.subrange(from as int, to as int)),
{
    let ghost part = s@.subrange(from as int, to as int);
    if to - from < 1 || to - from > 4 {
        return false;
    }
    let mut i: usize = from;
    while i < to
        invariant
            from <= i <= to <= s@.len(),
            part == s@.subrange(from as int, to as int),
            forall|k: int| 0 <= k < i - from ==> hex_digit(#[trigger] part[k]),
        decreases to - i,
    {
        if !is_hex_digit(s[i]) {
            assert(!hex_digit(part[i - from]));
            return false;
        }
        i = i + 1;
    }
    true
}

fn octet(s: &Vec<char>, from: usize, to: usize) -> (r: bool)
    requires
        from <= to <= s@.len(),
    ensures
        r == is_octet(s@.subrange(from as int, to as int)),
{
    let ghost part = s@.subrange(from as int, to as int);
    if to - from < 1 || to - from > 3 {
        return false;
    }
    let mut value: u32 = 0;
    let mut i: usize = from;
    assert(part.take(0) =~= Seq::<char>::empty());
    while i < to
        invariant
            from <= i <= to <= s@.len(),
            to - from <= 3,
            part == s@.subrange(from as int, to as int),
            forall|k: int| 0 <= k < i - from ==> decimal_digit(#[trigger] part[k]),
            value == number(part.take(i - from)),
            i - from == 0 ==> value == 0,
            i - from == 1 ==> value <= 9,
            i - from == 2 ==> value <= 99,
            i - from == 3 ==> value <= 999,
        decreases to - i,
    {
        let c = s[i];
        if !is_decimal_digit(c) {
            assert(!decimal_digit(part[i - from]));
            return false;
        }
        proof {
            let longer = part.take(i - from + 1);
            assert(longer.drop_last() =~= part.take(i - from));
            assert(longer.last() == c);
        }
        value = value * 10 + (c as u32 - '0' as u32);
        i = i + 1;
    }
    assert(part.take(to - from) =~= part);
    if to - from > 1 && s[from] == '0' {
        assert(part[0] == '0');
        return false;
    }
    assert(to - from > 1 ==> part[0] != '0');
    value <= 255
}

/// The first `want` in `s[from..to]`, or `to`.
fn find(s: &Vec<char>, from: usize, to: usize, want: char) -> (i: usize)
    requires
        from <= to <= s@.len(),
    ensures
        from <= i <= to,
        i < to ==> s@[i as int] == want,
        forall|k: int| from <= k < i ==> #[trigger] s@[k] != want,
{
    let mut i: usize = from;
    while i < to && s[i] != want
        invariant
            from <= i <= to <= s@.len(),
            forall|k: int| from <= k < i ==> #[trigger] s@[k] != want,
        decreases to - i,
    {
        i = i + 1;
    }
    i
}

/// Whether `at` is the first dot of `s` from place `from` on, or its end.
spec fn dot_from(s: Seq<char>, from: int, at: int) -> bool {
    &&& from <= at <= s.len()
    &&& at < s.len() ==> s[at] == '.'
    &&& forall|k: int| from <= k < at ==> #[trigger] s[k] != '.'
}

proof fn lemma_octet_has_no_dot(s: Seq<char>, lo: int, hi: int)
    requires
        0 <= lo <= hi <= s.len(),
        is_octet(s.subrange(lo, hi)),
    ensures
        forall|k: int| lo <= k < hi ==> #[trigger] s[k] != '.',
{
    assert forall|k: int| lo <= k < hi implies #[trigger] s[k] != '.' by {
        assert(decimal_digit(s.subrange(lo, hi)[k - lo]));
    }
}

/// The dots of a dotted quad are the first three.
proof fn lemma_quad_dots(s: Seq<char>, x: int, y: int, z: int, a: int, b: int, c: int)
    requires
        dotted_quad(s, x, y, z),
        dot_from(s, 0, a),
        a < s.len() ==> dot_from(s, a + 1, b),
        a < s.len() && b < s.len() ==> dot_from(s, b + 1, c),
    ensures
        x == a,
        y == b,
        z == c,
{
    lemma_octet_has_no_dot(s, 0, x);
    lemma_octet_has_no_dot(s, x + 1, y);
    lemma_octet_has_no_dot(s, y + 1, z);
}

fn ipv4(s: &Vec<char>, from: usize, to: usize) -> (r: bool)
    requires
        from <= to <= s@.len(),
    ensures
        r == is_ipv4(s@.subrange(from as int, to as int)),
{
    let ghost part = s@.subrange(from as int, to as int);
    let ghost base = from as int;
    let a: usize = find(s, from, to, '.');
    let b: usize = if a < to {
        find(s, a + 1, to, '.')
    } else {
        to
    };
    let c: usize = if b < to {
        find(s, b + 1, to, '.')
    } else {
        to
    };
    proof {
        assert(dot_from(part, 0, a - base));
        assert(a < to ==> dot_from(part, a - base + 1, b - base));
        assert(a < to && b < to ==> dot_from(part, b - base + 1, c - base));
        assert forall|x: int, y: int, z: int| dotted_quad(part, x, y, z) implies x == a - base && y
            == b - base && z == c - base by {
            lemma_quad_dots(part, x, y, z, a - base, b - base, c - base);
        }
    }
    if c >= to {
        return false;
    }
    let r = octet(s, from, a) && octet(s, a + 1, b) && octet(s, b + 1, c) && octet(s, c + 1, to);
    proof {
        assert(part.subrange(0, a - base) =~= s@.subrange(base, a as int));
        assert(part.subrange(a - base + 1, b - base) =~= s@.subrange(a + 1, b as int));
        assert(part.subrange(b - base + 1, c - base) =~= s@.subrange(b + 1, c as int));
        assert(part.subrange(c - base + 1, part.len() as int) =~= s@.subrange(c + 1, to as int));
        assert(r == dotted_quad(part, a - base, b - base, c - base));
    }
    r
}

/// A count with `n` groups more.
pub open spec fn with_more(count: Option<nat>, n: nat) -> Option<nat> {
    match count {
        Some(m) => Some(m + n),
        None => None,
    }
}

/// A list is its first entry and the rest after the first colon.
pub proof fn lemma_weight_step(s: Seq<char>, v4: bool, i: int)
    requires
        first_colon(s, i),
    ensures
        weight(s, v4) == if is_group(s.subrange(0, i)) {
            with_more(weight(s.subrange(i + 1, s.len() as int), v4), 1)
        } else {
            None
        },
{
    lemma_first_colon_unique(s, i);
}

/// How many groups `s[from..to]` stands for.
fn count(s: &Vec<char>, from: usize, to: usize, v4: bool) -> (r: Option<usize>)
    requires
        from <= to <= s@.len(),
    ensures
        match r {
            Some(n) => weight(s@.subrange(from as int, to as int), v4) == Some(n as nat),
            None => weight(s@.subrange(from as int, to as int), v4) is None,
        },
{
    let ghost whole = weight(s@.subrange(from as int, to as int), v4);
    let mut at: usize = from;
    let mut groups: usize = 0;
    let mut i: usize = find(s, from, to, ':');
    while i < to
        invariant
            from <= at <= i <= to <= s@.len(),
            i < to ==> s@[i as int] == ':',
            forall|k: int| at <= k < i ==> #[trigger] s@[k] != ':',
            groups <= at - from,
            whole == weight(s@.subrange(from as int, to as int), v4),
            whole == with_more(weight(s@.subrange(at as int, to as int), v4), groups as nat),
        decreases to - at,
    {
        proof {
            let rest = s@.subrange(at as int, to as int);
            assert(first_colon(rest, i - at));
            lemma_weight_step(rest, v4, i - at);
            assert(rest.subrange(0, i - at) =~= s@.subrange(at as int, i as int));
            assert(rest.subrange(i - at + 1, rest.len() as int) =~= s@.subrange(
                i + 1,
                to as int,
            ));
        }
        if !group(s, at, i) {
            return None;
        }
        groups = groups + 1;
        at = i + 1;
        i = find(s, at, to, ':');
    }
    let ghost last = s@.subrange(at as int, to as int);
    assert(!last.contains(':')) by {
        if last.contains(':') {
            let k = choose|k: int| 0 <= k < last.len() && last[k] == ':';
            assert(s@[k + at] == ':');
        }
    }
    if group(s, at, to) {
        Some(groups + 1)
    } else if v4 && ipv4(s, at, to) {
        proof {
            lemma_ipv4_has_dots(last);
        }
        Some(groups + 2)
    } else {
        None
    }
}

proof fn lemma_ipv4_has_dots(s: Seq<char>)
    requires
        is_ipv4(s),
    ensures
        s.len() > 2,
{
    let (a, b, c) = choose|a: int, b: int, c: int| dotted_quad(s, a, b, c);
    assert(s[a] == '.');
}

fn count_side(s: &Vec<char>, from: usize, to: usize, v4: bool) -> (r: Option<usize>)
    requires
        from <= to <= s@.len(),
    ensures
        match r {
            Some(n) => side(s@.subrange(from as int, to as int), v4) == Some(n as nat),
            None => side(s@.subrange(from as int, to as int), v4) is None,
        },
{
    if from == to {
        Some(0)
    } else {
        count(s, from, to, v4)
    }
}

/// Whether `host` is an IPv6 literal.
pub fn parses_as_ipv6(host: &str) -> (r: bool)
    ensures
        r == is_ipv6(host@),
{
    let s = chars_of(host);
    let len: usize = s.len();
    let mut i: usize = 0;
    while i < len && !(s[i] == ':' && i + 1 < len && s[i + 1] == ':')
        invariant
            len == s@.len(),
            i <= len,
            forall|k: int|
                0 <= k < i && k + 1 < len ==> !(s@[k] == ':' && #[trigger] s@[k + 1] == ':'),
        decreases len - i,
    {
        i = i + 1;
    }
    assert(s@.subrange(0, len as int) =~= host@);
    if i == len {
        assert forall|j: int| !compressed_at(host@, j) by {
            if compressed_at(host@, j) {
                assert(!(s@[j] == ':' && s@[j + 1] == ':'));
            }
        }
        match count(&s, 0, len, true) {
            Some(n) => n == 8,
            None => false,
        }
    } else {
        proof {
            assert(s@[i as int] == ':' && s@[i + 1] == ':');
            if weight(host@, true) is Some {
                lemma_weight_no_empty(host@, true, i as int);
            }
            assert forall|j: int| compressed_at(host@, j) implies j == i by {
                lemma_compressed_at_first(host@, i as int, j);
            }
        }
        let head = count_side(&s, 0, i, false);
        let tail = count_side(&s, i + 2, len, true);
        match (head, tail) {
            (Some(h), Some(t)) => {
                let r = h <= 7 && t <= 7 && h + t <= 7;
                assert(r ==> compressed_at(host@, i as int));
                r
            },
            _ => false,
        }
    }
}

} // verus!
