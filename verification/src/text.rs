//! Character-level text operations and their mathematical models.
//!
//! Strings are modelled as sequences of characters (`Seq<char>`). Every
//! executable helper in this module states its result over that model.

use vstd::prelude::*;
use vstd::string::StringExecFns;
use vstd::utf8::{decode_utf8, valid_utf8};

verus! {

/// Unicode white space (the `White_Space` property).
pub open spec fn is_whitespace(c: char) -> bool {
    let u = c as u32;
    (0x09 <= u && u <= 0x0d) || u == 0x20 || u == 0x85 || u == 0xa0 || u == 0x1680 || (0x2000 <= u
        && u <= 0x200a) || u == 0x2028 || u == 0x2029 || u == 0x202f || u == 0x205f || u == 0x3000
}

/// Unicode control characters (general category `Cc`).
pub open spec fn is_control(c: char) -> bool {
    let u = c as u32;
    u <= 0x1f || (0x7f <= u && u <= 0x9f)
}

/// `s` without its leading white space.
pub open spec fn trim_start(s: Seq<char>) -> Seq<char>
    decreases s.len(),
{
    if s.len() > 0 && is_whitespace(s.first()) {
        trim_start(s.drop_first())
    } else {
        s
    }
}

/// `s` without its trailing white space.
pub open spec fn trim_end(s: Seq<char>) -> Seq<char>
    decreases s.len(),
{
    if s.len() > 0 && is_whitespace(s.last()) {
        trim_end(s.drop_last())
    } else {
        s
    }
}

/// `s` without leading and trailing white space.
pub open spec fn trim(s: Seq<char>) -> Seq<char> {
    trim_end(trim_start(s))
}

/// Decides [`is_whitespace`].
pub fn char_is_whitespace(c: char) -> (r: bool)
    ensures
        r == is_whitespace(c),
{
    let u: u32 = c as u32;
    (0x09 <= u && u <= 0x0d) || u == 0x20 || u == 0x85 || u == 0xa0 || u == 0x1680 || (0x2000 <= u
        && u <= 0x200a) || u == 0x2028 || u == 0x2029 || u == 0x202f || u == 0x205f || u == 0x3000
}

/// Decides [`is_control`].
pub fn char_is_control(c: char) -> (r: bool)
    ensures
        r == is_control(c),
{
    let u: u32 = c as u32;
    u <= 0x1f || (0x7f <= u && u <= 0x9f)
}

/// The characters of `s`, in order.
pub fn to_chars(s: &str) -> (v: Vec<char>)
    ensures
        v@ == s@,
{
    let mut v: Vec<char> = Vec::new();
    for c in it: s.chars()
        invariant
            it.seq() == s@,
            v@ == s@.take(it.index() as int),
    {
        v.push(c);
        assert(s@.take(it.index() + 1) =~= s@.take(it.index() as int).push(c));
    }
    assert(s@.take(s@.len() as int) =~= s@);
    v
}

/// Where the trimmed part of `v[from..to]` starts and ends.
pub(crate) fn trim_bounds_in(v: &Vec<char>, from: usize, to: usize) -> (r: (usize, usize))
    requires
        from <= to <= v@.len(),
    ensures
        from <= r.0 <= r.1 <= to,
        v@.subrange(r.0 as int, r.1 as int) == trim(v@.subrange(from as int, to as int)),
{
    let ghost part = v@.subrange(from as int, to as int);
    let mut a: usize = from;
    assert(part.skip(0) =~= part);
    while a < to && char_is_whitespace(v[a])
        invariant
            from <= a <= to <= v@.len(),
            part == v@.subrange(from as int, to as int),
            trim_start(part) == trim_start(part.skip(a - from)),
        decreases to - a,
    {
        assert(part.skip(a - from).drop_first() =~= part.skip(a + 1 - from));
        a = a + 1;
    }
    let mut b: usize = to;
    assert(part.skip(a - from) =~= v@.subrange(a as int, b as int));
    while b > a && char_is_whitespace(v[b - 1])
        invariant
            from <= a <= b <= to <= v@.len(),
            trim(part) == trim_end(v@.subrange(a as int, b as int)),
        decreases b - a,
    {
        assert(v@.subrange(a as int, b as int).drop_last() =~= v@.subrange(a as int, b - 1));
        b = b - 1;
    }
    (a, b)
}

/// Where the trimmed part of `v` starts and ends.
pub fn trim_bounds(v: &Vec<char>) -> (r: (usize, usize))
    ensures
        r.0 <= r.1 <= v@.len(),
        v@.subrange(r.0 as int, r.1 as int) == trim(v@),
{
    assert(v@.subrange(0, v@.len() as int) =~= v@);
    trim_bounds_in(v, 0, v.len())
}

/// `s` without leading and trailing white space, as a slice of `s`.
pub fn trim_str(s: &str) -> (r: &str)
    ensures
        r@ == trim(s@),
{
    let v: Vec<char> = to_chars(s);
    let (a, b) = trim_bounds(&v);
    s.substring_char(a, b)
}

/// Whether `needle` stands in `hay` at index `i`.
pub open spec fn occurs_at(hay: Seq<char>, needle: Seq<char>, i: int) -> bool {
    0 <= i && i + needle.len() <= hay.len() && hay.subrange(i, i + needle.len()) == needle
}

/// The first index at or after `start` at which `needle` stands in `hay`.
pub open spec fn find_from(hay: Seq<char>, needle: Seq<char>, start: int) -> Option<int>
    decreases hay.len() - start + 1,
{
    if start < 0 || start + needle.len() > hay.len() {
        None
    } else if occurs_at(hay, needle, start) {
        Some(start)
    } else {
        find_from(hay, needle, start + 1)
    }
}

/// The index of the first occurrence of `needle` in `hay`.
pub open spec fn find(hay: Seq<char>, needle: Seq<char>) -> Option<int> {
    find_from(hay, needle, 0)
}

/// [`find_from`] returns the least occurrence at or after `start`, and `None`
/// only where there is none.
pub proof fn lemma_find_from(hay: Seq<char>, needle: Seq<char>, start: int)
    requires
        0 <= start,
    ensures
        match find_from(hay, needle, start) {
            Some(i) => start <= i && occurs_at(hay, needle, i) && forall|j: int|
                start <= j < i ==> !occurs_at(hay, needle, j),
            None => forall|j: int| start <= j ==> !occurs_at(hay, needle, j),
        },
    decreases hay.len() - start + 1,
{
    if start + needle.len() > hay.len() {
    } else if occurs_at(hay, needle, start) {
    } else {
        lemma_find_from(hay, needle, start + 1);
    }
}

/// Decides [`occurs_at`] for an index at which `needle` still fits.
pub(crate) fn matches_at(hay: &Vec<char>, needle: &Vec<char>, i: usize) -> (r: bool)
    requires
        i + needle@.len() <= hay@.len(),
    ensures
        r == occurs_at(hay@, needle@, i as int),
{
    let m: usize = needle.len();
    let mut k: usize = 0;
    while k < m
        invariant
            k <= m == needle@.len(),
            i + m <= hay.len(),
            forall|j: int| 0 <= j < k ==> hay@[i + j] == needle@[j],
        decreases m - k,
    {
        if hay[i + k] != needle[k] {
            assert(hay@.subrange(i as int, i + m)[k as int] != needle@[k as int]);
            return false;
        }
        k = k + 1;
    }
    assert(hay@.subrange(i as int, i + m) =~= needle@);
    true
}

/// The index of the first occurrence of `needle` in `hay`.
pub fn find_in(hay: &Vec<char>, needle: &Vec<char>) -> (r: Option<usize>)
    ensures
        match r {
            Some(i) => find(hay@, needle@) == Some(i as int),
            None => find(hay@, needle@) is None,
        },
{
    let n: usize = hay.len();
    let m: usize = needle.len();
    if m > n {
        return None;
    }
    let last: usize = n - m;
    let mut i: usize = 0;
    loop
        invariant
            last == n - m,
            n == hay@.len(),
            m == needle@.len(),
            i <= last,
            find(hay@, needle@) == find_from(hay@, needle@, i as int),
        decreases last - i,
    {
        if matches_at(hay, needle, i) {
            return Some(i);
        }
        if i == last {
            return None;
        }
        i = i + 1;
    }
}

/// Whether `v` begins with `prefix`.
pub fn has_prefix(v: &Vec<char>, prefix: &Vec<char>) -> (r: bool)
    ensures
        r == prefix@.is_prefix_of(v@),
{
    if prefix.len() > v.len() {
        return false;
    }
    matches_at(v, prefix, 0)
}

/// The longest prefix of `s` that holds no white space.
pub open spec fn leading_word(s: Seq<char>) -> Seq<char>
    decreases s.len(),
{
    if s.len() > 0 && !is_whitespace(s.first()) {
        seq![s.first()] + leading_word(s.drop_first())
    } else {
        Seq::empty()
    }
}

/// The first white-space-delimited word of `s`; empty where `s` holds none.
pub open spec fn first_token(s: Seq<char>) -> Seq<char> {
    leading_word(trim_start(s))
}

/// The first white-space-delimited word of `s`, as a slice of `s`.
pub fn first_token_str(s: &str) -> (r: &str)
    ensures
        r@ == first_token(s@),
{
    let v: Vec<char> = to_chars(s);
    let n: usize = v.len();
    let mut a: usize = 0;
    assert(v@.skip(0) =~= v@);
    while a < n && char_is_whitespace(v[a])
        invariant
            a <= n == v@.len(),
            trim_start(v@) == trim_start(v@.skip(a as int)),
        decreases n - a,
    {
        assert(v@.skip(a as int).drop_first() =~= v@.skip(a + 1));
        a = a + 1;
    }
    let mut b: usize = a;
    assert(v@.subrange(a as int, a as int) =~= Seq::<char>::empty());
    assert(v@.skip(a as int) =~= trim_start(v@));
    while b < n && !char_is_whitespace(v[b])
        invariant
            a <= b <= n == v@.len(),
            trim_start(v@) == v@.skip(a as int),
            leading_word(v@.skip(a as int)) == v@.subrange(a as int, b as int) + leading_word(
                v@.skip(b as int),
            ),
        decreases n - b,
    {
        assert(v@.skip(b as int).drop_first() =~= v@.skip(b + 1));
        assert(v@.subrange(a as int, b as int) + seq![v@[b as int]] =~= v@.subrange(
            a as int,
            b + 1,
        ));
        assert(leading_word(v@.skip(b as int)) == seq![v@[b as int]] + leading_word(
            v@.skip(b + 1),
        ));
        b = b + 1;
    }
    assert(leading_word(v@.skip(b as int)) =~= Seq::<char>::empty());
    s.substring_char(a, b)
}

/// The longest prefix of `s` that does not hold `sep`.
pub open spec fn until(s: Seq<char>, sep: char) -> Seq<char>
    decreases s.len(),
{
    if s.len() > 0 && s.first() != sep {
        seq![s.first()] + until(s.drop_first(), sep)
    } else {
        Seq::empty()
    }
}

/// The pieces of `s` between the occurrences of `sep`; one more piece than
/// there are separators.
pub open spec fn split(s: Seq<char>, sep: char) -> Seq<Seq<char>>
    decreases s.len(),
{
    let head = until(s, sep);
    if head.len() >= s.len() {
        seq![head]
    } else {
        seq![head] + split(s.skip(head.len() as int + 1), sep)
    }
}

/// Where the piece of `v` that starts at `from` ends: at the next `sep`, or
/// at the end of `v`.
pub(crate) fn until_index(v: &Vec<char>, from: usize, sep: char) -> (j: usize)
    requires
        from <= v@.len(),
    ensures
        from <= j <= v@.len(),
        v@.subrange(from as int, j as int) == until(v@.skip(from as int), sep),
        j < v@.len() ==> v@[j as int] == sep,
{
    let n: usize = v.len();
    let mut j: usize = from;
    assert(v@.subrange(from as int, from as int) + until(v@.skip(from as int), sep) =~= until(
        v@.skip(from as int),
        sep,
    ));
    while j < n && v[j] != sep
        invariant
            from <= j <= n == v@.len(),
            until(v@.skip(from as int), sep) == v@.subrange(from as int, j as int) + until(
                v@.skip(j as int),
                sep,
            ),
        decreases n - j,
    {
        assert(v@.skip(j as int).drop_first() =~= v@.skip(j + 1));
        assert(v@.subrange(from as int, j as int) + (seq![v@[j as int]] + until(
            v@.skip(j + 1),
            sep,
        )) =~= v@.subrange(from as int, j + 1) + until(v@.skip(j + 1), sep));
        j = j + 1;
    }
    assert(until(v@.skip(j as int), sep) =~= Seq::<char>::empty());
    assert(v@.subrange(from as int, j as int) + Seq::<char>::empty() =~= v@.subrange(
        from as int,
        j as int,
    ));
    j
}

/// The items of a comma-separated list: the pieces between the commas,
/// trimmed, without those that are empty.
pub open spec fn list_items(text: Seq<char>) -> Seq<Seq<char>> {
    split(text, ',').map_values(|piece: Seq<char>| trim(piece)).filter(
        |item: Seq<char>| item.len() > 0,
    )
}

/// The items of a comma-separated list.
pub fn split_list(text: &str) -> (r: Vec<String>)
    ensures
        r.deep_view() == list_items(text@),
{
    let v: Vec<char> = to_chars(text);
    let n: usize = v.len();
    let mut items: Vec<String> = Vec::new();
    let mut start: usize = 0;
    let ghost nonempty = |item: Seq<char>| item.len() > 0;
    let ghost trimmed = |piece: Seq<char>| trim(piece);
    let ghost mut pieces: Seq<Seq<char>> = Seq::empty();
    proof {
        assert(v@.skip(0) =~= v@);
        assert(pieces + split(v@.skip(0), ',') =~= split(v@, ','));
        assert(pieces.map_values(trimmed) =~= Seq::<Seq<char>>::empty());
        reveal(Seq::filter);
        assert(items.deep_view() =~= pieces.map_values(trimmed).filter(nonempty));
    }
    loop
        invariant
            start <= n == v@.len(),
            v@ == text@,
            nonempty == |item: Seq<char>| item.len() > 0,
            trimmed == |piece: Seq<char>| trim(piece),
            split(v@, ',') == pieces + split(v@.skip(start as int), ','),
            items.deep_view() == pieces.map_values(trimmed).filter(nonempty),
        decreases n - start,
    {
        let end: usize = until_index(&v, start, ',');
        let (a, b) = trim_bounds_in(&v, start, end);
        let ghost piece = v@.subrange(start as int, end as int);
        let ghost before = items.deep_view();
        if a < b {
            assert(v@.subrange(a as int, b as int) =~= text@.subrange(a as int, b as int));
            items.push(text.substring_char(a, b).to_owned());
            assert(items.deep_view() =~= before.push(trim(piece)));
        }
        proof {
            pieces.map_values(trimmed).lemma_filter_push(trim(piece), nonempty);
            assert(pieces.push(piece).map_values(trimmed) =~= pieces.map_values(trimmed).push(
                trim(piece),
            ));
            assert(v@.skip(start as int).len() == n - start);
        }
        if end == n {
            proof {
                assert(split(v@.skip(start as int), ',') =~= seq![piece]);
                assert(pieces + seq![piece] =~= pieces.push(piece));
            }
            return items;
        }
        proof {
            assert(v@.skip(start as int).skip(piece.len() as int + 1) =~= v@.skip(end + 1));
            assert(pieces + (seq![piece] + split(v@.skip(end + 1), ',')) =~= pieces.push(piece)
                + split(v@.skip(end + 1), ','));
            pieces = pieces.push(piece);
        }
        start = end + 1;
    }
}

/// The text that `String::from_utf8_lossy` makes of `bytes`.
pub uninterp spec fn utf8_lossy(bytes: Seq<u8>) -> Seq<char>;

/// Decodes `bytes` with `String::from_utf8_lossy`: valid UTF-8 is decoded as
/// it stands, and every invalid sequence becomes one replacement character.
/// The contract names the result and says no more of it than that valid
/// UTF-8 decodes to its own characters.
#[verifier::external_body]
pub(crate) fn decode_lossy(bytes: &[u8]) -> (r: String)
    ensures
        r@ == utf8_lossy(bytes@),
        valid_utf8(bytes@) ==> r@ == decode_utf8(bytes@),
{
    String::from_utf8_lossy(bytes).into_owned()
}

/// The parts of `parts` in order, with `sep` between neighbours.
pub open spec fn join(parts: Seq<Seq<char>>, sep: char) -> Seq<char>
    decreases parts.len(),
{
    if parts.len() == 0 {
        Seq::empty()
    } else if parts.len() == 1 {
        parts[0]
    } else {
        join(parts.drop_last(), sep).push(sep) + parts.last()
    }
}

/// The character of the decimal digit `d`.
pub open spec fn digit_char(d: int) -> char {
    if d == 0 {
        '0'
    } else if d == 1 {
        '1'
    } else if d == 2 {
        '2'
    } else if d == 3 {
        '3'
    } else if d == 4 {
        '4'
    } else if d == 5 {
        '5'
    } else if d == 6 {
        '6'
    } else if d == 7 {
        '7'
    } else if d == 8 {
        '8'
    } else {
        '9'
    }
}

/// The decimal digits of `n`, most significant first, without leading zeros.
pub open spec fn decimal_nat(n: nat) -> Seq<char>
    decreases n,
{
    if n < 10 {
        seq![digit_char(n as int)]
    } else {
        decimal_nat(n / 10).push(digit_char((n % 10) as int))
    }
}

/// The decimal notation of `n`, with a minus sign where it is negative.
pub open spec fn decimal(n: int) -> Seq<char> {
    if n < 0 {
        seq!['-'] + decimal_nat((-n) as nat)
    } else {
        decimal_nat(n as nat)
    }
}

/// The one-character text of the decimal digit `d`.
pub(crate) fn digit_str(d: u8) -> (r: &'static str)
    requires
        d < 10,
    ensures
        r@ == seq![digit_char(d as int)],
{
    proof {
        reveal_strlit("0");
        reveal_strlit("1");
        reveal_strlit("2");
        reveal_strlit("3");
        reveal_strlit("4");
        reveal_strlit("5");
        reveal_strlit("6");
        reveal_strlit("7");
        reveal_strlit("8");
        reveal_strlit("9");
    }
    let r: &'static str = if d == 0 {
        "0"
    } else if d == 1 {
        "1"
    } else if d == 2 {
        "2"
    } else if d == 3 {
        "3"
    } else if d == 4 {
        "4"
    } else if d == 5 {
        "5"
    } else if d == 6 {
        "6"
    } else if d == 7 {
        "7"
    } else if d == 8 {
        "8"
    } else {
        "9"
    };
    assert(r@ =~= seq![digit_char(d as int)]);
    r
}

/// The decimal notation of `n`.
pub fn u64_to_decimal(n: u64) -> (r: String)
    ensures
        r@ == decimal_nat(n as nat),
{
    let mut rest: u64 = n;
    let mut out: String = String::new();
    assert(decimal_nat(n as nat) =~= decimal_nat(rest as nat) + out@);
    loop
        invariant_except_break
            decimal_nat(n as nat) == decimal_nat(rest as nat) + out@,
        ensures
            out@ == decimal_nat(n as nat),
        decreases rest,
    {
        let d: u8 = (rest % 10) as u8;
        let ghost before = out@;
        out = String::from_str(digit_str(d)).concat(out.as_str());
        if rest < 10 {
            break ;
        }
        assert(decimal_nat(rest as nat) + before =~= decimal_nat((rest / 10) as nat) + out@);
        rest = rest / 10;
    }
    out
}

/// The decimal notation of `n`.
pub fn i64_to_decimal(n: i64) -> (r: String)
    ensures
        r@ == decimal(n as int),
{
    if n < 0 {
        proof {
            reveal_strlit("-");
        }
        let magnitude: u64 = if n == i64::MIN {
            0x8000_0000_0000_0000
        } else {
            (-n) as u64
        };
        let r: String = String::from_str("-").concat(u64_to_decimal(magnitude).as_str());
        assert(r@ =~= decimal(n as int));
        r
    } else {
        u64_to_decimal(n as u64)
    }
}

/// `s` without the occurrences of `c` at its end.
pub open spec fn trim_end_matches(s: Seq<char>, c: char) -> Seq<char>
    decreases s.len(),
{
    if s.len() > 0 && s.last() == c {
        trim_end_matches(s.drop_last(), c)
    } else {
        s
    }
}

/// How many characters of the first `len` of `v` are left when the
/// occurrences of `c` at their end are dropped.
pub(crate) fn trim_end_matches_len(v: &Vec<char>, len: usize, c: char) -> (r: usize)
    requires
        len <= v@.len(),
    ensures
        r <= len,
        v@.take(r as int) == trim_end_matches(v@.take(len as int), c),
{
    let mut b: usize = len;
    while b > 0 && v[b - 1] == c
        invariant
            b <= len <= v@.len(),
            trim_end_matches(v@.take(len as int), c) == trim_end_matches(v@.take(b as int), c),
        decreases b,
    {
        assert(v@.take(b as int).drop_last() =~= v@.take(b - 1));
        b = b - 1;
    }
    b
}

} // verus!
