//! Text helpers: decimal numerals, the debug form of byte lists, and the
//! splitting, trimming and numeral parsing that error messages go through.

use vstd::prelude::*;
use vstd::string::StrSliceExecFns;
use vstd::string::StringExecFns;

verus! {

/// The decimal digit character for `d < 10`.
pub open spec fn digit_char(d: nat) -> char {
    if d == 0 {
        '0'
    } else if d == 1 {
        '1'
    } else if d == 2 {
        '2'
    } else if d == 3 {
        '3'
    } else if d == 4 {
        '4'
    } else if d == 5 {
        '5'
    } else if d == 6 {
        '6'
    } else if d == 7 {
        '7'
    } else if d == 8 {
        '8'
    } else {
        '9'
    }
}

/// The decimal numeral of `n`, without leading zeros.
pub open spec fn decimal(n: nat) -> Seq<char>
    decreases n,
{
    if n < 10 {
        seq![digit_char(n)]
    } else {
        decimal(n / 10).push(digit_char(n % 10))
    }
}

fn digit_str(d: u64) -> (r: &'static str)
    requires
        d < 10,
    ensures
        r@ == seq![digit_char(d as nat)],
{
    proof {
        reveal_strlit("0");
        reveal_strlit("1");
        reveal_strlit("2");
        reveal_strlit("3");
        reveal_strlit("4");
        reveal_strlit("5");
        reveal_strlit("6");
        reveal_strlit("7");
        reveal_strlit("8");
        reveal_strlit("9");
    }
    if d == 0 {
        "0"
    } else if d == 1 {
        "1"
    } else if d == 2 {
        "2"
    } else if d == 3 {
        "3"
    } else if d == 4 {
        "4"
    } else if d == 5 {
        "5"
    } else if d == 6 {
        "6"
    } else if d == 7 {
        "7"
    } else if d == 8 {
        "8"
    } else {
        "9"
    }
}

/// Appends the decimal numeral of `n`.
pub fn push_decimal(s: &mut String, n: u64)
    ensures
        final(s)@ == old(s)@ + decimal(n as nat),
    decreases n,
{
    let ghost start = s@;
    if n >= 10 {
        push_decimal(s, n / 10);
    }
    s.append(digit_str(n % 10));
    proof {
        if n >= 10 {
            assert(s@ =~= start + decimal(n as nat));
        } else {
            assert(s@ =~= start + decimal(n as nat));
        }
    }
}

/// The comma-separated decimal numerals of `b`.
pub open spec fn debug_items(b: Seq<u8>) -> Seq<char>
    decreases b.len(),
{
    if b.len() == 0 {
        Seq::empty()
    } else if b.len() == 1 {
        decimal(b[0] as nat)
    } else {
        debug_items(b.drop_last()) + ", "@ + decimal(b.last() as nat)
    }
}

/// The debug form of a byte list, such as `[1, 2, 3]`.
pub open spec fn debug_bytes(b: Seq<u8>) -> Seq<char> {
    "["@ + debug_items(b) + "]"@
}

/// Appends the debug form of a byte list.
pub fn push_debug_bytes(s: &mut String, b: &[u8])
    ensures
        final(s)@ == old(s)@ + debug_bytes(b@),
{
    let ghost start = s@;
    s.append("[");
    let ghost after_open = s@;
    let mut i: usize = 0;
    while i < b.len()
        invariant
            i <= b@.len(),
            after_open == start + "["@,
            s@ == after_open + debug_items(b@.subrange(0, i as int)),
        decreases b@.len() - i,
    {
        let ghost before = s@;
        if i > 0 {
            s.append(", ");
        }
        push_decimal(s, b[i] as u64);
        proof {
            let pre = b@.subrange(0, i + 1);
            assert(pre.drop_last() =~= b@.subrange(0, i as int));
            assert(pre.last() == b@[i as int]);
            if i == 0 {
                assert(b@.subrange(0, 0) =~= Seq::<u8>::empty());
                assert(s@ =~= after_open + debug_items(pre));
            } else {
                assert(s@ =~= after_open + debug_items(pre));
            }
        }
        i = i + 1;
    }
    s.append("]");
    assert(b@.subrange(0, i as int) =~= b@);
    assert(s@ =~= start + debug_bytes(b@));
}

/// The index of the first `c` in `s`, or the length when there is none.
pub open spec fn find_char(s: Seq<char>, c: char) -> int
    decreases s.len(),
{
    if s.len() == 0 {
        0
    } else if s[0] == c {
        0
    } else {
        1 + find_char(s.subrange(1, s.len() as int), c)
    }
}

proof fn lemma_find_char_bounds(s: Seq<char>, c: char)
    ensures
        0 <= find_char(s, c) <= s.len(),
        find_char(s, c) < s.len() ==> s[find_char(s, c)] == c,
    decreases s.len(),
{
    if s.len() > 0 && s[0] != c {
        let t = s.subrange(1, s.len() as int);
        lemma_find_char_bounds(t, c);
        if find_char(t, c) < t.len() {
            assert(s[find_char(s, c)] == t[find_char(t, c)]);
        }
    }
}

/// The `n`-th piece of `s` split at every `c`, or `None` when there are
/// fewer pieces.
pub open spec fn split_piece(s: Seq<char>, c: char, n: nat) -> Option<Seq<char>>
    decreases n,
{
    let cut = find_char(s, c);
    if n == 0 {
        Some(s.subrange(0, cut))
    } else if cut >= s.len() {
        None
    } else {
        split_piece(s.subrange(cut + 1, s.len() as int), c, (n - 1) as nat)
    }
}

/// Unicode white space.
pub open spec fn is_white_space(c: char) -> bool {
    let v = c as u32;
    (0x9 <= v && v <= 0xd) || v == 0x20 || v == 0x85 || v == 0xa0 || v == 0x1680 || (0x2000 <= v
        && v <= 0x200a) || v == 0x2028 || v == 0x2029 || v == 0x202f || v == 0x205f || v == 0x3000
}

/// `s` without leading white space.
pub open spec fn trim_start(s: Seq<char>) -> Seq<char>
    decreases s.len(),
{
    if s.len() > 0 && is_white_space(s[0]) {
        trim_start(s.subrange(1, s.len() as int))
    } else {
        s
    }
}

/// `s` without trailing white space.
pub open spec fn trim_end(s: Seq<char>) -> Seq<char>
    decreases s.len(),
{
    if s.len() > 0 && is_white_space(s.last()) {
        trim_end(s.drop_last())
    } else {
        s
    }
}

/// `s` without leading or trailing white space.
pub open spec fn trim(s: Seq<char>) -> Seq<char> {
    trim_end(trim_start(s))
}

/// Whether `c` is an ASCII decimal digit.
pub open spec fn is_digit(c: char) -> bool {
    '0' <= c && c <= '9'
}

/// The value of a string of decimal digits.
pub open spec fn digits_value(s: Seq<char>) -> nat
    decreases s.len(),
{
    if s.len() == 0 {
        0
    } else {
        digits_value(s.drop_last()) * 10 + ((s.last() as u32) - ('0' as u32)) as nat
    }
}

/// `s` without one leading `+`.
pub open spec fn unsigned_digits(s: Seq<char>) -> Seq<char> {
    if s.len() > 0 && s[0] == '+' {
        s.subrange(1, s.len() as int)
    } else {
        s
    }
}

/// What parsing `s` as a `u64` gives: an optional `+` followed by at least
/// one decimal digit, with a value that fits.
pub open spec fn parse_u64_spec(s: Seq<char>) -> Option<u64> {
    let d = unsigned_digits(s);
    if d.len() > 0 && (forall|i: int| 0 <= i < d.len() ==> is_digit(#[trigger] d[i]))
        && digits_value(d) <= u64::MAX {
        Some(digits_value(d) as u64)
    } else {
        None
    }
}

/// The characters of a string slice.
pub fn chars_of(s: &str) -> (v: Vec<char>)
    ensures
        v@ == s@,
{
    let n = s.unicode_len();
    let mut v: Vec<char> = Vec::new();
    let mut i: usize = 0;
    while i < n
        invariant
            n == s@.len(),
            i <= n,
            v@ == s@.subrange(0, i as int),
        decreases n - i,
    {
        v.push(s.get_char(i));
        i = i + 1;
        assert(v@ =~= s@.subrange(0, i as int));
    }
    v
}

/// Whether two strings hold the same characters.
pub fn same_text(a: &str, b: &str) -> (r: bool)
    ensures
        r == (a@ == b@),
{
    let va = chars_of(a);
    let vb = chars_of(b);
    if va.len() != vb.len() {
        return false;
    }
    let mut i: usize = 0;
    while i < va.len()
        invariant
            va@ == a@,
            vb@ == b@,
            va@.len() == vb@.len(),
            i <= va@.len(),
            forall|k: int| 0 <= k < i ==> va@[k] == vb@[k],
        decreases va@.len() - i,
    {
        if va[i] != vb[i] {
            return false;
        }
        i = i + 1;
    }
    assert(va@ =~= vb@);
    true
}

/// The index of the first `c` in `v[from..to]`, or `to` when none.
pub fn find_in(v: &Vec<char>, c: char, from: usize, to: usize) -> (r: usize)
    requires
        from <= to <= v@.len(),
    ensures
        r == from + find_char(v@.subrange(from as int, to as int), c),
        from <= r <= to,
    decreases to - from,
{
    proof {
        lemma_find_char_bounds(v@.subrange(from as int, to as int), c);
    }
    if from >= to {
        return to;
    }
    if v[from] == c {
        return from;
    }
    let r = find_in(v, c, from + 1, to);
    assert(v@.subrange(from as int, to as int).subrange(1, (to - from) as int) =~= v@.subrange(
        from + 1,
        to as int,
    ));
    r
}

/// The bounds of the `n`-th piece of `v[lo..hi]` split at every `c`.
pub fn split_piece_in(v: &Vec<char>, c: char, lo: usize, hi: usize, n: usize) -> (r: Option<
    (usize, usize),
>)
    requires
        lo <= hi <= v@.len(),
    ensures
        match r {
            Some((a, b)) => lo <= a <= b <= hi && split_piece(
                v@.subrange(lo as int, hi as int),
                c,
                n as nat,
            ) == Some(v@.subrange(a as int, b as int)),
            None => split_piece(v@.subrange(lo as int, hi as int), c, n as nat) is None,
        },
    decreases n,
{
    let cut = find_in(v, c, lo, hi);
    let ghost s = v@.subrange(lo as int, hi as int);
    if n == 0 {
        assert(s.subrange(0, cut - lo) =~= v@.subrange(lo as int, cut as int));
        return Some((lo, cut));
    }
    if cut >= hi {
        return None;
    }
    assert(s.subrange(cut - lo + 1, s.len() as int) =~= v@.subrange(cut + 1, hi as int));
    split_piece_in(v, c, cut + 1, hi, n - 1)
}

/// Whether `c` is Unicode white space.
pub fn is_white_space_char(c: char) -> (r: bool)
    ensures
        r == is_white_space(c),
{
    let v = c as u32;
    (0x9 <= v && v <= 0xd) || v == 0x20 || v == 0x85 || v == 0xa0 || v == 0x1680 || (0x2000 <= v
        && v <= 0x200a) || v == 0x2028 || v == 0x2029 || v == 0x202f || v == 0x205f || v == 0x3000
}

/// The bounds of `v[lo..hi]` with white space trimmed from both ends.
pub fn trim_in(v: &Vec<char>, lo: usize, hi: usize) -> (r: (usize, usize))
    requires
        lo <= hi <= v@.len(),
    ensures
        lo <= r.0 <= r.1 <= hi,
        trim(v@.subrange(lo as int, hi as int)) == v@.subrange(r.0 as int, r.1 as int),
{
    let mut a = lo;
    while a < hi && is_white_space_char(v[a])
        invariant
            lo <= a <= hi <= v@.len(),
            trim_start(v@.subrange(lo as int, hi as int)) == trim_start(
                v@.subrange(a as int, hi as int),
            ),
        decreases hi - a,
    {
        assert(v@.subrange(a as int, hi as int).subrange(1, (hi - a) as int) =~= v@.subrange(
            a + 1,
            hi as int,
        ));
        a = a + 1;
    }
    let mut b = hi;
    while b > a && is_white_space_char(v[b - 1])
        invariant
            lo <= a <= b <= hi <= v@.len(),
            trim_end(v@.subrange(a as int, hi as int)) == trim_end(v@.subrange(a as int, b as int)),
        decreases b - a,
    {
        assert(v@.subrange(a as int, b as int).drop_last() =~= v@.subrange(a as int, b - 1));
        b = b - 1;
    }
    (a, b)
}

proof fn lemma_digits_value_prefix(s: Seq<char>, i: int)
    requires
        0 <= i <= s.len(),
    ensures
        digits_value(s.subrange(0, i)) <= digits_value(s),
    decreases s.len() - i,
{
    if i < s.len() {
        lemma_digits_value_prefix(s, i + 1);
        let p = s.subrange(0, i + 1);
        assert(p.drop_last() =~= s.subrange(0, i));
        assert(s.subrange(0, s.len() as int) =~= s);
    } else {
        assert(s.subrange(0, i) =~= s);
    }
}

/// Parses `v[lo..hi]` as a `u64`.
pub fn parse_u64_in(v: &Vec<char>, lo: usize, hi: usize) -> (r: Option<u64>)
    requires
        lo <= hi <= v@.len(),
    ensures
        r == parse_u64_spec(v@.subrange(lo as int, hi as int)),
{
    let ghost s = v@.subrange(lo as int, hi as int);
    let mut a = lo;
    if a < hi && v[a] == '+' {
        a = a + 1;
    }
    let ghost d = v@.subrange(a as int, hi as int);
    assert(d =~= unsigned_digits(s));
    if a >= hi {
        return None;
    }
    let mut i = a;
    while i < hi
        invariant
            a <= i <= hi <= v@.len(),
            d == v@.subrange(a as int, hi as int),
            d == unsigned_digits(v@.subrange(lo as int, hi as int)),
            forall|k: int| 0 <= k < i - a ==> is_digit(#[trigger] d[k]),
        decreases hi - i,
    {
        if !('0' <= v[i] && v[i] <= '9') {
            assert(d[i - a] == v@[i as int]);
            assert(!is_digit(d[i - a]));
            assert(!(forall|k: int| 0 <= k < d.len() ==> is_digit(#[trigger] d[k])));
            return None;
        }
        i = i + 1;
    }
    let mut value: u64 = 0;
    let mut j = a;
    while j < hi
        invariant
            a <= j <= hi <= v@.len(),
            d == v@.subrange(a as int, hi as int),
            d == unsigned_digits(v@.subrange(lo as int, hi as int)),
            forall|k: int| 0 <= k < d.len() ==> is_digit(#[trigger] d[k]),
            value as nat == digits_value(d.subrange(0, j - a)),
        decreases hi - j,
    {
        let ghost pre = d.subrange(0, j - a + 1);
        proof {
            assert(pre.drop_last() =~= d.subrange(0, j - a));
            assert(pre.last() == v@[j as int]);
            assert(is_digit(d[j - a]));
        }
        let digit = (v[j] as u32 - '0' as u32) as u64;
        match value.checked_mul(10) {
            Some(t) => match t.checked_add(digit) {
                Some(u) => {
                    value = u;
                },
                None => {
                    proof {
                        lemma_digits_value_prefix(d, j - a + 1);
                        assert(digits_value(pre) == digits_value(d.subrange(0, j - a)) * 10
                            + digit);
                        assert(digits_value(d) > u64::MAX);
                    }
                    return None;
                },
            },
            None => {
                proof {
                    lemma_digits_value_prefix(d, j - a + 1);
                    assert(digits_value(pre) == digits_value(d.subrange(0, j - a)) * 10 + digit);
                    assert(digits_value(d) > u64::MAX);
                }
                return None;
            },
        }
        j = j + 1;
    }
    assert(d.subrange(0, d.len() as int) =~= d);
    Some(value)
}

/// The number of decimal digits at the start of `s`.
pub open spec fn digit_run(s: Seq<char>) -> int
    decreases s.len(),
{
    if s.len() > 0 && is_digit(s[0]) {
        1 + digit_run(s.subrange(1, s.len() as int))
    } else {
        0
    }
}

/// The number that `s` starts with once white space is trimmed: its
/// leading decimal digits read as a `u64`; `None` when there are none or
/// the value does not fit.
pub open spec fn leading_number(s: Seq<char>) -> Option<u64> {
    let t = trim(s);
    parse_u64_spec(t.subrange(0, digit_run(t)))
}

proof fn lemma_digit_run_bounds(s: Seq<char>)
    ensures
        0 <= digit_run(s) <= s.len(),
    decreases s.len(),
{
    if s.len() > 0 && is_digit(s[0]) {
        lemma_digit_run_bounds(s.subrange(1, s.len() as int));
    }
}

/// Reads the number that `v[lo..hi]` starts with.
pub fn leading_number_in(v: &Vec<char>, lo: usize, hi: usize) -> (r: Option<u64>)
    requires
        lo <= hi <= v@.len(),
    ensures
        r == leading_number(v@.subrange(lo as int, hi as int)),
{
    let (x, y) = trim_in(v, lo, hi);
    let mut b = x;
    proof {
        lemma_digit_run_bounds(v@.subrange(x as int, y as int));
    }
    while b < y && '0' <= v[b] && v[b] <= '9'
        invariant
            x <= b <= y <= v@.len(),
            digit_run(v@.subrange(x as int, y as int)) == (b - x) + digit_run(
                v@.subrange(b as int, y as int),
            ),
        decreases y - b,
    {
        assert(v@.subrange(b as int, y as int).subrange(1, (y - b) as int) =~= v@.subrange(
            b + 1,
            y as int,
        ));
        b = b + 1;
    }
    assert(digit_run(v@.subrange(b as int, y as int)) == 0);
    assert(v@.subrange(x as int, y as int).subrange(0, (b - x) as int) =~= v@.subrange(
        x as int,
        b as int,
    ));
    parse_u64_in(v, x, b)
}

/// Whether `needle` occurs in `hay`.
pub open spec fn contains_text(hay: Seq<char>, needle: Seq<char>) -> bool {
    exists|i: int| 0 <= i && i + needle.len() <= hay.len() && #[trigger] hay.subrange(i, i + needle.len()) == needle
}

/// Whether `needle` occurs in `hay` at position `i`.
fn matches_at(hay: &Vec<char>, needle: &Vec<char>, i: usize) -> (r: bool)
    requires
        i + needle@.len() <= hay@.len(),
    ensures
        r == (hay@.subrange(i as int, i + needle@.len()) == needle@),
{
    let n = needle.len();
    let hl = hay.len();
    let mut j: usize = 0;
    while j < n
        invariant
            n == needle@.len(),
            i + n <= hay@.len(),
            hl == hay@.len(),
            j <= n,
            forall|t: int| 0 <= t < j ==> hay@[i + t] == needle@[t],
        decreases n - j,
    {
        if hay[i + j] != needle[j] {
            assert(hay@.subrange(i as int, i + n as int)[j as int] == hay@[i + j]);
            return false;
        }
        j = j + 1;
    }
    assert(hay@.subrange(i as int, i + n as int) =~= needle@);
    true
}

/// Whether `needle` occurs in `hay`.
pub fn text_contains(hay: &Vec<char>, needle: &Vec<char>) -> (r: bool)
    ensures
        r == contains_text(hay@, needle@),
{
    let n = needle.len();
    let hl = hay.len();
    if n > hl {
        return false;
    }
    if n == 0 {
        assert(hay@.subrange(0int, 0int + needle@.len()) =~= needle@);
        return true;
    }
    let mut i: usize = 0;
    while i <= hay.len() - n
        invariant
            n == needle@.len(),
            1 <= n <= hay@.len(),
            hl == hay@.len(),
            i <= hay@.len() - n + 1,
            forall|k: int| 0 <= k < i ==> #[trigger] hay@.subrange(k, k + n as int) != needle@,
        decreases hay@.len() - n + 1 - i,
    {
        if matches_at(hay, needle, i) {
            return true;
        }
        i = i + 1;
    }
    proof {
        assert forall|k: int| 0 <= k && k + needle@.len() <= hay@.len() implies #[trigger] hay@.subrange(
            k,
            k + needle@.len(),
        ) != needle@ by {
            assert(k < i);
        }
    }
    false
}

} // verus!
