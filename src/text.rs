//! Decimal numerals and the few string operations the library needs.
use vstd::prelude::*;

verus! {

/// The character of a decimal digit `d < 10`.
pub open spec fn digit_char(d: nat) -> char {
    if d == 0 { '0' } else if d == 1 { '1' } else if d == 2 { '2' } else if d == 3 { '3' }
    else if d == 4 { '4' } else if d == 5 { '5' } else if d == 6 { '6' } else if d == 7 { '7' }
    else if d == 8 { '8' } else { '9' }
}

/// The value of a digit character.
pub open spec fn char_digit(c: char) -> nat {
    if c == '0' { 0 } else if c == '1' { 1 } else if c == '2' { 2 } else if c == '3' { 3 }
    else if c == '4' { 4 } else if c == '5' { 5 } else if c == '6' { 6 } else if c == '7' { 7 }
    else if c == '8' { 8 } else { 9 }
}

pub open spec fn is_digit(c: char) -> bool {
    '0' <= c && c <= '9'
}

/// The decimal numeral of `n`, without leading zeros.
pub open spec fn nat_text(n: nat) -> Seq<char>
    decreases n,
{
    if n < 10 {
        seq![digit_char(n)]
    } else {
        nat_text(n / 10).push(digit_char(n % 10))
    }
}

/// The decimal numeral of `n`, with a leading `-` when negative.
pub open spec fn int_text(n: int) -> Seq<char> {
    if n < 0 {
        seq!['-'] + nat_text((-n) as nat)
    } else {
        nat_text(n as nat)
    }
}

pub open spec fn all_digits(s: Seq<char>) -> bool {
    forall|i: int| 0 <= i < s.len() ==> is_digit(#[trigger] s[i])
}

/// The value of a string of digits, most significant first.
pub open spec fn digits_value(s: Seq<char>) -> nat
    decreases s.len(),
{
    if s.len() == 0 {
        0
    } else {
        digits_value(s.drop_last()) * 10 + char_digit(s.last())
    }
}

/// The integer a numeral denotes: digits, optionally after a `-` or `+`.
pub open spec fn numeral_value(s: Seq<char>) -> Option<int> {
    if s.len() > 1 && (s[0] == '-' || s[0] == '+') && all_digits(s.drop_first()) {
        if s[0] == '-' {
            Some(-(digits_value(s.drop_first()) as int))
        } else {
            Some(digits_value(s.drop_first()) as int)
        }
    } else if s.len() > 0 && all_digits(s) {
        Some(digits_value(s) as int)
    } else {
        None
    }
}

/// The numeral's value where it is unsigned or `+`-signed and fits a `u32`.
pub open spec fn numeral_u32(s: Seq<char>) -> Option<u32> {
    if s.len() > 0 && s[0] == '-' {
        None
    } else {
        match numeral_value(s) {
            Some(v) => if 0 <= v <= u32::MAX { Some(v as u32) } else { None },
            None => None,
        }
    }
}

/// The numeral's value where it fits an `i64`.
pub open spec fn numeral_i64(s: Seq<char>) -> Option<i64> {
    match numeral_value(s) {
        Some(v) => if i64::MIN <= v <= i64::MAX { Some(v as i64) } else { None },
        None => None,
    }
}

proof fn lemma_digit_char(d: nat)
    requires
        d < 10,
    ensures
        is_digit(digit_char(d)),
        char_digit(digit_char(d)) == d,
        digit_char(d) != '-',
{
}

/// A numeral reads back as the number it was written from.
pub proof fn lemma_nat_text(n: nat)
    ensures
        all_digits(nat_text(n)),
        digits_value(nat_text(n)) == n,
        nat_text(n).len() > 0,
        nat_text(n)[0] != '-',
    decreases n,
{
    if n < 10 {
        lemma_digit_char(n);
        assert(nat_text(n).drop_last() =~= Seq::<char>::empty());
        assert(digits_value(Seq::<char>::empty()) == 0);
        assert(digits_value(nat_text(n)) == digits_value(nat_text(n).drop_last()) * 10 + char_digit(nat_text(n).last()));
    } else {
        lemma_nat_text(n / 10);
        lemma_digit_char(n % 10);
        let s = nat_text(n);
        assert(s.drop_last() =~= nat_text(n / 10));
        assert(s[0] == nat_text(n / 10)[0]);
        assert(s.last() == digit_char(n % 10));
        assert(digits_value(s) == digits_value(s.drop_last()) * 10 + char_digit(s.last()));
        assert(n == (n / 10) * 10 + n % 10);
    }
}

/// Writing an integer and reading it back gives the integer.
pub proof fn lemma_int_text_round_trip(n: int)
    ensures
        numeral_value(int_text(n)) == Some(n),
{
    if n < 0 {
        let m = (-n) as nat;
        lemma_nat_text(m);
        assert(int_text(n).drop_first() =~= nat_text(m));
    } else {
        lemma_nat_text(n as nat);
    }
}

/// The text of one digit.
fn digit_str(d: u64) -> (r: &'static str)
    requires
        d < 10,
    ensures
        r@ == seq![digit_char(d as nat)],
{
    proof {
        reveal_strlit("0");
        reveal_strlit("1");
        reveal_strlit("2");
        reveal_strlit("3");
        reveal_strlit("4");
        reveal_strlit("5");
        reveal_strlit("6");
        reveal_strlit("7");
        reveal_strlit("8");
        reveal_strlit("9");
    }
    if d == 0 { "0" } else if d == 1 { "1" } else if d == 2 { "2" } else if d == 3 { "3" }
    else if d == 4 { "4" } else if d == 5 { "5" } else if d == 6 { "6" } else if d == 7 { "7" }
    else if d == 8 { "8" } else { "9" }
}

/// Appends the decimal numeral of `n`.
pub fn push_nat(out: &mut String, n: u64)
    ensures
        final(out)@ == old(out)@ + nat_text(n as nat),
    decreases n,
{
    if n >= 10 {
        push_nat(out, n / 10);
    }
    out.append(digit_str(n % 10));
    proof {
        if n >= 10 {
            assert(nat_text(n as nat) == nat_text((n / 10) as nat).push(digit_char((n % 10) as nat)));
        }
    }
    assert(final(out)@ =~= old(out)@ + nat_text(n as nat));
}

/// Appends the decimal numeral of `n`, signed.
pub fn push_int(out: &mut String, n: i64)
    ensures
        final(out)@ == old(out)@ + int_text(n as int),
{
    if n < 0 {
        proof { reveal_strlit("-"); }
        out.append("-");
        let m: u64 = if n == i64::MIN { 9223372036854775808u64 } else { (-n) as u64 };
        push_nat(out, m);
        assert(final(out)@ =~= old(out)@ + int_text(n as int));
    } else {
        push_nat(out, n as u64);
    }
}

/// The decimal numeral of `n`.
pub fn int_to_text(n: i64) -> (r: String)
    ensures
        r@ == int_text(n as int),
{
    let mut out = String::new();
    push_int(&mut out, n);
    assert(out@ =~= int_text(n as int));
    out
}

/// A longer string of digits is worth at least as much as its prefix.
proof fn lemma_digits_prefix(s: Seq<char>, k: int)
    requires
        0 <= k <= s.len(),
    ensures
        digits_value(s) >= digits_value(s.subrange(0, k)),
    decreases s.len(),
{
    if k < s.len() {
        lemma_digits_prefix(s.drop_last(), k);
        assert(s.drop_last().subrange(0, k) =~= s.subrange(0, k));
    } else {
        assert(s.subrange(0, k) =~= s);
    }
}

/// Reads a decimal numeral, optionally negative, that fits an `i64`.
pub fn parse_i64(s: &str) -> (r: Option<i64>)
    ensures
        r == numeral_i64(s@),
{
    let n = s.unicode_len();
    if n == 0 {
        return None;
    }
    let first = s.get_char(0);
    let negative = first == '-';
    let signed = negative || first == '+';
    let start: usize = if signed { 1 } else { 0 };
    if signed && n == 1 {
        return None;
    }
    let ghost body = s@.subrange(start as int, n as int);
    proof {
        if signed {
            assert(body =~= s@.drop_first());
        } else {
            assert(body =~= s@);
        }
    }
    let limit: u64 = 9223372036854775808u64;
    let mut acc: u64 = 0;
    let mut i: usize = start;
    while i < n
        invariant
            start <= i <= n,
            n == s@.len(),
            body == s@.subrange(start as int, n as int),
            all_digits(s@.subrange(start as int, i as int)),
            acc as nat == digits_value(s@.subrange(start as int, i as int)),
            acc <= limit,
            limit == 9223372036854775808u64,
            n > 0,
            negative == (s@[0] == '-'),
            signed == (s@[0] == '-' || s@[0] == '+'),
            start == (if signed { 1usize } else { 0usize }),
            signed ==> n > 1 && body == s@.drop_first(),
            !signed ==> body == s@,
        decreases n - i,
    {
        let c = s.get_char(i);
        if !('0' <= c && c <= '9') {
            proof {
                assert(body[i - start] == c);
                assert(!all_digits(body));
            }
            return None;
        }
        let d: u64 = if c == '0' { 0 } else if c == '1' { 1 } else if c == '2' { 2 } else if c == '3' { 3 }
            else if c == '4' { 4 } else if c == '5' { 5 } else if c == '6' { 6 } else if c == '7' { 7 }
            else if c == '8' { 8 } else { 9 };
        assert(d <= 9);
        let ghost next = s@.subrange(start as int, i + 1);
        proof {
            assert(next.drop_last() =~= s@.subrange(start as int, i as int));
            assert(next.last() == c);
        }
        if acc > (limit - d) / 10 {
            proof {
                assert(digits_value(next) > limit);
                if all_digits(body) {
                    lemma_digits_prefix(body, i + 1 - start);
                    assert(body.subrange(0, i + 1 - start) =~= next);
                }
            }
            return None;
        }
        acc = acc * 10 + d;
        i = i + 1;
        proof {
            assert(all_digits(next));
        }
    }
    proof {
        assert(s@.subrange(start as int, n as int) == body);
    }
    if negative {
        if acc == limit {
            Some(i64::MIN)
        } else {
            Some(-(acc as i64))
        }
    } else if acc == limit {
        None
    } else {
        Some(acc as i64)
    }
}

/// What `str::to_uppercase` makes of a string.
pub uninterp spec fn upper_of(s: Seq<char>) -> Seq<char>;

/// What `str::to_lowercase` makes of a string.
pub uninterp spec fn lower_of(s: Seq<char>) -> Seq<char>;

/// What `str::trim` leaves of a string.
pub uninterp spec fn trim_of(s: Seq<char>) -> Seq<char>;

/// Relies on `str::to_uppercase`: the upper case of each character, which
/// depends on the characters alone; an empty string stays empty.
#[verifier::external_body]
pub fn to_upper(s: &str) -> (r: String)
    ensures
        r@ == upper_of(s@),
        s@.len() == 0 ==> r@.len() == 0,
{
    s.to_uppercase()
}

/// Relies on `str::to_lowercase`: the lower case of each character, which
/// depends on the characters alone.
#[verifier::external_body]
pub fn to_lower(s: &str) -> (r: String)
    ensures
        r@ == lower_of(s@),
{
    s.to_lowercase()
}

/// Relies on `str::trim`: the string without leading and trailing
/// whitespace; an empty string stays empty.
#[verifier::external_body]
pub fn trimmed(s: &str) -> (r: &str)
    ensures
        r@ == trim_of(s@),
        s@.len() == 0 ==> r@.len() == 0,
{
    s.trim()
}

/// Reads an unsigned decimal numeral, optionally after `+`, that fits a `u32`.
pub fn parse_u32(s: &str) -> (r: Option<u32>)
    ensures
        r == numeral_u32(s@),
{
    if s.unicode_len() > 0 && s.get_char(0) == '-' {
        return None;
    }
    match parse_i64(s) {
        Some(v) => if 0 <= v && v <= 4294967295 { Some(v as u32) } else { None },
        None => None,
    }
}

/// Whether `a` comes strictly before `b` in the order of `String`: by code
/// points, a proper prefix first.
pub open spec fn text_less(a: Seq<char>, b: Seq<char>) -> bool
    decreases a.len(),
{
    if a.len() == 0 {
        b.len() > 0
    } else if b.len() == 0 {
        false
    } else if a[0] != b[0] {
        (a[0] as u32) < (b[0] as u32)
    } else {
        text_less(a.drop_first(), b.drop_first())
    }
}

/// Whether the keys of `m` strictly ascend: sorted, each once.
pub open spec fn keys_ascending(m: Seq<(Seq<char>, Seq<char>)>) -> bool {
    forall|i: int, j: int| 0 <= i < j < m.len() ==> text_less(#[trigger] m[i].0, #[trigger] m[j].0)
}

/// Whether `a` comes strictly before `b`, starting at character `k` of both,
/// the characters before being equal.
fn text_less_from(a: &str, b: &str, k: usize) -> (r: bool)
    requires
        k <= a@.len(),
        k <= b@.len(),
        a@.subrange(0, k as int) == b@.subrange(0, k as int),
    ensures
        r == text_less(a@.subrange(k as int, a@.len() as int), b@.subrange(k as int, b@.len() as int)),
    decreases a@.len() - k,
{
    let n = a.unicode_len();
    let m = b.unicode_len();
    let ghost sa = a@.subrange(k as int, n as int);
    let ghost sb = b@.subrange(k as int, m as int);
    if k == n {
        return k < m;
    }
    if k == m {
        return false;
    }
    let x = a.get_char(k);
    let y = b.get_char(k);
    assert(sa[0] == x && sb[0] == y);
    if x != y {
        return (x as u32) < (y as u32);
    }
    assert(sa.drop_first() =~= a@.subrange(k + 1, n as int));
    assert(sb.drop_first() =~= b@.subrange(k + 1, m as int));
    assert(a@.subrange(0, k + 1) =~= b@.subrange(0, k + 1)) by {
        assert forall|i: int| 0 <= i < k + 1 implies #[trigger] a@.subrange(0, k + 1)[i] == b@.subrange(0, k + 1)[i] by {
            if i < k {
                assert(a@.subrange(0, k as int)[i] == b@.subrange(0, k as int)[i]);
            }
        }
    }
    text_less_from(a, b, k + 1)
}

/// Whether `a` comes strictly before `b` in the order of `String`.
pub fn text_lt(a: &str, b: &str) -> (r: bool)
    ensures
        r == text_less(a@, b@),
{
    assert(a@.subrange(0, 0) =~= b@.subrange(0, 0));
    assert(a@.subrange(0, a@.len() as int) =~= a@);
    assert(b@.subrange(0, b@.len() as int) =~= b@);
    text_less_from(a, b, 0)
}

/// Whether the keys of `m` strictly ascend.
pub fn keys_are_ascending(m: &Vec<(String, String)>) -> (r: bool)
    ensures
        r == keys_ascending(m.deep_view()),
{
    let ghost v = m.deep_view();
    let mut j: usize = 1;
    while j < m.len()
        invariant
            1 <= j,
            v == m.deep_view(),
            v.len() == m@.len(),
            forall|a: int, b: int| 0 <= a < b < j && b < v.len() ==> text_less(#[trigger] v[a].0, #[trigger] v[b].0),
        decreases m@.len() - j,
    {
        let mut i: usize = 0;
        while i < j
            invariant
                i <= j < m@.len(),
                v == m.deep_view(),
                v.len() == m@.len(),
                forall|a: int, b: int| 0 <= a < b < j ==> text_less(#[trigger] v[a].0, #[trigger] v[b].0),
                forall|a: int| 0 <= a < i ==> text_less(#[trigger] v[a].0, v[j as int].0),
            decreases j - i,
        {
            assert(v[i as int].0 == m@[i as int].0@ && v[j as int].0 == m@[j as int].0@);
            if !text_lt(m[i].0.as_str(), m[j].0.as_str()) {
                return false;
            }
            i = i + 1;
        }
        j = j + 1;
    }
    true
}

/// Whether `p` occurs in `s` as a contiguous run of characters.
pub open spec fn has_infix(s: Seq<char>, p: Seq<char>) -> bool {
    exists|i: int| 0 <= i && i + p.len() <= s.len() && #[trigger] s.subrange(i, i + p.len()) == p
}

/// Whether `p` occurs in `s` starting at character `i`.
fn occurs_at(s: &str, p: &str, i: usize, n: usize, m: usize) -> (r: bool)
    requires
        n == s@.len(),
        m == p@.len(),
        i + m <= n,
    ensures
        r == (s@.subrange(i as int, i + m) == p@),
{
    let mut k: usize = 0;
    while k < m
        invariant
            k <= m,
            n == s@.len(),
            m == p@.len(),
            i + m <= n,
            forall|j: int| 0 <= j < k ==> s@[i + j] == p@[j],
        decreases m - k,
    {
        if s.get_char(i + k) != p.get_char(k) {
            assert(s@.subrange(i as int, i + m)[k as int] != p@[k as int]);
            return false;
        }
        k = k + 1;
    }
    assert(s@.subrange(i as int, i + m) =~= p@);
    true
}

/// Whether `p` occurs in `s`.
pub fn contains_text(s: &str, p: &str) -> (r: bool)
    ensures
        r == has_infix(s@, p@),
{
    let n = s.unicode_len();
    let m = p.unicode_len();
    if m > n {
        return false;
    }
    let mut i: usize = 0;
    while i <= n - m
        invariant
            n == s@.len(),
            m == p@.len(),
            m <= n,
            i <= n - m + 1,
            forall|j: int| 0 <= j < i ==> #[trigger] s@.subrange(j, j + m) != p@,
        decreases n - m + 1 - i,
    {
        if occurs_at(s, p, i, n, m) {
            return true;
        }
        if i == n - m {
            return false;
        }
        i = i + 1;
    }
    false
}

/// Whether two strings hold the same characters.
pub fn same_text(a: &str, b: &str) -> (r: bool)
    ensures
        r == (a@ == b@),
{
    let n = a.unicode_len();
    if n != b.unicode_len() {
        return false;
    }
    let r = occurs_at(a, b, 0, n, n);
    assert(a@.subrange(0, n as int) =~= a@);
    r
}

} // verus!
