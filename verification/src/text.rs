//! Text helpers used by the game logic: decimal numbers, parsing, comparison
//! and UTF-8 lengths.

use vstd::prelude::*;
use vstd::utf8::encode_scalar;
use vstd::utf8::encode_utf8;

verus! {

/// The characters of each string, in order.
pub open spec fn string_views(s: Seq<String>) -> Seq<Seq<char>> {
    s.map_values(|x: String| x@)
}

/// The ASCII digit for `d`, where `d < 10`.
pub open spec fn digit_char(d: nat) -> char {
    ((48 + d) as u32) as char
}

/// The decimal representation of `n`, without sign or leading zeros.
pub open spec fn decimal(n: nat) -> Seq<char>
    decreases n,
{
    if n < 10 {
        seq![digit_char(n)]
    } else {
        decimal(n / 10).push(digit_char(n % 10))
    }
}

/// The ASCII digit for a number below ten.
pub fn digit_of(d: usize) -> (c: char)
    requires
        d < 10,
    ensures
        c == digit_char(d as nat),
{
    match d {
        0 => '0',
        1 => '1',
        2 => '2',
        3 => '3',
        4 => '4',
        5 => '5',
        6 => '6',
        7 => '7',
        8 => '8',
        _ => '9',
    }
}

/// Appends the decimal digits of `n` to `out`.
pub fn push_decimal(n: usize, out: &mut Vec<char>)
    ensures
        final(out)@ == old(out)@ + decimal(n as nat),
    decreases n,
{
    if n >= 10 {
        push_decimal(n / 10, out);
    }
    out.push(digit_of(n % 10));
}


/// `std::iter::FromIterator<&char> for String`: collecting the characters of
/// a vector gives a string that holds exactly those characters, in order.
#[verifier::external_body]
pub fn string_from_chars(v: &Vec<char>) -> (s: String)
    ensures
        s@ == v@,
{
    v.iter().collect()
}

/// The characters of a string, in order.
pub fn str_to_chars(s: &str) -> (v: Vec<char>)
    ensures
        v@ == s@,
{
    broadcast use vstd::string::group_string_axioms;

    let mut v: Vec<char> = Vec::new();
    for c in it: s.chars()
        invariant
            v@ == it.seq().take(it.index() as int),
            it.seq() == s@,
    {
        v.push(c);
    }
    v
}

/// The decimal representation of `n` as a string.
pub fn usize_to_string(n: usize) -> (s: String)
    ensures
        s@ == decimal(n as nat),
{
    let mut v: Vec<char> = Vec::new();
    push_decimal(n, &mut v);
    assert(v@ == decimal(n as nat));
    string_from_chars(&v)
}

/// Whether two strings hold the same characters.
pub fn str_eq(a: &str, b: &str) -> (r: bool)
    ensures
        r == (a@ == b@),
{
    let n = a.unicode_len();
    if n != b.unicode_len() {
        return false;
    }
    let av = str_to_chars(a);
    let bv = str_to_chars(b);
    let mut i: usize = 0;
    while i < n
        invariant
            n == av@.len(),
            n == bv@.len(),
            av@ == a@,
            bv@ == b@,
            i <= n,
            forall|j: int| 0 <= j < i ==> av@[j] == bv@[j],
        decreases n - i,
    {
        if av[i] != bv[i] {
            return false;
        }
        i = i + 1;
    }
    assert(a@ =~= b@);
    true
}

/// Whether `c` is an ASCII decimal digit.
pub open spec fn is_digit(c: char) -> bool {
    '0' <= c && c <= '9'
}

/// The value of an ASCII digit.
pub open spec fn digit_value(c: char) -> nat {
    ((c as u32) - 48) as nat
}

/// The number that a sequence of decimal digits stands for.
pub open spec fn digits_value(s: Seq<char>) -> nat
    decreases s.len(),
{
    if s.len() == 0 {
        0
    } else {
        digits_value(s.drop_last()) * 10 + digit_value(s.last())
    }
}

/// The digits that `usize::from_str` reads: the text without one leading `+`.
pub open spec fn unsigned_digits(s: Seq<char>) -> Seq<char> {
    if s.len() > 0 && s[0] == '+' {
        s.drop_first()
    } else {
        s
    }
}

/// What `usize::from_str` gives for a text: an optional `+` followed by at
/// least one decimal digit and nothing else, whose value fits in `usize`.
pub open spec fn parse_usize_spec(s: Seq<char>) -> Option<usize> {
    let d = unsigned_digits(s);
    if d.len() > 0 && (forall|i: int| 0 <= i < d.len() ==> is_digit(#[trigger] d[i]))
        && digits_value(d) <= usize::MAX {
        Some(digits_value(d) as usize)
    } else {
        None
    }
}

proof fn lemma_digits_value_grows(s: Seq<char>, k: int)
    requires
        0 <= k <= s.len(),
    ensures
        digits_value(s.take(k)) <= digits_value(s),
    decreases s.len() - k,
{
    if k < s.len() {
        lemma_digits_value_grows(s, k + 1);
        assert(s.take(k + 1).drop_last() =~= s.take(k));
    } else {
        assert(s.take(k) =~= s);
    }
}

/// Reads an unsigned decimal number as `usize::from_str` does.
pub fn parse_usize(s: &str) -> (r: Option<usize>)
    ensures
        r == parse_usize_spec(s@),
{
    let v = str_to_chars(s);
    let n = v.len();
    let mut start: usize = 0;
    if n > 0 && v[0] == '+' {
        start = 1;
    }
    let ghost d = unsigned_digits(s@);
    assert(d =~= v@.subrange(start as int, n as int));
    if start >= n {
        return None;
    }
    let mut i: usize = start;
    while i < n
        invariant
            v@ == s@,
            n == v@.len(),
            start <= i <= n,
            d == unsigned_digits(s@),
            d =~= v@.subrange(start as int, n as int),
            forall|j: int| start <= j < i ==> is_digit(#[trigger] v@[j]),
        decreases n - i,
    {
        if !('0' <= v[i] && v[i] <= '9') {
            assert(d[i - start] == v@[i as int]);
            assert(!is_digit(d[i - start]));
            return None;
        }
        i = i + 1;
    }
    assert(forall|j: int| 0 <= j < d.len() ==> is_digit(#[trigger] d[j])) by {
        assert forall|j: int| 0 <= j < d.len() implies is_digit(#[trigger] d[j]) by {
            assert(d[j] == v@[start + j]);
        }
    }
    let mut acc: usize = 0;
    let mut k: usize = start;
    while k < n
        invariant
            v@ == s@,
            n == v@.len(),
            start <= k <= n,
            d == unsigned_digits(s@),
            d =~= v@.subrange(start as int, n as int),
            forall|j: int| 0 <= j < d.len() ==> is_digit(#[trigger] d[j]),
            acc == digits_value(d.take(k - start)),
        decreases n - k,
    {
        let c = v[k];
        assert(c == d[k - start]);
        assert(is_digit(c));
        let dig: usize = ((c as u32) - 48) as usize;
        assert(d.take(k - start + 1).drop_last() =~= d.take(k - start));
        assert(digits_value(d.take(k - start + 1)) == acc * 10 + dig);
        if acc > (usize::MAX - dig) / 10 {
            assert(acc * 10 + dig > usize::MAX) by (nonlinear_arith)
                requires
                    acc > (usize::MAX - dig) / 10,
                    dig < 10,
            ;
            proof {
                lemma_digits_value_grows(d, k - start + 1);
                assert(d.take(d.len() as int) =~= d);
                assert(digits_value(d) > usize::MAX);
            }
            return None;
        }
        assert(acc * 10 + dig <= usize::MAX) by (nonlinear_arith)
            requires
                acc <= (usize::MAX - dig) / 10,
                dig < 10,
        ;
        acc = acc * 10 + dig;
        k = k + 1;
    }
    assert(d.take(n - start) =~= d);
    Some(acc)
}


/// The number of bytes that the UTF-8 encoding of `s` takes.
pub open spec fn utf8_len(s: Seq<char>) -> nat {
    encode_utf8(s).len()
}

/// The number of bytes that the UTF-8 encoding of `c` takes.
pub open spec fn char_width(c: char) -> nat {
    encode_scalar(c as u32).len()
}

/// Encoding a sequence with one more character at its end appends the
/// encoding of that character.
pub proof fn lemma_utf8_len_push(s: Seq<char>, c: char)
    ensures
        utf8_len(s.push(c)) == utf8_len(s) + char_width(c),
    decreases s.len(),
{
    if s.len() == 0 {
        assert(s.push(c).drop_first() =~= Seq::<char>::empty());
        assert(encode_utf8(Seq::<char>::empty()) =~= Seq::<u8>::empty());
    } else {
        lemma_utf8_len_push(s.drop_first(), c);
        assert(s.push(c).drop_first() =~= s.drop_first().push(c));
    }
}

/// The encoded length of a prefix grows by the width of the next character.
pub proof fn lemma_utf8_len_take(s: Seq<char>, k: int)
    requires
        0 <= k < s.len(),
    ensures
        utf8_len(s.take(k + 1)) == utf8_len(s.take(k)) + char_width(s[k]),
{
    assert(s.take(k + 1) =~= s.take(k).push(s[k]));
    lemma_utf8_len_push(s.take(k), s[k]);
}

/// Longer prefixes never encode to fewer bytes.
pub proof fn lemma_utf8_len_monotone(s: Seq<char>, i: int, j: int)
    requires
        0 <= i <= j <= s.len(),
    ensures
        utf8_len(s.take(i)) <= utf8_len(s.take(j)),
    decreases j - i,
{
    if i < j {
        lemma_utf8_len_monotone(s, i, j - 1);
        lemma_utf8_len_take(s, j - 1);
    }
}

/// The number of UTF-8 bytes of a character, as `char::len_utf8` gives it.
pub fn char_utf8_len(c: char) -> (n: usize)
    ensures
        n == char_width(c),
        1 <= n <= 4,
{
    let u = c as u32;
    if u <= 0x7F {
        1
    } else if u <= 0x7FF {
        2
    } else if u <= 0xFFFF {
        proof {
            vstd::utf8::char_is_scalar(c);
        }
        3
    } else {
        4
    }
}

/// `s` with characters taken off its end until its UTF-8 encoding is shorter
/// than `maxsize` bytes.
pub open spec fn utf8_truncated(s: Seq<char>, maxsize: nat) -> Seq<char>
    decreases s.len(),
{
    if utf8_len(s) < maxsize || s.len() == 0 {
        s
    } else {
        utf8_truncated(s.drop_last(), maxsize)
    }
}

/// Whether `pat` stands in `s` at character position `i`.
pub open spec fn occurs_at(s: Seq<char>, pat: Seq<char>, i: int) -> bool {
    0 <= i && i + pat.len() <= s.len() && s.subrange(i, i + pat.len()) == pat
}

/// Whether `pat` stands at position `i` of the character vector `s`.
fn occurs_at_exec(s: &Vec<char>, pat: &Vec<char>, i: usize) -> (r: bool)
    requires
        i <= s@.len(),
    ensures
        r == occurs_at(s@, pat@, i as int),
{
    if pat.len() > s.len() - i {
        return false;
    }
    let mut k: usize = 0;
    while k < pat.len()
        invariant
            i + pat@.len() <= s@.len(),
            s@.len() <= usize::MAX,
            k <= pat@.len(),
            forall|j: int| 0 <= j < k ==> s@[i + j] == pat@[j],
        decreases pat@.len() - k,
    {
        if s[i + k] != pat[k] {
            assert(s@.subrange(i as int, i + pat@.len())[k as int] != pat@[k as int]);
            return false;
        }
        k = k + 1;
    }
    assert(s@.subrange(i as int, i + pat@.len()) =~= pat@);
    true
}

/// The first position from `i` on where `pat` stands in `s`.
pub open spec fn first_occurrence_from(s: Seq<char>, pat: Seq<char>, i: int) -> Option<int>
    decreases s.len() + 1 - i,
{
    if i < 0 || i > s.len() {
        None
    } else if occurs_at(s, pat, i) {
        Some(i)
    } else {
        first_occurrence_from(s, pat, i + 1)
    }
}

/// The character position of the first occurrence of `pat` in `s`.
pub open spec fn first_occurrence(s: Seq<char>, pat: Seq<char>) -> Option<int> {
    first_occurrence_from(s, pat, 0)
}

/// The first occurrence from `i` on is at `p` when `pat` stands at `p` and
/// nowhere between `i` and `p`.
pub proof fn lemma_first_occurrence_at(s: Seq<char>, pat: Seq<char>, i: int, p: int)
    requires
        0 <= i <= p,
        occurs_at(s, pat, p),
        forall|q: int| i <= q < p ==> !occurs_at(s, pat, q),
    ensures
        first_occurrence_from(s, pat, i) == Some(p),
    decreases p - i,
{
    if i < p {
        lemma_first_occurrence_at(s, pat, i + 1, p);
    }
}

/// The character position of the first occurrence of `pat` in `s`, like
/// `str::find` but counted in characters.
pub fn find_chars(s: &Vec<char>, pat: &Vec<char>) -> (r: Option<usize>)
    ensures
        r is None ==> first_occurrence(s@, pat@) is None,
        r matches Some(i) ==> first_occurrence(s@, pat@) == Some(i as int),
        match r {
            Some(i) => occurs_at(s@, pat@, i as int) && forall|j: int|
                0 <= j < i ==> !occurs_at(s@, pat@, j),
            None => forall|j: int| !occurs_at(s@, pat@, j),
        },
{
    let n = s.len();
    let mut i: usize = 0;
    while i < n
        invariant
            n == s@.len(),
            i <= n,
            forall|j: int| 0 <= j < i ==> !occurs_at(s@, pat@, j),
            first_occurrence(s@, pat@) == first_occurrence_from(s@, pat@, i as int),
        decreases n - i,
    {
        if occurs_at_exec(s, pat, i) {
            return Some(i);
        }
        i = i + 1;
    }
    if occurs_at_exec(s, pat, n) {
        return Some(n);
    }
    assert(first_occurrence_from(s@, pat@, n + 1) is None);
    assert forall|j: int| !occurs_at(s@, pat@, j) by {
        if 0 <= j <= n {
        } else if j > n {
            assert(!(j + pat@.len() <= s@.len()));
        }
    }
    None
}

/// Whether `s` begins with `pat`.
pub fn starts_with_chars(s: &Vec<char>, pat: &Vec<char>) -> (r: bool)
    ensures
        r == occurs_at(s@, pat@, 0),
{
    occurs_at_exec(s, pat, 0)
}


/// Ten to the power `k`.
pub open spec fn pow10(k: nat) -> nat
    decreases k,
{
    if k == 0 {
        1
    } else {
        10 * pow10((k - 1) as nat)
    }
}

/// A number below ten to the power `k` has at most `k` decimal digits, and
/// its digits are ASCII.
pub proof fn lemma_decimal_len(n: nat, k: nat)
    requires
        1 <= k,
        n < pow10(k),
    ensures
        decimal(n).len() <= k,
        vstd::utf8::is_ascii_chars(decimal(n)),
    decreases n,
{
    if n >= 10 {
        if k == 1 {
            assert(pow10(1) == 10) by {
                reveal_with_fuel(pow10, 2);
            }
        }
        assert(n / 10 < pow10((k - 1) as nat)) by (nonlinear_arith)
            requires
                n < pow10(k),
                k >= 2,
                pow10(k) == 10 * pow10((k - 1) as nat),
        ;
        lemma_decimal_len(n / 10, (k - 1) as nat);
        assert(digit_char(n % 10) <= '\u{7f}');
    } else {
        assert(digit_char(n) <= '\u{7f}');
    }
}

/// Every `usize` has at most twenty decimal digits, all ASCII.
pub proof fn lemma_usize_decimal_len(n: usize)
    ensures
        decimal(n as nat).len() <= 20,
        vstd::utf8::is_ascii_chars(decimal(n as nat)),
        utf8_len(decimal(n as nat)) == decimal(n as nat).len(),
{
    assert(pow10(20) == 100000000000000000000) by {
        reveal_with_fuel(pow10, 21);
    }
    lemma_decimal_len(n as nat, 20);
    vstd::utf8::is_ascii_chars_encode_utf8(decimal(n as nat));
}


proof fn lemma_decimal_digits(n: nat)
    ensures
        decimal(n).len() > 0,
        forall|i: int| 0 <= i < decimal(n).len() ==> is_digit(#[trigger] decimal(n)[i]),
        digits_value(decimal(n)) == n,
    decreases n,
{
    if n >= 10 {
        lemma_decimal_digits(n / 10);
        let d = decimal(n);
        assert(d.drop_last() =~= decimal(n / 10));
        assert(forall|i: int| 0 <= i < d.len() - 1 ==> d[i] == decimal(n / 10)[i]);
        assert(digit_value(digit_char(n % 10)) == n % 10);
        assert(digits_value(d) == digits_value(decimal(n / 10)) * 10 + digit_value(d.last()));
        assert((n / 10) * 10 + n % 10 == n);
    } else {
        assert(digit_value(digit_char(n)) == n);
        assert(decimal(n).drop_last() =~= Seq::<char>::empty());
        assert(digits_value(Seq::<char>::empty()) == 0);
    }
}

/// Decimal digits hold no dot.
pub proof fn lemma_decimal_has_no_dot(n: nat)
    ensures
        !decimal(n).contains('.'),
{
    lemma_decimal_digits(n);
    if decimal(n).contains('.') {
        let k = choose|k: int| 0 <= k < decimal(n).len() && decimal(n)[k] == '.';
        assert(is_digit(decimal(n)[k]));
    }
}

/// Reading back the decimal text of a number gives the number: what is
/// written with `usize_to_string` is read by `parse_usize` unchanged.
pub proof fn lemma_parse_usize_decimal(n: usize)
    ensures
        parse_usize_spec(decimal(n as nat)) == Some(n),
{
    lemma_decimal_digits(n as nat);
    let d = decimal(n as nat);
    assert(is_digit(d[0]));
    assert(unsigned_digits(d) == d);
}

} // verus!
