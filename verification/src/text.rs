//! Small verified text utilities: comparison, prefixes and decimal numbers.

use vstd::prelude::*;
use vstd::string::*;

verus! {

/// Appends one character to a string (`String::push`).
#[verifier::external_body]
pub(crate) fn push_char(s: &mut String, c: char)
    ensures
        final(s)@ == old(s)@.push(c),
{
    s.push(c);
}

/// Whether two strings hold the same characters.
pub fn str_eq(a: &str, b: &str) -> (r: bool)
    ensures
        r == (a@ == b@),
{
    let la = a.unicode_len();
    let lb = b.unicode_len();
    if la != lb {
        return false;
    }
    let mut i: usize = 0;
    while i < la
        invariant
            la == a@.len(),
            lb == b@.len(),
            la == lb,
            i <= la,
            forall|j: int| 0 <= j < i ==> a@[j] == b@[j],
        decreases la - i,
    {
        if a.get_char(i) != b.get_char(i) {
            return false;
        }
        i = i + 1;
    }
    assert(a@ =~= b@);
    true
}

/// Whether `prefix` is a prefix of `s`.
pub open spec fn is_prefix(prefix: Seq<char>, s: Seq<char>) -> bool {
    prefix.len() <= s.len() && s.subrange(0, prefix.len() as int) == prefix
}

/// Whether `s` starts with `prefix`.
pub fn starts_with(s: &str, prefix: &str) -> (r: bool)
    ensures
        r == is_prefix(prefix@, s@),
{
    let ls = s.unicode_len();
    let lp = prefix.unicode_len();
    if lp > ls {
        return false;
    }
    let mut i: usize = 0;
    while i < lp
        invariant
            ls == s@.len(),
            lp == prefix@.len(),
            lp <= ls,
            i <= lp,
            forall|j: int| 0 <= j < i ==> s@[j] == prefix@[j],
        decreases lp - i,
    {
        if s.get_char(i) != prefix.get_char(i) {
            assert(s@.subrange(0, lp as int)[i as int] != prefix@[i as int]);
            return false;
        }
        i = i + 1;
    }
    assert(s@.subrange(0, lp as int) =~= prefix@);
    true
}

/// The ASCII digit character for a value below ten.
pub open spec fn digit_char(d: nat) -> char {
    if d == 0 { '0' } else if d == 1 { '1' } else if d == 2 { '2' } else if d == 3 { '3' }
    else if d == 4 { '4' } else if d == 5 { '5' } else if d == 6 { '6' } else if d == 7 { '7' }
    else if d == 8 { '8' } else { '9' }
}

/// Decimal representation of a natural number, without leading zeros ("0" for zero).
pub open spec fn dec(n: nat) -> Seq<char>
    decreases n,
{
    if n < 10 {
        seq![digit_char(n)]
    } else {
        dec(n / 10).push(digit_char(n % 10))
    }
}

/// Decimal representation padded with leading zeros to at least `width` characters.
pub open spec fn dec_padded(n: nat, width: nat) -> Seq<char> {
    let d = dec(n);
    if d.len() >= width {
        d
    } else {
        Seq::new((width - d.len()) as nat, |i: int| '0') + d
    }
}

fn digit(d: u64) -> (c: char)
    requires
        d < 10,
    ensures
        c == digit_char(d as nat),
{
    if d == 0 { '0' } else if d == 1 { '1' } else if d == 2 { '2' } else if d == 3 { '3' }
    else if d == 4 { '4' } else if d == 5 { '5' } else if d == 6 { '6' } else if d == 7 { '7' }
    else if d == 8 { '8' } else { '9' }
}

/// Appends the decimal representation of `n` to `s`.
pub fn push_dec(s: &mut String, n: u64)
    ensures
        final(s)@ == old(s)@ + dec(n as nat),
    decreases n,
{
    if n < 10 {
        push_char(s, digit(n));
        assert(dec(n as nat) =~= seq![digit_char(n as nat)]);
    } else {
        push_dec(s, n / 10);
        push_char(s, digit(n % 10));
    }
}

/// Appends the decimal representation of `n`, zero-padded to `width` characters.
pub fn push_dec_padded(s: &mut String, n: u64, width: usize)
    ensures
        final(s)@ == old(s)@ + dec_padded(n as nat, width as nat),
{
    let len = dec_len(n);
    let ghost start = s@;
    let mut i: usize = len;
    while i < width
        invariant
            len == dec(n as nat).len(),
            len <= i,
            len >= width ==> i == len,
            len < width ==> i <= width,
            s@ == start + Seq::new((i - len) as nat, |k: int| '0'),
        decreases width - i,
    {
        push_char(s, '0');
        i = i + 1;
        assert(s@ =~= start + Seq::new((i - len) as nat, |k: int| '0'));
    }
    let ghost zeros = Seq::new((i - len) as nat, |k: int| '0');
    push_dec(s, n);
    if len >= width {
        assert(i == len);
        assert(zeros =~= Seq::<char>::empty());
        assert(s@ =~= start + dec_padded(n as nat, width as nat));
    } else {
        assert(i == width);
        assert(s@ =~= start + zeros + dec(n as nat));
        assert(s@ =~= start + dec_padded(n as nat, width as nat));
    }
}

/// Number of decimal digits of `n`.
pub fn dec_len(n: u64) -> (r: usize)
    ensures
        r == dec(n as nat).len(),
        1 <= r <= 20,
    decreases n,
{
    if n < 10 {
        1
    } else {
        proof { lemma_dec_len_bound(n as nat); }
        dec_len(n / 10) + 1
    }
}

proof fn lemma_dec_len_bound(n: nat)
    ensures
        1 <= dec(n).len() <= 20 || n > u64::MAX,
        n <= u64::MAX ==> dec(n).len() <= 20,
    decreases n,
{
    if n >= 10 {
        lemma_dec_len_bound(n / 10);
        if n <= u64::MAX {
            lemma_dec_len_small(n);
        }
    }
}

proof fn lemma_dec_len_small(n: nat)
    requires
        n <= u64::MAX,
    ensures
        dec(n).len() <= 20,
{
    reveal_with_fuel(pow10, 21);
    lemma_dec_len_pow(n, 20);
}

/// `dec(n)` has at most `k` digits when `n < 10^k`.
proof fn lemma_dec_len_pow(n: nat, k: nat)
    requires
        k >= 1,
        n < pow10(k),
    ensures
        dec(n).len() <= k,
    decreases k,
{
    if n >= 10 {
        assert(pow10(k) == 10 * pow10((k - 1) as nat));
        assert(n / 10 < pow10((k - 1) as nat));
        if k == 1 {
            assert(pow10(1) == 10 * pow10(0));
        } else {
            lemma_dec_len_pow(n / 10, (k - 1) as nat);
        }
    }
}

/// Ten to the power of `k`.
pub open spec fn pow10(k: nat) -> nat
    decreases k,
{
    if k == 0 { 1 } else { 10 * pow10((k - 1) as nat) }
}

/// Whether a character has the Unicode White_Space property (`char::is_whitespace`).
pub open spec fn is_ws(c: char) -> bool {
    ('\u{9}' <= c && c <= '\u{d}') || c == ' ' || c == '\u{85}' || c == '\u{a0}' || c == '\u{1680}'
        || ('\u{2000}' <= c && c <= '\u{200a}') || c == '\u{2028}' || c == '\u{2029}'
        || c == '\u{202f}' || c == '\u{205f}' || c == '\u{3000}'
}

/// `char::is_whitespace`.
pub fn char_is_ws(c: char) -> (r: bool)
    ensures
        r == is_ws(c),
{
    ('\u{9}' <= c && c <= '\u{d}') || c == ' ' || c == '\u{85}' || c == '\u{a0}' || c == '\u{1680}'
        || ('\u{2000}' <= c && c <= '\u{200a}') || c == '\u{2028}' || c == '\u{2029}'
        || c == '\u{202f}' || c == '\u{205f}' || c == '\u{3000}'
}

/// Index of the first non-whitespace character at or after `i` (the length if none).
pub open spec fn first_non_ws_from(s: Seq<char>, i: int) -> int
    decreases s.len() - i,
{
    if i >= s.len() || i < 0 {
        s.len() as int
    } else if is_ws(s[i]) {
        first_non_ws_from(s, i + 1)
    } else {
        i
    }
}

/// End of the text before `j` once trailing whitespace down to `lo` is dropped.
pub open spec fn non_ws_end(s: Seq<char>, j: int, lo: int) -> int
    decreases j - lo,
{
    if j <= lo {
        lo
    } else if is_ws(s[j - 1]) {
        non_ws_end(s, j - 1, lo)
    } else {
        j
    }
}

/// `str::trim`: the text without leading and trailing whitespace.
pub open spec fn trimmed(s: Seq<char>) -> Seq<char> {
    let a = first_non_ws_from(s, 0);
    s.subrange(a, non_ws_end(s, s.len() as int, a))
}

/// Appends the characters `a..e` of `src`.
pub fn push_range(s: &mut String, src: &str, a: usize, e: usize)
    requires
        a <= e <= src@.len(),
    ensures
        final(s)@ == old(s)@ + src@.subrange(a as int, e as int),
{
    let ghost start = s@;
    let mut i = a;
    while i < e
        invariant
            a <= i <= e,
            e <= src@.len(),
            s@ == start + src@.subrange(a as int, i as int),
        decreases e - i,
    {
        push_char(s, src.get_char(i));
        i = i + 1;
        assert(s@ =~= start + src@.subrange(a as int, i as int));
    }
}

/// `str::trim`, as a new string.
pub fn trim(src: &str) -> (r: String)
    ensures
        r@ == trimmed(src@),
{
    let n = src.unicode_len();
    let mut a: usize = 0;
    while a < n && char_is_ws(src.get_char(a))
        invariant
            n == src@.len(),
            a <= n,
            first_non_ws_from(src@, a as int) == first_non_ws_from(src@, 0),
        decreases n - a,
    {
        a = a + 1;
    }
    let mut e: usize = n;
    while e > a && char_is_ws(src.get_char(e - 1))
        invariant
            n == src@.len(),
            a <= e <= n,
            a == first_non_ws_from(src@, 0),
            non_ws_end(src@, e as int, a as int) == non_ws_end(src@, n as int, a as int),
        decreases e,
    {
        e = e - 1;
    }
    let mut r = String::new();
    push_range(&mut r, src, a, e);
    assert(r@ =~= trimmed(src@));
    r
}

/// The text without carriage returns and line feeds.
pub open spec fn without_line_breaks(s: Seq<char>) -> Seq<char>
    decreases s.len(),
{
    if s.len() == 0 {
        s
    } else {
        let rest = without_line_breaks(s.drop_last());
        if s.last() == '\r' || s.last() == '\n' { rest } else { rest.push(s.last()) }
    }
}

/// Copy of a text with carriage returns and line feeds removed
/// (`replace("\r", "").replace("\n", "")`).
pub fn remove_line_breaks(src: &str) -> (r: String)
    ensures
        r@ == without_line_breaks(src@),
{
    let n = src.unicode_len();
    let mut r = String::new();
    let mut i: usize = 0;
    while i < n
        invariant
            n == src@.len(),
            i <= n,
            r@ == without_line_breaks(src@.subrange(0, i as int)),
        decreases n - i,
    {
        let c = src.get_char(i);
        assert(src@.subrange(0, i as int + 1).drop_last() =~= src@.subrange(0, i as int));
        if c != '\r' && c != '\n' {
            push_char(&mut r, c);
        }
        i = i + 1;
    }
    assert(src@.subrange(0, n as int) =~= src@);
    r
}

/// Decimal representation of an integer, with a leading `-` when negative.
pub open spec fn dec_signed(v: int) -> Seq<char> {
    if v < 0 { seq!['-'] + dec((-v) as nat) } else { dec(v as nat) }
}

/// Appends the decimal representation of a signed 32-bit number.
pub fn push_i32(s: &mut String, v: i32)
    ensures
        final(s)@ == old(s)@ + dec_signed(v as int),
{
    if v < 0 {
        push_char(s, '-');
        let magnitude: u64 = (0i64 - v as i64) as u64;
        push_dec(s, magnitude);
        assert(final(s)@ =~= old(s)@ + dec_signed(v as int));
    } else {
        push_dec(s, v as u64);
    }
}

/// Whether a character is an ASCII digit.
pub open spec fn is_digit(c: char) -> bool {
    '0' <= c && c <= '9'
}

/// Value of a sequence of ASCII digits.
pub open spec fn digits_value(s: Seq<char>) -> int
    decreases s.len(),
{
    if s.len() == 0 {
        0
    } else {
        10 * digits_value(s.drop_last()) + (s.last() as int - '0' as int)
    }
}

/// Whether a text consists of ASCII digits only.
pub open spec fn all_digits(s: Seq<char>) -> bool {
    forall|i: int| 0 <= i < s.len() ==> is_digit(s[i])
}

/// `i32::from_str`: an optional `+` or `-`, then one or more ASCII digits, with a
/// value in range.
pub open spec fn spec_parse_i32(s: Seq<char>) -> Option<i32> {
    let neg = s.len() > 0 && s[0] == '-';
    let body = if s.len() > 0 && (s[0] == '-' || s[0] == '+') { s.drop_first() } else { s };
    if body.len() == 0 || !all_digits(body) {
        None
    } else {
        let v = if neg { -digits_value(body) } else { digits_value(body) };
        if i32::MIN <= v <= i32::MAX { Some(v as i32) } else { None }
    }
}

proof fn lemma_digits_value_nonneg(s: Seq<char>)
    requires
        all_digits(s),
    ensures
        digits_value(s) >= 0,
    decreases s.len(),
{
    if s.len() > 0 {
        assert(all_digits(s.drop_last()));
        lemma_digits_value_nonneg(s.drop_last());
    }
}

/// Parses a signed 32-bit decimal number (`str::parse::<i32>`).
pub fn parse_i32(s: &str) -> (r: Option<i32>)
    ensures
        r == spec_parse_i32(s@),
{
    let n = s.unicode_len();
    let mut i: usize = 0;
    let mut neg = false;
    if n > 0 {
        let c = s.get_char(0);
        if c == '-' {
            neg = true;
            i = 1;
        } else if c == '+' {
            i = 1;
        }
    }
    let start = i;
    let ghost body = s@.subrange(start as int, n as int);
    proof {
        if start == 1 {
            assert(body =~= s@.drop_first());
        } else {
            assert(body =~= s@);
        }
    }
    if start == n {
        return None;
    }
    let mut acc: i64 = 0;
    let mut too_big = false;
    while i < n
        invariant
            n == s@.len(),
            start <= i <= n,
            body == s@.subrange(start as int, n as int),
            body == (if s@.len() > 0 && (s@[0] == '-' || s@[0] == '+') { s@.drop_first() } else { s@ }),
            neg == (s@.len() > 0 && s@[0] == '-'),
            all_digits(s@.subrange(start as int, i as int)),
            !too_big ==> acc == digits_value(s@.subrange(start as int, i as int)) && 0 <= acc <= 2147483648,
            too_big ==> digits_value(s@.subrange(start as int, i as int)) > 2147483648,
        decreases n - i,
    {
        let c = s.get_char(i);
        if !('0' <= c && c <= '9') {
            proof {
                assert(body[i - start] == c);
            }
            return None;
        }
        let ghost prev = s@.subrange(start as int, i as int);
        let ghost next = s@.subrange(start as int, i as int + 1);
        proof {
            assert(next.drop_last() =~= prev);
            assert(next.last() == c);
            assert(all_digits(next));
            lemma_digits_value_nonneg(prev);
        }
        let d: i64 = (c as u32 - '0' as u32) as i64;
        if !too_big {
            let v = acc * 10 + d;
            if v > 2147483648 {
                too_big = true;
            } else {
                acc = v;
            }
        }
        i = i + 1;
    }
    assert(s@.subrange(start as int, n as int) == body);
    if too_big {
        return None;
    }
    if neg {
        Some((0 - acc) as i32)
    } else if acc > 2147483647 {
        None
    } else {
        Some(acc as i32)
    }
}

/// Items joined with a separator between each two.
pub open spec fn join(items: Seq<Seq<char>>, sep: Seq<char>) -> Seq<char>
    decreases items.len(),
{
    if items.len() == 0 {
        Seq::empty()
    } else if items.len() == 1 {
        items[0]
    } else {
        join(items.drop_last(), sep) + sep + items.last()
    }
}

/// Joining one more item appends the separator and the item (unless it is the first).
pub proof fn lemma_join_push(items: Seq<Seq<char>>, sep: Seq<char>, item: Seq<char>)
    ensures
        join(items.push(item), sep) == if items.len() == 0 { item } else { join(items, sep) + sep + item },
{
    assert(items.push(item).drop_last() =~= items);
}

/// Whether `pat` occurs in `s` at index `i`.
pub open spec fn occurs_at(s: Seq<char>, pat: Seq<char>, i: int) -> bool {
    0 <= i && i + pat.len() <= s.len() && s.subrange(i, i + pat.len() as int) == pat
}

/// The first index at or after `from` where `pat` occurs.
pub open spec fn find_from(s: Seq<char>, pat: Seq<char>, from: int) -> Option<int>
    decreases s.len() + 1 - from,
{
    if from < 0 || from + pat.len() > s.len() {
        None
    } else if occurs_at(s, pat, from) {
        Some(from)
    } else {
        find_from(s, pat, from + 1)
    }
}

/// Where a search result lies.
pub proof fn lemma_find_from_bounds(s: Seq<char>, pat: Seq<char>, from: int)
    ensures
        find_from(s, pat, from) matches Some(i) ==> from <= i && i + pat.len() <= s.len() && occurs_at(s, pat, i),
    decreases s.len() + 1 - from,
{
    if !(from < 0 || from + pat.len() > s.len()) && !occurs_at(s, pat, from) {
        lemma_find_from_bounds(s, pat, from + 1);
    }
}

/// A pattern that occurs at or after `from` is found from there.
pub proof fn lemma_find_from_some(s: Seq<char>, pat: Seq<char>, from: int, k: int)
    requires
        0 <= from <= k,
        occurs_at(s, pat, k),
    ensures
        find_from(s, pat, from) is Some,
    decreases k - from,
{
    if from < k && !occurs_at(s, pat, from) {
        lemma_find_from_some(s, pat, from + 1, k);
    }
}

/// Whether `pat` occurs in `s` (`str::contains`).
pub open spec fn contains_text(s: Seq<char>, pat: Seq<char>) -> bool {
    find_from(s, pat, 0) is Some
}

/// Whether `s` ends with `suffix`.
pub open spec fn is_suffix(suffix: Seq<char>, s: Seq<char>) -> bool {
    suffix.len() <= s.len() && s.subrange(s.len() - suffix.len(), s.len() as int) == suffix
}

/// Finds the first occurrence of `pat` at or after `from`.
pub fn find_text(s: &str, pat: &str, from: usize) -> (r: Option<usize>)
    ensures
        match find_from(s@, pat@, from as int) {
            Some(i) => r matches Some(j) && j == i,
            None => r is None,
        },
{
    let n = s.unicode_len();
    let m = pat.unicode_len();
    let mut i = from;
    while i <= n && n - i >= m
        invariant
            n == s@.len(),
            m == pat@.len(),
            from <= i,
            find_from(s@, pat@, i as int) == find_from(s@, pat@, from as int),
        decreases n + 1 - i,
    {
        let mut k: usize = 0;
        let mut matched = true;
        while k < m
            invariant
                n == s@.len(),
                m == pat@.len(),
                i + m <= n,
                k <= m,
                matched == (forall|j: int| 0 <= j < k ==> s@[i + j] == pat@[j]),
            decreases m - k,
        {
            if s.get_char(i + k) != pat.get_char(k) {
                matched = false;
            }
            k = k + 1;
        }
        if matched {
            assert(s@.subrange(i as int, i + m) =~= pat@);
            return Some(i);
        } else {
            proof {
                let j = choose|j: int| 0 <= j < m && s@[i + j] != pat@[j];
                assert(s@.subrange(i as int, i + m)[j] != pat@[j]);
            }
        }
        i = i + 1;
    }
    None
}

/// Whether `s` ends with `suffix`.
pub fn ends_with(s: &str, suffix: &str) -> (r: bool)
    ensures
        r == is_suffix(suffix@, s@),
{
    let n = s.unicode_len();
    let m = suffix.unicode_len();
    if m > n {
        return false;
    }
    let mut k: usize = 0;
    while k < m
        invariant
            n == s@.len(),
            m == suffix@.len(),
            m <= n,
            k <= m,
            forall|j: int| 0 <= j < k ==> s@[n - m + j] == suffix@[j],
        decreases m - k,
    {
        if s.get_char(n - m + k) != suffix.get_char(k) {
            assert(s@.subrange(n - m, n as int)[k as int] != suffix@[k as int]);
            return false;
        }
        k = k + 1;
    }
    assert(s@.subrange(n - m, n as int) =~= suffix@);
    true
}

/// The characters `a..e` of `src`, as a new string.
pub fn substring(src: &str, a: usize, e: usize) -> (r: String)
    requires
        a <= e <= src@.len(),
    ensures
        r@ == src@.subrange(a as int, e as int),
{
    let mut r = String::new();
    push_range(&mut r, src, a, e);
    assert(r@ =~= src@.subrange(a as int, e as int));
    r
}

/// What `format!("{:?}", s)` makes of a text: the text in double quotes, with
/// characters escaped as `char::escape_debug` does.
pub uninterp spec fn debug_str(s: Seq<char>) -> Seq<char>;

/// Printable ASCII other than the double quote and the backslash, which `Debug`
/// leaves as it is.
pub open spec fn is_plain_ascii(c: char) -> bool {
    ' ' <= c && c <= '~' && c != '"' && c != '\\'
}

/// `format!("{:?}", s)`: the text quoted and escaped as Rust prints it for debugging.
/// Text made of printable ASCII other than quotes and backslashes is only quoted.
#[verifier::external_body]
pub(crate) fn debug_text(s: &str) -> (r: String)
    ensures
        r@ == debug_str(s@),
        (forall|i: int| 0 <= i < s@.len() ==> is_plain_ascii(#[trigger] s@[i])) ==> r@ == seq!['"'] + s@ + seq!['"'],
{
    format!("{:?}", s)
}

/// What `str::to_lowercase` makes of a text (Unicode lowercase mapping).
pub uninterp spec fn lowercase(s: Seq<char>) -> Seq<char>;

/// ASCII lowercase of a character.
pub open spec fn ascii_lower(c: char) -> char {
    if 'A' <= c && c <= 'Z' { ((c as u32) + 32) as char } else { c }
}

/// `str::to_lowercase`. On ASCII text it lowercases the letters A to Z only.
#[verifier::external_body]
pub(crate) fn to_lowercase(s: &str) -> (r: String)
    ensures
        r@ == lowercase(s@),
        (forall|i: int| 0 <= i < s@.len() ==> (#[trigger] s@[i] as u32) < 128) ==> r@ == s@.map_values(|c: char| ascii_lower(c)),
{
    s.to_lowercase()
}

/// Whether two texts are equal when ASCII letters are compared without case.
pub open spec fn eq_ignore_ascii_case(a: Seq<char>, b: Seq<char>) -> bool {
    a.len() == b.len() && forall|i: int| 0 <= i < a.len() ==> ascii_lower(#[trigger] a[i]) == ascii_lower(b[i])
}

fn lower_char(c: char) -> (r: char)
    ensures
        r == ascii_lower(c),
{
    if 'A' <= c && c <= 'Z' {
        let b: u8 = (c as u32) as u8;
        (b + 32) as char
    } else {
        c
    }
}

/// `str::eq_ignore_ascii_case`.
pub fn str_eq_ignore_ascii_case(a: &str, b: &str) -> (r: bool)
    ensures
        r == eq_ignore_ascii_case(a@, b@),
{
    let la = a.unicode_len();
    let lb = b.unicode_len();
    if la != lb {
        return false;
    }
    let mut i: usize = 0;
    while i < la
        invariant
            la == a@.len(),
            lb == b@.len(),
            la == lb,
            i <= la,
            forall|j: int| 0 <= j < i ==> ascii_lower(#[trigger] a@[j]) == ascii_lower(b@[j]),
        decreases la - i,
    {
        if lower_char(a.get_char(i)) != lower_char(b.get_char(i)) {
            return false;
        }
        i = i + 1;
    }
    true
}

/// Why a text is not an integer of some type (as `core::num::IntErrorKind` names it).
#[derive(Debug, Copy, Clone, PartialEq, Eq, Structural)]
pub enum IntErrorKind {
    Empty,
    InvalidDigit,
    PosOverflow,
    NegOverflow,
}

/// The message of a parse error, as `ParseIntError` displays it.
pub open spec fn int_error_text(k: IntErrorKind) -> Seq<char> {
    match k {
        IntErrorKind::Empty => "cannot parse integer from empty string"@,
        IntErrorKind::InvalidDigit => "invalid digit found in string"@,
        IntErrorKind::PosOverflow => "number too large to fit in target type"@,
        IntErrorKind::NegOverflow => "number too small to fit in target type"@,
    }
}

impl IntErrorKind {
    /// The message of this error.
    pub fn describe(&self) -> (r: String)
        ensures
            r@ == int_error_text(*self),
    {
        match self {
            IntErrorKind::Empty => String::from_str("cannot parse integer from empty string"),
            IntErrorKind::InvalidDigit => String::from_str("invalid digit found in string"),
            IntErrorKind::PosOverflow => String::from_str("number too large to fit in target type"),
            IntErrorKind::NegOverflow => String::from_str("number too small to fit in target type"),
        }
    }
}

/// The value of the first `n` digits of `d`, read left to right as a number between
/// `lo` and `hi` (negated when `neg`), or the first problem met.
pub open spec fn scan_number(d: Seq<char>, neg: bool, lo: int, hi: int, n: nat) -> Result<int, IntErrorKind>
    decreases n,
{
    if n == 0 {
        Ok(0)
    } else {
        match scan_number(d, neg, lo, hi, (n - 1) as nat) {
            Err(e) => Err(e),
            Ok(acc) => {
                let c = d[n - 1];
                if !is_digit(c) {
                    Err(IntErrorKind::InvalidDigit)
                } else {
                    let v = if neg { acc * 10 - (c as int - '0' as int) } else { acc * 10 + (c as int - '0' as int) };
                    if v > hi {
                        Err(IntErrorKind::PosOverflow)
                    } else if v < lo {
                        Err(IntErrorKind::NegOverflow)
                    } else {
                        Ok(v)
                    }
                }
            },
        }
    }
}

proof fn lemma_scan_err_stays(d: Seq<char>, neg: bool, lo: int, hi: int, n: nat, m: nat)
    requires
        n <= m,
        scan_number(d, neg, lo, hi, n) is Err,
    ensures
        scan_number(d, neg, lo, hi, m) == scan_number(d, neg, lo, hi, n),
    decreases m - n,
{
    if n < m {
        lemma_scan_err_stays(d, neg, lo, hi, n, (m - 1) as nat);
    }
}

/// `str::parse` for an integer type from `lo` to `hi` (signed types take a leading `-`):
/// an optional sign, then digits, read left to right until a non-digit or a value out
/// of range.
pub open spec fn spec_parse_int(s: Seq<char>, signed: bool, lo: int, hi: int) -> Result<int, IntErrorKind> {
    if s.len() == 0 {
        Err(IntErrorKind::Empty)
    } else if s.len() == 1 && (s[0] == '+' || s[0] == '-') {
        Err(IntErrorKind::InvalidDigit)
    } else {
        let neg = signed && s[0] == '-';
        let digits = if s[0] == '+' || neg { s.drop_first() } else { s };
        scan_number(digits, neg, lo, hi, digits.len())
    }
}

/// Parses an integer of a type from `lo` to `hi` (see `spec_parse_int`).
pub fn parse_int(s: &str, signed: bool, lo: i64, hi: i64) -> (r: Result<i64, IntErrorKind>)
    requires
        -0x1_0000_0000 <= lo <= 0 <= hi <= 0x1_0000_0000,
    ensures
        match spec_parse_int(s@, signed, lo as int, hi as int) {
            Ok(v) => r == Ok::<i64, IntErrorKind>(v as i64),
            Err(e) => r == Err::<i64, IntErrorKind>(e),
        },
{
    let n = s.unicode_len();
    if n == 0 {
        return Err(IntErrorKind::Empty);
    }
    let first = s.get_char(0);
    if n == 1 && (first == '+' || first == '-') {
        return Err(IntErrorKind::InvalidDigit);
    }
    let neg = signed && first == '-';
    let start: usize = if first == '+' || neg { 1 } else { 0 };
    let ghost digits = s@.subrange(start as int, n as int);
    proof {
        if start == 1 {
            assert(digits =~= s@.drop_first());
        } else {
            assert(digits =~= s@);
        }
        assert(spec_parse_int(s@, signed, lo as int, hi as int) == scan_number(digits, neg, lo as int, hi as int, digits.len()));
    }
    let mut acc: i64 = 0;
    let mut i: usize = start;
    while i < n
        invariant
            spec_parse_int(s@, signed, lo as int, hi as int) == scan_number(digits, neg, lo as int, hi as int, digits.len()),
            digits.len() == n - start,
            n == s@.len(),
            start <= i <= n,
            start <= 1,
            digits == s@.subrange(start as int, n as int),
            -0x1_0000_0000 <= lo <= 0 <= hi <= 0x1_0000_0000,
            scan_number(digits, neg, lo as int, hi as int, (i - start) as nat) == Ok::<int, IntErrorKind>(acc as int),
            lo <= acc <= hi,
        decreases n - i,
    {
        let c = s.get_char(i);
        assert(digits[i - start] == c);
        if !('0' <= c && c <= '9') {
            proof {
                let k = (i - start + 1) as nat;
                assert(scan_number(digits, neg, lo as int, hi as int, (k - 1) as nat) == Ok::<int, IntErrorKind>(acc as int));
                assert(digits[k - 1] == c);
                assert(scan_number(digits, neg, lo as int, hi as int, k) == Err::<int, IntErrorKind>(IntErrorKind::InvalidDigit));
                lemma_scan_err_stays(digits, neg, lo as int, hi as int, k, digits.len());
            }
            return Err(IntErrorKind::InvalidDigit);
        }
        let d: i64 = (c as u32 - '0' as u32) as i64;
        let v: i64 = if neg { acc * 10 - d } else { acc * 10 + d };
        if v > hi {
            proof {
                let k = (i - start + 1) as nat;
                assert(scan_number(digits, neg, lo as int, hi as int, (k - 1) as nat) == Ok::<int, IntErrorKind>(acc as int));
                assert(digits[k - 1] == c);
                assert(scan_number(digits, neg, lo as int, hi as int, k) == Err::<int, IntErrorKind>(IntErrorKind::PosOverflow));
                lemma_scan_err_stays(digits, neg, lo as int, hi as int, k, digits.len());
            }
            return Err(IntErrorKind::PosOverflow);
        }
        if v < lo {
            proof {
                let k = (i - start + 1) as nat;
                assert(scan_number(digits, neg, lo as int, hi as int, (k - 1) as nat) == Ok::<int, IntErrorKind>(acc as int));
                assert(digits[k - 1] == c);
                assert(scan_number(digits, neg, lo as int, hi as int, k) == Err::<int, IntErrorKind>(IntErrorKind::NegOverflow));
                lemma_scan_err_stays(digits, neg, lo as int, hi as int, k, digits.len());
            }
            return Err(IntErrorKind::NegOverflow);
        }
        acc = v;
        i = i + 1;
    }
    Ok(acc)
}

/// Texts as character sequences.
pub open spec fn strings_view(v: Seq<String>) -> Seq<Seq<char>> {
    v.map_values(|s: String| s@)
}

/// The texts joined with `sep` between each two (`[String]::join`).
pub fn join_strings(items: &Vec<String>, sep: &str) -> (r: String)
    ensures
        r@ == join(strings_view(items@), sep@),
{
    let ghost v = strings_view(items@);
    let mut r = String::new();
    let mut i: usize = 0;
    while i < items.len()
        invariant
            i <= items@.len(),
            v == strings_view(items@),
            r@ == join(v.subrange(0, i as int), sep@),
        decreases items@.len() - i,
    {
        proof {
            assert(v.subrange(0, i + 1) =~= v.subrange(0, i as int).push(v[i as int]));
            lemma_join_push(v.subrange(0, i as int), sep@, v[i as int]);
        }
        if i > 0 {
            r.append(sep);
        }
        r.append(items[i].as_str());
        i = i + 1;
    }
    assert(v.subrange(0, v.len() as int) =~= v);
    r
}


/// A lowercase hexadecimal digit.
pub open spec fn hex_digit(d: nat) -> char {
    if d < 10 { (48 + d) as char } else { (87 + d) as char }
}

/// The 32 hexadecimal digits of a 128-bit value, most significant first.
pub open spec fn hex32(u: u128) -> Seq<char> {
    Seq::new(32, |k: int| hex_digit(((u >> ((4 * (31 - k)) as u128)) & 15u128) as nat))
}

/// A uuid as text: its 32 hex digits in groups of 8, 4, 4, 4 and 12, joined by hyphens.
pub open spec fn uuid_hyphenated(u: u128) -> Seq<char> {
    let h = hex32(u);
    h.subrange(0, 8) + seq!['-'] + h.subrange(8, 12) + seq!['-'] + h.subrange(12, 16) + seq!['-']
        + h.subrange(16, 20) + seq!['-'] + h.subrange(20, 32)
}

/// `uuid::Uuid::from_u128(u).to_string()`: the uuid whose big-endian bytes are `u`, in the
/// crate's hyphenated lowercase form, as `uuid_hyphenated` spells it out.
#[verifier::external_body]
pub(crate) fn uuid_text(u: u128) -> (r: String)
    ensures
        r@ == uuid_hyphenated(u),
{
    uuid::Uuid::from_u128(u).to_string()
}

/// `s` from index `i` on, with each occurrence of `pat` (left to right, not overlapping)
/// replaced by `rep`.
pub open spec fn replace_from(s: Seq<char>, pat: Seq<char>, rep: Seq<char>, i: int) -> Seq<char>
    decreases s.len() - i,
{
    if pat.len() == 0 || i < 0 || i > s.len() {
        Seq::empty()
    } else {
        match find_from(s, pat, i) {
            Some(j) => {
                proof {
                    lemma_find_from_bounds(s, pat, i);
                }
                s.subrange(i, j) + rep + replace_from(s, pat, rep, j + pat.len())
            },
            None => s.subrange(i, s.len() as int),
        }
    }
}

/// `s` with each occurrence of `pat` replaced by `rep` (`str::replace`).
pub open spec fn replace_all(s: Seq<char>, pat: Seq<char>, rep: Seq<char>) -> Seq<char> {
    replace_from(s, pat, rep, 0)
}

/// `str::replace` for a pattern that is not empty.
pub fn replace_text(s: &str, pat: &str, rep: &str) -> (r: String)
    requires
        pat@.len() > 0,
    ensures
        r@ == replace_all(s@, pat@, rep@),
{
    let n = s.unicode_len();
    let m = pat.unicode_len();
    let mut out = String::new();
    let mut i: usize = 0;
    loop
        invariant
            n == s@.len(),
            m == pat@.len(),
            m > 0,
            i <= n,
            out@ + replace_from(s@, pat@, rep@, i as int) == replace_all(s@, pat@, rep@),
        decreases n - i,
    {
        proof { lemma_find_from_bounds(s@, pat@, i as int); }
        match find_text(s, pat, i) {
            Some(j) => {
                let ghost before = out@;
                push_range(&mut out, s, i, j);
                out.append(rep);
                proof {
                    assert(out@ + replace_from(s@, pat@, rep@, j + m) =~= before + replace_from(s@, pat@, rep@, i as int));
                }
                i = j + m;
            },
            None => {
                let ghost before = out@;
                push_range(&mut out, s, i, n);
                assert(out@ =~= before + replace_from(s@, pat@, rep@, i as int));
                return out;
            },
        }
    }
}

proof fn lemma_scan_prefix_only(a: Seq<char>, c: char, neg: bool, lo: int, hi: int, k: nat)
    requires
        k <= a.len(),
    ensures
        scan_number(a.push(c), neg, lo, hi, k) == scan_number(a, neg, lo, hi, k),
    decreases k,
{
    if k > 0 {
        lemma_scan_prefix_only(a, c, neg, lo, hi, (k - 1) as nat);
        assert(a.push(c)[k - 1] == a[k - 1]);
    }
}

proof fn lemma_digit_char_value(d: nat)
    requires
        d < 10,
    ensures
        is_digit(digit_char(d)),
        digit_char(d) as int - '0' as int == d,
{
}

proof fn lemma_dec_reads_back(n: nat, lo: int, hi: int)
    requires
        lo <= 0,
        n <= hi,
    ensures
        dec(n).len() >= 1,
        is_digit(dec(n)[0]),
        scan_number(dec(n), false, lo, hi, dec(n).len()) == Ok::<int, IntErrorKind>(n as int),
    decreases n,
{
    if n < 10 {
        lemma_digit_char_value(n);
        assert(dec(n).len() == 1);
        assert(scan_number(dec(n), false, lo, hi, 0) == Ok::<int, IntErrorKind>(0));
        assert(dec(n)[0] == digit_char(n));
    } else {
        let m = n / 10;
        lemma_dec_reads_back(m, lo, hi);
        lemma_digit_char_value(n % 10);
        lemma_scan_prefix_only(dec(m), digit_char(n % 10), false, lo, hi, dec(m).len());
        assert(dec(n) == dec(m).push(digit_char(n % 10)));
        assert(dec(n)[0] == dec(m)[0]);
        assert(dec(n)[dec(n).len() - 1] == digit_char(n % 10));
        assert(m * 10 + n % 10 == n);
        let l = dec(n).len();
        assert(scan_number(dec(n), false, lo, hi, (l - 1) as nat) == Ok::<int, IntErrorKind>(m as int));
        assert(dec(n)[l - 1] as int - '0' as int == n % 10);
    }
}

/// Parsing the decimal text of a number gives the number back, for every integer type
/// that holds it.
pub proof fn law_parse_reads_decimal_back(n: nat, signed: bool, lo: int, hi: int)
    requires
        lo <= 0,
        n <= hi,
    ensures
        spec_parse_int(dec(n), signed, lo, hi) == Ok::<int, IntErrorKind>(n as int),
{
    lemma_dec_reads_back(n, lo, hi);
}

/// A parsed number always lies in the range of its type, and a text holding anything but
/// digits after its sign does not parse.
pub proof fn law_parse_in_range(s: Seq<char>, signed: bool, lo: int, hi: int)
    ensures
        spec_parse_int(s, signed, lo, hi) matches Ok(v) ==> lo <= v <= hi,
        s.len() == 0 ==> spec_parse_int(s, signed, lo, hi) == Err::<int, IntErrorKind>(IntErrorKind::Empty),
{
    if s.len() > 0 && !(s.len() == 1 && (s[0] == '+' || s[0] == '-')) {
        let neg = signed && s[0] == '-';
        let digits = if s[0] == '+' || neg { s.drop_first() } else { s };
        lemma_scan_in_range(digits, neg, lo, hi, digits.len());
    }
}

proof fn lemma_scan_in_range(d: Seq<char>, neg: bool, lo: int, hi: int, n: nat)
    ensures
        n > 0 ==> (scan_number(d, neg, lo, hi, n) matches Ok(v) ==> lo <= v <= hi),
    decreases n,
{
    if n > 0 {
        lemma_scan_in_range(d, neg, lo, hi, (n - 1) as nat);
    }
}

} // verus!
