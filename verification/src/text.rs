//! Text building blocks: decimal numbers, joins, and the parts of a name.

use vstd::prelude::*;
use vstd::string::*;

verus! {

/// The character of the decimal digit `d`.
pub open spec fn digit_char(d: int) -> char
    recommends
        0 <= d < 10,
{
    if d == 0 {
        '0'
    } else if d == 1 {
        '1'
    } else if d == 2 {
        '2'
    } else if d == 3 {
        '3'
    } else if d == 4 {
        '4'
    } else if d == 5 {
        '5'
    } else if d == 6 {
        '6'
    } else if d == 7 {
        '7'
    } else if d == 8 {
        '8'
    } else {
        '9'
    }
}

/// The decimal digits of a natural number, most significant first, without
/// leading zeros (zero itself is the single digit `0`).
pub open spec fn decimal_digits(n: nat) -> Seq<char>
    decreases n,
{
    if n < 10 {
        seq![digit_char(n as int)]
    } else {
        decimal_digits(n / 10).push(digit_char((n % 10) as int))
    }
}

/// The decimal form of an integer: a minus sign for a negative number, then
/// the digits of its magnitude.
pub open spec fn decimal(n: int) -> Seq<char> {
    if n < 0 {
        seq!['-'] + decimal_digits((-n) as nat)
    } else {
        decimal_digits(n as nat)
    }
}

/// The decimal form of `n`, padded with one zero to two digits where it has
/// only one.
pub open spec fn decimal_pad2(n: nat) -> Seq<char> {
    if n < 10 {
        seq!['0'] + decimal_digits(n)
    } else {
        decimal_digits(n)
    }
}

/// The one-character string of a decimal digit.
pub fn digit_str(d: u64) -> (r: &'static str)
    requires
        d < 10,
    ensures
        r@ == seq![digit_char(d as int)],
{
    proof {
        reveal_strlit("0");
        reveal_strlit("1");
        reveal_strlit("2");
        reveal_strlit("3");
        reveal_strlit("4");
        reveal_strlit("5");
        reveal_strlit("6");
        reveal_strlit("7");
        reveal_strlit("8");
        reveal_strlit("9");
    }
    let r = if d == 0 {
        "0"
    } else if d == 1 {
        "1"
    } else if d == 2 {
        "2"
    } else if d == 3 {
        "3"
    } else if d == 4 {
        "4"
    } else if d == 5 {
        "5"
    } else if d == 6 {
        "6"
    } else if d == 7 {
        "7"
    } else if d == 8 {
        "8"
    } else {
        "9"
    };
    assert(r@ =~= seq![digit_char(d as int)]);
    r
}

/// Writes a natural number in decimal.
pub fn digits_string(n: u64) -> (r: String)
    ensures
        r@ == decimal_digits(n as nat),
    decreases n,
{
    if n < 10 {
        String::from_str(digit_str(n))
    } else {
        let mut s = digits_string(n / 10);
        s.append(digit_str(n % 10));
        assert(s@ =~= decimal_digits((n / 10) as nat).push(digit_char((n % 10) as int)));
        s
    }
}

/// Writes an integer in decimal.
pub fn decimal_string(n: i64) -> (r: String)
    ensures
        r@ == decimal(n as int),
{
    if n < 0 {
        let magnitude: u64 = if n == i64::MIN {
            9223372036854775808u64
        } else {
            (-n) as u64
        };
        proof {
            reveal_strlit("-");
        }
        let mut s = String::from_str("-");
        let digits = digits_string(magnitude);
        s.append(digits.as_str());
        assert(s@ =~= seq!['-'] + decimal_digits((-n) as nat));
        s
    } else {
        digits_string(n as u64)
    }
}

/// Writes a position in a list with at least two digits.
pub fn pad2_string(n: usize) -> (r: String)
    ensures
        r@ == decimal_pad2(n as nat),
{
    if n < 10 {
        proof {
            reveal_strlit("0");
        }
        let mut s = String::from_str("0");
        let digits = digits_string(n as u64);
        s.append(digits.as_str());
        assert(s@ =~= seq!['0'] + decimal_digits(n as nat));
        s
    } else {
        digits_string(n as u64)
    }
}

/// The position of the first hyphen of `s` at or after `from`, or the length
/// of `s` where there is none.
pub open spec fn first_hyphen(s: Seq<char>, from: int) -> int
    decreases s.len() - from,
{
    if from < 0 || from >= s.len() {
        s.len() as int
    } else if s[from] == '-' {
        from
    } else {
        first_hyphen(s, from + 1)
    }
}

/// The day and the id of a directory name made of a day, an id and an
/// author, joined by hyphens: what stands before the second hyphen, where a
/// hyphen right behind the first is the sign of the id and is passed over.
/// The whole name where no such second hyphen follows.
pub open spec fn name_stem(s: Seq<char>) -> Seq<char> {
    let a = first_hyphen(s, 0);
    if a >= s.len() {
        s
    } else if a + 1 < s.len() && s[a + 1] == '-' {
        s.subrange(0, first_hyphen(s, a + 2))
    } else {
        s.subrange(0, first_hyphen(s, a + 1))
    }
}

/// The characters that the name of a scheme is made of.
pub open spec fn is_scheme_char(c: char) -> bool {
    ('a' <= c && c <= 'z') || ('A' <= c && c <= 'Z') || ('0' <= c && c <= '9') || c == '+' || c
        == '-' || c == '.'
}

/// The position of the first character of `s` at or after `from` that cannot
/// stand in the name of a scheme, or the length of `s` where there is none.
pub open spec fn scheme_end(s: Seq<char>, from: int) -> int
    decreases s.len() - from,
{
    if from < 0 || from >= s.len() {
        s.len() as int
    } else if !is_scheme_char(s[from]) {
        from
    } else {
        scheme_end(s, from + 1)
    }
}

/// A letter of the alphabet of schemes.
pub open spec fn is_scheme_letter(c: char) -> bool {
    ('a' <= c && c <= 'z') || ('A' <= c && c <= 'Z')
}

/// The address names a host: it starts with the name of a scheme, which
/// begins with a letter, followed by `://`.
pub open spec fn has_host(s: Seq<char>) -> bool {
    let e = scheme_end(s, 0);
    e > 0 && is_scheme_letter(s[0]) && e + 2 < s.len() && s[e] == ':' && s[e + 1] == '/' && s[e
        + 2] == '/'
}

/// The position of the first `?` or `#` of `s` at or after `from`, or of the
/// first `/` where `slash` is set and it comes earlier; the length of `s`
/// where there is none.
pub open spec fn first_stop(s: Seq<char>, from: int, slash: bool) -> int
    decreases s.len() - from,
{
    if from < 0 || from >= s.len() {
        s.len() as int
    } else if s[from] == '?' || s[from] == '#' || (slash && s[from] == '/') {
        from
    } else {
        first_stop(s, from + 1, slash)
    }
}

/// Where the path of an address starts: behind the scheme and the host where
/// the address names a host, else at its start.
pub open spec fn path_start(s: Seq<char>) -> int {
    if has_host(s) {
        first_stop(s, scheme_end(s, 0) + 3, true)
    } else {
        0
    }
}

/// Where the path of an address ends: before its query and its fragment, at
/// the first `?` or `#` behind the start of the path.
pub open spec fn path_end(s: Seq<char>) -> int {
    first_stop(s, path_start(s), false)
}

/// The path of an address.
pub open spec fn url_path(s: Seq<char>) -> Seq<char> {
    s.subrange(path_start(s), path_end(s))
}

/// The position of the last full stop of `s` before `upto`, or -1 where there
/// is none.
pub open spec fn last_dot(s: Seq<char>, upto: int) -> int
    decreases upto,
{
    if upto <= 0 || upto > s.len() {
        -1
    } else if s[upto - 1] == '.' {
        upto - 1
    } else {
        last_dot(s, upto - 1)
    }
}

/// The extension of an address: what stands in its path from the last full
/// stop of the path on, the full stop included; nothing where the path has
/// none. Neither the host nor the query counts.
pub open spec fn extension(s: Seq<char>) -> Seq<char> {
    let path = url_path(s);
    let i = last_dot(path, path.len() as int);
    if i < 0 {
        Seq::<char>::empty()
    } else {
        path.subrange(i, path.len() as int)
    }
}

/// Finds the first hyphen of `s` at or after `from`.
pub fn find_hyphen(s: &str, from: usize) -> (r: usize)
    requires
        from <= s@.len(),
    ensures
        r == first_hyphen(s@, from as int),
        from <= r <= s@.len(),
{
    let n = s.unicode_len();
    let mut i: usize = from;
    while i < n
        invariant
            n == s@.len(),
            from <= i <= n,
            first_hyphen(s@, from as int) == first_hyphen(s@, i as int),
        decreases n - i,
    {
        if s.get_char(i) == '-' {
            return i;
        }
        i = i + 1;
    }
    i
}

/// Cuts a directory name down to its day and id.
pub fn stem_of(s: &str) -> (r: String)
    ensures
        r@ == name_stem(s@),
{
    let n = s.unicode_len();
    let a = find_hyphen(s, 0);
    if a >= n {
        String::from_str(s)
    } else if a + 1 < n && s.get_char(a + 1) == '-' {
        let b = find_hyphen(s, a + 2);
        String::from_str(s.substring_char(0, b))
    } else {
        let b = find_hyphen(s, a + 1);
        String::from_str(s.substring_char(0, b))
    }
}

/// Tells whether a character can stand in the name of a scheme.
pub fn scheme_char(c: char) -> (r: bool)
    ensures
        r == is_scheme_char(c),
{
    ('a' <= c && c <= 'z') || ('A' <= c && c <= 'Z') || ('0' <= c && c <= '9') || c == '+' || c
        == '-' || c == '.'
}

/// Tells whether a character can begin the name of a scheme.
pub fn scheme_letter(c: char) -> (r: bool)
    ensures
        r == is_scheme_letter(c),
{
    ('a' <= c && c <= 'z') || ('A' <= c && c <= 'Z')
}

/// Finds the first `?` or `#` of `s` at or after `from`, or the first `/`
/// where `slash` is set and it comes earlier.
pub fn find_stop(s: &str, from: usize, slash: bool) -> (r: usize)
    requires
        from <= s@.len(),
    ensures
        r == first_stop(s@, from as int, slash),
        from <= r <= s@.len(),
{
    let n = s.unicode_len();
    let mut i: usize = from;
    while i < n
        invariant
            n == s@.len(),
            from <= i <= n,
            first_stop(s@, from as int, slash) == first_stop(s@, i as int, slash),
        decreases n - i,
    {
        let c = s.get_char(i);
        if c == '?' || c == '#' || (slash && c == '/') {
            return i;
        }
        i = i + 1;
    }
    i
}

/// Finds where the path of an address starts and where it ends.
pub fn path_bounds(s: &str) -> (r: (usize, usize))
    ensures
        r.0 == path_start(s@),
        r.1 == path_end(s@),
        r.0 <= r.1 <= s@.len(),
{
    let n = s.unicode_len();
    let mut e: usize = 0;
    while e < n && scheme_char(s.get_char(e))
        invariant
            n == s@.len(),
            e <= n,
            scheme_end(s@, 0) == scheme_end(s@, e as int),
        decreases n - e,
    {
        e = e + 1;
    }
    let named = e > 0 && scheme_letter(s.get_char(0)) && n - e > 2 && s.get_char(e) == ':'
        && s.get_char(e + 1) == '/' && s.get_char(e + 2) == '/';
    let start = if named {
        find_stop(s, e + 3, true)
    } else {
        0
    };
    let end = find_stop(s, start, false);
    (start, end)
}

/// Cuts an address down to its path.
pub fn path_of(s: &str) -> (r: String)
    ensures
        r@ == url_path(s@),
{
    let (start, end) = path_bounds(s);
    String::from_str(s.substring_char(start, end))
}

/// Cuts an address down to its extension.
pub fn extension_of(s: &str) -> (r: String)
    ensures
        r@ == extension(s@),
{
    let (start, end) = path_bounds(s);
    let ghost path = url_path(s@);
    let mut i: usize = end;
    while i > start
        invariant
            start <= i <= end <= s@.len(),
            path == url_path(s@),
            path == s@.subrange(start as int, end as int),
            last_dot(path, path.len() as int) == last_dot(path, i - start),
        decreases i,
    {
        if s.get_char(i - 1) == '.' {
            assert(path.len() == end - start);
            assert(path[i - 1 - start] == '.');
            assert(last_dot(path, i - start) == i - 1 - start);
            assert(s@.subrange(i - 1, end as int) =~= path.subrange(
                i - 1 - start,
                path.len() as int,
            ));
            return String::from_str(s.substring_char(i - 1, end));
        }
        assert(path.len() == end - start);
        assert(path[i - 1 - start] != '.');
        i = i - 1;
    }
    assert(s@.subrange(0, 0) =~= Seq::<char>::empty());
    String::from_str(s.substring_char(0, 0))
}

} // verus!
