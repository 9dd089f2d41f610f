//! Text rules shared by the backends and the settings: white space, decimal
//! numbers, searching, and the names of paths.

use vstd::prelude::*;
use vstd::string::StrSliceExecFns;
use vstd::string::StringExecFns;

verus! {

/// A character with the Unicode `White_Space` property.
pub open spec fn is_space(c: char) -> bool {
    let n = c as u32;
    ||| 0x09 <= n <= 0x0D
    ||| n == 0x20
    ||| n == 0x85
    ||| n == 0xA0
    ||| n == 0x1680
    ||| 0x2000 <= n <= 0x200A
    ||| n == 0x2028
    ||| n == 0x2029
    ||| n == 0x202F
    ||| n == 0x205F
    ||| n == 0x3000
}

/// An ASCII decimal digit.
pub open spec fn is_digit(c: char) -> bool {
    '0' <= c <= '9'
}

/// The text without its leading and trailing white space.
pub open spec fn trimmed(s: Seq<char>) -> Seq<char>
    decreases s.len(),
{
    if s.len() > 0 && is_space(s[0]) {
        trimmed(s.drop_first())
    } else if s.len() > 0 && is_space(s.last()) {
        trimmed(s.drop_last())
    } else {
        s
    }
}

/// Every character is an ASCII decimal digit.
pub open spec fn all_digits(s: Seq<char>) -> bool {
    forall|i: int| 0 <= i < s.len() ==> is_digit(#[trigger] s[i])
}

/// The number that a run of decimal digits writes, most significant first.
pub open spec fn digits_value(s: Seq<char>) -> nat
    decreases s.len(),
{
    if s.len() == 0 {
        0
    } else {
        (10 * digits_value(s.drop_last()) + (s.last() as u32 - '0' as u32)) as nat
    }
}

/// The value of an unsigned decimal: an optional `+` and at least one digit.
pub open spec fn unsigned_value(s: Seq<char>) -> Option<nat> {
    let body = if s.len() > 0 && s[0] == '+' {
        s.drop_first()
    } else {
        s
    };
    if body.len() > 0 && all_digits(body) {
        Some(digits_value(body))
    } else {
        None
    }
}

/// The value of a signed decimal: an optional `+` or `-` and at least one digit.
pub open spec fn signed_value(s: Seq<char>) -> Option<int> {
    if s.len() > 0 && s[0] == '-' {
        let body = s.drop_first();
        if body.len() > 0 && all_digits(body) {
            Some(-(digits_value(body) as int))
        } else {
            None
        }
    } else {
        match unsigned_value(s) {
            Some(v) => Some(v as int),
            None => None,
        }
    }
}

/// What parsing a text as `usize` gives: its unsigned value where that fits.
pub open spec fn usize_of(s: Seq<char>) -> Option<usize> {
    match unsigned_value(s) {
        Some(v) if v <= usize::MAX => Some(v as usize),
        _ => None,
    }
}

/// What parsing a text as `i32` gives: its signed value where that fits.
pub open spec fn i32_of(s: Seq<char>) -> Option<i32> {
    match signed_value(s) {
        Some(v) if i32::MIN <= v <= i32::MAX => Some(v as i32),
        _ => None,
    }
}

/// Whether a character has the Unicode `White_Space` property.
pub fn char_is_space(c: char) -> (r: bool)
    ensures
        r == is_space(c),
{
    let n: u32 = c as u32;
    (0x09 <= n && n <= 0x0D) || n == 0x20 || n == 0x85 || n == 0xA0 || n == 0x1680 || (0x2000 <= n
        && n <= 0x200A) || n == 0x2028 || n == 0x2029 || n == 0x202F || n == 0x205F || n == 0x3000
}

/// Whether a character is an ASCII decimal digit.
pub fn char_is_digit(c: char) -> (r: bool)
    ensures
        r == is_digit(c),
{
    '0' <= c && c <= '9'
}

/// The characters of a text, in order.
pub fn chars_of(s: &str) -> (r: Vec<char>)
    ensures
        r@ == s@,
{
    let n: usize = s.unicode_len();
    let mut out: Vec<char> = Vec::new();
    let mut i: usize = 0;
    while i < n
        invariant
            n == s@.len(),
            i <= n,
            out@ == s@.take(i as int),
        decreases n - i,
    {
        out.push(s.get_char(i));
        i += 1;
    }
    out
}

/// Trimming a text that starts with white space trims the rest.
proof fn lemma_trimmed_range(s: Seq<char>, i: int, j: int)
    requires
        0 <= i <= j <= s.len(),
    ensures
        i < j && is_space(s[i]) ==> trimmed(s.subrange(i, j)) == trimmed(s.subrange(i + 1, j)),
        i < j && !is_space(s[i]) && is_space(s[j - 1]) ==> trimmed(s.subrange(i, j)) == trimmed(
            s.subrange(i, j - 1),
        ),
        i == j || (!is_space(s[i]) && !is_space(s[j - 1])) ==> trimmed(s.subrange(i, j))
            == s.subrange(i, j),
{
    let t = s.subrange(i, j);
    if i < j {
        assert(t[0] == s[i]);
        assert(t.last() == s[j - 1]);
        assert(t.drop_first() =~= s.subrange(i + 1, j));
        assert(t.drop_last() =~= s.subrange(i, j - 1));
    }
}

/// Where the trimmed text starts and ends.
pub fn trim_bounds(s: &Vec<char>) -> (r: (usize, usize))
    ensures
        r.0 <= r.1 <= s.len(),
        s@.subrange(r.0 as int, r.1 as int) == trimmed(s@),
{
    let n: usize = s.len();
    let mut i: usize = 0;
    assert(s@.subrange(0, n as int) =~= s@);
    while i < n && char_is_space(s[i])
        invariant
            n == s.len(),
            i <= n,
            trimmed(s@) == trimmed(s@.subrange(i as int, n as int)),
        decreases n - i,
    {
        proof {
            lemma_trimmed_range(s@, i as int, n as int);
        }
        i += 1;
    }
    let mut j: usize = n;
    while j > i && char_is_space(s[j - 1])
        invariant
            n == s.len(),
            i <= j <= n,
            i < n ==> !is_space(s@[i as int]),
            trimmed(s@) == trimmed(s@.subrange(i as int, j as int)),
        decreases j,
    {
        proof {
            lemma_trimmed_range(s@, i as int, j as int);
        }
        j -= 1;
    }
    proof {
        lemma_trimmed_range(s@, i as int, j as int);
    }
    (i, j)
}

/// The text without its leading and trailing white space.
pub fn trim(text: &str) -> (r: &str)
    ensures
        r@ == trimmed(text@),
{
    let s: Vec<char> = chars_of(text);
    let (lo, hi) = trim_bounds(&s);
    text.substring_char(lo, hi)
}

/// A longer run of digits writes a number at least as large as any of its prefixes.
proof fn lemma_digits_prefix(s: Seq<char>, k: int)
    requires
        0 <= k <= s.len(),
        all_digits(s),
    ensures
        digits_value(s.take(k)) <= digits_value(s),
    decreases s.len() - k,
{
    if k == s.len() {
        assert(s.take(k) =~= s);
    } else {
        let front = s.drop_last();
        lemma_digits_prefix(front, k);
        assert(front.take(k) =~= s.take(k));
    }
}

/// The number written by `s[lo..hi]`, where those are digits and it is at most `limit`.
fn digits_in(s: &Vec<char>, lo: usize, hi: usize, limit: u64) -> (r: Option<u64>)
    requires
        lo <= hi <= s.len(),
    ensures
        r == if all_digits(s@.subrange(lo as int, hi as int)) && digits_value(
            s@.subrange(lo as int, hi as int),
        ) <= limit {
            Some(digits_value(s@.subrange(lo as int, hi as int)) as u64)
        } else {
            None
        },
{
    let ghost whole = s@.subrange(lo as int, hi as int);
    let mut acc: u128 = 0;
    let mut i: usize = lo;
    assert(whole.take(0) =~= Seq::<char>::empty());
    while i < hi
        invariant
            lo <= i <= hi <= s.len(),
            whole == s@.subrange(lo as int, hi as int),
            all_digits(whole.take(i - lo)),
            acc == digits_value(whole.take(i - lo)),
            acc <= limit,
        decreases hi - i,
    {
        let c: char = s[i];
        let ghost next = whole.take(i - lo + 1);
        assert(whole[i - lo] == c);
        if !char_is_digit(c) {
            return None;
        }
        acc = acc * 10 + ((c as u32 - '0' as u32) as u128);
        proof {
            assert(next.drop_last() =~= whole.take(i - lo));
        }
        if acc > limit as u128 {
            proof {
                if all_digits(whole) {
                    lemma_digits_prefix(whole, i - lo + 1);
                }
            }
            return None;
        }
        i += 1;
    }
    assert(whole.take(hi - lo) =~= whole);
    Some(acc as u64)
}

/// Reads `s[lo..hi]` as an unsigned decimal number.
pub fn usize_in(s: &Vec<char>, lo: usize, hi: usize) -> (r: Option<usize>)
    requires
        lo <= hi <= s.len(),
    ensures
        r == usize_of(s@.subrange(lo as int, hi as int)),
{
    let ghost part = s@.subrange(lo as int, hi as int);
    let from: usize = if lo < hi && s[lo] == '+' {
        lo + 1
    } else {
        lo
    };
    assert(s@.subrange(from as int, hi as int) =~= if from == lo + 1 {
        part.drop_first()
    } else {
        part
    });
    if from == hi {
        return None;
    }
    match digits_in(s, from, hi, usize::MAX as u64) {
        Some(v) => Some(v as usize),
        None => None,
    }
}

/// Reads an unsigned decimal number: an optional `+`, then digits only.
pub fn parse_usize(text: &str) -> (r: Option<usize>)
    ensures
        r == usize_of(text@),
{
    let s: Vec<char> = chars_of(text);
    assert(s@.subrange(0, s@.len() as int) =~= s@);
    usize_in(&s, 0, s.len())
}

/// Reads an unsigned decimal number with white space around it.
pub fn parse_trimmed_usize(text: &str) -> (r: Option<usize>)
    ensures
        r == usize_of(trimmed(text@)),
{
    let s: Vec<char> = chars_of(text);
    let (lo, hi) = trim_bounds(&s);
    usize_in(&s, lo, hi)
}

/// Reads a signed decimal number: an optional `+` or `-`, then digits only.
pub fn parse_i32(text: &str) -> (r: Option<i32>)
    ensures
        r == i32_of(text@),
{
    let s: Vec<char> = chars_of(text);
    let n: usize = s.len();
    let negative: bool = n > 0 && s[0] == '-';
    let lo: usize = if n > 0 && (s[0] == '+' || s[0] == '-') {
        1
    } else {
        0
    };
    assert(s@.subrange(lo as int, n as int) =~= if lo == 1 {
        s@.drop_first()
    } else {
        s@
    });
    if lo == n {
        return None;
    }
    if negative {
        match digits_in(&s, lo, n, 2147483648) {
            Some(v) => Some((-(v as i64)) as i32),
            None => None,
        }
    } else {
        match digits_in(&s, lo, n, 2147483647) {
            Some(v) => Some(v as i32),
            None => None,
        }
    }
}

/// The texts of a run of strings.
pub open spec fn texts(run: Seq<String>) -> Seq<Seq<char>> {
    Seq::new(run.len(), |i: int| run[i]@)
}

/// Whether two texts are the same.
pub fn same_text(a: &str, b: &str) -> (r: bool)
    ensures
        r == (a@ == b@),
{
    let x: Vec<char> = chars_of(a);
    let y: Vec<char> = chars_of(b);
    if x.len() != y.len() {
        return false;
    }
    let mut i: usize = 0;
    while i < x.len()
        invariant
            x.len() == y.len(),
            x@ == a@,
            y@ == b@,
            i <= x.len(),
            forall|j: int| 0 <= j < i ==> x@[j] == y@[j],
        decreases x.len() - i,
    {
        if x[i] != y[i] {
            return false;
        }
        i += 1;
    }
    assert(x@ =~= y@);
    true
}

/// `hay` holds `needle` from position `i` on.
pub open spec fn occurs_at(hay: Seq<char>, needle: Seq<char>, i: int) -> bool {
    0 <= i && i + needle.len() <= hay.len() && hay.subrange(i, i + needle.len()) == needle
}

/// `hay` holds `needle` somewhere.
pub open spec fn contains_text(hay: Seq<char>, needle: Seq<char>) -> bool {
    exists|i: int| occurs_at(hay, needle, i)
}

/// The text without any occurrence of the character `c`.
pub open spec fn without(s: Seq<char>, c: char) -> Seq<char>
    decreases s.len(),
{
    if s.len() == 0 {
        s
    } else if s.last() == c {
        without(s.drop_last(), c)
    } else {
        without(s.drop_last(), c).push(s.last())
    }
}

/// The character that writes the digit `d`.
pub open spec fn digit_char(d: nat) -> char {
    (d + 48) as char
}

/// A natural number written in decimal, without leading zeros.
pub open spec fn decimal_text(n: nat) -> Seq<char>
    decreases n,
{
    if n < 10 {
        seq![digit_char(n)]
    } else {
        decimal_text(n / 10).push(digit_char(n % 10))
    }
}

/// An integer written in decimal, with `-` before a negative one.
pub open spec fn signed_text(v: int) -> Seq<char> {
    if v < 0 {
        seq!['-'] + decimal_text((-v) as nat)
    } else {
        decimal_text(v as nat)
    }
}

/// Whether `hay` holds `needle` from position `i` on.
fn matches_at(hay: &Vec<char>, needle: &Vec<char>, i: usize) -> (r: bool)
    requires
        i + needle.len() <= hay.len(),
    ensures
        r == occurs_at(hay@, needle@, i as int),
{
    let ghost part = hay@.subrange(i as int, i + needle.len());
    let mut k: usize = 0;
    while k < needle.len()
        invariant
            k <= needle.len(),
            i + needle.len() <= hay.len(),
            part == hay@.subrange(i as int, i + needle.len()),
            forall|j: int| 0 <= j < k ==> hay@[i + j] == needle@[j],
        decreases needle.len() - k,
    {
        if hay[i + k] != needle[k] {
            return false;
        }
        k += 1;
    }
    assert(part =~= needle@);
    true
}

/// Whether `hay` holds `needle` somewhere.
pub fn contains(hay: &Vec<char>, needle: &Vec<char>) -> (r: bool)
    ensures
        r == contains_text(hay@, needle@),
{
    if needle.len() > hay.len() {
        assert forall|i: int| !occurs_at(hay@, needle@, i) by {}
        return false;
    }
    if needle.len() == 0 {
        assert(hay@.subrange(0, 0) =~= needle@);
        assert(occurs_at(hay@, needle@, 0));
        return true;
    }
    let last: usize = hay.len() - needle.len();
    let mut i: usize = 0;
    while i <= last
        invariant
            last == hay.len() - needle.len(),
            needle.len() > 0,
            i <= last + 1,
            forall|j: int| 0 <= j < i ==> !occurs_at(hay@, needle@, j),
        decreases last + 1 - i,
    {
        if matches_at(hay, needle, i) {
            return true;
        }
        i += 1;
    }
    false
}

/// The text without any occurrence of the character `c`.
pub fn remove_char(s: &Vec<char>, c: char) -> (r: Vec<char>)
    ensures
        r@ == without(s@, c),
{
    let mut out: Vec<char> = Vec::new();
    let mut i: usize = 0;
    while i < s.len()
        invariant
            i <= s.len(),
            out@ == without(s@.take(i as int), c),
        decreases s.len() - i,
    {
        assert(s@.take(i + 1).drop_last() =~= s@.take(i as int));
        if s[i] != c {
            out.push(s[i]);
        }
        i += 1;
    }
    assert(s@.take(s.len() as int) =~= s@);
    out
}

/// The text of one decimal digit.
fn digit_str(d: usize) -> (r: &'static str)
    requires
        d < 10,
    ensures
        r@ == seq![digit_char(d as nat)],
{
    proof {
        reveal_strlit("0");
        reveal_strlit("1");
        reveal_strlit("2");
        reveal_strlit("3");
        reveal_strlit("4");
        reveal_strlit("5");
        reveal_strlit("6");
        reveal_strlit("7");
        reveal_strlit("8");
        reveal_strlit("9");
    }
    let r: &'static str = match d {
        0 => "0",
        1 => "1",
        2 => "2",
        3 => "3",
        4 => "4",
        5 => "5",
        6 => "6",
        7 => "7",
        8 => "8",
        _ => "9",
    };
    r
}

/// Writes a number in decimal.
pub fn decimal(n: usize) -> (r: String)
    ensures
        r@ == decimal_text(n as nat),
    decreases n,
{
    if n < 10 {
        digit_str(n).to_owned()
    } else {
        let mut out: String = decimal(n / 10);
        out.append(digit_str(n % 10));
        out
    }
}

/// Writes an integer in decimal, with `-` before a negative one.
pub fn signed_decimal(v: i32) -> (r: String)
    ensures
        r@ == signed_text(v as int),
{
    if v < 0 {
        proof {
            reveal_strlit("-");
        }
        let mut out: String = "-".to_owned();
        let digits: String = decimal((-(v as i64)) as usize);
        out.append(digits.as_str());
        assert("-"@ =~= seq!['-']);
        out
    } else {
        decimal(v as usize)
    }
}

/// A number written in decimal reads back as itself.
pub proof fn law_decimal_reads_back(n: nat)
    ensures
        decimal_text(n).len() > 0,
        all_digits(decimal_text(n)),
        digits_value(decimal_text(n)) == n,
        unsigned_value(decimal_text(n)) == Some(n),
    decreases n,
{
    if n < 10 {
        let one = decimal_text(n);
        assert(digits_value(one.drop_last()) == 0);
    } else {
        law_decimal_reads_back(n / 10);
        let front = decimal_text(n / 10);
        let whole = decimal_text(n);
        assert(whole.drop_last() =~= front);
    }
}

/// Where the last name of a path ends: before its trailing separators.
pub open spec fn name_end(path: Seq<char>) -> int
    decreases path.len(),
{
    if path.len() > 0 && path.last() == '/' {
        name_end(path.drop_last())
    } else {
        path.len() as int
    }
}

/// Where the name that ends at `end` starts: after the separator before it.
pub open spec fn name_start(path: Seq<char>, end: int) -> int
    decreases end,
{
    if 0 < end <= path.len() && path[end - 1] != '/' {
        name_start(path, end - 1)
    } else {
        end
    }
}

/// The last name of a path, trailing separators apart; none where that is
/// empty, `.` or `..`.
pub open spec fn file_name(path: Seq<char>) -> Option<Seq<char>> {
    let end = name_end(path);
    let start = name_start(path, end);
    let name = path.subrange(start, end);
    if name.len() == 0 || name == seq!['.'] || name == seq!['.', '.'] {
        None
    } else {
        Some(name)
    }
}

/// A path with a name added: the name itself where it starts at the root,
/// else the path, a separator where the path does not end in one, and the
/// name.
pub open spec fn joined(base: Seq<char>, name: Seq<char>) -> Seq<char> {
    if name.len() > 0 && name[0] == '/' {
        name
    } else if base.len() == 0 || base.last() == '/' {
        base + name
    } else {
        base + seq!['/'] + name
    }
}

/// The last name of a path.
pub fn path_file_name(path: &str) -> (r: Option<String>)
    ensures
        match r {
            Some(name) => file_name(path@) == Some(name@),
            None => file_name(path@) is None,
        },
{
    let s: Vec<char> = chars_of(path);
    let mut end: usize = s.len();
    assert(s@.take(end as int) =~= s@);
    while end > 0 && s[end - 1] == '/'
        invariant
            end <= s.len(),
            name_end(s@) == name_end(s@.take(end as int)),
        decreases end,
    {
        assert(s@.take(end as int).drop_last() =~= s@.take(end - 1));
        end -= 1;
    }
    assert(name_end(s@) == end);
    let mut start: usize = end;
    while start > 0 && s[start - 1] != '/'
        invariant
            start <= end <= s.len(),
            name_start(s@, end as int) == name_start(s@, start as int),
        decreases start,
    {
        start -= 1;
    }
    let n: usize = end - start;
    let ghost name = s@.subrange(start as int, end as int);
    if n == 0 || (n == 1 && s[start] == '.') || (n == 2 && s[start] == '.' && s[start + 1] == '.') {
        proof {
            if n == 1 {
                assert(name =~= seq!['.']);
            }
            if n == 2 {
                assert(name =~= seq!['.', '.']);
            }
        }
        return None;
    }
    proof {
        assert(seq!['.'][0] == '.' && seq!['.', '.'][0] == '.' && seq!['.', '.'][1] == '.');
    }
    Some(path.substring_char(start, end).to_owned())
}

/// Adds a name to a path.
pub fn join_path(base: &str, name: &str) -> (r: String)
    ensures
        r@ == joined(base@, name@),
{
    let b: Vec<char> = chars_of(base);
    let n: Vec<char> = chars_of(name);
    if n.len() > 0 && n[0] == '/' {
        return name.to_owned();
    }
    let mut out: String = base.to_owned();
    if !(b.len() == 0 || b[b.len() - 1] == '/') {
        proof {
            reveal_strlit("/");
        }
        out.append("/");
    }
    out.append(name);
    out
}

} // verus!
