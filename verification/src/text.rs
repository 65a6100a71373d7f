//! Small text utilities shared by the rest of the crate: comparing string
//! slices, rendering numbers in decimal, joining and trimming.

use vstd::prelude::*;
use vstd::string::*;

verus! {

/// The views of a sequence of strings, in order.
pub open spec fn views(parts: Seq<String>) -> Seq<Seq<char>> {
    Seq::new(parts.len(), |i: int| parts[i]@)
}

/// The character that writes the digit `d` (below ten).
pub open spec fn digit_char(d: nat) -> char {
    if d == 0 {
        '0'
    } else if d == 1 {
        '1'
    } else if d == 2 {
        '2'
    } else if d == 3 {
        '3'
    } else if d == 4 {
        '4'
    } else if d == 5 {
        '5'
    } else if d == 6 {
        '6'
    } else if d == 7 {
        '7'
    } else if d == 8 {
        '8'
    } else {
        '9'
    }
}

/// Whether `c` is one of the ten decimal digits.
pub open spec fn is_digit(c: char) -> bool {
    '0' <= c && c <= '9'
}

/// The decimal numeral of `n`: most significant digit first, no sign, no
/// leading zero (zero itself is written `0`).
pub open spec fn decimal_digits(n: nat) -> Seq<char>
    decreases n,
{
    if n < 10 {
        seq![digit_char(n)]
    } else {
        decimal_digits(n / 10).push(digit_char(n % 10))
    }
}

/// `parts` written one after another with `sep` between neighbours.
pub open spec fn joined(parts: Seq<Seq<char>>, sep: Seq<char>) -> Seq<char>
    decreases parts.len(),
{
    if parts.len() == 0 {
        Seq::empty()
    } else if parts.len() == 1 {
        parts[0]
    } else {
        joined(parts.drop_last(), sep) + sep + parts.last()
    }
}

/// Whether `c` has the Unicode property White_Space.
pub open spec fn is_whitespace(c: char) -> bool {
    ||| ('\u{9}' <= c && c <= '\u{d}')
    ||| c == ' '
    ||| c == '\u{85}'
    ||| c == '\u{a0}'
    ||| c == '\u{1680}'
    ||| ('\u{2000}' <= c && c <= '\u{200a}')
    ||| c == '\u{2028}'
    ||| c == '\u{2029}'
    ||| c == '\u{202f}'
    ||| c == '\u{205f}'
    ||| c == '\u{3000}'
}

/// `s` without its leading whitespace.
pub open spec fn trimmed_start(s: Seq<char>) -> Seq<char>
    decreases s.len(),
{
    if s.len() > 0 && is_whitespace(s[0]) {
        trimmed_start(s.drop_first())
    } else {
        s
    }
}

/// `s` without its trailing whitespace.
pub open spec fn trimmed_end(s: Seq<char>) -> Seq<char>
    decreases s.len(),
{
    if s.len() > 0 && is_whitespace(s.last()) {
        trimmed_end(s.drop_last())
    } else {
        s
    }
}

/// `s` without leading and trailing whitespace.
pub open spec fn trimmed(s: Seq<char>) -> Seq<char> {
    trimmed_end(trimmed_start(s))
}

/// Whether `s` ends with `suffix`.
pub open spec fn has_suffix(s: Seq<char>, suffix: Seq<char>) -> bool {
    suffix.len() <= s.len() && s.subrange(s.len() - suffix.len(), s.len() as int) == suffix
}

/// Whether two string slices hold the same characters.
pub fn str_eq(a: &str, b: &str) -> (same: bool)
    ensures
        same == (a@ == b@),
{
    let x = String::from_str(a);
    let y = String::from_str(b);
    x == y
}

/// The one-character string of a digit below ten.
fn digit_str(d: u64) -> (s: &'static str)
    requires
        d < 10,
    ensures
        s@ == seq![digit_char(d as nat)],
{
    proof {
        reveal_strlit("0");
        reveal_strlit("1");
        reveal_strlit("2");
        reveal_strlit("3");
        reveal_strlit("4");
        reveal_strlit("5");
        reveal_strlit("6");
        reveal_strlit("7");
        reveal_strlit("8");
        reveal_strlit("9");
    }
    if d == 0 {
        "0"
    } else if d == 1 {
        "1"
    } else if d == 2 {
        "2"
    } else if d == 3 {
        "3"
    } else if d == 4 {
        "4"
    } else if d == 5 {
        "5"
    } else if d == 6 {
        "6"
    } else if d == 7 {
        "7"
    } else if d == 8 {
        "8"
    } else {
        "9"
    }
}

/// Writes `n` in decimal.
pub fn decimal(n: u64) -> (s: String)
    ensures
        s@ == decimal_digits(n as nat),
    decreases n,
{
    if n < 10 {
        String::from_str(digit_str(n))
    } else {
        let mut s = decimal(n / 10);
        s.append(digit_str(n % 10));
        s
    }
}

/// Joins `parts` with `sep` between neighbours.
pub fn join(parts: &[String], sep: &str) -> (s: String)
    ensures
        s@ == joined(views(parts@), sep@),
{
    let mut s = String::new();
    let n: usize = parts.len();
    let mut i: usize = 0;
    while i < n
        invariant
            n == parts@.len(),
            i <= n,
            s@ == joined(views(parts@).take(i as int), sep@),
        decreases n - i,
    {
        proof {
            let before = views(parts@).take(i as int);
            let after = views(parts@).take(i + 1);
            assert(after.drop_last() =~= before);
        }
        if i > 0 {
            s.append(sep);
        }
        s.append(parts[i].as_str());
        i = i + 1;
    }
    proof {
        assert(views(parts@).take(n as int) =~= views(parts@));
    }
    s
}

/// Whether `c` is a whitespace character.
pub fn char_is_whitespace(c: char) -> (ws: bool)
    ensures
        ws == is_whitespace(c),
{
    (c >= '\u{9}' && c <= '\u{d}') || c == ' ' || c == '\u{85}' || c == '\u{a0}' || c
        == '\u{1680}' || (c >= '\u{2000}' && c <= '\u{200a}') || c == '\u{2028}' || c
        == '\u{2029}' || c == '\u{202f}' || c == '\u{205f}' || c == '\u{3000}'
}

/// Removing leading whitespace from a sequence that starts with `k`
/// whitespace characters is removing it from what follows them.
proof fn lemma_trimmed_start_skip(s: Seq<char>, k: int)
    requires
        0 <= k <= s.len(),
        forall|j: int| 0 <= j < k ==> is_whitespace(#[trigger] s[j]),
    ensures
        trimmed_start(s) == trimmed_start(s.subrange(k, s.len() as int)),
    decreases k,
{
    if k == 0 {
        assert(s.subrange(0, s.len() as int) =~= s);
    } else {
        let rest = s.drop_first();
        assert forall|j: int| 0 <= j < k - 1 implies is_whitespace(#[trigger] rest[j]) by {}
        lemma_trimmed_start_skip(rest, k - 1);
        assert(rest.subrange(k - 1, rest.len() as int) =~= s.subrange(k, s.len() as int));
    }
}

/// Removing trailing whitespace from a sequence whose characters from `k` on
/// are whitespace is removing it from what precedes them.
proof fn lemma_trimmed_end_skip(s: Seq<char>, k: int)
    requires
        0 <= k <= s.len(),
        forall|j: int| k <= j < s.len() ==> is_whitespace(#[trigger] s[j]),
    ensures
        trimmed_end(s) == trimmed_end(s.subrange(0, k)),
    decreases s.len() - k,
{
    if k == s.len() {
        assert(s.subrange(0, k) =~= s);
    } else {
        let rest = s.drop_last();
        assert forall|j: int| k <= j < rest.len() implies is_whitespace(#[trigger] rest[j]) by {}
        lemma_trimmed_end_skip(rest, k);
        assert(rest.subrange(0, k) =~= s.subrange(0, k));
    }
}

/// `s` without leading and trailing whitespace.
pub fn trim(s: &str) -> (t: String)
    ensures
        t@ == trimmed(s@),
{
    let n: usize = s.unicode_len();
    let mut start: usize = 0;
    while start < n && char_is_whitespace(s.get_char(start))
        invariant
            n == s@.len(),
            start <= n,
            forall|j: int| 0 <= j < start ==> is_whitespace(#[trigger] s@[j]),
        decreases n - start,
    {
        start = start + 1;
    }
    let mut end: usize = n;
    while end > start && char_is_whitespace(s.get_char(end - 1))
        invariant
            n == s@.len(),
            start <= end <= n,
            forall|j: int| end <= j < n ==> is_whitespace(#[trigger] s@[j]),
        decreases end,
    {
        end = end - 1;
    }
    let t = String::from_str(s.substring_char(start, end));
    proof {
        let tail = s@.subrange(start as int, n as int);
        lemma_trimmed_start_skip(s@, start as int);
        assert forall|j: int| end - start <= j < tail.len() implies is_whitespace(
            #[trigger] tail[j],
        ) by {}
        lemma_trimmed_end_skip(tail, end - start);
    }
    t
}

/// Whether `s` ends with `suffix`.
pub fn ends_with(s: &str, suffix: &str) -> (found: bool)
    ensures
        found == has_suffix(s@, suffix@),
{
    let n: usize = s.unicode_len();
    let m: usize = suffix.unicode_len();
    if m > n {
        return false;
    }
    str_eq(s.substring_char(n - m, n), suffix)
}

/// The path of `name` under the directory `base`, as on a POSIX system: an
/// absolute `name` stands alone, and one separator is put between the two
/// unless `base` is empty or already ends with one.
pub open spec fn path_joined(base: Seq<char>, name: Seq<char>) -> Seq<char> {
    if name.len() > 0 && name[0] == '/' {
        name
    } else if base.len() == 0 || base.last() == '/' {
        base + name
    } else {
        base + seq!['/'] + name
    }
}

/// The path of `name` under the directory `base`.
pub fn join_path(base: &str, name: &str) -> (path: String)
    ensures
        path@ == path_joined(base@, name@),
{
    let name_len: usize = name.unicode_len();
    if name_len > 0 && name.get_char(0) == '/' {
        return String::from_str(name);
    }
    let base_len: usize = base.unicode_len();
    let mut path = String::from_str(base);
    if base_len > 0 && base.get_char(base_len - 1) != '/' {
        proof {
            reveal_strlit("/");
        }
        path.append("/");
    }
    path.append(name);
    path
}

/// A decimal numeral is not empty and holds digits only.
pub proof fn lemma_decimal_digits_shape(n: nat)
    ensures
        decimal_digits(n).len() >= 1,
        forall|i: int| 0 <= i < decimal_digits(n).len() ==> is_digit(#[trigger] decimal_digits(n)[i]),
    decreases n,
{
    if n >= 10 {
        lemma_decimal_digits_shape(n / 10);
    }
}

/// Two numbers with the same decimal numeral are the same number.
pub proof fn lemma_decimal_digits_injective(a: nat, b: nat)
    requires
        decimal_digits(a) == decimal_digits(b),
    ensures
        a == b,
    decreases a,
{
    lemma_decimal_digits_shape(a / 10);
    lemma_decimal_digits_shape(b / 10);
    if a < 10 && b < 10 {
        assert(decimal_digits(a)[0] == digit_char(a));
        assert(decimal_digits(b)[0] == digit_char(b));
    } else if a >= 10 && b >= 10 {
        let x = decimal_digits(a / 10);
        let y = decimal_digits(b / 10);
        let xa = x.push(digit_char(a % 10));
        let yb = y.push(digit_char(b % 10));
        assert(xa.drop_last() =~= x);
        assert(yb.drop_last() =~= y);
        assert(xa.last() == digit_char(a % 10));
        assert(yb.last() == digit_char(b % 10));
        lemma_decimal_digits_injective(a / 10, b / 10);
    }
}

/// The value of a decimal digit.
pub open spec fn digit_value(c: char) -> nat {
    (c as u32 - '0' as u32) as nat
}

/// The number that a sequence of decimal digits writes; 0 for none.
pub open spec fn decimal_value(digits: Seq<char>) -> nat
    decreases digits.len(),
{
    if digits.len() == 0 {
        0
    } else {
        decimal_value(digits.drop_last()) * 10 + digit_value(digits.last())
    }
}

/// The digits that `s` begins with.
pub open spec fn leading_digits(s: Seq<char>) -> Seq<char>
    decreases s.len(),
{
    if s.len() > 0 && is_digit(s[0]) {
        seq![s[0]] + leading_digits(s.drop_first())
    } else {
        Seq::empty()
    }
}

/// Reading a decimal numeral gives back the number it was written for.
pub proof fn lemma_decimal_value_of_digits(n: nat)
    ensures
        decimal_value(decimal_digits(n)) == n,
    decreases n,
{
    if n < 10 {
        assert(decimal_value(decimal_digits(n).drop_last()) == 0);
    } else {
        lemma_decimal_value_of_digits(n / 10);
        assert(decimal_digits(n).drop_last() =~= decimal_digits(n / 10));
    }
}

/// Where digits are followed by something that does not begin with a digit,
/// the leading digits of the whole are those digits.
pub proof fn lemma_leading_digits(digits: Seq<char>, rest: Seq<char>)
    requires
        forall|i: int| 0 <= i < digits.len() ==> is_digit(#[trigger] digits[i]),
        rest.len() == 0 || !is_digit(rest[0]),
    ensures
        leading_digits(digits + rest) == digits,
    decreases digits.len(),
{
    if digits.len() > 0 {
        assert((digits + rest).drop_first() =~= digits.drop_first() + rest);
        assert forall|i: int| 0 <= i < digits.drop_first().len() implies is_digit(
            #[trigger] digits.drop_first()[i],
        ) by {}
        lemma_leading_digits(digits.drop_first(), rest);
    }
}

/// Whether `needle` occurs in `s` at position `at`.
pub open spec fn occurs_at(s: Seq<char>, needle: Seq<char>, at: int) -> bool {
    0 <= at && at + needle.len() <= s.len() && s.subrange(at, at + needle.len()) == needle
}

/// Whether `needle` occurs somewhere in `s`.
pub open spec fn has_infix(s: Seq<char>, needle: Seq<char>) -> bool {
    exists|at: int| occurs_at(s, needle, at)
}

/// Whether `needle` occurs somewhere in `s`.
pub fn contains(s: &str, needle: &str) -> (found: bool)
    ensures
        found == has_infix(s@, needle@),
{
    let n: usize = s.unicode_len();
    let m: usize = needle.unicode_len();
    if m > n {
        return false;
    }
    let last: usize = n - m;
    let mut at: usize = 0;
    loop
        invariant
            n == s@.len(),
            m == needle@.len(),
            last == n - m,
            at <= last,
            forall|k: int| 0 <= k < at ==> !occurs_at(s@, needle@, k),
        decreases last - at,
    {
        if str_eq(s.substring_char(at, at + m), needle) {
            assert(occurs_at(s@, needle@, at as int));
            return true;
        }
        if at == last {
            return false;
        }
        at = at + 1;
    }
}

/// Whether the characters of `path` from `from` up to `to` are one of its
/// components: a longest run without a separator.
pub open spec fn is_component(path: Seq<char>, from: int, to: int) -> bool {
    &&& 0 <= from <= to <= path.len()
    &&& (from == 0 || path[from - 1] == '/')
    &&& (to == path.len() || path[to] == '/')
    &&& forall|k: int| from <= k < to ==> path[k] != '/'
}

/// Whether a component names something below the directory it stands in:
/// it is not empty, not `.` and not `..`.
pub open spec fn plain_component(component: Seq<char>) -> bool {
    component.len() > 0 && component != seq!['.'] && component != seq!['.', '.']
}

/// Whether `c` may stand in a clean path: neither NUL nor a backslash.
pub open spec fn path_char(c: char) -> bool {
    c != '\0' && c != '\\'
}

/// Whether `path` is a clean relative path: components that name something
/// below where they stand, one separator between neighbours and none at
/// either end, and neither NUL nor a backslash anywhere. Such a path stays
/// below the directory it is taken from.
pub open spec fn clean_path(path: Seq<char>) -> bool {
    &&& forall|k: int| 0 <= k < path.len() ==> path_char(#[trigger] path[k])
    &&& forall|from: int, to: int| #[trigger]
        is_component(path, from, to) ==> plain_component(path.subrange(from, to))
}

/// Whether the characters of `path` from `from` up to `to` name something
/// below the directory they stand in.
fn plain_at(path: &str, from: usize, to: usize) -> (plain: bool)
    requires
        from <= to <= path@.len(),
    ensures
        plain == plain_component(path@.subrange(from as int, to as int)),
{
    let ghost part = path@.subrange(from as int, to as int);
    let len: usize = to - from;
    assert(part.len() == len);
    assert(seq!['.'].len() == 1 && seq!['.', '.'].len() == 2);
    if len == 0 {
        false
    } else if len == 1 {
        let dot = path.get_char(from) == '.';
        assert(dot ==> part =~= seq!['.']);
        assert(!dot ==> part[0] != seq!['.'][0]);
        !dot
    } else if len == 2 {
        let dots = path.get_char(from) == '.' && path.get_char(from + 1) == '.';
        assert(dots ==> part =~= seq!['.', '.']);
        assert(!dots ==> part[0] != seq!['.', '.'][0] || part[1] != seq!['.', '.'][1]);
        !dots
    } else {
        true
    }
}

/// Whether `path` is a clean relative path.
pub fn is_clean_path(path: &str) -> (clean: bool)
    ensures
        clean == clean_path(path@),
{
    let n: usize = path.unicode_len();
    let mut start: usize = 0;
    let mut i: usize = 0;
    while i < n
        invariant
            n == path@.len(),
            start <= i <= n,
            start == 0 || path@[start - 1] == '/',
            forall|k: int| start <= k < i ==> path@[k] != '/',
            forall|k: int| 0 <= k < i ==> path_char(#[trigger] path@[k]),
            forall|from: int, to: int| #[trigger]
                is_component(path@, from, to) && to < start ==> plain_component(
                    path@.subrange(from, to),
                ),
        decreases n - i,
    {
        let c = path.get_char(i);
        if c == '\0' || c == '\\' {
            assert(!path_char(path@[i as int]));
            return false;
        }
        if c == '/' {
            if !plain_at(path, start, i) {
                assert(is_component(path@, start as int, i as int));
                return false;
            }
            assert forall|from: int, to: int| #[trigger]
                is_component(path@, from, to) && to < i + 1 implies plain_component(
                path@.subrange(from, to),
            ) by {
                if to >= start {
                    assert(to == i);
                    assert(from == start);
                }
            }
            start = i + 1;
        }
        i = i + 1;
    }
    let plain = plain_at(path, start, n);
    proof {
        if plain {
            assert forall|from: int, to: int| #[trigger]
                is_component(path@, from, to) implies plain_component(
                path@.subrange(from, to),
            ) by {
                if to >= start {
                    assert(to == n);
                    assert(from == start);
                }
            }
        } else {
            assert(is_component(path@, start as int, n as int));
        }
    }
    plain
}

/// A path of one plain component is clean.
pub proof fn lemma_clean_single(name: Seq<char>)
    requires
        plain_component(name),
        forall|k: int| 0 <= k < name.len() ==> path_char(#[trigger] name[k]) && name[k] != '/',
    ensures
        clean_path(name),
        is_component(name, 0, name.len() as int),
{
    assert forall|from: int, to: int| #[trigger] is_component(name, from, to) implies plain_component(
        name.subrange(from, to),
    ) by {
        assert(from == 0);
        assert(to == name.len());
        assert(name.subrange(0, name.len() as int) =~= name);
    }
}

/// A clean path below a directory with a clean path is a clean path: its
/// components are those of the directory followed by its own.
pub proof fn lemma_clean_below(dir: Seq<char>, path: Seq<char>)
    requires
        clean_path(dir),
        clean_path(path),
    ensures
        clean_path(dir + seq!['/'] + path),
        forall|from: int, to: int| #[trigger]
            is_component(dir, from, to) ==> is_component(dir + seq!['/'] + path, from, to),
{
    let whole = dir + seq!['/'] + path;
    let m = dir.len() as int;
    assert(whole[m] == '/');
    assert forall|k: int| 0 <= k < whole.len() implies path_char(#[trigger] whole[k]) by {
        if k < m {
            assert(whole[k] == dir[k]);
        } else if k > m {
            assert(whole[k] == path[k - m - 1]);
        }
    }
    assert forall|from: int, to: int| #[trigger]
        is_component(whole, from, to) implies plain_component(whole.subrange(from, to)) by {
        if to <= m {
            assert forall|k: int| from <= k < to implies dir[k] != '/' by {
                assert(whole[k] == dir[k]);
            }
            if from > 0 {
                assert(whole[from - 1] == dir[from - 1]);
            }
            if to < m {
                assert(whole[to] == dir[to]);
            }
            assert(is_component(dir, from, to));
            assert(whole.subrange(from, to) =~= dir.subrange(from, to));
        } else {
            if from <= m {
                assert(whole[m] != '/');
            }
            let a = from - m - 1;
            let b = to - m - 1;
            assert forall|k: int| a <= k < b implies path[k] != '/' by {
                assert(whole[k + m + 1] == path[k]);
            }
            if a > 0 {
                assert(whole[from - 1] == path[a - 1]);
            }
            if b < path.len() {
                assert(whole[to] == path[b]);
            }
            assert(is_component(path, a, b));
            assert(whole.subrange(from, to) =~= path.subrange(a, b));
        }
    }
    assert forall|from: int, to: int| #[trigger] is_component(dir, from, to) implies is_component(
        whole,
        from,
        to,
    ) by {
        assert forall|k: int| from <= k < to implies whole[k] != '/' by {
            assert(whole[k] == dir[k]);
        }
        if from > 0 {
            assert(whole[from - 1] == dir[from - 1]);
        }
        if to < m {
            assert(whole[to] == dir[to]);
        }
    }
}

} // verus!
