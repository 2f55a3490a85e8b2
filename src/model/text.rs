//! Character-level helpers for reading chat commands.
use vstd::prelude::*;

verus! {

/// Characters that separate a command from its argument.
pub open spec fn is_space(c: char) -> bool {
    c == ' ' || c == '\t' || c == '\n' || c == '\r'
}

/// Index of the first separator at or after `i`, or the length when none follows.
pub open spec fn token_end(s: Seq<char>, i: int) -> int
    decreases s.len() - i,
{
    if i >= s.len() {
        s.len() as int
    } else if is_space(s[i]) {
        i
    } else {
        token_end(s, i + 1)
    }
}

/// Index of the first non-separator at or after `i`, or the length when none follows.
pub open spec fn run_end(s: Seq<char>, i: int) -> int
    decreases s.len() - i,
{
    if i >= s.len() {
        s.len() as int
    } else if !is_space(s[i]) {
        i
    } else {
        run_end(s, i + 1)
    }
}

/// The command token of a message: everything before its first separator.
pub open spec fn command_of(s: Seq<char>) -> Seq<char> {
    s.subrange(0, token_end(s, 0))
}

/// The argument of a message: what follows the first run of separators, if anything does.
pub open spec fn argument_of(s: Seq<char>) -> Option<Seq<char>> {
    let start = run_end(s, token_end(s, 0));
    if start >= s.len() {
        None
    } else {
        Some(s.subrange(start, s.len() as int))
    }
}

/// The characters of an optional argument.
pub open spec fn arg_view(a: Option<&[char]>) -> Option<Seq<char>> {
    match a {
        Some(x) => Some(x@),
        None => None,
    }
}

pub open spec fn is_digit(c: char) -> bool {
    '0' <= c && c <= '9'
}

pub open spec fn digit_value(c: char) -> int {
    (c as u32) as int - ('0' as u32) as int
}

pub open spec fn all_digits(s: Seq<char>) -> bool {
    forall|i: int| 0 <= i < s.len() ==> is_digit(#[trigger] s[i])
}

/// The value of a string of decimal digits, most significant first.
pub open spec fn digits_value(s: Seq<char>) -> int
    decreases s.len(),
{
    if s.len() == 0 {
        0
    } else {
        10 * digits_value(s.drop_last()) + digit_value(s.last())
    }
}

/// The integer that a decimal numeral denotes: an optional `+` or `-`, then one
/// or more digits, and nothing else.
pub open spec fn numeral_value(s: Seq<char>) -> Option<int> {
    if s.len() > 1 && (s[0] == '-' || s[0] == '+') && all_digits(s.drop_first()) {
        if s[0] == '-' {
            Some(-digits_value(s.drop_first()))
        } else {
            Some(digits_value(s.drop_first()))
        }
    } else if s.len() > 0 && all_digits(s) {
        Some(digits_value(s))
    } else {
        None
    }
}

/// The `i8` that a numeral denotes; none where it is malformed or out of range.
pub open spec fn i8_of(s: Seq<char>) -> Option<i8> {
    match numeral_value(s) {
        Some(v) => if i8::MIN <= v <= i8::MAX {
            Some(v as i8)
        } else {
            None
        },
        None => None,
    }
}

/// The integer an argument holds, where there is one and it is an `i8` numeral.
pub open spec fn arg_i8(arg: Option<Seq<char>>) -> Option<i8> {
    match arg {
        Some(a) => i8_of(a),
        None => None,
    }
}

/// Whether `p` occurs in `t` as a contiguous run of characters.
pub open spec fn occurs_in(p: Seq<char>, t: Seq<char>) -> bool {
    exists|i: int| 0 <= i && i + p.len() <= t.len() && #[trigger] t.subrange(i, i + p.len()) == p
}

pub fn is_space_char(c: char) -> (r: bool)
    ensures
        r == is_space(c),
{
    c == ' ' || c == '\t' || c == '\n' || c == '\r'
}

/// The characters of a string, in order.
pub fn to_chars(s: &str) -> (r: Vec<char>)
    ensures
        r@ == s@,
{
    let n = s.unicode_len();
    let mut v: Vec<char> = Vec::new();
    let mut i: usize = 0;
    while i < n
        invariant
            n == s@.len(),
            i <= n,
            v@ == s@.subrange(0, i as int),
        decreases n - i,
    {
        v.push(s.get_char(i));
        i += 1;
        assert(v@ =~= s@.subrange(0, i as int));
    }
    assert(v@ =~= s@);
    v
}

/// Whether the characters `a` spell the string `b`.
pub fn chars_eq(a: &[char], b: &str) -> (r: bool)
    ensures
        r == (a@ == b@),
{
    let n = b.unicode_len();
    if a.len() != n {
        return false;
    }
    let mut i: usize = 0;
    while i < n
        invariant
            n == b@.len(),
            n == a@.len(),
            i <= n,
            forall|j: int| 0 <= j < i ==> a@[j] == b@[j],
        decreases n - i,
    {
        if a[i] != b.get_char(i) {
            return false;
        }
        i += 1;
    }
    assert(a@ =~= b@);
    true
}

/// Splits a message into its command token and, where one follows the first
/// run of separators, its argument.
pub fn split_command(s: &[char]) -> (r: (Vec<char>, Option<Vec<char>>))
    ensures
        r.0@ == command_of(s@),
        match r.1 {
            Some(a) => argument_of(s@) == Some(a@),
            None => argument_of(s@) is None,
        },
{
    let n = s.len();
    let mut cmd: Vec<char> = Vec::new();
    let mut e: usize = 0;
    while e < n && !is_space_char(s[e])
        invariant
            n == s@.len(),
            e <= n,
            token_end(s@, 0) == token_end(s@, e as int),
            cmd@ == s@.subrange(0, e as int),
        decreases n - e,
    {
        cmd.push(s[e]);
        e += 1;
        assert(cmd@ =~= s@.subrange(0, e as int));
    }
    let mut start: usize = e;
    while start < n && is_space_char(s[start])
        invariant
            n == s@.len(),
            e <= start <= n,
            token_end(s@, 0) == e,
            run_end(s@, e as int) == run_end(s@, start as int),
        decreases n - start,
    {
        start += 1;
    }
    if start >= n {
        return (cmd, None);
    }
    let mut arg: Vec<char> = Vec::new();
    let mut i: usize = start;
    while i < n
        invariant
            n == s@.len(),
            start <= i <= n,
            arg@ == s@.subrange(start as int, i as int),
        decreases n - i,
    {
        arg.push(s[i]);
        i += 1;
        assert(arg@ =~= s@.subrange(start as int, i as int));
    }
    (cmd, Some(arg))
}

/// Reads a decimal numeral as an `i8`, as `str::parse::<i8>` does.
pub fn parse_i8(s: &[char]) -> (r: Option<i8>)
    ensures
        r == i8_of(s@),
{
    let n = s.len();
    if n == 0 {
        return None;
    }
    let neg = s[0] == '-';
    let start: usize = if s[0] == '-' || s[0] == '+' { 1 } else { 0 };
    if start == n {
        return None;
    }
    let ghost body = s@.subrange(start as int, n as int);
    let mut acc: u32 = 0;
    let mut i: usize = start;
    while i < n
        invariant
            n == s@.len(),
            start <= i <= n,
            body == s@.subrange(start as int, n as int),
            n > 0,
            start == 1 <==> (s@[0] == '-' || s@[0] == '+'),
            start <= 1,
            neg == (s@[0] == '-'),
            all_digits(s@.subrange(start as int, i as int)),
            acc <= 2009,
            if digits_value(s@.subrange(start as int, i as int)) <= 200 {
                acc as int == digits_value(s@.subrange(start as int, i as int))
            } else {
                acc > 200
            },
        decreases n - i,
    {
        let c = s[i];
        if !(c >= '0' && c <= '9') {
            assert(!all_digits(body)) by {
                assert(body[i - start] == c);
            }
            if start == 1 {
                assert(s@.drop_first() =~= body);
                assert(!is_digit(s@[0]));
            } else {
                assert(s@ =~= body);
            }
            return None;
        }
        let ghost pre = s@.subrange(start as int, i as int);
        let ghost next = s@.subrange(start as int, i + 1);
        assert(next.drop_last() =~= pre);
        assert(digits_value(pre) >= 0) by {
            lemma_digits_value_nonneg(pre);
        }
        let d: u32 = (c as u32) - ('0' as u32);
        if acc <= 200 {
            acc = acc * 10 + d;
        }
        i += 1;
    }
    assert(body =~= s@.subrange(start as int, i as int));
    if start == 1 {
        assert(s@.drop_first() =~= body);
    } else {
        assert(s@ =~= body);
    }
    if acc > 200 {
        return None;
    }
    if neg {
        if acc <= 128 {
            Some((0i16 - acc as i16) as i8)
        } else {
            None
        }
    } else {
        if acc <= 127 {
            Some(acc as i8)
        } else {
            None
        }
    }
}

proof fn lemma_digits_value_nonneg(s: Seq<char>)
    requires
        all_digits(s),
    ensures
        digits_value(s) >= 0,
    decreases s.len(),
{
    if s.len() > 0 {
        assert(all_digits(s.drop_last())) by {
            assert forall|i: int| 0 <= i < s.drop_last().len() implies is_digit(
                #[trigger] s.drop_last()[i],
            ) by {
                assert(s.drop_last()[i] == s[i]);
            }
        }
        lemma_digits_value_nonneg(s.drop_last());
        assert(is_digit(s[s.len() - 1]));
    }
}

/// Whether the characters of `t` starting at `i` begin with `p`.
fn occurs_at(p: &[char], t: &[char], i: usize) -> (r: bool)
    requires
        i + p@.len() <= t@.len(),
    ensures
        r == (t@.subrange(i as int, i + p@.len()) == p@),
{
    let n = t.len();
    let mut j: usize = 0;
    while j < p.len()
        invariant
            n == t@.len(),
            i + p@.len() <= t@.len(),
            j <= p@.len(),
            forall|k: int| 0 <= k < j ==> t@[i + k] == p@[k],
        decreases p@.len() - j,
    {
        if t[i + j] != p[j] {
            assert(t@.subrange(i as int, i + p@.len())[j as int] != p@[j as int]);
            return false;
        }
        j += 1;
    }
    assert(t@.subrange(i as int, i + p@.len()) =~= p@);
    true
}

/// Whether `p` occurs in `t` as a contiguous run of characters.
pub fn contains_chars(t: &[char], p: &[char]) -> (r: bool)
    ensures
        r == occurs_in(p@, t@),
{
    if p.len() == 0 {
        assert(t@.subrange(0int, 0int + p@.len()) =~= p@);
        return true;
    }
    if p.len() > t.len() {
        return false;
    }
    let n = t.len();
    let last = n - p.len();
    let mut i: usize = 0;
    while i <= last
        invariant
            n == t@.len(),
            p@.len() >= 1,
            last + p@.len() == t@.len(),
            i <= last + 1,
            forall|k: int| 0 <= k < i ==> #[trigger] t@.subrange(k, k + p@.len()) != p@,
        decreases last + 1 - i,
    {
        if occurs_at(p, t, i) {
            return true;
        }
        i += 1;
    }
    false
}

/// Whether a string holds no separator.
pub open spec fn no_space(s: Seq<char>) -> bool {
    forall|i: int| 0 <= i < s.len() ==> !is_space(#[trigger] s[i])
}

proof fn lemma_token_end_at_separator(s: Seq<char>, e: int, i: int)
    requires
        0 <= i <= e < s.len(),
        is_space(s[e]),
        forall|j: int| 0 <= j < e ==> !is_space(#[trigger] s[j]),
    ensures
        token_end(s, i) == e,
    decreases e - i,
{
    if i < e {
        lemma_token_end_at_separator(s, e, i + 1);
    }
}

proof fn lemma_token_end_no_space(s: Seq<char>, i: int)
    requires
        0 <= i <= s.len(),
        no_space(s),
    ensures
        token_end(s, i) == s.len(),
    decreases s.len() - i,
{
    if i < s.len() {
        lemma_token_end_no_space(s, i + 1);
    }
}

/// A word without separators is a command with no argument.
pub proof fn lemma_split_word(cmd: Seq<char>)
    requires
        no_space(cmd),
    ensures
        command_of(cmd) == cmd,
        argument_of(cmd) is None,
{
    lemma_token_end_no_space(cmd, 0);
    assert(cmd.subrange(0, cmd.len() as int) =~= cmd);
}

/// A word, one space and an argument that starts with no separator split
/// back into that word and that argument.
pub proof fn lemma_split_joined(cmd: Seq<char>, arg: Seq<char>)
    requires
        no_space(cmd),
        arg.len() > 0,
        !is_space(arg[0]),
    ensures
        command_of(cmd + seq![' '] + arg) == cmd,
        argument_of(cmd + seq![' '] + arg) == Some(arg),
{
    let s = cmd + seq![' '] + arg;
    let e = cmd.len() as int;
    assert(s[e] == ' ');
    assert forall|j: int| 0 <= j < e implies !is_space(#[trigger] s[j]) by {
        assert(s[j] == cmd[j]);
    }
    lemma_token_end_at_separator(s, e, 0);
    assert(s.subrange(0, e) =~= cmd);
    assert(s[e + 1] == arg[0]);
    assert(run_end(s, e + 1) == e + 1);
    assert(run_end(s, e) == e + 1);
    assert(s.subrange(e + 1, s.len() as int) =~= arg);
}

/// An `i8` numeral is not empty and starts with no separator.
pub proof fn lemma_numeral_starts_word(s: Seq<char>)
    requires
        i8_of(s) is Some,
    ensures
        s.len() > 0,
        !is_space(s[0]),
{
    if !(s.len() > 1 && (s[0] == '-' || s[0] == '+') && all_digits(s.drop_first())) {
        assert(is_digit(s[0]));
    }
}

} // verus!
