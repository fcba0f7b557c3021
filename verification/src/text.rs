//! Character-level text helpers shared across the library: decimal
//! rendering, char/string conversion, and character classes.

use vstd::prelude::*;
use vstd::string::*;

verus! {

/// The decimal digit character for a value below ten.
pub open spec fn digit_char(d: int) -> char {
    if d == 0 {
        '0'
    } else if d == 1 {
        '1'
    } else if d == 2 {
        '2'
    } else if d == 3 {
        '3'
    } else if d == 4 {
        '4'
    } else if d == 5 {
        '5'
    } else if d == 6 {
        '6'
    } else if d == 7 {
        '7'
    } else if d == 8 {
        '8'
    } else {
        '9'
    }
}

/// The usual decimal rendering of a natural number, without leading zeros.
pub open spec fn spec_dec(n: nat) -> Seq<char>
    decreases n,
{
    if n < 10 {
        seq![digit_char(n as int)]
    } else {
        spec_dec(n / 10) + seq![digit_char((n % 10) as int)]
    }
}

/// A character drawn from `A`-`Z`, `a`-`z` or `0`-`9`.
pub open spec fn is_alnum_char(c: char) -> bool {
    (65 <= c as u32 && c as u32 <= 90) || (97 <= c as u32 && c as u32 <= 122) || (48 <= c as u32
        && c as u32 <= 57)
}

/// A character of the URL-safe base64 alphabet: alphanumeric, `-` or `_`.
pub open spec fn is_b64url_char(c: char) -> bool {
    is_alnum_char(c) || c == '-' || c == '_'
}

fn digit_str(d: u64) -> (r: &'static str)
    requires
        d < 10,
    ensures
        r@ == seq![digit_char(d as int)],
{
    let s: &'static str = if d == 0 {
        "0"
    } else if d == 1 {
        "1"
    } else if d == 2 {
        "2"
    } else if d == 3 {
        "3"
    } else if d == 4 {
        "4"
    } else if d == 5 {
        "5"
    } else if d == 6 {
        "6"
    } else if d == 7 {
        "7"
    } else if d == 8 {
        "8"
    } else {
        "9"
    };
    proof {
        reveal_strlit("0");
        reveal_strlit("1");
        reveal_strlit("2");
        reveal_strlit("3");
        reveal_strlit("4");
        reveal_strlit("5");
        reveal_strlit("6");
        reveal_strlit("7");
        reveal_strlit("8");
        reveal_strlit("9");
        assert(s@ =~= seq![digit_char(d as int)]);
    }
    s
}

/// Render a number in decimal, exactly as `spec_dec` describes.
pub fn u64_to_string(n: u64) -> (r: String)
    ensures
        r@ == spec_dec(n as nat),
    decreases n,
{
    if n < 10 {
        digit_str(n).to_owned()
    } else {
        let mut s = u64_to_string(n / 10);
        s.append(digit_str(n % 10));
        s
    }
}

/// Collect the characters of a string slice into a vector.
pub fn str_to_chars(s: &str) -> (r: Vec<char>)
    ensures
        r@ == s@,
{
    let n = s.unicode_len();
    let mut v: Vec<char> = Vec::new();
    let mut i: usize = 0;
    while i < n
        invariant
            i <= n,
            n == s@.len(),
            v@ == s@.subrange(0, i as int),
        decreases n - i,
    {
        v.push(s.get_char(i));
        i += 1;
        proof {
            assert(v@ =~= s@.subrange(0, i as int));
        }
    }
    proof {
        assert(v@ =~= s@);
    }
    v
}

/// Relies on `Iterator::collect` for `String`: the collected string holds
/// exactly the iterated characters, in order.
#[verifier::external_body]
pub(crate) fn chars_to_string(v: Vec<char>) -> (r: String)
    ensures
        r@ == v@,
{
    v.into_iter().collect()
}

/// Whitespace as `str::split_whitespace` understands it: the characters
/// with the Unicode `White_Space` property.
pub open spec fn is_space(c: char) -> bool {
    c == ' ' || c == '\t' || c == '\n' || c == '\r' || c == '\u{b}' || c == '\u{c}' || c
        == '\u{85}' || c == '\u{a0}' || c == '\u{1680}' || (0x2000 <= c as u32 && c as u32
        <= 0x200a) || c == '\u{2028}' || c == '\u{2029}' || c == '\u{202f}' || c == '\u{205f}'
        || c == '\u{3000}'
}

fn is_space_c(c: char) -> (r: bool)
    ensures
        r == is_space(c),
{
    c == ' ' || c == '\t' || c == '\n' || c == '\r' || c == '\u{b}' || c == '\u{c}' || c
        == '\u{85}' || c == '\u{a0}' || c == '\u{1680}' || (0x2000 <= c as u32 && c as u32
        <= 0x200a) || c == '\u{2028}' || c == '\u{2029}' || c == '\u{202f}' || c == '\u{205f}'
        || c == '\u{3000}'
}

/// The length of the leading run of non-whitespace characters.
pub open spec fn word_len(s: Seq<char>) -> nat
    decreases s.len(),
{
    if s.len() == 0 || is_space(s[0]) {
        0
    } else {
        1 + word_len(s.skip(1))
    }
}

proof fn lemma_word_len_exact(s: Seq<char>, k: int)
    requires
        0 <= k <= s.len(),
        forall|j: int| 0 <= j < k ==> !is_space(#[trigger] s[j]),
        k == s.len() || is_space(s[k]),
    ensures
        word_len(s) == k,
    decreases k,
{
    if k == 0 {
    } else {
        assert(!is_space(s[0]));
        assert(forall|j: int| 0 <= j < k - 1 ==> !is_space(#[trigger] s.skip(1)[j]));
        if k - 1 < s.skip(1).len() {
            assert(s.skip(1)[k - 1] == s[k]);
        }
        lemma_word_len_exact(s.skip(1), k - 1);
    }
}

/// The maximal whitespace-separated words of a character sequence, in order.
pub open spec fn split_ws(s: Seq<char>) -> Seq<Seq<char>>
    decreases s.len(),
{
    if s.len() == 0 {
        Seq::empty()
    } else if is_space(s[0]) {
        split_ws(s.skip(1))
    } else {
        let n = word_len(s);
        if 1 <= n <= s.len() {
            seq![s.take(n as int)] + split_ws(s.skip(n as int))
        } else {
            Seq::empty()
        }
    }
}

/// Split a string on whitespace, exactly as `split_ws` describes.
pub fn split_whitespace(s: &str) -> (r: Vec<String>)
    ensures
        r.deep_view() == split_ws(s@),
{
    let v = str_to_chars(s);
    let n = v.len();
    let mut out: Vec<String> = Vec::new();
    proof {
        assert(v@.skip(0) =~= v@);
        assert(out.deep_view() + split_ws(v@) =~= split_ws(v@));
    }
    let mut i: usize = 0;
    while i < n
        invariant
            i <= n,
            n == v@.len(),
            v@ == s@,
            out.deep_view() + split_ws(v@.skip(i as int)) == split_ws(v@),
        decreases n - i,
    {
        if is_space_c(v[i]) {
            proof {
                assert(v@.skip(i as int).skip(1) =~= v@.skip(i as int + 1));
                assert(out.deep_view() + split_ws(v@.skip(i as int + 1)) =~= out.deep_view()
                    + split_ws(v@.skip(i as int)));
            }
            i += 1;
        } else {
            let ghost rest = v@.skip(i as int);
            let mut j: usize = i;
            let mut cur: Vec<char> = Vec::new();
            loop
                invariant
                    i <= j <= n,
                    n == v@.len(),
                    cur@ == v@.subrange(i as int, j as int),
                    forall|t: int| i <= t < j ==> !is_space(#[trigger] v@[t]),
                ensures
                    i <= j <= n,
                    cur@ == v@.subrange(i as int, j as int),
                    forall|t: int| i <= t < j ==> !is_space(#[trigger] v@[t]),
                    j == n || is_space(v@[j as int]),
                decreases n - j,
            {
                if j == n {
                    break ;
                }
                let c = v[j];
                if is_space_c(c) {
                    break ;
                }
                cur.push(c);
                j += 1;
                proof {
                    assert(cur@ =~= v@.subrange(i as int, j as int));
                }
            }
            proof {
                assert(j > i) by {
                    if j == i {
                        assert(!is_space(v@[i as int]));
                    }
                };
                assert(forall|t: int|
                    0 <= t < j - i ==> !is_space(#[trigger] rest[t]) && rest[t] == v@[i + t]);
                if (j - i) < rest.len() {
                    assert(rest[j - i] == v@[j as int]);
                }
                lemma_word_len_exact(rest, j - i);
                assert(rest.take(j - i) =~= v@.subrange(i as int, j as int));
                assert(rest.skip(j - i) =~= v@.skip(j as int));
                assert(split_ws(rest) == seq![cur@] + split_ws(v@.skip(j as int)));
            }
            let w = chars_to_string(cur);
            let ghost old_out = out.deep_view();
            out.push(w);
            proof {
                assert(out.deep_view() =~= old_out + seq![w@]);
                assert(out.deep_view() + split_ws(v@.skip(j as int)) =~= (old_out + seq![w@])
                    + split_ws(v@.skip(j as int)));
                assert((old_out + seq![w@]) + split_ws(v@.skip(j as int)) =~= old_out + (seq![w@]
                    + split_ws(v@.skip(j as int))));
                assert(seq![w@] + split_ws(v@.skip(j as int)) =~= split_ws(rest));
            }
            i = j;
        }
    }
    proof {
        assert(v@.skip(n as int) =~= Seq::<char>::empty());
        assert(out.deep_view() + split_ws(v@.skip(n as int)) =~= out.deep_view());
    }
    out
}

/// The words joined with single spaces.
pub open spec fn join_spaces(xs: Seq<Seq<char>>) -> Seq<char>
    decreases xs.len(),
{
    if xs.len() == 0 {
        Seq::empty()
    } else if xs.len() == 1 {
        xs[0]
    } else {
        xs[0] + seq![' '] + join_spaces(xs.skip(1))
    }
}

proof fn lemma_join_push(xs: Seq<Seq<char>>, x: Seq<char>)
    ensures
        join_spaces(xs.push(x)) == if xs.len() == 0 {
            x
        } else {
            join_spaces(xs) + seq![' '] + x
        },
    decreases xs.len(),
{
    if xs.len() == 0 {
        assert(xs.push(x)[0] =~= x);
    } else if xs.len() == 1 {
        assert(xs.push(x).skip(1) =~= seq![x]);
        assert(xs.push(x)[0] == xs[0]);
        assert(join_spaces(seq![x]) == x);
        assert(join_spaces(xs.push(x)) =~= xs[0] + seq![' '] + x);
    } else {
        assert(xs.push(x).skip(1) =~= xs.skip(1).push(x));
        lemma_join_push(xs.skip(1), x);
        assert(join_spaces(xs.push(x)) =~= xs[0] + seq![' '] + (join_spaces(xs.skip(1)) + seq![' ']
            + x));
        assert(xs[0] + seq![' '] + (join_spaces(xs.skip(1)) + seq![' '] + x) =~= (xs[0] + seq![' ']
            + join_spaces(xs.skip(1))) + seq![' '] + x);
    }
}

/// Join strings with single spaces, exactly as `join_spaces` describes.
pub fn join_with_spaces(v: &Vec<String>) -> (r: String)
    ensures
        r@ == join_spaces(v.deep_view()),
{
    let mut s = String::new();
    let mut i: usize = 0;
    while i < v.len()
        invariant
            i <= v@.len(),
            s@ == join_spaces(v.deep_view().take(i as int)),
        decreases v@.len() - i,
    {
        if i > 0 {
            s.append(" ");
            proof {
                reveal_strlit(" ");
                assert(" "@ =~= seq![' ']);
            }
        }
        s.append(v[i].as_str());
        proof {
            lemma_join_push(v.deep_view().take(i as int), v.deep_view()[i as int]);
            assert(v.deep_view().take(i as int).push(v.deep_view()[i as int]) =~= v.deep_view().take(
                i as int + 1,
            ));
        }
        i += 1;
    }
    proof {
        assert(v.deep_view().take(v.deep_view().len() as int) =~= v.deep_view());
    }
    s
}

/// The uppercase hexadecimal digit character for a value below sixteen.
pub open spec fn hex_upper(d: int) -> char {
    if d < 10 {
        digit_char(d)
    } else if d == 10 {
        'A'
    } else if d == 11 {
        'B'
    } else if d == 12 {
        'C'
    } else if d == 13 {
        'D'
    } else if d == 14 {
        'E'
    } else {
        'F'
    }
}

pub(crate) fn hex_upper_c(d: u8) -> (r: char)
    requires
        d < 16,
    ensures
        r == hex_upper(d as int),
{
    match d {
        0 => '0',
        1 => '1',
        2 => '2',
        3 => '3',
        4 => '4',
        5 => '5',
        6 => '6',
        7 => '7',
        8 => '8',
        9 => '9',
        10 => 'A',
        11 => 'B',
        12 => 'C',
        13 => 'D',
        14 => 'E',
        _ => 'F',
    }
}

/// Append the characters of a string slice to a vector.
pub fn push_str_chars(out: &mut Vec<char>, s: &str)
    ensures
        final(out)@ == old(out)@ + s@,
{
    let n = s.unicode_len();
    let mut i: usize = 0;
    while i < n
        invariant
            i <= n,
            n == s@.len(),
            out@ == old(out)@ + s@.subrange(0, i as int),
        decreases n - i,
    {
        out.push(s.get_char(i));
        i += 1;
        proof {
            assert(old(out)@ + s@.subrange(0, i as int) =~= (old(out)@ + s@.subrange(
                0,
                i as int - 1,
            )).push(s@[i as int - 1]));
        }
    }
    proof {
        assert(s@.subrange(0, n as int) =~= s@);
    }
}

/// Whether the character occurs in the sequence.
pub open spec fn has_char(s: Seq<char>, c: char) -> bool {
    exists|i: int| 0 <= i < s.len() && s[i] == c
}

/// Whether the character occurs in the string.
pub fn contains_char(s: &str, c: char) -> (r: bool)
    ensures
        r == has_char(s@, c),
{
    let n = s.unicode_len();
    let mut i: usize = 0;
    while i < n
        invariant
            i <= n,
            n == s@.len(),
            forall|j: int| 0 <= j < i ==> s@[j] != c,
        decreases n - i,
    {
        if s.get_char(i) == c {
            return true;
        }
        i += 1;
    }
    false
}

/// Whether two string slices hold the same characters.
pub fn str_eq(a: &str, b: &str) -> (r: bool)
    ensures
        r == (a@ == b@),
{
    let n = a.unicode_len();
    let m = b.unicode_len();
    if n != m {
        return false;
    }
    let mut i: usize = 0;
    while i < n
        invariant
            i <= n,
            n == a@.len(),
            n == b@.len(),
            forall|j: int| 0 <= j < i ==> a@[j] == b@[j],
        decreases n - i,
    {
        if a.get_char(i) != b.get_char(i) {
            return false;
        }
        i += 1;
    }
    proof {
        assert(a@ =~= b@);
    }
    true
}

} // verus!
