//! Verified helpers on strings and character sequences: prefix and substring
//! tests, searching, padding, trimming and decimal rendering.

use vstd::prelude::*;
use vstd::string::*;

verus! {

/// `n` occurs in `h` as a contiguous run of characters.
pub open spec fn contains_seq(h: Seq<char>, n: Seq<char>) -> bool {
    exists|i: int|
        0 <= i && i + n.len() <= h.len() && #[trigger] h.subrange(i, i + n.len() as int) == n
}

/// Compares the character at one position of each string.
fn chars_differ_at(a: &str, b: &str, i: usize, j: usize) -> (r: bool)
    requires
        i < a@.len(),
        j < b@.len(),
    ensures
        r == (a@[i as int] != b@[j as int]),
{
    a.get_char(i) != b.get_char(j)
}

/// Whether `p` is a prefix of `s`, character for character.
pub fn starts_with(s: &str, p: &str) -> (r: bool)
    ensures
        r == p@.is_prefix_of(s@),
{
    let sl = s.unicode_len();
    let pl = p.unicode_len();
    if pl > sl {
        return false;
    }
    let mut i: usize = 0;
    while i < pl
        invariant
            i <= pl,
            pl == p@.len(),
            sl == s@.len(),
            pl <= sl,
            forall|j: int| 0 <= j < i ==> s@[j] == p@[j],
        decreases pl - i,
    {
        if chars_differ_at(s, p, i, i) {
            assert(s@.subrange(0, pl as int)[i as int] == s@[i as int]);
            return false;
        }
        i = i + 1;
    }
    assert(p@ =~= s@.subrange(0, pl as int));
    true
}

/// Whether the characters of `n` stand in `h` starting at position `at`.
fn matches_at(h: &str, n: &str, at: usize) -> (r: bool)
    requires
        at + n@.len() <= h@.len(),
    ensures
        r == (h@.subrange(at as int, at + n@.len() as int) == n@),
{
    let hl = h.unicode_len();
    let nl = n.unicode_len();
    let mut j: usize = 0;
    while j < nl
        invariant
            j <= nl,
            nl == n@.len(),
            hl == h@.len(),
            at + nl <= hl,
            forall|t: int| 0 <= t < j ==> h@[at + t] == n@[t],
        decreases nl - j,
    {
        if chars_differ_at(h, n, at + j, j) {
            assert(h@.subrange(at as int, at + nl as int)[j as int] == h@[at + j]);
            return false;
        }
        j = j + 1;
    }
    assert(h@.subrange(at as int, at + nl as int) =~= n@);
    true
}

/// Whether `n` occurs anywhere in `h`, the check behind title matching.
pub fn contains_str(h: &str, n: &str) -> (r: bool)
    ensures
        r == contains_seq(h@, n@),
{
    let hl = h.unicode_len();
    let nl = n.unicode_len();
    if nl > hl {
        return false;
    }
    if nl == 0 {
        proof {
            assert(contains_seq(h@, n@)) by {
                assert(h@.subrange(0, 0 + n@.len() as int) =~= n@);
            }
        }
        return true;
    }
    let mut i: usize = 0;
    while i <= hl - nl
        invariant
            hl == h@.len(),
            nl == n@.len(),
            0 < nl <= hl,
            i <= hl - nl + 1,
            forall|k: int|
                0 <= k < i ==> #[trigger] h@.subrange(k, k + n@.len() as int) != n@,
        decreases hl - i,
    {
        if matches_at(h, n, i) {
            return true;
        }
        i = i + 1;
    }
    false
}

/// Whether two strings hold the same characters.
pub fn eq_str(a: &str, b: &str) -> (r: bool)
    ensures
        r == (a@ == b@),
{
    let al = a.unicode_len();
    let bl = b.unicode_len();
    if al != bl {
        return false;
    }
    let mut i: usize = 0;
    while i < al
        invariant
            i <= al,
            al == a@.len(),
            al == b@.len(),
            forall|j: int| 0 <= j < i ==> a@[j] == b@[j],
        decreases al - i,
    {
        if chars_differ_at(a, b, i, i) {
            return false;
        }
        i = i + 1;
    }
    assert(a@ =~= b@);
    true
}

/// Position of the first occurrence of `c` in `s`, if any.
pub fn index_of_char(s: &str, c: char) -> (r: Option<usize>)
    ensures
        match r {
            Some(i) => i < s@.len() && s@[i as int] == c && forall|j: int|
                0 <= j < i ==> s@[j] != c,
            None => forall|j: int| 0 <= j < s@.len() ==> s@[j] != c,
        },
{
    let sl = s.unicode_len();
    let mut i: usize = 0;
    while i < sl
        invariant
            i <= sl,
            sl == s@.len(),
            forall|j: int| 0 <= j < i ==> s@[j] != c,
        decreases sl - i,
    {
        if s.get_char(i) == c {
            return Some(i);
        }
        i = i + 1;
    }
    None
}

/// The part of `s` before the first occurrence of `c`, if `c` occurs at all.
pub fn prefix_before(s: &str, c: char) -> (r: Option<String>)
    ensures
        match r {
            Some(p) => exists|i: int|
                {
                    &&& 0 <= i < s@.len()
                    &&& s@[i] == c
                    &&& (forall|j: int| 0 <= j < i ==> s@[j] != c)
                    &&& p@ == s@.subrange(0, i)
                },
            None => forall|j: int| 0 <= j < s@.len() ==> s@[j] != c,
        },
{
    match index_of_char(s, c) {
        Some(i) => Some(s.substring_char(0, i).to_owned()),
        None => None,
    }
}

/// `c` occurs somewhere in `s`.
pub open spec fn has_char(s: Seq<char>, c: char) -> bool {
    exists|i: int| 0 <= i < s.len() && s[i] == c
}

/// Index of the first occurrence of `c`, or the length when `c` is absent.
pub open spec fn char_index(s: Seq<char>, c: char) -> int
    decreases s.len(),
{
    if s.len() == 0 {
        0
    } else if s[0] == c {
        0
    } else {
        1 + char_index(s.drop_first(), c)
    }
}

pub proof fn lemma_char_index_at(s: Seq<char>, c: char, i: int)
    requires
        0 <= i <= s.len(),
        forall|j: int| 0 <= j < i ==> s[j] != c,
        i == s.len() || s[i] == c,
    ensures
        char_index(s, c) == i,
    decreases i,
{
    if s.len() == 0 {
    } else if s[0] == c {
        assert(i == 0);
    } else {
        assert(i > 0);
        let t = s.drop_first();
        assert forall|j: int| 0 <= j < i - 1 implies t[j] != c by {
            assert(t[j] == s[j + 1]);
        }
        if i - 1 < t.len() {
            assert(t[i - 1] == s[i]);
        }
        lemma_char_index_at(t, c, i - 1);
    }
}

/// `s` split at every occurrence of `sep`; the separators themselves are
/// dropped, and `n` separators yield `n + 1` parts.
pub open spec fn split_parts(s: Seq<char>, sep: char) -> Seq<Seq<char>>
    decreases s.len(),
{
    let ci = char_index(s, sep);
    if 0 <= ci < s.len() {
        seq![s.subrange(0, ci)] + split_parts(s.subrange(ci + 1, s.len() as int), sep)
    } else {
        seq![s]
    }
}

/// `s` split at `sep` the way a terminator split reads it: a trailing
/// separator closes the last part instead of opening an empty one, and the
/// empty string has no parts at all.
pub open spec fn split_terminated(s: Seq<char>, sep: char) -> Seq<Seq<char>> {
    if s.len() == 0 {
        Seq::<Seq<char>>::empty()
    } else if s.last() == sep {
        split_parts(s.drop_last(), sep)
    } else {
        split_parts(s, sep)
    }
}

/// Splits `s` at every occurrence of `sep`.
pub fn split_on(s: &str, sep: char) -> (r: Vec<String>)
    ensures
        r.deep_view() == split_parts(s@, sep),
    decreases s@.len(),
{
    match index_of_char(s, sep) {
        Some(i) => {
            proof {
                lemma_char_index_at(s@, sep, i as int);
            }
            let sl = s.unicode_len();
            let head = s.substring_char(0, i).to_owned();
            let rest = s.substring_char(i + 1, sl);
            let tail_parts = split_on(rest, sep);
            let mut out: Vec<String> = Vec::new();
            out.push(head);
            proof {
                assert(out.deep_view() =~= seq![s@.subrange(0, char_index(s@, sep))]
                    + tail_parts.deep_view().subrange(0, 0));
            }
            let mut k: usize = 0;
            while k < tail_parts.len()
                invariant
                    k <= tail_parts@.len(),
                    out@.len() == 1 + k,
                    out.deep_view() == seq![s@.subrange(0, char_index(s@, sep))]
                        + tail_parts.deep_view().subrange(0, k as int),
                decreases tail_parts@.len() - k,
            {
                let ghost prev = out.deep_view();
                out.push(tail_parts[k].clone());
                proof {
                    assert(out.deep_view() =~= prev.push(tail_parts@[k as int]@));
                    assert(tail_parts.deep_view().subrange(0, k + 1) =~= tail_parts.deep_view()
                        .subrange(0, k as int).push(tail_parts@[k as int]@));
                    assert(prev.push(tail_parts@[k as int]@) =~= seq![
                        s@.subrange(0, char_index(s@, sep)),
                    ] + tail_parts.deep_view().subrange(0, k + 1));
                }
                k = k + 1;
            }
            proof {
                assert(tail_parts.deep_view().subrange(0, tail_parts@.len() as int)
                    =~= tail_parts.deep_view());
                assert(out.deep_view() =~= split_parts(s@, sep));
            }
            out
        },
        None => {
            proof {
                lemma_char_index_at(s@, sep, s@.len() as int);
            }
            let mut out: Vec<String> = Vec::new();
            out.push(s.to_owned());
            proof {
                assert(out.deep_view() =~= seq![s@]);
            }
            out
        },
    }
}

/// Splits `s` at `sep`, reading a trailing separator as closing the last
/// part rather than opening an empty one.
pub fn split_terminator_on(s: &str, sep: char) -> (r: Vec<String>)
    ensures
        r.deep_view() == split_terminated(s@, sep),
{
    let sl = s.unicode_len();
    if sl == 0 {
        Vec::new()
    } else if s.get_char(sl - 1) == sep {
        let trimmed_tail = s.substring_char(0, sl - 1);
        proof {
            assert(trimmed_tail@ =~= s@.drop_last());
        }
        split_on(trimmed_tail, sep)
    } else {
        split_on(s, sep)
    }
}

/// A run of `n` spaces.
#[verifier::opaque]
pub open spec fn spaces(n: nat) -> Seq<char> {
    Seq::new(n, |i: int| ' ')
}

/// `s` padded on the right with spaces to `w` characters; longer strings stay
/// as they are.
#[verifier::opaque]
pub open spec fn padded(s: Seq<char>, w: nat) -> Seq<char> {
    if s.len() >= w {
        s
    } else {
        s + spaces((w - s.len()) as nat)
    }
}

/// Pads `s` with trailing spaces to `width` characters.
pub fn pad_to(s: &str, width: usize) -> (r: String)
    ensures
        r@ == padded(s@, width as nat),
{
    let mut out = s.to_owned();
    let mut i = s.unicode_len();
    proof {
        reveal_strlit(" ");
        reveal(spaces);
        assert(" "@ =~= seq![' ']);
        assert(out@ =~= s@ + spaces((i - s@.len()) as nat));
    }
    while i < width
        invariant
            s@.len() <= i,
            i <= width || i == s@.len(),
            out@ == s@ + spaces((i - s@.len()) as nat),
            " "@ == seq![' '],
        decreases width - i,
    {
        out.append(" ");
        i = i + 1;
        proof {
            reveal(spaces);
            assert(out@ =~= s@ + spaces((i - s@.len()) as nat));
        }
    }
    proof {
        reveal(spaces);
        reveal(padded);
        assert(out@ =~= padded(s@, width as nat));
    }
    out
}

/// The whitespace characters that trimming removes.
pub open spec fn is_blank(c: char) -> bool {
    c == ' ' || c == '\n' || c == '\t' || c == '\r'
}

/// `s` without its leading whitespace.
#[verifier::opaque]
pub open spec fn trim_front(s: Seq<char>) -> Seq<char>
    decreases s.len(),
{
    if s.len() > 0 && is_blank(s[0]) {
        trim_front(s.drop_first())
    } else {
        s
    }
}

/// `s` without its trailing whitespace.
#[verifier::opaque]
pub open spec fn trim_back(s: Seq<char>) -> Seq<char>
    decreases s.len(),
{
    if s.len() > 0 && is_blank(s.last()) {
        trim_back(s.drop_last())
    } else {
        s
    }
}

/// `s` without leading and trailing whitespace.
pub open spec fn trimmed(s: Seq<char>) -> Seq<char> {
    trim_back(trim_front(s))
}

proof fn lemma_trim_front_range(s: Seq<char>, i: int)
    requires
        0 <= i <= s.len(),
        forall|j: int| 0 <= j < i ==> is_blank(s[j]),
        i == s.len() || !is_blank(s[i]),
    ensures
        trim_front(s) == s.subrange(i, s.len() as int),
    decreases i,
{
    reveal(trim_front);
    if i == 0 {
        assert(s.subrange(0, s.len() as int) =~= s);
    } else {
        assert(is_blank(s[0]));
        let t = s.drop_first();
        assert(t =~= s.subrange(1, s.len() as int));
        lemma_trim_front_range(t, i - 1);
        assert(t.subrange(i - 1, t.len() as int) =~= s.subrange(i, s.len() as int));
    }
}

proof fn lemma_trim_back_range(s: Seq<char>, j: int)
    requires
        0 <= j <= s.len(),
        forall|k: int| j <= k < s.len() ==> is_blank(s[k]),
        j == 0 || !is_blank(s[j - 1]),
    ensures
        trim_back(s) == s.subrange(0, j),
    decreases s.len() - j,
{
    reveal(trim_back);
    if j == s.len() {
        assert(s.subrange(0, j) =~= s);
    } else {
        assert(is_blank(s.last()));
        let t = s.drop_last();
        assert(t =~= s.subrange(0, s.len() - 1));
        lemma_trim_back_range(t, j);
        assert(t.subrange(0, j) =~= s.subrange(0, j));
    }
}

/// Whether `c` counts as whitespace for trimming.
fn is_blank_char(c: char) -> (r: bool)
    ensures
        r == is_blank(c),
{
    c == ' ' || c == '\n' || c == '\t' || c == '\r'
}

/// Index of the first character that is not whitespace.
fn first_non_blank(s: &str) -> (a: usize)
    ensures
        a <= s@.len(),
        forall|j: int| 0 <= j < a ==> is_blank(s@[j]),
        a == s@.len() || !is_blank(s@[a as int]),
{
    let sl = s.unicode_len();
    let mut i: usize = 0;
    while i < sl
        invariant
            i <= sl,
            sl == s@.len(),
            forall|j: int| 0 <= j < i ==> is_blank(s@[j]),
        decreases sl - i,
    {
        if !is_blank_char(s.get_char(i)) {
            return i;
        }
        i = i + 1;
    }
    i
}

/// End of the last non-whitespace character at or after `from`.
fn last_non_blank_end(s: &str, from: usize) -> (b: usize)
    requires
        from <= s@.len(),
    ensures
        from <= b <= s@.len(),
        forall|k: int| b <= k < s@.len() ==> is_blank(s@[k]),
        b == from || !is_blank(s@[b - 1]),
{
    let sl = s.unicode_len();
    let mut b = sl;
    while b > from
        invariant
            from <= b <= sl,
            sl == s@.len(),
            forall|k: int| b <= k < s@.len() ==> is_blank(s@[k]),
        decreases b,
    {
        if !is_blank_char(s.get_char(b - 1)) {
            return b;
        }
        b = b - 1;
    }
    b
}

/// Removes leading and trailing whitespace from `s`.
pub fn trim_str(s: &str) -> (r: String)
    ensures
        r@ == trimmed(s@),
{
    let a = first_non_blank(s);
    let b = last_non_blank_end(s, a);
    proof {
        lemma_trim_front_range(s@, a as int);
        let t = s@.subrange(a as int, s@.len() as int);
        lemma_trim_back_range(t, b - a);
        assert(t.subrange(0, b - a) =~= s@.subrange(a as int, b as int));
    }
    s.substring_char(a, b).to_owned()
}

/// The character for one decimal digit.
pub open spec fn digit_char(d: nat) -> char {
    if d == 0 {
        '0'
    } else if d == 1 {
        '1'
    } else if d == 2 {
        '2'
    } else if d == 3 {
        '3'
    } else if d == 4 {
        '4'
    } else if d == 5 {
        '5'
    } else if d == 6 {
        '6'
    } else if d == 7 {
        '7'
    } else if d == 8 {
        '8'
    } else {
        '9'
    }
}

/// The decimal rendering of `n`, without sign or leading zeros.
pub open spec fn dec_str(n: nat) -> Seq<char>
    decreases n,
{
    if n < 10 {
        seq![digit_char(n)]
    } else {
        dec_str(n / 10) + seq![digit_char(n % 10)]
    }
}

/// The decimal rendering of `i`, with a leading minus sign when negative.
pub open spec fn int_str(i: int) -> Seq<char> {
    if i < 0 {
        seq!['-'] + dec_str((-i) as nat)
    } else {
        dec_str(i as nat)
    }
}

/// One decimal digit as a string literal.
fn digit_lit(d: u8) -> (r: &'static str)
    requires
        d < 10,
    ensures
        r@ == seq![digit_char(d as nat)],
{
    proof {
        reveal_strlit("0");
        reveal_strlit("1");
        reveal_strlit("2");
        reveal_strlit("3");
        reveal_strlit("4");
        reveal_strlit("5");
        reveal_strlit("6");
        reveal_strlit("7");
        reveal_strlit("8");
        reveal_strlit("9");
    }
    if d == 0 {
        proof {
            assert("0"@ =~= seq![digit_char(0)]);
        }
        "0"
    } else if d == 1 {
        proof {
            assert("1"@ =~= seq![digit_char(1)]);
        }
        "1"
    } else if d == 2 {
        proof {
            assert("2"@ =~= seq![digit_char(2)]);
        }
        "2"
    } else if d == 3 {
        proof {
            assert("3"@ =~= seq![digit_char(3)]);
        }
        "3"
    } else if d == 4 {
        proof {
            assert("4"@ =~= seq![digit_char(4)]);
        }
        "4"
    } else if d == 5 {
        proof {
            assert("5"@ =~= seq![digit_char(5)]);
        }
        "5"
    } else if d == 6 {
        proof {
            assert("6"@ =~= seq![digit_char(6)]);
        }
        "6"
    } else if d == 7 {
        proof {
            assert("7"@ =~= seq![digit_char(7)]);
        }
        "7"
    } else if d == 8 {
        proof {
            assert("8"@ =~= seq![digit_char(8)]);
        }
        "8"
    } else {
        proof {
            assert("9"@ =~= seq![digit_char(9)]);
        }
        "9"
    }
}

/// Renders `n` in decimal.
pub fn u32_dec_string(n: u32) -> (r: String)
    ensures
        r@ == dec_str(n as nat),
    decreases n,
{
    if n < 10 {
        digit_lit(n as u8).to_owned()
    } else {
        let mut s = u32_dec_string(n / 10);
        s.append(digit_lit((n % 10) as u8));
        s
    }
}

/// Renders `n` in decimal with its sign.
pub fn i16_dec_string(n: i16) -> (r: String)
    ensures
        r@ == int_str(n as int),
{
    if n < 0 {
        let mag: u32 = (-(n as i32)) as u32;
        let mut s = String::from_str("-");
        proof {
            reveal_strlit("-");
            assert(s@ =~= seq!['-']);
        }
        s.append(u32_dec_string(mag).as_str());
        s
    } else {
        u32_dec_string(n as u32)
    }
}

/// Whether `c` is a decimal digit.
pub open spec fn is_digit(c: char) -> bool {
    48 <= c as int <= 57
}

/// The numeric value of a digit character.
pub open spec fn char_val(c: char) -> nat {
    (c as int - 48) as nat
}

/// The number that a digit string denotes.
pub open spec fn digits_val(s: Seq<char>) -> nat
    decreases s.len(),
{
    if s.len() == 0 {
        0
    } else {
        digits_val(s.drop_last()) * 10 + char_val(s.last())
    }
}

proof fn lemma_digits_val_prefix_le(s: Seq<char>, i: int)
    requires
        0 <= i <= s.len(),
    ensures
        digits_val(s.subrange(0, i)) <= digits_val(s),
    decreases s.len() - i,
{
    if i == s.len() {
        assert(s.subrange(0, i) =~= s);
    } else {
        let t = s.subrange(0, i + 1);
        assert(t.drop_last() =~= s.subrange(0, i));
        assert(digits_val(s.subrange(0, i)) <= digits_val(t));
        lemma_digits_val_prefix_le(s, i + 1);
        assert(s.subrange(0, i + 1) =~= t);
    }
}

/// Whether every character of `s` is a decimal digit.
pub fn all_digits(s: &str) -> (r: bool)
    ensures
        r == forall|j: int| 0 <= j < s@.len() ==> is_digit(s@[j]),
{
    let sl = s.unicode_len();
    let mut i: usize = 0;
    while i < sl
        invariant
            i <= sl,
            sl == s@.len(),
            forall|j: int| 0 <= j < i ==> is_digit(s@[j]),
        decreases sl - i,
    {
        let u = s.get_char(i) as u32;
        if u < 48 || u > 57 {
            return false;
        }
        i = i + 1;
    }
    true
}

/// Reads a port number from a digit string; rejects anything that is empty,
/// holds a non-digit, or does not fit a signed 16-bit value.
pub fn parse_port_digits(s: &str) -> (r: Option<i16>)
    ensures
        match r {
            Some(v) => {
                &&& s@.len() > 0
                &&& forall|j: int| 0 <= j < s@.len() ==> is_digit(s@[j])
                &&& v as int == digits_val(s@)
            },
            None => s@.len() == 0 || (exists|j: int| 0 <= j < s@.len() && !is_digit(s@[j]))
                || digits_val(s@) > 32767,
        },
{
    let sl = s.unicode_len();
    if sl == 0 {
        return None;
    }
    let mut acc: u32 = 0;
    let mut i: usize = 0;
    while i < sl
        invariant
            i <= sl,
            sl == s@.len(),
            acc as int == digits_val(s@.subrange(0, i as int)),
            acc <= 32767,
            forall|j: int| 0 <= j < i ==> is_digit(s@[j]),
        decreases sl - i,
    {
        let u = s.get_char(i) as u32;
        if u < 48 || u > 57 {
            return None;
        }
        let next: u32 = acc * 10 + (u - 48);
        proof {
            let t = s@.subrange(0, i + 1);
            assert(t.drop_last() =~= s@.subrange(0, i as int));
            assert(t.last() == s@[i as int]);
        }
        if next > 32767 {
            proof {
                lemma_digits_val_prefix_le(s@, i + 1);
            }
            return None;
        }
        acc = next;
        i = i + 1;
    }
    proof {
        assert(s@.subrange(0, sl as int) =~= s@);
    }
    Some(acc as i16)
}

} // verus!
