//! The filter-string grammar: `b:<id-prefix>[,l:<id-prefix>[,c:<id-prefix>]]`.
//! Segments are positionally fixed and read left to right; a malformed
//! string silently yields no structural content, never an error.

use vstd::prelude::*;
use vstd::string::*;

use crate::strutil::index_of_char;

verus! {

/// Index of the first comma, or the length when there is none.
pub open spec fn first_comma(s: Seq<char>) -> int
    decreases s.len(),
{
    if s.len() == 0 {
        0
    } else if s[0] == ',' {
        0
    } else {
        1 + first_comma(s.drop_first())
    }
}

/// The text before the first comma.
pub open spec fn head_segment(s: Seq<char>) -> Seq<char> {
    s.subrange(0, first_comma(s))
}

/// The text after the first comma, absent when there is no comma.
pub open spec fn after_comma(s: Seq<char>) -> Option<Seq<char>> {
    if first_comma(s) == s.len() {
        None
    } else {
        Some(s.subrange(first_comma(s) + 1, s.len() as int))
    }
}

proof fn lemma_first_comma_bounds(s: Seq<char>)
    ensures
        0 <= first_comma(s) <= s.len(),
        forall|j: int| 0 <= j < first_comma(s) ==> s[j] != ',',
        first_comma(s) < s.len() ==> s[first_comma(s)] == ',',
    decreases s.len(),
{
    if s.len() == 0 {
    } else if s[0] == ',' {
    } else {
        lemma_first_comma_bounds(s.drop_first());
        assert forall|j: int| 0 <= j < first_comma(s) implies s[j] != ',' by {
            if j > 0 {
                assert(s.drop_first()[j - 1] == s[j]);
            }
        }
        if first_comma(s) < s.len() {
            assert(s.drop_first()[first_comma(s) - 1] == s[first_comma(s)]);
        }
    }
}

proof fn lemma_first_comma_at(s: Seq<char>, i: int)
    requires
        0 <= i <= s.len(),
        forall|j: int| 0 <= j < i ==> s[j] != ',',
        i == s.len() || s[i] == ',',
    ensures
        first_comma(s) == i,
    decreases i,
{
    if s.len() == 0 {
    } else if s[0] == ',' {
        assert(i == 0);
    } else {
        assert(i > 0);
        let t = s.drop_first();
        assert forall|j: int| 0 <= j < i - 1 implies t[j] != ',' by {
            assert(t[j] == s[j + 1]);
        }
        if i - 1 < t.len() {
            assert(t[i - 1] == s[i]);
        }
        lemma_first_comma_at(t, i - 1);
    }
}

/// The prefix a segment contributes: the text after `tag:`, provided the
/// segment starts with that tag and the prefix is not empty.
pub open spec fn segment_prefix(seg: Seq<char>, tag: char) -> Option<Seq<char>> {
    if seg.len() > 2 && seg[0] == tag && seg[1] == ':' {
        Some(seg.subrange(2, seg.len() as int))
    } else {
        None
    }
}

/// The board prefix of a filter string: the first segment, tagged `b`.
pub open spec fn spec_board_prefix(s: Seq<char>) -> Option<Seq<char>> {
    segment_prefix(head_segment(s), 'b')
}

/// The list prefix: the second segment, tagged `l`, present only when the
/// board segment parsed.
pub open spec fn spec_list_prefix(s: Seq<char>) -> Option<Seq<char>> {
    if spec_board_prefix(s) is None {
        None
    } else {
        match after_comma(s) {
            Some(rest) => segment_prefix(head_segment(rest), 'l'),
            None => None,
        }
    }
}

/// The card prefix: the third segment, tagged `c`, present only when the
/// board and list segments parsed.
pub open spec fn spec_card_prefix(s: Seq<char>) -> Option<Seq<char>> {
    if spec_list_prefix(s) is None {
        None
    } else {
        match after_comma(s) {
            Some(rest) => match after_comma(rest) {
                Some(rest2) => segment_prefix(head_segment(rest2), 'c'),
                None => None,
            },
            None => None,
        }
    }
}

/// A parsed filter string: at most one id prefix per artifact kind.
#[derive(Debug)]
pub struct Filter {
    pub board: Option<String>,
    pub list: Option<String>,
    pub card: Option<String>,
}

/// The view of an optional string.
pub open spec fn opt_view(o: Option<String>) -> Option<Seq<char>> {
    match o {
        Some(s) => Some(s@),
        None => None,
    }
}

/// `f` is exactly what parsing `s` yields.
pub open spec fn filter_parsed_from(f: Filter, s: Seq<char>) -> bool {
    &&& opt_view(f.board) == spec_board_prefix(s)
    &&& opt_view(f.list) == spec_list_prefix(s)
    &&& opt_view(f.card) == spec_card_prefix(s)
}

/// Splits off the text before the first comma; the rest, if any, is the
/// text after it.
fn split_head(s: &str) -> (r: (String, Option<String>))
    ensures
        r.0@ == head_segment(s@),
        opt_view(r.1) == after_comma(s@),
{
    match index_of_char(s, ',') {
        Some(i) => {
            proof {
                lemma_first_comma_at(s@, i as int);
            }
            let sl = s.unicode_len();
            (s.substring_char(0, i).to_owned(), Some(s.substring_char(i + 1, sl).to_owned()))
        },
        None => {
            proof {
                lemma_first_comma_at(s@, s@.len() as int);
                assert(s@.subrange(0, s@.len() as int) =~= s@);
            }
            (s.to_owned(), None)
        },
    }
}

/// Reads `tag:prefix` off one segment; anything else contributes nothing.
fn read_segment(seg: &str, tag: char) -> (r: Option<String>)
    ensures
        opt_view(r) == segment_prefix(seg@, tag),
{
    let l = seg.unicode_len();
    if l > 2 && seg.get_char(0) == tag && seg.get_char(1) == ':' {
        Some(seg.substring_char(2, l).to_owned())
    } else {
        None
    }
}

/// Parses a raw filter string once; matching afterwards is pure.
pub fn parse_filter(s: &str) -> (r: Filter)
    ensures
        filter_parsed_from(r, s@),
{
    let (h1, rest1) = split_head(s);
    let board = read_segment(h1.as_str(), 'b');
    if board.is_none() {
        return Filter { board: None, list: None, card: None };
    }
    match rest1 {
        None => Filter { board, list: None, card: None },
        Some(r1) => {
            let (h2, rest2) = split_head(r1.as_str());
            let list = read_segment(h2.as_str(), 'l');
            if list.is_none() {
                return Filter { board, list: None, card: None };
            }
            match rest2 {
                None => Filter { board, list, card: None },
                Some(r2) => {
                    let (h3, _rest3) = split_head(r2.as_str());
                    let card = read_segment(h3.as_str(), 'c');
                    Filter { board, list, card }
                },
            }
        },
    }
}

} // verus!
