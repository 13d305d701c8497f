//! Reading answers typed at the interactive prompts into profile values.
//! Reading the terminal is the caller's part.
use vstd::prelude::*;
use vstd::string::*;
use crate::text::{lit, views};

verus! {

/// A character with the Unicode `White_Space` property, the set that
/// `char::is_whitespace` tests.
pub open spec fn is_white_space(c: char) -> bool {
    ||| '\u{9}' <= c <= '\u{d}'
    ||| c == ' '
    ||| c == '\u{85}'
    ||| c == '\u{a0}'
    ||| c == '\u{1680}'
    ||| '\u{2000}' <= c <= '\u{200a}'
    ||| c == '\u{2028}'
    ||| c == '\u{2029}'
    ||| c == '\u{202f}'
    ||| c == '\u{205f}'
    ||| c == '\u{3000}'
}

/// `s` without its leading white space.
pub open spec fn trim_start(s: Seq<char>) -> Seq<char>
    decreases s.len(),
{
    if s.len() > 0 && is_white_space(s[0]) {
        trim_start(s.drop_first())
    } else {
        s
    }
}

/// `s` without its trailing white space.
pub open spec fn trim_end(s: Seq<char>) -> Seq<char>
    decreases s.len(),
{
    if s.len() > 0 && is_white_space(s.last()) {
        trim_end(s.drop_last())
    } else {
        s
    }
}

/// `s` without leading and trailing white space.
pub open spec fn trimmed(s: Seq<char>) -> Seq<char> {
    trim_end(trim_start(s))
}

/// What `str::to_lowercase` returns for a string.
pub uninterp spec fn lowered(s: Seq<char>) -> Seq<char>;

/// Relies on `str::trim`: it removes the leading and trailing characters
/// that have the `White_Space` property.
#[verifier::external_body]
fn trim(s: &str) -> (r: String)
    ensures
        r@ == trimmed(s@),
{
    s.trim().to_string()
}

/// Relies on `str::to_lowercase`: the result depends on the characters
/// alone.
#[verifier::external_body]
fn lowercase(s: &str) -> (r: String)
    ensures
        r@ == lowered(s@),
{
    s.to_lowercase()
}

/// The pieces of `s` between commas, in order; one piece when it has no
/// comma.
pub open spec fn split_commas(s: Seq<char>) -> Seq<Seq<char>>
    decreases s.len(),
{
    if s.len() == 0 {
        seq![Seq::empty()]
    } else {
        let t = split_commas(s.drop_last());
        if s.last() == ',' {
            t.push(Seq::empty())
        } else {
            t.update(t.len() - 1, t.last().push(s.last()))
        }
    }
}

/// The items of `xs` that are not empty, in order.
pub open spec fn non_empty(xs: Seq<Seq<char>>) -> Seq<Seq<char>>
    decreases xs.len(),
{
    if xs.len() == 0 {
        Seq::empty()
    } else if xs.last().len() == 0 {
        non_empty(xs.drop_last())
    } else {
        non_empty(xs.drop_last()).push(xs.last())
    }
}

/// The items of a comma-separated list: each piece trimmed, empty ones
/// left out.
pub open spec fn spec_list(input: Seq<char>) -> Seq<Seq<char>> {
    non_empty(split_commas(input).map_values(|p: Seq<char>| trimmed(p)))
}

/// The answer in an already trimmed line: `None` when the question has to
/// be asked again (an empty answer, or `back`).
pub open spec fn spec_answer_of_trimmed(t: Seq<char>) -> Option<Seq<char>> {
    if t.len() == 0 || t == "back"@ {
        None
    } else {
        Some(t)
    }
}

/// The answer in a line typed at a prompt.
pub open spec fn spec_answer(line: Seq<char>) -> Option<Seq<char>> {
    spec_answer_of_trimmed(trimmed(line))
}

/// A lower-case yes/no answer: `y` or `n`; anything else asks again.
pub open spec fn spec_yes_no_of_lowered(l: Seq<char>) -> Option<bool> {
    if l == "y"@ {
        Some(true)
    } else if l == "n"@ {
        Some(false)
    } else {
        None
    }
}

/// A yes/no answer, in either case.
pub open spec fn spec_yes_no(answer: Seq<char>) -> Option<bool> {
    spec_yes_no_of_lowered(lowered(answer))
}

proof fn lemma_split_len(s: Seq<char>)
    ensures
        split_commas(s).len() >= 1,
    decreases s.len(),
{
    if s.len() > 0 {
        lemma_split_len(s.drop_last());
    }
}

/// Splits `s` at each comma.
pub fn split_at_commas(s: &str) -> (r: Vec<String>)
    ensures
        views(r@) == split_commas(s@),
{
    let n = s.unicode_len();
    let mut pieces: Vec<String> = Vec::new();
    let mut start: usize = 0;
    let mut i: usize = 0;
    assert(s@.subrange(0, 0) =~= Seq::<char>::empty());
    assert(views(pieces@).push(s@.subrange(0, 0)) =~= split_commas(s@.subrange(0, 0)));
    while i < n
        invariant
            n == s@.len(),
            start <= i <= n,
            views(pieces@).push(s@.subrange(start as int, i as int)) == split_commas(s@.subrange(0, i as int)),
        decreases n - i,
    {
        let c = s.get_char(i);
        proof {
            let pre = s@.subrange(0, i as int);
            let next = s@.subrange(0, i + 1);
            assert(next.drop_last() =~= pre);
            assert(next.last() == c);
            lemma_split_len(pre);
        }
        if c == ',' {
            let piece = s.substring_char(start, i);
            pieces.push(piece.to_owned());
            start = i + 1;
            proof {
                assert(s@.subrange(start as int, i + 1) =~= Seq::<char>::empty());
                assert(views(pieces@).push(s@.subrange(start as int, i + 1)) =~= split_commas(s@.subrange(0, i + 1)));
            }
        } else {
            proof {
                let t = split_commas(s@.subrange(0, i as int));
                assert(s@.subrange(start as int, i + 1) =~= s@.subrange(start as int, i as int).push(c));
                assert(views(pieces@).push(s@.subrange(start as int, i + 1)) =~= t.update(t.len() - 1, t.last().push(c)));
            }
        }
        i = i + 1;
    }
    let last = s.substring_char(start, n);
    pieces.push(last.to_owned());
    assert(s@.subrange(0, n as int) =~= s@);
    pieces
}

/// Leaves out the empty items, keeping the order of the others.
pub fn drop_empty(items: Vec<String>) -> (r: Vec<String>)
    ensures
        views(r@) == non_empty(views(items@)),
{
    let n = items.len();
    let mut kept: Vec<String> = Vec::new();
    let mut i: usize = 0;
    while i < n
        invariant
            n == items@.len(),
            i <= n,
            views(kept@) == non_empty(views(items@.subrange(0, i as int))),
        decreases n - i,
    {
        proof {
            let next = views(items@.subrange(0, i + 1));
            assert(next.drop_last() =~= views(items@.subrange(0, i as int)));
            assert(next.last() == items@[i as int]@);
        }
        if items[i].unicode_len() > 0 {
            kept.push(items[i].clone());
            assert(views(kept@) =~= non_empty(views(items@.subrange(0, i + 1))));
        }
        i = i + 1;
    }
    assert(items@.subrange(0, n as int) =~= items@);
    kept
}

/// The items of a comma-separated list typed at a prompt: each trimmed,
/// empty ones left out.
pub fn parse_list(input: &str) -> (r: Vec<String>)
    ensures
        views(r@) == spec_list(input@),
{
    let pieces = split_at_commas(input);
    let n = pieces.len();
    let mut items: Vec<String> = Vec::new();
    let mut i: usize = 0;
    while i < n
        invariant
            n == pieces@.len(),
            i <= n,
            items@.len() == i,
            views(items@) =~= views(pieces@.subrange(0, i as int)).map_values(|p: Seq<char>| trimmed(p)),
        decreases n - i,
    {
        let ghost before = views(items@);
        let t = trim(pieces[i].as_str());
        items.push(t);
        proof {
            let want = views(pieces@.subrange(0, i + 1)).map_values(|p: Seq<char>| trimmed(p));
            assert(views(items@) =~= before.push(t@));
            assert(want.len() == i + 1);
            assert forall|k: int| 0 <= k < i + 1 implies #[trigger] want[k] == views(items@)[k] by {
                if k < i {
                    assert(views(pieces@.subrange(0, i + 1))[k] == views(pieces@.subrange(0, i as int))[k]);
                } else {
                    assert(views(pieces@.subrange(0, i + 1))[k] == pieces@[i as int]@);
                }
            }
        }
        i = i + 1;
    }
    assert(pieces@.subrange(0, n as int) =~= pieces@);
    drop_empty(items)
}

/// The answer in an already trimmed line, or `None` to ask again.
pub fn answer_of_trimmed(t: String) -> (r: Option<String>)
    ensures
        match r {
            Some(a) => spec_answer_of_trimmed(t@) == Some(a@),
            None => spec_answer_of_trimmed(t@) is None,
        },
{
    if t.unicode_len() == 0 || t == lit("back") {
        None
    } else {
        Some(t)
    }
}

/// The answer in a line typed at a prompt, or `None` to ask again.
pub fn parse_answer(line: &str) -> (r: Option<String>)
    ensures
        match r {
            Some(a) => spec_answer(line@) == Some(a@),
            None => spec_answer(line@) is None,
        },
{
    answer_of_trimmed(trim(line))
}

/// A lower-case yes/no answer, or `None` to ask again.
pub fn yes_no_of_lowered(l: &str) -> (r: Option<bool>)
    ensures
        r == spec_yes_no_of_lowered(l@),
{
    let l = lit(l);
    if l == lit("y") {
        Some(true)
    } else if l == lit("n") {
        Some(false)
    } else {
        None
    }
}

/// A yes/no answer, or `None` to ask again.
pub fn parse_yes_no(answer: &str) -> (r: Option<bool>)
    ensures
        r == spec_yes_no(answer@),
{
    let l = lowercase(answer);
    yes_no_of_lowered(l.as_str())
}

proof fn lemma_trim_start_blank(s: Seq<char>)
    requires
        forall|i: int| 0 <= i < s.len() ==> is_white_space(#[trigger] s[i]),
    ensures
        trim_start(s).len() == 0,
    decreases s.len(),
{
    if s.len() > 0 {
        assert(is_white_space(s[0]));
        assert forall|i: int| 0 <= i < s.drop_first().len() implies is_white_space(#[trigger] s.drop_first()[i]) by {
            assert(s.drop_first()[i] == s[i + 1]);
        }
        lemma_trim_start_blank(s.drop_first());
    }
}

/// A line of nothing but white space is no answer: the question is asked
/// again.
pub proof fn blank_line_asks_again(line: Seq<char>)
    requires
        forall|i: int| 0 <= i < line.len() ==> is_white_space(#[trigger] line[i]),
    ensures
        spec_answer(line) is None,
{
    lemma_trim_start_blank(line);
}

} // verus!
