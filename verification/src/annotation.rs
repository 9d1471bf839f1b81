//! The identifier annotation of textual policies.
//!
//! A policy text may declare its identifier with an annotation of the form
//! `@id("name")`. White space may stand after `@id`, after the opening
//! bracket and before the closing bracket, and the name is any non-empty run
//! of characters without a double quote. As a regular expression:
//! `@id\s*\(\s*"([^"]+)"\s*\)`, where `\s` is any character with the
//! Unicode property `White_Space`. The scan is lexical: it does not know
//! comments or string literals, and the first occurrence wins.

use crate::engine::{accepted_policy_id, accepts_policy_id, option_text};
use crate::text::{
    all_spaces, chars_of, find_char, find_char_from, is_space, lemma_find_char, lemma_find_char_run,
    lemma_skip_spaces, lemma_skip_spaces_run, skip_spaces, skip_spaces_from,
};
use vstd::prelude::*;
use vstd::string::StrSliceExecFns;

verus! {

/// The three characters `@id` stand at position `i` of `s`.
pub open spec fn keyword_at(s: Seq<char>, i: int) -> bool {
    &&& 0 <= i
    &&& i + 3 <= s.len()
    &&& s[i] == '@'
    &&& s[i + 1] == 'i'
    &&& s[i + 2] == 'd'
}

/// The range of the quoted name of the annotation that begins at position
/// `i` of `s`: the position after the opening quote and the position of the
/// closing quote. `None` when no annotation begins at `i`.
pub open spec fn annotation_at(s: Seq<char>, i: int) -> Option<(int, int)> {
    let open = skip_spaces(s, i + 3);
    let quote = skip_spaces(s, open + 1);
    let end = find_char(s, '"', quote + 1);
    let close = skip_spaces(s, end + 1);
    if keyword_at(s, i) && open < s.len() && s[open] == '(' && quote < s.len() && s[quote] == '"'
        && end < s.len() && quote + 1 < end && close < s.len() && s[close] == ')' {
        Some((quote + 1, end))
    } else {
        None
    }
}

/// The range of the name of the first annotation that begins at or after
/// position `i` of `s`.
pub open spec fn first_annotation_from(s: Seq<char>, i: int) -> Option<(int, int)>
    decreases s.len() - i,
{
    if i < 0 || i >= s.len() {
        None
    } else if annotation_at(s, i) is Some {
        annotation_at(s, i)
    } else {
        first_annotation_from(s, i + 1)
    }
}

/// The name that the first identifier annotation of `s` declares.
pub open spec fn declared_id(s: Seq<char>) -> Option<Seq<char>> {
    match first_annotation_from(s, 0) {
        Some((from, to)) => Some(s.subrange(from, to)),
        None => None,
    }
}

/// The identifier that a policy text asks for: the name that it declares,
/// where the engine accepts that name as an identifier.
pub open spec fn extracted_id(s: Seq<char>) -> Option<Seq<char>> {
    match declared_id(s) {
        Some(name) => if accepted_policy_id(name) {
            Some(name)
        } else {
            None
        },
        None => None,
    }
}

/// The range that `annotation_at` gives lies inside the text and is not
/// empty.
pub proof fn lemma_annotation_range(s: Seq<char>, i: int)
    requires
        annotation_at(s, i) is Some,
    ensures
        annotation_at(s, i) matches Some((from, to)) && 0 <= i < from < to < s.len(),
{
    let open = skip_spaces(s, i + 3);
    lemma_skip_spaces(s, i + 3);
    lemma_skip_spaces(s, open + 1);
}

/// An annotation written out: `@id`, white space `w1`, an opening bracket,
/// white space `w2`, the name `x` between double quotes, white space `w3`
/// and a closing bracket.
pub open spec fn annotation_text(w1: Seq<char>, w2: Seq<char>, x: Seq<char>, w3: Seq<char>) -> Seq<
    char,
> {
    seq!['@', 'i', 'd'] + w1 + seq!['('] + w2 + seq!['"'] + x + seq!['"'] + w3 + seq![')']
}

/// The annotation that begins at position `i` of `s`, if there is one,
/// declares the name `x`.
pub open spec fn declares_at(s: Seq<char>, i: int, x: Seq<char>) -> bool {
    annotation_at(s, i) matches Some((from, to)) ==> s.subrange(from, to) == x
}

/// A text that holds a well-formed annotation declares the name of that
/// annotation, whatever follows it, unless an annotation with another name
/// begins before it.
pub proof fn lemma_declared_id_of_annotation(
    pre: Seq<char>,
    w1: Seq<char>,
    w2: Seq<char>,
    x: Seq<char>,
    w3: Seq<char>,
    post: Seq<char>,
)
    requires
        forall|k: int|
            0 <= k < pre.len() ==> declares_at(
                pre + annotation_text(w1, w2, x, w3) + post,
                k,
                x,
            ),
        all_spaces(w1),
        all_spaces(w2),
        all_spaces(w3),
        x.len() > 0,
        forall|k: int| 0 <= k < x.len() ==> x[k] != '"',
    ensures
        declared_id(pre + annotation_text(w1, w2, x, w3) + post) == Some(x),
{
    let s = pre + annotation_text(w1, w2, x, w3) + post;
    let at = pre.len() as int;
    let open = at + 3 + w1.len();
    let quote = open + 1 + w2.len();
    let end = quote + 1 + x.len();
    let close = end + 1 + w3.len();
    assert(s.len() == close + 1 + post.len());
    assert(s[at] == '@' && s[at + 1] == 'i' && s[at + 2] == 'd');
    assert(s[open] == '(');
    assert(s[quote] == '"');
    assert(s[end] == '"');
    assert(s[close] == ')');
    assert forall|k: int| at + 3 <= k < open implies is_space(#[trigger] s[k]) by {
        assert(s[k] == w1[k - (at + 3)]);
    }
    assert forall|k: int| open + 1 <= k < quote implies is_space(#[trigger] s[k]) by {
        assert(s[k] == w2[k - (open + 1)]);
    }
    assert forall|k: int| quote + 1 <= k < end implies #[trigger] s[k] != '"' by {
        assert(s[k] == x[k - (quote + 1)]);
    }
    assert forall|k: int| end + 1 <= k < close implies is_space(#[trigger] s[k]) by {
        assert(s[k] == w3[k - (end + 1)]);
    }
    lemma_skip_spaces_run(s, at + 3, open);
    lemma_skip_spaces_run(s, open + 1, quote);
    lemma_find_char_run(s, '"', quote + 1, end);
    lemma_skip_spaces_run(s, end + 1, close);
    assert(annotation_at(s, at) == Some((quote + 1, end)));
    assert(s.subrange(quote + 1, end) =~= x);
    lemma_first_annotation_declares(s, 0, at, x);
}

/// Where an annotation with the name `x` begins at position `at`, and every
/// annotation that begins from `i` up to `at` has that name too, the first
/// annotation from `i` on has the name `x`.
pub proof fn lemma_first_annotation_declares(s: Seq<char>, i: int, at: int, x: Seq<char>)
    requires
        0 <= i <= at < s.len(),
        annotation_at(s, at) is Some,
        forall|k: int| i <= k <= at ==> declares_at(s, k, x),
    ensures
        first_annotation_from(s, i) matches Some((from, to)) && s.subrange(from, to) == x,
    decreases at - i,
{
    assert(declares_at(s, i, x));
    if annotation_at(s, i) is None {
        lemma_first_annotation_declares(s, i + 1, at, x);
    }
}

/// No annotation begins inside a prefix that holds no `@`, whatever follows
/// the prefix.
pub proof fn lemma_no_keyword_no_annotation(pre: Seq<char>, rest: Seq<char>)
    requires
        forall|k: int| 0 <= k < pre.len() ==> pre[k] != '@',
    ensures
        forall|k: int| 0 <= k < pre.len() ==> annotation_at(pre + rest, k) is None,
        forall|k: int, x: Seq<char>| 0 <= k < pre.len() ==> declares_at(pre + rest, k, x),
{
    assert forall|k: int| 0 <= k < pre.len() implies annotation_at(pre + rest, k) is None by {
        assert((pre + rest)[k] == pre[k]);
    }
}

/// Where an annotation begins at position `i`, the text from `i` on is an
/// annotation written out: the runs between its parts are white space, and
/// the name is not empty and holds no double quote.
pub proof fn lemma_annotation_is_written_out(s: Seq<char>, i: int)
    requires
        annotation_at(s, i) is Some,
    ensures
        ({
            let open = skip_spaces(s, i + 3);
            let quote = skip_spaces(s, open + 1);
            let end = find_char(s, '"', quote + 1);
            let close = skip_spaces(s, end + 1);
            let w1 = s.subrange(i + 3, open);
            let w2 = s.subrange(open + 1, quote);
            let x = s.subrange(quote + 1, end);
            let w3 = s.subrange(end + 1, close);
            &&& annotation_at(s, i) == Some((quote + 1, end))
            &&& 0 <= i && close < s.len()
            &&& all_spaces(w1)
            &&& all_spaces(w2)
            &&& all_spaces(w3)
            &&& x.len() > 0
            &&& forall|k: int| 0 <= k < x.len() ==> x[k] != '"'
            &&& s.subrange(i, close + 1) == annotation_text(w1, w2, x, w3)
        }),
{
    let open = skip_spaces(s, i + 3);
    let quote = skip_spaces(s, open + 1);
    let end = find_char(s, '"', quote + 1);
    let close = skip_spaces(s, end + 1);
    lemma_skip_spaces(s, i + 3);
    lemma_skip_spaces(s, open + 1);
    lemma_find_char(s, '"', quote + 1);
    lemma_skip_spaces(s, end + 1);
    let w1 = s.subrange(i + 3, open);
    let w2 = s.subrange(open + 1, quote);
    let x = s.subrange(quote + 1, end);
    let w3 = s.subrange(end + 1, close);
    assert forall|k: int| 0 <= k < w1.len() implies is_space(#[trigger] w1[k]) by {
        assert(w1[k] == s[i + 3 + k]);
    }
    assert forall|k: int| 0 <= k < w2.len() implies is_space(#[trigger] w2[k]) by {
        assert(w2[k] == s[open + 1 + k]);
    }
    assert forall|k: int| 0 <= k < w3.len() implies is_space(#[trigger] w3[k]) by {
        assert(w3[k] == s[end + 1 + k]);
    }
    assert forall|k: int| 0 <= k < x.len() implies x[k] != '"' by {
        assert(x[k] == s[quote + 1 + k]);
    }
    assert(s.subrange(i, close + 1) =~= annotation_text(w1, w2, x, w3));
}

/// Positions at which no annotation begins are passed over.
pub proof fn lemma_first_annotation_skips(s: Seq<char>, i: int, j: int)
    requires
        0 <= i <= j <= s.len(),
        forall|k: int| i <= k < j ==> annotation_at(s, k) is None,
    ensures
        first_annotation_from(s, i) == first_annotation_from(s, j),
    decreases j - i,
{
    if i < j {
        lemma_first_annotation_skips(s, i + 1, j);
    }
}

/// A text in which no annotation begins declares no identifier; a text
/// without any `@` is such a text.
pub proof fn lemma_no_annotation_no_id(s: Seq<char>)
    requires
        forall|k: int| 0 <= k < s.len() ==> annotation_at(s, k) is None,
    ensures
        declared_id(s) is None,
{
    lemma_first_annotation_skips(s, 0, s.len() as int);
}

/// Looks for an annotation that begins at position `i`.
pub fn match_annotation_at(s: &Vec<char>, i: usize) -> (r: Option<(usize, usize)>)
    ensures
        match r {
            Some((from, to)) => annotation_at(s@, i as int) == Some((from as int, to as int)),
            None => annotation_at(s@, i as int) is None,
        },
{
    let n: usize = s.len();
    if i >= n || n - i < 3 || s[i] != '@' || s[i + 1] != 'i' || s[i + 2] != 'd' {
        return None;
    }
    let open: usize = skip_spaces_from(s, i + 3);
    if open >= n || s[open] != '(' {
        return None;
    }
    let quote: usize = skip_spaces_from(s, open + 1);
    if quote >= n || s[quote] != '"' {
        return None;
    }
    let end: usize = find_char_from(s, '"', quote + 1);
    if end >= n || end <= quote + 1 {
        return None;
    }
    let close: usize = skip_spaces_from(s, end + 1);
    if close >= n || s[close] != ')' {
        return None;
    }
    Some((quote + 1, end))
}

/// Finds the name of the first identifier annotation in `s`.
pub fn find_annotation(s: &Vec<char>) -> (r: Option<(usize, usize)>)
    ensures
        match r {
            Some((from, to)) => {
                &&& first_annotation_from(s@, 0) == Some((from as int, to as int))
                &&& from < to < s.len()
            },
            None => first_annotation_from(s@, 0) is None,
        },
{
    let mut i: usize = 0;
    while i < s.len()
        invariant
            i <= s.len(),
            first_annotation_from(s@, 0) == first_annotation_from(s@, i as int),
        decreases s.len() - i,
    {
        match match_annotation_at(s, i) {
            Some(range) => {
                proof {
                    lemma_annotation_range(s@, i as int);
                }
                return Some(range);
            },
            None => {},
        }
        i = i + 1;
    }
    None
}

/// Extracts the identifier that a textual policy declares for itself.
///
/// Gives the name of the first `@id("...")` annotation of `policy_str`, if
/// there is one and the engine accepts the name as a policy identifier.
pub fn extract_policy_id_from_cedar_source(policy_str: &str) -> (r: Option<String>)
    ensures
        option_text(r) == extracted_id(policy_str@),
{
    let chars = chars_of(policy_str);
    match find_annotation(&chars) {
        Some((from, to)) => {
            let name = policy_str.substring_char(from, to);
            if accepts_policy_id(name) {
                Some(name.to_owned())
            } else {
                None
            }
        },
        None => None,
    }
}

} // verus!
