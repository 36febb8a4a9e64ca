//! Telling a numeric title id apart from a search text.
use vstd::prelude::*;
use crate::text::{join, join_strings};

verus! {

/// Whether a character belongs to one of Unicode's numeric general
/// categories.
pub uninterp spec fn is_numeric_char(c: char) -> bool;

/// Relies on `char::is_numeric`: true exactly for the characters of the
/// numeric general categories, among them the ASCII digits.
#[verifier::external_body]
fn is_numeric(c: char) -> (r: bool)
    ensures
        r == is_numeric_char(c),
        '0' <= c <= '9' ==> r,
{
    c.is_numeric()
}

/// Whether every character of the query is numeric, so that the query is
/// taken as a title id.
pub fn is_query_id(query: &str) -> (r: bool)
    ensures
        r == forall|i: int| 0 <= i < query@.len() ==> is_numeric_char(#[trigger] query@[i]),
        (forall|i: int| 0 <= i < query@.len() ==> '0' <= #[trigger] query@[i] <= '9') ==> r,
{
    let n = query.unicode_len();
    let mut i: usize = 0;
    while i < n
        invariant
            n == query@.len(),
            i <= n,
            forall|k: int| 0 <= k < i ==> is_numeric_char(#[trigger] query@[k]),
        decreases n - i,
    {
        if !is_numeric(query.get_char(i)) {
            return false;
        }
        i = i + 1;
    }
    true
}

/// The words of a text, as separated by Unicode white space.
pub uninterp spec fn words(s: Seq<char>) -> Seq<Seq<char>>;

/// Relies on `str::split_whitespace`: the words between runs of Unicode
/// white space, in order, none of them empty.
#[verifier::external_body]
pub(crate) fn split_words(s: &str) -> (r: Vec<String>)
    ensures
        r.deep_view() == words(s@),
{
    s.split_whitespace().map(|w| w.to_string()).collect()
}

/// The search words an argument gives: its words when it holds a space, the
/// argument itself otherwise.
pub open spec fn argument_parts(arg: Seq<char>) -> Seq<Seq<char>> {
    if arg.contains(' ') {
        words(arg)
    } else {
        seq![arg]
    }
}

/// The search words of all arguments, in order.
pub open spec fn query_parts(args: Seq<Seq<char>>) -> Seq<Seq<char>>
    decreases args.len(),
{
    if args.len() == 0 {
        Seq::empty()
    } else {
        query_parts(args.drop_last()) + argument_parts(args.last())
    }
}

fn has_space(s: &str) -> (r: bool)
    ensures
        r == s@.contains(' '),
{
    let n = s.unicode_len();
    let mut i: usize = 0;
    while i < n
        invariant
            n == s@.len(),
            i <= n,
            forall|k: int| 0 <= k < i ==> s@[k] != ' ',
        decreases n - i,
    {
        if s.get_char(i) == ' ' {
            assert(s@[i as int] == ' ');
            return true;
        }
        i = i + 1;
    }
    false
}

/// The search text of the command-line arguments: their words joined by
/// single spaces, an argument without a space kept whole.
pub fn search_text(args: &Vec<String>) -> (r: String)
    ensures
        r@ == join(query_parts(args.deep_view()), " "@),
{
    let mut parts: Vec<String> = Vec::new();
    let mut i: usize = 0;
    assert(args.deep_view().take(0) =~= Seq::<Seq<char>>::empty());
    assert(parts.deep_view() =~= Seq::<Seq<char>>::empty());
    while i < args.len()
        invariant
            i <= args@.len(),
            parts.deep_view() == query_parts(args.deep_view().take(i as int)),
        decreases args@.len() - i,
    {
        let arg = args[i].as_str();
        let ghost before = parts.deep_view();
        proof {
            assert(args.deep_view().take(i as int + 1).drop_last() =~= args.deep_view().take(
                i as int,
            ));
            assert(args.deep_view().take(i as int + 1).last() == args[i as int]@);
        }
        if has_space(arg) {
            let w = split_words(arg);
            let mut k: usize = 0;
            while k < w.len()
                invariant
                    k <= w@.len(),
                    parts.deep_view() == before + w.deep_view().take(k as int),
                decreases w@.len() - k,
            {
                let ghost prev = parts.deep_view();
                parts.push(w[k].clone());
                assert(w.deep_view()[k as int] == w@[k as int]@);
                assert(parts.deep_view() =~= prev.push(w@[k as int]@));
                assert(parts.deep_view() =~= before + w.deep_view().take(k as int + 1));
                k = k + 1;
            }
            assert(w.deep_view().take(k as int) =~= w.deep_view());
        } else {
            parts.push(args[i].clone());
            assert(parts.deep_view() =~= before + seq![args[i as int]@]);
        }
        i = i + 1;
    }
    assert(args.deep_view().take(i as int) =~= args.deep_view());
    join_strings(&parts, " ")
}

} // verus!
