//! The rating and Steam Deck labels shown for each search hit.
use vstd::prelude::*;
use crate::query::{split_words, words};
use crate::text::str_eq;

verus! {

/// The colour a label is shown in.
#[derive(Clone, Copy, Debug, PartialEq, Eq)]
pub enum Hue {
    Rgb(u8, u8, u8),
    Green,
    Yellow,
    Red,
    Default,
}

/// A label and its colour.
#[derive(Clone, Debug, PartialEq, Eq)]
pub struct Tag {
    pub text: String,
    pub hue: Hue,
}

/// The rating label of a tier; a title that lists Linux is native whatever
/// its tier.
pub open spec fn spec_tier_tag(tier: Seq<char>, linux: bool) -> (Seq<char>, Hue) {
    if linux {
        ("Native"@, Hue::Rgb(0, 255, 0))
    } else if tier == "borked"@ {
        ("Borked"@, Hue::Rgb(255, 0, 0))
    } else if tier == "bronze"@ {
        ("Bronze"@, Hue::Rgb(205, 127, 50))
    } else if tier == "silver"@ {
        ("Silver"@, Hue::Rgb(166, 166, 166))
    } else if tier == "gold"@ {
        ("Gold"@, Hue::Rgb(207, 181, 59))
    } else if tier == "platinum"@ {
        ("Platinum"@, Hue::Rgb(180, 199, 220))
    } else if tier == "pending"@ {
        ("Pending (unrated)"@, Hue::Rgb(68, 68, 68))
    } else {
        ("unknown"@, Hue::Rgb(200, 200, 200))
    }
}

fn tag(text: &str, hue: Hue) -> (r: Tag)
    ensures
        r.text@ == text@,
        r.hue == hue,
{
    Tag { text: String::from_str(text), hue }
}

/// The rating label of a title with tier `tier` and platforms `oslist`.
pub fn get_colored_tier(tier: &str, oslist: &Vec<String>) -> (r: Tag)
    ensures
        (r.text@, r.hue) == spec_tier_tag(
            tier@,
            exists|i: int| 0 <= i < oslist@.len() && #[trigger] oslist@[i]@ == "Linux"@,
        ),
{
    let mut linux = false;
    let mut i: usize = 0;
    while i < oslist.len()
        invariant
            i <= oslist@.len(),
            linux == exists|k: int| 0 <= k < i && #[trigger] oslist@[k]@ == "Linux"@,
        decreases oslist@.len() - i,
    {
        if str_eq(oslist[i].as_str(), "Linux") {
            linux = true;
        }
        i = i + 1;
    }
    if linux {
        tag("Native", Hue::Rgb(0, 255, 0))
    } else if str_eq(tier, "borked") {
        tag("Borked", Hue::Rgb(255, 0, 0))
    } else if str_eq(tier, "bronze") {
        tag("Bronze", Hue::Rgb(205, 127, 50))
    } else if str_eq(tier, "silver") {
        tag("Silver", Hue::Rgb(166, 166, 166))
    } else if str_eq(tier, "gold") {
        tag("Gold", Hue::Rgb(207, 181, 59))
    } else if str_eq(tier, "platinum") {
        tag("Platinum", Hue::Rgb(180, 199, 220))
    } else if str_eq(tier, "pending") {
        tag("Pending (unrated)", Hue::Rgb(68, 68, 68))
    } else {
        tag("unknown", Hue::Rgb(200, 200, 200))
    }
}

/// The Steam Deck label for the last word of a status entry.
pub open spec fn spec_deck_tag(word: Seq<char>) -> (Seq<char>, Hue) {
    if word == "Verified"@ {
        ("Verified"@, Hue::Green)
    } else if word == "Playable"@ {
        ("Playable"@, Hue::Yellow)
    } else if word == "Unsupported"@ {
        ("Unsupported"@, Hue::Red)
    } else {
        ("unknown"@, Hue::Default)
    }
}

/// The Steam Deck label for the last word of a status entry.
pub fn deck_word_tag(word: &str) -> (r: Tag)
    ensures
        (r.text@, r.hue) == spec_deck_tag(word@),
{
    if str_eq(word, "Verified") {
        tag("Verified", Hue::Green)
    } else if str_eq(word, "Playable") {
        tag("Playable", Hue::Yellow)
    } else if str_eq(word, "Unsupported") {
        tag("Unsupported", Hue::Red)
    } else {
        tag("unknown", Hue::Default)
    }
}

/// The Steam Deck label of a status entry such as `"Steam Deck Verified"`,
/// read from its last word; an entry without a word reads as unknown.
pub fn get_colored_steam_deck_status(status: &str) -> (r: Tag)
    ensures
        (r.text@, r.hue) == if words(status@).len() > 0 {
            spec_deck_tag(words(status@).last())
        } else {
            ("unknown"@, Hue::Default)
        },
{
    let w = split_words(status);
    let n = w.len();
    if n > 0 {
        proof {
            assert(w.deep_view()[n - 1] == w@[n - 1]@);
        }
        deck_word_tag(w[n - 1].as_str())
    } else {
        tag("unknown", Hue::Default)
    }
}

/// Whether `s` begins with `prefix`.
pub fn starts_with(s: &str, prefix: &str) -> (r: bool)
    ensures
        r == (prefix@.len() <= s@.len() && s@.subrange(0, prefix@.len() as int) == prefix@),
{
    let n = s.unicode_len();
    let m = prefix.unicode_len();
    if m > n {
        return false;
    }
    let mut i: usize = 0;
    while i < m
        invariant
            n == s@.len(),
            m == prefix@.len(),
            m <= n,
            i <= m,
            forall|k: int| 0 <= k < i ==> s@[k] == prefix@[k],
        decreases m - i,
    {
        if s.get_char(i) != prefix.get_char(i) {
            assert(s@.subrange(0, m as int)[i as int] != prefix@[i as int]);
            return false;
        }
        i = i + 1;
    }
    assert(s@.subrange(0, m as int) =~= prefix@);
    true
}

/// The first platform entry that is a Steam Deck status.
pub fn steam_deck_entry(oslist: &Vec<String>) -> (r: Option<usize>)
    ensures
        match r {
            Some(i) => i < oslist@.len() && oslist@[i as int]@.len() >= 10
                && oslist@[i as int]@.subrange(0, 10) == "Steam Deck"@ && forall|k: int|
                0 <= k < i ==> !(oslist@[k]@.len() >= 10 && #[trigger] oslist@[k]@.subrange(0, 10)
                == "Steam Deck"@),
            None => forall|k: int|
                0 <= k < oslist@.len() ==> !(oslist@[k]@.len() >= 10 && #[trigger] oslist@[k]@.subrange(
                    0,
                    10,
                ) == "Steam Deck"@),
        },
{
    proof {
        reveal_strlit("Steam Deck");
    }
    let mut i: usize = 0;
    while i < oslist.len()
        invariant
            i <= oslist@.len(),
            "Steam Deck"@.len() == 10,
            forall|k: int|
                0 <= k < i ==> !(oslist@[k]@.len() >= 10 && #[trigger] oslist@[k]@.subrange(0, 10)
                    == "Steam Deck"@),
        decreases oslist@.len() - i,
    {
        if starts_with(oslist[i].as_str(), "Steam Deck") {
            return Some(i);
        }
        i = i + 1;
    }
    None
}

} // verus!
