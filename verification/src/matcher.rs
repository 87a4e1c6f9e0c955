//! Recognises links to the supported media services inside free text.

use regex::Regex;
use vstd::prelude::*;

verus! {

/// Links on the video host, in its short form or its long one. As in the
/// other patterns, the `www.` before the host may be written in either case;
/// the host itself is matched as written here.
pub const VIDEO_PATTERN: &'static str = r"https?://(?:(?i:www)\.)?youtu(?:\.be|be\.com)/\S+";

/// Links on the music subdomain of the video host.
pub const MUSIC_PATTERN: &'static str = r"https?://(?:(?i:www)\.)?music\.youtube\.com/\S+";

/// Links on the music-streaming host.
pub const STREAMING_PATTERN: &'static str = r"https?://(?:(?i:www)\.)?open\.spotify\.com/\S+";

/// The successive non-overlapping matches of `pattern` in `text`, from left to
/// right, as the regex engine finds them; `None` where `pattern` is not a
/// regular expression that the engine accepts.
pub uninterp spec fn regex_matches(pattern: Seq<char>, text: Seq<char>) -> Option<Seq<Seq<char>>>;

/// The views of a sequence of strings.
pub open spec fn texts(items: Seq<String>) -> Seq<Seq<char>> {
    Seq::new(items.len(), |i: int| items[i]@)
}

/// Whether `part` stands somewhere in `text`, character for character.
pub open spec fn occurs_in(part: Seq<char>, text: Seq<char>) -> bool {
    exists|k: int|
        0 <= k && k + part.len() <= text.len() && #[trigger] text.subrange(k, k + part.len())
            == part
}

/// The matches of one pattern in `text`; none where the pattern is malformed.
pub open spec fn pattern_hits(pattern: Seq<char>, text: Seq<char>) -> Seq<Seq<char>> {
    match regex_matches(pattern, text) {
        Some(found) => found,
        None => Seq::empty(),
    }
}

/// The fixed patterns, in priority order.
pub open spec fn link_patterns_spec() -> Seq<Seq<char>> {
    seq![VIDEO_PATTERN@, MUSIC_PATTERN@, STREAMING_PATTERN@]
}

/// Whether some pattern matches somewhere in `text`.
pub open spec fn contains_music_link_spec(text: Seq<char>) -> bool {
    ||| pattern_hits(VIDEO_PATTERN@, text).len() > 0
    ||| pattern_hits(MUSIC_PATTERN@, text).len() > 0
    ||| pattern_hits(STREAMING_PATTERN@, text).len() > 0
}

/// The matches of the first `n` patterns, one pattern after the other.
pub open spec fn hits_of_first(n: nat, text: Seq<char>) -> Seq<Seq<char>>
    decreases n,
{
    if n == 0 || n > link_patterns_spec().len() {
        Seq::empty()
    } else {
        hits_of_first((n - 1) as nat, text) + pattern_hits(link_patterns_spec()[n - 1], text)
    }
}

/// Every candidate link of `text`: the matches of each pattern over the whole
/// text, pattern by pattern in priority order.
pub open spec fn find_all_spec(text: Seq<char>) -> Seq<Seq<char>> {
    pattern_hits(VIDEO_PATTERN@, text) + pattern_hits(MUSIC_PATTERN@, text) + pattern_hits(
        STREAMING_PATTERN@,
        text,
    )
}

/// Whether every fixed pattern is one that the regex engine accepts.
pub open spec fn patterns_are_valid_spec() -> bool {
    &&& regex_matches(VIDEO_PATTERN@, Seq::empty()).is_some()
    &&& regex_matches(MUSIC_PATTERN@, Seq::empty()).is_some()
    &&& regex_matches(STREAMING_PATTERN@, Seq::empty()).is_some()
}

/// Calls `Regex::new` on `pattern` and `Regex::is_match` on `text`. Trusted:
/// the answer is `None` exactly where the pattern does not compile, and else
/// says whether the engine finds at least one match in `text`.
#[verifier::external_body]
fn regex_is_match(pattern: &str, text: &str) -> (r: Option<bool>)
    ensures
        r == match regex_matches(pattern@, text@) {
            Some(found) => Some(found.len() > 0),
            None => None,
        },
{
    match Regex::new(pattern) {
        Ok(re) => Some(re.is_match(text)),
        Err(_) => None,
    }
}

/// Calls `Regex::new` on `pattern` and `Regex::find_iter` on `text`, copying
/// each match out. Trusted: the answer is `None` exactly where the pattern does
/// not compile, and else holds the engine's matches in the order found, each
/// of them a piece of `text`.
#[verifier::external_body]
fn regex_find_all(pattern: &str, text: &str) -> (r: Option<Vec<String>>)
    ensures
        r.is_some() == regex_matches(pattern@, text@).is_some(),
        r matches Some(found) ==> regex_matches(pattern@, text@) == Some(texts(found@)),
        r matches Some(found) ==> forall|i: int|
            0 <= i < found@.len() ==> occurs_in((#[trigger] found@[i])@, text@),
{
    match Regex::new(pattern) {
        Ok(re) => Some(re.find_iter(text).map(|m| m.as_str().to_string()).collect()),
        Err(_) => None,
    }
}

/// The fixed patterns, in priority order.
pub fn link_patterns() -> (r: Vec<&'static str>)
    ensures
        r@.len() == 3,
        r@.map_values(|p: &'static str| p@) == link_patterns_spec(),
{
    let r = vec![VIDEO_PATTERN, MUSIC_PATTERN, STREAMING_PATTERN];
    assert(r@.map_values(|p: &'static str| p@) =~= link_patterns_spec());
    r
}

/// Checks the fixed patterns, as a program does once before it starts to
/// match: a pattern that the engine refuses would never find a link.
pub fn patterns_are_valid() -> (r: bool)
    ensures
        r == patterns_are_valid_spec(),
{
    let patterns = link_patterns();
    let empty = String::new();
    let mut i: usize = 0;
    while i < patterns.len()
        invariant
            i <= 3,
            patterns@.len() == 3,
            empty@ == Seq::<char>::empty(),
            patterns@.map_values(|p: &'static str| p@) == link_patterns_spec(),
            forall|k: int|
                0 <= k < i ==> (#[trigger] regex_matches(
                    link_patterns_spec()[k],
                    Seq::empty(),
                )).is_some(),
        decreases 3 - i,
    {
        assert(patterns@[i as int]@ == patterns@.map_values(|p: &'static str| p@)[i as int]);
        if regex_is_match(patterns[i], empty.as_str()).is_none() {
            assert(link_patterns_spec()[0] == VIDEO_PATTERN@ && link_patterns_spec()[1]
                == MUSIC_PATTERN@ && link_patterns_spec()[2] == STREAMING_PATTERN@);
            return false;
        }
        i = i + 1;
    }
    assert(link_patterns_spec()[0] == VIDEO_PATTERN@ && link_patterns_spec()[1] == MUSIC_PATTERN@
        && link_patterns_spec()[2] == STREAMING_PATTERN@);
    true
}

/// Tells whether `text` holds a link to one of the supported services.
pub fn contains_music_link(text: &str) -> (r: bool)
    ensures
        r == contains_music_link_spec(text@),
{
    let patterns = link_patterns();
    let mut i: usize = 0;
    while i < patterns.len()
        invariant
            i <= 3,
            patterns@.len() == 3,
            patterns@.map_values(|p: &'static str| p@) == link_patterns_spec(),
            forall|k: int| 0 <= k < i ==> pattern_hits(link_patterns_spec()[k], text@).len() == 0,
        decreases 3 - i,
    {
        assert(patterns@[i as int]@ == patterns@.map_values(|p: &'static str| p@)[i as int]);
        if let Some(true) = regex_is_match(patterns[i], text) {
            assert(pattern_hits(link_patterns_spec()[i as int], text@).len() > 0);
            assert(link_patterns_spec()[0] == VIDEO_PATTERN@ && link_patterns_spec()[1]
                == MUSIC_PATTERN@ && link_patterns_spec()[2] == STREAMING_PATTERN@);
            return true;
        }
        i = i + 1;
    }
    assert(link_patterns_spec()[0] == VIDEO_PATTERN@ && link_patterns_spec()[1] == MUSIC_PATTERN@
        && link_patterns_spec()[2] == STREAMING_PATTERN@);
    false
}

/// Collects every candidate link of `text`: each pattern is scanned over the
/// whole text, in priority order, and its matches are kept from left to right.
pub fn find_all(text: &str) -> (r: Vec<String>)
    ensures
        texts(r@) == find_all_spec(text@),
        forall|i: int| 0 <= i < r@.len() ==> occurs_in((#[trigger] r@[i])@, text@),
{
    let patterns = link_patterns();
    let mut found: Vec<String> = Vec::new();
    let mut i: usize = 0;
    assert(texts(found@) =~= hits_of_first(0, text@));
    while i < patterns.len()
        invariant
            i <= 3,
            patterns@.len() == 3,
            patterns@.map_values(|p: &'static str| p@) == link_patterns_spec(),
            texts(found@) == hits_of_first(i as nat, text@),
            forall|k: int| 0 <= k < found@.len() ==> occurs_in((#[trigger] found@[k])@, text@),
        decreases 3 - i,
    {
        assert(patterns@[i as int]@ == patterns@.map_values(|p: &'static str| p@)[i as int]);
        let ghost before = found@;
        if let Some(mut hits) = regex_find_all(patterns[i], text) {
            let ghost added = hits@;
            found.append(&mut hits);
            assert(texts(found@) =~= texts(before) + texts(added));
        } else {
            assert(texts(found@) =~= texts(before) + Seq::<Seq<char>>::empty());
        }
        i = i + 1;
    }
    proof {
        reveal_with_fuel(hits_of_first, 4);
        assert(hits_of_first(3, text@) =~= find_all_spec(text@));
    }
    found
}

/// Detection and collection agree: a text holds a link exactly where it has
/// at least one candidate.
pub proof fn detection_agrees_with_candidates(text: Seq<char>)
    ensures
        contains_music_link_spec(text) <==> find_all_spec(text).len() > 0,
{
}

} // verus!
