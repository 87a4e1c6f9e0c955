//! Finds the links of a message and keeps those that cleaning changes.

use crate::matcher::{find_all, find_all_spec, occurs_in, texts};
use crate::normalizer::{pair_views, remove_si_parameter, remove_si_parameter_spec};
use vstd::prelude::*;

verus! {

/// The pairs of a candidate and its cleaned form, for the candidates that
/// cleaning changes, in the candidates' order.
pub open spec fn changed_pairs(candidates: Seq<Seq<char>>) -> Seq<(Seq<char>, Seq<char>)>
    decreases candidates.len(),
{
    if candidates.len() == 0 {
        Seq::empty()
    } else {
        let original = candidates.last();
        let cleaned = remove_si_parameter_spec(original);
        let rest = changed_pairs(candidates.drop_last());
        if cleaned != original {
            rest.push((original, cleaned))
        } else {
            rest
        }
    }
}

/// The links of `text` that cleaning changes, each with its cleaned form.
pub open spec fn extract_music_links_spec(text: Seq<char>) -> Seq<(Seq<char>, Seq<char>)> {
    changed_pairs(find_all_spec(text))
}

/// No kept pair holds a link that cleaning left as it was.
pub proof fn kept_pairs_differ(candidates: Seq<Seq<char>>)
    ensures
        forall|i: int|
            0 <= i < changed_pairs(candidates).len() ==> (#[trigger] changed_pairs(
                candidates,
            )[i]).0 != changed_pairs(candidates)[i].1,
    decreases candidates.len(),
{
    if candidates.len() > 0 {
        let rest = candidates.drop_last();
        kept_pairs_differ(rest);
        assert forall|i: int| 0 <= i < changed_pairs(candidates).len() implies (
        #[trigger] changed_pairs(candidates)[i]).0 != changed_pairs(candidates)[i].1 by {
            if i < changed_pairs(rest).len() {
                assert(changed_pairs(candidates)[i] == changed_pairs(rest)[i]);
            }
        }
    }
}

/// Every kept pair holds a candidate and what cleaning makes of it.
pub proof fn kept_pairs_are_cleaned(candidates: Seq<Seq<char>>)
    ensures
        forall|i: int|
            0 <= i < changed_pairs(candidates).len() ==> candidates.contains(
                (#[trigger] changed_pairs(candidates)[i]).0,
            ) && changed_pairs(candidates)[i].1 == remove_si_parameter_spec(
                changed_pairs(candidates)[i].0,
            ),
    decreases candidates.len(),
{
    if candidates.len() > 0 {
        let rest = candidates.drop_last();
        kept_pairs_are_cleaned(rest);
        assert forall|i: int| 0 <= i < changed_pairs(candidates).len() implies candidates.contains(
            (#[trigger] changed_pairs(candidates)[i]).0,
        ) && changed_pairs(candidates)[i].1 == remove_si_parameter_spec(
            changed_pairs(candidates)[i].0,
        ) by {
            if i < changed_pairs(rest).len() {
                let original = changed_pairs(rest)[i].0;
                assert(rest.contains(original));
                let k = choose|k: int| 0 <= k < rest.len() && rest[k] == original;
                assert(candidates[k] == original);
            } else {
                assert(candidates[candidates.len() - 1] == candidates.last());
            }
        }
    }
}

/// Cleans each candidate in turn and keeps the pairs in which cleaning made a
/// change.
pub fn clean_candidates(candidates: &Vec<String>) -> (links: Vec<(String, String)>)
    ensures
        pair_views(links@) == changed_pairs(texts(candidates@)),
{
    let mut links: Vec<(String, String)> = Vec::new();
    let mut i: usize = 0;
    assert(pair_views(links@) =~= Seq::empty());
    assert(texts(candidates@).take(0) =~= Seq::empty());
    while i < candidates.len()
        invariant
            i <= candidates.len(),
            pair_views(links@) == changed_pairs(texts(candidates@).take(i as int)),
        decreases candidates.len() - i,
    {
        let ghost all = texts(candidates@);
        assert(all.take(i + 1).drop_last() =~= all.take(i as int));
        assert(all.take(i + 1).last() == candidates@[i as int]@);
        let cleaned = remove_si_parameter(candidates[i].as_str());
        if candidates[i] != cleaned {
            let ghost before = pair_views(links@);
            let original = candidates[i].clone();
            links.push((original, cleaned));
            assert(pair_views(links@) =~= before.push((candidates@[i as int]@, cleaned@)));
        }
        i = i + 1;
    }
    assert(texts(candidates@).take(i as int) =~= texts(candidates@));
    links
}

/// Extracts the links of `text` that carry tracking data, each with its
/// cleaned form. Links that are already clean are left out.
pub fn extract_music_links(text: &str) -> (links: Vec<(String, String)>)
    ensures
        pair_views(links@) == extract_music_links_spec(text@),
        forall|i: int|
            0 <= i < links@.len() ==> (#[trigger] links@[i]).0@ != links@[i].1@ && links@[i].1@
                == remove_si_parameter_spec(links@[i].0@) && occurs_in(links@[i].0@, text@),
{
    let candidates = find_all(text);
    let links = clean_candidates(&candidates);
    proof {
        let found = texts(candidates@);
        kept_pairs_differ(found);
        kept_pairs_are_cleaned(found);
        assert forall|i: int| 0 <= i < links@.len() implies (#[trigger] links@[i]).0@
            != links@[i].1@ && links@[i].1@ == remove_si_parameter_spec(links@[i].0@) && occurs_in(
            links@[i].0@,
            text@,
        ) by {
            assert(changed_pairs(found)[i] == (links@[i].0@, links@[i].1@));
            let k = choose|k: int| 0 <= k < found.len() && found[k] == links@[i].0@;
            assert(candidates@[k]@ == links@[i].0@);
        }
    }
    links
}

} // verus!
