//! Colour-space families of search matches: a reference and a candidate graded in
//! different families (video, log, linear) get a warning beside their score.

use vstd::prelude::*;
use crate::text::{all_ascii, ascii_lowercase, concat, str_eq, to_lowercase, unicode_lowercase};
use crate::dataset::strs_view;

verus! {

broadcast use {vstd::string::group_string_axioms, vstd::seq_lib::group_seq_properties, vstd::set::group_set_axioms};

/// Errors of hybrid scoring.
#[derive(Debug, Clone)]
pub enum HybridScoringError {
    /// Weight validation failed; the reason.
    WeightError(String),
    /// No signal is available to score with.
    NoSignalsAvailable,
}

impl HybridScoringError {
    /// The text of the error.
    pub fn message(&self) -> (r: String)
        ensures
            *self matches HybridScoringError::WeightError(m) ==> r@
                == "HYBRID_SCORING_WEIGHT_ERROR -- "@ + m@,
            *self is NoSignalsAvailable ==> r@
                == "HYBRID_SCORING_NO_SIGNALS -- no signals available for scoring"@,
    {
        match self {
            HybridScoringError::WeightError(m) => concat("HYBRID_SCORING_WEIGHT_ERROR -- ", m.as_str()),
            HybridScoringError::NoSignalsAvailable => String::from_str(
                "HYBRID_SCORING_NO_SIGNALS -- no signals available for scoring",
            ),
        }
    }
}

/// Display name of a lower-cased colour-space tag, `None` for tags without one.
pub open spec fn known_display_name(lower: Seq<char>) -> Option<Seq<char>> {
    if lower == "video"@ || lower == "srgb"@ || lower == "rec709"@ {
        Some("sRGB"@)
    } else if lower == "acescct"@ {
        Some("ACEScct"@)
    } else if lower == "acescg"@ {
        Some("ACEScg"@)
    } else if lower == "linear"@ {
        Some("Linear"@)
    } else if lower == "log"@ {
        Some("Log"@)
    } else {
        None
    }
}

/// Display name of a colour-space tag (compared in lower case); unknown tags are
/// shown as they are.
pub open spec fn display_name_spec(tag: Seq<char>) -> Seq<char> {
    match known_display_name(unicode_lowercase(tag)) {
        Some(n) => n,
        None => tag,
    }
}

/// Family of a lower-cased colour-space tag: the known tags fall into "video",
/// "log" or "linear"; any other tag is a family of its own, named by its lower-case
/// text.
pub open spec fn family_of_lower(lower: Seq<char>) -> Seq<char> {
    if lower == "video"@ || lower == "srgb"@ || lower == "rec709"@ {
        "video"@
    } else if lower == "acescct"@ || lower == "acescg"@ || lower == "log"@ {
        "log"@
    } else if lower == "linear"@ {
        "linear"@
    } else {
        lower
    }
}

/// Family of a colour-space tag (compared in lower case).
pub open spec fn family_spec(tag: Seq<char>) -> Seq<char> {
    family_of_lower(unicode_lowercase(tag))
}

/// The known colour-space tags, their display names and families: video, srgb and
/// rec709 are shown as sRGB in the video family; acescct, acescg and log are shown as
/// ACEScct, ACEScg and Log in the log family; linear is shown as Linear in its own
/// family; any other tag has no display name and is a family of its own.
pub proof fn lemma_color_space_names(lower: Seq<char>)
    ensures
        (lower == "video"@ || lower == "srgb"@ || lower == "rec709"@) ==> known_display_name(lower)
            == Some("sRGB"@) && family_of_lower(lower) == "video"@,
        lower == "acescct"@ ==> known_display_name(lower) == Some("ACEScct"@) && family_of_lower(lower) == "log"@,
        lower == "acescg"@ ==> known_display_name(lower) == Some("ACEScg"@) && family_of_lower(lower) == "log"@,
        lower == "log"@ ==> known_display_name(lower) == Some("Log"@) && family_of_lower(lower) == "log"@,
        lower == "linear"@ ==> known_display_name(lower) == Some("Linear"@) && family_of_lower(lower) == "linear"@,
        !(lower == "video"@ || lower == "srgb"@ || lower == "rec709"@ || lower == "acescct"@ || lower == "acescg"@
            || lower == "log"@ || lower == "linear"@) ==> known_display_name(lower) is None && family_of_lower(lower)
            == lower,
{
    reveal_strlit("video");
    reveal_strlit("srgb");
    reveal_strlit("rec709");
    reveal_strlit("acescct");
    reveal_strlit("acescg");
    reveal_strlit("log");
    reveal_strlit("linear");
    assert("video"@.len() != "srgb"@.len());
    assert("video"@.len() != "rec709"@.len());
    assert("video"@.len() != "acescct"@.len());
    assert("video"@.len() != "acescg"@.len());
    assert("video"@.len() != "log"@.len());
    assert("video"@.len() != "linear"@.len());
    assert("srgb"@.len() != "rec709"@.len());
    assert("srgb"@.len() != "acescct"@.len());
    assert("srgb"@.len() != "acescg"@.len());
    assert("srgb"@.len() != "log"@.len());
    assert("srgb"@.len() != "linear"@.len());
    assert("rec709"@.len() != "acescct"@.len());
    assert("rec709"@[0] != "acescg"@[0]);
    assert("rec709"@.len() != "log"@.len());
    assert("rec709"@[0] != "linear"@[0]);
    assert("acescct"@.len() != "acescg"@.len());
    assert("acescct"@.len() != "log"@.len());
    assert("acescct"@.len() != "linear"@.len());
    assert("acescg"@.len() != "log"@.len());
    assert("acescg"@[0] != "linear"@[0]);
    assert("log"@.len() != "linear"@.len());
}

/// Display name of a colour-space tag; unknown tags are shown as they are.
pub fn display_name(cs_tag: &str) -> (r: &str)
    ensures
        r@ == display_name_spec(cs_tag@),
{
    let lower = to_lowercase(cs_tag);
    let l = lower.as_str();
    if str_eq(l, "video") || str_eq(l, "srgb") || str_eq(l, "rec709") {
        "sRGB"
    } else if str_eq(l, "acescct") {
        "ACEScct"
    } else if str_eq(l, "acescg") {
        "ACEScg"
    } else if str_eq(l, "linear") {
        "Linear"
    } else if str_eq(l, "log") {
        "Log"
    } else {
        cs_tag
    }
}

/// Family of a colour-space tag: "video", "log" or "linear" for the known tags, and
/// the lower-case tag itself for any other, so that unknown tags share a family only
/// with equal tags.
pub fn color_space_family(cs_tag: &str) -> (r: String)
    ensures
        r@ == family_spec(cs_tag@),
        all_ascii(cs_tag@) ==> r@ == family_of_lower(ascii_lowercase(cs_tag@)),
{
    let lower = to_lowercase(cs_tag);
    let l = lower.as_str();
    if str_eq(l, "video") || str_eq(l, "srgb") || str_eq(l, "rec709") {
        String::from_str("video")
    } else if str_eq(l, "acescct") || str_eq(l, "acescg") || str_eq(l, "log") {
        String::from_str("log")
    } else if str_eq(l, "linear") {
        String::from_str("linear")
    } else {
        lower
    }
}

/// The warning for a reference and a candidate in different families.
pub open spec fn gap_warning(query: Seq<char>, candidate: Seq<char>) -> Seq<char> {
    "reference ("@ + display_name_spec(query) + ") \u{2194} candidate ("@ + display_name_spec(
        candidate,
    ) + ") \u{2014} large color space gap"@
}

/// A warning when the reference and the candidate belong to different colour-space
/// families, `None` when they share one.
pub fn check_color_space_gap(query_cs: &str, candidate_cs: &str) -> (r: Option<String>)
    ensures
        family_spec(query_cs@) == family_spec(candidate_cs@) ==> r is None,
        family_spec(query_cs@) != family_spec(candidate_cs@) ==> (r matches Some(w) && w@
            == gap_warning(query_cs@, candidate_cs@)),
        all_ascii(query_cs@) && all_ascii(candidate_cs@) ==> (r is None <==> family_of_lower(
            ascii_lowercase(query_cs@),
        ) == family_of_lower(ascii_lowercase(candidate_cs@))),
{
    let q = color_space_family(query_cs);
    let c = color_space_family(candidate_cs);
    if str_eq(q.as_str(), c.as_str()) {
        return None;
    }
    let a = concat("reference (", display_name(query_cs));
    let b = concat(a.as_str(), ") \u{2194} candidate (");
    let d = concat(b.as_str(), display_name(candidate_cs));
    Some(concat(d.as_str(), ") \u{2014} large color space gap"))
}


/// The set of tags of a list (by their characters).
pub open spec fn tag_set(v: Seq<String>) -> Set<Seq<char>> {
    strs_view(v).to_set()
}

/// Whether a string with the characters of `s` is in `v`.
fn holds_tag(v: &[String], s: &str) -> (r: bool)
    ensures
        r == strs_view(v@).contains(s@),
{
    let mut i: usize = 0;
    while i < v.len()
        invariant
            i <= v@.len(),
            forall|k: int| 0 <= k < i ==> strs_view(v@)[k] != s@,
        decreases v@.len() - i,
    {
        if str_eq(v[i].as_str(), s) {
            assert(strs_view(v@)[i as int] == s@);
            return true;
        }
        i = i + 1;
    }
    false
}

/// Adds to `acc` the tags of `items` it does not hold yet, each once.
fn add_distinct(acc: &mut Vec<String>, items: &[String])
    requires
        strs_view(old(acc)@).no_duplicates(),
    ensures
        strs_view(final(acc)@).no_duplicates(),
        strs_view(final(acc)@).to_set() == strs_view(old(acc)@).to_set().union(strs_view(items@).to_set()),
{
    let ghost base = strs_view(acc@).to_set();
    let ghost iv = strs_view(items@);
    let mut i: usize = 0;
    assert(iv.take(0).to_set() =~= Set::<Seq<char>>::empty());
    assert(base.union(Set::<Seq<char>>::empty()) =~= base);
    while i < items.len()
        invariant
            i <= items@.len(),
            iv == strs_view(items@),
            strs_view(acc@).no_duplicates(),
            strs_view(acc@).to_set() == base.union(iv.take(i as int).to_set()),
        decreases items@.len() - i,
    {
        let t = items[i].as_str();
        proof {
            assert(iv.take(i + 1) =~= iv.take(i as int).push(iv[i as int]));
            assert(iv.take(i + 1).to_set() =~= iv.take(i as int).to_set().insert(iv[i as int]));
        }
        if !holds_tag(acc.as_slice(), t) {
            let ghost before = strs_view(acc@);
            acc.push(String::from_str(t));
            proof {
                assert(strs_view(acc@) =~= before.push(t@));
                assert(strs_view(acc@).to_set() =~= before.to_set().insert(t@));
                assert(strs_view(acc@).no_duplicates()) by {
                    assert forall|a: int, b: int| 0 <= a < b < strs_view(acc@).len() implies strs_view(acc@)[a] != strs_view(acc@)[b] by {
                        if b == strs_view(acc@).len() - 1 {
                            assert(strs_view(acc@)[a] == before[a]);
                        }
                    }
                }
                assert(strs_view(acc@).to_set() =~= base.union(iv.take(i + 1).to_set()));
            }
        } else {
            proof {
                assert(strs_view(acc@).to_set().contains(t@));
                assert(strs_view(acc@).to_set() =~= base.union(iv.take(i + 1).to_set()));
            }
        }
        i = i + 1;
    }
    assert(iv.take(items@.len() as int) =~= iv);
}

/// The sizes of the intersection and of the union of the tag sets of a query and a
/// candidate, from which their Jaccard similarity is computed; `None` when either has
/// no tag (the similarity is then 0).
pub fn tag_overlap(query_tags: &[String], candidate_tags: &[String]) -> (r: Option<(usize, usize)>)
    ensures
        (query_tags@.len() == 0 || candidate_tags@.len() == 0) ==> r is None,
        query_tags@.len() > 0 && candidate_tags@.len() > 0 ==> (r matches Some((i, u)) && i as nat
            == tag_set(query_tags@).intersect(tag_set(candidate_tags@)).len() && u as nat
            == tag_set(query_tags@).union(tag_set(candidate_tags@)).len() && u > 0),
{
    if query_tags.len() == 0 || candidate_tags.len() == 0 {
        return None;
    }
    let ghost q = tag_set(query_tags@);
    let ghost c = tag_set(candidate_tags@);
    let mut distinct_q: Vec<String> = Vec::new();
    assert(strs_view(distinct_q@).to_set() =~= Set::<Seq<char>>::empty());
    add_distinct(&mut distinct_q, query_tags);
    assert(strs_view(distinct_q@).to_set() =~= q);
    let mut common: Vec<String> = Vec::new();
    let mut k: usize = 0;
    let ghost dq = strs_view(distinct_q@);
    assert(strs_view(common@).to_set() =~= dq.take(0).to_set().intersect(c));
    while k < distinct_q.len()
        invariant
            k <= distinct_q@.len(),
            dq == strs_view(distinct_q@),
            dq.no_duplicates(),
            c == tag_set(candidate_tags@),
            strs_view(common@).no_duplicates(),
            strs_view(common@).to_set() == dq.take(k as int).to_set().intersect(c),
            forall|x: Seq<char>| strs_view(common@).contains(x) ==> dq.take(k as int).contains(x),
        decreases distinct_q@.len() - k,
    {
        let t = distinct_q[k].as_str();
        proof {
            assert(dq.take(k + 1) =~= dq.take(k as int).push(dq[k as int]));
            assert(dq.take(k + 1).to_set() =~= dq.take(k as int).to_set().insert(dq[k as int]));
        }
        if holds_tag(candidate_tags, t) {
            let ghost before = strs_view(common@);
            common.push(String::from_str(t));
            proof {
                assert(strs_view(common@) =~= before.push(t@));
                assert(!before.contains(t@)) by {
                    if before.contains(t@) {
                        let j = choose|j: int| 0 <= j < k && dq[j] == t@;
                        assert(dq[j] == dq[k as int]);
                    }
                }
                assert(strs_view(common@).no_duplicates()) by {
                    assert forall|a: int, b: int| 0 <= a < b < strs_view(common@).len() implies strs_view(common@)[a] != strs_view(common@)[b] by {
                        if b == strs_view(common@).len() - 1 {
                            assert(before.contains(before[a]));
                        }
                    }
                }
                assert(t@ == dq[k as int]);
                assert(c.contains(t@));
                assert(strs_view(common@).to_set() =~= before.to_set().insert(t@));
                assert(strs_view(common@).to_set() =~= dq.take(k + 1).to_set().intersect(c));
            }
        } else {
            proof {
                assert(t@ == dq[k as int]);
                assert(!c.contains(t@));
                assert(strs_view(common@).to_set() =~= dq.take(k + 1).to_set().intersect(c));
            }
        }
        k = k + 1;
    }
    assert(dq.take(dq.len() as int) =~= dq);
    let mut all = distinct_q.clone();
    proof {
        assert(strs_view(all@) == dq);
    }
    add_distinct(&mut all, candidate_tags);
    proof {
        strs_view(common@).unique_seq_to_set();
        strs_view(all@).unique_seq_to_set();
        assert(strs_view(all@).to_set() =~= q.union(c));
        assert(q.intersect(c) =~= strs_view(common@).to_set());
        assert(strs_view(all@).len() > 0) by {
            assert(q.contains(strs_view(query_tags@)[0]));
            assert(strs_view(all@).to_set().contains(strs_view(query_tags@)[0]));
        }
    }
    Some((common.len(), all.len()))
}

/// Tag similarity is symmetric, and the shared tags never outnumber all tags: the
/// Jaccard ratio lies in [0, 1].
pub proof fn lemma_overlap_symmetric_bounded(q: Seq<String>, c: Seq<String>)
    ensures
        tag_set(q).intersect(tag_set(c)) == tag_set(c).intersect(tag_set(q)),
        tag_set(q).union(tag_set(c)) == tag_set(c).union(tag_set(q)),
        tag_set(q).intersect(tag_set(c)).len() <= tag_set(q).union(tag_set(c)).len(),
{
    let a = tag_set(q);
    let b = tag_set(c);
    assert(a.intersect(b) =~= b.intersect(a));
    assert(a.union(b) =~= b.union(a));
    strs_view(q).lemma_cardinality_of_set();
    strs_view(c).lemma_cardinality_of_set();
    vstd::seq_lib::seq_to_set_is_finite(strs_view(q));
    vstd::seq_lib::seq_to_set_is_finite(strs_view(c));
    vstd::set_lib::lemma_len_subset(a.intersect(b), a.union(b));
}

/// A colour-space gap is found between a reference and a candidate exactly when it is
/// found with the two exchanged, and never between a tag and itself.
pub proof fn lemma_gap_symmetric(query: Seq<char>, candidate: Seq<char>)
    ensures
        (family_spec(query) != family_spec(candidate)) == (family_spec(candidate) != family_spec(query)),
        family_spec(query) == family_spec(query),
{
}

} // verus!
