//! Checks of an evaluation dataset: each image comes with a metadata JSON naming its
//! material type, its colour space and grading-style tags from a controlled
//! vocabulary.

use vstd::prelude::*;
use crate::text::{
    concat, push_decimal, str_eq, to_lowercase, trim, unicode_lowercase, unicode_trim, decimal,
};

verus! {

broadcast use {vstd::string::group_string_axioms, vstd::seq_lib::group_to_multiset_ensures};

/// Views of a string sequence.
pub open spec fn strs_view(ss: Seq<String>) -> Seq<Seq<char>> {
    ss.map_values(|s: String| s@)
}

/// The built-in grading-style vocabulary.
pub open spec fn default_vocabulary_spec() -> Seq<Seq<char>> {
    seq![
        "high_contrast"@, "low_contrast"@, "medium_contrast"@,
        "warm"@, "cool"@, "neutral_temperature"@,
        "highly_saturated"@, "desaturated"@, "normal_saturation"@,
        "overexposed"@, "underexposed"@, "normal_exposure"@,
        "highlight_rolled"@, "shadow_crushed"@, "soft_tone"@, "harsh_tone"@,
        "green_cast"@, "magenta_cast"@, "blue_shift"@, "orange_shift"@,
        "film_emulation"@, "bleach_bypass"@, "cross_process"@, "monochrome"@,
        "teal_orange"@, "vintage"@, "modern_clean"@,
    ]
}

/// The built-in vocabulary holds the 27 grading-style tags: contrast, temperature,
/// saturation, exposure, tone, cast and look.
pub proof fn lemma_default_vocabulary()
    ensures
        default_vocabulary_spec().len() == 27,
        default_vocabulary_spec().contains("high_contrast"@),
        default_vocabulary_spec().contains("low_contrast"@),
        default_vocabulary_spec().contains("medium_contrast"@),
        default_vocabulary_spec().contains("warm"@),
        default_vocabulary_spec().contains("cool"@),
        default_vocabulary_spec().contains("neutral_temperature"@),
        default_vocabulary_spec().contains("highly_saturated"@),
        default_vocabulary_spec().contains("desaturated"@),
        default_vocabulary_spec().contains("normal_saturation"@),
        default_vocabulary_spec().contains("overexposed"@),
        default_vocabulary_spec().contains("underexposed"@),
        default_vocabulary_spec().contains("normal_exposure"@),
        default_vocabulary_spec().contains("highlight_rolled"@),
        default_vocabulary_spec().contains("shadow_crushed"@),
        default_vocabulary_spec().contains("soft_tone"@),
        default_vocabulary_spec().contains("harsh_tone"@),
        default_vocabulary_spec().contains("green_cast"@),
        default_vocabulary_spec().contains("magenta_cast"@),
        default_vocabulary_spec().contains("blue_shift"@),
        default_vocabulary_spec().contains("orange_shift"@),
        default_vocabulary_spec().contains("film_emulation"@),
        default_vocabulary_spec().contains("bleach_bypass"@),
        default_vocabulary_spec().contains("cross_process"@),
        default_vocabulary_spec().contains("monochrome"@),
        default_vocabulary_spec().contains("teal_orange"@),
        default_vocabulary_spec().contains("vintage"@),
        default_vocabulary_spec().contains("modern_clean"@),
{
    assert(default_vocabulary_spec()[0] == "high_contrast"@);
    assert(default_vocabulary_spec()[1] == "low_contrast"@);
    assert(default_vocabulary_spec()[2] == "medium_contrast"@);
    assert(default_vocabulary_spec()[3] == "warm"@);
    assert(default_vocabulary_spec()[4] == "cool"@);
    assert(default_vocabulary_spec()[5] == "neutral_temperature"@);
    assert(default_vocabulary_spec()[6] == "highly_saturated"@);
    assert(default_vocabulary_spec()[7] == "desaturated"@);
    assert(default_vocabulary_spec()[8] == "normal_saturation"@);
    assert(default_vocabulary_spec()[9] == "overexposed"@);
    assert(default_vocabulary_spec()[10] == "underexposed"@);
    assert(default_vocabulary_spec()[11] == "normal_exposure"@);
    assert(default_vocabulary_spec()[12] == "highlight_rolled"@);
    assert(default_vocabulary_spec()[13] == "shadow_crushed"@);
    assert(default_vocabulary_spec()[14] == "soft_tone"@);
    assert(default_vocabulary_spec()[15] == "harsh_tone"@);
    assert(default_vocabulary_spec()[16] == "green_cast"@);
    assert(default_vocabulary_spec()[17] == "magenta_cast"@);
    assert(default_vocabulary_spec()[18] == "blue_shift"@);
    assert(default_vocabulary_spec()[19] == "orange_shift"@);
    assert(default_vocabulary_spec()[20] == "film_emulation"@);
    assert(default_vocabulary_spec()[21] == "bleach_bypass"@);
    assert(default_vocabulary_spec()[22] == "cross_process"@);
    assert(default_vocabulary_spec()[23] == "monochrome"@);
    assert(default_vocabulary_spec()[24] == "teal_orange"@);
    assert(default_vocabulary_spec()[25] == "vintage"@);
    assert(default_vocabulary_spec()[26] == "modern_clean"@);
}

/// The built-in grading-style vocabulary, used when a dataset brings none.
pub fn default_vocabulary() -> (r: Vec<String>)
    ensures
        strs_view(r@) == default_vocabulary_spec(),
{
    let mut r: Vec<String> = Vec::new();
    r.push(String::from_str("high_contrast"));
    r.push(String::from_str("low_contrast"));
    r.push(String::from_str("medium_contrast"));
    r.push(String::from_str("warm"));
    r.push(String::from_str("cool"));
    r.push(String::from_str("neutral_temperature"));
    r.push(String::from_str("highly_saturated"));
    r.push(String::from_str("desaturated"));
    r.push(String::from_str("normal_saturation"));
    r.push(String::from_str("overexposed"));
    r.push(String::from_str("underexposed"));
    r.push(String::from_str("normal_exposure"));
    r.push(String::from_str("highlight_rolled"));
    r.push(String::from_str("shadow_crushed"));
    r.push(String::from_str("soft_tone"));
    r.push(String::from_str("harsh_tone"));
    r.push(String::from_str("green_cast"));
    r.push(String::from_str("magenta_cast"));
    r.push(String::from_str("blue_shift"));
    r.push(String::from_str("orange_shift"));
    r.push(String::from_str("film_emulation"));
    r.push(String::from_str("bleach_bypass"));
    r.push(String::from_str("cross_process"));
    r.push(String::from_str("monochrome"));
    r.push(String::from_str("teal_orange"));
    r.push(String::from_str("vintage"));
    r.push(String::from_str("modern_clean"));
    assert(strs_view(r@) =~= default_vocabulary_spec());
    r
}

/// The key under which two vocabulary entries count as the same: trimmed and lower-cased.
pub open spec fn vocab_key(t: Seq<char>) -> Seq<char> {
    unicode_lowercase(unicode_trim(t))
}

/// Keys of the entries kept so far, and the kept entries (trimmed), scanning in order:
/// a non-empty entry is kept when its key was not seen before.
pub open spec fn dedup_state(tags: Seq<Seq<char>>) -> (Seq<Seq<char>>, Seq<Seq<char>>)
    decreases tags.len(),
{
    if tags.len() == 0 {
        (Seq::empty(), Seq::empty())
    } else {
        let prev = dedup_state(tags.drop_last());
        let t = tags.last();
        if t.len() > 0 && !prev.0.contains(vocab_key(t)) {
            (prev.0.push(vocab_key(t)), prev.1.push(unicode_trim(t)))
        } else {
            prev
        }
    }
}

/// A vocabulary with duplicates (by key) and empty entries dropped, entries trimmed.
pub open spec fn dedup_vocabulary_spec(tags: Seq<Seq<char>>) -> Seq<Seq<char>> {
    dedup_state(tags).1
}

/// Whether `v` holds a string with the characters `s`.
fn contains_str(v: &Vec<String>, s: &str) -> (r: bool)
    ensures
        r == strs_view(v@).contains(s@),
{
    let mut i: usize = 0;
    while i < v.len()
        invariant
            i <= v@.len(),
            forall|k: int| 0 <= k < i ==> strs_view(v@)[k] != s@,
        decreases v@.len() - i,
    {
        if str_eq(v[i].as_str(), s) {
            assert(strs_view(v@)[i as int] == s@);
            return true;
        }
        i = i + 1;
    }
    false
}

/// Drop empty entries and entries whose trimmed, lower-cased form was seen before;
/// trim the entries kept.
pub fn dedup_vocabulary(tags: &Vec<String>) -> (r: Vec<String>)
    ensures
        strs_view(r@) == dedup_vocabulary_spec(strs_view(tags@)),
{
    let ghost all = strs_view(tags@);
    let mut keys: Vec<String> = Vec::new();
    let mut out: Vec<String> = Vec::new();
    let mut i: usize = 0;
    while i < tags.len()
        invariant
            i <= tags@.len(),
            all == strs_view(tags@),
            strs_view(keys@) == dedup_state(all.take(i as int)).0,
            strs_view(out@) == dedup_state(all.take(i as int)).1,
        decreases tags@.len() - i,
    {
        proof {
            assert(all.take(i + 1).drop_last() =~= all.take(i as int));
            assert(all.take(i + 1).last() == all[i as int]);
        }
        let t = tags[i].as_str();
        if !t.is_empty() {
            let trimmed = trim(t);
            let key = to_lowercase(trimmed);
            if !contains_str(&keys, key.as_str()) {
                keys.push(key);
                out.push(String::from_str(trimmed));
                proof {
                    assert(strs_view(keys@) =~= dedup_state(all.take(i + 1)).0);
                    assert(strs_view(out@) =~= dedup_state(all.take(i + 1)).1);
                }
            }
        }
        i = i + 1;
    }
    assert(all.take(tags@.len() as int) =~= all);
    out
}

/// The vocabulary of a dataset: the parsed entries, deduplicated, or the built-in one
/// when none could be read.
pub fn vocabulary_from(parsed: Option<Vec<String>>) -> (r: Vec<String>)
    ensures
        parsed is None ==> strs_view(r@) == default_vocabulary_spec(),
        parsed matches Some(tags) ==> strs_view(r@) == dedup_vocabulary_spec(strs_view(tags@)),
{
    match parsed {
        None => default_vocabulary(),
        Some(tags) => dedup_vocabulary(&tags),
    }
}

/// The keys kept never repeat.
pub proof fn lemma_dedup_keys_distinct(tags: Seq<Seq<char>>)
    ensures
        dedup_state(tags).0.no_duplicates(),
        dedup_state(tags).0.len() == dedup_state(tags).1.len(),
        dedup_state(tags).1.len() <= tags.len(),
    decreases tags.len(),
{
    if tags.len() > 0 {
        lemma_dedup_keys_distinct(tags.drop_last());
    }
}

/// Every non-empty entry is represented: its key is among the kept keys.
pub proof fn lemma_dedup_keeps_every_key(tags: Seq<Seq<char>>, i: int)
    requires
        0 <= i < tags.len(),
        tags[i].len() > 0,
    ensures
        dedup_state(tags).0.contains(vocab_key(tags[i])),
    decreases tags.len(),
{
    let prev = dedup_state(tags.drop_last());
    if i < tags.len() - 1 {
        lemma_dedup_keeps_every_key(tags.drop_last(), i);
        if tags.last().len() > 0 && !prev.0.contains(vocab_key(tags.last())) {
            let j = choose|j: int| 0 <= j < prev.0.len() && prev.0[j] == vocab_key(tags[i]);
            assert(dedup_state(tags).0[j] == vocab_key(tags[i]));
        }
    } else {
        if !prev.0.contains(vocab_key(tags.last())) {
            assert(dedup_state(tags).0.last() == vocab_key(tags[i]));
        }
    }
}

/// Material types a dataset entry may declare.
pub open spec fn valid_material_type(m: Seq<char>) -> bool {
    m == "dpx"@ || m == "exr"@ || m == "mov"@
}

/// Colour spaces a dataset entry may declare.
pub open spec fn valid_color_space(c: Seq<char>) -> bool {
    c == "srgb"@ || c == "acescct"@ || c == "linear"@ || c == "rec709"@ || c == "log"@
}

/// The message for an unknown material type.
pub open spec fn material_error(m: Seq<char>) -> Seq<char> {
    "unknown material_type: "@ + m + " (expected one of: dpx, exr, mov)"@
}

/// The message for an unknown colour space.
pub open spec fn color_space_error(c: Seq<char>) -> Seq<char> {
    "unknown color_space: "@ + c + " (expected one of: srgb, acescct, linear, rec709, log)"@
}

/// The message for a tag outside the vocabulary.
pub open spec fn tag_error(t: Seq<char>) -> Seq<char> {
    "unknown grading_style_tag: '"@ + t + "' (not in controlled vocabulary)"@
}

/// Messages for the tags outside the vocabulary, in order.
pub open spec fn unknown_tag_errors(tags: Seq<Seq<char>>, vocab: Seq<Seq<char>>) -> Seq<Seq<char>>
    decreases tags.len(),
{
    if tags.len() == 0 {
        Seq::empty()
    } else {
        let prev = unknown_tag_errors(tags.drop_last(), vocab);
        if vocab.contains(tags.last()) {
            prev
        } else {
            prev.push(tag_error(tags.last()))
        }
    }
}

/// All problems of an entry's metadata, in the order they are reported.
pub open spec fn metadata_errors_spec(
    material: Seq<char>,
    color_space: Seq<char>,
    tags: Seq<Seq<char>>,
    vocab: Seq<Seq<char>>,
) -> Seq<Seq<char>> {
    (if valid_material_type(material) {
        Seq::empty()
    } else {
        seq![material_error(material)]
    }) + (if valid_color_space(color_space) {
        Seq::empty()
    } else {
        seq![color_space_error(color_space)]
    }) + (if tags.len() == 0 {
        seq!["grading_style_tags is empty"@]
    } else {
        Seq::empty()
    }) + unknown_tag_errors(tags, vocab)
}

/// No tag error is reported exactly when every tag is in the vocabulary.
pub proof fn lemma_unknown_tags_none(tags: Seq<Seq<char>>, vocab: Seq<Seq<char>>)
    ensures
        unknown_tag_errors(tags, vocab).len() == 0 <==> forall|i: int| 0 <= i < tags.len() ==> vocab.contains(
            #[trigger] tags[i],
        ),
    decreases tags.len(),
{
    if tags.len() > 0 {
        lemma_unknown_tags_none(tags.drop_last(), vocab);
        if forall|i: int| 0 <= i < tags.len() ==> vocab.contains(#[trigger] tags[i]) {
            assert forall|i: int| 0 <= i < tags.drop_last().len() implies vocab.contains(#[trigger] tags.drop_last()[i]) by {
                assert(tags.drop_last()[i] == tags[i]);
            }
            assert(vocab.contains(tags[tags.len() - 1]));
        }
        if unknown_tag_errors(tags, vocab).len() == 0 {
            assert(vocab.contains(tags.last()));
            assert forall|i: int| 0 <= i < tags.len() implies vocab.contains(#[trigger] tags[i]) by {
                if i < tags.len() - 1 {
                    assert(tags.drop_last()[i] == tags[i]);
                }
            }
        }
    }
}

/// An entry's metadata has no problem exactly when its material type is one of dpx,
/// exr and mov, its colour space one of srgb, acescct, linear, rec709 and log (the
/// ones the error text lists), it has at least one tag, and every tag is in the
/// vocabulary.
pub proof fn lemma_metadata_clean(material: Seq<char>, color_space: Seq<char>, tags: Seq<Seq<char>>, vocab: Seq<Seq<char>>)
    ensures
        metadata_errors_spec(material, color_space, tags, vocab).len() == 0 <==> ((material == "dpx"@ || material
            == "exr"@ || material == "mov"@) && (color_space == "srgb"@ || color_space == "acescct"@ || color_space
            == "linear"@ || color_space == "rec709"@ || color_space == "log"@) && tags.len() > 0 && forall|i: int|
            0 <= i < tags.len() ==> vocab.contains(#[trigger] tags[i])),
        !(color_space == "srgb"@ || color_space == "acescct"@ || color_space == "linear"@ || color_space
            == "rec709"@ || color_space == "log"@) ==> metadata_errors_spec(material, color_space, tags, vocab).contains(
            "unknown color_space: "@ + color_space + " (expected one of: srgb, acescct, linear, rec709, log)"@),
        !(material == "dpx"@ || material == "exr"@ || material == "mov"@) ==> metadata_errors_spec(
            material, color_space, tags, vocab)[0] == "unknown material_type: "@ + material
            + " (expected one of: dpx, exr, mov)"@,
{
    lemma_unknown_tags_none(tags, vocab);
    let a: Seq<Seq<char>> = if valid_material_type(material) { Seq::empty() } else { seq![material_error(material)] };
    let b: Seq<Seq<char>> = if valid_color_space(color_space) { Seq::empty() } else { seq![color_space_error(color_space)] };
    if !valid_color_space(color_space) {
        assert(metadata_errors_spec(material, color_space, tags, vocab)[a.len() as int] == color_space_error(color_space));
    }
}

/// Metadata of one dataset entry.
#[derive(Debug, Clone)]
pub struct EntryMetadata {
    pub material_type: String,
    pub color_space: String,
    pub grading_style_tags: Vec<String>,
}

/// What reading an entry's metadata file gave.
#[derive(Debug, Clone)]
pub enum MetadataRead {
    /// No metadata file next to the image; the path it was looked for at.
    Missing(String),
    /// The file could not be read; the reason.
    Unreadable(String),
    /// The file is not valid metadata JSON; the reason.
    Malformed(String),
    /// The metadata it holds.
    Parsed(EntryMetadata),
}

/// Outcome of checking one entry.
#[derive(Debug, Clone)]
pub struct EntryResult {
    pub image: String,
    pub status: String,
    pub errors: Vec<String>,
}

/// The errors an entry gets for what reading its metadata gave.
pub open spec fn entry_errors_spec(read: MetadataRead, vocab: Seq<Seq<char>>) -> Seq<Seq<char>> {
    match read {
        MetadataRead::Missing(p) => seq!["missing metadata JSON: "@ + p@],
        MetadataRead::Unreadable(e) => seq!["cannot read metadata JSON: "@ + e@],
        MetadataRead::Malformed(e) => seq!["invalid metadata JSON: "@ + e@],
        MetadataRead::Parsed(m) => metadata_errors_spec(
            m.material_type@,
            m.color_space@,
            strs_view(m.grading_style_tags@),
            vocab,
        ),
    }
}

/// "valid" when there is no error, "invalid" otherwise.
pub open spec fn status_of(errors: Seq<Seq<char>>) -> Seq<char> {
    if errors.len() == 0 {
        "valid"@
    } else {
        "invalid"@
    }
}

fn is_valid_material_type(m: &str) -> (r: bool)
    ensures
        r == valid_material_type(m@),
{
    str_eq(m, "dpx") || str_eq(m, "exr") || str_eq(m, "mov")
}

fn is_valid_color_space(c: &str) -> (r: bool)
    ensures
        r == valid_color_space(c@),
{
    str_eq(c, "srgb") || str_eq(c, "acescct") || str_eq(c, "linear") || str_eq(c, "rec709")
        || str_eq(c, "log")
}

/// All problems of an entry's metadata.
pub fn metadata_errors(meta: &EntryMetadata, vocabulary: &Vec<String>) -> (r: Vec<String>)
    ensures
        strs_view(r@) == metadata_errors_spec(
            meta.material_type@,
            meta.color_space@,
            strs_view(meta.grading_style_tags@),
            strs_view(vocabulary@),
        ),
{
    let ghost vocab = strs_view(vocabulary@);
    let ghost tags = strs_view(meta.grading_style_tags@);
    let mut errors: Vec<String> = Vec::new();
    if !is_valid_material_type(meta.material_type.as_str()) {
        let a = concat("unknown material_type: ", meta.material_type.as_str());
        errors.push(concat(a.as_str(), " (expected one of: dpx, exr, mov)"));
    }
    if !is_valid_color_space(meta.color_space.as_str()) {
        let a = concat("unknown color_space: ", meta.color_space.as_str());
        errors.push(concat(a.as_str(), " (expected one of: srgb, acescct, linear, rec709, log)"));
    }
    if meta.grading_style_tags.len() == 0 {
        errors.push(String::from_str("grading_style_tags is empty"));
    }
    let ghost head = strs_view(errors@);
    assert(head =~= metadata_errors_spec(
        meta.material_type@,
        meta.color_space@,
        tags,
        vocab,
    ).take(head.len() as int)) by {
        assert(unknown_tag_errors(tags, vocab).len() >= 0);
    }
    let n = meta.grading_style_tags.len();
    let mut i: usize = 0;
    assert(tags.take(0) =~= Seq::<Seq<char>>::empty());
    while i < n
        invariant
            n == tags.len(),
            i <= n,
            tags == strs_view(meta.grading_style_tags@),
            vocab == strs_view(vocabulary@),
            strs_view(errors@) == head + unknown_tag_errors(tags.take(i as int), vocab),
        decreases n - i,
    {
        proof {
            assert(tags.take(i + 1).drop_last() =~= tags.take(i as int));
            assert(tags.take(i + 1).last() == tags[i as int]);
        }
        let tag = meta.grading_style_tags[i].as_str();
        assert(tag@ == tags[i as int]);
        if !contains_str(vocabulary, tag) {
            let ghost prev = unknown_tag_errors(tags.take(i as int), vocab);
            assert(unknown_tag_errors(tags.take(i + 1), vocab) == prev.push(tag_error(tags[i as int])));
            let a = concat("unknown grading_style_tag: '", tag);
            let msg = concat(a.as_str(), "' (not in controlled vocabulary)");
            assert(msg@ =~= tag_error(tags[i as int]));
            let ghost old_e = strs_view(errors@);
            errors.push(msg);
            proof {
                assert(strs_view(errors@) =~= old_e.push(tag_error(tags[i as int])));
                assert(strs_view(errors@) =~= head + unknown_tag_errors(tags.take(i + 1), vocab));
            }
        }
        i = i + 1;
    }
    assert(tags.take(n as int) =~= tags);
    proof {
        let full = metadata_errors_spec(meta.material_type@, meta.color_space@, tags, vocab);
        assert(strs_view(errors@) =~= full);
    }
    errors
}

/// Check one entry given what reading its metadata gave.
pub fn validate_entry(image: String, read: MetadataRead, vocabulary: &Vec<String>) -> (r:
    EntryResult)
    ensures
        r.image@ == image@,
        strs_view(r.errors@) == entry_errors_spec(read, strs_view(vocabulary@)),
        r.status@ == status_of(entry_errors_spec(read, strs_view(vocabulary@))),
        r.errors@.len() == 0 ==> r.status@ == "valid"@,
        r.errors@.len() > 0 ==> r.status@ == "invalid"@,
        !(read is Parsed) ==> r.errors@.len() == 1,
        read matches MetadataRead::Parsed(m) ==> (r.errors@.len() == 0 <==> ((m.material_type@ == "dpx"@
            || m.material_type@ == "exr"@ || m.material_type@ == "mov"@) && (m.color_space@ == "srgb"@
            || m.color_space@ == "acescct"@ || m.color_space@ == "linear"@ || m.color_space@ == "rec709"@
            || m.color_space@ == "log"@) && m.grading_style_tags@.len() > 0 && forall|i: int|
            0 <= i < m.grading_style_tags@.len() ==> strs_view(vocabulary@).contains(
            #[trigger] m.grading_style_tags@[i]@))),
{
    let ghost rd = read;
    proof {
        match rd {
            MetadataRead::Parsed(m) => {
                let tags = strs_view(m.grading_style_tags@);
                lemma_metadata_clean(m.material_type@, m.color_space@, tags, strs_view(vocabulary@));
                let vocab = strs_view(vocabulary@);
                assert((forall|i: int| 0 <= i < tags.len() ==> vocab.contains(#[trigger] tags[i])) <==> (forall|i: int|
                    0 <= i < m.grading_style_tags@.len() ==> vocab.contains(#[trigger] m.grading_style_tags@[i]@))) by {
                    if forall|i: int| 0 <= i < tags.len() ==> vocab.contains(#[trigger] tags[i]) {
                        assert forall|i: int| 0 <= i < m.grading_style_tags@.len() implies vocab.contains(
                            #[trigger] m.grading_style_tags@[i]@) by {
                            assert(tags[i] == m.grading_style_tags@[i]@);
                        }
                    }
                    if forall|i: int| 0 <= i < m.grading_style_tags@.len() ==> vocab.contains(
                        #[trigger] m.grading_style_tags@[i]@) {
                        assert forall|i: int| 0 <= i < tags.len() implies vocab.contains(#[trigger] tags[i]) by {
                            assert(tags[i] == m.grading_style_tags@[i]@);
                        }
                    }
                }
            },
            _ => {},
        }
    }
    let mut errors: Vec<String> = Vec::new();
    match read {
        MetadataRead::Missing(p) => {
            errors.push(concat("missing metadata JSON: ", p.as_str()));
        },
        MetadataRead::Unreadable(e) => {
            errors.push(concat("cannot read metadata JSON: ", e.as_str()));
        },
        MetadataRead::Malformed(e) => {
            errors.push(concat("invalid metadata JSON: ", e.as_str()));
        },
        MetadataRead::Parsed(m) => {
            errors = metadata_errors(&m, vocabulary);
        },
    }
    assert(strs_view(errors@) =~= entry_errors_spec(rd, strs_view(vocabulary@)));
    let status = if errors.len() == 0 {
        String::from_str("valid")
    } else {
        String::from_str("invalid")
    };
    EntryResult { image, status, errors }
}

/// Whether a file extension marks a dataset image (`dpx` or `exr`, in any case).
pub fn is_dataset_image_extension(ext: &str) -> (r: bool)
    ensures
        r == (unicode_lowercase(ext@) == "dpx"@ || unicode_lowercase(ext@) == "exr"@),
{
    let e = to_lowercase(ext);
    str_eq(e.as_str(), "dpx") || str_eq(e.as_str(), "exr")
}

/// Counts of a dataset check.
#[derive(Debug, Clone, Copy, PartialEq, Eq, Structural)]
pub struct DatasetSummary {
    pub total: usize,
    pub valid: usize,
    pub invalid: usize,
}

/// Number of results whose status is "valid".
pub open spec fn count_valid(rs: Seq<EntryResult>) -> nat
    decreases rs.len(),
{
    if rs.len() == 0 {
        0
    } else {
        count_valid(rs.drop_last()) + if rs.last().status@ == "valid"@ {
            1nat
        } else {
            0nat
        }
    }
}

proof fn lemma_count_valid_bound(rs: Seq<EntryResult>)
    ensures
        count_valid(rs) <= rs.len(),
    decreases rs.len(),
{
    if rs.len() > 0 {
        lemma_count_valid_bound(rs.drop_last());
    }
}

/// Count the valid and invalid results.
pub fn summarize_entries(results: &Vec<EntryResult>) -> (r: DatasetSummary)
    ensures
        r.total == results@.len(),
        r.valid == count_valid(results@),
        r.invalid == results@.len() - count_valid(results@),
{
    let mut valid: usize = 0;
    let mut i: usize = 0;
    while i < results.len()
        invariant
            i <= results@.len(),
            valid == count_valid(results@.take(i as int)),
            valid <= i,
        decreases results@.len() - i,
    {
        proof {
            assert(results@.take(i + 1).drop_last() =~= results@.take(i as int));
        }
        if str_eq(results[i].status.as_str(), "valid") {
            valid = valid + 1;
        }
        i = i + 1;
    }
    assert(results@.take(results@.len() as int) =~= results@);
    DatasetSummary { total: results.len(), valid, invalid: results.len() - valid }
}

/// Why a dataset directory cannot be checked at all; each holds the directory named.
#[derive(Debug, Clone, PartialEq, Eq)]
pub enum DatasetError {
    /// The directory does not exist.
    DirNotFound(String),
    /// The directory holds no supported image.
    Empty(String),
}

impl DatasetError {
    /// The error code of the report.
    pub fn code(&self) -> (r: &'static str)
        ensures
            *self matches DatasetError::DirNotFound(_) ==> r@ == "DATASET_DIR_NOT_FOUND"@,
            *self matches DatasetError::Empty(_) ==> r@ == "DATASET_EMPTY"@,
    {
        match self {
            DatasetError::DirNotFound(_) => "DATASET_DIR_NOT_FOUND",
            DatasetError::Empty(_) => "DATASET_EMPTY",
        }
    }

    /// The text of the error.
    pub fn message(&self) -> (r: String)
        ensures
            *self matches DatasetError::DirNotFound(d) ==> r@ == "directory not found: "@ + d@,
            *self matches DatasetError::Empty(d) ==> r@ == "no supported image files found in: "@ + d@,
    {
        match self {
            DatasetError::DirNotFound(d) => concat("directory not found: ", d.as_str()),
            DatasetError::Empty(d) => concat("no supported image files found in: ", d.as_str()),
        }
    }

    /// Process exit status of a dataset that cannot be checked: 1.
    pub fn exit_code(&self) -> (r: i32)
        ensures
            r == 1,
    {
        1
    }
}

/// A dataset directory must exist.
pub fn check_dataset_dir(dir: &str, is_dir: bool) -> (r: Result<(), DatasetError>)
    ensures
        is_dir ==> r is Ok,
        !is_dir ==> (r matches Err(DatasetError::DirNotFound(d)) && d@ == dir@),
{
    if is_dir {
        Ok(())
    } else {
        Err(DatasetError::DirNotFound(String::from_str(dir)))
    }
}

/// A dataset directory must hold at least one supported image.
pub fn check_dataset_entries(dir: &str, entry_count: usize) -> (r: Result<(), DatasetError>)
    ensures
        entry_count > 0 ==> r is Ok,
        entry_count == 0 ==> (r matches Err(DatasetError::Empty(d)) && d@ == dir@),
{
    if entry_count > 0 {
        Ok(())
    } else {
        Err(DatasetError::Empty(String::from_str(dir)))
    }
}

/// The status of a checked dataset: "ok" when no entry is invalid, else "error".
pub fn dataset_status(summary: &DatasetSummary) -> (r: &'static str)
    ensures
        summary.invalid == 0 ==> r@ == "ok"@,
        summary.invalid > 0 ==> r@ == "error"@,
{
    if summary.invalid == 0 {
        "ok"
    } else {
        "error"
    }
}

/// Process exit status of a dataset check: 1 when an entry is invalid, 0 otherwise.
pub fn dataset_exit_code(summary: &DatasetSummary) -> (r: i32)
    ensures
        r == (if summary.invalid > 0 {
            1i32
        } else {
            0i32
        }),
{
    if summary.invalid > 0 {
        1
    } else {
        0
    }
}

/// The summary line of the text report.
pub open spec fn summary_line_spec(s: DatasetSummary) -> Seq<char> {
    "Summary: "@ + decimal(s.total as nat) + " total, "@ + decimal(s.valid as nat) + " valid, "@
        + decimal(s.invalid as nat) + " invalid"@
}

/// The summary line of the text report.
pub fn dataset_summary_line(s: &DatasetSummary) -> (r: String)
    ensures
        r@ == summary_line_spec(*s),
{
    let mut line = String::from_str("Summary: ");
    push_decimal(&mut line, s.total as u64);
    line.append(" total, ");
    push_decimal(&mut line, s.valid as u64);
    line.append(" valid, ");
    push_decimal(&mut line, s.invalid as u64);
    line.append(" invalid");
    line
}

/// Whether `a` sorts before `b` or equals it: compared character by character by code
/// point, a proper prefix first (the order of UTF-8 byte strings).
pub open spec fn text_le(a: Seq<char>, b: Seq<char>) -> bool
    decreases a.len(),
{
    if a.len() == 0 {
        true
    } else if b.len() == 0 {
        false
    } else if a[0] != b[0] {
        a[0] < b[0]
    } else {
        text_le(a.drop_first(), b.drop_first())
    }
}

/// Any two texts are ordered one way or the other.
pub proof fn lemma_text_le_total(a: Seq<char>, b: Seq<char>)
    ensures
        text_le(a, b) || text_le(b, a),
    decreases a.len(),
{
    if a.len() > 0 && b.len() > 0 && a[0] == b[0] {
        lemma_text_le_total(a.drop_first(), b.drop_first());
    }
}

/// The order is transitive.
pub proof fn lemma_text_le_transitive(a: Seq<char>, b: Seq<char>, c: Seq<char>)
    requires
        text_le(a, b),
        text_le(b, c),
    ensures
        text_le(a, c),
    decreases a.len(),
{
    if a.len() > 0 && b.len() > 0 && c.len() > 0 && a[0] == b[0] && b[0] == c[0] {
        lemma_text_le_transitive(a.drop_first(), b.drop_first(), c.drop_first());
    }
}

fn text_le_exec(a: &str, b: &str) -> (r: bool)
    ensures
        r == text_le(a@, b@),
{
    let x = crate::text::str_chars(a);
    let y = crate::text::str_chars(b);
    let mut i: usize = 0;
    assert(x@.skip(0) =~= x@);
    assert(y@.skip(0) =~= y@);
    while i < x.len() && i < y.len() && x[i] == y[i]
        invariant
            i <= x@.len(),
            i <= y@.len(),
            x@ == a@,
            y@ == b@,
            text_le(a@, b@) == text_le(x@.skip(i as int), y@.skip(i as int)),
        decreases x@.len() - i,
    {
        proof {
            assert(x@.skip(i as int).drop_first() =~= x@.skip(i + 1));
            assert(y@.skip(i as int).drop_first() =~= y@.skip(i + 1));
        }
        i = i + 1;
    }
    if i == x.len() {
        true
    } else if i == y.len() {
        false
    } else {
        x[i] < y[i]
    }
}

/// Whether texts are in order.
pub open spec fn texts_sorted(v: Seq<Seq<char>>) -> bool {
    forall|i: int, j: int| 0 <= i < j < v.len() ==> text_le(v[i], v[j])
}

/// The names in order (character by character, by code point), a permutation of
/// the input.
pub fn sort_names(names: Vec<String>) -> (r: Vec<String>)
    ensures
        texts_sorted(strs_view(r@)),
        strs_view(r@).to_multiset() == strs_view(names@).to_multiset(),
{
    let ghost orig = strs_view(names@);
    let mut rest = names;
    let mut out: Vec<String> = Vec::new();
    let n = rest.len();
    let mut i: usize = 0;
    assert(orig.take(0) =~= Seq::<Seq<char>>::empty());
    while i < n
        invariant
            n == orig.len(),
            i <= n,
            strs_view(rest@) == orig.skip(i as int),
            rest@.len() == n - i,
            texts_sorted(strs_view(out@)),
            strs_view(out@).to_multiset() == orig.take(i as int).to_multiset(),
        decreases n - i,
    {
        let ghost old_rest = rest@;
        let item = rest.remove(0);
        let ghost iv = item@;
        proof {
            assert(strs_view(old_rest)[0] == iv);
            assert(orig.skip(i as int)[0] == orig[i as int]);
            assert forall|k: int| 0 <= k < strs_view(rest@).len() implies strs_view(rest@)[k] == orig.skip(i + 1)[k] by {
                assert(rest@[k] == old_rest[k + 1]);
                assert(strs_view(old_rest)[k + 1] == orig.skip(i as int)[k + 1]);
            }
            assert(strs_view(rest@) =~= orig.skip(i + 1));
            assert(orig.take(i + 1) =~= orig.take(i as int).push(iv));
        }
        let mut p: usize = 0;
        while p < out.len() && text_le_exec(out[p].as_str(), item.as_str())
            invariant
                p <= out@.len(),
                iv == item@,
                forall|k: int| 0 <= k < p ==> text_le(strs_view(out@)[k], iv),
            decreases out@.len() - p,
        {
            p = p + 1;
        }
        let ghost before = strs_view(out@);
        proof {
            if p < out@.len() {
                lemma_text_le_total(before[p as int], iv);
            }
        }
        out.insert(p, item);
        proof {
            assert(strs_view(out@) =~= before.insert(p as int, iv));
            assert forall|a: int, b: int| 0 <= a < b < strs_view(out@).len() implies text_le(strs_view(out@)[a], strs_view(out@)[b]) by {
                let o = strs_view(out@);
                if a < p && b == p {
                } else if a == p && b > p {
                    if b - 1 > p {
                        lemma_text_le_transitive(iv, before[p as int], before[b - 1]);
                    }
                } else if a < p && b > p {
                } else if a > p {
                } else {
                }
            }
        }
        i = i + 1;
    }
    assert(orig.take(n as int) =~= orig);
    out
}

} // verus!
