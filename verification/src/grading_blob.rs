//! Byte layout of stored grading features.
//!
//! Grading features (three Oklab histograms and twelve colour moments) are stored as
//! little-endian 8-byte words. The values are carried here as their IEEE-754 bit
//! patterns (`f64::to_bits`), which is all the storage format reads.

use vstd::prelude::*;
use vstd::bytes::{spec_u64_to_le_bytes, spec_u64_from_le_bytes, u64_to_le_bytes, u64_from_le_bytes};
use vstd::slice::slice_subrange;
use crate::color_space::ColorScienceError;
use crate::text::{push_decimal, decimal};

verus! {

broadcast use vstd::string::group_string_axioms;

/// Number of colour moments (mean, stddev, skewness, kurtosis for L, a, b).
pub const MOMENTS_COUNT: usize = 12;

/// Default number of histogram bins per channel.
pub const HIST_BINS: usize = 64;

/// Grading features as stored: the bit patterns of each histogram bin and moment.
#[derive(Debug, Clone, PartialEq, Eq)]
pub struct GradingFeatureBits {
    pub hist_l: Vec<u64>,
    pub hist_a: Vec<u64>,
    pub hist_b: Vec<u64>,
    pub moments: [u64; 12],
}

/// The little-endian encoding of a sequence of words, one after another.
pub open spec fn words_le(w: Seq<u64>) -> Seq<u8>
    decreases w.len(),
{
    if w.len() == 0 {
        Seq::empty()
    } else {
        words_le(w.drop_last()) + spec_u64_to_le_bytes(w.last())
    }
}

/// The `n` words read little-endian from consecutive 8-byte groups of `b`.
pub open spec fn words_from_le(b: Seq<u8>, n: nat) -> Seq<u64> {
    Seq::new(n, |i: int| spec_u64_from_le_bytes(b.subrange(8 * i, 8 * i + 8)))
}

impl GradingFeatureBits {
    /// Histograms of equal length (the shape every encoder and decoder keeps).
    pub open spec fn well_formed(&self) -> bool {
        &&& self.hist_a@.len() == self.hist_l@.len()
        &&& self.hist_b@.len() == self.hist_l@.len()
    }

    /// The combined BLOB: L, a and b histograms, then the moments.
    pub open spec fn spec_blob(&self) -> Seq<u8> {
        words_le(self.hist_l@) + words_le(self.hist_a@) + words_le(self.hist_b@) + words_le(
            self.moments@,
        )
    }

    /// Number of bins in each histogram channel (that of the L channel).
    pub fn hist_bins(&self) -> (r: usize)
        ensures
            r == self.hist_l@.len(),
    {
        self.hist_l.len()
    }

    /// BLOB size of one histogram channel: bins times eight bytes.
    pub fn channel_blob_size(&self) -> (r: usize)
        requires
            self.hist_l@.len() * 8 <= usize::MAX,
        ensures
            r == self.hist_l@.len() * 8,
    {
        self.hist_l.len() * 8
    }

    /// BLOB size of the moments: twelve words of eight bytes.
    pub fn moments_blob_size() -> (r: usize)
        ensures
            r == 96,
    {
        MOMENTS_COUNT * 8
    }

    /// Total BLOB size: three channels of bins times eight bytes, plus the moments.
    pub fn total_blob_size(&self) -> (r: usize)
        requires
            3 * self.hist_l@.len() * 8 + 96 <= usize::MAX,
        ensures
            r == 3 * self.hist_l@.len() * 8 + 96,
    {
        3 * self.hist_l.len() * 8 + MOMENTS_COUNT * 8
    }

    /// Serialize to the combined little-endian BLOB (no header, no padding).
    pub fn to_blob(&self) -> (r: Vec<u8>)
        requires
            self.well_formed(),
            3 * self.hist_l@.len() * 8 + 96 <= usize::MAX,
        ensures
            r@ == self.spec_blob(),
            r@.len() == 3 * self.hist_l@.len() * 8 + 96,
    {
        proof {
            lemma_words_le_len(self.hist_l@);
            lemma_words_le_len(self.hist_a@);
            lemma_words_le_len(self.hist_b@);
            lemma_words_le_len(self.moments@);
        }
        let mut blob: Vec<u8> = Vec::new();
        write_words(&mut blob, self.hist_l.as_slice());
        write_words(&mut blob, self.hist_a.as_slice());
        write_words(&mut blob, self.hist_b.as_slice());
        write_words(&mut blob, self.moments.as_slice());
        blob
    }

    /// Serialize the L-channel histogram.
    pub fn hist_l_blob(&self) -> (r: Vec<u8>)
        ensures
            r@ == words_le(self.hist_l@),
    {
        let mut blob: Vec<u8> = Vec::new();
        write_words(&mut blob, self.hist_l.as_slice());
        blob
    }

    /// Serialize the a-channel histogram.
    pub fn hist_a_blob(&self) -> (r: Vec<u8>)
        ensures
            r@ == words_le(self.hist_a@),
    {
        let mut blob: Vec<u8> = Vec::new();
        write_words(&mut blob, self.hist_a.as_slice());
        blob
    }

    /// Serialize the b-channel histogram.
    pub fn hist_b_blob(&self) -> (r: Vec<u8>)
        ensures
            r@ == words_le(self.hist_b@),
    {
        let mut blob: Vec<u8> = Vec::new();
        write_words(&mut blob, self.hist_b.as_slice());
        blob
    }

    /// Serialize the twelve moments (96 bytes).
    pub fn moments_blob(&self) -> (r: Vec<u8>)
        ensures
            r@ == words_le(self.moments@),
            r@.len() == 96,
    {
        proof {
            lemma_words_le_len(self.moments@);
        }
        let mut blob: Vec<u8> = Vec::new();
        write_words(&mut blob, self.moments.as_slice());
        blob
    }
}

/// Whether every feature set has the bin count of the first.
pub open spec fn same_bins(bins: Seq<usize>) -> bool {
    forall|i: int| 0 <= i < bins.len() ==> #[trigger] bins[i] == bins[0]
}

/// The bin count that feature sets share, given each set's count: features can be
/// averaged only where there is at least one and all have the same bins.
pub fn common_bins(bins: &[usize]) -> (r: Option<usize>)
    ensures
        bins@.len() == 0 ==> r is None,
        bins@.len() > 0 && same_bins(bins@) ==> r == Some(bins@[0]),
        bins@.len() > 0 && !same_bins(bins@) ==> r is None,
{
    if bins.len() == 0 {
        return None;
    }
    let first = bins[0];
    let mut i: usize = 1;
    while i < bins.len()
        invariant
            1 <= i <= bins@.len(),
            first == bins@[0],
            forall|k: int| 0 <= k < i ==> #[trigger] bins@[k] == first,
        decreases bins@.len() - i,
    {
        if bins[i] != first {
            return None;
        }
        i = i + 1;
    }
    Some(first)
}

/// The length of an encoding is eight bytes per word.
pub proof fn lemma_words_le_len(w: Seq<u64>)
    ensures
        words_le(w).len() == 8 * w.len(),
    decreases w.len(),
{
    if w.len() > 0 {
        lemma_words_le_len(w.drop_last());
        vstd::bytes::lemma_auto_spec_u64_to_from_le_bytes();
    }
}

/// Each word occupies its own 8-byte group of the encoding.
pub proof fn lemma_words_le_group(w: Seq<u64>, i: int)
    requires
        0 <= i < w.len(),
    ensures
        words_le(w).subrange(8 * i, 8 * i + 8) == spec_u64_to_le_bytes(w[i]),
    decreases w.len(),
{
    vstd::bytes::lemma_auto_spec_u64_to_from_le_bytes();
    lemma_words_le_len(w.drop_last());
    if i == w.len() - 1 {
        assert(words_le(w).subrange(8 * i, 8 * i + 8) =~= spec_u64_to_le_bytes(w[i]));
    } else {
        lemma_words_le_group(w.drop_last(), i);
        assert(words_le(w).subrange(8 * i, 8 * i + 8) =~= words_le(w.drop_last()).subrange(
            8 * i,
            8 * i + 8,
        ));
    }
}

/// Decoding an encoding gives back the words.
pub proof fn lemma_decode_encode(w: Seq<u64>)
    ensures
        words_from_le(words_le(w), w.len()) == w,
{
    vstd::bytes::lemma_auto_spec_u64_to_from_le_bytes();
    assert forall|i: int| 0 <= i < w.len() implies #[trigger] words_from_le(words_le(w), w.len())[i]
        == w[i] by {
        lemma_words_le_group(w, i);
    }
    assert(words_from_le(words_le(w), w.len()) =~= w);
}

/// Encoding the words decoded from exactly `8 * n` bytes gives back the bytes.
pub proof fn lemma_encode_decode(b: Seq<u8>, n: nat)
    requires
        b.len() == 8 * n,
    ensures
        words_le(words_from_le(b, n)) == b,
    decreases n,
{
    vstd::bytes::lemma_auto_spec_u64_to_from_le_bytes();
    if n > 0 {
        let m = (n - 1) as nat;
        let prefix = b.subrange(0, 8 * (m as int));
        lemma_encode_decode(prefix, m);
        let w = words_from_le(b, n);
        assert(w.drop_last() =~= words_from_le(prefix, m)) by {
            assert forall|i: int| 0 <= i < m implies #[trigger] w.drop_last()[i]
                == words_from_le(prefix, m)[i] by {
                assert(b.subrange(8 * i, 8 * i + 8) =~= prefix.subrange(8 * i, 8 * i + 8));
            }
        }
        let last = b.subrange(8 * (m as int), 8 * (m as int) + 8);
        assert(spec_u64_to_le_bytes(w.last()) == last);
        assert(words_le(w) =~= b);
    } else {
        assert(words_le(words_from_le(b, n)) =~= b);
    }
}

/// Append the little-endian encoding of each word.
fn write_words(blob: &mut Vec<u8>, words: &[u64])
    ensures
        final(blob)@ == old(blob)@ + words_le(words@),
{
    let mut i: usize = 0;
    while i < words.len()
        invariant
            i <= words@.len(),
            blob@ == old(blob)@ + words_le(words@.take(i as int)),
        decreases words@.len() - i,
    {
        let bytes = u64_to_le_bytes(words[i]);
        let mut k: usize = 0;
        let ghost before = blob@;
        while k < 8
            invariant
                k <= 8,
                bytes@.len() == 8,
                blob@ == before + bytes@.take(k as int),
            decreases 8 - k,
        {
            blob.push(bytes[k]);
            assert(bytes@.take(k as int).push(bytes@[k as int]) =~= bytes@.take(k + 1));
            k = k + 1;
        }
        assert(bytes@.take(8) =~= bytes@);
        assert(words@.take(i + 1).drop_last() =~= words@.take(i as int));
        assert(blob@ =~= old(blob)@ + words_le(words@.take(i + 1)));
        i = i + 1;
    }
    assert(words@.take(words@.len() as int) =~= words@);
}

/// Read `n` words from `blob`, starting at byte `start`.
fn read_words(blob: &[u8], start: usize, n: usize) -> (r: Vec<u64>)
    requires
        start + 8 * n <= blob@.len(),
    ensures
        r@ == words_from_le(blob@.subrange(start as int, start + 8 * n), n as nat),
{
    let mut out: Vec<u64> = Vec::new();
    let mut i: usize = 0;
    let blen = blob.len();
    let ghost part = blob@.subrange(start as int, start + 8 * n);
    while i < n
        invariant
            i <= n,
            start + 8 * n <= blob@.len(),
            blen == blob@.len(),
            part == blob@.subrange(start as int, start + 8 * n),
            out@.len() == i,
            forall|j: int| 0 <= j < i ==> #[trigger] out@[j] == words_from_le(part, n as nat)[j],
        decreases n - i,
    {
        let off = start + 8 * i;
        let group = slice_subrange(blob, off, off + 8);
        assert(group@ =~= part.subrange(8 * i, 8 * i + 8));
        let word = u64_from_le_bytes(group);
        out.push(word);
        i = i + 1;
    }
    assert(out@ =~= words_from_le(part, n as nat));
    out
}

/// The text of a decode error for a wrong combined BLOB size.
pub open spec fn blob_size_error_text(expected: nat, bins: nat, got: nat) -> Seq<char> {
    "expected "@ + decimal(expected) + " bytes ("@ + decimal(bins) + " bins), got "@ + decimal(got)
}

/// The text of a decode error for a wrong single BLOB size.
pub open spec fn part_size_error_text(part: Seq<char>, expected: nat, got: nat) -> Seq<char> {
    part + " expected "@ + decimal(expected) + " bytes, got "@ + decimal(got)
}

/// The features decoded from a combined BLOB of the right size.
pub open spec fn decoded_blob(blob: Seq<u8>, bins: nat) -> (Seq<u64>, Seq<u64>, Seq<u64>, Seq<u64>) {
    let b = bins as int;
    (
        words_from_le(blob.subrange(0, 8 * b), bins),
        words_from_le(blob.subrange(8 * b, 16 * b), bins),
        words_from_le(blob.subrange(16 * b, 24 * b), bins),
        words_from_le(blob.subrange(24 * b, 24 * b + 96), 12),
    )
}

impl GradingFeatureBits {
    /// Deserialize the combined BLOB, which must hold exactly `3 * bins * 8 + 96` bytes.
    pub fn from_blob(blob: &[u8], hist_bins: usize) -> (r: Result<Self, ColorScienceError>)
        requires
            3 * hist_bins * 8 + 96 <= usize::MAX,
        ensures
            blob@.len() != 3 * hist_bins * 8 + 96 ==> (r matches Err(
                ColorScienceError::GradingFeatureDecodeError(m),
            ) && m@ == blob_size_error_text(
                (3 * hist_bins * 8 + 96) as nat,
                hist_bins as nat,
                blob@.len(),
            )),
            blob@.len() == 3 * hist_bins * 8 + 96 ==> (r matches Ok(g) && g.well_formed() && (
            g.hist_l@, g.hist_a@, g.hist_b@, g.moments@) == decoded_blob(blob@, hist_bins as nat)),
    {
        let expected = 3 * hist_bins * 8 + MOMENTS_COUNT * 8;
        if blob.len() != expected {
            let mut s = String::from_str("expected ");
            push_decimal(&mut s, expected as u64);
            s.append(" bytes (");
            push_decimal(&mut s, hist_bins as u64);
            s.append(" bins), got ");
            push_decimal(&mut s, blob.len() as u64);
            return Err(ColorScienceError::GradingFeatureDecodeError(s));
        }
        let b = hist_bins;
        let hist_l = read_words(blob, 0, b);
        let hist_a = read_words(blob, 8 * b, b);
        let hist_b = read_words(blob, 16 * b, b);
        let mv = read_words(blob, 24 * b, 12);
        let moments: [u64; 12] = [mv[0], mv[1], mv[2], mv[3], mv[4], mv[5], mv[6], mv[7], mv[8],
            mv[9], mv[10], mv[11]];
        assert(moments@ =~= mv@);
        Ok(GradingFeatureBits { hist_l, hist_a, hist_b, moments })
    }
}


/// Build the decode error for one of the separate BLOBs.
fn part_size_error(part: &str, expected: usize, got: usize) -> (r: ColorScienceError)
    ensures
        r matches ColorScienceError::GradingFeatureDecodeError(m) && m@ == part_size_error_text(
            part@,
            expected as nat,
            got as nat,
        ),
{
    let mut s = String::from_str(part);
    s.append(" expected ");
    push_decimal(&mut s, expected as u64);
    s.append(" bytes, got ");
    push_decimal(&mut s, got as u64);
    ColorScienceError::GradingFeatureDecodeError(s)
}

impl GradingFeatureBits {
    /// Deserialize from four separate BLOBs: each histogram exactly `bins * 8` bytes,
    /// the moments exactly 96 bytes. The first BLOB of the wrong size, in the order
    /// L, a, b, moments, is reported.
    pub fn from_separate_blobs(
        hist_l: &[u8],
        hist_a: &[u8],
        hist_b: &[u8],
        moments: &[u8],
        hist_bins: usize,
    ) -> (r: Result<Self, ColorScienceError>)
        requires
            hist_bins * 8 <= usize::MAX,
        ensures
            hist_l@.len() != hist_bins * 8 ==> (r matches Err(
                ColorScienceError::GradingFeatureDecodeError(m),
            ) && m@ == part_size_error_text("hist_l"@, (hist_bins * 8) as nat, hist_l@.len())),
            hist_l@.len() == hist_bins * 8 && hist_a@.len() != hist_bins * 8 ==> (r matches Err(
                ColorScienceError::GradingFeatureDecodeError(m),
            ) && m@ == part_size_error_text("hist_a"@, (hist_bins * 8) as nat, hist_a@.len())),
            hist_l@.len() == hist_bins * 8 && hist_a@.len() == hist_bins * 8 && hist_b@.len()
                != hist_bins * 8 ==> (r matches Err(
                ColorScienceError::GradingFeatureDecodeError(m),
            ) && m@ == part_size_error_text("hist_b"@, (hist_bins * 8) as nat, hist_b@.len())),
            hist_l@.len() == hist_bins * 8 && hist_a@.len() == hist_bins * 8 && hist_b@.len()
                == hist_bins * 8 && moments@.len() != 96 ==> (r matches Err(
                ColorScienceError::GradingFeatureDecodeError(m),
            ) && m@ == part_size_error_text("moments"@, 96, moments@.len())),
            hist_l@.len() == hist_bins * 8 && hist_a@.len() == hist_bins * 8 && hist_b@.len()
                == hist_bins * 8 && moments@.len() == 96 ==> (r matches Ok(g) && g.well_formed()
                && g.hist_l@ == words_from_le(hist_l@, hist_bins as nat) && g.hist_a@
                == words_from_le(hist_a@, hist_bins as nat) && g.hist_b@ == words_from_le(
                hist_b@,
                hist_bins as nat,
            ) && g.moments@ == words_from_le(moments@, 12)),
    {
        let channel_size = hist_bins * 8;
        if hist_l.len() != channel_size {
            return Err(part_size_error("hist_l", channel_size, hist_l.len()));
        }
        if hist_a.len() != channel_size {
            return Err(part_size_error("hist_a", channel_size, hist_a.len()));
        }
        if hist_b.len() != channel_size {
            return Err(part_size_error("hist_b", channel_size, hist_b.len()));
        }
        if moments.len() != 96 {
            return Err(part_size_error("moments", 96, moments.len()));
        }
        let l = read_words(hist_l, 0, hist_bins);
        let a = read_words(hist_a, 0, hist_bins);
        let b = read_words(hist_b, 0, hist_bins);
        let mv = read_words(moments, 0, 12);
        assert(hist_l@.subrange(0, hist_bins * 8) =~= hist_l@);
        assert(hist_a@.subrange(0, hist_bins * 8) =~= hist_a@);
        assert(hist_b@.subrange(0, hist_bins * 8) =~= hist_b@);
        assert(moments@.subrange(0, 96) =~= moments@);
        let m: [u64; 12] = [mv[0], mv[1], mv[2], mv[3], mv[4], mv[5], mv[6], mv[7], mv[8], mv[9],
            mv[10], mv[11]];
        assert(m@ =~= mv@);
        Ok(GradingFeatureBits { hist_l: l, hist_a: a, hist_b: b, moments: m })
    }
}

/// Decoding a serialized BLOB gives back every histogram bin and moment: for
/// well-formed features with `n` bins, reading the combined BLOB with `n` bins
/// restores the features exactly.
pub proof fn lemma_blob_roundtrip(g: GradingFeatureBits)
    requires
        g.well_formed(),
    ensures
        g.spec_blob().len() == 3 * g.hist_l@.len() * 8 + 96,
        decoded_blob(g.spec_blob(), g.hist_l@.len()) == (g.hist_l@, g.hist_a@, g.hist_b@, g.moments@),
{
    let n = g.hist_l@.len() as int;
    let blob = g.spec_blob();
    lemma_words_le_len(g.hist_l@);
    lemma_words_le_len(g.hist_a@);
    lemma_words_le_len(g.hist_b@);
    lemma_words_le_len(g.moments@);
    assert(blob.subrange(0, 8 * n) =~= words_le(g.hist_l@));
    assert(blob.subrange(8 * n, 16 * n) =~= words_le(g.hist_a@));
    assert(blob.subrange(16 * n, 24 * n) =~= words_le(g.hist_b@));
    assert(blob.subrange(24 * n, 24 * n + 96) =~= words_le(g.moments@));
    lemma_decode_encode(g.hist_l@);
    lemma_decode_encode(g.hist_a@);
    lemma_decode_encode(g.hist_b@);
    lemma_decode_encode(g.moments@);
}

/// Serializing the features decoded from a BLOB of the right size gives back the
/// same bytes: a BLOB of `3 * n * 8 + 96` bytes read with `n` bins is re-encoded exactly.
pub proof fn lemma_blob_bytes_roundtrip(blob: Seq<u8>, bins: nat)
    requires
        blob.len() == 3 * bins * 8 + 96,
    ensures
        ({
            let d = decoded_blob(blob, bins);
            words_le(d.0) + words_le(d.1) + words_le(d.2) + words_le(d.3) == blob
        }),
{
    let n = bins as int;
    let d = decoded_blob(blob, bins);
    lemma_encode_decode(blob.subrange(0, 8 * n), bins);
    lemma_encode_decode(blob.subrange(8 * n, 16 * n), bins);
    lemma_encode_decode(blob.subrange(16 * n, 24 * n), bins);
    lemma_encode_decode(blob.subrange(24 * n, 24 * n + 96), 12);
    assert(words_le(d.0) + words_le(d.1) + words_le(d.2) + words_le(d.3) =~= blob);
}

/// The combined BLOB is the channel BLOBs followed by the moments BLOB.
pub proof fn lemma_blob_is_concatenation(g: GradingFeatureBits)
    ensures
        g.spec_blob() == words_le(g.hist_l@) + words_le(g.hist_a@) + words_le(g.hist_b@)
            + words_le(g.moments@),
{
}

/// Decoding the separate BLOBs of some features gives back those features.
pub proof fn lemma_separate_blobs_roundtrip(g: GradingFeatureBits)
    requires
        g.well_formed(),
    ensures
        words_le(g.hist_l@).len() == g.hist_l@.len() * 8,
        words_le(g.moments@).len() == 96,
        words_from_le(words_le(g.hist_l@), g.hist_l@.len()) == g.hist_l@,
        words_from_le(words_le(g.hist_a@), g.hist_l@.len()) == g.hist_a@,
        words_from_le(words_le(g.hist_b@), g.hist_l@.len()) == g.hist_b@,
        words_from_le(words_le(g.moments@), 12) == g.moments@,
{
    lemma_words_le_len(g.hist_l@);
    lemma_words_le_len(g.moments@);
    lemma_decode_encode(g.hist_l@);
    lemma_decode_encode(g.hist_a@);
    lemma_decode_encode(g.hist_b@);
    lemma_decode_encode(g.moments@);
}

} // verus!
