//! Area-average downsampling of images for feature extraction: which source rows
//! (or columns) each target row (or column) averages.
//!
//! The source rows are split into `dst` consecutive runs, run `t` starting at row
//! `t * src / dst`. Target row `t` averages its own run together with the run of the
//! next target (the last target only its own run): the rows from `t * src / dst` up
//! to (not including) `(t + 2) * src / dst`, or to the end of the source. So a 3 by 2
//! image reduced to 2 by 1 gives its first pixel the mean of all six source pixels
//! and its second the mean of the last two columns. The ranges cover every source
//! row, neighbouring ranges overlap by one run, and when the image shrinks no range
//! is empty.

use vstd::prelude::*;
use vstd::arithmetic::div_mod::{lemma_div_is_ordered, lemma_div_multiples_vanish, lemma_div_plus_one};

verus! {

/// The largest side of a downsampled image.
pub const MAX_DIMENSION: usize = 512;

/// First source index averaged into target index `t`.
pub open spec fn range_start(t: int, src: int, dst: int) -> int {
    t * src / dst
}

/// End (exclusive) of the source indices averaged into target index `t`: the end of
/// the next target's run, or of its own run for the last target.
pub open spec fn range_end(t: int, src: int, dst: int) -> int {
    if t + 2 <= dst {
        range_start(t + 2, src, dst)
    } else {
        range_start(dst, src, dst)
    }
}

/// Whether an image of `width` by `height` pixels is reduced to fit `max_dim`: only
/// when its longer side exceeds it.
pub fn needs_downsample(width: usize, height: usize, max_dim: usize) -> (r: bool)
    ensures
        r == (width > max_dim || height > max_dim),
{
    let max_side = if width > height {
        width
    } else {
        height
    };
    max_side > max_dim
}

/// The source indices averaged into target index `t` when `src_len` indices are
/// reduced to `dst_len`: from `t * src_len / dst_len` up to `(t + 2) * src_len /
/// dst_len`, or up to `src_len` for the last target.
pub fn source_range(t: usize, src_len: usize, dst_len: usize) -> (r: (usize, usize))
    requires
        0 < dst_len,
        t < dst_len,
        dst_len * src_len <= usize::MAX,
    ensures
        r.0 == range_start(t as int, src_len as int, dst_len as int),
        r.1 == range_end(t as int, src_len as int, dst_len as int),
        r.0 <= r.1 <= src_len,
        dst_len <= src_len ==> r.0 < r.1,
{
    proof {
        lemma_source_range(t as int, src_len as int, dst_len as int);
        assert(t * src_len <= dst_len * src_len) by (nonlinear_arith)
            requires
                t <= dst_len,
                src_len >= 0,
        ;
        if t + 2 <= dst_len {
            lemma_source_range(t + 1, src_len as int, dst_len as int);
            assert((t + 2) * src_len <= dst_len * src_len) by (nonlinear_arith)
                requires
                    t + 2 <= dst_len,
                    src_len >= 0,
            ;
        }
        assert(dst_len * src_len == src_len * dst_len) by (nonlinear_arith);
        lemma_div_multiples_vanish(src_len as int, dst_len as int);
    }
    let a = t * src_len / dst_len;
    let b = if t + 1 < dst_len {
        (t + 2) * src_len / dst_len
    } else {
        src_len
    };
    (a, b)
}

/// Facts about one range: it lies within the source, and it is not empty when the
/// source is at least as long as the target.
proof fn lemma_source_range(t: int, src: int, dst: int)
    requires
        0 < dst,
        0 <= t < dst,
        0 <= src,
    ensures
        0 <= range_start(t, src, dst) <= range_start(t + 1, src, dst) <= src,
        dst <= src ==> range_start(t, src, dst) < range_start(t + 1, src, dst),
{
    assert(t * src <= (t + 1) * src) by (nonlinear_arith)
        requires
            src >= 0,
    ;
    assert((t + 1) * src <= dst * src) by (nonlinear_arith)
        requires
            t + 1 <= dst,
            src >= 0,
    ;
    assert(0 <= t * src) by (nonlinear_arith)
        requires
            t >= 0,
            src >= 0,
    ;
    lemma_div_is_ordered(0, t * src, dst);
    lemma_div_is_ordered(t * src, (t + 1) * src, dst);
    lemma_div_is_ordered((t + 1) * src, dst * src, dst);
    assert(dst * src == src * dst) by (nonlinear_arith);
    lemma_div_multiples_vanish(src, dst);
    assert(0int / dst == 0);
    if dst <= src {
        assert((t + 1) * src == t * src + src) by (nonlinear_arith);
        lemma_div_is_ordered(dst + t * src, (t + 1) * src, dst);
        lemma_div_plus_one(t * src, dst);
    }
}

/// The ranges of all targets cover the source: the first starts at 0, the starts
/// never decrease, each range reaches at least to where the next starts (so no
/// source index is left out), the last ends at the source's end, every range lies
/// within the source, and when the source is at least as long as the target every
/// range holds at least one index.
pub proof fn lemma_ranges_cover(src: int, dst: int)
    requires
        0 < dst,
        0 <= src,
    ensures
        range_start(0, src, dst) == 0,
        range_end(dst - 1, src, dst) == src,
        forall|t: int| 0 <= t < dst - 1 ==> range_start(t, src, dst) <= #[trigger] range_start(t + 1, src, dst)
            <= range_end(t, src, dst),
        forall|t: int| 0 <= t < dst ==> 0 <= range_start(t, src, dst) <= #[trigger] range_end(t, src, dst) <= src,
        dst <= src ==> forall|t: int|
            0 <= t < dst ==> range_start(t, src, dst) < #[trigger] range_end(t, src, dst),
{
    assert(0int * src == 0);
    assert(dst * src == src * dst) by (nonlinear_arith);
    lemma_div_multiples_vanish(src, dst);
    assert forall|t: int| 0 <= t < dst - 1 implies range_start(t, src, dst) <= #[trigger] range_start(t + 1, src, dst)
        <= range_end(t, src, dst) by {
        lemma_source_range(t, src, dst);
        lemma_source_range(t + 1, src, dst);
    }
    assert forall|t: int| 0 <= t < dst implies 0 <= range_start(t, src, dst) <= #[trigger] range_end(t, src, dst)
        <= src && (dst <= src ==> range_start(t, src, dst) < range_end(t, src, dst)) by {
        lemma_source_range(t, src, dst);
        if t + 2 <= dst {
            lemma_source_range(t + 1, src, dst);
        }
    }
}

} // verus!
