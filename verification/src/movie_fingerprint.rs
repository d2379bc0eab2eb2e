//! Movie fingerprint generation: request checks, per-frame bookkeeping and output naming.

use vstd::prelude::*;
use crate::db::{join_path, path_join};
use crate::text::{concat, decimal, push_decimal, push_signed_decimal, signed_decimal};

verus! {

broadcast use vstd::string::group_string_axioms;

/// Errors from movie fingerprint operations.
#[derive(Debug, Clone, PartialEq, Eq)]
pub enum MovieFingerprintError {
    /// The colour-science library call failed.
    FfiError(String),
    /// Reading frames or writing output failed.
    IoError(String),
    /// Invalid input parameters.
    InvalidInput(String),
    /// A PPM frame could not be parsed.
    PpmParseError(String),
    /// Visualization rendering failed.
    VizError(String),
}

/// Display text of a movie fingerprint error.
pub open spec fn movie_fingerprint_error_text(e: MovieFingerprintError) -> Seq<char> {
    match e {
        MovieFingerprintError::FfiError(m) => "MOVIE_FINGERPRINT_FFI_ERROR -- "@ + m@,
        MovieFingerprintError::IoError(m) => "MOVIE_FINGERPRINT_IO_ERROR -- "@ + m@,
        MovieFingerprintError::InvalidInput(m) => "MOVIE_FINGERPRINT_INVALID_INPUT -- "@ + m@,
        MovieFingerprintError::PpmParseError(m) => "MOVIE_FINGERPRINT_PPM_PARSE_ERROR -- "@ + m@,
        MovieFingerprintError::VizError(m) => "MOVIE_FINGERPRINT_VIZ_ERROR -- "@ + m@,
    }
}

impl MovieFingerprintError {
    /// The error's display text.
    pub fn message(&self) -> (r: String)
        ensures
            r@ == movie_fingerprint_error_text(*self),
    {
        match self {
            MovieFingerprintError::FfiError(m) => concat(
                "MOVIE_FINGERPRINT_FFI_ERROR -- ",
                m.as_str(),
            ),
            MovieFingerprintError::IoError(m) => concat("MOVIE_FINGERPRINT_IO_ERROR -- ", m.as_str()),
            MovieFingerprintError::InvalidInput(m) => concat(
                "MOVIE_FINGERPRINT_INVALID_INPUT -- ",
                m.as_str(),
            ),
            MovieFingerprintError::PpmParseError(m) => concat(
                "MOVIE_FINGERPRINT_PPM_PARSE_ERROR -- ",
                m.as_str(),
            ),
            MovieFingerprintError::VizError(m) => concat(
                "MOVIE_FINGERPRINT_VIZ_ERROR -- ",
                m.as_str(),
            ),
        }
    }
}


/// Which fingerprint outputs to generate.
#[derive(Debug, Clone)]
pub enum FingerprintMode {
    /// The strip only.
    Strip,
    /// The CineIris image only, of the given diameter.
    CineIris { diameter: usize },
    /// The strip and the CineIris image.
    Both { diameter: usize },
    /// The CinePrint timeline poster with frame thumbnails.
    CinePrint {
        thumbnails: usize,
        watermark_path: Option<String>,
        watermark_position: String,
        show_ep_label: bool,
    },
}

/// The CineIris diameter of a mode, if it produces a CineIris image.
pub open spec fn mode_diameter(m: FingerprintMode) -> Option<usize> {
    match m {
        FingerprintMode::CineIris { diameter } => Some(diameter),
        FingerprintMode::Both { diameter } => Some(diameter),
        _ => None,
    }
}

/// The number of thumbnails a mode shows (only CinePrint shows any).
pub open spec fn mode_thumbnails(m: FingerprintMode) -> usize {
    match m {
        FingerprintMode::CinePrint { thumbnails, .. } => thumbnails,
        _ => 0,
    }
}

impl FingerprintMode {
    /// The CineIris diameter, if the mode produces a CineIris image.
    pub fn diameter(&self) -> (r: Option<usize>)
        ensures
            r == mode_diameter(*self),
    {
        match self {
            FingerprintMode::CineIris { diameter } => Some(*diameter),
            FingerprintMode::Both { diameter } => Some(*diameter),
            _ => None,
        }
    }

    /// The number of thumbnails the mode shows.
    pub fn thumbnail_count(&self) -> (r: usize)
        ensures
            r == mode_thumbnails(*self),
    {
        match self {
            FingerprintMode::CinePrint { thumbnails, .. } => *thumbnails,
            _ => 0,
        }
    }
}

/// The largest CineIris diameter accepted.
pub const MAX_CINEIRIS_DIAMETER: usize = 4096;

/// What is wrong with a fingerprint request.
#[derive(Debug, Clone, Copy, PartialEq, Eq, Structural)]
pub enum RequestProblem {
    /// No frame was given.
    NoFrames,
    /// The CineIris diameter is zero.
    ZeroDiameter,
    /// The CineIris diameter exceeds the maximum.
    DiameterTooLarge(usize),
}

/// Check a request for `frame_count` frames: there must be frames, and a CineIris
/// diameter must be between 1 and the maximum.
pub fn check_request(frame_count: usize, mode: &FingerprintMode) -> (r: Result<(), RequestProblem>)
    ensures
        frame_count == 0 ==> r == Err::<(), RequestProblem>(RequestProblem::NoFrames),
        frame_count > 0 && mode_diameter(*mode) == Some(0usize) ==> r == Err::<(), RequestProblem>(
            RequestProblem::ZeroDiameter,
        ),
        frame_count > 0 && (mode_diameter(*mode) matches Some(d) && d > MAX_CINEIRIS_DIAMETER) ==> r
            == Err::<(), RequestProblem>(RequestProblem::DiameterTooLarge(mode_diameter(*mode)->0)),
        frame_count > 0 && (mode_diameter(*mode) matches Some(d) ==> 1 <= d <= MAX_CINEIRIS_DIAMETER)
            ==> r is Ok,
{
    if frame_count == 0 {
        return Err(RequestProblem::NoFrames);
    }
    match mode.diameter() {
        Some(d) => {
            if d == 0 {
                return Err(RequestProblem::ZeroDiameter);
            }
            if d > MAX_CINEIRIS_DIAMETER {
                return Err(RequestProblem::DiameterTooLarge(d));
            }
        },
        None => {},
    }
    Ok(())
}

impl RequestProblem {
    /// The error for a request with no frames or a zero diameter; `None` for a
    /// diameter too large, whose message states the memory it would take.
    pub fn simple_error(&self) -> (r: Option<MovieFingerprintError>)
        ensures
            *self is NoFrames ==> (r matches Some(MovieFingerprintError::InvalidInput(m)) && m@
                == "no frame paths provided"@),
            *self is ZeroDiameter ==> (r matches Some(MovieFingerprintError::InvalidInput(m)) && m@
                == "diameter must be non-zero"@),
            *self is DiameterTooLarge ==> r is None,
    {
        match self {
            RequestProblem::NoFrames => Some(
                MovieFingerprintError::InvalidInput(String::from_str("no frame paths provided")),
            ),
            RequestProblem::ZeroDiameter => Some(
                MovieFingerprintError::InvalidInput(String::from_str("diameter must be non-zero")),
            ),
            RequestProblem::DiameterTooLarge(_) => None,
        }
    }
}

/// The error for a diameter too large; `gigabytes` is the memory it would take, as
/// shown with one decimal.
pub fn diameter_too_large_error(diameter: usize, gigabytes: &str) -> (r: MovieFingerprintError)
    ensures
        r matches MovieFingerprintError::InvalidInput(m) && m@ == "diameter "@ + decimal(diameter as nat)
            + " exceeds maximum 4096 (would allocate ~"@ + gigabytes@ + " GB)"@,
{
    let mut m = String::from_str("diameter ");
    push_decimal(&mut m, diameter as u64);
    m.append(" exceeds maximum 4096 (would allocate ~");
    m.append(gigabytes);
    m.append(" GB)");
    MovieFingerprintError::InvalidInput(m)
}

/// Spacing of thumbnail frames: the frames divided evenly among the thumbnails, at
/// least one.
pub open spec fn thumb_interval_for(total_frames: usize, n_thumbs: usize) -> usize {
    if n_thumbs > 0 && total_frames / n_thumbs > 1 {
        (total_frames / n_thumbs) as usize
    } else {
        1
    }
}

/// The thumbnails are spread over the whole film: with `n` thumbnails wanted from
/// `total` frames (at least `n`), the spacing `s` is the whole number of frames per
/// thumbnail (`s * n <= total < (s + 1) * n`); with fewer frames than thumbnails, or
/// none wanted, the spacing is one.
pub proof fn lemma_thumb_interval(total: usize, n: usize)
    ensures
        thumb_interval_for(total, n) >= 1,
        n > 0 && total >= n ==> thumb_interval_for(total, n) * n <= total < (thumb_interval_for(total, n) + 1)
            * n,
        n == 0 || total < n ==> thumb_interval_for(total, n) == 1,
{
    if n > 0 {
        let q = total / n;
        assert(q * n <= total < (q + 1) * n) by (nonlinear_arith)
            requires
                n > 0,
                q == total / n,
        ;
        if total >= n {
            assert(q >= 1) by (nonlinear_arith)
                requires
                    n > 0,
                    total >= n,
                    q == total / n,
            ;
            assert(thumb_interval_for(total, n) == q);
        } else {
            assert(q == 0) by (nonlinear_arith)
                requires
                    n > 0,
                    total < n,
                    q == total / n,
            ;
        }
    }
}

/// Bookkeeping over the frames of a fingerprint: their common size, how many were
/// used and skipped, and which become thumbnails.
#[derive(Debug, Clone, Copy, PartialEq, Eq, Structural)]
pub struct FrameTally {
    /// Number of frames given.
    pub total_frames: usize,
    /// Number of thumbnails wanted.
    pub n_thumbs: usize,
    /// Spacing of thumbnail frames.
    pub thumb_interval: usize,
    /// Width of the frames used.
    pub frame_width: usize,
    /// Height of the frames used.
    pub frame_height: usize,
    /// Number of frames used.
    pub frame_count: usize,
    /// Number of unreadable frames skipped.
    pub skipped: usize,
    /// Number of thumbnails taken.
    pub thumbs_taken: usize,
}

/// Frames seen stay within the frames given, thumbnails within those wanted, and the
/// spacing is positive.
pub open spec fn tally_wf(t: FrameTally) -> bool {
    &&& t.frame_count + t.skipped <= t.total_frames
    &&& t.thumbs_taken <= t.n_thumbs
    &&& t.thumbs_taken <= t.frame_count
    &&& t.thumb_interval >= 1
}

/// The message for a frame whose `what` ("width" or "height") differs from the first.
pub open spec fn frame_size_error(index: usize, what: Seq<char>, got: usize, expected: usize) -> Seq<char> {
    "frame "@ + decimal(index as nat) + " has "@ + what + " "@ + decimal(got as nat)
        + " but expected "@ + decimal(expected as nat) + " (all frames must have same dimensions)"@
}

fn frame_size_message(index: usize, what: &str, got: usize, expected: usize) -> (r: String)
    ensures
        r@ == frame_size_error(index, what@, got, expected),
{
    let mut m = String::from_str("frame ");
    push_decimal(&mut m, index as u64);
    m.append(" has ");
    m.append(what);
    m.append(" ");
    push_decimal(&mut m, got as u64);
    m.append(" but expected ");
    push_decimal(&mut m, expected as u64);
    m.append(" (all frames must have same dimensions)");
    m
}

/// Whether the frame at `idx` becomes a thumbnail.
pub open spec fn takes_thumbnail(t: FrameTally, idx: usize) -> bool {
    t.n_thumbs > 0 && idx % t.thumb_interval == 0 && t.thumbs_taken < t.n_thumbs
}

impl FrameTally {
    /// Bookkeeping for `total_frames` frames in the given mode.
    pub fn new(total_frames: usize, mode: &FingerprintMode) -> (r: FrameTally)
        ensures
            r.total_frames == total_frames,
            r.n_thumbs == mode_thumbnails(*mode),
            r.thumb_interval == thumb_interval_for(total_frames, mode_thumbnails(*mode)),
            *mode matches FingerprintMode::CinePrint { thumbnails, .. } ==> r.n_thumbs == thumbnails,
            !(*mode is CinePrint) ==> r.n_thumbs == 0,
            r.thumb_interval >= 1,
            r.n_thumbs > 0 && total_frames >= r.n_thumbs ==> r.thumb_interval * r.n_thumbs <= total_frames
                < (r.thumb_interval + 1) * r.n_thumbs,
            r.n_thumbs == 0 || total_frames < r.n_thumbs ==> r.thumb_interval == 1,
            r.frame_width == 0 && r.frame_height == 0,
            r.frame_count == 0 && r.skipped == 0 && r.thumbs_taken == 0,
            tally_wf(r),
    {
        let n = mode.thumbnail_count();
        proof {
            lemma_thumb_interval(total_frames, n);
        }
        let interval = if n > 0 && total_frames / n > 1 {
            total_frames / n
        } else {
            1
        };
        FrameTally {
            total_frames,
            n_thumbs: n,
            thumb_interval: interval,
            frame_width: 0,
            frame_height: 0,
            frame_count: 0,
            skipped: 0,
            thumbs_taken: 0,
        }
    }

    /// Record a frame that could not be read; it is skipped.
    pub fn skip_frame(&mut self)
        requires
            tally_wf(*old(self)),
            old(self).frame_count + old(self).skipped < old(self).total_frames,
        ensures
            *final(self) == (FrameTally { skipped: (old(self).skipped + 1) as usize, ..*old(self) }),
            tally_wf(*final(self)),
    {
        self.skipped = self.skipped + 1;
    }

    /// Record the frame at position `idx`, of `width` by `height` pixels. Its size must
    /// be non-zero and, after the first frame used, equal to the first's. Returns
    /// whether it becomes a thumbnail.
    pub fn accept_frame(&mut self, idx: usize, width: usize, height: usize) -> (r: Result<bool, MovieFingerprintError>)
        requires
            tally_wf(*old(self)),
            old(self).frame_count + old(self).skipped < old(self).total_frames,
        ensures
            tally_wf(*final(self)),
            (width == 0 || height == 0) ==> (r matches Err(MovieFingerprintError::InvalidInput(m))
                && m@ == "width and height must be non-zero"@ && *final(self) == *old(self)),
            width > 0 && height > 0 && old(self).frame_count > 0 && width != old(self).frame_width ==> (
            r matches Err(MovieFingerprintError::InvalidInput(m)) && m@ == frame_size_error(
                old(self).frame_count,
                "width"@,
                width,
                old(self).frame_width,
            ) && *final(self) == *old(self)),
            width > 0 && height > 0 && old(self).frame_count > 0 && width == old(self).frame_width
                && height != old(self).frame_height ==> (r matches Err(
                MovieFingerprintError::InvalidInput(m)) && m@ == frame_size_error(
                old(self).frame_count,
                "height"@,
                height,
                old(self).frame_height,
            ) && *final(self) == *old(self)),
            width > 0 && height > 0 && (old(self).frame_count == 0 || (width == old(self).frame_width
                && height == old(self).frame_height)) ==> (r == Ok::<bool, MovieFingerprintError>(
                takes_thumbnail(*old(self), idx),
            ) && *final(self) == (FrameTally {
                frame_width: width,
                frame_height: height,
                frame_count: (old(self).frame_count + 1) as usize,
                thumbs_taken: if takes_thumbnail(*old(self), idx) {
                    (old(self).thumbs_taken + 1) as usize
                } else {
                    old(self).thumbs_taken
                },
                ..*old(self)
            })),
            r matches Ok(b) ==> (b <==> (old(self).n_thumbs > 0 && idx % old(self).thumb_interval == 0
                && old(self).thumbs_taken < old(self).n_thumbs)),
            r matches Ok(b) ==> final(self).thumbs_taken == old(self).thumbs_taken + (if b { 1int } else { 0int }),
            r is Ok ==> final(self).frame_count == old(self).frame_count + 1 && final(self).skipped
                == old(self).skipped,
    {
        if width == 0 || height == 0 {
            return Err(MovieFingerprintError::InvalidInput(String::from_str("width and height must be non-zero")));
        }
        if self.frame_count > 0 {
            if width != self.frame_width {
                return Err(MovieFingerprintError::InvalidInput(frame_size_message(self.frame_count, "width", width, self.frame_width)));
            }
            if height != self.frame_height {
                return Err(MovieFingerprintError::InvalidInput(frame_size_message(self.frame_count, "height", height, self.frame_height)));
            }
        }
        self.frame_width = width;
        self.frame_height = height;
        let take = self.n_thumbs > 0 && idx % self.thumb_interval == 0 && self.thumbs_taken < self.n_thumbs;
        if take {
            self.thumbs_taken = self.thumbs_taken + 1;
        }
        self.frame_count = self.frame_count + 1;
        Ok(take)
    }
}

/// Thumbnails never exceed the number wanted, and are taken only at multiples of the
/// spacing.
pub proof fn lemma_thumbnails_bounded(t: FrameTally, idx: usize)
    requires
        tally_wf(t),
    ensures
        takes_thumbnail(t, idx) ==> t.thumbs_taken + 1 <= t.n_thumbs && idx % t.thumb_interval == 0,
{
}

/// The message for a buffer whose length does not match its dimensions.
pub open spec fn length_mismatch(what: Seq<char>, len: nat, a_name: Seq<char>, a: nat, b_name: Seq<char>, b: nat) -> Seq<char> {
    what + " length "@ + decimal(len) + " does not match "@ + a_name + " "@ + decimal(a) + " * "@
        + b_name + " "@ + decimal(b) + " * 3 = "@ + decimal(a * b * 3)
}

fn length_mismatch_message(what: &str, len: usize, a_name: &str, a: usize, b_name: &str, b: usize) -> (r: String)
    requires
        a * b * 3 <= usize::MAX,
    ensures
        r@ == length_mismatch(what@, len as nat, a_name@, a as nat, b_name@, b as nat),
{
    let mut m = String::from_str(what);
    m.append(" length ");
    push_decimal(&mut m, len as u64);
    m.append(" does not match ");
    m.append(a_name);
    m.append(" ");
    push_decimal(&mut m, a as u64);
    m.append(" * ");
    m.append(b_name);
    m.append(" ");
    push_decimal(&mut m, b as u64);
    m.append(" * 3 = ");
    assert(a * b <= a * b * 3) by (nonlinear_arith)
        requires a >= 0, b >= 0;
    push_decimal(&mut m, (a * b * 3) as u64);
    m
}

/// Check the inputs of stitching `num_frames` columns of `frame_height` pixels held in
/// `columns_len` values.
pub fn check_stitch(columns_len: usize, num_frames: usize, frame_height: usize) -> (r: Result<(), MovieFingerprintError>)
    requires
        num_frames * frame_height * 3 <= usize::MAX,
    ensures
        num_frames == 0 ==> (r matches Err(MovieFingerprintError::InvalidInput(m)) && m@ == "num_frames must be non-zero"@),
        num_frames > 0 && frame_height == 0 ==> (r matches Err(MovieFingerprintError::InvalidInput(m))
            && m@ == "frame_height must be non-zero"@),
        num_frames > 0 && frame_height > 0 && columns_len != num_frames * frame_height * 3 ==> (r matches Err(
            MovieFingerprintError::InvalidInput(m)) && m@ == length_mismatch("columns"@, columns_len as nat, "num_frames"@,
            num_frames as nat, "frame_height"@, frame_height as nat)),
        num_frames > 0 && frame_height > 0 && columns_len == num_frames * frame_height * 3 ==> r is Ok,
{
    if num_frames == 0 {
        return Err(MovieFingerprintError::InvalidInput(String::from_str("num_frames must be non-zero")));
    }
    if frame_height == 0 {
        return Err(MovieFingerprintError::InvalidInput(String::from_str("frame_height must be non-zero")));
    }
    if columns_len != num_frames * frame_height * 3 {
        return Err(MovieFingerprintError::InvalidInput(length_mismatch_message("columns", columns_len, "num_frames", num_frames, "frame_height", frame_height)));
    }
    Ok(())
}

/// Check the inputs of the CineIris transform of a `width` by `height` strip held in
/// `strip_len` values.
pub fn check_cineiris(strip_len: usize, width: usize, height: usize, diameter: usize) -> (r: Result<(), MovieFingerprintError>)
    requires
        width * height * 3 <= usize::MAX,
    ensures
        width == 0 || height == 0 ==> (r matches Err(MovieFingerprintError::InvalidInput(m)) && m@
            == "width and height must be non-zero"@),
        width > 0 && height > 0 && diameter == 0 ==> (r matches Err(MovieFingerprintError::InvalidInput(m))
            && m@ == "diameter must be non-zero"@),
        width > 0 && height > 0 && diameter > 0 && strip_len != width * height * 3 ==> (r matches Err(
            MovieFingerprintError::InvalidInput(m)) && m@ == length_mismatch("strip"@, strip_len as nat, "width"@,
            width as nat, "height"@, height as nat)),
        width > 0 && height > 0 && diameter > 0 && strip_len == width * height * 3 ==> r is Ok,
{
    if width == 0 || height == 0 {
        return Err(MovieFingerprintError::InvalidInput(String::from_str("width and height must be non-zero")));
    }
    if diameter == 0 {
        return Err(MovieFingerprintError::InvalidInput(String::from_str("diameter must be non-zero")));
    }
    if strip_len != width * height * 3 {
        return Err(MovieFingerprintError::InvalidInput(length_mismatch_message("strip", strip_len, "width", width, "height", height)));
    }
    Ok(())
}

/// Check the inputs of extracting the centre column of a `width` by `height` frame
/// held in `pixel_len` values.
pub fn check_center_column(pixel_len: usize, width: usize, height: usize) -> (r: Result<(), MovieFingerprintError>)
    requires
        width * height * 3 <= usize::MAX,
    ensures
        width == 0 || height == 0 ==> (r matches Err(MovieFingerprintError::InvalidInput(m)) && m@
            == "width and height must be non-zero"@),
        width > 0 && height > 0 && pixel_len != width * height * 3 ==> (r matches Err(
            MovieFingerprintError::InvalidInput(m)) && m@ == length_mismatch("pixel data"@, pixel_len as nat, "width"@,
            width as nat, "height"@, height as nat)),
        width > 0 && height > 0 && pixel_len == width * height * 3 ==> r is Ok,
{
    if width == 0 || height == 0 {
        return Err(MovieFingerprintError::InvalidInput(String::from_str("width and height must be non-zero")));
    }
    if pixel_len != width * height * 3 {
        return Err(MovieFingerprintError::InvalidInput(length_mismatch_message("pixel data", pixel_len, "width", width, "height", height)));
    }
    Ok(())
}

/// Check that `len` values fill a `width` by `height` RGB image before it is saved.
pub fn check_image_data(len: usize, width: usize, height: usize) -> (r: Result<(), MovieFingerprintError>)
    requires
        width * height * 3 <= usize::MAX,
    ensures
        len != width * height * 3 ==> (r matches Err(MovieFingerprintError::InvalidInput(m)) && m@
            == length_mismatch("data"@, len as nat, "width"@, width as nat, "height"@, height as nat)),
        len == width * height * 3 ==> r is Ok,
{
    if len != width * height * 3 {
        return Err(MovieFingerprintError::InvalidInput(length_mismatch_message("data", len, "width", width, "height", height)));
    }
    Ok(())
}

/// The error for a failed engine operation: "<operation> returned error code <code>".
pub fn engine_failure(operation: &str, code: i32) -> (r: MovieFingerprintError)
    ensures
        r matches MovieFingerprintError::FfiError(m) && m@ == operation@ + " returned error code "@
            + signed_decimal(code as int),
{
    let mut m = concat(operation, " returned error code ");
    push_signed_decimal(&mut m, code as i64);
    MovieFingerprintError::FfiError(m)
}

/// The base name of the output files: the video name, or "fingerprint".
pub open spec fn output_base(video_name: Option<&str>) -> Seq<char> {
    match video_name {
        Some(v) => v@,
        None => "fingerprint"@,
    }
}

/// Where the outputs of a fingerprint go.
#[derive(Debug, Clone)]
pub struct OutputPlan {
    /// The strip image, when the mode produces one.
    pub strip_path: Option<String>,
    /// The CineIris image and its diameter, when the mode produces one.
    pub cineiris: Option<(String, usize)>,
    /// The CinePrint poster, when the mode produces one.
    pub cineprint_path: Option<String>,
}

/// View of an optional path.
pub open spec fn opt_path_view(o: Option<String>) -> Option<Seq<char>> {
    match o {
        Some(s) => Some(s@),
        None => None,
    }
}

fn output_file(output_dir: &str, video_name: Option<&str>, suffix: &str) -> (r: String)
    ensures
        r@ == path_join(output_dir@, output_base(video_name) + suffix@),
{
    let base = match video_name {
        Some(v) => v,
        None => "fingerprint",
    };
    let name = concat(base, suffix);
    join_path(output_dir, name.as_str())
}

/// The output files of a mode in `output_dir`: "<base>_strip.png",
/// "<base>_cineiris.png" or "<base>_cineprint.png".
pub fn plan_outputs(mode: &FingerprintMode, output_dir: &str, video_name: Option<&str>) -> (r: OutputPlan)
    ensures
        (*mode is Strip || *mode is Both) ==> opt_path_view(r.strip_path) == Some(path_join(
            output_dir@,
            output_base(video_name) + "_strip.png"@,
        )),
        !(*mode is Strip || *mode is Both) ==> r.strip_path is None,
        mode_diameter(*mode) matches Some(d) ==> (r.cineiris matches Some((p, rd)) && rd == d && p@
            == path_join(output_dir@, output_base(video_name) + "_cineiris.png"@)),
        mode_diameter(*mode) is None ==> r.cineiris is None,
        *mode is CinePrint ==> opt_path_view(r.cineprint_path) == Some(path_join(
            output_dir@,
            output_base(video_name) + "_cineprint.png"@,
        )),
        !(*mode is CinePrint) ==> r.cineprint_path is None,
{
    match mode {
        FingerprintMode::Strip => OutputPlan {
            strip_path: Some(output_file(output_dir, video_name, "_strip.png")),
            cineiris: None,
            cineprint_path: None,
        },
        FingerprintMode::CineIris { diameter } => OutputPlan {
            strip_path: None,
            cineiris: Some((output_file(output_dir, video_name, "_cineiris.png"), *diameter)),
            cineprint_path: None,
        },
        FingerprintMode::Both { diameter } => OutputPlan {
            strip_path: Some(output_file(output_dir, video_name, "_strip.png")),
            cineiris: Some((output_file(output_dir, video_name, "_cineiris.png"), *diameter)),
            cineprint_path: None,
        },
        FingerprintMode::CinePrint { .. } => OutputPlan {
            strip_path: None,
            cineiris: None,
            cineprint_path: Some(output_file(output_dir, video_name, "_cineprint.png")),
        },
    }
}

/// What fingerprint generation produced.
#[derive(Debug, Clone)]
pub struct FingerprintOutput {
    pub strip_path: Option<String>,
    pub cineiris_path: Option<String>,
    pub cineprint_path: Option<String>,
    pub frame_count: usize,
}

/// The outputs written according to a plan, for `frame_count` frames.
pub fn fingerprint_output(plan: OutputPlan, frame_count: usize) -> (r: FingerprintOutput)
    ensures
        r.strip_path == plan.strip_path,
        r.cineiris_path == (match plan.cineiris {
            Some((p, _)) => Some(p),
            None => None,
        }),
        r.cineprint_path == plan.cineprint_path,
        r.frame_count == frame_count,
{
    let cineiris_path = match plan.cineiris {
        Some((p, _)) => Some(p),
        None => None,
    };
    FingerprintOutput {
        strip_path: plan.strip_path,
        cineiris_path,
        cineprint_path: plan.cineprint_path,
        frame_count,
    }
}

/// The 8-bit RGB image an encoded image file holds, as the `image` crate decodes it
/// (`load_from_memory`, then `to_rgb8`): its width, height and samples, row by row
/// and three per pixel; `None` where the bytes do not decode.
pub uninterp spec fn png_rgb8(bytes: Seq<u8>) -> Option<(u32, u32, Seq<u8>)>;

/// Decode an image file held in memory to 8-bit RGB (`image::load_from_memory` and
/// `DynamicImage::to_rgb8`). The result is named by `png_rgb8`; the buffer `to_rgb8`
/// gives holds three samples per pixel. The error text is the crate's and is not
/// stated.
#[verifier::external_body]
pub(crate) fn decode_rgb8(bytes: &[u8]) -> (r: Result<(u32, u32, Vec<u8>), String>)
    ensures
        r is Ok <==> png_rgb8(bytes@) is Some,
        r matches Ok((w, h, px)) ==> png_rgb8(bytes@) == Some((w, h, px@)) && px@.len() == w * h * 3,
{
    match image::load_from_memory(bytes) {
        Ok(img) => {
            let rgb = img.to_rgb8();
            Ok((rgb.width(), rgb.height(), rgb.into_raw()))
        },
        Err(e) => Err(e.to_string()),
    }
}

/// Decode the bytes of a strip image: its width, height and 8-bit RGB samples, or
/// the I/O error "failed to decode image: ..." where the bytes do not decode.
pub fn read_strip_bytes(bytes: &[u8]) -> (r: Result<(usize, usize, Vec<u8>), MovieFingerprintError>)
    ensures
        png_rgb8(bytes@) is None ==> (r matches Err(MovieFingerprintError::IoError(m))
            && "failed to decode image: "@.is_prefix_of(m@)),
        png_rgb8(bytes@) matches Some((w, h, px)) ==> (r matches Ok((rw, rh, rpx)) && rw == w
            && rh == h && rpx@ == px && px.len() == w * h * 3),
{
    match decode_rgb8(bytes) {
        Ok((w, h, px)) => Ok((w as usize, h as usize, px)),
        Err(e) => {
            let m = concat("failed to decode image: ", e.as_str());
            proof {
                assert("failed to decode image: "@.is_prefix_of(m@)) by {
                    assert(m@.subrange(0, "failed to decode image: "@.len() as int) =~= "failed to decode image: "@);
                }
            }
            Err(MovieFingerprintError::IoError(m))
        },
    }
}

} // verus!
