//! Binary PPM (P6) frame decoding.
//!
//! A P6 file is a header of four white-space separated tokens (magic, width, height,
//! maxval; `#` starts a comment running to the end of the line), one white-space byte,
//! then `width * height * 3` samples of one byte (maxval < 256) or two big-endian
//! bytes (maxval >= 256).

use vstd::prelude::*;
use crate::movie_fingerprint::MovieFingerprintError;
use crate::text::{push_char, push_decimal, decimal};

verus! {

broadcast use vstd::string::group_string_axioms;

/// ASCII white space as `u8::is_ascii_whitespace` defines it: space, tab, line feed,
/// form feed, carriage return.
pub open spec fn is_ws(b: u8) -> bool {
    b == 32 || b == 9 || b == 10 || b == 12 || b == 13
}

/// Position just after the line feed that ends a comment started at or before `q`
/// (the end of the data when there is none).
pub open spec fn skip_comment(data: Seq<u8>, q: int) -> int
    decreases data.len() - q,
{
    if q >= data.len() {
        data.len() as int
    } else if data[q] == 10 {
        q + 1
    } else {
        skip_comment(data, q + 1)
    }
}

/// Skipping a comment moves forward and stays within the data.
pub proof fn lemma_skip_comment_bounds(data: Seq<u8>, q: int)
    requires
        0 <= q,
    ensures
        q < data.len() ==> q < skip_comment(data, q) <= data.len(),
        q >= data.len() ==> skip_comment(data, q) == data.len(),
    decreases data.len() - q,
{
    if q < data.len() && data[q] != 10 {
        lemma_skip_comment_bounds(data, q + 1);
    }
}

/// The next token from `pos`, continuing a token `tok` already begun: the token (if
/// any) and the position where scanning stopped (at the white space that ended it).
pub open spec fn scan_token(data: Seq<u8>, pos: int, tok: Seq<u8>) -> (Option<Seq<u8>>, int)
    decreases data.len() - pos,
{
    if pos < 0 || pos >= data.len() {
        (if tok.len() == 0 { None } else { Some(tok) }, pos)
    } else if data[pos] == 35 {
        proof {
            lemma_skip_comment_bounds(data, pos);
        }
        scan_token(data, skip_comment(data, pos), tok)
    } else if is_ws(data[pos]) {
        if tok.len() > 0 {
            (Some(tok), pos)
        } else {
            scan_token(data, pos + 1, tok)
        }
    } else {
        scan_token(data, pos + 1, tok.push(data[pos]))
    }
}

/// The next header token starting at `pos`.
pub open spec fn next_token(data: Seq<u8>, pos: int) -> (Option<Seq<u8>>, int) {
    scan_token(data, pos, Seq::empty())
}

/// Scanning never moves backwards nor past the end.
pub proof fn lemma_scan_bounds(data: Seq<u8>, pos: int, tok: Seq<u8>)
    requires
        0 <= pos <= data.len(),
    ensures
        pos <= scan_token(data, pos, tok).1 <= data.len(),
    decreases data.len() - pos,
{
    if pos < data.len() {
        if data[pos] == 35 {
            lemma_skip_comment_bounds(data, pos);
            lemma_scan_bounds(data, skip_comment(data, pos), tok);
        } else if is_ws(data[pos]) {
            if tok.len() == 0 {
                lemma_scan_bounds(data, pos + 1, tok);
            }
        } else {
            lemma_scan_bounds(data, pos + 1, tok.push(data[pos]));
        }
    }
}

/// Whether a byte is an ASCII digit.
pub open spec fn is_digit(b: u8) -> bool {
    48 <= b <= 57
}

/// Value of a non-empty run of ASCII digits.
pub open spec fn digits_value(d: Seq<u8>) -> nat
    decreases d.len(),
{
    if d.len() == 0 {
        0
    } else {
        digits_value(d.drop_last()) * 10 + (d.last() - 48) as nat
    }
}

/// The digits of a token as `usize::from_str` reads them: an optional leading '+',
/// then at least one digit and nothing else.
pub open spec fn token_digits(t: Seq<u8>) -> Option<Seq<u8>> {
    if token_body(t).len() > 0 && all_digits(token_body(t)) {
        Some(token_body(t))
    } else {
        None
    }
}

/// A token without its optional leading '+'.
pub open spec fn token_body(t: Seq<u8>) -> Seq<u8> {
    if t.len() > 0 && t[0] == 43 {
        t.subrange(1, t.len() as int)
    } else {
        t
    }
}

/// Whether every byte is an ASCII digit.
pub open spec fn all_digits(d: Seq<u8>) -> bool {
    forall|i: int| 0 <= i < d.len() ==> is_digit(#[trigger] d[i])
}

/// `usize::from_str` on a token: its digit value when well formed and within range.
pub open spec fn parse_usize(t: Seq<u8>) -> Option<nat> {
    match token_digits(t) {
        Some(d) => if digits_value(d) <= usize::MAX {
            Some(digits_value(d))
        } else {
            None
        },
        None => None,
    }
}

/// A longer run of digits is worth at least as much as any prefix of it.
pub proof fn lemma_digits_prefix(d: Seq<u8>, k: int)
    requires
        0 <= k <= d.len(),
        forall|i: int| 0 <= i < d.len() ==> is_digit(#[trigger] d[i]),
    ensures
        digits_value(d.take(k)) <= digits_value(d),
    decreases d.len() - k,
{
    if k < d.len() {
        lemma_digits_prefix(d, k + 1);
        assert(d.take(k + 1).drop_last() =~= d.take(k));
    } else {
        assert(d.take(k) =~= d);
    }
}

/// Parse a header token as `usize::from_str` does.
pub fn parse_usize_token(t: &[u8]) -> (r: Option<usize>)
    ensures
        r matches Some(v) ==> parse_usize(t@) == Some(v as nat),
        r is None ==> parse_usize(t@) is None,
{
    let start: usize = if t.len() > 0 && t[0] == 43 { 1 } else { 0 };
    let ghost d = token_body(t@);
    if start >= t.len() {
        assert(d.len() == 0);
        return None;
    }
    let mut v: usize = 0;
    let mut i: usize = start;
    while i < t.len()
        invariant
            start <= i <= t@.len(),
            start == 0 || start == 1,
            d == t@.subrange(start as int, t@.len() as int),
            d == token_body(t@),
            forall|k: int| 0 <= k < i - start ==> is_digit(#[trigger] d[k]),
            v as nat == digits_value(d.take(i - start)),
        decreases t@.len() - i,
    {
        let b = t[i];
        if b < 48 || b > 57 {
            assert(d[i - start] == b);
            assert(!is_digit(d[i - start]));
            assert(!all_digits(d));
            return None;
        }
        let digit: usize = (b - 48) as usize;
        assert(d.take(i + 1 - start).drop_last() =~= d.take(i - start));
        if v > (usize::MAX - digit) / 10 {
            proof {
                assert(digits_value(d.take(i + 1 - start)) > usize::MAX) by (nonlinear_arith)
                    requires
                        v > (usize::MAX - digit) / 10,
                        digits_value(d.take(i + 1 - start)) == v * 10 + digit,
                        digit <= 9,
                ;
                if all_digits(d) {
                    lemma_digits_prefix(d, i + 1 - start);
                }
            }
            return None;
        }
        proof {
            assert(v * 10 + digit <= usize::MAX) by (nonlinear_arith)
                requires
                    v <= (usize::MAX - digit) / 10,
                    digit <= 9,
            ;
        }
        v = v * 10 + digit;
        i = i + 1;
    }
    assert(d.take(d.len() as int) =~= d);
    Some(v)
}

/// The characters of a token, one per byte (as the header reader builds them).
pub open spec fn latin1(t: Seq<u8>) -> Seq<char> {
    t.map_values(|b: u8| (b as u32) as char)
}

/// A decoded P6 header.
#[derive(Debug, Clone, Copy, PartialEq, Eq, Structural)]
pub struct PpmHeader {
    pub width: usize,
    pub height: usize,
    pub maxval: usize,
    /// Offset of the first sample byte.
    pub data_start: usize,
}

/// Outcome of reading a P6 header, with the message of each failure.
pub open spec fn ppm_header_spec(data: Seq<u8>) -> Result<PpmHeader, Seq<char>> {
    let (magic, p1) = next_token(data, 0);
    if magic is None {
        Err("missing magic number"@)
    } else if magic->0 != seq![80u8, 54u8] {
        Err("expected P6 format, got '"@ + latin1(magic->0) + "'"@)
    } else {
        let (wt, p2) = next_token(data, p1);
        if wt is None {
            Err("missing width"@)
        } else if parse_usize(wt->0) is None {
            Err("invalid width: '"@ + latin1(wt->0) + "'"@)
        } else {
            let (ht, p3) = next_token(data, p2);
            if ht is None {
                Err("missing height"@)
            } else if parse_usize(ht->0) is None {
                Err("invalid height: '"@ + latin1(ht->0) + "'"@)
            } else {
                let (mt, p4) = next_token(data, p3);
                if mt is None {
                    Err("missing maxval"@)
                } else if parse_usize(mt->0) is None {
                    Err("invalid maxval: '"@ + latin1(mt->0) + "'"@)
                } else {
                    let maxval = parse_usize(mt->0)->0;
                    if maxval == 0 || maxval > 65535 {
                        Err("maxval must be 1-65535, got "@ + decimal(maxval))
                    } else if p4 >= data.len() {
                        Err("unexpected end after maxval"@)
                    } else {
                        Ok(
                            PpmHeader {
                                width: parse_usize(wt->0)->0 as usize,
                                height: parse_usize(ht->0)->0 as usize,
                                maxval: maxval as usize,
                                data_start: (p4 + 1) as usize,
                            },
                        )
                    }
                }
            }
        }
    }
}

/// Read the next header token from `*pos`, moving `*pos` past it.
fn read_token(data: &[u8], pos: &mut usize) -> (r: Option<Vec<u8>>)
    requires
        *old(pos) <= data@.len(),
    ensures
        ({
            let (t, p) = next_token(data@, *old(pos) as int);
            &&& *final(pos) as int == p
            &&& r matches Some(v) ==> t == Some(v@)
            &&& r is None ==> t is None
        }),
        *final(pos) <= data@.len(),
{
    let mut tok: Vec<u8> = Vec::new();
    let ghost p0 = *pos as int;
    let len = data.len();
    proof {
        lemma_scan_bounds(data@, p0, Seq::empty());
    }
    while *pos < len
        invariant
            len == data@.len(),
            *pos <= len,
            scan_token(data@, *pos as int, tok@) == next_token(data@, p0),
            p0 == *old(pos) as int,
        decreases len - *pos,
    {
        let b = data[*pos];
        if b == 35 {
            let ghost before = *pos as int;
            while *pos < len && data[*pos] != 10
                invariant
                    len == data@.len(),
                    before <= *pos <= len,
                    skip_comment(data@, *pos as int) == skip_comment(data@, before),
                decreases len - *pos,
            {
                *pos = *pos + 1;
            }
            if *pos < len {
                *pos = *pos + 1;
            }
            proof {
                lemma_skip_comment_bounds(data@, before);
            }
        } else if b == 32 || b == 9 || b == 10 || b == 12 || b == 13 {
            assert(is_ws(data@[*pos as int]));
            if tok.len() > 0 {
                return Some(tok);
            }
            *pos = *pos + 1;
        } else {
            tok.push(b);
            *pos = *pos + 1;
        }
    }
    if tok.len() == 0 {
        None
    } else {
        Some(tok)
    }
}

/// Append the bytes of a token as characters.
fn push_latin1(s: &mut String, t: &[u8])
    ensures
        final(s)@ == old(s)@ + latin1(t@),
{
    let mut i: usize = 0;
    while i < t.len()
        invariant
            i <= t@.len(),
            s@ == old(s)@ + latin1(t@.take(i as int)),
        decreases t@.len() - i,
    {
        let c = t[i] as char;
        assert(c == (t@[i as int] as u32) as char);
        push_char(s, c);
        assert(latin1(t@.take(i + 1)) =~= latin1(t@.take(i as int)).push(c));
        i = i + 1;
    }
    assert(t@.take(t@.len() as int) =~= t@);
}

/// `<prefix>'<token>'` as a PPM parse error.
fn quoted_token_error(prefix: &str, t: &[u8]) -> (r: MovieFingerprintError)
    ensures
        r matches MovieFingerprintError::PpmParseError(m) && m@ == prefix@ + latin1(t@) + "'"@,
{
    let mut s = String::from_str(prefix);
    push_latin1(&mut s, t);
    s.append("'");
    MovieFingerprintError::PpmParseError(s)
}

/// A PPM parse error with a fixed message.
fn ppm_error(m: &str) -> (r: MovieFingerprintError)
    ensures
        r matches MovieFingerprintError::PpmParseError(x) && x@ == m@,
{
    MovieFingerprintError::PpmParseError(String::from_str(m))
}

/// Read the P6 header: magic, width, height and maxval, then the single white-space
/// byte that precedes the samples.
pub fn parse_ppm_header(data: &[u8]) -> (r: Result<PpmHeader, MovieFingerprintError>)
    ensures
        ppm_header_spec(data@) matches Ok(h) ==> r == Ok::<PpmHeader, MovieFingerprintError>(h),
        ppm_header_spec(data@) matches Err(m) ==> (r matches Err(
            MovieFingerprintError::PpmParseError(x),
        ) && x@ == m),
        r matches Ok(h) ==> h.data_start <= data@.len(),
{
    let mut pos: usize = 0;
    let magic = match read_token(data, &mut pos) {
        None => return Err(ppm_error("missing magic number")),
        Some(t) => t,
    };
    if !(magic.len() == 2 && magic[0] == 80 && magic[1] == 54) {
        proof {
            if magic@ == seq![80u8, 54u8] {
                assert(magic@.len() == 2 && magic@[0] == 80 && magic@[1] == 54);
            }
        }
        return Err(quoted_token_error("expected P6 format, got '", magic.as_slice()));
    }
    assert(magic@ =~= seq![80u8, 54u8]);
    let wt = match read_token(data, &mut pos) {
        None => return Err(ppm_error("missing width")),
        Some(t) => t,
    };
    let width = match parse_usize_token(wt.as_slice()) {
        None => return Err(quoted_token_error("invalid width: '", wt.as_slice())),
        Some(v) => v,
    };
    let ht = match read_token(data, &mut pos) {
        None => return Err(ppm_error("missing height")),
        Some(t) => t,
    };
    let height = match parse_usize_token(ht.as_slice()) {
        None => return Err(quoted_token_error("invalid height: '", ht.as_slice())),
        Some(v) => v,
    };
    let mt = match read_token(data, &mut pos) {
        None => return Err(ppm_error("missing maxval")),
        Some(t) => t,
    };
    let maxval = match parse_usize_token(mt.as_slice()) {
        None => return Err(quoted_token_error("invalid maxval: '", mt.as_slice())),
        Some(v) => v,
    };
    if maxval == 0 || maxval > 65535 {
        let mut s = String::from_str("maxval must be 1-65535, got ");
        push_decimal(&mut s, maxval as u64);
        return Err(MovieFingerprintError::PpmParseError(s));
    }
    if pos >= data.len() {
        return Err(ppm_error("unexpected end after maxval"));
    }
    Ok(PpmHeader { width, height, maxval, data_start: pos + 1 })
}

/// Bytes per sample: one below maxval 256, two from 256 on.
pub open spec fn bytes_per_sample(h: PpmHeader) -> int {
    if h.maxval > 255 { 2 } else { 1 }
}

/// Number of sample bytes the header announces.
pub open spec fn pixel_bytes(h: PpmHeader) -> int {
    h.width * h.height * 3 * bytes_per_sample(h)
}

/// Whether the sample byte count of a header fits in `usize` (true for any header of
/// a P6 file; the check only rules out absurd dimensions).
pub open spec fn ppm_size_fits(data: Seq<u8>) -> bool {
    ppm_header_spec(data) matches Ok(h) ==> pixel_bytes(h) <= usize::MAX
}

/// Whether the sample bytes a frame's header announces can be counted in `usize`,
/// which `read_ppm` needs; data whose header does not parse needs no such bound.
pub fn ppm_frame_fits(data: &[u8]) -> (r: bool)
    ensures
        r == ppm_size_fits(data@),
{
    match parse_ppm_header(data) {
        Err(_) => true,
        Ok(h) => {
            let bps: usize = if h.maxval > 255 { 2 } else { 1 };
            match h.width.checked_mul(h.height) {
                None => {
                    proof {
                        assert(h.width * h.height * 3 * bps >= h.width * h.height) by (nonlinear_arith)
                            requires bps >= 1;
                    }
                    false
                },
                Some(p) => match p.checked_mul(3) {
                    None => {
                        proof {
                            assert(p * 3 * bps >= p * 3) by (nonlinear_arith)
                                requires bps >= 1;
                        }
                        false
                    },
                    Some(q) => match q.checked_mul(bps) {
                        None => false,
                        Some(_) => true,
                    },
                },
            }
        },
    }
}

/// The samples of a frame: one byte each, or two big-endian bytes each.
pub open spec fn ppm_samples(data: Seq<u8>, h: PpmHeader) -> Seq<u16> {
    Seq::new(
        (h.width * h.height * 3) as nat,
        |i: int|
            if bytes_per_sample(h) == 1 {
                data[h.data_start + i] as u16
            } else {
                (data[h.data_start + 2 * i] as int * 256 + data[h.data_start + 2 * i + 1] as int) as u16
            },
    )
}

/// A decoded P6 frame: its dimensions, maxval and raw samples (R, G, B per pixel,
/// row by row). Each sample divided by `maxval` is the channel value in [0, 1].
#[derive(Debug, Clone, PartialEq, Eq)]
pub struct PpmImage {
    pub width: usize,
    pub height: usize,
    pub maxval: usize,
    pub samples: Vec<u16>,
}

/// Read a P6 frame: the header, then its samples.
pub fn read_ppm(data: &[u8]) -> (r: Result<PpmImage, MovieFingerprintError>)
    requires
        ppm_size_fits(data@),
    ensures
        ppm_header_spec(data@) matches Err(m) ==> (r matches Err(
            MovieFingerprintError::PpmParseError(x),
        ) && x@ == m),
        ppm_header_spec(data@) matches Ok(h) ==> {
            let avail = data@.len() - h.data_start;
            &&& avail < pixel_bytes(h) ==> (r matches Err(MovieFingerprintError::PpmParseError(x))
                && x@ == "insufficient pixel data: expected "@ + decimal(pixel_bytes(h) as nat)
                + " bytes, got "@ + decimal(avail as nat))
            &&& avail >= pixel_bytes(h) ==> (r matches Ok(img) && img.width == h.width
                && img.height == h.height && img.maxval == h.maxval && img.samples@
                == ppm_samples(data@, h))
        },
{
    let h = match parse_ppm_header(data) {
        Err(e) => return Err(e),
        Ok(h) => h,
    };
    let bps: usize = if h.maxval > 255 { 2 } else { 1 };
    proof {
        assert(h.width * h.height * 3 <= h.width * h.height * 3 * bps) by (nonlinear_arith)
            requires
                bps >= 1,
        ;
        assert(h.width * h.height <= h.width * h.height * 3) by (nonlinear_arith);
    }
    let pixel_count = h.width * h.height;
    let n = pixel_count * 3;
    let expected = n * bps;
    let avail = data.len() - h.data_start;
    if avail < expected {
        let mut s = String::from_str("insufficient pixel data: expected ");
        push_decimal(&mut s, expected as u64);
        s.append(" bytes, got ");
        push_decimal(&mut s, avail as u64);
        return Err(MovieFingerprintError::PpmParseError(s));
    }
    let mut samples: Vec<u16> = Vec::new();
    let mut i: usize = 0;
    let dlen = data.len();
    while i < n
        invariant
            dlen == data@.len(),
            i <= n,
            n == h.width * h.height * 3,
            expected == n * bps,
            bps == bytes_per_sample(h),
            h.data_start + expected <= data@.len(),
            samples@.len() == i,
            forall|k: int| 0 <= k < i ==> #[trigger] samples@[k] == ppm_samples(data@, h)[k],
        decreases n - i,
    {
        if bps == 1 {
            samples.push(data[h.data_start + i] as u16);
        } else {
            proof {
                assert(2 * i + 1 < 2 * n) by (nonlinear_arith)
                    requires
                        i < n,
                ;
            }
            let o = h.data_start + 2 * i;
            let v: u16 = (data[o] as u16) * 256 + (data[o + 1] as u16);
            samples.push(v);
        }
        i = i + 1;
    }
    assert(samples@ =~= ppm_samples(data@, h));
    Ok(PpmImage { width: h.width, height: h.height, maxval: h.maxval, samples })
}

} // verus!
