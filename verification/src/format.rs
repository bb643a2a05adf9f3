use vstd::prelude::*;
use vstd::string::StringSliceAdditionalSpecFns;

verus! {

/// A container format the pipeline can export to.
#[derive(Clone, Copy, Debug, PartialEq, Eq, Structural)]
pub enum ContainerFormat {
    Png,
    Jpeg,
    Gif,
    Bmp,
    WebP,
}

/// A resampling filter accepted by the resize operation.
#[derive(Clone, Copy, Debug, PartialEq, Eq, Structural)]
pub enum FilterKind {
    Nearest,
    Triangle,
    CatmullRom,
    Gaussian,
    Lanczos3,
}

/// ASCII lowercasing of a single byte.
pub open spec fn spec_lower(b: u8) -> u8 {
    if 65 <= b && b <= 90 {
        (b + 32) as u8
    } else {
        b
    }
}

/// ASCII lowercasing of a byte sequence.
pub open spec fn spec_lower_seq(s: Seq<u8>) -> Seq<u8> {
    s.map_values(|b: u8| spec_lower(b))
}

/// The container format named by a byte string, compared case-insensitively.
pub open spec fn spec_parse_format(s: Seq<u8>) -> Option<ContainerFormat> {
    let t = spec_lower_seq(s);
    if t == "png".spec_bytes() {
        Some(ContainerFormat::Png)
    } else if t == "jpeg".spec_bytes() || t == "jpg".spec_bytes() {
        Some(ContainerFormat::Jpeg)
    } else if t == "gif".spec_bytes() {
        Some(ContainerFormat::Gif)
    } else if t == "bmp".spec_bytes() {
        Some(ContainerFormat::Bmp)
    } else if t == "webp".spec_bytes() {
        Some(ContainerFormat::WebP)
    } else {
        None
    }
}

/// The resampling filter named by a byte string, compared case-insensitively.
pub open spec fn spec_parse_filter(s: Seq<u8>) -> Option<FilterKind> {
    let t = spec_lower_seq(s);
    if t == "nearest".spec_bytes() {
        Some(FilterKind::Nearest)
    } else if t == "triangle".spec_bytes() {
        Some(FilterKind::Triangle)
    } else if t == "catmullrom".spec_bytes() {
        Some(FilterKind::CatmullRom)
    } else if t == "gaussian".spec_bytes() {
        Some(FilterKind::Gaussian)
    } else if t == "lanczos3".spec_bytes() {
        Some(FilterKind::Lanczos3)
    } else {
        None
    }
}

/// ASCII-lowercases the bytes of a string slice.
fn lower_bytes(s: &str) -> (r: Vec<u8>)
    ensures
        r@ == spec_lower_seq(s.spec_bytes()),
{
    let b = s.as_bytes();
    let mut out: Vec<u8> = Vec::new();
    let mut i: usize = 0;
    while i < b.len()
        invariant
            i <= b@.len(),
            b@ == s.spec_bytes(),
            out@ == spec_lower_seq(b@.take(i as int)),
        decreases b@.len() - i,
    {
        let c = b[i];
        if 65 <= c && c <= 90 {
            out.push(c + 32);
        } else {
            out.push(c);
        }
        proof {
            assert(b@.take(i + 1) == b@.take(i as int).push(b@[i as int]));
            assert(spec_lower_seq(b@.take(i + 1)) == out@);
        }
        i = i + 1;
    }
    proof {
        assert(b@.take(b@.len() as int) == b@);
    }
    out
}

/// Whether a byte vector equals a byte slice, element for element.
fn bytes_eq(a: &Vec<u8>, b: &[u8]) -> (r: bool)
    ensures
        r == (a@ == b@),
{
    if a.len() != b.len() {
        proof {
            assert(a@.len() != b@.len());
        }
        return false;
    }
    let mut i: usize = 0;
    while i < a.len()
        invariant
            i <= a@.len(),
            a@.len() == b@.len(),
            forall|j: int| 0 <= j < i ==> a@[j] == b@[j],
        decreases a@.len() - i,
    {
        if a[i] != b[i] {
            return false;
        }
        i = i + 1;
    }
    proof {
        assert(a@ =~= b@);
    }
    true
}

/// Parses a container format name, case-insensitively.
/// Recognized names: png, jpeg, jpg, gif, bmp, webp.
pub fn parse_format(s: &str) -> (r: Option<ContainerFormat>)
    ensures
        r == spec_parse_format(s.spec_bytes()),
{
    let t = lower_bytes(s);
    if bytes_eq(&t, "png".as_bytes()) {
        Some(ContainerFormat::Png)
    } else if bytes_eq(&t, "jpeg".as_bytes()) || bytes_eq(&t, "jpg".as_bytes()) {
        Some(ContainerFormat::Jpeg)
    } else if bytes_eq(&t, "gif".as_bytes()) {
        Some(ContainerFormat::Gif)
    } else if bytes_eq(&t, "bmp".as_bytes()) {
        Some(ContainerFormat::Bmp)
    } else if bytes_eq(&t, "webp".as_bytes()) {
        Some(ContainerFormat::WebP)
    } else {
        None
    }
}

/// Parses a resampling filter name, case-insensitively.
/// Recognized names: nearest, triangle, catmullrom, gaussian, lanczos3.
pub fn parse_filter(s: &str) -> (r: Option<FilterKind>)
    ensures
        r == spec_parse_filter(s.spec_bytes()),
{
    let t = lower_bytes(s);
    if bytes_eq(&t, "nearest".as_bytes()) {
        Some(FilterKind::Nearest)
    } else if bytes_eq(&t, "triangle".as_bytes()) {
        Some(FilterKind::Triangle)
    } else if bytes_eq(&t, "catmullrom".as_bytes()) {
        Some(FilterKind::CatmullRom)
    } else if bytes_eq(&t, "gaussian".as_bytes()) {
        Some(FilterKind::Gaussian)
    } else if bytes_eq(&t, "lanczos3".as_bytes()) {
        Some(FilterKind::Lanczos3)
    } else {
        None
    }
}

} // verus!
