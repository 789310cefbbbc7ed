//! The panorama crop descriptor and its extraction from image bytes.
//!
//! An equirectangular image may cover less than the full sphere. A GPano
//! description embedded in an XMP packet near the start of the file says
//! which part: the descriptor holds the covered fraction of the sphere's
//! longitude and latitude span and the offset of the crop inside it. The
//! four values are exact quotients of pixel counts, kept here as integer
//! ratios; they are turned into machine floats only at the rendering
//! boundary.
//!
//! The extraction pipeline: find the XMP packet between its two byte
//! markers, parse it as markup, locate the description record that
//! declares the GPano namespace, read its seven fields — each from a
//! child element's text or, failing that, from an attribute — and build
//! the descriptor. A caller-level fallback assumes the full sphere when
//! the pipeline fails on an image exactly twice as wide as high.

use vstd::prelude::*;

use crate::search::{first_match, lemma_first_match_unique, occurs};
use crate::text::{spec_parse_u32, parse_u32_str, trim_spec, trim_str, str_eq};
use crate::xmltree::{
    XmlElement,
    elem_has_tag,
    spec_find_attr,
    spec_find_child,
    parse_xml,
    xml_doc_of,
};

verus! {

/// An exact nonnegative fraction `num / den` of two pixel counts.
#[derive(Clone, Copy, Debug, PartialEq, Eq, Structural)]
pub struct Ratio {
    pub num: u32,
    pub den: u32,
}

/// The crop descriptor: which part of the full sphere the image covers.
///
/// `width_ratio` and `height_ratio` are the covered fractions of the full
/// longitude and latitude span; `crop_left` and `crop_top` the fractional
/// offset of the crop's top-left corner. All four lie in the unit interval
/// when the source metadata is consistent, but nothing here assumes it.
#[derive(Clone, Copy, Debug, PartialEq, Eq, Structural)]
pub struct PanoMeta {
    pub width_ratio: Ratio,
    pub height_ratio: Ratio,
    pub crop_left: Ratio,
    pub crop_top: Ratio,
}

impl PanoMeta {
    /// Positivity of everything the projection divides by: the full pano
    /// extents (the denominators) and the cropped extents (the covered
    /// fractions' numerators).
    pub open spec fn valid(self) -> bool {
        &&& self.width_ratio.den > 0
        &&& self.height_ratio.den > 0
        &&& self.crop_left.den > 0
        &&& self.crop_top.den > 0
        &&& self.width_ratio.num > 0
        &&& self.height_ratio.num > 0
    }

    /// The descriptor of an image covering the full sphere.
    pub fn full_sphere() -> (m: PanoMeta)
        ensures
            m == spec_full_sphere(),
    {
        PanoMeta {
            width_ratio: Ratio { num: 1, den: 1 },
            height_ratio: Ratio { num: 1, den: 1 },
            crop_left: Ratio { num: 0, den: 1 },
            crop_top: Ratio { num: 0, den: 1 },
        }
    }
}

/// The full-sphere descriptor: both spans covered whole, no offset.
pub open spec fn spec_full_sphere() -> PanoMeta {
    PanoMeta {
        width_ratio: Ratio { num: 1, den: 1 },
        height_ratio: Ratio { num: 1, den: 1 },
        crop_left: Ratio { num: 0, den: 1 },
        crop_top: Ratio { num: 0, den: 1 },
    }
}

/// Why the descriptor could not be extracted.
#[derive(Clone, Debug, PartialEq, Eq)]
pub enum ParseError {
    /// The byte markers of an XMP packet are absent.
    NoXmpFound,
    /// The packet's bytes do not parse as markup.
    MalformedXmp,
    /// The markup holds no description record declaring GPano.
    NoGPanoDescription,
    /// The record names a projection other than equirectangular.
    UnsupportedProjection(String),
    /// The named field is absent or unreadable.
    MissingField(String),
}

/// The mathematical shape of a `ParseError`, text as character sequences.
pub enum ErrView {
    NoXmpFound,
    MalformedXmp,
    NoGPanoDescription,
    UnsupportedProjection(Seq<char>),
    MissingField(Seq<char>),
}

impl View for ParseError {
    type V = ErrView;

    open spec fn view(&self) -> ErrView {
        match self {
            ParseError::NoXmpFound => ErrView::NoXmpFound,
            ParseError::MalformedXmp => ErrView::MalformedXmp,
            ParseError::NoGPanoDescription => ErrView::NoGPanoDescription,
            ParseError::UnsupportedProjection(s) => ErrView::UnsupportedProjection(s@),
            ParseError::MissingField(s) => ErrView::MissingField(s@),
        }
    }
}

/// A parse outcome with its error abstracted to the mathematical shape.
pub open spec fn result_view(r: Result<PanoMeta, ParseError>) -> Result<PanoMeta, ErrView> {
    match r {
        Result::Ok(m) => Result::Ok(m),
        Result::Err(e) => Result::Err(e@),
    }
}

/// The byte marker opening an XMP packet: `<x:xmpmeta`.
pub open spec fn xmp_start_pattern() -> Seq<u8> {
    seq![60u8, 120u8, 58u8, 120u8, 109u8, 112u8, 109u8, 101u8, 116u8, 97u8]
}

/// The byte marker closing an XMP packet: `</x:xmpmeta>`.
pub open spec fn xmp_end_pattern() -> Seq<u8> {
    seq![60u8, 47u8, 120u8, 58u8, 120u8, 109u8, 112u8, 109u8, 101u8, 116u8, 97u8, 62u8]
}

/// The XMP packet of a byte sequence: from the first opening marker
/// through the first closing marker after it, if both are present.
pub open spec fn xmp_block(buf: Seq<u8>) -> Option<Seq<u8>> {
    if !occurs(buf, xmp_start_pattern()) {
        Option::None
    } else {
        let s = first_match(buf, xmp_start_pattern());
        let tail = buf.subrange(s, buf.len() as int);
        if !occurs(tail, xmp_end_pattern()) {
            Option::None
        } else {
            let e = first_match(tail, xmp_end_pattern());
            Option::Some(buf.subrange(s, s + e + xmp_end_pattern().len()))
        }
    }
}

/// The RDF namespace a description record lives in.
pub open spec fn rdf_ns() -> Seq<char> {
    "http://www.w3.org/1999/02/22-rdf-syntax-ns#"@
}

/// The GPano namespace the crop fields live in.
pub open spec fn gpano_ns() -> Seq<char> {
    "http://ns.google.com/photos/1.0/panorama/"@
}

/// Whether the record declares the GPano namespace, by a child element
/// or an attribute named `UsePanoramaViewer`.
pub open spec fn has_gpano_marker(e: XmlElement) -> bool {
    spec_find_child(e, gpano_ns(), "UsePanoramaViewer"@) is Some || spec_find_attr(
        e,
        gpano_ns(),
        "UsePanoramaViewer"@,
    ) is Some
}

/// Whether the element is a description record declaring GPano.
pub open spec fn is_gpano_desc(e: XmlElement) -> bool {
    elem_has_tag(e, rdf_ns(), "Description"@) && has_gpano_marker(e)
}

/// The first GPano description record at or after index `i`.
pub open spec fn find_desc_from(cs: Seq<XmlElement>, i: int) -> Option<XmlElement>
    decreases cs.len() - i,
{
    if i < 0 || i >= cs.len() {
        Option::None
    } else if is_gpano_desc(cs[i]) {
        Option::Some(cs[i])
    } else {
        find_desc_from(cs, i + 1)
    }
}

/// The GPano description record of a document: the first qualifying
/// child of the document's RDF child.
pub open spec fn spec_gpano_description(root: XmlElement) -> Option<XmlElement> {
    match spec_find_child(root, rdf_ns(), "RDF"@) {
        Option::None => Option::None,
        Option::Some(rdf) => find_desc_from(rdf.children@, 0),
    }
}

/// The raw text of a named GPano field: the text of a same-named child
/// element where one exists, else the value of a same-named attribute.
pub open spec fn spec_field_raw(e: XmlElement, name: Seq<char>) -> Option<Seq<char>> {
    match spec_find_child(e, gpano_ns(), name) {
        Option::Some(c) => Option::Some(c.text@),
        Option::None => match spec_find_attr(e, gpano_ns(), name) {
            Option::Some(a) => Option::Some(a.value@),
            Option::None => Option::None,
        },
    }
}

/// A named GPano field read as a number: its raw text, trimmed, as a
/// decimal `u32`.
pub open spec fn spec_field_u32(e: XmlElement, name: Seq<char>) -> Option<u32> {
    match spec_field_raw(e, name) {
        Option::None => Option::None,
        Option::Some(t) => spec_parse_u32(trim_spec(t)),
    }
}

/// The record's projection type: the `ProjectionType` field, trimmed.
pub open spec fn spec_projection(d: XmlElement) -> Option<Seq<char>> {
    match spec_field_raw(d, "ProjectionType"@) {
        Option::None => Option::None,
        Option::Some(p) => Option::Some(trim_spec(p)),
    }
}

/// The six numeric fields of a description record, as the descriptor
/// they define; the first unreadable field names the error.
pub open spec fn spec_numeric_fields(d: XmlElement) -> Result<PanoMeta, ErrView> {
    match spec_field_u32(d, "CroppedAreaImageWidthPixels"@) {
        Option::None => Result::Err(ErrView::MissingField("CroppedAreaImageWidthPixels"@)),
        Option::Some(cw) => match spec_field_u32(d, "CroppedAreaImageHeightPixels"@) {
            Option::None => Result::Err(ErrView::MissingField("CroppedAreaImageHeightPixels"@)),
            Option::Some(ch) => match spec_field_u32(d, "FullPanoWidthPixels"@) {
                Option::None => Result::Err(ErrView::MissingField("FullPanoWidthPixels"@)),
                Option::Some(fw) => match spec_field_u32(d, "FullPanoHeightPixels"@) {
                    Option::None => Result::Err(ErrView::MissingField("FullPanoHeightPixels"@)),
                    Option::Some(fh) => match spec_field_u32(d, "CroppedAreaLeftPixels"@) {
                        Option::None => Result::Err(
                            ErrView::MissingField("CroppedAreaLeftPixels"@),
                        ),
                        Option::Some(cl) => match spec_field_u32(d, "CroppedAreaTopPixels"@) {
                            Option::None => Result::Err(
                                ErrView::MissingField("CroppedAreaTopPixels"@),
                            ),
                            Option::Some(ct) => Result::Ok(
                                PanoMeta {
                                    width_ratio: Ratio { num: cw, den: fw },
                                    height_ratio: Ratio { num: ch, den: fh },
                                    crop_left: Ratio { num: cl, den: fw },
                                    crop_top: Ratio { num: ct, den: fh },
                                },
                            ),
                        },
                    },
                },
            },
        },
    }
}

/// What a parsed document yields: the GPano description's fields as a
/// descriptor, or the reason there is none.
pub open spec fn spec_parse_gpano(root: XmlElement) -> Result<PanoMeta, ErrView> {
    match spec_gpano_description(root) {
        Option::None => Result::Err(ErrView::NoGPanoDescription),
        Option::Some(d) => match spec_field_raw(d, "ProjectionType"@) {
            Option::None => Result::Err(ErrView::MissingField("ProjectionType"@)),
            Option::Some(praw) => if trim_spec(praw) != "equirectangular"@ {
                Result::Err(ErrView::UnsupportedProjection(trim_spec(praw)))
            } else {
                spec_numeric_fields(d)
            },
        },
    }
}

/// What a byte sequence yields: its XMP packet parsed and read, or the
/// first reason that fails.
pub open spec fn spec_gpano_result(buf: Seq<u8>) -> Result<PanoMeta, ErrView> {
    match xmp_block(buf) {
        Option::None => Result::Err(ErrView::NoXmpFound),
        Option::Some(block) => match xml_doc_of(block) {
            Option::None => Result::Err(ErrView::MalformedXmp),
            Option::Some(root) => spec_parse_gpano(root),
        },
    }
}

/// The whole extraction including the caller-level fallback: a failing
/// pipeline on an image exactly twice as wide as high (by truncating
/// division) yields the full sphere; any other failure stands.
pub open spec fn spec_parse(buf: Seq<u8>, w: u32, h: u32) -> Result<PanoMeta, ErrView> {
    let g = spec_gpano_result(buf);
    if g is Err && w as int / 2 == h as int {
        Result::Ok(spec_full_sphere())
    } else {
        g
    }
}

/// The opening marker as bytes.
fn xmp_start_bytes() -> (r: Vec<u8>)
    ensures
        r@ == xmp_start_pattern(),
{
    let mut v: Vec<u8> = Vec::new();
    v.push(60);
    v.push(120);
    v.push(58);
    v.push(120);
    v.push(109);
    v.push(112);
    v.push(109);
    v.push(101);
    v.push(116);
    v.push(97);
    proof {
        assert(v@ =~= xmp_start_pattern());
    }
    v
}

/// The closing marker as bytes.
fn xmp_end_bytes() -> (r: Vec<u8>)
    ensures
        r@ == xmp_end_pattern(),
{
    let mut v: Vec<u8> = Vec::new();
    v.push(60);
    v.push(47);
    v.push(120);
    v.push(58);
    v.push(120);
    v.push(109);
    v.push(112);
    v.push(109);
    v.push(101);
    v.push(116);
    v.push(97);
    v.push(62);
    proof {
        assert(v@ =~= xmp_end_pattern());
    }
    v
}

/// Locates the XMP packet: the byte range from the first opening marker
/// through the first closing marker after it.
pub fn find_xmp(buf: &[u8]) -> (r: Option<(usize, usize)>)
    ensures
        r matches Some(p) ==> (xmp_block(buf@) == Option::Some(
            buf@.subrange(p.0 as int, p.1 as int),
        ) && p.0 <= p.1 <= buf@.len()),
        (r is None) ==> (xmp_block(buf@) is None),
{
    let sp = xmp_start_bytes();
    let ep = xmp_end_bytes();
    match memchr::memmem::find(buf, sp.as_slice()) {
        None => Option::None,
        Some(s) => {
            proof {
                lemma_first_match_unique(buf@, sp@, s as int);
            }
            let tail = vstd::slice::slice_subrange(buf, s, buf.len());
            match memchr::memmem::find(tail, ep.as_slice()) {
                None => Option::None,
                Some(e) => {
                    proof {
                        lemma_first_match_unique(tail@, ep@, e as int);
                        assert(e + xmp_end_pattern().len() <= tail@.len());
                    }
                    let end = s + e + ep.len();
                    Option::Some((s, end))
                },
            }
        },
    }
}

/// Runs the extraction pipeline on raw bytes, without the fallback.
pub fn gpano_from_bytes(buf: &[u8]) -> (r: Result<PanoMeta, ParseError>)
    ensures
        result_view(r) == spec_gpano_result(buf@),
{
    match find_xmp(buf) {
        Option::None => Result::Err(ParseError::NoXmpFound),
        Option::Some((s, e)) => {
            let block = vstd::slice::slice_subrange(buf, s, e);
            match parse_xml(block) {
                Option::None => Result::Err(ParseError::MalformedXmp),
                Option::Some(root) => parse_gpano(&root),
            }
        },
    }
}

/// Whether the element declares the GPano namespace.
fn has_marker(e: &XmlElement) -> (r: bool)
    ensures
        r == has_gpano_marker(*e),
{
    let c = e.find_child("http://ns.google.com/photos/1.0/panorama/", "UsePanoramaViewer");
    if c.is_some() {
        return true;
    }
    let a = e.find_attr("http://ns.google.com/photos/1.0/panorama/", "UsePanoramaViewer");
    a.is_some()
}

/// Finds the GPano description record of a parsed document.
fn find_description<'a>(root: &'a XmlElement) -> (r: Option<&'a XmlElement>)
    ensures
        r matches Some(d) ==> spec_gpano_description(*root) == Option::Some(*d),
        (r is None) ==> (spec_gpano_description(*root) is None),
{
    let rdf = match root.find_child("http://www.w3.org/1999/02/22-rdf-syntax-ns#", "RDF") {
        Option::None => {
            return Option::None;
        },
        Option::Some(x) => x,
    };
    let n = rdf.children.len();
    let mut i: usize = 0;
    while i < n
        invariant
            0 <= i <= n,
            n == rdf.children@.len(),
            spec_gpano_description(*root) == find_desc_from(rdf.children@, i as int),
        decreases n - i,
    {
        let child = &rdf.children[i];
        let is_desc = child.has_tag("http://www.w3.org/1999/02/22-rdf-syntax-ns#", "Description");
        if is_desc && has_marker(child) {
            proof {
                assert(find_desc_from(rdf.children@, i as int) == Option::Some(
                    rdf.children@[i as int],
                ));
            }
            return Option::Some(&rdf.children[i]);
        }
        i = i + 1;
    }
    Option::None
}

/// The raw text of a named GPano field of the record.
fn field_raw<'a>(e: &'a XmlElement, name: &str) -> (r: Option<&'a String>)
    ensures
        r matches Some(v) ==> spec_field_raw(*e, name@) == Option::Some(v@),
        (r is None) ==> (spec_field_raw(*e, name@) is None),
{
    match e.find_child("http://ns.google.com/photos/1.0/panorama/", name) {
        Option::Some(c) => Option::Some(&c.text),
        Option::None => e.find_attr("http://ns.google.com/photos/1.0/panorama/", name),
    }
}

/// A named GPano field of the record, read as a number.
fn field_u32(e: &XmlElement, name: &str) -> (r: Option<u32>)
    ensures
        r == spec_field_u32(*e, name@),
{
    match field_raw(e, name) {
        Option::None => Option::None,
        Option::Some(v) => {
            let t = trim_str(v.as_str());
            parse_u32_str(t.as_str())
        },
    }
}

/// Reads the GPano fields of a parsed document into a descriptor.
pub fn parse_gpano(root: &XmlElement) -> (r: Result<PanoMeta, ParseError>)
    ensures
        result_view(r) == spec_parse_gpano(*root),
{
    let desc = match find_description(root) {
        Option::None => {
            return Result::Err(ParseError::NoGPanoDescription);
        },
        Option::Some(d) => d,
    };
    let praw = match field_raw(desc, "ProjectionType") {
        Option::None => {
            return Result::Err(ParseError::MissingField(String::from_str("ProjectionType")));
        },
        Option::Some(v) => v,
    };
    let proj = trim_str(praw.as_str());
    if !str_eq(proj.as_str(), "equirectangular") {
        return Result::Err(ParseError::UnsupportedProjection(proj));
    }
    let cw = match field_u32(desc, "CroppedAreaImageWidthPixels") {
        Option::None => {
            return Result::Err(
                ParseError::MissingField(String::from_str("CroppedAreaImageWidthPixels")),
            );
        },
        Option::Some(v) => v,
    };
    let ch = match field_u32(desc, "CroppedAreaImageHeightPixels") {
        Option::None => {
            return Result::Err(
                ParseError::MissingField(String::from_str("CroppedAreaImageHeightPixels")),
            );
        },
        Option::Some(v) => v,
    };
    let fw = match field_u32(desc, "FullPanoWidthPixels") {
        Option::None => {
            return Result::Err(ParseError::MissingField(String::from_str("FullPanoWidthPixels")));
        },
        Option::Some(v) => v,
    };
    let fh = match field_u32(desc, "FullPanoHeightPixels") {
        Option::None => {
            return Result::Err(ParseError::MissingField(String::from_str("FullPanoHeightPixels")));
        },
        Option::Some(v) => v,
    };
    let cl = match field_u32(desc, "CroppedAreaLeftPixels") {
        Option::None => {
            return Result::Err(ParseError::MissingField(String::from_str("CroppedAreaLeftPixels")));
        },
        Option::Some(v) => v,
    };
    let ct = match field_u32(desc, "CroppedAreaTopPixels") {
        Option::None => {
            return Result::Err(ParseError::MissingField(String::from_str("CroppedAreaTopPixels")));
        },
        Option::Some(v) => v,
    };
    Result::Ok(
        PanoMeta {
            width_ratio: Ratio { num: cw, den: fw },
            height_ratio: Ratio { num: ch, den: fh },
            crop_left: Ratio { num: cl, den: fw },
            crop_top: Ratio { num: ct, den: fh },
        },
    )
}

/// Extracts the crop descriptor from the head of the file's bytes, with
/// the fallback: when the pipeline fails and the image's width is, by
/// truncating division, exactly twice its height, the full sphere is
/// assumed; any other failure is surfaced.
pub fn parse(buf: &[u8], dims: (u32, u32)) -> (r: Result<PanoMeta, ParseError>)
    ensures
        result_view(r) == spec_parse(buf@, dims.0, dims.1),
{
    let g = gpano_from_bytes(buf);
    let failed = g.is_err();
    if failed && dims.0 / 2 == dims.1 {
        Result::Ok(PanoMeta::full_sphere())
    } else {
        g
    }
}

/// Whenever the document holds a GPano description in equirectangular
/// projection whose six pixel fields read as numbers, the parse yields
/// exactly the quotients of those pixel counts: covered fractions over
/// the full extents, offsets over the full extents.
pub proof fn lemma_parse_ratios(
    root: XmlElement,
    d: XmlElement,
    cw: u32,
    ch: u32,
    fw: u32,
    fh: u32,
    cl: u32,
    ct: u32,
)
    requires
        spec_gpano_description(root) == Option::Some(d),
        spec_projection(d) == Option::Some("equirectangular"@),
        spec_field_u32(d, "CroppedAreaImageWidthPixels"@) == Option::Some(cw),
        spec_field_u32(d, "CroppedAreaImageHeightPixels"@) == Option::Some(ch),
        spec_field_u32(d, "FullPanoWidthPixels"@) == Option::Some(fw),
        spec_field_u32(d, "FullPanoHeightPixels"@) == Option::Some(fh),
        spec_field_u32(d, "CroppedAreaLeftPixels"@) == Option::Some(cl),
        spec_field_u32(d, "CroppedAreaTopPixels"@) == Option::Some(ct),
    ensures
        spec_parse_gpano(root) == Result::<PanoMeta, ErrView>::Ok(
            PanoMeta {
                width_ratio: Ratio { num: cw, den: fw },
                height_ratio: Ratio { num: ch, den: fh },
                crop_left: Ratio { num: cl, den: fw },
                crop_top: Ratio { num: ct, den: fh },
            },
        ),
{
}

/// A projection type other than exactly `equirectangular` is refused
/// with that type in the error, whatever the numeric fields hold.
pub proof fn lemma_unsupported_projection(root: XmlElement, d: XmlElement, p: Seq<char>)
    requires
        spec_gpano_description(root) == Option::Some(d),
        spec_projection(d) == Option::Some(p),
        p != "equirectangular"@,
    ensures
        spec_parse_gpano(root) == Result::<PanoMeta, ErrView>::Err(
            ErrView::UnsupportedProjection(p),
        ),
{
}

/// Without the opening marker anywhere in the bytes there is no XMP
/// packet to read.
pub proof fn lemma_absent_marker(buf: Seq<u8>)
    requires
        !occurs(buf, xmp_start_pattern()),
    ensures
        xmp_block(buf) is None,
{
}

/// Whenever the markers are absent, the pipeline fails with exactly
/// `NoXmpFound`.
pub proof fn lemma_no_xmp(buf: Seq<u8>)
    requires
        xmp_block(buf) is None,
    ensures
        spec_gpano_result(buf) == Result::<PanoMeta, ErrView>::Err(ErrView::NoXmpFound),
{
}

/// Whenever a packet exists and parses but holds no GPano description,
/// the pipeline fails with exactly `NoGPanoDescription`.
pub proof fn lemma_no_gpano_description(buf: Seq<u8>, root: XmlElement)
    requires
        (xmp_block(buf) matches Option::Some(b) && xml_doc_of(b) == Option::Some(root)),
        (spec_gpano_description(root) is None),
    ensures
        spec_gpano_result(buf) == Result::<PanoMeta, ErrView>::Err(ErrView::NoGPanoDescription),
{
}

/// The fallback, exactly: a failing pipeline on an image twice as wide
/// as high yields the full sphere; a failing pipeline on any other image
/// surfaces its error; a successful pipeline is never overridden.
pub proof fn lemma_fallback(buf: Seq<u8>, w: u32, h: u32)
    ensures
        (spec_gpano_result(buf) is Err && w as int / 2 == h as int) ==> spec_parse(buf, w, h)
            == Result::<PanoMeta, ErrView>::Ok(spec_full_sphere()),
        (spec_gpano_result(buf) is Err && w as int / 2 != h as int) ==> spec_parse(buf, w, h)
            == spec_gpano_result(buf),
        (spec_gpano_result(buf) is Ok) ==> spec_parse(buf, w, h) == spec_gpano_result(buf),
{
}

} // verus!
