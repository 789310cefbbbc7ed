use panoview::metadata::{parse, find_xmp, gpano_from_bytes, PanoMeta, ParseError, Ratio};

fn child_style_xmp(projection: &str, cw: &str, ch: &str, fw: &str, fh: &str, cl: &str, ct: &str) -> String {
    format!(
        "<x:xmpmeta xmlns:x=\"adobe:ns:meta/\">\
         <rdf:RDF xmlns:rdf=\"http://www.w3.org/1999/02/22-rdf-syntax-ns#\">\
         <rdf:Description rdf:about=\"\" xmlns:GPano=\"http://ns.google.com/photos/1.0/panorama/\">\
         <GPano:UsePanoramaViewer>True</GPano:UsePanoramaViewer>\
         <GPano:ProjectionType>{}</GPano:ProjectionType>\
         <GPano:CroppedAreaImageWidthPixels>{}</GPano:CroppedAreaImageWidthPixels>\
         <GPano:CroppedAreaImageHeightPixels>{}</GPano:CroppedAreaImageHeightPixels>\
         <GPano:FullPanoWidthPixels>{}</GPano:FullPanoWidthPixels>\
         <GPano:FullPanoHeightPixels>{}</GPano:FullPanoHeightPixels>\
         <GPano:CroppedAreaLeftPixels>{}</GPano:CroppedAreaLeftPixels>\
         <GPano:CroppedAreaTopPixels>{}</GPano:CroppedAreaTopPixels>\
         </rdf:Description></rdf:RDF></x:xmpmeta>",
        projection, cw, ch, fw, fh, cl, ct
    )
}

fn attr_style_xmp(projection: &str, cw: &str, ch: &str, fw: &str, fh: &str, cl: &str, ct: &str) -> String {
    format!(
        "<x:xmpmeta xmlns:x=\"adobe:ns:meta/\">\
         <rdf:RDF xmlns:rdf=\"http://www.w3.org/1999/02/22-rdf-syntax-ns#\">\
         <rdf:Description rdf:about=\"\" xmlns:GPano=\"http://ns.google.com/photos/1.0/panorama/\" \
         GPano:UsePanoramaViewer=\"True\" \
         GPano:ProjectionType=\"{}\" \
         GPano:CroppedAreaImageWidthPixels=\"{}\" \
         GPano:CroppedAreaImageHeightPixels=\"{}\" \
         GPano:FullPanoWidthPixels=\"{}\" \
         GPano:FullPanoHeightPixels=\"{}\" \
         GPano:CroppedAreaLeftPixels=\"{}\" \
         GPano:CroppedAreaTopPixels=\"{}\"/>\
         </rdf:RDF></x:xmpmeta>",
        projection, cw, ch, fw, fh, cl, ct
    )
}

fn expected_meta() -> PanoMeta {
    PanoMeta {
        width_ratio: Ratio { num: 18710, den: 18710 },
        height_ratio: Ratio { num: 2961, den: 9354 },
        crop_left: Ratio { num: 0, den: 18710 },
        crop_top: Ratio { num: 3190, den: 9354 },
    }
}

#[test]
fn parse_child_style_fields() {
    let xmp = child_style_xmp("equirectangular", "18710", "2961", "18710", "9354", "0", "3190");
    let buf = format!("leading junk {} trailing junk", xmp);
    let r = parse(buf.as_bytes(), (100, 99));
    assert_eq!(r, Ok(expected_meta()));
}

#[test]
fn parse_attr_style_fields() {
    let xmp = attr_style_xmp("equirectangular", "18710", "2961", "18710", "9354", "0", "3190");
    let buf = format!("leading junk {} trailing junk", xmp);
    let r = parse(buf.as_bytes(), (100, 99));
    assert_eq!(r, Ok(expected_meta()));
}

#[test]
fn parse_trims_whitespace_and_plus_sign() {
    let xmp = child_style_xmp(" equirectangular\n", " 18710 ", "\t2961", "+18710", "9354 ", " 0", "3190\n");
    let r = parse(xmp.as_bytes(), (100, 99));
    assert_eq!(r, Ok(expected_meta()));
}

#[test]
fn parse_rejects_other_projection() {
    let xmp = child_style_xmp("cylindrical", "18710", "2961", "18710", "9354", "0", "3190");
    let r = parse(xmp.as_bytes(), (100, 99));
    assert!(matches!(r, Err(ParseError::UnsupportedProjection(p)) if p == "cylindrical"));
}

#[test]
fn parse_reports_first_missing_field() {
    let xmp = format!(
        "<x:xmpmeta xmlns:x=\"adobe:ns:meta/\">\
         <rdf:RDF xmlns:rdf=\"http://www.w3.org/1999/02/22-rdf-syntax-ns#\">\
         <rdf:Description xmlns:GPano=\"http://ns.google.com/photos/1.0/panorama/\" \
         GPano:UsePanoramaViewer=\"True\" GPano:ProjectionType=\"equirectangular\"/>\
         </rdf:RDF></x:xmpmeta>"
    );
    let r = parse(xmp.as_bytes(), (100, 99));
    assert!(matches!(r, Err(ParseError::MissingField(n)) if n == "CroppedAreaImageWidthPixels"));
}

#[test]
fn parse_rejects_overflowing_field() {
    let xmp = child_style_xmp("equirectangular", "99999999999", "2961", "18710", "9354", "0", "3190");
    let r = parse(xmp.as_bytes(), (100, 99));
    assert!(matches!(r, Err(ParseError::MissingField(n)) if n == "CroppedAreaImageWidthPixels"));
}

#[test]
fn parse_without_markers_is_no_xmp() {
    let r = parse(b"plain bytes with no packet at all", (100, 99));
    assert_eq!(r, Err(ParseError::NoXmpFound));
}

#[test]
fn parse_without_end_marker_is_no_xmp() {
    let r = parse(b"prefix <x:xmpmeta never closed", (100, 99));
    assert_eq!(r, Err(ParseError::NoXmpFound));
}

#[test]
fn parse_malformed_packet() {
    let r = parse(b"junk <x:xmpmeta <<< not markup </x:xmpmeta> junk", (100, 99));
    assert_eq!(r, Err(ParseError::MalformedXmp));
}

#[test]
fn parse_packet_without_gpano_description() {
    let xmp = "<x:xmpmeta xmlns:x=\"adobe:ns:meta/\">\
               <rdf:RDF xmlns:rdf=\"http://www.w3.org/1999/02/22-rdf-syntax-ns#\">\
               <rdf:Description rdf:about=\"\"/>\
               </rdf:RDF></x:xmpmeta>";
    let r = parse(xmp.as_bytes(), (100, 99));
    assert_eq!(r, Err(ParseError::NoGPanoDescription));
}

#[test]
fn fallback_on_double_width_image() {
    let r = parse(b"no packet here", (200, 100));
    assert_eq!(
        r,
        Ok(PanoMeta {
            width_ratio: Ratio { num: 1, den: 1 },
            height_ratio: Ratio { num: 1, den: 1 },
            crop_left: Ratio { num: 0, den: 1 },
            crop_top: Ratio { num: 0, den: 1 },
        })
    );
}

#[test]
fn fallback_uses_truncating_division() {
    let r = parse(b"no packet here", (201, 100));
    assert!(r.is_ok());
}

#[test]
fn fallback_does_not_apply_to_other_shapes() {
    let r = parse(b"no packet here", (200, 99));
    assert_eq!(r, Err(ParseError::NoXmpFound));
}

#[test]
fn fallback_does_not_mask_success() {
    let xmp = child_style_xmp("equirectangular", "18710", "2961", "18710", "9354", "0", "3190");
    let r = parse(xmp.as_bytes(), (200, 100));
    assert_eq!(r, Ok(expected_meta()));
}

#[test]
fn find_xmp_reports_exact_range() {
    let xmp = "<x:xmpmeta xmlns:x=\"a\">t</x:xmpmeta>";
    let buf = format!("AB{}CD", xmp);
    let r = find_xmp(buf.as_bytes());
    assert_eq!(r, Some((2, 2 + xmp.len())));
}

#[test]
fn find_xmp_takes_first_occurrence() {
    let buf = b"x <x:xmpmeta a</x:xmpmeta> <x:xmpmeta b</x:xmpmeta>";
    let r = find_xmp(buf);
    assert_eq!(r, Some((2, 26)));
}

#[test]
fn pipeline_without_fallback_surfaces_error() {
    let r = gpano_from_bytes(b"nothing");
    assert_eq!(r, Err(ParseError::NoXmpFound));
}

#[test]
fn element_field_shadows_attribute() {
    let xmp = "<x:xmpmeta xmlns:x=\"adobe:ns:meta/\">\
               <rdf:RDF xmlns:rdf=\"http://www.w3.org/1999/02/22-rdf-syntax-ns#\">\
               <rdf:Description xmlns:GPano=\"http://ns.google.com/photos/1.0/panorama/\" \
               GPano:UsePanoramaViewer=\"True\" \
               GPano:ProjectionType=\"equirectangular\" \
               GPano:CroppedAreaImageWidthPixels=\"18710\">\
               <GPano:CroppedAreaImageWidthPixels>garbage</GPano:CroppedAreaImageWidthPixels>\
               </rdf:Description></rdf:RDF></x:xmpmeta>";
    let r = parse(xmp.as_bytes(), (100, 99));
    assert!(matches!(r, Err(ParseError::MissingField(n)) if n == "CroppedAreaImageWidthPixels"));
}

#[test]
fn description_without_marker_is_skipped() {
    let xmp = "<x:xmpmeta xmlns:x=\"adobe:ns:meta/\">\
               <rdf:RDF xmlns:rdf=\"http://www.w3.org/1999/02/22-rdf-syntax-ns#\" \
               xmlns:GPano=\"http://ns.google.com/photos/1.0/panorama/\">\
               <rdf:Description rdf:about=\"plain\"/>\
               <rdf:Description GPano:UsePanoramaViewer=\"True\" \
               GPano:ProjectionType=\"equirectangular\" \
               GPano:CroppedAreaImageWidthPixels=\"10\" \
               GPano:CroppedAreaImageHeightPixels=\"5\" \
               GPano:FullPanoWidthPixels=\"20\" \
               GPano:FullPanoHeightPixels=\"10\" \
               GPano:CroppedAreaLeftPixels=\"5\" \
               GPano:CroppedAreaTopPixels=\"2\"/>\
               </rdf:RDF></x:xmpmeta>";
    let r = parse(xmp.as_bytes(), (100, 99));
    assert_eq!(
        r,
        Ok(PanoMeta {
            width_ratio: Ratio { num: 10, den: 20 },
            height_ratio: Ratio { num: 5, den: 10 },
            crop_left: Ratio { num: 5, den: 20 },
            crop_top: Ratio { num: 2, den: 10 },
        })
    );
}
