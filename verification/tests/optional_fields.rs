use manifest_worker::dash::decode::decode;
use manifest_worker::dash::encode::encode;
use manifest_worker::dash::manifest::{AdaptationSet, Manifest};
use manifest_worker::dash::representation::Representation;
use manifest_worker::error::Error;

fn document(mpd: &str, set: &str, role: Option<&str>, representation: &str, inner: &str) -> String {
    let role = match role {
        Some(attributes) => format!("<Role {} />", attributes),
        None => String::new(),
    };
    format!(
        "<MPD {}><Period><AdaptationSet {}>{}<Representation {}>{}</Representation></AdaptationSet></Period></MPD>",
        mpd, set, role, representation, inner
    )
}

fn first_set(manifest: &Manifest) -> &AdaptationSet {
    &manifest.period.adaptation_set[0]
}

fn first_representation(manifest: &Manifest) -> &Representation {
    &manifest.period.adaptation_set[0].representation[0]
}

fn text(value: &str) -> Option<String> {
    Some(value.to_string())
}

fn opening_tag(written: &str, element: &str) -> String {
    let start = written.find(&format!("<{} ", element)).or(written.find(&format!("<{}>", element)));
    let start = start.unwrap();
    let end = start + written[start..].find('>').unwrap();
    written[start..=end].to_string()
}

fn three_states(
    build: &dyn Fn(&str) -> String,
    element: &str,
    name: &str,
    read: &dyn Fn(&Manifest) -> Option<String>,
) {
    let absent = decode(&build("")).unwrap();
    assert_eq!(read(&absent), None);
    let written = encode(&absent).unwrap();
    assert!(!opening_tag(&written, element).contains(&format!(" {}=", name)));
    assert_eq!(decode(&written).unwrap(), absent);

    let empty = decode(&build(&format!("{}=\"\"", name))).unwrap();
    assert_eq!(read(&empty), text(""));
    let written = encode(&empty).unwrap();
    assert!(opening_tag(&written, element).contains(&format!(" {}=\"\"", name)));
    assert_eq!(decode(&written).unwrap(), empty);

    let present = decode(&build(&format!("{}=\"x y\"", name))).unwrap();
    assert_eq!(read(&present), text("x y"));
    let written = encode(&present).unwrap();
    assert!(opening_tag(&written, element).contains(&format!(" {}=\"x y\"", name)));
    assert_eq!(decode(&written).unwrap(), present);
}

fn number_states(
    build: &dyn Fn(&str) -> String,
    element: &str,
    name: &str,
    read: &dyn Fn(&Manifest) -> Option<u64>,
) {
    let absent = decode(&build("")).unwrap();
    assert_eq!(read(&absent), None);
    let written = encode(&absent).unwrap();
    assert!(!opening_tag(&written, element).contains(&format!(" {}=", name)));
    assert_eq!(decode(&written).unwrap(), absent);

    assert!(matches!(decode(&build(&format!("{}=\"\"", name))), Err(Error::Parse(_))));

    let present = decode(&build(&format!("{}=\"0\"", name))).unwrap();
    assert_eq!(read(&present), Some(0));
    let written = encode(&present).unwrap();
    assert!(opening_tag(&written, element).contains(&format!(" {}=\"0\"", name)));
    assert_eq!(decode(&written).unwrap(), present);

    let present = decode(&build(&format!("{}=\"200\"", name))).unwrap();
    assert_eq!(read(&present), Some(200));
    assert_eq!(decode(&encode(&present).unwrap()).unwrap(), present);
}

#[test]
fn manifest_min_buffer_time() {
    three_states(&|a| document(a, "", None, "", ""), "MPD", "minBufferTime", &|m| m.min_buffer_time.clone());
}

#[test]
fn adaptation_set_optional_texts() {
    three_states(&|a| document("", a, None, "", ""), "AdaptationSet", "par", &|m| first_set(m).pixel_aspect_ratio.clone());
    three_states(&|a| document("", a, None, "", ""), "AdaptationSet", "subsegmentStartsWithSAP", &|m| {
        first_set(m).subsegment_starts_with_sap.clone()
    });
    three_states(&|a| document("", a, None, "", ""), "AdaptationSet", "mimeType", &|m| first_set(m).mime_type.clone());
    three_states(&|a| document("", a, None, "", ""), "AdaptationSet", "contentType", &|m| first_set(m).content_type.clone());
}

#[test]
fn adaptation_set_optional_numbers() {
    number_states(&|a| document("", a, None, "", ""), "AdaptationSet", "maxWidth", &|m| first_set(m).max_width.map(u64::from));
    number_states(&|a| document("", a, None, "", ""), "AdaptationSet", "maxHeight", &|m| first_set(m).max_height.map(u64::from));
    number_states(&|a| document("", a, None, "", ""), "AdaptationSet", "maxFrameRate", &|m| {
        first_set(m).max_frame_rate.map(u64::from)
    });
}

#[test]
fn adaptation_set_subsegment_alignment() {
    let build = |a: &str| document("", a, None, "", "");
    assert_eq!(first_set(&decode(&build("")).unwrap()).subsegment_alignment, None);
    assert_eq!(
        first_set(&decode(&build("subsegmentAlignment=\"false\"")).unwrap()).subsegment_alignment,
        Some(false)
    );
    assert_eq!(
        first_set(&decode(&build("subsegmentAlignment=\"true\"")).unwrap()).subsegment_alignment,
        Some(true)
    );
    assert!(matches!(decode(&build("subsegmentAlignment=\"\"")), Err(Error::Parse(_))));
    let kept = decode(&build("subsegmentAlignment=\"0\"")).unwrap();
    let written = encode(&kept).unwrap();
    assert!(written.contains(" subsegmentAlignment=\"false\""));
    assert_eq!(decode(&written).unwrap(), kept);
    let absent = decode(&build("")).unwrap();
    assert!(!encode(&absent).unwrap().contains("subsegmentAlignment"));
}

#[test]
fn role_optional_texts() {
    let role = |m: &Manifest| first_set(m).role.clone().unwrap();
    three_states(&|a| document("", "", Some(a), "", ""), "Role", "value", &|m| role(m).content);
    three_states(&|a| document("", "", Some(a), "", ""), "Role", "id", &|m| role(m).id);
    let without = decode(&document("", "", None, "", "")).unwrap();
    assert_eq!(first_set(&without).role, None);
    assert!(!encode(&without).unwrap().contains("<Role"));
    let with = decode(&document("", "", Some(""), "", "")).unwrap();
    assert_eq!(role(&with).scheme_id_uri, "");
    assert_eq!(role(&with).content, None);
    assert!(encode(&with).unwrap().contains("<Role schemeIdUri=\"\" />"));
    assert_eq!(decode(&encode(&with).unwrap()).unwrap(), with);
}

#[test]
fn representation_optional_texts() {
    three_states(&|a| document("", "", None, a, ""), "Representation", "mimeType", &|m| first_representation(m).mime_type.clone());
    three_states(&|a| document("", "", None, a, ""), "Representation", "codecs", &|m| first_representation(m).codecs.clone());
    three_states(&|a| document("", "", None, a, ""), "Representation", "sar", &|m| {
        first_representation(m).sample_aspect_ratio.clone()
    });
}

#[test]
fn representation_optional_numbers() {
    number_states(&|a| document("", "", None, a, ""), "Representation", "width", &|m| first_representation(m).width.map(u64::from));
    number_states(&|a| document("", "", None, a, ""), "Representation", "height", &|m| first_representation(m).height.map(u64::from));
    number_states(&|a| document("", "", None, a, ""), "Representation", "frameRate", &|m| {
        first_representation(m).frame_rate.map(u64::from)
    });
    number_states(&|a| document("", "", None, a, ""), "Representation", "startWithSAP", &|m| {
        first_representation(m).start_with_sap.map(u64::from)
    });
}

#[test]
fn segment_base_optional_fields() {
    let segment_base = |m: &Manifest| first_representation(m).segment_base.clone().unwrap();
    let build = |a: &str| document("", "", None, "", &format!("<SegmentBase {}><Initialization/></SegmentBase>", a));
    three_states(&build, "SegmentBase", "indexRange", &|m| segment_base(m).index_range);
    number_states(&build, "SegmentBase", "presentationTimeOffset", &|m| segment_base(m).presentation_time_offset);
    let without = decode(&document("", "", None, "", "")).unwrap();
    assert_eq!(first_representation(&without).segment_base, None);
    assert!(!encode(&without).unwrap().contains("SegmentBase"));
    let bare = decode(&document("", "", None, "", "<SegmentBase/>")).unwrap();
    assert!(!segment_base(&bare).index_range_exact);
    assert_eq!(segment_base(&bare).initialization.source_url, None);
    assert!(encode(&bare).unwrap().contains("<SegmentBase indexRangeExact=\"false\"><Initialization /></SegmentBase>"));
    assert_eq!(decode(&encode(&bare).unwrap()).unwrap(), bare);
}

#[test]
fn initialization_optional_texts() {
    let initialization = |m: &Manifest| first_representation(m).segment_base.clone().unwrap().initialization;
    let build = |a: &str| document("", "", None, "", &format!("<SegmentBase><Initialization {} /></SegmentBase>", a));
    three_states(&build, "Initialization", "sourceURL", &|m| initialization(m).source_url);
    three_states(&build, "Initialization", "range", &|m| initialization(m).range);
}

#[test]
fn audio_channel_configuration_optional_texts() {
    let configuration = |m: &Manifest| first_representation(m).audio_channel_configuration[0].clone();
    let build = |a: &str| document("", "", None, "", &format!("<AudioChannelConfiguration {} />", a));
    three_states(&build, "AudioChannelConfiguration", "value", &|m| configuration(m).content);
    three_states(&build, "AudioChannelConfiguration", "id", &|m| configuration(m).id);
    let none = decode(&document("", "", None, "", "")).unwrap();
    assert!(first_representation(&none).audio_channel_configuration.is_empty());
    let two = decode(&document(
        "",
        "",
        None,
        "",
        "<AudioChannelConfiguration id=\"1\"/><BaseURL>u</BaseURL><AudioChannelConfiguration id=\"2\"/>",
    ))
    .unwrap();
    let ids: Vec<Option<String>> =
        first_representation(&two).audio_channel_configuration.iter().map(|c| c.id.clone()).collect();
    assert_eq!(ids, vec![text("1"), text("2")]);
    assert_eq!(first_representation(&two).base_url, "u");
}

#[test]
fn program_information_is_optional() {
    let without = decode("<MPD><Period/></MPD>").unwrap();
    assert_eq!(without.program_information, None);
    assert!(!encode(&without).unwrap().contains("ProgramInformation"));
    let bare = decode("<MPD><ProgramInformation/><Period/></MPD>").unwrap();
    let information = bare.program_information.clone().unwrap();
    assert_eq!(information.more_information_url, "");
    assert_eq!(information.title, "");
    let written = encode(&bare).unwrap();
    assert!(written.contains("<ProgramInformation moreInformationURL=\"\"><Title /></ProgramInformation>"));
    assert_eq!(decode(&written).unwrap(), bare);
}

#[test]
fn the_last_of_repeated_single_children_counts() {
    let manifest = decode(
        "<MPD><Period duration=\"1\"/><Period duration=\"2\"><AdaptationSet><Role value=\"a\"/><Role value=\"b\"/><Representation><BaseURL>one</BaseURL><BaseURL>two</BaseURL></Representation></AdaptationSet></Period></MPD>",
    )
    .unwrap();
    assert_eq!(manifest.period.duration, "2");
    assert_eq!(first_set(&manifest).role.clone().unwrap().content, text("b"));
    assert_eq!(first_representation(&manifest).base_url, "two");
}
