use manifest_worker::dash::decode::decode;
use manifest_worker::dash::encode::encode;
use manifest_worker::dash::manifest::{AdaptationSet, Manifest, Period};
use manifest_worker::dash::message::{add_ttml_subtitle, subtitle_reference, update_manifest};
use manifest_worker::dash::representation::{Representation, Role};
use manifest_worker::error::Error;
use manifest_worker::parameters::DashManifestParameters;

const SAMPLE: &str = r#"<?xml version="1.0"?>
<!-- a presentation with one video and one audio track -->
<MPD xmlns="urn:mpeg:dash:schema:mpd:2011" minBufferTime="PT1.500S" type="static" mediaPresentationDuration="PT0H1M30.08S" maxSegmentDuration="PT0H0M2.000S" profiles="urn:mpeg:dash:profile:full:2011">
 <ProgramInformation moreInformationURL="http://gpac.io">
  <Title>sample &amp; co</Title>
 </ProgramInformation>
 <Period duration="PT0H1M30.08S">
  <AdaptationSet segmentAlignment="true" maxWidth="1920" maxHeight="1080" maxFrameRate="25" par="16:9" lang="und" subsegmentAlignment="1" subsegmentStartsWithSAP="1">
   <Representation id="v1" mimeType="video/mp4" codecs="avc1.640028" width="1920" height="1080" frameRate="25" sar="1:1" startWithSAP="1" bandwidth="5000000">
    <BaseURL>video.mp4</BaseURL>
    <SegmentBase indexRangeExact="true" indexRange="837-1056" presentationTimeOffset="12">
     <Initialization sourceURL="init.mp4" range="0-836"/>
    </SegmentBase>
   </Representation>
  </AdaptationSet>
  <AdaptationSet segmentAlignment="true" lang="fra">
   <Role schemeIdUri="urn:mpeg:dash:role:2011" value="main"/>
   <Representation id="a1" mimeType="audio/mp4" codecs="mp4a.40.2" startWithSAP="1" bandwidth="128000">
    <AudioChannelConfiguration schemeIdUri="urn:mpeg:dash:23003:3:audio_channel_configuration:2011" value="2"/>
    <BaseURL>audio.mp4</BaseURL>
    <SegmentBase indexRangeExact="false" indexRange="700-900">
     <Initialization range="0-699"/>
    </SegmentBase>
   </Representation>
  </AdaptationSet>
  <AdaptationSet segmentAlignment="true" lang="qaa" mimeType="application/ttml+xml" contentType="text">
   <Role schemeIdUri="urn:mpeg:dash:role:2011" value="subtitle"/>
   <Representation id="s1" bandwidth="42">
    <BaseURL>old.ttml</BaseURL>
   </Representation>
  </AdaptationSet>
 </Period>
</MPD>
"#;

fn parameters(ttml_path: &str, language: &str) -> DashManifestParameters {
    DashManifestParameters {
        source_path: "tests/sample_1.mpd".to_string(),
        ttml_path: ttml_path.to_string(),
        ttml_language: language.to_string(),
        ttml_role: "subtitle".to_string(),
        replace: None,
        destination_path: None,
        reference_url: None,
    }
}

fn base_urls(manifest: &Manifest) -> Vec<String> {
    let mut urls = vec![];
    for set in &manifest.period.adaptation_set {
        for representation in &set.representation {
            urls.push(representation.base_url.clone());
        }
    }
    urls
}

#[test]
fn decode_reads_every_field() {
    let manifest = decode(SAMPLE).unwrap();
    assert_eq!(manifest.min_buffer_time, Some("PT1.500S".to_string()));
    assert_eq!(manifest.media_presentation_duration, "PT0H1M30.08S");
    assert_eq!(manifest.max_segment_duration, "PT0H0M2.000S");
    assert_eq!(manifest.profiles, "urn:mpeg:dash:profile:full:2011");
    assert_eq!(manifest.kind, "static");
    let information = manifest.program_information.as_ref().unwrap();
    assert_eq!(information.more_information_url, "http://gpac.io");
    assert_eq!(information.title, "sample & co");
    assert_eq!(manifest.period.duration, "PT0H1M30.08S");
    assert_eq!(manifest.period.adaptation_set.len(), 3);

    let video = &manifest.period.adaptation_set[0];
    assert!(video.segment_alignment);
    assert_eq!(video.max_width, Some(1920));
    assert_eq!(video.max_height, Some(1080));
    assert_eq!(video.max_frame_rate, Some(25));
    assert_eq!(video.pixel_aspect_ratio, Some("16:9".to_string()));
    assert_eq!(video.language, "und");
    assert_eq!(video.subsegment_alignment, Some(true));
    assert_eq!(video.subsegment_starts_with_sap, Some("1".to_string()));
    assert_eq!(video.mime_type, None);
    assert_eq!(video.content_type, None);
    assert_eq!(video.role, None);
    assert_eq!(video.representation.len(), 1);
    let v1 = &video.representation[0];
    assert_eq!(v1.id, "v1");
    assert_eq!(v1.mime_type, Some("video/mp4".to_string()));
    assert_eq!(v1.codecs, Some("avc1.640028".to_string()));
    assert_eq!(v1.width, Some(1920));
    assert_eq!(v1.height, Some(1080));
    assert_eq!(v1.frame_rate, Some(25));
    assert_eq!(v1.sample_aspect_ratio, Some("1:1".to_string()));
    assert_eq!(v1.start_with_sap, Some(1));
    assert_eq!(v1.bandwidth, 5000000);
    assert_eq!(v1.base_url, "video.mp4");
    assert!(v1.audio_channel_configuration.is_empty());
    let segment_base = v1.segment_base.as_ref().unwrap();
    assert!(segment_base.index_range_exact);
    assert_eq!(segment_base.index_range, Some("837-1056".to_string()));
    assert_eq!(segment_base.presentation_time_offset, Some(12));
    assert_eq!(segment_base.initialization.source_url, Some("init.mp4".to_string()));
    assert_eq!(segment_base.initialization.range, Some("0-836".to_string()));

    let audio = &manifest.period.adaptation_set[1];
    assert_eq!(audio.language, "fra");
    assert_eq!(audio.subsegment_alignment, None);
    let role = audio.role.as_ref().unwrap();
    assert_eq!(role.scheme_id_uri, "urn:mpeg:dash:role:2011");
    assert_eq!(role.content, Some("main".to_string()));
    assert_eq!(role.id, None);
    let a1 = &audio.representation[0];
    assert_eq!(a1.width, None);
    assert_eq!(a1.audio_channel_configuration.len(), 1);
    assert_eq!(a1.audio_channel_configuration[0].content, Some("2".to_string()));
    let segment_base = a1.segment_base.as_ref().unwrap();
    assert!(!segment_base.index_range_exact);
    assert_eq!(segment_base.presentation_time_offset, None);
    assert_eq!(segment_base.initialization.source_url, None);
}

#[test]
fn round_trip_keeps_the_model() {
    let first = decode(SAMPLE).unwrap();
    let text = encode(&first).unwrap();
    let second = decode(&text).unwrap();
    assert_eq!(first, second);
}

#[test]
fn encode_writes_the_expected_text() {
    let manifest = Manifest {
        min_buffer_time: None,
        media_presentation_duration: "PT1S".to_string(),
        max_segment_duration: "PT2S".to_string(),
        profiles: "p".to_string(),
        kind: "static".to_string(),
        program_information: None,
        period: Period {
            duration: "PT1S".to_string(),
            adaptation_set: vec![AdaptationSet::new_ttml_subtitle("a<b.ttml", "fra", "subtitle", 7)],
        },
    };
    let text = encode(&manifest).unwrap();
    assert_eq!(
        text,
        "<?xml version=\"1.0\" encoding=\"UTF-8\"?>\
         <MPD xmlns=\"urn:mpeg:dash:schema:mpd:2011\" mediaPresentationDuration=\"PT1S\" maxSegmentDuration=\"PT2S\" profiles=\"p\" type=\"static\">\
         <Period duration=\"PT1S\">\
         <AdaptationSet segmentAlignment=\"true\" lang=\"fra\" mimeType=\"application/ttml+xml\" contentType=\"text\">\
         <Role schemeIdUri=\"urn:mpeg:dash:role:2011\" value=\"subtitle\" />\
         <Representation id=\"s1\" bandwidth=\"7\"><BaseURL>a&lt;b.ttml</BaseURL></Representation>\
         </AdaptationSet></Period></MPD>"
    );
}

#[test]
fn absent_optional_fields_stay_absent() {
    let text = r#"<MPD mediaPresentationDuration="" maxSegmentDuration="" profiles="" type=""><Period duration=""><AdaptationSet segmentAlignment="false" lang="" par=""><Representation id="" bandwidth="0" codecs=""><BaseURL></BaseURL></Representation></AdaptationSet></Period></MPD>"#;
    let manifest = decode(text).unwrap();
    assert_eq!(manifest.min_buffer_time, None);
    assert_eq!(manifest.program_information, None);
    let set = &manifest.period.adaptation_set[0];
    assert_eq!(set.pixel_aspect_ratio, Some(String::new()));
    assert_eq!(set.mime_type, None);
    assert_eq!(set.role, None);
    let representation = &set.representation[0];
    assert_eq!(representation.codecs, Some(String::new()));
    assert_eq!(representation.mime_type, None);
    assert_eq!(representation.segment_base, None);
    let again = decode(&encode(&manifest).unwrap()).unwrap();
    assert_eq!(manifest, again);
    let written = encode(&manifest).unwrap();
    assert!(written.contains("par=\"\""));
    assert!(written.contains("codecs=\"\""));
    assert!(!written.contains("minBufferTime"));
    assert!(!written.contains("mimeType"));
    assert!(!written.contains("Role"));
    assert!(!written.contains("SegmentBase"));
}

#[test]
fn missing_required_fields_read_as_empty() {
    let manifest = decode("<MPD/>").unwrap();
    assert_eq!(manifest.media_presentation_duration, "");
    assert_eq!(manifest.kind, "");
    assert_eq!(manifest.period, Period::default());
    let manifest = decode("<MPD><Period><AdaptationSet><Representation/></AdaptationSet></Period></MPD>").unwrap();
    let set = &manifest.period.adaptation_set[0];
    assert!(!set.segment_alignment);
    assert_eq!(set.language, "");
    assert_eq!(set.representation[0], Representation::default());
}

#[test]
fn unknown_names_are_passed_over() {
    let text = r#"<MPD foo="1" type="static"><Other><Period duration="no"/></Other><Period duration="yes"><Extra/></Period></MPD>"#;
    let manifest = decode(text).unwrap();
    assert_eq!(manifest.kind, "static");
    assert_eq!(manifest.period.duration, "yes");
    assert!(manifest.period.adaptation_set.is_empty());
}

#[test]
fn decode_rejects_malformed_text() {
    assert!(matches!(decode("<MPD><Period></MPD>"), Err(Error::Parse(_))));
    assert!(matches!(decode(""), Err(Error::Parse(_))));
    assert!(matches!(decode("not xml"), Err(Error::Parse(_))));
    assert!(matches!(decode("<MPD a=\"1\" a=\"2\"/>"), Err(Error::Parse(_))));
}

#[test]
fn decode_rejects_another_root() {
    assert!(matches!(decode("<smil/>"), Err(Error::Parse(_))));
    assert!(matches!(decode("<MPD xmlns=\"urn:other\"/>"), Err(Error::Parse(_))));
    assert!(decode("<MPD xmlns=\"urn:mpeg:dash:schema:mpd:2011\"/>").is_ok());
}

#[test]
fn decode_rejects_bad_numbers_and_truth_values() {
    let with = |attribute: &str| {
        format!(
            "<MPD><Period><AdaptationSet segmentAlignment=\"true\"><Representation {} /></AdaptationSet></Period></MPD>",
            attribute
        )
    };
    assert!(decode(&with("width=\"12\"")).is_ok());
    assert!(decode(&with("width=\"+12\"")).is_ok());
    assert!(decode(&with("width=\"4294967295\"")).is_ok());
    assert!(matches!(decode(&with("width=\"4294967296\"")), Err(Error::Parse(_))));
    assert!(matches!(decode(&with("width=\"-1\"")), Err(Error::Parse(_))));
    assert!(matches!(decode(&with("width=\"\"")), Err(Error::Parse(_))));
    assert!(matches!(decode(&with("width=\"12px\"")), Err(Error::Parse(_))));
    assert!(decode(&with("startWithSAP=\"255\"")).is_ok());
    assert!(matches!(decode(&with("startWithSAP=\"256\"")), Err(Error::Parse(_))));
    assert!(decode(&with("bandwidth=\"18446744073709551615\"")).is_ok());
    assert!(matches!(decode(&with("bandwidth=\"18446744073709551616\"")), Err(Error::Parse(_))));
    let set = |attribute: &str| format!("<MPD><Period><AdaptationSet {} /></Period></MPD>", attribute);
    assert!(decode(&set("segmentAlignment=\"0\"")).is_ok());
    assert!(matches!(decode(&set("segmentAlignment=\"yes\"")), Err(Error::Parse(_))));
    assert!(matches!(decode(&set("subsegmentAlignment=\"TRUE\"")), Err(Error::Parse(_))));
}

#[test]
fn add_adaptation_set_appends_one() {
    let mut manifest = decode(SAMPLE).unwrap();
    let before = manifest.clone();
    let set = AdaptationSet::new_ttml_subtitle("x.ttml", "deu", "caption", 9);
    manifest.add_adaptation_set(set.clone());
    assert_eq!(manifest.period.adaptation_set.len(), before.period.adaptation_set.len() + 1);
    assert_eq!(manifest.period.adaptation_set.last(), Some(&set));
    assert_eq!(&manifest.period.adaptation_set[..3], &before.period.adaptation_set[..]);
    assert_eq!(manifest.period.duration, before.period.duration);
    assert_eq!(manifest.program_information, before.program_information);
}

#[test]
fn new_ttml_subtitle_is_canonical() {
    let set = AdaptationSet::new_ttml_subtitle("sub.ttml", "fra", "subtitle", 1234);
    assert_eq!(
        set,
        AdaptationSet {
            segment_alignment: true,
            max_width: None,
            max_height: None,
            max_frame_rate: None,
            pixel_aspect_ratio: None,
            language: "fra".to_string(),
            subsegment_alignment: None,
            subsegment_starts_with_sap: None,
            mime_type: Some("application/ttml+xml".to_string()),
            content_type: Some("text".to_string()),
            role: Some(Role {
                scheme_id_uri: "urn:mpeg:dash:role:2011".to_string(),
                content: Some("subtitle".to_string()),
                id: None,
            }),
            representation: vec![Representation {
                id: "s1".to_string(),
                mime_type: None,
                codecs: None,
                width: None,
                height: None,
                frame_rate: None,
                sample_aspect_ratio: None,
                start_with_sap: None,
                bandwidth: 1234,
                audio_channel_configuration: vec![],
                base_url: "sub.ttml".to_string(),
                segment_base: None,
            }],
        }
    );
}

#[test]
fn remove_adaptation_set_removes_every_match() {
    let mut manifest = decode(SAMPLE).unwrap();
    manifest.add_adaptation_set(AdaptationSet::new_ttml_subtitle("x.ttml", "qaa", "subtitle", 1));
    manifest.add_adaptation_set(AdaptationSet::new_ttml_subtitle("y.ttml", "qaa", "caption", 1));
    let before = manifest.clone();
    manifest.remove_adaptation_set("qaa", "subtitle");
    let left: Vec<&str> = manifest.period.adaptation_set.iter().map(|s| s.language.as_str()).collect();
    assert_eq!(left, vec!["und", "fra", "qaa"]);
    assert_eq!(manifest.period.adaptation_set[0], before.period.adaptation_set[0]);
    assert_eq!(manifest.period.adaptation_set[1], before.period.adaptation_set[1]);
    assert_eq!(manifest.period.adaptation_set[2], before.period.adaptation_set[4]);
}

#[test]
fn remove_adaptation_set_without_match_changes_nothing() {
    let mut manifest = decode(SAMPLE).unwrap();
    let before = manifest.clone();
    manifest.remove_adaptation_set("fra", "subtitle");
    assert_eq!(manifest, before);
    manifest.remove_adaptation_set("und", "main");
    assert_eq!(manifest, before);
}

#[test]
fn prefix_urls_reaches_every_location() {
    let mut manifest = decode(SAMPLE).unwrap();
    manifest.prefix_urls("http://cdn/");
    assert_eq!(
        base_urls(&manifest),
        vec!["http://cdn/video.mp4", "http://cdn/audio.mp4", "http://cdn/old.ttml"]
    );
    let v1 = &manifest.period.adaptation_set[0].representation[0];
    assert_eq!(
        v1.segment_base.as_ref().unwrap().initialization.source_url,
        Some("http://cdn/init.mp4".to_string())
    );
    assert_eq!(v1.segment_base.as_ref().unwrap().initialization.range, Some("0-836".to_string()));
    let a1 = &manifest.period.adaptation_set[1].representation[0];
    assert_eq!(a1.segment_base.as_ref().unwrap().initialization.source_url, None);
    assert_eq!(a1.id, "a1");
}

#[test]
fn insert_scenario() {
    let text = r#"<MPD type="static"><Period duration="PT1S"><AdaptationSet segmentAlignment="true" lang="und"><Representation id="v1" bandwidth="1"><BaseURL>video.mp4</BaseURL></Representation></AdaptationSet></Period></MPD>"#;
    let mut given = parameters("subtitle.ttml", "fra");
    given.replace = Some(false);
    let updated = add_ttml_subtitle(&given, text, 4321).unwrap();
    let manifest = decode(&updated).unwrap();
    assert_eq!(manifest.period.adaptation_set.len(), 2);
    let last = manifest.period.adaptation_set.last().unwrap();
    assert_eq!(last.language, "fra");
    assert_eq!(last.role.as_ref().unwrap().content, Some("subtitle".to_string()));
    assert_eq!(last.mime_type, Some("application/ttml+xml".to_string()));
    assert_eq!(last.representation.len(), 1);
    assert_eq!(last.representation[0].bandwidth, 4321);
    assert_eq!(last.representation[0].base_url, "subtitle.ttml");
    assert_eq!(manifest.period.adaptation_set[0], decode(text).unwrap().period.adaptation_set[0]);
}

#[test]
fn relative_subtitle_scenario() {
    let given = parameters("tests/sample_subtitle.ttml", "fra");
    let updated = add_ttml_subtitle(&given, SAMPLE, 666).unwrap();
    let manifest = decode(&updated).unwrap();
    assert_eq!(manifest.period.adaptation_set.len(), 4);
    let last = manifest.period.adaptation_set.last().unwrap();
    assert_eq!(last, &AdaptationSet::new_ttml_subtitle("sample_subtitle.ttml", "fra", "subtitle", 666));
}

#[test]
fn http_subtitle_scenario() {
    let mut given = parameters("http://server/static/sample_subtitle.ttml", "fra");
    given.replace = Some(false);
    let updated = add_ttml_subtitle(&given, SAMPLE, 0).unwrap();
    let manifest = decode(&updated).unwrap();
    let last = manifest.period.adaptation_set.last().unwrap();
    assert_eq!(last.representation[0].base_url, "http://server/static/sample_subtitle.ttml");
    assert_eq!(last.representation[0].bandwidth, 0);
}

#[test]
fn replace_and_prefix_scenario() {
    let mut given = parameters("tests/sample_subtitle.ttml", "qaa");
    given.replace = Some(true);
    given.reference_url = Some("http://server.com/dash/".to_string());
    let updated = add_ttml_subtitle(&given, SAMPLE, 666).unwrap();
    let manifest = decode(&updated).unwrap();
    assert_eq!(
        base_urls(&manifest),
        vec![
            "http://server.com/dash/video.mp4",
            "http://server.com/dash/audio.mp4",
            "sample_subtitle.ttml"
        ]
    );
    let matching: Vec<&AdaptationSet> = manifest
        .period
        .adaptation_set
        .iter()
        .filter(|s| s.language == "qaa" && s.role.as_ref().and_then(|r| r.content.clone()) == Some("subtitle".to_string()))
        .collect();
    assert_eq!(matching.len(), 1);
    assert_eq!(matching[0], manifest.period.adaptation_set.last().unwrap());
    assert_eq!(matching[0].representation[0].bandwidth, 666);
}

#[test]
fn prefix_without_replace_keeps_the_old_track() {
    let mut given = parameters("tests/sample_subtitle.ttml", "qaa");
    given.replace = Some(false);
    given.reference_url = Some("http://server.com/dash/manifest.mpd".to_string());
    let updated = add_ttml_subtitle(&given, SAMPLE, 666).unwrap();
    let manifest = decode(&updated).unwrap();
    assert_eq!(
        base_urls(&manifest),
        vec![
            "http://server.com/dash/manifest.mpdvideo.mp4",
            "http://server.com/dash/manifest.mpdaudio.mp4",
            "http://server.com/dash/manifest.mpdold.ttml",
            "sample_subtitle.ttml"
        ]
    );
}

#[test]
fn replace_leaves_the_others_untouched() {
    let mut given = parameters("tests/new.ttml", "qaa");
    given.replace = Some(true);
    let before = decode(SAMPLE).unwrap();
    let after = decode(&add_ttml_subtitle(&given, SAMPLE, 5).unwrap()).unwrap();
    assert_eq!(after.period.adaptation_set.len(), 3);
    assert_eq!(after.period.adaptation_set[0], before.period.adaptation_set[0]);
    assert_eq!(after.period.adaptation_set[1], before.period.adaptation_set[1]);
    assert_eq!(after.period.adaptation_set[2].representation[0].base_url, "new.ttml");
}

#[test]
fn operation_fails_without_a_directory() {
    let mut given = parameters("subtitle.ttml", "fra");
    given.source_path = "manifest.mpd".to_string();
    assert_eq!(add_ttml_subtitle(&given, SAMPLE, 1), Err(Error::PathResolution));
    assert_eq!(subtitle_reference(&given), Err(Error::PathResolution));
    assert_eq!(add_ttml_subtitle(&given, "not xml", 1), Err(Error::PathResolution));
}

#[test]
fn operation_fails_on_a_bad_manifest() {
    let given = parameters("subtitle.ttml", "fra");
    assert!(matches!(add_ttml_subtitle(&given, "<MPD>", 1), Err(Error::Parse(_))));
    assert!(matches!(update_manifest(&given, "subtitle.ttml", "<a/>", 1), Err(Error::Parse(_))));
}

#[test]
fn encode_succeeds_on_awkward_values() {
    let mut manifest = decode(SAMPLE).unwrap();
    manifest.kind = "a \"quoted\" <type> & more\n".to_string();
    manifest.min_buffer_time = Some(String::new());
    manifest.period.adaptation_set[0].representation[0].base_url = "  spaced & <odd> \u{1F600} ".to_string();
    manifest.period.adaptation_set[1].language = "\u{0}".to_string();
    manifest.period.adaptation_set.push(AdaptationSet::new_ttml_subtitle("", "", "", u64::MAX));
    assert!(encode(&manifest).is_ok());
    let empty = Manifest {
        min_buffer_time: None,
        media_presentation_duration: String::new(),
        max_segment_duration: String::new(),
        profiles: String::new(),
        kind: String::new(),
        program_information: None,
        period: Period::default(),
    };
    assert_eq!(
        encode(&empty).unwrap(),
        "<?xml version=\"1.0\" encoding=\"UTF-8\"?><MPD xmlns=\"urn:mpeg:dash:schema:mpd:2011\" mediaPresentationDuration=\"\" maxSegmentDuration=\"\" profiles=\"\" type=\"\"><Period duration=\"\" /></MPD>"
    );
}

#[test]
fn malformed_text_reports_the_reader_message() {
    let tokens = manifest_worker::xml::reader::read_tokens("<MPD><Period></MPD>");
    let message = match tokens.last() {
        Some(manifest_worker::xml::token::Token::Malformed(message)) => message.clone(),
        _ => panic!("expected the reader to stop on an error"),
    };
    assert!(!message.is_empty());
    assert_eq!(decode("<MPD><Period></MPD>"), Err(Error::Parse(message.clone())));
    let given = parameters("subtitle.ttml", "fra");
    assert_eq!(add_ttml_subtitle(&given, "<MPD><Period></MPD>", 1), Err(Error::Parse(message.clone())));
    assert_eq!(update_manifest(&given, "s.ttml", "<MPD><Period></MPD>", 1), Err(Error::Parse(message)));
}
