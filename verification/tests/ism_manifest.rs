use manifest_worker::error::Error;
use manifest_worker::ism::decode::decode;
use manifest_worker::ism::message::{get_manifest_sources, SourceList};

const SAMPLE: &str = r#"<?xml version="1.0" encoding="utf-8"?>
<smil xmlns="http://www.w3.org/2001/SMIL20/Language">
  <head>
    <meta name="clientManifestRelativePath" content="test_file.ismc" />
    <paramGroup>
      <meta name="inner" content="value" />
    </paramGroup>
  </head>
  <body>
    <switch>
      <audio src="test_file.isma" systemBitrate="128000" systemLanguage="fra">
        <params name="trackID" value="1" valueType="data" />
      </audio>
      <audio src="test_file.isma" systemBitrate="64000" systemLanguage="eng" />
      <video src="test_file.ismv" systemBitrate="3000000">
        <params name="trackID" value="2" valueType="data" />
      </video>
      <video src="test_file.ismv" systemBitrate="1500000" />
      <textstream src="test_file.ismt" systemBitrate="1000" systemLanguage="fra" />
    </switch>
  </body>
</smil>
"#;

fn list(id: &str, sources: &[&str]) -> SourceList {
    SourceList { id: id.to_string(), sources: sources.iter().map(|s| s.to_string()).collect() }
}

#[test]
fn get_manifest_sources_test() {
    let result = get_manifest_sources(SAMPLE);
    assert!(result.is_ok());
    let parameters = result.unwrap();
    assert_eq!(parameters.len(), 3);
    for param in parameters {
        match param.id.as_str() {
            "audio" => assert_eq!(param.sources, vec!["test_file.isma".to_string()]),
            "video" => assert_eq!(param.sources, vec!["test_file.ismv".to_string()]),
            "subtitles" => assert_eq!(param.sources, vec!["test_file.ismt".to_string()]),
            _ => assert!(false),
        }
    }
}

#[test]
fn smil_decode_reads_every_field() {
    let smil = decode(SAMPLE).unwrap();
    assert_eq!(smil.head.meta.len(), 1);
    assert_eq!(smil.head.meta[0].name, "clientManifestRelativePath");
    assert_eq!(smil.head.meta[0].content, "test_file.ismc");
    assert_eq!(smil.head.param_group.len(), 1);
    assert_eq!(smil.head.param_group[0].meta[0].name, "inner");
    let switch = &smil.body.switch;
    assert_eq!(switch.audio.len(), 2);
    assert_eq!(switch.audio[0].source, "test_file.isma");
    assert_eq!(switch.audio[0].system_bit_rate, "128000");
    assert_eq!(switch.audio[0].system_language, "fra");
    assert_eq!(switch.audio[0].params.len(), 1);
    assert_eq!(switch.audio[0].params[0].name, "trackID");
    assert_eq!(switch.audio[0].params[0].value, "1");
    assert_eq!(switch.audio[0].params[0].value_type, "data");
    assert_eq!(switch.audio[1].system_language, "eng");
    assert!(switch.audio[1].params.is_empty());
    assert_eq!(switch.video.len(), 2);
    assert_eq!(switch.video[1].system_bit_rate, "1500000");
    assert_eq!(switch.text.len(), 1);
    assert_eq!(switch.text[0].source, "test_file.ismt");
    assert_eq!(switch.text[0].system_language, "fra");
}

#[test]
fn dedup_keeps_first_occurrences() {
    let text = r#"<smil><body><switch>
        <audio src="a.isma"/><audio src="b.isma"/><audio src="a.isma"/>
        <video src="b.isma"/><video src="c.ismv"/><video src="b.isma"/><video src="c.ismv"/><video src="a.isma"/>
    </switch></body></smil>"#;
    let smil = decode(text).unwrap();
    assert_eq!(smil.get_audio_stream_sources(), vec!["a.isma".to_string(), "b.isma".to_string()]);
    assert_eq!(
        smil.get_video_stream_sources(),
        vec!["b.isma".to_string(), "c.ismv".to_string(), "a.isma".to_string()]
    );
    assert!(smil.get_text_stream_sources().is_empty());
    assert_eq!(
        get_manifest_sources(text).unwrap(),
        vec![
            list("audio", &["a.isma", "b.isma"]),
            list("video", &["b.isma", "c.ismv", "a.isma"]),
            list("subtitles", &[]),
        ]
    );
}

#[test]
fn smil_without_head_or_body_is_empty() {
    let smil = decode("<smil/>").unwrap();
    assert!(smil.head.meta.is_empty());
    assert!(smil.head.param_group.is_empty());
    assert!(smil.body.switch.audio.is_empty());
    assert_eq!(
        get_manifest_sources("<smil><body/></smil>").unwrap(),
        vec![list("audio", &[]), list("video", &[]), list("subtitles", &[])]
    );
}

#[test]
fn smil_decode_rejects_what_is_no_manifest() {
    assert!(matches!(decode("<smil><body></smil>"), Err(Error::Parse(_))));
    assert!(matches!(decode("<MPD/>"), Err(Error::Parse(_))));
    assert!(matches!(decode("<smil xmlns=\"urn:other\"/>"), Err(Error::Parse(_))));
    assert!(matches!(get_manifest_sources(""), Err(Error::Parse(_))));
}

#[test]
fn malformed_smil_reports_the_reader_message() {
    let tokens = manifest_worker::xml::reader::read_tokens("<smil><body></smil>");
    let message = match tokens.last() {
        Some(manifest_worker::xml::token::Token::Malformed(message)) => message.clone(),
        _ => panic!("expected the reader to stop on an error"),
    };
    assert_eq!(decode("<smil><body></smil>"), Err(Error::Parse(message.clone())));
    assert_eq!(get_manifest_sources("<smil><body></smil>"), Err(Error::Parse(message)));
}
