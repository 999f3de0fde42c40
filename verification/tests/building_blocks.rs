use manifest_worker::error::Error;
use manifest_worker::parameters::{DashManifestParameters, IsmManifestParameters};
use manifest_worker::path::{directory_of, reference_from, resolve};
use manifest_worker::text::{format_bool, format_number, parse_bool, parse_number};
use manifest_worker::utils::remove_duplicates;
use manifest_worker::xml::parse::{parse_document, read_document};
use manifest_worker::xml::reader::read_tokens;
use manifest_worker::xml::token::Token;
use manifest_worker::xml::tree::{Attribute, Element};
use manifest_worker::xml::writer::write_document;

fn strings(items: &[&str]) -> Vec<String> {
    items.iter().map(|s| s.to_string()).collect()
}

#[test]
fn resolve_makes_nested_assets_relative() {
    assert_eq!(resolve("a/b/manifest.mpd", "a/b/sub.ttml"), Ok("sub.ttml".to_string()));
    assert_eq!(resolve("a/b/manifest.mpd", "a/b/c/sub.ttml"), Ok("c/sub.ttml".to_string()));
    assert_eq!(resolve("/a/manifest.mpd", "/a/sub.ttml"), Ok("sub.ttml".to_string()));
}

#[test]
fn resolve_leaves_other_assets_unchanged() {
    assert_eq!(
        resolve("a/b/manifest.mpd", "http://host/sub.ttml"),
        Ok("http://host/sub.ttml".to_string())
    );
    assert_eq!(resolve("a/b/manifest.mpd", "a/sub.ttml"), Ok("a/sub.ttml".to_string()));
    assert_eq!(resolve("a/b/manifest.mpd", "a/bc/sub.ttml"), Ok("a/bc/sub.ttml".to_string()));
    assert_eq!(resolve("a/b/manifest.mpd", "a/b/../sub.ttml"), Ok("../sub.ttml".to_string()));
    assert_eq!(resolve("a/b/manifest.mpd", "sub.ttml"), Ok("sub.ttml".to_string()));
}

#[test]
fn resolve_fails_without_a_directory() {
    assert_eq!(resolve("manifest.mpd", "sub.ttml"), Err(Error::PathResolution));
    assert_eq!(resolve("", "sub.ttml"), Err(Error::PathResolution));
    assert_eq!(resolve("/", "sub.ttml"), Err(Error::PathResolution));
}

#[test]
fn directory_and_reference_from_given_values() {
    assert_eq!(directory_of(Some("a/b".to_string())), Ok("a/b".to_string()));
    assert_eq!(directory_of(Some(String::new())), Err(Error::PathResolution));
    assert_eq!(directory_of(None), Err(Error::PathResolution));
    assert_eq!(reference_from(Some("sub.ttml".to_string()), "a/b/sub.ttml"), "sub.ttml");
    assert_eq!(reference_from(None, "http://host/sub.ttml"), "http://host/sub.ttml");
}

#[test]
fn numbers_as_text() {
    assert_eq!(format_number(0), "0");
    assert_eq!(format_number(7), "7");
    assert_eq!(format_number(10), "10");
    assert_eq!(format_number(5000000), "5000000");
    assert_eq!(format_number(u64::MAX), "18446744073709551615");
    assert_eq!(parse_number("0", 10), Some(0));
    assert_eq!(parse_number("007", 10), Some(7));
    assert_eq!(parse_number("+7", 10), Some(7));
    assert_eq!(parse_number("10", 10), Some(10));
    assert_eq!(parse_number("11", 10), None);
    assert_eq!(parse_number("18446744073709551615", u64::MAX), Some(u64::MAX));
    assert_eq!(parse_number("18446744073709551616", u64::MAX), None);
    assert_eq!(parse_number("99999999999999999999999", u64::MAX), None);
    assert_eq!(parse_number("", 10), None);
    assert_eq!(parse_number("+", 10), None);
    assert_eq!(parse_number("-1", 10), None);
    assert_eq!(parse_number("1 ", 10), None);
    assert_eq!(parse_number("++1", 10), None);
    assert_eq!(parse_number("1+", 10), None);
    assert_eq!(parse_number("٣", 10), None);
}

#[test]
fn number_text_matches_std() {
    for n in [0u64, 1, 9, 10, 99, 100, 255, 256, 65535, 4294967295, 4294967296, u64::MAX] {
        assert_eq!(format_number(n), n.to_string());
        assert_eq!(parse_number(&n.to_string(), u64::MAX), Some(n));
    }
    for text in ["", "+", "-0", "0x10", "1e3", " 1", "+0", "0000", "4294967296"] {
        assert_eq!(parse_number(text, u32::MAX as u64), text.parse::<u32>().ok().map(|n| n as u64));
    }
}

#[test]
fn truth_values_as_text() {
    assert_eq!(format_bool(true), "true");
    assert_eq!(format_bool(false), "false");
    assert_eq!(parse_bool("true"), Some(true));
    assert_eq!(parse_bool("1"), Some(true));
    assert_eq!(parse_bool("false"), Some(false));
    assert_eq!(parse_bool("0"), Some(false));
    assert_eq!(parse_bool("True"), None);
    assert_eq!(parse_bool(""), None);
}

#[test]
fn remove_duplicates_keeps_first_occurrences() {
    assert_eq!(remove_duplicates(strings(&["a", "b", "a"])), strings(&["a", "b"]));
    assert_eq!(remove_duplicates(strings(&["a", "a", "a"])), strings(&["a"]));
    assert_eq!(remove_duplicates(strings(&["c", "b", "a"])), strings(&["c", "b", "a"]));
    assert_eq!(remove_duplicates(strings(&["b", "a", "b", "c", "a"])), strings(&["b", "a", "c"]));
    assert_eq!(remove_duplicates(vec![]), Vec::<String>::new());
}

#[test]
fn required_parameters() {
    let some = |s: &str| Some(s.to_string());
    let given = DashManifestParameters::required(
        some("a/m.mpd"),
        some("a/s.ttml"),
        some("fra"),
        some("subtitle"),
        None,
        None,
        some("http://x/"),
    )
    .unwrap();
    assert_eq!(given.source_path, "a/m.mpd");
    assert_eq!(given.ttml_path, "a/s.ttml");
    assert_eq!(given.ttml_language, "fra");
    assert_eq!(given.ttml_role, "subtitle");
    assert_eq!(given.replace, None);
    assert!(!given.replaces());
    assert_eq!(given.destination(), "a/m.mpd");
    assert_eq!(given.reference_url, some("http://x/"));
    let missing = |a: Option<String>, b: Option<String>, c: Option<String>, d: Option<String>| {
        DashManifestParameters::required(a, b, c, d, Some(true), some("out.mpd"), None)
    };
    assert_eq!(
        missing(None, None, None, None),
        Err(Error::MissingParameter("source_path".to_string()))
    );
    assert_eq!(
        missing(some("m"), None, some("fra"), None),
        Err(Error::MissingParameter("ttml_path".to_string()))
    );
    assert_eq!(
        missing(some("m"), some("s"), None, None),
        Err(Error::MissingParameter("ttml_language".to_string()))
    );
    assert_eq!(
        missing(some("m"), some("s"), some("fra"), None),
        Err(Error::MissingParameter("ttml_role".to_string()))
    );
    let given = missing(some("m"), some("s"), some("fra"), some("r")).unwrap();
    assert!(given.replaces());
    assert_eq!(given.destination(), "out.mpd");
    assert_eq!(
        IsmManifestParameters::required(None),
        Err(Error::MissingParameter("source_path".to_string()))
    );
    assert_eq!(IsmManifestParameters::required(some("a.ism")).unwrap().source_path, "a.ism");
}

#[test]
fn error_messages() {
    assert_eq!(Error::MissingParameter("ttml_path".to_string()).message(), "ttml_path");
    assert_eq!(
        Error::PathResolution.message(),
        "unable to found folder directory of the manifest"
    );
    assert_eq!(Error::Io("gone".to_string()).message(), "gone");
    assert_eq!(Error::Parse("bad".to_string()).message(), "bad");
    assert_eq!(Error::Serialize("worse".to_string()).message(), "worse");
}

#[test]
fn read_tokens_reports_the_document() {
    let tokens = read_tokens("<?xml version=\"1.0\"?><!-- c --><a x=\"1\" y=\"&lt;\"> hi <b/>there</a>");
    assert_eq!(tokens.len(), 7);
    match &tokens[0] {
        Token::Start { name, namespace, attributes } => {
            assert_eq!(name, "a");
            assert_eq!(namespace, &None);
            assert_eq!(attributes.len(), 2);
            assert_eq!(attributes[0].name, "x");
            assert_eq!(attributes[0].value, "1");
            assert_eq!(attributes[1].name, "y");
            assert_eq!(attributes[1].value, "<");
        }
        _ => panic!("expected an opening tag"),
    }
    assert!(matches!(&tokens[1], Token::Text(text) if text == "hi"));
    assert!(matches!(&tokens[2], Token::Start { name, .. } if name == "b"));
    assert!(matches!(&tokens[3], Token::End { name } if name == "b"));
    assert!(matches!(&tokens[4], Token::Text(text) if text == "there"));
    assert!(matches!(&tokens[5], Token::End { name } if name == "a"));
    assert!(matches!(&tokens[6], Token::EndOfDocument));
}

#[test]
fn read_tokens_ends_with_the_error() {
    let tokens = read_tokens("<a><b></a>");
    assert!(matches!(tokens.last(), Some(Token::Malformed(_))));
    assert!(tokens[..tokens.len() - 1].iter().all(|t| !matches!(t, Token::Malformed(_) | Token::EndOfDocument)));
    let tokens = read_tokens("");
    assert_eq!(tokens.len(), 1);
    assert!(matches!(&tokens[0], Token::Malformed(_)));
    match parse_document(&tokens) {
        Err(Error::Parse(detail)) => match &tokens[0] {
            Token::Malformed(message) => assert_eq!(&detail, message),
            _ => unreachable!(),
        },
        _ => panic!("expected a parse error"),
    }
}

#[test]
fn read_tokens_resolves_namespaces() {
    let tokens = read_tokens("<a xmlns=\"urn:x\" xmlns:p=\"urn:p\"><p:b p:k=\"v\"/></a>");
    assert!(matches!(&tokens[0], Token::Start { name, namespace, .. } if name == "a" && namespace == &Some("urn:x".to_string())));
    match &tokens[1] {
        Token::Start { name, namespace, attributes } => {
            assert_eq!(name, "b");
            assert_eq!(namespace, &Some("urn:p".to_string()));
            assert_eq!(attributes.len(), 1);
            assert_eq!(attributes[0].name, "k");
        }
        _ => panic!("expected an opening tag"),
    }
}

#[test]
fn parse_document_builds_the_tree() {
    let root = read_document("<a x=\"1\">one<b><c/></b>two<d>three</d></a>").unwrap();
    assert_eq!(root.name, "a");
    assert_eq!(root.attributes.len(), 1);
    assert_eq!(root.text, "onetwo");
    assert_eq!(root.children.len(), 2);
    assert_eq!(root.children[0].name, "b");
    assert_eq!(root.children[0].children[0].name, "c");
    assert_eq!(root.children[1].name, "d");
    assert_eq!(root.children[1].text, "three");
}

#[test]
fn parse_document_rejects_ill_nested_tokens() {
    let start = |name: &str| Token::Start { name: name.to_string(), namespace: None, attributes: vec![] };
    let end = |name: &str| Token::End { name: name.to_string() };
    assert!(parse_document(&vec![start("a"), end("a"), Token::EndOfDocument]).is_ok());
    assert!(matches!(parse_document(&vec![]), Err(Error::Parse(_))));
    assert!(matches!(parse_document(&vec![Token::EndOfDocument]), Err(Error::Parse(_))));
    assert!(matches!(parse_document(&vec![start("a"), end("b"), Token::EndOfDocument]), Err(Error::Parse(_))));
    assert!(matches!(parse_document(&vec![start("a"), Token::EndOfDocument]), Err(Error::Parse(_))));
    assert!(matches!(parse_document(&vec![start("a"), end("a")]), Err(Error::Parse(_))));
    assert!(matches!(parse_document(&vec![start("a"), Token::Other, end("a"), Token::EndOfDocument]), Err(Error::Parse(_))));
    assert!(matches!(
        parse_document(&vec![start("a"), end("a"), start("b"), end("b"), Token::EndOfDocument]),
        Err(Error::Parse(_))
    ));
    assert!(matches!(
        parse_document(&vec![start("a"), end("a"), Token::EndOfDocument, Token::EndOfDocument]),
        Err(Error::Parse(_))
    ));
}

#[test]
fn write_document_spells_the_tree() {
    let leaf = Element {
        name: "b".to_string(),
        namespace: None,
        attributes: vec![],
        text: "x & y".to_string(),
        children: vec![],
    };
    let empty = Element {
        name: "c".to_string(),
        namespace: None,
        attributes: vec![Attribute { name: "k".to_string(), value: "\"v\"".to_string() }],
        text: String::new(),
        children: vec![],
    };
    let root = Element {
        name: "a".to_string(),
        namespace: Some("urn:x".to_string()),
        attributes: vec![
            Attribute { name: "one".to_string(), value: "1".to_string() },
            Attribute { name: "two".to_string(), value: "".to_string() },
        ],
        text: String::new(),
        children: vec![leaf, empty],
    };
    assert_eq!(
        write_document(&root).unwrap(),
        "<?xml version=\"1.0\" encoding=\"UTF-8\"?><a xmlns=\"urn:x\" one=\"1\" two=\"\"><b>x &amp; y</b><c k=\"&quot;v&quot;\" /></a>"
    );
    let again = read_document(&write_document(&root).unwrap()).unwrap();
    assert_eq!(again.name, "a");
    assert_eq!(again.namespace, Some("urn:x".to_string()));
    assert_eq!(again.attributes.len(), 2);
    assert_eq!(again.children[0].text, "x & y");
    assert_eq!(again.children[1].attributes[0].value, "\"v\"");
}

#[test]
fn read_document_follows_the_reader() {
    let root = read_document(
        "<?xml version=\"1.0\"?><?pi data?><a>\n  <b><![CDATA[x < y]]></b>\n  <!-- gone -->\n  <c>  padded  </c>\n  <d>   </d>\n</a>",
    )
    .unwrap();
    assert_eq!(root.text, "");
    assert_eq!(root.children.len(), 3);
    assert_eq!(root.children[0].text, "x < y");
    assert_eq!(root.children[1].text, "padded");
    assert_eq!(root.children[2].text, "");
    assert!(matches!(read_document("<a/><b/>"), Err(Error::Parse(_))));
    assert!(matches!(read_document("<a>&undefined;</a>"), Err(Error::Parse(_))));
}

fn element(name: &str, namespace: Option<&str>, attributes: &[(&str, &str)], text: &str, children: Vec<Element>) -> Element {
    Element {
        name: name.to_string(),
        namespace: namespace.map(|s| s.to_string()),
        attributes: attributes
            .iter()
            .map(|(name, value)| Attribute { name: name.to_string(), value: value.to_string() })
            .collect(),
        text: text.to_string(),
        children,
    }
}

#[test]
fn write_document_accepts_every_tree() {
    let awkward = ["", "a", "a:b", ":", "a:", ":b", "a:b:c", "a b", "<a>", "xmlns", "xmlns:p", "xml:lang", "é", "\u{0}"];
    for name in awkward {
        for other in awkward {
            let leaf = element(other, Some(name), &[(name, other), (other, name), (name, name)], other, vec![]);
            let inner = element(name, None, &[], "", vec![leaf, element(name, Some(""), &[], name, vec![])]);
            let root = element(name, Some(other), &[(other, "\n\r\t\"'<>&")], "", vec![inner, element(other, None, &[], "", vec![])]);
            let written = write_document(&root);
            assert!(written.is_ok(), "names {:?} and {:?}", name, other);
            assert!(written.unwrap().starts_with("<?xml version=\"1.0\" encoding=\"UTF-8\"?><"));
        }
    }
}

#[test]
fn write_document_closes_what_it_opens() {
    let deep = (0..200).fold(element("leaf", None, &[], "x", vec![]), |child, depth| {
        element(if depth % 2 == 0 { "even" } else { "odd" }, None, &[], "", vec![child])
    });
    let written = write_document(&deep).unwrap();
    assert_eq!(written.matches("<even>").count(), 100);
    assert_eq!(written.matches("</even>").count(), 100);
    assert_eq!(written.matches("<odd>").count(), 100);
    assert_eq!(written.matches("</odd>").count(), 100);
    assert!(written.contains("<odd><even><leaf>x</leaf></even></odd>"));
    assert!(written.ends_with("</even></odd></even></odd>"));
    let siblings = element(
        "a",
        None,
        &[],
        "",
        vec![element("b", None, &[], "", vec![]), element("a", None, &[], "t", vec![]), element("b", None, &[], "", vec![element("a", None, &[], "", vec![])])],
    );
    assert_eq!(
        write_document(&siblings).unwrap(),
        "<?xml version=\"1.0\" encoding=\"UTF-8\"?><a><b /><a>t</a><b><a /></b></a>"
    );
}
