//! From elements to the model.

use vstd::prelude::*;
use crate::error::Error;
use crate::ism::manifest::{
    audio_views, meta_views, param_group_views, param_views, text_stream_views, video_views, Audio,
    Body, Head, Meta, Param, ParamGroup, Smil, SmilView, Switch, TextStream, Video,
};
use crate::ism::schema::{
    audio_decoder, audio_of, body_of, head_of, is_smil_root, meta_decoder, meta_of, param_decoder,
    param_group_decoder, param_group_of, param_of, smil_of, switch_of, text_stream_decoder,
    text_stream_of, video_decoder, video_of,
};
use crate::text::text_is;
use crate::xml::parse::{read_document, tree_of};
use crate::xml::query::{attribute_text, find_child, lemma_mapped_children_push, mapped_children};
use crate::xml::reader::document_tokens;
use crate::xml::token::reader_message;
use crate::xml::tree::{element_views, Element, ElementView};

verus! {

impl Meta {
    /// Reads a `meta` entry from its element.
    pub fn from_element(element: &Element) -> (meta: Meta)
        ensures
            meta@ == meta_of(element@),
    {
        Meta {
            name: attribute_text(&element.attributes, "name"),
            content: attribute_text(&element.attributes, "content"),
        }
    }
}

/// Reads the `meta` entries among the children of an element.
pub fn metas_among(children: &Vec<Element>) -> (items: Vec<Meta>)
    ensures
        meta_views(items@) == mapped_children(element_views(children@), "meta"@, meta_decoder()),
{
    let ghost all = element_views(children@);
    let mut items: Vec<Meta> = Vec::new();
    let mut i: usize = 0;
    assert(all.take(0) =~= Seq::<ElementView>::empty());
    assert(meta_views(items@) =~= mapped_children(all.take(0), "meta"@, meta_decoder()));
    while i < children.len()
        invariant
            i <= children.len(),
            all == element_views(children@),
            meta_views(items@) == mapped_children(all.take(i as int), "meta"@, meta_decoder()),
        decreases children.len() - i,
    {
        let ghost before = meta_views(items@);
        proof {
            assert(all.take(i as int + 1) =~= all.take(i as int).push(children@[i as int]@));
            lemma_mapped_children_push(
                all.take(i as int),
                children@[i as int]@,
                "meta"@,
                meta_decoder(),
            );
        }
        if text_is(children[i].name.as_str(), "meta") {
            let item = Meta::from_element(&children[i]);
            items.push(item);
            assert(meta_views(items@) =~= before.push(item@));
        }
        i += 1;
    }
    assert(all.take(i as int) =~= all);
    items
}

impl ParamGroup {
    /// Reads a group from its element.
    pub fn from_element(element: &Element) -> (group: ParamGroup)
        ensures
            group@ == param_group_of(element@),
    {
        ParamGroup { meta: metas_among(&element.children) }
    }
}

/// Reads the groups among the children of the head.
pub fn param_groups_among(children: &Vec<Element>) -> (items: Vec<ParamGroup>)
    ensures
        param_group_views(items@) == mapped_children(
            element_views(children@),
            "paramGroup"@,
            param_group_decoder(),
        ),
{
    let ghost all = element_views(children@);
    let mut items: Vec<ParamGroup> = Vec::new();
    let mut i: usize = 0;
    assert(all.take(0) =~= Seq::<ElementView>::empty());
    assert(param_group_views(items@) =~= mapped_children(
        all.take(0),
        "paramGroup"@,
        param_group_decoder(),
    ));
    while i < children.len()
        invariant
            i <= children.len(),
            all == element_views(children@),
            param_group_views(items@) == mapped_children(
                all.take(i as int),
                "paramGroup"@,
                param_group_decoder(),
            ),
        decreases children.len() - i,
    {
        let ghost before = param_group_views(items@);
        proof {
            assert(all.take(i as int + 1) =~= all.take(i as int).push(children@[i as int]@));
            lemma_mapped_children_push(
                all.take(i as int),
                children@[i as int]@,
                "paramGroup"@,
                param_group_decoder(),
            );
        }
        if text_is(children[i].name.as_str(), "paramGroup") {
            let item = ParamGroup::from_element(&children[i]);
            items.push(item);
            assert(param_group_views(items@) =~= before.push(item@));
        }
        i += 1;
    }
    assert(all.take(i as int) =~= all);
    items
}

impl Head {
    /// Reads the head from its element.
    pub fn from_element(element: &Element) -> (head: Head)
        ensures
            head@ == head_of(element@),
    {
        Head {
            meta: metas_among(&element.children),
            param_group: param_groups_among(&element.children),
        }
    }

}

impl Param {
    /// Reads a parameter from its element.
    pub fn from_element(element: &Element) -> (param: Param)
        ensures
            param@ == param_of(element@),
    {
        Param {
            name: attribute_text(&element.attributes, "name"),
            value: attribute_text(&element.attributes, "value"),
            value_type: attribute_text(&element.attributes, "valueType"),
        }
    }
}

/// Reads the parameters among the children of a stream.
pub fn params_among(children: &Vec<Element>) -> (items: Vec<Param>)
    ensures
        param_views(items@) == mapped_children(
            element_views(children@),
            "params"@,
            param_decoder(),
        ),
{
    let ghost all = element_views(children@);
    let mut items: Vec<Param> = Vec::new();
    let mut i: usize = 0;
    assert(all.take(0) =~= Seq::<ElementView>::empty());
    assert(param_views(items@) =~= mapped_children(all.take(0), "params"@, param_decoder()));
    while i < children.len()
        invariant
            i <= children.len(),
            all == element_views(children@),
            param_views(items@) == mapped_children(all.take(i as int), "params"@, param_decoder()),
        decreases children.len() - i,
    {
        let ghost before = param_views(items@);
        proof {
            assert(all.take(i as int + 1) =~= all.take(i as int).push(children@[i as int]@));
            lemma_mapped_children_push(
                all.take(i as int),
                children@[i as int]@,
                "params"@,
                param_decoder(),
            );
        }
        if text_is(children[i].name.as_str(), "params") {
            let item = Param::from_element(&children[i]);
            items.push(item);
            assert(param_views(items@) =~= before.push(item@));
        }
        i += 1;
    }
    assert(all.take(i as int) =~= all);
    items
}

impl Audio {
    /// Reads an audio stream from its element.
    pub fn from_element(element: &Element) -> (audio: Audio)
        ensures
            audio@ == audio_of(element@),
    {
        Audio {
            source: attribute_text(&element.attributes, "src"),
            system_bit_rate: attribute_text(&element.attributes, "systemBitrate"),
            system_language: attribute_text(&element.attributes, "systemLanguage"),
            params: params_among(&element.children),
        }
    }
}

impl Video {
    /// Reads a video stream from its element.
    pub fn from_element(element: &Element) -> (video: Video)
        ensures
            video@ == video_of(element@),
    {
        Video {
            source: attribute_text(&element.attributes, "src"),
            system_bit_rate: attribute_text(&element.attributes, "systemBitrate"),
            params: params_among(&element.children),
        }
    }
}

impl TextStream {
    /// Reads a text stream from its element.
    pub fn from_element(element: &Element) -> (stream: TextStream)
        ensures
            stream@ == text_stream_of(element@),
    {
        TextStream {
            source: attribute_text(&element.attributes, "src"),
            system_bit_rate: attribute_text(&element.attributes, "systemBitrate"),
            system_language: attribute_text(&element.attributes, "systemLanguage"),
            params: params_among(&element.children),
        }
    }
}

/// Reads the audio streams among the children of a `switch`.
pub fn audios_among(children: &Vec<Element>) -> (items: Vec<Audio>)
    ensures
        audio_views(items@) == mapped_children(
            element_views(children@),
            "audio"@,
            audio_decoder(),
        ),
{
    let ghost all = element_views(children@);
    let mut items: Vec<Audio> = Vec::new();
    let mut i: usize = 0;
    assert(all.take(0) =~= Seq::<ElementView>::empty());
    assert(audio_views(items@) =~= mapped_children(all.take(0), "audio"@, audio_decoder()));
    while i < children.len()
        invariant
            i <= children.len(),
            all == element_views(children@),
            audio_views(items@) == mapped_children(all.take(i as int), "audio"@, audio_decoder()),
        decreases children.len() - i,
    {
        let ghost before = audio_views(items@);
        proof {
            assert(all.take(i as int + 1) =~= all.take(i as int).push(children@[i as int]@));
            lemma_mapped_children_push(
                all.take(i as int),
                children@[i as int]@,
                "audio"@,
                audio_decoder(),
            );
        }
        if text_is(children[i].name.as_str(), "audio") {
            let item = Audio::from_element(&children[i]);
            items.push(item);
            assert(audio_views(items@) =~= before.push(item@));
        }
        i += 1;
    }
    assert(all.take(i as int) =~= all);
    items
}

/// Reads the video streams among the children of a `switch`.
pub fn videos_among(children: &Vec<Element>) -> (items: Vec<Video>)
    ensures
        video_views(items@) == mapped_children(
            element_views(children@),
            "video"@,
            video_decoder(),
        ),
{
    let ghost all = element_views(children@);
    let mut items: Vec<Video> = Vec::new();
    let mut i: usize = 0;
    assert(all.take(0) =~= Seq::<ElementView>::empty());
    assert(video_views(items@) =~= mapped_children(all.take(0), "video"@, video_decoder()));
    while i < children.len()
        invariant
            i <= children.len(),
            all == element_views(children@),
            video_views(items@) == mapped_children(all.take(i as int), "video"@, video_decoder()),
        decreases children.len() - i,
    {
        let ghost before = video_views(items@);
        proof {
            assert(all.take(i as int + 1) =~= all.take(i as int).push(children@[i as int]@));
            lemma_mapped_children_push(
                all.take(i as int),
                children@[i as int]@,
                "video"@,
                video_decoder(),
            );
        }
        if text_is(children[i].name.as_str(), "video") {
            let item = Video::from_element(&children[i]);
            items.push(item);
            assert(video_views(items@) =~= before.push(item@));
        }
        i += 1;
    }
    assert(all.take(i as int) =~= all);
    items
}

/// Reads the text streams among the children of a `switch`.
pub fn text_streams_among(children: &Vec<Element>) -> (items: Vec<TextStream>)
    ensures
        text_stream_views(items@) == mapped_children(
            element_views(children@),
            "textstream"@,
            text_stream_decoder(),
        ),
{
    let ghost all = element_views(children@);
    let mut items: Vec<TextStream> = Vec::new();
    let mut i: usize = 0;
    assert(all.take(0) =~= Seq::<ElementView>::empty());
    assert(text_stream_views(items@) =~= mapped_children(
        all.take(0),
        "textstream"@,
        text_stream_decoder(),
    ));
    while i < children.len()
        invariant
            i <= children.len(),
            all == element_views(children@),
            text_stream_views(items@) == mapped_children(
                all.take(i as int),
                "textstream"@,
                text_stream_decoder(),
            ),
        decreases children.len() - i,
    {
        let ghost before = text_stream_views(items@);
        proof {
            assert(all.take(i as int + 1) =~= all.take(i as int).push(children@[i as int]@));
            lemma_mapped_children_push(
                all.take(i as int),
                children@[i as int]@,
                "textstream"@,
                text_stream_decoder(),
            );
        }
        if text_is(children[i].name.as_str(), "textstream") {
            let item = TextStream::from_element(&children[i]);
            items.push(item);
            assert(text_stream_views(items@) =~= before.push(item@));
        }
        i += 1;
    }
    assert(all.take(i as int) =~= all);
    items
}

impl Switch {
    /// Reads the streams from the element `switch`.
    pub fn from_element(element: &Element) -> (switch: Switch)
        ensures
            switch@ == switch_of(element@),
    {
        Switch {
            audio: audios_among(&element.children),
            video: videos_among(&element.children),
            text: text_streams_among(&element.children),
        }
    }

}

impl Body {
    /// Reads the body from its element.
    pub fn from_element(element: &Element) -> (body: Body)
        ensures
            body@ == body_of(element@),
    {
        Body {
            switch: match find_child(&element.children, "switch") {
                Some(child) => Switch::from_element(child),
                None => Switch::default(),
            },
        }
    }
}

/// Whether an element can be the root of a server manifest.
pub fn check_smil_root(element: &Element) -> (ok: bool)
    ensures
        ok == is_smil_root(element@),
{
    if !text_is(element.name.as_str(), "smil") {
        return false;
    }
    match &element.namespace {
        Some(namespace) => text_is(namespace.as_str(), "http://www.w3.org/2001/SMIL20/Language"),
        None => true,
    }
}

impl Smil {
    /// Reads a server manifest from the root element of a document. It fails
    /// exactly where the element is no `smil` of the right namespace.
    pub fn from_element(element: &Element) -> (r: Result<Smil, Error>)
        ensures
            match smil_of(element@) {
                Some(smil) => r is Ok && r->Ok_0@ == smil,
                None => r is Err && r->Err_0 is Parse,
            },
    {
        if !check_smil_root(element) {
            return Err(Error::parse("the root element is not a smil of the SMIL namespace"));
        }
        Ok(
            Smil {
                head: match find_child(&element.children, "head") {
                    Some(child) => Head::from_element(child),
                    None => Head::default(),
                },
                body: match find_child(&element.children, "body") {
                    Some(child) => Body::from_element(child),
                    None => Body::default(),
                },
            },
        )
    }
}

/// The server manifest that a text spells: that of the root element of its
/// document.
pub open spec fn smil_of_text(text: Seq<char>) -> Option<SmilView> {
    match tree_of(document_tokens(text)) {
        Some(root) => smil_of(root),
        None => None,
    }
}

/// Decodes the text of a server manifest. It fails with a parse error
/// exactly where the text is no well-formed document or its root stands for
/// no server manifest; where the reader stopped on an error, the error
/// carries the reader's message.
pub fn decode(text: &str) -> (r: Result<Smil, Error>)
    ensures
        match smil_of_text(text@) {
            Some(smil) => r is Ok && r->Ok_0@ == smil,
            None => r is Err && r->Err_0 is Parse,
        },
        reader_message(document_tokens(text@)) is Some ==> r is Err && r->Err_0->Parse_0@
            == reader_message(document_tokens(text@))->Some_0,
{
    match read_document(text) {
        Ok(root) => Smil::from_element(&root),
        Err(error) => Err(error),
    }
}

} // verus!
