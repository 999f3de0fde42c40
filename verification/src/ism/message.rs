//! The source extraction from end to end, on text.

use vstd::prelude::*;
use crate::error::Error;
use crate::ism::decode::{decode, smil_of_text};
use crate::ism::manifest::{audio_sources, text_sources, video_sources, Smil, SmilView};
use crate::utils::{distinct, views};
use crate::xml::reader::document_tokens;
use crate::xml::token::reader_message;

verus! {

/// The sources of one kind that a server manifest names.
#[derive(Debug, PartialEq, Eq)]
pub struct SourceList {
    /// The kind: `audio`, `video` or `subtitles`.
    pub id: String,
    /// The sources, each one once.
    pub sources: Vec<String>,
}

/// The model of a [`SourceList`].
pub ghost struct SourceListView {
    pub id: Seq<char>,
    pub sources: Seq<Seq<char>>,
}

impl View for SourceList {
    type V = SourceListView;

    open spec fn view(&self) -> SourceListView {
        SourceListView { id: self.id@, sources: views(self.sources@) }
    }
}

/// The models of a list of source lists, in order.
pub open spec fn source_list_views(items: Seq<SourceList>) -> Seq<SourceListView> {
    items.map_values(|item: SourceList| item@)
}

/// The three source lists of a server manifest: audio, video, subtitles, each
/// without repetitions and in the order of first occurrence. A source that
/// occurs under two kinds stays in both.
pub open spec fn manifest_sources(smil: SmilView) -> Seq<SourceListView> {
    seq![
        SourceListView { id: "audio"@, sources: distinct(audio_sources(smil.body.switch.audio)) },
        SourceListView { id: "video"@, sources: distinct(video_sources(smil.body.switch.video)) },
        SourceListView {
            id: "subtitles"@,
            sources: distinct(text_sources(smil.body.switch.text)),
        },
    ]
}

impl Smil {
    /// The three source lists of this manifest.
    pub fn sources(&self) -> (lists: Vec<SourceList>)
        ensures
            source_list_views(lists@) == manifest_sources(self@),
    {
        let mut lists: Vec<SourceList> = Vec::new();
        lists.push(SourceList { id: "audio".to_owned(), sources: self.get_audio_stream_sources() });
        lists.push(SourceList { id: "video".to_owned(), sources: self.get_video_stream_sources() });
        lists.push(
            SourceList { id: "subtitles".to_owned(), sources: self.get_text_stream_sources() },
        );
        assert(source_list_views(lists@) =~= manifest_sources(self@));
        lists
    }
}

/// Decodes the server manifest in `contents` and lists its sources. It fails
/// with a parse error exactly where `contents` spells no server manifest;
/// where the reader stopped on an error, the error carries the reader's
/// message.
pub fn get_manifest_sources(contents: &str) -> (r: Result<Vec<SourceList>, Error>)
    ensures
        match smil_of_text(contents@) {
            Some(smil) => r is Ok && source_list_views(r->Ok_0@) == manifest_sources(smil),
            None => r is Err && r->Err_0 is Parse,
        },
        reader_message(document_tokens(contents@)) is Some ==> r is Err && r->Err_0->Parse_0@
            == reader_message(document_tokens(contents@))->Some_0,
{
    match decode(contents) {
        Ok(smil) => Ok(smil.sources()),
        Err(error) => Err(error),
    }
}

} // verus!
