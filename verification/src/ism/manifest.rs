//! The typed model of a Smooth-Streaming server manifest and the sources it
//! names.

use vstd::prelude::*;
use crate::utils::{distinct, remove_duplicates, views};

verus! {

/// A `meta` entry of the document head.
#[derive(Debug, PartialEq, Eq)]
pub struct Meta {
    pub name: String,
    pub content: String,
}

/// The model of a [`Meta`].
pub ghost struct MetaView {
    pub name: Seq<char>,
    pub content: Seq<char>,
}

impl View for Meta {
    type V = MetaView;

    open spec fn view(&self) -> MetaView {
        MetaView { name: self.name@, content: self.content@ }
    }
}

/// The models of a list of `meta` entries, in order.
pub open spec fn meta_views(items: Seq<Meta>) -> Seq<MetaView> {
    items.map_values(|item: Meta| item@)
}

/// A group of `meta` entries.
#[derive(Debug, PartialEq, Eq)]
pub struct ParamGroup {
    pub meta: Vec<Meta>,
}

/// The model of a [`ParamGroup`].
pub ghost struct ParamGroupView {
    pub meta: Seq<MetaView>,
}

impl View for ParamGroup {
    type V = ParamGroupView;

    open spec fn view(&self) -> ParamGroupView {
        ParamGroupView { meta: meta_views(self.meta@) }
    }
}

/// The models of a list of groups, in order.
pub open spec fn param_group_views(items: Seq<ParamGroup>) -> Seq<ParamGroupView> {
    items.map_values(|item: ParamGroup| item@)
}

/// The head of the document.
#[derive(Debug, PartialEq, Eq)]
pub struct Head {
    pub meta: Vec<Meta>,
    pub param_group: Vec<ParamGroup>,
}

/// The model of a [`Head`].
pub ghost struct HeadView {
    pub meta: Seq<MetaView>,
    pub param_group: Seq<ParamGroupView>,
}

impl View for Head {
    type V = HeadView;

    open spec fn view(&self) -> HeadView {
        HeadView { meta: meta_views(self.meta@), param_group: param_group_views(self.param_group@) }
    }
}

/// A head that holds nothing.
pub open spec fn empty_head() -> HeadView {
    HeadView { meta: Seq::empty(), param_group: Seq::empty() }
}

impl Default for Head {
    fn default() -> (head: Self)
        ensures
            head@ == empty_head(),
    {
        let head = Head { meta: Vec::new(), param_group: Vec::new() };
        assert(meta_views(head.meta@) =~= Seq::<MetaView>::empty());
        assert(param_group_views(head.param_group@) =~= Seq::<ParamGroupView>::empty());
        head
    }
}

/// A parameter of a stream.
#[derive(Debug, PartialEq, Eq)]
pub struct Param {
    pub name: String,
    pub value: String,
    pub value_type: String,
}

/// The model of a [`Param`].
pub ghost struct ParamView {
    pub name: Seq<char>,
    pub value: Seq<char>,
    pub value_type: Seq<char>,
}

impl View for Param {
    type V = ParamView;

    open spec fn view(&self) -> ParamView {
        ParamView { name: self.name@, value: self.value@, value_type: self.value_type@ }
    }
}

/// The models of a list of parameters, in order.
pub open spec fn param_views(items: Seq<Param>) -> Seq<ParamView> {
    items.map_values(|item: Param| item@)
}

/// An audio stream.
#[derive(Debug, PartialEq, Eq)]
pub struct Audio {
    pub source: String,
    pub system_bit_rate: String,
    pub system_language: String,
    pub params: Vec<Param>,
}

/// The model of an [`Audio`].
pub ghost struct AudioView {
    pub source: Seq<char>,
    pub system_bit_rate: Seq<char>,
    pub system_language: Seq<char>,
    pub params: Seq<ParamView>,
}

impl View for Audio {
    type V = AudioView;

    open spec fn view(&self) -> AudioView {
        AudioView {
            source: self.source@,
            system_bit_rate: self.system_bit_rate@,
            system_language: self.system_language@,
            params: param_views(self.params@),
        }
    }
}

/// A video stream.
#[derive(Debug, PartialEq, Eq)]
pub struct Video {
    pub source: String,
    pub system_bit_rate: String,
    pub params: Vec<Param>,
}

/// The model of a [`Video`].
pub ghost struct VideoView {
    pub source: Seq<char>,
    pub system_bit_rate: Seq<char>,
    pub params: Seq<ParamView>,
}

impl View for Video {
    type V = VideoView;

    open spec fn view(&self) -> VideoView {
        VideoView {
            source: self.source@,
            system_bit_rate: self.system_bit_rate@,
            params: param_views(self.params@),
        }
    }
}

/// A text stream.
#[derive(Debug, PartialEq, Eq)]
pub struct TextStream {
    pub source: String,
    pub system_bit_rate: String,
    pub system_language: String,
    pub params: Vec<Param>,
}

/// The model of a [`TextStream`].
pub ghost struct TextStreamView {
    pub source: Seq<char>,
    pub system_bit_rate: Seq<char>,
    pub system_language: Seq<char>,
    pub params: Seq<ParamView>,
}

impl View for TextStream {
    type V = TextStreamView;

    open spec fn view(&self) -> TextStreamView {
        TextStreamView {
            source: self.source@,
            system_bit_rate: self.system_bit_rate@,
            system_language: self.system_language@,
            params: param_views(self.params@),
        }
    }
}

/// The models of a list of audio streams, in order.
pub open spec fn audio_views(items: Seq<Audio>) -> Seq<AudioView> {
    items.map_values(|item: Audio| item@)
}

/// The models of a list of video streams, in order.
pub open spec fn video_views(items: Seq<Video>) -> Seq<VideoView> {
    items.map_values(|item: Video| item@)
}

/// The models of a list of text streams, in order.
pub open spec fn text_stream_views(items: Seq<TextStream>) -> Seq<TextStreamView> {
    items.map_values(|item: TextStream| item@)
}

/// The streams among which a player switches.
#[derive(Debug, PartialEq, Eq)]
pub struct Switch {
    pub audio: Vec<Audio>,
    pub video: Vec<Video>,
    pub text: Vec<TextStream>,
}

/// The model of a [`Switch`].
pub ghost struct SwitchView {
    pub audio: Seq<AudioView>,
    pub video: Seq<VideoView>,
    pub text: Seq<TextStreamView>,
}

impl View for Switch {
    type V = SwitchView;

    open spec fn view(&self) -> SwitchView {
        SwitchView {
            audio: audio_views(self.audio@),
            video: video_views(self.video@),
            text: text_stream_views(self.text@),
        }
    }
}

/// A `switch` without streams.
pub open spec fn empty_switch() -> SwitchView {
    SwitchView { audio: Seq::empty(), video: Seq::empty(), text: Seq::empty() }
}

impl Default for Switch {
    fn default() -> (switch: Self)
        ensures
            switch@ == empty_switch(),
    {
        let switch = Switch { audio: Vec::new(), video: Vec::new(), text: Vec::new() };
        assert(audio_views(switch.audio@) =~= Seq::<AudioView>::empty());
        assert(video_views(switch.video@) =~= Seq::<VideoView>::empty());
        assert(text_stream_views(switch.text@) =~= Seq::<TextStreamView>::empty());
        switch
    }
}

/// The body of the document.
#[derive(Debug, PartialEq, Eq)]
pub struct Body {
    pub switch: Switch,
}

/// The model of a [`Body`].
pub ghost struct BodyView {
    pub switch: SwitchView,
}

impl View for Body {
    type V = BodyView;

    open spec fn view(&self) -> BodyView {
        BodyView { switch: self.switch@ }
    }
}

/// A body without streams.
pub open spec fn empty_body() -> BodyView {
    BodyView { switch: empty_switch() }
}

impl Default for Body {
    fn default() -> (body: Self)
        ensures
            body@ == empty_body(),
    {
        Body { switch: Switch::default() }
    }
}

/// A Smooth-Streaming server manifest.
#[derive(Debug, PartialEq, Eq)]
pub struct Smil {
    pub head: Head,
    pub body: Body,
}

/// The model of a [`Smil`].
pub ghost struct SmilView {
    pub head: HeadView,
    pub body: BodyView,
}

impl View for Smil {
    type V = SmilView;

    open spec fn view(&self) -> SmilView {
        SmilView { head: self.head@, body: self.body@ }
    }
}

/// The sources of the audio streams, in document order.
pub open spec fn audio_sources(streams: Seq<AudioView>) -> Seq<Seq<char>> {
    streams.map_values(|stream: AudioView| stream.source)
}

/// The sources of the video streams, in document order.
pub open spec fn video_sources(streams: Seq<VideoView>) -> Seq<Seq<char>> {
    streams.map_values(|stream: VideoView| stream.source)
}

/// The sources of the text streams, in document order.
pub open spec fn text_sources(streams: Seq<TextStreamView>) -> Seq<Seq<char>> {
    streams.map_values(|stream: TextStreamView| stream.source)
}

impl Smil {
    /// The sources of the audio streams: each one once, at the place of its
    /// first occurrence.
    pub fn get_audio_stream_sources(&self) -> (sources: Vec<String>)
        ensures
            views(sources@) == distinct(audio_sources(self@.body.switch.audio)),
    {
        let streams = &self.body.switch.audio;
        let ghost all = audio_sources(self@.body.switch.audio);
        let mut collected: Vec<String> = Vec::new();
        let mut i: usize = 0;
        while i < streams.len()
            invariant
                i <= streams.len(),
                streams == &self.body.switch.audio,
                all == audio_sources(self@.body.switch.audio),
                views(collected@) == all.take(i as int),
            decreases streams.len() - i,
        {
            let ghost before = views(collected@);
            collected.push(streams[i].source.clone());
            assert(views(collected@) =~= before.push(streams@[i as int].source@));
            i += 1;
            assert(all.take(i as int) =~= before.push(all[i - 1]));
        }
        assert(all.take(i as int) =~= all);
        remove_duplicates(collected)
    }

    /// The sources of the video streams: each one once, at the place of its
    /// first occurrence.
    pub fn get_video_stream_sources(&self) -> (sources: Vec<String>)
        ensures
            views(sources@) == distinct(video_sources(self@.body.switch.video)),
    {
        let streams = &self.body.switch.video;
        let ghost all = video_sources(self@.body.switch.video);
        let mut collected: Vec<String> = Vec::new();
        let mut i: usize = 0;
        while i < streams.len()
            invariant
                i <= streams.len(),
                streams == &self.body.switch.video,
                all == video_sources(self@.body.switch.video),
                views(collected@) == all.take(i as int),
            decreases streams.len() - i,
        {
            let ghost before = views(collected@);
            collected.push(streams[i].source.clone());
            assert(views(collected@) =~= before.push(streams@[i as int].source@));
            i += 1;
            assert(all.take(i as int) =~= before.push(all[i - 1]));
        }
        assert(all.take(i as int) =~= all);
        remove_duplicates(collected)
    }

    /// The sources of the text streams: each one once, at the place of its
    /// first occurrence.
    pub fn get_text_stream_sources(&self) -> (sources: Vec<String>)
        ensures
            views(sources@) == distinct(text_sources(self@.body.switch.text)),
    {
        let streams = &self.body.switch.text;
        let ghost all = text_sources(self@.body.switch.text);
        let mut collected: Vec<String> = Vec::new();
        let mut i: usize = 0;
        while i < streams.len()
            invariant
                i <= streams.len(),
                streams == &self.body.switch.text,
                all == text_sources(self@.body.switch.text),
                views(collected@) == all.take(i as int),
            decreases streams.len() - i,
        {
            let ghost before = views(collected@);
            collected.push(streams[i].source.clone());
            assert(views(collected@) =~= before.push(streams@[i as int].source@));
            i += 1;
            assert(all.take(i as int) =~= before.push(all[i - 1]));
        }
        assert(all.take(i as int) =~= all);
        remove_duplicates(collected)
    }
}

} // verus!
