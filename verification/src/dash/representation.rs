//! Representations and what they are made of.

use vstd::prelude::*;
use crate::xml::parse::clone_opt_text;
use crate::xml::tree::opt_text;

verus! {

/// A descriptor element such as `Role`: a scheme with an optional value and
/// an optional identifier.
#[derive(Debug, PartialEq, Eq)]
pub struct Role {
    pub scheme_id_uri: String,
    pub content: Option<String>,
    pub id: Option<String>,
}

/// The model of a [`Role`].
pub ghost struct RoleView {
    pub scheme_id_uri: Seq<char>,
    pub content: Option<Seq<char>>,
    pub id: Option<Seq<char>>,
}

impl View for Role {
    type V = RoleView;

    open spec fn view(&self) -> RoleView {
        RoleView {
            scheme_id_uri: self.scheme_id_uri@,
            content: opt_text(self.content),
            id: opt_text(self.id),
        }
    }
}

impl Clone for Role {
    fn clone(&self) -> (copy: Self)
        ensures
            copy@ == self@,
    {
        Role {
            scheme_id_uri: self.scheme_id_uri.clone(),
            content: clone_opt_text(&self.content),
            id: clone_opt_text(&self.id),
        }
    }
}

impl Default for Role {
    fn default() -> (role: Self)
        ensures
            role@ == (RoleView { scheme_id_uri: Seq::empty(), content: None, id: None }),
    {
        Role { scheme_id_uri: String::new(), content: None, id: None }
    }
}

/// The channel layout of an audio representation.
#[derive(Debug, PartialEq, Eq)]
pub struct AudioChannelConfiguration {
    pub scheme_id_uri: String,
    pub content: Option<String>,
    pub id: Option<String>,
}

/// The model of an [`AudioChannelConfiguration`].
pub ghost struct AudioChannelConfigurationView {
    pub scheme_id_uri: Seq<char>,
    pub content: Option<Seq<char>>,
    pub id: Option<Seq<char>>,
}

impl View for AudioChannelConfiguration {
    type V = AudioChannelConfigurationView;

    open spec fn view(&self) -> AudioChannelConfigurationView {
        AudioChannelConfigurationView {
            scheme_id_uri: self.scheme_id_uri@,
            content: opt_text(self.content),
            id: opt_text(self.id),
        }
    }
}

impl Clone for AudioChannelConfiguration {
    fn clone(&self) -> (copy: Self)
        ensures
            copy@ == self@,
    {
        AudioChannelConfiguration {
            scheme_id_uri: self.scheme_id_uri.clone(),
            content: clone_opt_text(&self.content),
            id: clone_opt_text(&self.id),
        }
    }
}

impl Default for AudioChannelConfiguration {
    fn default() -> (configuration: Self)
        ensures
            configuration@ == (AudioChannelConfigurationView {
                scheme_id_uri: Seq::empty(),
                content: None,
                id: None,
            }),
    {
        AudioChannelConfiguration { scheme_id_uri: String::new(), content: None, id: None }
    }
}

/// Where the initialization segment of a representation is found.
#[derive(Debug, PartialEq, Eq)]
pub struct Initialization {
    pub source_url: Option<String>,
    pub range: Option<String>,
}

/// The model of an [`Initialization`].
pub ghost struct InitializationView {
    pub source_url: Option<Seq<char>>,
    pub range: Option<Seq<char>>,
}

impl View for Initialization {
    type V = InitializationView;

    open spec fn view(&self) -> InitializationView {
        InitializationView { source_url: opt_text(self.source_url), range: opt_text(self.range) }
    }
}

impl Clone for Initialization {
    fn clone(&self) -> (copy: Self)
        ensures
            copy@ == self@,
    {
        Initialization {
            source_url: clone_opt_text(&self.source_url),
            range: clone_opt_text(&self.range),
        }
    }
}

impl Default for Initialization {
    fn default() -> (initialization: Self)
        ensures
            initialization@ == (InitializationView { source_url: None, range: None }),
    {
        Initialization { source_url: None, range: None }
    }
}

/// The segment index of a representation held in a single file.
#[derive(Debug, PartialEq, Eq)]
pub struct SegmentBase {
    pub index_range_exact: bool,
    pub index_range: Option<String>,
    pub presentation_time_offset: Option<u64>,
    pub initialization: Initialization,
}

/// The model of a [`SegmentBase`].
pub ghost struct SegmentBaseView {
    pub index_range_exact: bool,
    pub index_range: Option<Seq<char>>,
    pub presentation_time_offset: Option<u64>,
    pub initialization: InitializationView,
}

impl View for SegmentBase {
    type V = SegmentBaseView;

    open spec fn view(&self) -> SegmentBaseView {
        SegmentBaseView {
            index_range_exact: self.index_range_exact,
            index_range: opt_text(self.index_range),
            presentation_time_offset: self.presentation_time_offset,
            initialization: self.initialization@,
        }
    }
}

impl Clone for SegmentBase {
    fn clone(&self) -> (copy: Self)
        ensures
            copy@ == self@,
    {
        SegmentBase {
            index_range_exact: self.index_range_exact,
            index_range: clone_opt_text(&self.index_range),
            presentation_time_offset: self.presentation_time_offset,
            initialization: self.initialization.clone(),
        }
    }
}

impl Default for SegmentBase {
    fn default() -> (segment_base: Self)
        ensures
            segment_base@ == (SegmentBaseView {
                index_range_exact: false,
                index_range: None,
                presentation_time_offset: None,
                initialization: InitializationView { source_url: None, range: None },
            }),
    {
        SegmentBase {
            index_range_exact: false,
            index_range: None,
            presentation_time_offset: None,
            initialization: Initialization::default(),
        }
    }
}

/// The model of a segment index that may be absent.
pub open spec fn opt_segment_base(value: Option<SegmentBase>) -> Option<SegmentBaseView> {
    match value {
        Some(segment_base) => Some(segment_base@),
        None => None,
    }
}

/// The models of a list of channel layouts, in order.
pub open spec fn configuration_views(items: Seq<AudioChannelConfiguration>) -> Seq<
    AudioChannelConfigurationView,
> {
    items.map_values(|item: AudioChannelConfiguration| item@)
}

/// One encoded rendition of a media component.
#[derive(Debug, PartialEq, Eq)]
pub struct Representation {
    pub id: String,
    pub mime_type: Option<String>,
    pub codecs: Option<String>,
    pub width: Option<u32>,
    pub height: Option<u32>,
    pub frame_rate: Option<u32>,
    pub sample_aspect_ratio: Option<String>,
    pub start_with_sap: Option<u8>,
    pub bandwidth: u64,
    pub audio_channel_configuration: Vec<AudioChannelConfiguration>,
    pub base_url: String,
    pub segment_base: Option<SegmentBase>,
}

/// The model of a [`Representation`].
pub ghost struct RepresentationView {
    pub id: Seq<char>,
    pub mime_type: Option<Seq<char>>,
    pub codecs: Option<Seq<char>>,
    pub width: Option<u32>,
    pub height: Option<u32>,
    pub frame_rate: Option<u32>,
    pub sample_aspect_ratio: Option<Seq<char>>,
    pub start_with_sap: Option<u8>,
    pub bandwidth: u64,
    pub audio_channel_configuration: Seq<AudioChannelConfigurationView>,
    pub base_url: Seq<char>,
    pub segment_base: Option<SegmentBaseView>,
}

impl View for Representation {
    type V = RepresentationView;

    open spec fn view(&self) -> RepresentationView {
        RepresentationView {
            id: self.id@,
            mime_type: opt_text(self.mime_type),
            codecs: opt_text(self.codecs),
            width: self.width,
            height: self.height,
            frame_rate: self.frame_rate,
            sample_aspect_ratio: opt_text(self.sample_aspect_ratio),
            start_with_sap: self.start_with_sap,
            bandwidth: self.bandwidth,
            audio_channel_configuration: configuration_views(self.audio_channel_configuration@),
            base_url: self.base_url@,
            segment_base: opt_segment_base(self.segment_base),
        }
    }
}

/// A copy of a list of channel layouts.
pub fn clone_configurations(items: &Vec<AudioChannelConfiguration>) -> (copy: Vec<
    AudioChannelConfiguration,
>)
    ensures
        configuration_views(copy@) == configuration_views(items@),
{
    let mut copy: Vec<AudioChannelConfiguration> = Vec::new();
    let mut i: usize = 0;
    while i < items.len()
        invariant
            i <= items.len(),
            configuration_views(copy@) == configuration_views(items@).take(i as int),
        decreases items.len() - i,
    {
        let ghost before = configuration_views(copy@);
        let item = items[i].clone();
        assert(item@ == items@[i as int]@);
        copy.push(item);
        assert(configuration_views(copy@) =~= before.push(items@[i as int]@));
        i += 1;
        assert(configuration_views(items@).take(i as int) =~= before.push(items@[i - 1]@));
    }
    assert(configuration_views(items@).take(i as int) =~= configuration_views(items@));
    copy
}

/// A copy of a segment index that may be absent.
pub fn clone_opt_segment_base(value: &Option<SegmentBase>) -> (copy: Option<SegmentBase>)
    ensures
        opt_segment_base(copy) == opt_segment_base(*value),
{
    match value {
        Some(segment_base) => Some(segment_base.clone()),
        None => None,
    }
}

impl Clone for Representation {
    fn clone(&self) -> (copy: Self)
        ensures
            copy@ == self@,
    {
        Representation {
            id: self.id.clone(),
            mime_type: clone_opt_text(&self.mime_type),
            codecs: clone_opt_text(&self.codecs),
            width: self.width,
            height: self.height,
            frame_rate: self.frame_rate,
            sample_aspect_ratio: clone_opt_text(&self.sample_aspect_ratio),
            start_with_sap: self.start_with_sap,
            bandwidth: self.bandwidth,
            audio_channel_configuration: clone_configurations(&self.audio_channel_configuration),
            base_url: self.base_url.clone(),
            segment_base: clone_opt_segment_base(&self.segment_base),
        }
    }
}

/// The model of a representation of which only the required fields are set,
/// to their empty values.
pub open spec fn empty_representation() -> RepresentationView {
    RepresentationView {
        id: Seq::empty(),
        mime_type: None,
        codecs: None,
        width: None,
        height: None,
        frame_rate: None,
        sample_aspect_ratio: None,
        start_with_sap: None,
        bandwidth: 0,
        audio_channel_configuration: Seq::empty(),
        base_url: Seq::empty(),
        segment_base: None,
    }
}

impl Default for Representation {
    fn default() -> (representation: Self)
        ensures
            representation@ == empty_representation(),
    {
        let representation = Representation {
            id: String::new(),
            mime_type: None,
            codecs: None,
            width: None,
            height: None,
            frame_rate: None,
            sample_aspect_ratio: None,
            start_with_sap: None,
            bandwidth: 0,
            audio_channel_configuration: Vec::new(),
            base_url: String::new(),
            segment_base: None,
        };
        assert(configuration_views(representation.audio_channel_configuration@)
            =~= Seq::<AudioChannelConfigurationView>::empty());
        representation
    }
}

} // verus!
