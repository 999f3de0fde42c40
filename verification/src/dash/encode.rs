//! From the model to elements, and on to text.

use vstd::prelude::*;
use crate::dash::manifest::{AdaptationSet, Manifest, Period, ProgramInformation};
use crate::dash::representation::{
    AudioChannelConfiguration, Initialization, Representation, Role, SegmentBase,
};
use crate::dash::schema::{
    adaptation_set_element, adaptation_set_encoder, configuration_element, configuration_encoder,
    initialization_element, manifest_element, period_element, plain_element,
    program_information_element, representation_element, representation_encoder, role_element,
    segment_base_element,
};
use crate::error::Error;
use crate::xml::compose::{
    make_text_element, push_attribute, push_bool_attribute, push_child, push_number_attribute,
    push_optional_attribute, push_optional_bool_attribute, push_optional_number_attribute,
    text_element,
};
use crate::xml::tree::{
    attribute_views, element_views, Attribute, AttributeView, Element, ElementView,
};
use crate::xml::writer::{element_tokens, rendered, write_document};

verus! {

/// Builds an element without character data and without a namespace of its
/// own.
pub fn make_element(name: &str, attributes: Vec<Attribute>, children: Vec<Element>) -> (element:
    Element)
    ensures
        element@ == plain_element(name@, attribute_views(attributes@), element_views(children@)),
{
    Element { name: name.to_owned(), namespace: None, attributes, text: String::new(), children }
}

/// An empty attribute list.
pub fn no_attributes() -> (attributes: Vec<Attribute>)
    ensures
        attribute_views(attributes@) == Seq::<AttributeView>::empty(),
{
    let attributes: Vec<Attribute> = Vec::new();
    assert(attribute_views(attributes@) =~= Seq::<AttributeView>::empty());
    attributes
}

/// An empty list of elements.
pub fn no_children() -> (children: Vec<Element>)
    ensures
        element_views(children@) == Seq::<ElementView>::empty(),
{
    let children: Vec<Element> = Vec::new();
    assert(element_views(children@) =~= Seq::<ElementView>::empty());
    children
}

/// A 32-bit number that may be absent, widened.
fn widen_u32(value: Option<u32>) -> (wide: Option<u64>)
    ensures
        wide == match value {
            Some(n) => Some(n as u64),
            None => None,
        },
{
    match value {
        Some(n) => Some(n as u64),
        None => None,
    }
}

/// An 8-bit number that may be absent, widened.
fn widen_u8(value: Option<u8>) -> (wide: Option<u64>)
    ensures
        wide == match value {
            Some(n) => Some(n as u64),
            None => None,
        },
{
    match value {
        Some(n) => Some(n as u64),
        None => None,
    }
}

impl Role {
    /// The element `Role` of this role.
    pub fn to_element(&self) -> (element: Element)
        ensures
            element@ == role_element(self@),
    {
        let mut attributes = no_attributes();
        push_attribute(&mut attributes, "schemeIdUri", self.scheme_id_uri.as_str());
        push_optional_attribute(&mut attributes, "value", &self.content);
        push_optional_attribute(&mut attributes, "id", &self.id);
        make_element("Role", attributes, no_children())
    }
}

impl AudioChannelConfiguration {
    /// The element `AudioChannelConfiguration` of this channel layout.
    pub fn to_element(&self) -> (element: Element)
        ensures
            element@ == configuration_element(self@),
    {
        let mut attributes = no_attributes();
        push_attribute(&mut attributes, "schemeIdUri", self.scheme_id_uri.as_str());
        push_optional_attribute(&mut attributes, "value", &self.content);
        push_optional_attribute(&mut attributes, "id", &self.id);
        make_element("AudioChannelConfiguration", attributes, no_children())
    }
}

impl Initialization {
    /// The element `Initialization` of this initialization.
    pub fn to_element(&self) -> (element: Element)
        ensures
            element@ == initialization_element(self@),
    {
        let mut attributes = no_attributes();
        push_optional_attribute(&mut attributes, "sourceURL", &self.source_url);
        push_optional_attribute(&mut attributes, "range", &self.range);
        make_element("Initialization", attributes, no_children())
    }
}

impl SegmentBase {
    /// The element `SegmentBase` of this segment index.
    pub fn to_element(&self) -> (element: Element)
        ensures
            element@ == segment_base_element(self@),
    {
        let mut attributes = no_attributes();
        push_bool_attribute(&mut attributes, "indexRangeExact", self.index_range_exact);
        push_optional_attribute(&mut attributes, "indexRange", &self.index_range);
        push_optional_number_attribute(
            &mut attributes,
            "presentationTimeOffset",
            self.presentation_time_offset,
        );
        let mut children = no_children();
        push_child(&mut children, self.initialization.to_element());
        assert(element_views(children@) =~= seq![initialization_element(self.initialization@)]);
        make_element("SegmentBase", attributes, children)
    }
}

impl Representation {
    /// The element `Representation` of this representation.
    pub fn to_element(&self) -> (element: Element)
        ensures
            element@ == representation_element(self@),
    {
        let mut attributes = no_attributes();
        push_attribute(&mut attributes, "id", self.id.as_str());
        push_optional_attribute(&mut attributes, "mimeType", &self.mime_type);
        push_optional_attribute(&mut attributes, "codecs", &self.codecs);
        push_optional_number_attribute(&mut attributes, "width", widen_u32(self.width));
        push_optional_number_attribute(&mut attributes, "height", widen_u32(self.height));
        push_optional_number_attribute(&mut attributes, "frameRate", widen_u32(self.frame_rate));
        push_optional_attribute(&mut attributes, "sar", &self.sample_aspect_ratio);
        push_optional_number_attribute(
            &mut attributes,
            "startWithSAP",
            widen_u8(self.start_with_sap),
        );
        push_number_attribute(&mut attributes, "bandwidth", self.bandwidth);

        let ghost encoded = self@.audio_channel_configuration.map_values(configuration_encoder());
        let mut children = no_children();
        let mut i: usize = 0;
        assert(encoded.take(0) =~= Seq::<ElementView>::empty());
        while i < self.audio_channel_configuration.len()
            invariant
                i <= self.audio_channel_configuration.len(),
                encoded == self@.audio_channel_configuration.map_values(configuration_encoder()),
                element_views(children@) == encoded.take(i as int),
            decreases self.audio_channel_configuration.len() - i,
        {
            let ghost before = element_views(children@);
            push_child(&mut children, self.audio_channel_configuration[i].to_element());
            i += 1;
            assert(encoded.take(i as int) =~= before.push(encoded[i - 1]));
        }
        assert(encoded.take(i as int) =~= encoded);
        push_child(&mut children, make_text_element("BaseURL", self.base_url.as_str()));
        match &self.segment_base {
            Some(segment_base) => push_child(&mut children, segment_base.to_element()),
            None => {},
        }
        make_element("Representation", attributes, children)
    }
}

impl AdaptationSet {
    /// The element `AdaptationSet` of this adaptation set.
    pub fn to_element(&self) -> (element: Element)
        ensures
            element@ == adaptation_set_element(self@),
    {
        let mut attributes = no_attributes();
        push_bool_attribute(&mut attributes, "segmentAlignment", self.segment_alignment);
        push_optional_number_attribute(&mut attributes, "maxWidth", widen_u32(self.max_width));
        push_optional_number_attribute(&mut attributes, "maxHeight", widen_u32(self.max_height));
        push_optional_number_attribute(
            &mut attributes,
            "maxFrameRate",
            widen_u32(self.max_frame_rate),
        );
        push_optional_attribute(&mut attributes, "par", &self.pixel_aspect_ratio);
        push_attribute(&mut attributes, "lang", self.language.as_str());
        push_optional_bool_attribute(
            &mut attributes,
            "subsegmentAlignment",
            self.subsegment_alignment,
        );
        push_optional_attribute(
            &mut attributes,
            "subsegmentStartsWithSAP",
            &self.subsegment_starts_with_sap,
        );
        push_optional_attribute(&mut attributes, "mimeType", &self.mime_type);
        push_optional_attribute(&mut attributes, "contentType", &self.content_type);

        let mut children = no_children();
        match &self.role {
            Some(role) => push_child(&mut children, role.to_element()),
            None => {},
        }
        let ghost head = element_views(children@);
        let ghost encoded = self@.representation.map_values(representation_encoder());
        let mut i: usize = 0;
        assert(head + encoded.take(0) =~= head);
        while i < self.representation.len()
            invariant
                i <= self.representation.len(),
                encoded == self@.representation.map_values(representation_encoder()),
                element_views(children@) == head + encoded.take(i as int),
            decreases self.representation.len() - i,
        {
            let ghost before = element_views(children@);
            push_child(&mut children, self.representation[i].to_element());
            i += 1;
            assert(head + encoded.take(i as int) =~= before.push(encoded[i - 1]));
        }
        assert(encoded.take(i as int) =~= encoded);
        make_element("AdaptationSet", attributes, children)
    }
}

impl Period {
    /// The element `Period` of this period.
    pub fn to_element(&self) -> (element: Element)
        ensures
            element@ == period_element(self@),
    {
        let mut attributes = no_attributes();
        push_attribute(&mut attributes, "duration", self.duration.as_str());
        let ghost encoded = self@.adaptation_set.map_values(adaptation_set_encoder());
        let mut children = no_children();
        let mut i: usize = 0;
        assert(encoded.take(0) =~= Seq::<ElementView>::empty());
        while i < self.adaptation_set.len()
            invariant
                i <= self.adaptation_set.len(),
                encoded == self@.adaptation_set.map_values(adaptation_set_encoder()),
                element_views(children@) == encoded.take(i as int),
            decreases self.adaptation_set.len() - i,
        {
            let ghost before = element_views(children@);
            push_child(&mut children, self.adaptation_set[i].to_element());
            i += 1;
            assert(encoded.take(i as int) =~= before.push(encoded[i - 1]));
        }
        assert(encoded.take(i as int) =~= encoded);
        make_element("Period", attributes, children)
    }
}

impl ProgramInformation {
    /// The element `ProgramInformation` of this program information.
    pub fn to_element(&self) -> (element: Element)
        ensures
            element@ == program_information_element(self@),
    {
        let mut attributes = no_attributes();
        push_attribute(&mut attributes, "moreInformationURL", self.more_information_url.as_str());
        let mut children = no_children();
        push_child(&mut children, make_text_element("Title", self.title.as_str()));
        assert(element_views(children@) =~= seq![
            text_element("Title"@, self.title@),
        ]);
        make_element("ProgramInformation", attributes, children)
    }
}

impl Manifest {
    /// The root element `MPD` of this manifest.
    pub fn to_element(&self) -> (element: Element)
        ensures
            element@ == manifest_element(self@),
    {
        let mut attributes = no_attributes();
        push_optional_attribute(&mut attributes, "minBufferTime", &self.min_buffer_time);
        push_attribute(
            &mut attributes,
            "mediaPresentationDuration",
            self.media_presentation_duration.as_str(),
        );
        push_attribute(&mut attributes, "maxSegmentDuration", self.max_segment_duration.as_str());
        push_attribute(&mut attributes, "profiles", self.profiles.as_str());
        push_attribute(&mut attributes, "type", self.kind.as_str());
        let mut children = no_children();
        match &self.program_information {
            Some(information) => push_child(&mut children, information.to_element()),
            None => {},
        }
        push_child(&mut children, self.period.to_element());
        Element {
            name: "MPD".to_owned(),
            namespace: Some("urn:mpeg:dash:schema:mpd:2011".to_owned()),
            attributes,
            text: String::new(),
            children,
        }
    }
}

/// Encodes a manifest as text: the document whose root is the manifest's
/// element. The writer accepts the element of every manifest, so the call
/// succeeds.
pub fn encode(manifest: &Manifest) -> (r: Result<String, Error>)
    ensures
        r is Ok,
        r->Ok_0@ == rendered(element_tokens(manifest_element(manifest@))),
{
    let root = manifest.to_element();
    write_document(&root)
}

} // verus!
