//! From elements to the model.

use vstd::prelude::*;
use crate::dash::manifest::{
    adaptation_set_views, representation_views, AdaptationSet, AdaptationSetView, Manifest,
    ManifestView, Period, ProgramInformation,
};
use crate::dash::representation::{
    configuration_views, AudioChannelConfiguration, Initialization, Representation,
    RepresentationView, Role, SegmentBase,
};
use crate::dash::schema::{
    adaptation_set_decoder, adaptation_set_of, configuration_decoder, configuration_of,
    initialization_of, is_manifest_root, manifest_of, period_of, program_information_of,
    representation_decoder, representation_of, role_of, segment_base_of,
};
use crate::error::Error;
use crate::text::text_is;
use crate::xml::parse::{read_document, tree_of};
use crate::xml::query::{
    attribute_bool, attribute_number, attribute_optional_bool, attribute_optional_number,
    attribute_text, decoded_children, find_attribute, find_child, find_child_text,
    lemma_decoded_children_prefix, lemma_mapped_children_push, mapped_children,
};
use crate::xml::reader::document_tokens;
use crate::xml::token::reader_message;
use crate::xml::tree::{element_views, Element, ElementView};

verus! {

/// A number known to fit, as a 32-bit number.
fn narrow_u32(value: Option<u64>) -> (narrow: Option<u32>)
    requires
        value is Some ==> value->Some_0 <= u32::MAX,
    ensures
        narrow == match value {
            Some(n) => Some(n as u32),
            None => None,
        },
{
    match value {
        Some(n) => Some(n as u32),
        None => None,
    }
}

/// A number known to fit, as an 8-bit number.
fn narrow_u8(value: Option<u64>) -> (narrow: Option<u8>)
    requires
        value is Some ==> value->Some_0 <= u8::MAX,
    ensures
        narrow == match value {
            Some(n) => Some(n as u8),
            None => None,
        },
{
    match value {
        Some(n) => Some(n as u8),
        None => None,
    }
}

impl Role {
    /// Reads a role from its element.
    pub fn from_element(element: &Element) -> (role: Role)
        ensures
            role@ == role_of(element@),
    {
        Role {
            scheme_id_uri: attribute_text(&element.attributes, "schemeIdUri"),
            content: find_attribute(&element.attributes, "value"),
            id: find_attribute(&element.attributes, "id"),
        }
    }
}

impl AudioChannelConfiguration {
    /// Reads a channel layout from its element.
    pub fn from_element(element: &Element) -> (configuration: AudioChannelConfiguration)
        ensures
            configuration@ == configuration_of(element@),
    {
        AudioChannelConfiguration {
            scheme_id_uri: attribute_text(&element.attributes, "schemeIdUri"),
            content: find_attribute(&element.attributes, "value"),
            id: find_attribute(&element.attributes, "id"),
        }
    }
}

impl Initialization {
    /// Reads an initialization from its element.
    pub fn from_element(element: &Element) -> (initialization: Initialization)
        ensures
            initialization@ == initialization_of(element@),
    {
        Initialization {
            source_url: find_attribute(&element.attributes, "sourceURL"),
            range: find_attribute(&element.attributes, "range"),
        }
    }
}

impl SegmentBase {
    /// Reads a segment index from its element. It fails where
    /// `indexRangeExact` holds no truth value or `presentationTimeOffset` no
    /// number.
    pub fn from_element(element: &Element) -> (r: Result<SegmentBase, Error>)
        ensures
            match segment_base_of(element@) {
                Some(segment_base) => r is Ok && r->Ok_0@ == segment_base,
                None => r is Err && r->Err_0 is Parse,
            },
    {
        let index_range_exact = match attribute_bool(&element.attributes, "indexRangeExact") {
            Ok(value) => value,
            Err(error) => {
                return Err(error);
            },
        };
        let presentation_time_offset = match attribute_optional_number(
            &element.attributes,
            "presentationTimeOffset",
            u64::MAX,
        ) {
            Ok(value) => value,
            Err(error) => {
                return Err(error);
            },
        };
        let initialization = match find_child(&element.children, "Initialization") {
            Some(child) => Initialization::from_element(child),
            None => Initialization::default(),
        };
        Ok(
            SegmentBase {
                index_range_exact,
                index_range: find_attribute(&element.attributes, "indexRange"),
                presentation_time_offset,
                initialization,
            },
        )
    }
}

/// Reads the channel layouts among the children of a representation.
pub fn configurations_among(children: &Vec<Element>) -> (items: Vec<AudioChannelConfiguration>)
    ensures
        configuration_views(items@) == mapped_children(
            element_views(children@),
            "AudioChannelConfiguration"@,
            configuration_decoder(),
        ),
{
    let ghost all = element_views(children@);
    let ghost name = "AudioChannelConfiguration"@;
    let mut items: Vec<AudioChannelConfiguration> = Vec::new();
    let mut i: usize = 0;
    assert(all.take(0) =~= Seq::<ElementView>::empty());
    assert(configuration_views(items@) =~= mapped_children(
        all.take(0),
        name,
        configuration_decoder(),
    ));
    while i < children.len()
        invariant
            i <= children.len(),
            all == element_views(children@),
            name == "AudioChannelConfiguration"@,
            configuration_views(items@) == mapped_children(
                all.take(i as int),
                name,
                configuration_decoder(),
            ),
        decreases children.len() - i,
    {
        let ghost before = configuration_views(items@);
        proof {
            assert(all.take(i as int + 1) =~= all.take(i as int).push(children@[i as int]@));
            lemma_mapped_children_push(
                all.take(i as int),
                children@[i as int]@,
                name,
                configuration_decoder(),
            );
        }
        if text_is(children[i].name.as_str(), "AudioChannelConfiguration") {
            let item = AudioChannelConfiguration::from_element(&children[i]);
            items.push(item);
            assert(configuration_views(items@) =~= before.push(item@));
        }
        i += 1;
    }
    assert(all.take(i as int) =~= all);
    items
}

impl Representation {
    /// Reads a representation from its element. It fails where an attribute
    /// that holds a number does not, or where the segment index does not
    /// decode.
    pub fn from_element(element: &Element) -> (r: Result<Representation, Error>)
        ensures
            match representation_of(element@) {
                Some(representation) => r is Ok && r->Ok_0@ == representation,
                None => r is Err && r->Err_0 is Parse,
            },
    {
        let attributes = &element.attributes;
        let width = match attribute_optional_number(attributes, "width", u32::MAX as u64) {
            Ok(value) => narrow_u32(value),
            Err(error) => {
                return Err(error);
            },
        };
        let height = match attribute_optional_number(attributes, "height", u32::MAX as u64) {
            Ok(value) => narrow_u32(value),
            Err(error) => {
                return Err(error);
            },
        };
        let frame_rate = match attribute_optional_number(
            attributes,
            "frameRate",
            u32::MAX as u64,
        ) {
            Ok(value) => narrow_u32(value),
            Err(error) => {
                return Err(error);
            },
        };
        let start_with_sap = match attribute_optional_number(
            attributes,
            "startWithSAP",
            u8::MAX as u64,
        ) {
            Ok(value) => narrow_u8(value),
            Err(error) => {
                return Err(error);
            },
        };
        let bandwidth = match attribute_number(attributes, "bandwidth", u64::MAX) {
            Ok(value) => value,
            Err(error) => {
                return Err(error);
            },
        };
        let segment_base = match find_child(&element.children, "SegmentBase") {
            Some(child) => match SegmentBase::from_element(child) {
                Ok(value) => Some(value),
                Err(error) => {
                    return Err(error);
                },
            },
            None => None,
        };
        Ok(
            Representation {
                id: attribute_text(attributes, "id"),
                mime_type: find_attribute(attributes, "mimeType"),
                codecs: find_attribute(attributes, "codecs"),
                width,
                height,
                frame_rate,
                sample_aspect_ratio: find_attribute(attributes, "sar"),
                start_with_sap,
                bandwidth,
                audio_channel_configuration: configurations_among(&element.children),
                base_url: find_child_text(&element.children, "BaseURL"),
                segment_base,
            },
        )
    }
}

/// Reads the representations among the children of an adaptation set.
pub fn representations_among(children: &Vec<Element>) -> (r: Result<Vec<Representation>, Error>)
    ensures
        match decoded_children(
            element_views(children@),
            "Representation"@,
            representation_decoder(),
        ) {
            Some(items) => r is Ok && representation_views(r->Ok_0@) == items,
            None => r is Err && r->Err_0 is Parse,
        },
{
    let ghost all = element_views(children@);
    let ghost name = "Representation"@;
    let mut items: Vec<Representation> = Vec::new();
    let mut i: usize = 0;
    assert(all.take(0) =~= Seq::<ElementView>::empty());
    assert(representation_views(items@) =~= Seq::<RepresentationView>::empty());
    while i < children.len()
        invariant
            i <= children.len(),
            all == element_views(children@),
            name == "Representation"@,
            decoded_children(all.take(i as int), name, representation_decoder()) == Some(
                representation_views(items@),
            ),
        decreases children.len() - i,
    {
        let ghost before = representation_views(items@);
        let ghost upto = all.take(i as int + 1);
        assert(upto.drop_last() =~= all.take(i as int));
        assert(upto.last() == children@[i as int]@);
        if text_is(children[i].name.as_str(), "Representation") {
            match Representation::from_element(&children[i]) {
                Ok(item) => {
                    items.push(item);
                    assert(representation_views(items@) =~= before.push(item@));
                },
                Err(error) => {
                    proof {
                        lemma_decoded_children_prefix(
                            all,
                            i as int + 1,
                            name,
                            representation_decoder(),
                        );
                    }
                    return Err(error);
                },
            }
        }
        i += 1;
    }
    assert(all.take(i as int) =~= all);
    Ok(items)
}

impl AdaptationSet {
    /// Reads an adaptation set from its element. It fails where an attribute
    /// that holds a number or a truth value does not, or where one of its
    /// representations does not decode.
    pub fn from_element(element: &Element) -> (r: Result<AdaptationSet, Error>)
        ensures
            match adaptation_set_of(element@) {
                Some(set) => r is Ok && r->Ok_0@ == set,
                None => r is Err && r->Err_0 is Parse,
            },
    {
        let attributes = &element.attributes;
        let segment_alignment = match attribute_bool(attributes, "segmentAlignment") {
            Ok(value) => value,
            Err(error) => {
                return Err(error);
            },
        };
        let max_width = match attribute_optional_number(attributes, "maxWidth", u32::MAX as u64) {
            Ok(value) => narrow_u32(value),
            Err(error) => {
                return Err(error);
            },
        };
        let max_height = match attribute_optional_number(
            attributes,
            "maxHeight",
            u32::MAX as u64,
        ) {
            Ok(value) => narrow_u32(value),
            Err(error) => {
                return Err(error);
            },
        };
        let max_frame_rate = match attribute_optional_number(
            attributes,
            "maxFrameRate",
            u32::MAX as u64,
        ) {
            Ok(value) => narrow_u32(value),
            Err(error) => {
                return Err(error);
            },
        };
        let subsegment_alignment = match attribute_optional_bool(
            attributes,
            "subsegmentAlignment",
        ) {
            Ok(value) => value,
            Err(error) => {
                return Err(error);
            },
        };
        let representation = match representations_among(&element.children) {
            Ok(items) => items,
            Err(error) => {
                return Err(error);
            },
        };
        let role = match find_child(&element.children, "Role") {
            Some(child) => Some(Role::from_element(child)),
            None => None,
        };
        Ok(
            AdaptationSet {
                segment_alignment,
                max_width,
                max_height,
                max_frame_rate,
                pixel_aspect_ratio: find_attribute(attributes, "par"),
                language: attribute_text(attributes, "lang"),
                subsegment_alignment,
                subsegment_starts_with_sap: find_attribute(attributes, "subsegmentStartsWithSAP"),
                mime_type: find_attribute(attributes, "mimeType"),
                content_type: find_attribute(attributes, "contentType"),
                role,
                representation,
            },
        )
    }
}

/// Reads the adaptation sets among the children of a period.
pub fn adaptation_sets_among(children: &Vec<Element>) -> (r: Result<Vec<AdaptationSet>, Error>)
    ensures
        match decoded_children(
            element_views(children@),
            "AdaptationSet"@,
            adaptation_set_decoder(),
        ) {
            Some(items) => r is Ok && adaptation_set_views(r->Ok_0@) == items,
            None => r is Err && r->Err_0 is Parse,
        },
{
    let ghost all = element_views(children@);
    let ghost name = "AdaptationSet"@;
    let mut items: Vec<AdaptationSet> = Vec::new();
    let mut i: usize = 0;
    assert(all.take(0) =~= Seq::<ElementView>::empty());
    assert(adaptation_set_views(items@) =~= Seq::<AdaptationSetView>::empty());
    while i < children.len()
        invariant
            i <= children.len(),
            all == element_views(children@),
            name == "AdaptationSet"@,
            decoded_children(all.take(i as int), name, adaptation_set_decoder()) == Some(
                adaptation_set_views(items@),
            ),
        decreases children.len() - i,
    {
        let ghost before = adaptation_set_views(items@);
        let ghost upto = all.take(i as int + 1);
        assert(upto.drop_last() =~= all.take(i as int));
        assert(upto.last() == children@[i as int]@);
        if text_is(children[i].name.as_str(), "AdaptationSet") {
            match AdaptationSet::from_element(&children[i]) {
                Ok(item) => {
                    items.push(item);
                    assert(adaptation_set_views(items@) =~= before.push(item@));
                },
                Err(error) => {
                    proof {
                        lemma_decoded_children_prefix(
                            all,
                            i as int + 1,
                            name,
                            adaptation_set_decoder(),
                        );
                    }
                    return Err(error);
                },
            }
        }
        i += 1;
    }
    assert(all.take(i as int) =~= all);
    Ok(items)
}

impl Period {
    /// Reads a period from its element. It fails where one of its adaptation
    /// sets does not decode.
    pub fn from_element(element: &Element) -> (r: Result<Period, Error>)
        ensures
            match period_of(element@) {
                Some(period) => r is Ok && r->Ok_0@ == period,
                None => r is Err && r->Err_0 is Parse,
            },
    {
        match adaptation_sets_among(&element.children) {
            Ok(adaptation_set) => Ok(
                Period { duration: attribute_text(&element.attributes, "duration"), adaptation_set },
            ),
            Err(error) => Err(error),
        }
    }
}

impl ProgramInformation {
    /// Reads a program information from its element.
    pub fn from_element(element: &Element) -> (information: ProgramInformation)
        ensures
            information@ == program_information_of(element@),
    {
        ProgramInformation {
            more_information_url: attribute_text(&element.attributes, "moreInformationURL"),
            title: find_child_text(&element.children, "Title"),
        }
    }
}

/// Whether an element can be the root of a manifest.
pub fn check_manifest_root(element: &Element) -> (ok: bool)
    ensures
        ok == is_manifest_root(element@),
{
    if !text_is(element.name.as_str(), "MPD") {
        return false;
    }
    match &element.namespace {
        Some(namespace) => text_is(namespace.as_str(), "urn:mpeg:dash:schema:mpd:2011"),
        None => true,
    }
}

impl Manifest {
    /// Reads a manifest from the root element of a document. It fails where
    /// the element is no `MPD` of the right namespace, or where its period
    /// does not decode.
    pub fn from_element(element: &Element) -> (r: Result<Manifest, Error>)
        ensures
            match manifest_of(element@) {
                Some(manifest) => r is Ok && r->Ok_0@ == manifest,
                None => r is Err && r->Err_0 is Parse,
            },
    {
        if !check_manifest_root(element) {
            return Err(Error::parse("the root element is not an MPD of the DASH namespace"));
        }
        let period = match find_child(&element.children, "Period") {
            Some(child) => match Period::from_element(child) {
                Ok(period) => period,
                Err(error) => {
                    return Err(error);
                },
            },
            None => Period::default(),
        };
        let program_information = match find_child(&element.children, "ProgramInformation") {
            Some(child) => Some(ProgramInformation::from_element(child)),
            None => None,
        };
        let attributes = &element.attributes;
        Ok(
            Manifest {
                min_buffer_time: find_attribute(attributes, "minBufferTime"),
                media_presentation_duration: attribute_text(
                    attributes,
                    "mediaPresentationDuration",
                ),
                max_segment_duration: attribute_text(attributes, "maxSegmentDuration"),
                profiles: attribute_text(attributes, "profiles"),
                kind: attribute_text(attributes, "type"),
                program_information,
                period,
            },
        )
    }
}

/// The manifest that a text spells: that of the root element of its
/// document.
pub open spec fn manifest_of_text(text: Seq<char>) -> Option<ManifestView> {
    match tree_of(document_tokens(text)) {
        Some(root) => manifest_of(root),
        None => None,
    }
}

/// Decodes the text of a manifest. It fails with a parse error exactly where
/// the text is no well-formed document or its root stands for no manifest;
/// where the reader stopped on an error, the error carries the reader's
/// message.
pub fn decode(text: &str) -> (r: Result<Manifest, Error>)
    ensures
        match manifest_of_text(text@) {
            Some(manifest) => r is Ok && r->Ok_0@ == manifest,
            None => r is Err && r->Err_0 is Parse,
        },
        reader_message(document_tokens(text@)) is Some ==> r is Err && r->Err_0->Parse_0@
            == reader_message(document_tokens(text@))->Some_0,
{
    match read_document(text) {
        Ok(root) => Manifest::from_element(&root),
        Err(error) => Err(error),
    }
}

} // verus!
