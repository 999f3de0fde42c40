//! How the model is spelled in XML: for each type, the element that stands
//! for a value and the value that an element stands for. Attributes and
//! children are written in the order given here; optional fields that are
//! absent are left out; on reading, an absent required field takes its empty
//! value and names that are not listed are passed over.

use vstd::prelude::*;
use crate::dash::manifest::{AdaptationSetView, ManifestView, PeriodView, ProgramInformationView};
use crate::dash::representation::{
    AudioChannelConfigurationView, InitializationView, RepresentationView, RoleView,
    SegmentBaseView,
};
use crate::text::{bool_text, decimal_text};
use crate::xml::compose::{
    optional_bool_text, optional_decimal_text, text_element, with_attribute,
    with_optional_attribute, with_optional_child,
};
use crate::xml::query::{
    attribute_value, child_named, child_text, decoded_children, mapped_children, optional_bool,
    optional_number, required_bool, required_number, text_or_empty,
};
use crate::xml::tree::{AttributeView, ElementView};

verus! {

/// The namespace of a media presentation description.
pub open spec fn dash_namespace() -> Seq<char> {
    "urn:mpeg:dash:schema:mpd:2011"@
}

/// An element without character data and without a namespace of its own.
pub open spec fn plain_element(
    name: Seq<char>,
    attributes: Seq<AttributeView>,
    children: Seq<ElementView>,
) -> ElementView {
    ElementView { name, namespace: None, attributes, text: Seq::empty(), children }
}

/// The notation of a 32-bit number that may be absent.
pub open spec fn optional_u32_text(value: Option<u32>) -> Option<Seq<char>> {
    match value {
        Some(n) => Some(decimal_text(n as nat)),
        None => None,
    }
}

/// The notation of an 8-bit number that may be absent.
pub open spec fn optional_u8_text(value: Option<u8>) -> Option<Seq<char>> {
    match value {
        Some(n) => Some(decimal_text(n as nat)),
        None => None,
    }
}

/// A number that may be absent, as a 32-bit number.
pub open spec fn as_u32(value: Option<nat>) -> Option<u32> {
    match value {
        Some(n) => Some(n as u32),
        None => None,
    }
}

/// A number that may be absent, as an 8-bit number.
pub open spec fn as_u8(value: Option<nat>) -> Option<u8> {
    match value {
        Some(n) => Some(n as u8),
        None => None,
    }
}

/// A number that may be absent, as a 64-bit number.
pub open spec fn as_u64(value: Option<nat>) -> Option<u64> {
    match value {
        Some(n) => Some(n as u64),
        None => None,
    }
}

/// The element `Role` of a role.
pub open spec fn role_element(role: RoleView) -> ElementView {
    plain_element(
        "Role"@,
        with_optional_attribute(
            with_optional_attribute(
                with_attribute(Seq::empty(), "schemeIdUri"@, role.scheme_id_uri),
                "value"@,
                role.content,
            ),
            "id"@,
            role.id,
        ),
        Seq::empty(),
    )
}

/// The role that an element stands for.
pub open spec fn role_of(element: ElementView) -> RoleView {
    RoleView {
        scheme_id_uri: text_or_empty(attribute_value(element.attributes, "schemeIdUri"@)),
        content: attribute_value(element.attributes, "value"@),
        id: attribute_value(element.attributes, "id"@),
    }
}

/// The element `AudioChannelConfiguration` of a channel layout.
pub open spec fn configuration_element(
    configuration: AudioChannelConfigurationView,
) -> ElementView {
    plain_element(
        "AudioChannelConfiguration"@,
        with_optional_attribute(
            with_optional_attribute(
                with_attribute(Seq::empty(), "schemeIdUri"@, configuration.scheme_id_uri),
                "value"@,
                configuration.content,
            ),
            "id"@,
            configuration.id,
        ),
        Seq::empty(),
    )
}

/// The channel layout that an element stands for.
pub open spec fn configuration_of(element: ElementView) -> AudioChannelConfigurationView {
    AudioChannelConfigurationView {
        scheme_id_uri: text_or_empty(attribute_value(element.attributes, "schemeIdUri"@)),
        content: attribute_value(element.attributes, "value"@),
        id: attribute_value(element.attributes, "id"@),
    }
}

/// The element `Initialization` of an initialization.
pub open spec fn initialization_element(initialization: InitializationView) -> ElementView {
    plain_element(
        "Initialization"@,
        with_optional_attribute(
            with_optional_attribute(Seq::empty(), "sourceURL"@, initialization.source_url),
            "range"@,
            initialization.range,
        ),
        Seq::empty(),
    )
}

/// The initialization that an element stands for.
pub open spec fn initialization_of(element: ElementView) -> InitializationView {
    InitializationView {
        source_url: attribute_value(element.attributes, "sourceURL"@),
        range: attribute_value(element.attributes, "range"@),
    }
}

/// The initialization among the children of a segment index: the empty one
/// where there is none.
pub open spec fn initialization_among(children: Seq<ElementView>) -> InitializationView {
    match child_named(children, "Initialization"@) {
        Some(child) => initialization_of(child),
        None => InitializationView { source_url: None, range: None },
    }
}

/// The element `SegmentBase` of a segment index.
pub open spec fn segment_base_element(segment_base: SegmentBaseView) -> ElementView {
    plain_element(
        "SegmentBase"@,
        with_optional_attribute(
            with_optional_attribute(
                with_attribute(
                    Seq::empty(),
                    "indexRangeExact"@,
                    bool_text(segment_base.index_range_exact),
                ),
                "indexRange"@,
                segment_base.index_range,
            ),
            "presentationTimeOffset"@,
            optional_decimal_text(segment_base.presentation_time_offset),
        ),
        seq![initialization_element(segment_base.initialization)],
    )
}

/// The segment index that an element stands for, if its attributes hold what
/// they should.
pub open spec fn segment_base_of(element: ElementView) -> Option<SegmentBaseView> {
    let exact = required_bool(attribute_value(element.attributes, "indexRangeExact"@));
    let offset = optional_number(
        attribute_value(element.attributes, "presentationTimeOffset"@),
        u64::MAX as nat,
    );
    if exact is Some && offset is Some {
        Some(
            SegmentBaseView {
                index_range_exact: exact->Some_0,
                index_range: attribute_value(element.attributes, "indexRange"@),
                presentation_time_offset: as_u64(offset->Some_0),
                initialization: initialization_among(element.children),
            },
        )
    } else {
        None
    }
}

/// The segment index among the children of a representation: `None` where
/// there is one that does not decode, `Some(None)` where there is none.
pub open spec fn segment_base_among(children: Seq<ElementView>) -> Option<
    Option<SegmentBaseView>,
> {
    match child_named(children, "SegmentBase"@) {
        Some(child) => match segment_base_of(child) {
            Some(segment_base) => Some(Some(segment_base)),
            None => None,
        },
        None => Some(None),
    }
}

/// The element of a segment index that may be absent.
pub open spec fn optional_segment_base_element(value: Option<SegmentBaseView>) -> Option<
    ElementView,
> {
    match value {
        Some(segment_base) => Some(segment_base_element(segment_base)),
        None => None,
    }
}

/// How channel layouts are encoded.
pub open spec fn configuration_encoder() -> spec_fn(AudioChannelConfigurationView) -> ElementView {
    |configuration: AudioChannelConfigurationView| configuration_element(configuration)
}

/// How channel layouts are decoded.
pub open spec fn configuration_decoder() -> spec_fn(ElementView) -> AudioChannelConfigurationView {
    |element: ElementView| configuration_of(element)
}

/// The attributes of a representation.
pub open spec fn representation_attributes(representation: RepresentationView) -> Seq<
    AttributeView,
> {
    let a1 = with_attribute(Seq::empty(), "id"@, representation.id);
    let a2 = with_optional_attribute(a1, "mimeType"@, representation.mime_type);
    let a3 = with_optional_attribute(a2, "codecs"@, representation.codecs);
    let a4 = with_optional_attribute(a3, "width"@, optional_u32_text(representation.width));
    let a5 = with_optional_attribute(a4, "height"@, optional_u32_text(representation.height));
    let a6 = with_optional_attribute(
        a5,
        "frameRate"@,
        optional_u32_text(representation.frame_rate),
    );
    let a7 = with_optional_attribute(a6, "sar"@, representation.sample_aspect_ratio);
    let a8 = with_optional_attribute(
        a7,
        "startWithSAP"@,
        optional_u8_text(representation.start_with_sap),
    );
    with_attribute(a8, "bandwidth"@, decimal_text(representation.bandwidth as nat))
}

/// The children of a representation.
pub open spec fn representation_children(representation: RepresentationView) -> Seq<
    ElementView,
> {
    with_optional_child(
        representation.audio_channel_configuration.map_values(configuration_encoder()).push(
            text_element("BaseURL"@, representation.base_url),
        ),
        optional_segment_base_element(representation.segment_base),
    )
}

/// The element `Representation` of a representation.
pub open spec fn representation_element(representation: RepresentationView) -> ElementView {
    plain_element(
        "Representation"@,
        representation_attributes(representation),
        representation_children(representation),
    )
}

/// The representation that an element stands for, if its attributes and
/// children hold what they should.
pub open spec fn representation_of(element: ElementView) -> Option<RepresentationView> {
    let attributes = element.attributes;
    let width = optional_number(attribute_value(attributes, "width"@), u32::MAX as nat);
    let height = optional_number(attribute_value(attributes, "height"@), u32::MAX as nat);
    let frame_rate = optional_number(attribute_value(attributes, "frameRate"@), u32::MAX as nat);
    let start_with_sap = optional_number(
        attribute_value(attributes, "startWithSAP"@),
        u8::MAX as nat,
    );
    let bandwidth = required_number(attribute_value(attributes, "bandwidth"@), u64::MAX as nat);
    let segment_base = segment_base_among(element.children);
    if width is Some && height is Some && frame_rate is Some && start_with_sap is Some
        && bandwidth is Some && segment_base is Some {
        Some(
            RepresentationView {
                id: text_or_empty(attribute_value(attributes, "id"@)),
                mime_type: attribute_value(attributes, "mimeType"@),
                codecs: attribute_value(attributes, "codecs"@),
                width: as_u32(width->Some_0),
                height: as_u32(height->Some_0),
                frame_rate: as_u32(frame_rate->Some_0),
                sample_aspect_ratio: attribute_value(attributes, "sar"@),
                start_with_sap: as_u8(start_with_sap->Some_0),
                bandwidth: bandwidth->Some_0 as u64,
                audio_channel_configuration: mapped_children(
                    element.children,
                    "AudioChannelConfiguration"@,
                    configuration_decoder(),
                ),
                base_url: child_text(element.children, "BaseURL"@),
                segment_base: segment_base->Some_0,
            },
        )
    } else {
        None
    }
}

/// How representations are encoded.
pub open spec fn representation_encoder() -> spec_fn(RepresentationView) -> ElementView {
    |representation: RepresentationView| representation_element(representation)
}

/// How representations are decoded.
pub open spec fn representation_decoder() -> spec_fn(ElementView) -> Option<RepresentationView> {
    |element: ElementView| representation_of(element)
}

/// The element of a role that may be absent.
pub open spec fn optional_role_element(value: Option<RoleView>) -> Option<ElementView> {
    match value {
        Some(role) => Some(role_element(role)),
        None => None,
    }
}

/// The role among the children of an adaptation set.
pub open spec fn role_among(children: Seq<ElementView>) -> Option<RoleView> {
    match child_named(children, "Role"@) {
        Some(child) => Some(role_of(child)),
        None => None,
    }
}

/// The attributes of an adaptation set.
pub open spec fn adaptation_set_attributes(set: AdaptationSetView) -> Seq<AttributeView> {
    let a1 = with_attribute(Seq::empty(), "segmentAlignment"@, bool_text(set.segment_alignment));
    let a2 = with_optional_attribute(a1, "maxWidth"@, optional_u32_text(set.max_width));
    let a3 = with_optional_attribute(a2, "maxHeight"@, optional_u32_text(set.max_height));
    let a4 = with_optional_attribute(a3, "maxFrameRate"@, optional_u32_text(set.max_frame_rate));
    let a5 = with_optional_attribute(a4, "par"@, set.pixel_aspect_ratio);
    let a6 = with_attribute(a5, "lang"@, set.language);
    let a7 = with_optional_attribute(
        a6,
        "subsegmentAlignment"@,
        optional_bool_text(set.subsegment_alignment),
    );
    let a8 = with_optional_attribute(
        a7,
        "subsegmentStartsWithSAP"@,
        set.subsegment_starts_with_sap,
    );
    let a9 = with_optional_attribute(a8, "mimeType"@, set.mime_type);
    with_optional_attribute(a9, "contentType"@, set.content_type)
}

/// The children of an adaptation set.
pub open spec fn adaptation_set_children(set: AdaptationSetView) -> Seq<ElementView> {
    with_optional_child(Seq::empty(), optional_role_element(set.role))
        + set.representation.map_values(representation_encoder())
}

/// The element `AdaptationSet` of an adaptation set.
pub open spec fn adaptation_set_element(set: AdaptationSetView) -> ElementView {
    plain_element(
        "AdaptationSet"@,
        adaptation_set_attributes(set),
        adaptation_set_children(set),
    )
}

/// The adaptation set that an element stands for, if its attributes and
/// children hold what they should.
pub open spec fn adaptation_set_of(element: ElementView) -> Option<AdaptationSetView> {
    let attributes = element.attributes;
    let alignment = required_bool(attribute_value(attributes, "segmentAlignment"@));
    let max_width = optional_number(attribute_value(attributes, "maxWidth"@), u32::MAX as nat);
    let max_height = optional_number(attribute_value(attributes, "maxHeight"@), u32::MAX as nat);
    let max_frame_rate = optional_number(
        attribute_value(attributes, "maxFrameRate"@),
        u32::MAX as nat,
    );
    let subsegment = optional_bool(attribute_value(attributes, "subsegmentAlignment"@));
    let representations = decoded_children(
        element.children,
        "Representation"@,
        representation_decoder(),
    );
    if alignment is Some && max_width is Some && max_height is Some && max_frame_rate is Some
        && subsegment is Some && representations is Some {
        Some(
            AdaptationSetView {
                segment_alignment: alignment->Some_0,
                max_width: as_u32(max_width->Some_0),
                max_height: as_u32(max_height->Some_0),
                max_frame_rate: as_u32(max_frame_rate->Some_0),
                pixel_aspect_ratio: attribute_value(attributes, "par"@),
                language: text_or_empty(attribute_value(attributes, "lang"@)),
                subsegment_alignment: subsegment->Some_0,
                subsegment_starts_with_sap: attribute_value(
                    attributes,
                    "subsegmentStartsWithSAP"@,
                ),
                mime_type: attribute_value(attributes, "mimeType"@),
                content_type: attribute_value(attributes, "contentType"@),
                role: role_among(element.children),
                representation: representations->Some_0,
            },
        )
    } else {
        None
    }
}

/// How adaptation sets are encoded.
pub open spec fn adaptation_set_encoder() -> spec_fn(AdaptationSetView) -> ElementView {
    |set: AdaptationSetView| adaptation_set_element(set)
}

/// How adaptation sets are decoded.
pub open spec fn adaptation_set_decoder() -> spec_fn(ElementView) -> Option<AdaptationSetView> {
    |element: ElementView| adaptation_set_of(element)
}

/// The element `Period` of a period.
pub open spec fn period_element(period: PeriodView) -> ElementView {
    plain_element(
        "Period"@,
        with_attribute(Seq::empty(), "duration"@, period.duration),
        period.adaptation_set.map_values(adaptation_set_encoder()),
    )
}

/// The period that an element stands for, if its adaptation sets decode.
pub open spec fn period_of(element: ElementView) -> Option<PeriodView> {
    match decoded_children(element.children, "AdaptationSet"@, adaptation_set_decoder()) {
        Some(sets) => Some(
            PeriodView {
                duration: text_or_empty(attribute_value(element.attributes, "duration"@)),
                adaptation_set: sets,
            },
        ),
        None => None,
    }
}

/// The period among the children of a manifest: the empty one where there is
/// none, `None` where there is one that does not decode.
pub open spec fn period_among(children: Seq<ElementView>) -> Option<PeriodView> {
    match child_named(children, "Period"@) {
        Some(child) => period_of(child),
        None => Some(PeriodView { duration: Seq::empty(), adaptation_set: Seq::empty() }),
    }
}

/// The element `ProgramInformation` of a program information.
pub open spec fn program_information_element(information: ProgramInformationView) -> ElementView {
    plain_element(
        "ProgramInformation"@,
        with_attribute(Seq::empty(), "moreInformationURL"@, information.more_information_url),
        seq![text_element("Title"@, information.title)],
    )
}

/// The program information that an element stands for.
pub open spec fn program_information_of(element: ElementView) -> ProgramInformationView {
    ProgramInformationView {
        more_information_url: text_or_empty(
            attribute_value(element.attributes, "moreInformationURL"@),
        ),
        title: child_text(element.children, "Title"@),
    }
}

/// The element of a program information that may be absent.
pub open spec fn optional_program_information_element(
    value: Option<ProgramInformationView>,
) -> Option<ElementView> {
    match value {
        Some(information) => Some(program_information_element(information)),
        None => None,
    }
}

/// The program information among the children of a manifest.
pub open spec fn program_information_among(children: Seq<ElementView>) -> Option<
    ProgramInformationView,
> {
    match child_named(children, "ProgramInformation"@) {
        Some(child) => Some(program_information_of(child)),
        None => None,
    }
}

/// The attributes of a manifest.
pub open spec fn manifest_attributes(manifest: ManifestView) -> Seq<AttributeView> {
    let a1 = with_optional_attribute(Seq::empty(), "minBufferTime"@, manifest.min_buffer_time);
    let a2 = with_attribute(
        a1,
        "mediaPresentationDuration"@,
        manifest.media_presentation_duration,
    );
    let a3 = with_attribute(a2, "maxSegmentDuration"@, manifest.max_segment_duration);
    let a4 = with_attribute(a3, "profiles"@, manifest.profiles);
    with_attribute(a4, "type"@, manifest.kind)
}

/// The children of a manifest.
pub open spec fn manifest_children(manifest: ManifestView) -> Seq<ElementView> {
    with_optional_child(
        Seq::empty(),
        optional_program_information_element(manifest.program_information),
    ).push(period_element(manifest.period))
}

/// The root element `MPD` of a manifest, in the namespace of media
/// presentation descriptions.
pub open spec fn manifest_element(manifest: ManifestView) -> ElementView {
    ElementView {
        name: "MPD"@,
        namespace: Some(dash_namespace()),
        attributes: manifest_attributes(manifest),
        text: Seq::empty(),
        children: manifest_children(manifest),
    }
}

/// Whether an element can be the root of a manifest: it is called `MPD` and
/// belongs to no namespace or to that of media presentation descriptions.
pub open spec fn is_manifest_root(element: ElementView) -> bool {
    element.name == "MPD"@ && (element.namespace is None || element.namespace == Some(
        dash_namespace(),
    ))
}

/// The manifest that a root element stands for, if the element is such a
/// root and its period decodes.
pub open spec fn manifest_of(element: ElementView) -> Option<ManifestView> {
    let period = period_among(element.children);
    if is_manifest_root(element) && period is Some {
        Some(
            ManifestView {
                min_buffer_time: attribute_value(element.attributes, "minBufferTime"@),
                media_presentation_duration: text_or_empty(
                    attribute_value(element.attributes, "mediaPresentationDuration"@),
                ),
                max_segment_duration: text_or_empty(
                    attribute_value(element.attributes, "maxSegmentDuration"@),
                ),
                profiles: text_or_empty(attribute_value(element.attributes, "profiles"@)),
                kind: text_or_empty(attribute_value(element.attributes, "type"@)),
                program_information: program_information_among(element.children),
                period: period->Some_0,
            },
        )
    } else {
        None
    }
}

} // verus!
