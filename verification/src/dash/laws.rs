//! What holds of the binding to XML and of the operations on a manifest.

use vstd::prelude::*;
use crate::dash::manifest::{AdaptationSetView, ManifestView, PeriodView, ProgramInformationView};
use crate::dash::message::{sets_with_subtitle, subtitle_inserted};
use crate::dash::names::{
    lemma_adaptation_set_child_names, lemma_adaptation_set_names, lemma_descriptor_names,
    lemma_initialization_names, lemma_manifest_child_names, lemma_manifest_names,
    lemma_representation_child_names, lemma_representation_names, lemma_segment_base_names,
};
use crate::dash::representation::{
    AudioChannelConfigurationView, InitializationView, RepresentationView, RoleView,
    SegmentBaseView,
};
use crate::dash::schema::{
    adaptation_set_attributes, adaptation_set_children, adaptation_set_decoder,
    adaptation_set_element, adaptation_set_encoder, adaptation_set_of, configuration_decoder,
    configuration_element, configuration_encoder, configuration_of, dash_namespace,
    initialization_element, initialization_of, manifest_element, manifest_of,
    optional_program_information_element, optional_role_element, optional_segment_base_element,
    optional_u32_text, optional_u8_text, period_element, period_of, program_information_element,
    program_information_of, representation_attributes, representation_children,
    representation_decoder, representation_element, representation_encoder, representation_of,
    role_among, role_element, role_of, segment_base_among, segment_base_element, segment_base_of,
};
use crate::dash::subtitle::{
    is_track, prefixed_set, prefixed_sets, track_count, ttml_subtitle, without_track,
};
use crate::text::{bool_text, decimal_text, lemma_bool_round_trip, lemma_decimal_round_trip};
use crate::xml::compose::{
    lemma_children_named_push, lemma_value_with_attribute, lemma_value_with_optional_attribute,
    optional_bool_text, optional_decimal_text, text_element, with_attribute,
    with_optional_attribute, with_optional_child,
};
use crate::xml::laws::{
    alike, lemma_child_named_alike, lemma_decoded_children_alike, lemma_mapped_children_alike,
};
use crate::xml::query::{
    attribute_value, child_named, child_text, children_named, decoded_children,
    lemma_children_named_concat, lemma_children_named_none, lemma_decoded_children_concat,
    lemma_decoded_children_encoded, lemma_decoded_children_none, lemma_mapped_children_encoded,
    mapped_children,
};
use crate::xml::tree::{AttributeView, ElementView};

verus! {

/// The element of a role stands for that role.
pub proof fn lemma_role_round_trip(role: RoleView)
    ensures
        role_of(role_element(role)) == role,
{
    lemma_descriptor_names();
    let a0 = Seq::<AttributeView>::empty();
    let a1 = with_attribute(a0, "schemeIdUri"@, role.scheme_id_uri);
    let a2 = with_optional_attribute(a1, "value"@, role.content);
    lemma_value_with_attribute(a0, "schemeIdUri"@, role.scheme_id_uri);
    lemma_value_with_optional_attribute(a1, "value"@, role.content);
    lemma_value_with_optional_attribute(a2, "id"@, role.id);
}

/// The element of a channel layout stands for that channel layout.
pub proof fn lemma_configuration_round_trip(configuration: AudioChannelConfigurationView)
    ensures
        configuration_of(configuration_element(configuration)) == configuration,
{
    lemma_descriptor_names();
    let a0 = Seq::<AttributeView>::empty();
    let a1 = with_attribute(a0, "schemeIdUri"@, configuration.scheme_id_uri);
    let a2 = with_optional_attribute(a1, "value"@, configuration.content);
    lemma_value_with_attribute(a0, "schemeIdUri"@, configuration.scheme_id_uri);
    lemma_value_with_optional_attribute(a1, "value"@, configuration.content);
    lemma_value_with_optional_attribute(a2, "id"@, configuration.id);
}

/// The element of an initialization stands for that initialization.
pub proof fn lemma_initialization_round_trip(initialization: InitializationView)
    ensures
        initialization_of(initialization_element(initialization)) == initialization,
{
    lemma_initialization_names();
    let a0 = Seq::<AttributeView>::empty();
    let a1 = with_optional_attribute(a0, "sourceURL"@, initialization.source_url);
    lemma_value_with_optional_attribute(a0, "sourceURL"@, initialization.source_url);
    lemma_value_with_optional_attribute(a1, "range"@, initialization.range);
}

/// A list of one element: what selecting by any name gives in it.
pub proof fn lemma_children_named_single(child: ElementView)
    ensures
        forall|name: Seq<char>| #[trigger]
            children_named(seq![child], name) == if child.name == name {
                seq![child]
            } else {
                Seq::<ElementView>::empty()
            },
{
    lemma_children_named_push(Seq::empty(), child);
    assert(Seq::<ElementView>::empty().push(child) =~= seq![child]);
}

/// The element of a segment index stands for that segment index.
pub proof fn lemma_segment_base_round_trip(segment_base: SegmentBaseView)
    ensures
        segment_base_of(segment_base_element(segment_base)) == Some(segment_base),
{
    lemma_segment_base_names();
    let a0 = Seq::<AttributeView>::empty();
    let a1 = with_attribute(a0, "indexRangeExact"@, bool_text(segment_base.index_range_exact));
    let a2 = with_optional_attribute(a1, "indexRange"@, segment_base.index_range);
    let offset = optional_decimal_text(segment_base.presentation_time_offset);
    lemma_value_with_attribute(a0, "indexRangeExact"@, bool_text(segment_base.index_range_exact));
    lemma_value_with_optional_attribute(a1, "indexRange"@, segment_base.index_range);
    lemma_value_with_optional_attribute(a2, "presentationTimeOffset"@, offset);
    lemma_bool_round_trip(segment_base.index_range_exact);
    if segment_base.presentation_time_offset is Some {
        lemma_decimal_round_trip(segment_base.presentation_time_offset->Some_0 as nat);
    }
    let child = initialization_element(segment_base.initialization);
    lemma_children_named_single(child);
    lemma_initialization_round_trip(segment_base.initialization);
}

/// What each attribute name finds among the attributes of a representation.
pub proof fn lemma_representation_attribute_values(representation: RepresentationView)
    ensures
        ({
            let r = representation;
            let attributes = representation_attributes(r);
            &&& attribute_value(attributes, "id"@) == Some(r.id)
            &&& attribute_value(attributes, "mimeType"@) == r.mime_type
            &&& attribute_value(attributes, "codecs"@) == r.codecs
            &&& attribute_value(attributes, "width"@) == optional_u32_text(r.width)
            &&& attribute_value(attributes, "height"@) == optional_u32_text(r.height)
            &&& attribute_value(attributes, "frameRate"@) == optional_u32_text(r.frame_rate)
            &&& attribute_value(attributes, "sar"@) == r.sample_aspect_ratio
            &&& attribute_value(attributes, "startWithSAP"@) == optional_u8_text(r.start_with_sap)
            &&& attribute_value(attributes, "bandwidth"@) == Some(
                decimal_text(r.bandwidth as nat),
            )
        }),
{
    lemma_representation_names();
    let r = representation;
    let a0 = Seq::<AttributeView>::empty();
    let a1 = with_attribute(a0, "id"@, r.id);
    let a2 = with_optional_attribute(a1, "mimeType"@, r.mime_type);
    let a3 = with_optional_attribute(a2, "codecs"@, r.codecs);
    let a4 = with_optional_attribute(a3, "width"@, optional_u32_text(r.width));
    let a5 = with_optional_attribute(a4, "height"@, optional_u32_text(r.height));
    let a6 = with_optional_attribute(a5, "frameRate"@, optional_u32_text(r.frame_rate));
    let a7 = with_optional_attribute(a6, "sar"@, r.sample_aspect_ratio);
    let a8 = with_optional_attribute(a7, "startWithSAP"@, optional_u8_text(r.start_with_sap));
    lemma_value_with_attribute(a0, "id"@, r.id);
    lemma_value_with_optional_attribute(a1, "mimeType"@, r.mime_type);
    lemma_value_with_optional_attribute(a2, "codecs"@, r.codecs);
    lemma_value_with_optional_attribute(a3, "width"@, optional_u32_text(r.width));
    lemma_value_with_optional_attribute(a4, "height"@, optional_u32_text(r.height));
    lemma_value_with_optional_attribute(a5, "frameRate"@, optional_u32_text(r.frame_rate));
    lemma_value_with_optional_attribute(a6, "sar"@, r.sample_aspect_ratio);
    lemma_value_with_optional_attribute(a7, "startWithSAP"@, optional_u8_text(r.start_with_sap));
    lemma_value_with_attribute(a8, "bandwidth"@, decimal_text(r.bandwidth as nat));
}

/// What the children of a representation decode to.
pub proof fn lemma_representation_children_decoded(representation: RepresentationView)
    ensures
        mapped_children(
            representation_children(representation),
            "AudioChannelConfiguration"@,
            configuration_decoder(),
        ) == representation.audio_channel_configuration,
        child_text(representation_children(representation), "BaseURL"@)
            == representation.base_url,
        segment_base_among(representation_children(representation)) == Some(
            representation.segment_base,
        ),
{
    lemma_representation_child_names();
    let r = representation;
    let encoded = r.audio_channel_configuration.map_values(configuration_encoder());
    let base = text_element("BaseURL"@, r.base_url);
    let tail = with_optional_child(seq![base], optional_segment_base_element(r.segment_base));
    let children = representation_children(r);
    assert(children =~= encoded + tail);
    assert forall|item: AudioChannelConfigurationView|
        (configuration_decoder())(#[trigger] (configuration_encoder())(item)) == item by {
        lemma_configuration_round_trip(item);
    }
    lemma_children_named_single(base);
    lemma_children_named_push(seq![base], segment_base_element(r.segment_base->Some_0));
    lemma_mapped_children_encoded(
        r.audio_channel_configuration,
        tail,
        "AudioChannelConfiguration"@,
        configuration_encoder(),
        configuration_decoder(),
    );
    lemma_children_named_none(encoded, "BaseURL"@);
    lemma_children_named_concat(encoded, tail, "BaseURL"@);
    lemma_children_named_none(encoded, "SegmentBase"@);
    lemma_children_named_concat(encoded, tail, "SegmentBase"@);
    assert(children_named(children, "BaseURL"@) =~= seq![base]);
    if r.segment_base is Some {
        lemma_segment_base_round_trip(r.segment_base->Some_0);
        assert(children_named(children, "SegmentBase"@) =~= seq![
            segment_base_element(r.segment_base->Some_0),
        ]);
    } else {
        assert(children_named(children, "SegmentBase"@) =~= Seq::<ElementView>::empty());
    }
}

/// The element of a representation stands for that representation.
pub proof fn lemma_representation_round_trip(representation: RepresentationView)
    ensures
        representation_of(representation_element(representation)) == Some(representation),
{
    let r = representation;
    lemma_representation_attribute_values(r);
    lemma_representation_children_decoded(r);
    if r.width is Some {
        lemma_decimal_round_trip(r.width->Some_0 as nat);
    }
    if r.height is Some {
        lemma_decimal_round_trip(r.height->Some_0 as nat);
    }
    if r.frame_rate is Some {
        lemma_decimal_round_trip(r.frame_rate->Some_0 as nat);
    }
    if r.start_with_sap is Some {
        lemma_decimal_round_trip(r.start_with_sap->Some_0 as nat);
    }
    lemma_decimal_round_trip(r.bandwidth as nat);
}

/// What each attribute name finds among the attributes of an adaptation set.
pub proof fn lemma_adaptation_set_attribute_values(set: AdaptationSetView)
    ensures
        ({
            let attributes = adaptation_set_attributes(set);
            &&& attribute_value(attributes, "segmentAlignment"@) == Some(
                bool_text(set.segment_alignment),
            )
            &&& attribute_value(attributes, "maxWidth"@) == optional_u32_text(set.max_width)
            &&& attribute_value(attributes, "maxHeight"@) == optional_u32_text(set.max_height)
            &&& attribute_value(attributes, "maxFrameRate"@) == optional_u32_text(
                set.max_frame_rate,
            )
            &&& attribute_value(attributes, "par"@) == set.pixel_aspect_ratio
            &&& attribute_value(attributes, "lang"@) == Some(set.language)
            &&& attribute_value(attributes, "subsegmentAlignment"@) == optional_bool_text(
                set.subsegment_alignment,
            )
            &&& attribute_value(attributes, "subsegmentStartsWithSAP"@)
                == set.subsegment_starts_with_sap
            &&& attribute_value(attributes, "mimeType"@) == set.mime_type
            &&& attribute_value(attributes, "contentType"@) == set.content_type
        }),
{
    lemma_adaptation_set_names();
    let a0 = Seq::<AttributeView>::empty();
    let a1 = with_attribute(a0, "segmentAlignment"@, bool_text(set.segment_alignment));
    let a2 = with_optional_attribute(a1, "maxWidth"@, optional_u32_text(set.max_width));
    let a3 = with_optional_attribute(a2, "maxHeight"@, optional_u32_text(set.max_height));
    let a4 = with_optional_attribute(a3, "maxFrameRate"@, optional_u32_text(set.max_frame_rate));
    let a5 = with_optional_attribute(a4, "par"@, set.pixel_aspect_ratio);
    let a6 = with_attribute(a5, "lang"@, set.language);
    let a7 = with_optional_attribute(
        a6,
        "subsegmentAlignment"@,
        optional_bool_text(set.subsegment_alignment),
    );
    let a8 = with_optional_attribute(
        a7,
        "subsegmentStartsWithSAP"@,
        set.subsegment_starts_with_sap,
    );
    let a9 = with_optional_attribute(a8, "mimeType"@, set.mime_type);
    lemma_value_with_attribute(a0, "segmentAlignment"@, bool_text(set.segment_alignment));
    lemma_value_with_optional_attribute(a1, "maxWidth"@, optional_u32_text(set.max_width));
    lemma_value_with_optional_attribute(a2, "maxHeight"@, optional_u32_text(set.max_height));
    lemma_value_with_optional_attribute(
        a3,
        "maxFrameRate"@,
        optional_u32_text(set.max_frame_rate),
    );
    lemma_value_with_optional_attribute(a4, "par"@, set.pixel_aspect_ratio);
    lemma_value_with_attribute(a5, "lang"@, set.language);
    lemma_value_with_optional_attribute(
        a6,
        "subsegmentAlignment"@,
        optional_bool_text(set.subsegment_alignment),
    );
    lemma_value_with_optional_attribute(
        a7,
        "subsegmentStartsWithSAP"@,
        set.subsegment_starts_with_sap,
    );
    lemma_value_with_optional_attribute(a8, "mimeType"@, set.mime_type);
    lemma_value_with_optional_attribute(a9, "contentType"@, set.content_type);
}

/// What the children of an adaptation set decode to.
pub proof fn lemma_adaptation_set_children_decoded(set: AdaptationSetView)
    ensures
        decoded_children(
            adaptation_set_children(set),
            "Representation"@,
            representation_decoder(),
        ) == Some(set.representation),
        role_among(adaptation_set_children(set)) == set.role,
{
    lemma_adaptation_set_child_names();
    let head = with_optional_child(Seq::empty(), optional_role_element(set.role));
    let encoded = set.representation.map_values(representation_encoder());
    assert(adaptation_set_children(set) == head + encoded);
    assert forall|item: RepresentationView|
        (representation_decoder())(#[trigger] (representation_encoder())(item)) == Some(
            item,
        ) by {
        lemma_representation_round_trip(item);
    }
    lemma_decoded_children_encoded(
        set.representation,
        "Representation"@,
        representation_encoder(),
        representation_decoder(),
    );
    lemma_children_named_push(Seq::empty(), role_element(set.role->Some_0));
    lemma_decoded_children_none(head, "Representation"@, representation_decoder());
    lemma_decoded_children_concat(head, encoded, "Representation"@, representation_decoder());
    assert(Seq::<RepresentationView>::empty() + set.representation =~= set.representation);
    lemma_children_named_none(encoded, "Role"@);
    lemma_children_named_concat(head, encoded, "Role"@);
    if set.role is Some {
        lemma_role_round_trip(set.role->Some_0);
        assert(children_named(head + encoded, "Role"@) =~= seq![role_element(set.role->Some_0)]);
    } else {
        assert(children_named(head + encoded, "Role"@) =~= Seq::<ElementView>::empty());
    }
}

/// The element of an adaptation set stands for that adaptation set.
pub proof fn lemma_adaptation_set_round_trip(set: AdaptationSetView)
    ensures
        adaptation_set_of(adaptation_set_element(set)) == Some(set),
{
    lemma_adaptation_set_attribute_values(set);
    lemma_adaptation_set_children_decoded(set);
    lemma_bool_round_trip(set.segment_alignment);
    if set.subsegment_alignment is Some {
        lemma_bool_round_trip(set.subsegment_alignment->Some_0);
    }
    if set.max_width is Some {
        lemma_decimal_round_trip(set.max_width->Some_0 as nat);
    }
    if set.max_height is Some {
        lemma_decimal_round_trip(set.max_height->Some_0 as nat);
    }
    if set.max_frame_rate is Some {
        lemma_decimal_round_trip(set.max_frame_rate->Some_0 as nat);
    }
}

/// The element of a period stands for that period.
pub proof fn lemma_period_round_trip(period: PeriodView)
    ensures
        period_of(period_element(period)) == Some(period),
{
    let a0 = Seq::<AttributeView>::empty();
    lemma_value_with_attribute(a0, "duration"@, period.duration);
    assert forall|item: AdaptationSetView|
        (adaptation_set_decoder())(#[trigger] (adaptation_set_encoder())(item)) == Some(
            item,
        ) by {
        lemma_adaptation_set_round_trip(item);
    }
    lemma_decoded_children_encoded(
        period.adaptation_set,
        "AdaptationSet"@,
        adaptation_set_encoder(),
        adaptation_set_decoder(),
    );
}

/// The element of a program information stands for that program information.
pub proof fn lemma_program_information_round_trip(information: ProgramInformationView)
    ensures
        program_information_of(program_information_element(information)) == information,
{
    let a0 = Seq::<AttributeView>::empty();
    lemma_value_with_attribute(a0, "moreInformationURL"@, information.more_information_url);
    lemma_children_named_single(text_element("Title"@, information.title));
}

/// Reading back what was written: the root element of a manifest stands for
/// that manifest, whatever the manifest holds.
pub proof fn lemma_manifest_round_trip(manifest: ManifestView)
    ensures
        manifest_of(manifest_element(manifest)) == Some(manifest),
{
    lemma_manifest_names();
    lemma_manifest_child_names();
    let a0 = Seq::<AttributeView>::empty();
    let a1 = with_optional_attribute(a0, "minBufferTime"@, manifest.min_buffer_time);
    let a2 = with_attribute(
        a1,
        "mediaPresentationDuration"@,
        manifest.media_presentation_duration,
    );
    let a3 = with_attribute(a2, "maxSegmentDuration"@, manifest.max_segment_duration);
    let a4 = with_attribute(a3, "profiles"@, manifest.profiles);
    lemma_value_with_optional_attribute(a0, "minBufferTime"@, manifest.min_buffer_time);
    lemma_value_with_attribute(
        a1,
        "mediaPresentationDuration"@,
        manifest.media_presentation_duration,
    );
    lemma_value_with_attribute(a2, "maxSegmentDuration"@, manifest.max_segment_duration);
    lemma_value_with_attribute(a3, "profiles"@, manifest.profiles);
    lemma_value_with_attribute(a4, "type"@, manifest.kind);

    let head = with_optional_child(
        Seq::empty(),
        optional_program_information_element(manifest.program_information),
    );
    let period = period_element(manifest.period);
    lemma_children_named_push(
        Seq::empty(),
        program_information_element(manifest.program_information->Some_0),
    );
    lemma_children_named_push(head, period);
    lemma_period_round_trip(manifest.period);
    if manifest.program_information is Some {
        lemma_program_information_round_trip(manifest.program_information->Some_0);
    }
}

/// Decoding a manifest looks at names, attributes, character data and
/// children, and at the namespace of the root alone: two roots of the same
/// namespace that are alike decode to the same.
pub proof fn lemma_manifest_of_alike(a: ElementView, b: ElementView)
    requires
        alike(a, b),
        a.namespace == b.namespace,
    ensures
        manifest_of(a) == manifest_of(b),
{
    lemma_child_named_alike(a.children, b.children, "Period"@);
    lemma_child_named_alike(a.children, b.children, "ProgramInformation"@);
    if child_named(a.children, "Period"@) is Some {
        lemma_period_of_alike(
            child_named(a.children, "Period"@)->Some_0,
            child_named(b.children, "Period"@)->Some_0,
        );
    }
    if child_named(a.children, "ProgramInformation"@) is Some {
        lemma_child_named_alike(
            child_named(a.children, "ProgramInformation"@)->Some_0.children,
            child_named(b.children, "ProgramInformation"@)->Some_0.children,
            "Title"@,
        );
    }
}

/// Two periods that are alike decode to the same.
pub proof fn lemma_period_of_alike(a: ElementView, b: ElementView)
    requires
        alike(a, b),
    ensures
        period_of(a) == period_of(b),
{
    assert forall|x: ElementView, y: ElementView| alike(x, y) implies #[trigger]
        (adaptation_set_decoder())(x) == #[trigger] (adaptation_set_decoder())(y) by {
        lemma_adaptation_set_of_alike(x, y);
    }
    lemma_decoded_children_alike(a.children, b.children, "AdaptationSet"@, adaptation_set_decoder());
}

/// Two adaptation sets that are alike decode to the same.
pub proof fn lemma_adaptation_set_of_alike(a: ElementView, b: ElementView)
    requires
        alike(a, b),
    ensures
        adaptation_set_of(a) == adaptation_set_of(b),
{
    assert forall|x: ElementView, y: ElementView| alike(x, y) implies #[trigger]
        (representation_decoder())(x) == #[trigger] (representation_decoder())(y) by {
        lemma_representation_of_alike(x, y);
    }
    lemma_decoded_children_alike(
        a.children,
        b.children,
        "Representation"@,
        representation_decoder(),
    );
    lemma_child_named_alike(a.children, b.children, "Role"@);
}

/// Two representations that are alike decode to the same.
pub proof fn lemma_representation_of_alike(a: ElementView, b: ElementView)
    requires
        alike(a, b),
    ensures
        representation_of(a) == representation_of(b),
{
    lemma_mapped_children_alike(
        a.children,
        b.children,
        "AudioChannelConfiguration"@,
        configuration_decoder(),
    );
    lemma_child_named_alike(a.children, b.children, "BaseURL"@);
    lemma_child_named_alike(a.children, b.children, "SegmentBase"@);
    if child_named(a.children, "SegmentBase"@) is Some {
        lemma_child_named_alike(
            child_named(a.children, "SegmentBase"@)->Some_0.children,
            child_named(b.children, "SegmentBase"@)->Some_0.children,
            "Initialization"@,
        );
    }
}

/// Reading back what was written, where the reader gives every element the
/// namespace that its place in the document implies: an element that is like
/// the root element of a manifest, and of its namespace, stands for that
/// manifest.
pub proof fn lemma_manifest_read_back(manifest: ManifestView, back: ElementView)
    requires
        alike(back, manifest_element(manifest)),
        back.namespace == Some(dash_namespace()),
    ensures
        manifest_of(back) == Some(manifest),
{
    lemma_manifest_of_alike(back, manifest_element(manifest));
    lemma_manifest_round_trip(manifest);
}

/// No adaptation set that is left after a removal is the track that was
/// removed.
pub proof fn lemma_without_track_has_none(
    sets: Seq<AdaptationSetView>,
    language: Seq<char>,
    role: Seq<char>,
)
    ensures
        track_count(without_track(sets, language, role), language, role) == 0,
        forall|i: int|
            0 <= i < without_track(sets, language, role).len() ==> !is_track(
                #[trigger] without_track(sets, language, role)[i],
                language,
                role,
            ),
    decreases sets.len(),
{
    if sets.len() > 0 {
        lemma_without_track_has_none(sets.drop_last(), language, role);
        let kept = without_track(sets.drop_last(), language, role);
        if !is_track(sets.last(), language, role) {
            assert(kept.push(sets.last()).drop_last() =~= kept);
        }
    }
}

/// A removal changes nothing where no adaptation set is the track.
pub proof fn lemma_without_track_no_match(
    sets: Seq<AdaptationSetView>,
    language: Seq<char>,
    role: Seq<char>,
)
    requires
        track_count(sets, language, role) == 0,
    ensures
        without_track(sets, language, role) == sets,
    decreases sets.len(),
{
    if sets.len() > 0 {
        lemma_without_track_no_match(sets.drop_last(), language, role);
        assert(sets.drop_last().push(sets.last()) =~= sets);
    } else {
        assert(sets =~= Seq::<AdaptationSetView>::empty());
    }
}

/// A removal keeps exactly the adaptation sets that are not the track, as
/// they were and in their order.
pub proof fn lemma_without_track_is_filter(
    sets: Seq<AdaptationSetView>,
    language: Seq<char>,
    role: Seq<char>,
)
    ensures
        without_track(sets, language, role) == sets.filter(
            |set: AdaptationSetView| !is_track(set, language, role),
        ),
    decreases sets.len(),
{
    reveal(Seq::filter);
    if sets.len() > 0 {
        lemma_without_track_is_filter(sets.drop_last(), language, role);
    }
}

/// Putting a prefix before the locations of an adaptation set changes
/// neither its language nor its role, so a removal after the prefix removes
/// the sets that a removal before it would.
pub proof fn lemma_prefix_keeps_tracks(
    sets: Seq<AdaptationSetView>,
    base: Seq<char>,
    language: Seq<char>,
    role: Seq<char>,
)
    ensures
        without_track(prefixed_sets(sets, base), language, role) == prefixed_sets(
            without_track(sets, language, role),
            base,
        ),
    decreases sets.len(),
{
    let prefixed = prefixed_sets(sets, base);
    if sets.len() == 0 {
        assert(without_track(prefixed, language, role) =~= prefixed_sets(
            without_track(sets, language, role),
            base,
        ));
    } else {
        lemma_prefix_keeps_tracks(sets.drop_last(), base, language, role);
        assert(prefixed.drop_last() =~= prefixed_sets(sets.drop_last(), base));
        assert(prefixed.last() == prefixed_set(sets.last(), base));
        assert(is_track(prefixed.last(), language, role) == is_track(
            sets.last(),
            language,
            role,
        ));
        assert(without_track(prefixed, language, role) =~= prefixed_sets(
            without_track(sets, language, role),
            base,
        ));
    }
}

/// Replacing a track: after the whole operation with `replace` set, exactly
/// one adaptation set is the track of the given language and role, and it is
/// the new one, which stands last. Before it stand the sets that were not
/// that track, in their order; they are as they were but for the prefix
/// before their locations, where one is given.
pub proof fn lemma_replace_leaves_one_track(
    sets: Seq<AdaptationSetView>,
    reference_path: Seq<char>,
    language: Seq<char>,
    role: Seq<char>,
    file_size: u64,
    reference_url: Option<Seq<char>>,
)
    ensures
        ({
            let after = sets_with_subtitle(
                sets,
                reference_path,
                language,
                role,
                file_size,
                true,
                reference_url,
            );
            let others = sets.filter(|set: AdaptationSetView| !is_track(set, language, role));
            &&& track_count(after, language, role) == 1
            &&& after.last() == ttml_subtitle(reference_path, language, role, file_size)
            &&& is_track(after.last(), language, role)
            &&& after.drop_last() == match reference_url {
                Some(base) => prefixed_sets(others, base),
                None => others,
            }
        }),
{
    let added = ttml_subtitle(reference_path, language, role, file_size);
    let prefixed = match reference_url {
        Some(base) => prefixed_sets(sets, base),
        None => sets,
    };
    let kept = without_track(prefixed, language, role);
    lemma_without_track_has_none(prefixed, language, role);
    lemma_without_track_is_filter(sets, language, role);
    if reference_url is Some {
        lemma_prefix_keeps_tracks(sets, reference_url->Some_0, language, role);
    }
    assert(kept.push(added).drop_last() =~= kept);
}

/// Inserting a track: after the whole operation, whether `replace` is set or
/// not, the new track stands last and its location is the reference as
/// given, without the prefix.
pub proof fn lemma_new_track_is_last(
    sets: Seq<AdaptationSetView>,
    reference_path: Seq<char>,
    language: Seq<char>,
    role: Seq<char>,
    file_size: u64,
    replace: bool,
    reference_url: Option<Seq<char>>,
)
    ensures
        ({
            let after = sets_with_subtitle(
                sets,
                reference_path,
                language,
                role,
                file_size,
                replace,
                reference_url,
            );
            &&& after.len() >= 1
            &&& after.last() == ttml_subtitle(reference_path, language, role, file_size)
            &&& after.last().representation.len() == 1
            &&& after.last().representation[0].base_url == reference_path
            &&& after.last().representation[0].bandwidth == file_size
            &&& !replace ==> after.len() == sets.len() + 1
        }),
{
}

/// What a prefix does to each location: the location of every
/// representation is the prefix followed by what it was, so is the source of
/// every initialization that has one, and one that has none still has none.
/// Nothing else in the representation changes.
pub proof fn lemma_prefixed_locations(
    sets: Seq<AdaptationSetView>,
    base: Seq<char>,
    set: int,
    representation: int,
)
    requires
        0 <= set < sets.len(),
        0 <= representation < sets[set].representation.len(),
    ensures
        ({
            let before = sets[set].representation[representation];
            let after = prefixed_sets(sets, base)[set].representation[representation];
            &&& prefixed_sets(sets, base).len() == sets.len()
            &&& prefixed_sets(sets, base)[set].representation.len()
                == sets[set].representation.len()
            &&& after.base_url == base + before.base_url
            &&& after.segment_base is Some <==> before.segment_base is Some
            &&& before.segment_base is Some ==> {
                let old_source = before.segment_base->Some_0.initialization.source_url;
                let new_source = after.segment_base->Some_0.initialization.source_url;
                &&& new_source is Some <==> old_source is Some
                &&& old_source is Some ==> new_source->Some_0 == base + old_source->Some_0
                &&& after.segment_base->Some_0.initialization.range
                    == before.segment_base->Some_0.initialization.range
                &&& after.segment_base->Some_0.index_range
                    == before.segment_base->Some_0.index_range
            }
            &&& after.id == before.id
            &&& after.bandwidth == before.bandwidth
        }),
{
}

/// The whole operation, read back. Let an element be like the root element
/// of the changed manifest, and of its namespace: that is what a reader
/// gives for the written text where it reads back what the writer wrote.
/// Then the element stands for the changed manifest, and of that manifest
/// holds:
/// - every attribute, the program information and the period's duration are
///   those of the manifest before;
/// - the new track stands last, with the reference as its location and the
///   size as its bandwidth;
/// - without `replace`, the sets before it are all the old sets, in their
///   order, so that there is one more set than before;
/// - with `replace`, exactly one set is the track of the given language and
///   role, the last, and the sets before it are the old sets that are not
///   that track, in their order;
/// - the sets before the last are as they were where no prefix is given, and
///   carry the prefix before each location where one is.
pub proof fn lemma_operation_read_back(
    manifest: ManifestView,
    reference_path: Seq<char>,
    language: Seq<char>,
    role: Seq<char>,
    file_size: u64,
    replace: bool,
    reference_url: Option<Seq<char>>,
    back: ElementView,
)
    requires
        alike(
            back,
            manifest_element(
                subtitle_inserted(
                    manifest,
                    reference_path,
                    language,
                    role,
                    file_size,
                    replace,
                    reference_url,
                ),
            ),
        ),
        back.namespace == Some(dash_namespace()),
    ensures
        ({
            let after = subtitle_inserted(
                manifest,
                reference_path,
                language,
                role,
                file_size,
                replace,
                reference_url,
            );
            let old_sets = manifest.period.adaptation_set;
            let new_sets = after.period.adaptation_set;
            let others = old_sets.filter(|set: AdaptationSetView| !is_track(set, language, role));
            let kept = if replace {
                others
            } else {
                old_sets
            };
            &&& manifest_of(back) == Some(after)
            &&& after.min_buffer_time == manifest.min_buffer_time
            &&& after.media_presentation_duration == manifest.media_presentation_duration
            &&& after.max_segment_duration == manifest.max_segment_duration
            &&& after.profiles == manifest.profiles
            &&& after.kind == manifest.kind
            &&& after.program_information == manifest.program_information
            &&& after.period.duration == manifest.period.duration
            &&& new_sets.len() >= 1
            &&& new_sets.last() == ttml_subtitle(reference_path, language, role, file_size)
            &&& new_sets.last().representation[0].base_url == reference_path
            &&& new_sets.last().representation[0].bandwidth == file_size
            &&& new_sets.drop_last() == match reference_url {
                Some(base) => prefixed_sets(kept, base),
                None => kept,
            }
            &&& !replace ==> new_sets.len() == old_sets.len() + 1
            &&& replace ==> track_count(new_sets, language, role) == 1
            &&& replace ==> forall|i: int|
                0 <= i < new_sets.len() - 1 ==> !is_track(#[trigger] new_sets[i], language, role)
        }),
{
    let after = subtitle_inserted(
        manifest,
        reference_path,
        language,
        role,
        file_size,
        replace,
        reference_url,
    );
    lemma_manifest_read_back(after, back);
    let old_sets = manifest.period.adaptation_set;
    let new_sets = after.period.adaptation_set;
    let added = ttml_subtitle(reference_path, language, role, file_size);
    let prefixed = match reference_url {
        Some(base) => prefixed_sets(old_sets, base),
        None => old_sets,
    };
    if replace {
        lemma_replace_leaves_one_track(
            old_sets,
            reference_path,
            language,
            role,
            file_size,
            reference_url,
        );
        lemma_without_track_has_none(prefixed, language, role);
        let kept = without_track(prefixed, language, role);
        assert(new_sets == kept.push(added));
        assert forall|i: int| 0 <= i < new_sets.len() - 1 implies !is_track(
            #[trigger] new_sets[i],
            language,
            role,
        ) by {
            assert(new_sets[i] == kept[i]);
        }
    } else {
        assert(new_sets == prefixed.push(added));
        assert(prefixed.push(added).drop_last() =~= prefixed);
    }
}

} // verus!
