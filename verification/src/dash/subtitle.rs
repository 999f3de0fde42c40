//! The operations that put a subtitle track into a manifest: prefixing the
//! locations of what is already there, removing a track, building the new
//! track and appending it.

use vstd::prelude::*;
use vstd::string::StringExecFns;
use crate::dash::manifest::{
    adaptation_set_views, clone_opt_role, representation_views, AdaptationSet, AdaptationSetView,
    Manifest, ManifestView, PeriodView,
};
use crate::dash::representation::{
    clone_configurations, configuration_views, AudioChannelConfigurationView, Initialization,
    InitializationView, Representation, RepresentationView, Role, RoleView, SegmentBase,
    SegmentBaseView,
};
use crate::text::text_is;
use crate::xml::parse::clone_opt_text;

verus! {

/// The subtitle track for the asset at `reference_path`: one representation
/// `s1` whose bandwidth is the asset's size in bytes.
pub open spec fn ttml_subtitle(
    reference_path: Seq<char>,
    language: Seq<char>,
    role: Seq<char>,
    file_size: u64,
) -> AdaptationSetView {
    AdaptationSetView {
        segment_alignment: true,
        max_width: None,
        max_height: None,
        max_frame_rate: None,
        pixel_aspect_ratio: None,
        language,
        subsegment_alignment: None,
        subsegment_starts_with_sap: None,
        mime_type: Some("application/ttml+xml"@),
        content_type: Some("text"@),
        role: Some(
            RoleView { scheme_id_uri: "urn:mpeg:dash:role:2011"@, content: Some(role), id: None },
        ),
        representation: seq![
            RepresentationView {
                id: "s1"@,
                mime_type: None,
                codecs: None,
                width: None,
                height: None,
                frame_rate: None,
                sample_aspect_ratio: None,
                start_with_sap: None,
                bandwidth: file_size,
                audio_channel_configuration: Seq::empty(),
                base_url: reference_path,
                segment_base: None,
            },
        ],
    }
}

/// Whether an adaptation set is the track of the given language and role.
pub open spec fn is_track(set: AdaptationSetView, language: Seq<char>, role: Seq<char>) -> bool {
    set.language == language && set.role is Some && set.role->Some_0.content == Some(role)
}

/// The adaptation sets of a list that are not the track of the given language
/// and role, in their order.
pub open spec fn without_track(
    sets: Seq<AdaptationSetView>,
    language: Seq<char>,
    role: Seq<char>,
) -> Seq<AdaptationSetView>
    decreases sets.len(),
{
    if sets.len() == 0 {
        Seq::empty()
    } else if is_track(sets.last(), language, role) {
        without_track(sets.drop_last(), language, role)
    } else {
        without_track(sets.drop_last(), language, role).push(sets.last())
    }
}

/// How many adaptation sets of a list are the track of the given language and
/// role.
pub open spec fn track_count(
    sets: Seq<AdaptationSetView>,
    language: Seq<char>,
    role: Seq<char>,
) -> nat
    decreases sets.len(),
{
    if sets.len() == 0 {
        0
    } else if is_track(sets.last(), language, role) {
        track_count(sets.drop_last(), language, role) + 1
    } else {
        track_count(sets.drop_last(), language, role)
    }
}

/// A location with `base` put before it.
pub open spec fn prefixed_text(value: Option<Seq<char>>, base: Seq<char>) -> Option<Seq<char>> {
    match value {
        Some(text) => Some(base + text),
        None => None,
    }
}

/// A representation with `base` put before its locations.
pub open spec fn prefixed_representation(
    representation: RepresentationView,
    base: Seq<char>,
) -> RepresentationView {
    RepresentationView {
        base_url: base + representation.base_url,
        segment_base: match representation.segment_base {
            Some(segment_base) => Some(
                SegmentBaseView {
                    initialization: InitializationView {
                        source_url: prefixed_text(segment_base.initialization.source_url, base),
                        ..segment_base.initialization
                    },
                    ..segment_base
                },
            ),
            None => None,
        },
        ..representation
    }
}

/// An adaptation set with `base` put before the locations of each of its
/// representations.
pub open spec fn prefixed_set(set: AdaptationSetView, base: Seq<char>) -> AdaptationSetView {
    AdaptationSetView {
        representation: set.representation.map_values(
            |r: RepresentationView| prefixed_representation(r, base),
        ),
        ..set
    }
}

/// Adaptation sets with `base` put before every location in them.
pub open spec fn prefixed_sets(sets: Seq<AdaptationSetView>, base: Seq<char>) -> Seq<
    AdaptationSetView,
> {
    sets.map_values(|set: AdaptationSetView| prefixed_set(set, base))
}

/// A manifest with other adaptation sets in its period, and all else as it
/// was.
pub open spec fn with_adaptation_sets(
    manifest: ManifestView,
    sets: Seq<AdaptationSetView>,
) -> ManifestView {
    ManifestView { period: PeriodView { adaptation_set: sets, ..manifest.period }, ..manifest }
}

/// `base` followed by `value`.
pub fn prefix_text(value: &String, base: &str) -> (joined: String)
    ensures
        joined@ == base@ + value@,
{
    let mut joined = base.to_owned();
    joined.append(value.as_str());
    joined
}

impl Representation {
    /// A copy of this representation with `base` put before its locations.
    pub fn prefixed(&self, base: &str) -> (copy: Representation)
        ensures
            copy@ == prefixed_representation(self@, base@),
    {
        let segment_base = match &self.segment_base {
            Some(segment_base) => Some(
                SegmentBase {
                    index_range_exact: segment_base.index_range_exact,
                    index_range: clone_opt_text(&segment_base.index_range),
                    presentation_time_offset: segment_base.presentation_time_offset,
                    initialization: Initialization {
                        source_url: match &segment_base.initialization.source_url {
                            Some(url) => Some(prefix_text(url, base)),
                            None => None,
                        },
                        range: clone_opt_text(&segment_base.initialization.range),
                    },
                },
            ),
            None => None,
        };
        Representation {
            id: self.id.clone(),
            mime_type: clone_opt_text(&self.mime_type),
            codecs: clone_opt_text(&self.codecs),
            width: self.width,
            height: self.height,
            frame_rate: self.frame_rate,
            sample_aspect_ratio: clone_opt_text(&self.sample_aspect_ratio),
            start_with_sap: self.start_with_sap,
            bandwidth: self.bandwidth,
            audio_channel_configuration: clone_configurations(&self.audio_channel_configuration),
            base_url: prefix_text(&self.base_url, base),
            segment_base,
        }
    }
}

impl AdaptationSet {
    /// Builds the subtitle track for a TTML asset: `file_path` is the
    /// reference written into the manifest, `file_size` the asset's size in
    /// bytes.
    pub fn new_ttml_subtitle(file_path: &str, language: &str, role: &str, file_size: u64) -> (set:
        Self)
        ensures
            set@ == ttml_subtitle(file_path@, language@, role@, file_size),
    {
        let representation = Representation {
            id: "s1".to_owned(),
            mime_type: None,
            codecs: None,
            width: None,
            height: None,
            frame_rate: None,
            sample_aspect_ratio: None,
            start_with_sap: None,
            bandwidth: file_size,
            audio_channel_configuration: Vec::new(),
            base_url: file_path.to_owned(),
            segment_base: None,
        };
        assert(configuration_views(representation.audio_channel_configuration@)
            =~= Seq::<AudioChannelConfigurationView>::empty());
        let mut representations: Vec<Representation> = Vec::new();
        representations.push(representation);
        assert(representation_views(representations@) =~= seq![representation@]);
        AdaptationSet {
            segment_alignment: true,
            max_width: None,
            max_height: None,
            max_frame_rate: None,
            pixel_aspect_ratio: None,
            language: language.to_owned(),
            subsegment_alignment: None,
            subsegment_starts_with_sap: None,
            mime_type: Some("application/ttml+xml".to_owned()),
            content_type: Some("text".to_owned()),
            role: Some(
                Role {
                    scheme_id_uri: "urn:mpeg:dash:role:2011".to_owned(),
                    content: Some(role.to_owned()),
                    id: None,
                },
            ),
            representation: representations,
        }
    }

    /// Whether this is the track of the given language and role.
    pub fn is_track(&self, language: &str, role: &str) -> (found: bool)
        ensures
            found == is_track(self@, language@, role@),
    {
        if !text_is(self.language.as_str(), language) {
            return false;
        }
        match &self.role {
            Some(own) => match &own.content {
                Some(value) => text_is(value.as_str(), role),
                None => false,
            },
            None => false,
        }
    }

    /// A copy of this adaptation set with `base` put before the locations of
    /// each of its representations.
    pub fn prefixed(&self, base: &str) -> (copy: AdaptationSet)
        ensures
            copy@ == prefixed_set(self@, base@),
    {
        let mut representations: Vec<Representation> = Vec::new();
        let mut i: usize = 0;
        let ghost target = prefixed_set(self@, base@).representation;
        while i < self.representation.len()
            invariant
                i <= self.representation.len(),
                target == prefixed_set(self@, base@).representation,
                representation_views(representations@) == target.take(i as int),
            decreases self.representation.len() - i,
        {
            let ghost before = representation_views(representations@);
            let item = self.representation[i].prefixed(base);
            representations.push(item);
            assert(representation_views(representations@) =~= before.push(item@));
            i += 1;
            assert(target.take(i as int) =~= before.push(target[i - 1]));
        }
        assert(target.take(i as int) =~= target);
        AdaptationSet {
            segment_alignment: self.segment_alignment,
            max_width: self.max_width,
            max_height: self.max_height,
            max_frame_rate: self.max_frame_rate,
            pixel_aspect_ratio: clone_opt_text(&self.pixel_aspect_ratio),
            language: self.language.clone(),
            subsegment_alignment: self.subsegment_alignment,
            subsegment_starts_with_sap: clone_opt_text(&self.subsegment_starts_with_sap),
            mime_type: clone_opt_text(&self.mime_type),
            content_type: clone_opt_text(&self.content_type),
            role: clone_opt_role(&self.role),
            representation: representations,
        }
    }
}

impl Manifest {
    /// Appends an adaptation set at the end of the period: there is one
    /// more, the new one is last, and nothing else changes.
    pub fn add_adaptation_set(&mut self, adaptation_set: AdaptationSet)
        ensures
            final(self)@ == with_adaptation_sets(
                old(self)@,
                old(self)@.period.adaptation_set.push(adaptation_set@),
            ),
            final(self)@.period.adaptation_set.len() == old(self)@.period.adaptation_set.len()
                + 1,
            final(self)@.period.adaptation_set.last() == adaptation_set@,
            final(self)@.period.adaptation_set.drop_last() == old(self)@.period.adaptation_set,
    {
        let ghost before = adaptation_set_views(self.period.adaptation_set@);
        self.period.adaptation_set.push(adaptation_set);
        assert(adaptation_set_views(self.period.adaptation_set@) =~= before.push(
            adaptation_set@,
        ));
        assert(before.push(adaptation_set@).drop_last() =~= before);
    }

    /// Removes every adaptation set that is the track of the given language
    /// and role. The others stay, in their order.
    pub fn remove_adaptation_set(&mut self, language: &str, role: &str)
        ensures
            final(self)@ == with_adaptation_sets(
                old(self)@,
                without_track(old(self)@.period.adaptation_set, language@, role@),
            ),
    {
        let mut kept: Vec<AdaptationSet> = Vec::new();
        let mut i: usize = 0;
        let ghost sets = adaptation_set_views(self.period.adaptation_set@);
        assert(sets.take(0) =~= Seq::<AdaptationSetView>::empty());
        assert(adaptation_set_views(kept@) =~= Seq::<AdaptationSetView>::empty());
        while i < self.period.adaptation_set.len()
            invariant
                i <= self.period.adaptation_set.len(),
                sets == adaptation_set_views(self.period.adaptation_set@),
                *self == *old(self),
                adaptation_set_views(kept@) == without_track(
                    sets.take(i as int),
                    language@,
                    role@,
                ),
            decreases self.period.adaptation_set.len() - i,
        {
            let ghost before = adaptation_set_views(kept@);
            let ghost upto = sets.take(i as int + 1);
            assert(upto.drop_last() =~= sets.take(i as int));
            assert(upto.last() == self.period.adaptation_set@[i as int]@);
            if !self.period.adaptation_set[i].is_track(language, role) {
                let item = self.period.adaptation_set[i].clone();
                kept.push(item);
                assert(adaptation_set_views(kept@) =~= before.push(item@));
            }
            i += 1;
        }
        assert(sets.take(i as int) =~= sets);
        self.period.adaptation_set = kept;
    }

    /// Puts `base` before the location of every representation and of every
    /// initialization segment that the manifest holds.
    pub fn prefix_urls(&mut self, base: &str)
        ensures
            final(self)@ == with_adaptation_sets(
                old(self)@,
                prefixed_sets(old(self)@.period.adaptation_set, base@),
            ),
    {
        let mut changed: Vec<AdaptationSet> = Vec::new();
        let mut i: usize = 0;
        let ghost target = prefixed_sets(self@.period.adaptation_set, base@);
        while i < self.period.adaptation_set.len()
            invariant
                i <= self.period.adaptation_set.len(),
                *self == *old(self),
                target == prefixed_sets(self@.period.adaptation_set, base@),
                adaptation_set_views(changed@) == target.take(i as int),
            decreases self.period.adaptation_set.len() - i,
        {
            let ghost before = adaptation_set_views(changed@);
            let item = self.period.adaptation_set[i].prefixed(base);
            changed.push(item);
            assert(adaptation_set_views(changed@) =~= before.push(item@));
            i += 1;
            assert(target.take(i as int) =~= before.push(target[i - 1]));
        }
        assert(target.take(i as int) =~= target);
        self.period.adaptation_set = changed;
    }
}

} // verus!
