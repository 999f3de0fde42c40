//! The typed model of a media presentation description: the manifest, its
//! period and the adaptation sets in it.

use vstd::prelude::*;
use crate::dash::representation::{Representation, RepresentationView, Role, RoleView};
use crate::xml::parse::clone_opt_text;
use crate::xml::tree::opt_text;

verus! {

/// The model of a role that may be absent.
pub open spec fn opt_role(value: Option<Role>) -> Option<RoleView> {
    match value {
        Some(role) => Some(role@),
        None => None,
    }
}

/// The models of a list of representations, in order.
pub open spec fn representation_views(items: Seq<Representation>) -> Seq<RepresentationView> {
    items.map_values(|item: Representation| item@)
}

/// A group of alternative representations of one media component.
#[derive(Debug, PartialEq, Eq)]
pub struct AdaptationSet {
    pub segment_alignment: bool,
    pub max_width: Option<u32>,
    pub max_height: Option<u32>,
    pub max_frame_rate: Option<u32>,
    pub pixel_aspect_ratio: Option<String>,
    pub language: String,
    pub subsegment_alignment: Option<bool>,
    pub subsegment_starts_with_sap: Option<String>,
    pub mime_type: Option<String>,
    pub content_type: Option<String>,
    pub role: Option<Role>,
    pub representation: Vec<Representation>,
}

/// The model of an [`AdaptationSet`].
pub ghost struct AdaptationSetView {
    pub segment_alignment: bool,
    pub max_width: Option<u32>,
    pub max_height: Option<u32>,
    pub max_frame_rate: Option<u32>,
    pub pixel_aspect_ratio: Option<Seq<char>>,
    pub language: Seq<char>,
    pub subsegment_alignment: Option<bool>,
    pub subsegment_starts_with_sap: Option<Seq<char>>,
    pub mime_type: Option<Seq<char>>,
    pub content_type: Option<Seq<char>>,
    pub role: Option<RoleView>,
    pub representation: Seq<RepresentationView>,
}

impl View for AdaptationSet {
    type V = AdaptationSetView;

    open spec fn view(&self) -> AdaptationSetView {
        AdaptationSetView {
            segment_alignment: self.segment_alignment,
            max_width: self.max_width,
            max_height: self.max_height,
            max_frame_rate: self.max_frame_rate,
            pixel_aspect_ratio: opt_text(self.pixel_aspect_ratio),
            language: self.language@,
            subsegment_alignment: self.subsegment_alignment,
            subsegment_starts_with_sap: opt_text(self.subsegment_starts_with_sap),
            mime_type: opt_text(self.mime_type),
            content_type: opt_text(self.content_type),
            role: opt_role(self.role),
            representation: representation_views(self.representation@),
        }
    }
}

/// A copy of a role that may be absent.
pub fn clone_opt_role(value: &Option<Role>) -> (copy: Option<Role>)
    ensures
        opt_role(copy) == opt_role(*value),
{
    match value {
        Some(role) => Some(role.clone()),
        None => None,
    }
}

/// A copy of a list of representations.
pub fn clone_representations(items: &Vec<Representation>) -> (copy: Vec<Representation>)
    ensures
        representation_views(copy@) == representation_views(items@),
{
    let mut copy: Vec<Representation> = Vec::new();
    let mut i: usize = 0;
    while i < items.len()
        invariant
            i <= items.len(),
            representation_views(copy@) == representation_views(items@).take(i as int),
        decreases items.len() - i,
    {
        let ghost before = representation_views(copy@);
        let item = items[i].clone();
        assert(item@ == items@[i as int]@);
        copy.push(item);
        assert(representation_views(copy@) =~= before.push(items@[i as int]@));
        i += 1;
        assert(representation_views(items@).take(i as int) =~= before.push(items@[i - 1]@));
    }
    assert(representation_views(items@).take(i as int) =~= representation_views(items@));
    copy
}

impl Clone for AdaptationSet {
    fn clone(&self) -> (copy: Self)
        ensures
            copy@ == self@,
    {
        AdaptationSet {
            segment_alignment: self.segment_alignment,
            max_width: self.max_width,
            max_height: self.max_height,
            max_frame_rate: self.max_frame_rate,
            pixel_aspect_ratio: clone_opt_text(&self.pixel_aspect_ratio),
            language: self.language.clone(),
            subsegment_alignment: self.subsegment_alignment,
            subsegment_starts_with_sap: clone_opt_text(&self.subsegment_starts_with_sap),
            mime_type: clone_opt_text(&self.mime_type),
            content_type: clone_opt_text(&self.content_type),
            role: clone_opt_role(&self.role),
            representation: clone_representations(&self.representation),
        }
    }
}

/// The models of a list of adaptation sets, in order.
pub open spec fn adaptation_set_views(items: Seq<AdaptationSet>) -> Seq<AdaptationSetView> {
    items.map_values(|item: AdaptationSet| item@)
}

/// A copy of a list of adaptation sets.
pub fn clone_adaptation_sets(items: &Vec<AdaptationSet>) -> (copy: Vec<AdaptationSet>)
    ensures
        adaptation_set_views(copy@) == adaptation_set_views(items@),
{
    let mut copy: Vec<AdaptationSet> = Vec::new();
    let mut i: usize = 0;
    while i < items.len()
        invariant
            i <= items.len(),
            adaptation_set_views(copy@) == adaptation_set_views(items@).take(i as int),
        decreases items.len() - i,
    {
        let ghost before = adaptation_set_views(copy@);
        let item = items[i].clone();
        assert(item@ == items@[i as int]@);
        copy.push(item);
        assert(adaptation_set_views(copy@) =~= before.push(items@[i as int]@));
        i += 1;
        assert(adaptation_set_views(items@).take(i as int) =~= before.push(items@[i - 1]@));
    }
    assert(adaptation_set_views(items@).take(i as int) =~= adaptation_set_views(items@));
    copy
}

/// The one period of a presentation: its adaptation sets in document order.
#[derive(Debug, PartialEq, Eq)]
pub struct Period {
    pub duration: String,
    pub adaptation_set: Vec<AdaptationSet>,
}

/// The model of a [`Period`].
pub ghost struct PeriodView {
    pub duration: Seq<char>,
    pub adaptation_set: Seq<AdaptationSetView>,
}

impl View for Period {
    type V = PeriodView;

    open spec fn view(&self) -> PeriodView {
        PeriodView {
            duration: self.duration@,
            adaptation_set: adaptation_set_views(self.adaptation_set@),
        }
    }
}

impl Clone for Period {
    fn clone(&self) -> (copy: Self)
        ensures
            copy@ == self@,
    {
        Period {
            duration: self.duration.clone(),
            adaptation_set: clone_adaptation_sets(&self.adaptation_set),
        }
    }
}

impl Default for Period {
    fn default() -> (period: Self)
        ensures
            period@ == (PeriodView { duration: Seq::empty(), adaptation_set: Seq::empty() }),
    {
        let period = Period { duration: String::new(), adaptation_set: Vec::new() };
        assert(adaptation_set_views(period.adaptation_set@) =~= Seq::<AdaptationSetView>::empty());
        period
    }
}

/// What a presentation says about itself.
#[derive(Debug, PartialEq, Eq)]
pub struct ProgramInformation {
    pub more_information_url: String,
    pub title: String,
}

/// The model of a [`ProgramInformation`].
pub ghost struct ProgramInformationView {
    pub more_information_url: Seq<char>,
    pub title: Seq<char>,
}

impl View for ProgramInformation {
    type V = ProgramInformationView;

    open spec fn view(&self) -> ProgramInformationView {
        ProgramInformationView {
            more_information_url: self.more_information_url@,
            title: self.title@,
        }
    }
}

impl Clone for ProgramInformation {
    fn clone(&self) -> (copy: Self)
        ensures
            copy@ == self@,
    {
        ProgramInformation {
            more_information_url: self.more_information_url.clone(),
            title: self.title.clone(),
        }
    }
}

impl Default for ProgramInformation {
    fn default() -> (information: Self)
        ensures
            information@ == (ProgramInformationView {
                more_information_url: Seq::empty(),
                title: Seq::empty(),
            }),
    {
        ProgramInformation { more_information_url: String::new(), title: String::new() }
    }
}

/// The model of a program information that may be absent.
pub open spec fn opt_program_information(value: Option<ProgramInformation>) -> Option<
    ProgramInformationView,
> {
    match value {
        Some(information) => Some(information@),
        None => None,
    }
}

/// A copy of a program information that may be absent.
pub fn clone_opt_program_information(value: &Option<ProgramInformation>) -> (copy: Option<
    ProgramInformation,
>)
    ensures
        opt_program_information(copy) == opt_program_information(*value),
{
    match value {
        Some(information) => Some(information.clone()),
        None => None,
    }
}

/// A media presentation description: its attributes, what it says about
/// itself, and its one period.
#[derive(Debug, PartialEq, Eq)]
pub struct Manifest {
    pub min_buffer_time: Option<String>,
    pub media_presentation_duration: String,
    pub max_segment_duration: String,
    pub profiles: String,
    pub kind: String,
    pub program_information: Option<ProgramInformation>,
    pub period: Period,
}

/// The model of a [`Manifest`].
pub ghost struct ManifestView {
    pub min_buffer_time: Option<Seq<char>>,
    pub media_presentation_duration: Seq<char>,
    pub max_segment_duration: Seq<char>,
    pub profiles: Seq<char>,
    pub kind: Seq<char>,
    pub program_information: Option<ProgramInformationView>,
    pub period: PeriodView,
}

impl View for Manifest {
    type V = ManifestView;

    open spec fn view(&self) -> ManifestView {
        ManifestView {
            min_buffer_time: opt_text(self.min_buffer_time),
            media_presentation_duration: self.media_presentation_duration@,
            max_segment_duration: self.max_segment_duration@,
            profiles: self.profiles@,
            kind: self.kind@,
            program_information: opt_program_information(self.program_information),
            period: self.period@,
        }
    }
}

impl Clone for Manifest {
    fn clone(&self) -> (copy: Self)
        ensures
            copy@ == self@,
    {
        Manifest {
            min_buffer_time: clone_opt_text(&self.min_buffer_time),
            media_presentation_duration: self.media_presentation_duration.clone(),
            max_segment_duration: self.max_segment_duration.clone(),
            profiles: self.profiles.clone(),
            kind: self.kind.clone(),
            program_information: clone_opt_program_information(&self.program_information),
            period: self.period.clone(),
        }
    }
}

} // verus!
