//! The names of the binding told apart: what each name's text is, as far as
//! it takes to see that no two names of one element are the same.

use vstd::prelude::*;

verus! {

/// The attribute names of a descriptor element differ from one another.
pub proof fn lemma_descriptor_names()
    ensures
        "schemeIdUri"@.len() == 11,
        "value"@.len() == 5,
        "id"@.len() == 2,
{
    reveal_strlit("schemeIdUri");
    reveal_strlit("value");
    reveal_strlit("id");
}

/// The attribute names of an initialization differ from one another.
pub proof fn lemma_initialization_names()
    ensures
        "sourceURL"@.len() == 9,
        "range"@.len() == 5,
{
    reveal_strlit("sourceURL");
    reveal_strlit("range");
}

/// The attribute names of a segment index differ from one another.
pub proof fn lemma_segment_base_names()
    ensures
        "indexRangeExact"@.len() == 15,
        "indexRange"@.len() == 10,
        "presentationTimeOffset"@.len() == 22,
{
    reveal_strlit("indexRangeExact");
    reveal_strlit("indexRange");
    reveal_strlit("presentationTimeOffset");
}

/// The attribute names of a representation differ from one another.
pub proof fn lemma_representation_names()
    ensures
        "id"@.len() == 2,
        "mimeType"@.len() == 8,
        "codecs"@.len() == 6,
        "codecs"@[0] == 'c',
        "width"@.len() == 5,
        "height"@.len() == 6,
        "height"@[0] == 'h',
        "frameRate"@.len() == 9,
        "frameRate"@[0] == 'f',
        "sar"@.len() == 3,
        "startWithSAP"@.len() == 12,
        "bandwidth"@.len() == 9,
        "bandwidth"@[0] == 'b',
{
    reveal_strlit("id");
    reveal_strlit("mimeType");
    reveal_strlit("codecs");
    reveal_strlit("width");
    reveal_strlit("height");
    reveal_strlit("frameRate");
    reveal_strlit("sar");
    reveal_strlit("startWithSAP");
    reveal_strlit("bandwidth");
}

/// The names of the children of a representation differ from one another.
pub proof fn lemma_representation_child_names()
    ensures
        "AudioChannelConfiguration"@.len() == 25,
        "BaseURL"@.len() == 7,
        "SegmentBase"@.len() == 11,
{
    reveal_strlit("AudioChannelConfiguration");
    reveal_strlit("BaseURL");
    reveal_strlit("SegmentBase");
}

/// The attribute names of an adaptation set differ from one another.
pub proof fn lemma_adaptation_set_names()
    ensures
        "segmentAlignment"@.len() == 16,
        "maxWidth"@.len() == 8,
        "maxWidth"@[1] == 'a',
        "maxHeight"@.len() == 9,
        "maxFrameRate"@.len() == 12,
        "par"@.len() == 3,
        "lang"@.len() == 4,
        "subsegmentAlignment"@.len() == 19,
        "subsegmentStartsWithSAP"@.len() == 23,
        "mimeType"@.len() == 8,
        "mimeType"@[1] == 'i',
        "contentType"@.len() == 11,
{
    reveal_strlit("segmentAlignment");
    reveal_strlit("maxWidth");
    reveal_strlit("maxHeight");
    reveal_strlit("maxFrameRate");
    reveal_strlit("par");
    reveal_strlit("lang");
    reveal_strlit("subsegmentAlignment");
    reveal_strlit("subsegmentStartsWithSAP");
    reveal_strlit("mimeType");
    reveal_strlit("contentType");
}

/// The names of the children of an adaptation set differ from one another.
pub proof fn lemma_adaptation_set_child_names()
    ensures
        "Role"@.len() == 4,
        "Representation"@.len() == 14,
{
    reveal_strlit("Role");
    reveal_strlit("Representation");
}

/// The attribute names of a manifest differ from one another.
pub proof fn lemma_manifest_names()
    ensures
        "minBufferTime"@.len() == 13,
        "mediaPresentationDuration"@.len() == 25,
        "maxSegmentDuration"@.len() == 18,
        "profiles"@.len() == 8,
        "type"@.len() == 4,
{
    reveal_strlit("minBufferTime");
    reveal_strlit("mediaPresentationDuration");
    reveal_strlit("maxSegmentDuration");
    reveal_strlit("profiles");
    reveal_strlit("type");
}

/// The names of the children of a manifest differ from one another.
pub proof fn lemma_manifest_child_names()
    ensures
        "ProgramInformation"@.len() == 18,
        "Period"@.len() == 6,
{
    reveal_strlit("ProgramInformation");
    reveal_strlit("Period");
}

} // verus!
