//! How the model is spelled in XML: for each type, the value that an element
//! stands for. An absent attribute reads as the empty text, an absent head or
//! body as an empty one, and names that are not listed are passed over.

use vstd::prelude::*;
use crate::ism::manifest::{
    empty_body, empty_head, empty_switch, AudioView, BodyView, HeadView, MetaView, ParamGroupView,
    ParamView, SmilView, SwitchView, TextStreamView, VideoView,
};
use crate::xml::query::{attribute_value, child_named, mapped_children, text_or_empty};
use crate::xml::tree::ElementView;

verus! {

/// The namespace of a SMIL document.
pub open spec fn smil_namespace() -> Seq<char> {
    "http://www.w3.org/2001/SMIL20/Language"@
}

/// The text of the attribute called `name`, empty where it is absent.
pub open spec fn attribute_or_empty(element: ElementView, name: Seq<char>) -> Seq<char> {
    text_or_empty(attribute_value(element.attributes, name))
}

/// The `meta` entry that an element stands for.
pub open spec fn meta_of(element: ElementView) -> MetaView {
    MetaView {
        name: attribute_or_empty(element, "name"@),
        content: attribute_or_empty(element, "content"@),
    }
}

/// How `meta` entries are read.
pub open spec fn meta_decoder() -> spec_fn(ElementView) -> MetaView {
    |element: ElementView| meta_of(element)
}

/// The group that an element stands for.
pub open spec fn param_group_of(element: ElementView) -> ParamGroupView {
    ParamGroupView { meta: mapped_children(element.children, "meta"@, meta_decoder()) }
}

/// How groups are read.
pub open spec fn param_group_decoder() -> spec_fn(ElementView) -> ParamGroupView {
    |element: ElementView| param_group_of(element)
}

/// The head that an element stands for.
pub open spec fn head_of(element: ElementView) -> HeadView {
    HeadView {
        meta: mapped_children(element.children, "meta"@, meta_decoder()),
        param_group: mapped_children(element.children, "paramGroup"@, param_group_decoder()),
    }
}

/// The parameter that an element stands for.
pub open spec fn param_of(element: ElementView) -> ParamView {
    ParamView {
        name: attribute_or_empty(element, "name"@),
        value: attribute_or_empty(element, "value"@),
        value_type: attribute_or_empty(element, "valueType"@),
    }
}

/// How parameters are read.
pub open spec fn param_decoder() -> spec_fn(ElementView) -> ParamView {
    |element: ElementView| param_of(element)
}

/// The audio stream that an element stands for.
pub open spec fn audio_of(element: ElementView) -> AudioView {
    AudioView {
        source: attribute_or_empty(element, "src"@),
        system_bit_rate: attribute_or_empty(element, "systemBitrate"@),
        system_language: attribute_or_empty(element, "systemLanguage"@),
        params: mapped_children(element.children, "params"@, param_decoder()),
    }
}

/// How audio streams are read.
pub open spec fn audio_decoder() -> spec_fn(ElementView) -> AudioView {
    |element: ElementView| audio_of(element)
}

/// The video stream that an element stands for.
pub open spec fn video_of(element: ElementView) -> VideoView {
    VideoView {
        source: attribute_or_empty(element, "src"@),
        system_bit_rate: attribute_or_empty(element, "systemBitrate"@),
        params: mapped_children(element.children, "params"@, param_decoder()),
    }
}

/// How video streams are read.
pub open spec fn video_decoder() -> spec_fn(ElementView) -> VideoView {
    |element: ElementView| video_of(element)
}

/// The text stream that an element stands for.
pub open spec fn text_stream_of(element: ElementView) -> TextStreamView {
    TextStreamView {
        source: attribute_or_empty(element, "src"@),
        system_bit_rate: attribute_or_empty(element, "systemBitrate"@),
        system_language: attribute_or_empty(element, "systemLanguage"@),
        params: mapped_children(element.children, "params"@, param_decoder()),
    }
}

/// How text streams are read.
pub open spec fn text_stream_decoder() -> spec_fn(ElementView) -> TextStreamView {
    |element: ElementView| text_stream_of(element)
}

/// The streams that an element `switch` stands for.
pub open spec fn switch_of(element: ElementView) -> SwitchView {
    SwitchView {
        audio: mapped_children(element.children, "audio"@, audio_decoder()),
        video: mapped_children(element.children, "video"@, video_decoder()),
        text: mapped_children(element.children, "textstream"@, text_stream_decoder()),
    }
}

/// The body that an element stands for.
pub open spec fn body_of(element: ElementView) -> BodyView {
    BodyView {
        switch: match child_named(element.children, "switch"@) {
            Some(child) => switch_of(child),
            None => empty_switch(),
        },
    }
}

/// Whether an element can be the root of a server manifest: it is called
/// `smil` and belongs to no namespace or to that of SMIL.
pub open spec fn is_smil_root(element: ElementView) -> bool {
    element.name == "smil"@ && (element.namespace is None || element.namespace == Some(
        smil_namespace(),
    ))
}

/// The server manifest that a root element stands for, if the element is
/// such a root.
pub open spec fn smil_of(element: ElementView) -> Option<SmilView> {
    if is_smil_root(element) {
        Some(
            SmilView {
                head: match child_named(element.children, "head"@) {
                    Some(child) => head_of(child),
                    None => empty_head(),
                },
                body: match child_named(element.children, "body"@) {
                    Some(child) => body_of(child),
                    None => empty_body(),
                },
            },
        )
    } else {
        None
    }
}

} // verus!
