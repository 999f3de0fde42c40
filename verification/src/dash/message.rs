//! The subtitle operation from end to end, on text: resolve the reference,
//! decode the manifest, change it, encode it.

use vstd::prelude::*;
use crate::dash::decode::{decode, manifest_of_text};
use crate::dash::encode::encode;
use crate::dash::manifest::{AdaptationSet, AdaptationSetView, Manifest, ManifestView};
use crate::dash::schema::manifest_element;
use crate::dash::subtitle::{prefixed_sets, ttml_subtitle, with_adaptation_sets, without_track};
use crate::error::Error;
use crate::parameters::DashManifestParameters;
use crate::path::{resolve, resolved};
use crate::xml::reader::document_tokens;
use crate::xml::token::reader_message;
use crate::xml::tree::opt_text;
use crate::xml::writer::{element_tokens, rendered};

verus! {

/// The adaptation sets of a manifest once the subtitle track is in: those
/// that were there, with `reference_url` before their locations where one is
/// given, without the track of that language and role where `replace` is
/// set, and the new track last. The new track's own location carries no
/// prefix.
pub open spec fn sets_with_subtitle(
    sets: Seq<AdaptationSetView>,
    reference_path: Seq<char>,
    language: Seq<char>,
    role: Seq<char>,
    file_size: u64,
    replace: bool,
    reference_url: Option<Seq<char>>,
) -> Seq<AdaptationSetView> {
    let prefixed = match reference_url {
        Some(base) => prefixed_sets(sets, base),
        None => sets,
    };
    let kept = if replace {
        without_track(prefixed, language, role)
    } else {
        prefixed
    };
    kept.push(ttml_subtitle(reference_path, language, role, file_size))
}

/// A manifest once the subtitle track is in: only its adaptation sets
/// change.
pub open spec fn subtitle_inserted(
    manifest: ManifestView,
    reference_path: Seq<char>,
    language: Seq<char>,
    role: Seq<char>,
    file_size: u64,
    replace: bool,
    reference_url: Option<Seq<char>>,
) -> ManifestView {
    with_adaptation_sets(
        manifest,
        sets_with_subtitle(
            manifest.period.adaptation_set,
            reference_path,
            language,
            role,
            file_size,
            replace,
            reference_url,
        ),
    )
}

/// The text of the manifest once the subtitle track is in.
pub open spec fn updated_text(
    manifest: ManifestView,
    reference_path: Seq<char>,
    parameters: DashManifestParameters,
    file_size: u64,
) -> Seq<char> {
    rendered(
        element_tokens(
            manifest_element(
                subtitle_inserted(
                    manifest,
                    reference_path,
                    parameters.ttml_language@,
                    parameters.ttml_role@,
                    file_size,
                    parameters.replace == Some(true),
                    opt_text(parameters.reference_url),
                ),
            ),
        ),
    )
}

impl Manifest {
    /// Puts the subtitle track for the asset at `reference_path` into the
    /// manifest: first the prefix, then the removal, then the new track.
    pub fn insert_subtitle(
        &mut self,
        reference_path: &str,
        language: &str,
        role: &str,
        file_size: u64,
        replace: bool,
        reference_url: &Option<String>,
    )
        ensures
            final(self)@ == subtitle_inserted(
                old(self)@,
                reference_path@,
                language@,
                role@,
                file_size,
                replace,
                opt_text(*reference_url),
            ),
    {
        match reference_url {
            Some(base) => self.prefix_urls(base.as_str()),
            None => {},
        }
        if replace {
            self.remove_adaptation_set(language, role);
        }
        let adaptation_set = AdaptationSet::new_ttml_subtitle(
            reference_path,
            language,
            role,
            file_size,
        );
        self.add_adaptation_set(adaptation_set);
    }
}

/// The reference under which the manifest names the subtitle asset. It fails
/// exactly where the manifest's path names no directory.
pub fn subtitle_reference(parameters: &DashManifestParameters) -> (r: Result<String, Error>)
    ensures
        match resolved(parameters.source_path@, parameters.ttml_path@) {
            Some(text) => r is Ok && r->Ok_0@ == text,
            None => r is Err && r->Err_0 is PathResolution,
        },
{
    resolve(parameters.source_path.as_str(), parameters.ttml_path.as_str())
}

/// Decodes the manifest in `contents`, puts the subtitle track into it and
/// encodes it again. `reference_path` is the reference to the asset,
/// `ttml_file_size` its size in bytes. It succeeds exactly where `contents`
/// spells a manifest, and fails with a parse error everywhere else; where
/// the reader stopped on an error, the error carries the reader's message.
pub fn update_manifest(
    parameters: &DashManifestParameters,
    reference_path: &str,
    contents: &str,
    ttml_file_size: u64,
) -> (r: Result<String, Error>)
    ensures
        match manifest_of_text(contents@) {
            Some(manifest) => r is Ok && r->Ok_0@ == updated_text(
                manifest,
                reference_path@,
                *parameters,
                ttml_file_size,
            ),
            None => r is Err && r->Err_0 is Parse,
        },
        reader_message(document_tokens(contents@)) is Some ==> r is Err && r->Err_0->Parse_0@
            == reader_message(document_tokens(contents@))->Some_0,
{
    let mut manifest = match decode(contents) {
        Ok(manifest) => manifest,
        Err(error) => {
            return Err(error);
        },
    };
    manifest.insert_subtitle(
        reference_path,
        parameters.ttml_language.as_str(),
        parameters.ttml_role.as_str(),
        ttml_file_size,
        parameters.replaces(),
        &parameters.reference_url,
    );
    encode(&manifest)
}

/// The whole operation on text: resolves the reference to the subtitle
/// asset, then updates the manifest in `contents`. It succeeds exactly where
/// the manifest's path names a directory and `contents` spells a manifest.
/// The errors come in that order: no directory for the manifest, then no
/// manifest in `contents`; where the reader stopped on an error, the parse
/// error carries the reader's message.
pub fn add_ttml_subtitle(
    parameters: &DashManifestParameters,
    contents: &str,
    ttml_file_size: u64,
) -> (r: Result<String, Error>)
    ensures
        match resolved(parameters.source_path@, parameters.ttml_path@) {
            Some(reference_path) => match manifest_of_text(contents@) {
                Some(manifest) => r is Ok && r->Ok_0@ == updated_text(
                    manifest,
                    reference_path,
                    *parameters,
                    ttml_file_size,
                ),
                None => r is Err && r->Err_0 is Parse && (reader_message(
                    document_tokens(contents@),
                ) is Some ==> r->Err_0->Parse_0@ == reader_message(
                    document_tokens(contents@),
                )->Some_0),
            },
            None => r is Err && r->Err_0 is PathResolution,
        },
{
    match subtitle_reference(parameters) {
        Ok(reference_path) => update_manifest(
            parameters,
            reference_path.as_str(),
            contents,
            ttml_file_size,
        ),
        Err(error) => Err(error),
    }
}

} // verus!
