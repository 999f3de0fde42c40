//! The reference under which a manifest names an asset: the asset's path
//! relative to the manifest's directory where the asset lies under it, and
//! the asset's path as it is everywhere else.

use vstd::prelude::*;
use crate::error::Error;
use crate::xml::tree::opt_text;
use std::path::Path;

verus! {

/// What `Path::parent` gives for a path, on the platform the library is
/// built for: the path without its final component, if there is one.
pub uninterp spec fn parent_directory(path: Seq<char>) -> Option<Seq<char>>;

/// What `Path::strip_prefix` gives for a path and a base, on the platform
/// the library is built for: the rest of the path, where the base is a
/// prefix of it.
pub uninterp spec fn relative_to(path: Seq<char>, base: Seq<char>) -> Option<Seq<char>>;

/// `Path::parent` of std, on text.
#[verifier::external_body]
fn path_parent(path: &str) -> (parent: Option<String>)
    ensures
        opt_text(parent) == parent_directory(path@),
{
    match Path::new(path).parent() {
        Some(parent) => Some(parent.to_string_lossy().into_owned()),
        None => None,
    }
}

/// `Path::strip_prefix` of std, on text; an error stands for "no prefix".
#[verifier::external_body]
fn path_strip_prefix(path: &str, base: &str) -> (rest: Option<String>)
    ensures
        opt_text(rest) == relative_to(path@, base@),
{
    match Path::new(path).strip_prefix(base) {
        Ok(rest) => Some(rest.to_string_lossy().into_owned()),
        Err(_) => None,
    }
}

/// The directory of a manifest, given the parent of its path: there is none
/// where the path has no parent or an empty one.
pub open spec fn directory(parent: Option<Seq<char>>) -> Option<Seq<char>> {
    match parent {
        Some(directory) => if directory.len() > 0 {
            Some(directory)
        } else {
            None
        },
        None => None,
    }
}

/// The reference to an asset, given what is left of its path below the
/// manifest's directory: that rest, or the whole path where the asset does
/// not lie below the directory.
pub open spec fn reference(rest: Option<Seq<char>>, asset_path: Seq<char>) -> Seq<char> {
    match rest {
        Some(relative) => relative,
        None => asset_path,
    }
}

/// The reference under which the manifest at `manifest_path` names the asset
/// at `asset_path`; none where the manifest has no directory.
pub open spec fn resolved(manifest_path: Seq<char>, asset_path: Seq<char>) -> Option<Seq<char>> {
    match directory(parent_directory(manifest_path)) {
        Some(base) => Some(reference(relative_to(asset_path, base), asset_path)),
        None => None,
    }
}

/// The directory of a manifest, given the parent of its path. It fails where
/// there is no parent, or an empty one: the path of a bare file name.
pub fn directory_of(parent: Option<String>) -> (r: Result<String, Error>)
    ensures
        match directory(opt_text(parent)) {
            Some(base) => r is Ok && r->Ok_0@ == base,
            None => r is Err && r->Err_0 is PathResolution,
        },
{
    match parent {
        Some(base) => {
            if base.as_str().is_empty() {
                Err(Error::PathResolution)
            } else {
                Ok(base)
            }
        },
        None => Err(Error::PathResolution),
    }
}

/// The reference to an asset, given what is left of its path below the
/// manifest's directory.
pub fn reference_from(rest: Option<String>, asset_path: &str) -> (text: String)
    ensures
        text@ == reference(opt_text(rest), asset_path@),
{
    match rest {
        Some(relative) => relative,
        None => asset_path.to_owned(),
    }
}

/// Resolves the reference under which the manifest at `manifest_path` names
/// the asset at `asset_path`. It fails exactly where the manifest's path
/// names no directory.
pub fn resolve(manifest_path: &str, asset_path: &str) -> (r: Result<String, Error>)
    ensures
        match resolved(manifest_path@, asset_path@) {
            Some(text) => r is Ok && r->Ok_0@ == text,
            None => r is Err && r->Err_0 is PathResolution,
        },
{
    match directory_of(path_parent(manifest_path)) {
        Ok(base) => Ok(reference_from(path_strip_prefix(asset_path, base.as_str()), asset_path)),
        Err(error) => Err(error),
    }
}

} // verus!
