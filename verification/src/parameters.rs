//! The input parameters of the two operations.

use vstd::prelude::*;
use crate::error::Error;
use crate::xml::tree::opt_text;

verus! {

/// What the subtitle operation on a DASH manifest is given.
#[derive(Debug, PartialEq, Eq)]
pub struct DashManifestParameters {
    /// Where the manifest is.
    pub source_path: String,
    /// Where the subtitle asset is: a file or a network location.
    pub ttml_path: String,
    /// The language of the subtitle track.
    pub ttml_language: String,
    /// The role of the subtitle track.
    pub ttml_role: String,
    /// Whether the track of that language and role is replaced; absent
    /// counts as no.
    pub replace: Option<bool>,
    /// Where the changed manifest goes; absent, it goes where it came from.
    pub destination_path: Option<String>,
    /// What is put before the locations that the manifest already holds.
    pub reference_url: Option<String>,
}

/// What the source extraction on a server manifest is given.
#[derive(Debug, PartialEq, Eq)]
pub struct IsmManifestParameters {
    /// Where the manifest is.
    pub source_path: String,
}

/// The name of the first required parameter of the subtitle operation that
/// is absent, if one is.
pub open spec fn first_missing(
    source_path: Option<Seq<char>>,
    ttml_path: Option<Seq<char>>,
    ttml_language: Option<Seq<char>>,
    ttml_role: Option<Seq<char>>,
) -> Option<Seq<char>> {
    if source_path is None {
        Some("source_path"@)
    } else if ttml_path is None {
        Some("ttml_path"@)
    } else if ttml_language is None {
        Some("ttml_language"@)
    } else if ttml_role is None {
        Some("ttml_role"@)
    } else {
        None
    }
}

impl DashManifestParameters {
    /// Puts the parameters together from what was supplied. It fails with
    /// the name of the first required parameter that is absent.
    pub fn required(
        source_path: Option<String>,
        ttml_path: Option<String>,
        ttml_language: Option<String>,
        ttml_role: Option<String>,
        replace: Option<bool>,
        destination_path: Option<String>,
        reference_url: Option<String>,
    ) -> (r: Result<DashManifestParameters, Error>)
        ensures
            match first_missing(
                opt_text(source_path),
                opt_text(ttml_path),
                opt_text(ttml_language),
                opt_text(ttml_role),
            ) {
                Some(name) => r is Err && r->Err_0 is MissingParameter
                    && r->Err_0->MissingParameter_0@ == name,
                None => r is Ok && r->Ok_0.source_path@ == source_path->Some_0@
                    && r->Ok_0.ttml_path@ == ttml_path->Some_0@ && r->Ok_0.ttml_language@
                    == ttml_language->Some_0@ && r->Ok_0.ttml_role@ == ttml_role->Some_0@
                    && r->Ok_0.replace == replace && opt_text(r->Ok_0.destination_path)
                    == opt_text(destination_path) && opt_text(r->Ok_0.reference_url) == opt_text(
                    reference_url,
                ),
            },
    {
        let source_path = match source_path {
            Some(value) => value,
            None => {
                return Err(Error::MissingParameter("source_path".to_owned()));
            },
        };
        let ttml_path = match ttml_path {
            Some(value) => value,
            None => {
                return Err(Error::MissingParameter("ttml_path".to_owned()));
            },
        };
        let ttml_language = match ttml_language {
            Some(value) => value,
            None => {
                return Err(Error::MissingParameter("ttml_language".to_owned()));
            },
        };
        let ttml_role = match ttml_role {
            Some(value) => value,
            None => {
                return Err(Error::MissingParameter("ttml_role".to_owned()));
            },
        };
        Ok(
            DashManifestParameters {
                source_path,
                ttml_path,
                ttml_language,
                ttml_role,
                replace,
                destination_path,
                reference_url,
            },
        )
    }

    /// Whether the track of the given language and role is replaced.
    pub fn replaces(&self) -> (replace: bool)
        ensures
            replace == (self.replace == Some(true)),
    {
        match self.replace {
            Some(value) => value,
            None => false,
        }
    }

    /// Where the changed manifest goes: the destination, or the source where
    /// no destination is given.
    pub fn destination(&self) -> (path: String)
        ensures
            path@ == match self.destination_path {
                Some(destination) => destination@,
                None => self.source_path@,
            },
    {
        match &self.destination_path {
            Some(destination) => destination.clone(),
            None => self.source_path.clone(),
        }
    }
}

impl IsmManifestParameters {
    /// Puts the parameters together from what was supplied. It fails where
    /// the path of the manifest is absent.
    pub fn required(source_path: Option<String>) -> (r: Result<IsmManifestParameters, Error>)
        ensures
            match source_path {
                Some(path) => r is Ok && r->Ok_0.source_path@ == path@,
                None => r is Err && r->Err_0 is MissingParameter
                    && r->Err_0->MissingParameter_0@ == "source_path"@,
            },
    {
        match source_path {
            Some(source_path) => Ok(IsmManifestParameters { source_path }),
            None => Err(Error::MissingParameter("source_path".to_owned())),
        }
    }
}

} // verus!
