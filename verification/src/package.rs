//! What the local-package page shows of a manifest.
//!
//! Parsing the manifest belongs to the package-manager collaborator; the
//! page's own decision is only which text each label gets, and what
//! stands in for metadata the manifest does not give.

use vstd::prelude::*;

verus! {

/// A package manifest's displayed metadata, as plain values.
#[derive(Debug, PartialEq, Eq)]
pub struct PackageMeta {
    pub name: String,
    pub version: String,
    /// The manifest's description, where it has one.
    pub description: Option<String>,
    /// The manifest's authors, possibly none.
    pub authors: Vec<String>,
}

impl PackageMeta {
    /// The description line the page shows: the manifest's description,
    /// or blank where the manifest gives none.
    pub fn display_description(&self) -> (r: &str)
        ensures
            (match self.description {
                Some(d) => r@ == d@,
                None => r@.len() == 0,
            }),
    {
        proof {
            reveal_strlit("");
        }
        match &self.description {
            Some(d) => d.as_str(),
            None => "",
        }
    }

    /// The author line the page shows: the first author the manifest
    /// names, or blank where it names none.
    pub fn display_author(&self) -> (r: &str)
        ensures
            self.authors@.len() > 0 ==> r@ == self.authors@[0]@,
            self.authors@.len() == 0 ==> r@.len() == 0,
    {
        proof {
            reveal_strlit("");
        }
        if self.authors.len() > 0 {
            self.authors[0].as_str()
        } else {
            ""
        }
    }
}

} // verus!
