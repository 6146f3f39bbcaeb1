//! Cover art as the application hands it over.

use vstd::prelude::*;

verus! {

/// A path on the local file system, as std holds it. Nothing here looks inside one.
#[verifier::external_type_specification]
#[verifier::external_body]
pub struct ExPathBuf(std::path::PathBuf);

/// `PathBuf::clone` gives a path buffer; nothing is claimed of it here.
pub assume_specification[ <std::path::PathBuf as Clone>::clone ](
    path: &std::path::PathBuf,
) -> std::path::PathBuf;

/// A way of specifying cover art/artwork/thumbnail.
/// The platforms take cover art in fundamentally different ways; MPRIS
/// publishes nothing but a URL.
#[derive(Clone, Debug)]
pub enum MediaCover {
    HttpUrl(String),
    DataUrl(String),
    LocalFile(std::path::PathBuf),
    Bytes(Vec<u8>),
}

impl MediaCover {
    /// The URL that stands for the cover, where the cover is one.
    pub open spec fn spec_url(&self) -> Option<Seq<char>> {
        match self {
            MediaCover::HttpUrl(url) => Some(url@),
            MediaCover::DataUrl(url) => Some(url@),
            MediaCover::LocalFile(_) => None,
            MediaCover::Bytes(_) => None,
        }
    }

    /// The URL that stands for the cover: that of a remote or data URL, and
    /// none for a local file or raw bytes.
    pub fn to_url(self) -> (url: Option<String>)
        ensures
            url.deep_view() == self.spec_url(),
    {
        match self {
            MediaCover::HttpUrl(url) => Some(url),
            MediaCover::DataUrl(url) => Some(url),
            MediaCover::LocalFile(_) => None,
            MediaCover::Bytes(_) => None,
        }
    }
}

} // verus!
