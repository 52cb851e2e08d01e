//! Failures of image operations.

use vstd::prelude::*;

use crate::fault::{IoFailure, IoFailureView};

verus! {

/// Why an image operation failed.
#[derive(Clone, Debug)]
pub enum ImageError {
    /// A configuration or a binding between documents is not acceptable.
    ConfigParse(String),
    /// An image manifest is not acceptable.
    ManifestParse(String),
    /// Input or output failed.
    Io(IoFailure),
    /// Input or output on a cache file failed.
    Cache {
        /// The bytes of the file's path.
        path: Vec<u8>,
        /// The failure.
        source: IoFailure,
    },
}

/// What an [`ImageError`] says.
pub enum ImageErrorView {
    /// A configuration or a binding between documents is not acceptable.
    ConfigParse(Seq<char>),
    /// An image manifest is not acceptable.
    ManifestParse(Seq<char>),
    /// Input or output failed.
    Io(IoFailureView),
    /// Input or output on a cache file failed.
    Cache {
        /// The bytes of the file's path.
        path: Seq<u8>,
        /// The failure.
        source: IoFailureView,
    },
}

impl View for ImageError {
    type V = ImageErrorView;

    open spec fn view(&self) -> ImageErrorView {
        match self {
            ImageError::ConfigParse(message) => ImageErrorView::ConfigParse(message@),
            ImageError::ManifestParse(message) => ImageErrorView::ManifestParse(message@),
            ImageError::Io(failure) => ImageErrorView::Io(failure@),
            ImageError::Cache { path, source } => ImageErrorView::Cache {
                path: path@,
                source: source@,
            },
        }
    }
}

/// What a check came to.
pub type Verdict = Result<(), ImageErrorView>;

impl ImageError {
    /// What the result of a check says.
    pub open spec fn verdict(result: Result<(), ImageError>) -> Verdict {
        match result {
            Ok(_) => Ok(()),
            Err(error) => Err(error@),
        }
    }
}

impl ImageErrorView {
    /// A configuration that is refused with this message.
    pub open spec fn refused(message: Seq<char>) -> Verdict {
        Err(ImageErrorView::ConfigParse(message))
    }
}

/// An unacceptable configuration, with a fixed message.
pub fn config_error(message: &str) -> (error: ImageError)
    ensures
        error@ == ImageErrorView::ConfigParse(message@),
{
    ImageError::ConfigParse(message.to_owned())
}

/// The failure of input or output on a cache file.
pub fn cache_error(path: &[u8], source: IoFailure) -> (error: ImageError)
    ensures
        error@ == (ImageErrorView::Cache { path: path@, source: source@ }),
{
    ImageError::Cache { path: vstd::slice::slice_to_vec(path), source }
}

} // verus!
