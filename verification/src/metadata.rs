//! The workspace metadata: what the build tool's metadata query answers,
//! and what the supervisor takes from it.

use vstd::prelude::*;
use vstd::utf8::{decode_utf8, valid_utf8};
use crate::paths::{join_path, joined_path};
use crate::text::decode_text;

verus! {

/// The two directories that the metadata query is asked for.
#[derive(Debug, Clone, PartialEq, Eq)]
pub struct CargoMetadata {
    /// The directory that build output goes to.
    pub target_directory: String,
    /// The root directory of the workspace.
    pub workspace_root: String,
}

/// The model of a `CargoMetadata`.
pub struct CargoMetadataView {
    pub target_directory: Seq<char>,
    pub workspace_root: Seq<char>,
}

impl View for CargoMetadata {
    type V = CargoMetadataView;

    open spec fn view(&self) -> CargoMetadataView {
        CargoMetadataView {
            target_directory: self.target_directory@,
            workspace_root: self.workspace_root@,
        }
    }
}

/// What the metadata query gave.
#[derive(Debug, Clone, PartialEq, Eq)]
pub enum MetadataReply {
    /// The query could not be run; the cause, in words.
    Unavailable(String),
    /// The query ran and reported failure; what it wrote to its error
    /// stream.
    Failed { stderr: Vec<u8> },
    /// The query reported success, but its output is not a metadata
    /// document; the cause, in words.
    Malformed(String),
    /// The query reported success and this is its document.
    Document(CargoMetadata),
}

/// Why there is no metadata. Each is fatal: the query is not repeated.
#[derive(Debug, Clone, PartialEq, Eq)]
pub enum MetadataError {
    /// The query could not be run; the cause, in words.
    Unavailable(String),
    /// The query reported failure; its diagnostics.
    NonZeroExit(String),
    /// The query reported failure and its diagnostics are not text.
    Undecodable,
    /// The query's output is not a metadata document; the cause, in words.
    Malformed(String),
}

/// The model of a `MetadataError`.
pub enum MetadataErrorView {
    Unavailable(Seq<char>),
    NonZeroExit(Seq<char>),
    Undecodable,
    Malformed(Seq<char>),
}

impl View for MetadataError {
    type V = MetadataErrorView;

    open spec fn view(&self) -> MetadataErrorView {
        match self {
            MetadataError::Unavailable(cause) => MetadataErrorView::Unavailable(cause@),
            MetadataError::NonZeroExit(diagnostics) => MetadataErrorView::NonZeroExit(
                diagnostics@,
            ),
            MetadataError::Undecodable => MetadataErrorView::Undecodable,
            MetadataError::Malformed(cause) => MetadataErrorView::Malformed(cause@),
        }
    }
}

/// The model of a `MetadataReply`.
pub enum MetadataReplyView {
    Unavailable(Seq<char>),
    Failed { stderr: Seq<u8> },
    Malformed(Seq<char>),
    Document(CargoMetadataView),
}

impl View for MetadataReply {
    type V = MetadataReplyView;

    open spec fn view(&self) -> MetadataReplyView {
        match self {
            MetadataReply::Unavailable(cause) => MetadataReplyView::Unavailable(cause@),
            MetadataReply::Failed { stderr } => MetadataReplyView::Failed { stderr: stderr@ },
            MetadataReply::Malformed(cause) => MetadataReplyView::Malformed(cause@),
            MetadataReply::Document(metadata) => MetadataReplyView::Document(metadata@),
        }
    }
}

/// The metadata, or the error, that a reply amounts to.
pub open spec fn metadata_of(reply: MetadataReplyView) -> Result<
    CargoMetadataView,
    MetadataErrorView,
> {
    match reply {
        MetadataReplyView::Unavailable(cause) => Err(MetadataErrorView::Unavailable(cause)),
        MetadataReplyView::Failed { stderr } => if valid_utf8(stderr) {
            Err(MetadataErrorView::NonZeroExit(decode_utf8(stderr)))
        } else {
            Err(MetadataErrorView::Undecodable)
        },
        MetadataReplyView::Malformed(cause) => Err(MetadataErrorView::Malformed(cause)),
        MetadataReplyView::Document(metadata) => Ok(metadata),
    }
}

/// The directory in which the compiled binary lies: the target directory,
/// then the target triple where the build names one, then the profile.
pub open spec fn target_dir_of(
    target_directory: Seq<char>,
    target: Option<Seq<char>>,
    is_release: bool,
) -> Seq<char> {
    let base = match target {
        Some(triple) => joined_path(target_directory, triple),
        None => target_directory,
    };
    joined_path(
        base,
        if is_release {
            "release"@
        } else {
            "debug"@
        },
    )
}

/// Whether `result` is `expected`, the metadata taken by its model.
pub open spec fn is_metadata_result(
    result: Result<CargoMetadata, MetadataError>,
    expected: Result<CargoMetadataView, MetadataErrorView>,
) -> bool {
    match result {
        Ok(metadata) => expected == Ok::<CargoMetadataView, MetadataErrorView>(metadata@),
        Err(error) => expected == Err::<CargoMetadataView, MetadataErrorView>(error@),
    }
}

/// The workspace's root directory, or the error, that a reply amounts to.
pub open spec fn workspace_dir_of(reply: MetadataReplyView) -> Result<
    Seq<char>,
    MetadataErrorView,
> {
    match metadata_of(reply) {
        Ok(metadata) => Ok(metadata.workspace_root),
        Err(error) => Err(error),
    }
}

/// The directory of the compiled binary, or the error, that a reply amounts
/// to.
pub open spec fn binary_dir_of(
    reply: MetadataReplyView,
    target: Option<Seq<char>>,
    is_release: bool,
) -> Result<Seq<char>, MetadataErrorView> {
    match metadata_of(reply) {
        Ok(metadata) => Ok(target_dir_of(metadata.target_directory, target, is_release)),
        Err(error) => Err(error),
    }
}

/// Whether `result` is `expected`, the directory taken by its model.
pub open spec fn is_directory_result(
    result: Result<String, MetadataError>,
    expected: Result<Seq<char>, MetadataErrorView>,
) -> bool {
    match result {
        Ok(directory) => expected == Ok::<Seq<char>, MetadataErrorView>(directory@),
        Err(error) => expected == Err::<Seq<char>, MetadataErrorView>(error@),
    }
}

impl MetadataErrorView {
    /// What went wrong, in words.
    pub open spec fn cause(self) -> Seq<char> {
        match self {
            MetadataErrorView::Unavailable(cause) => cause,
            MetadataErrorView::NonZeroExit(diagnostics) =>
                "cargo metadata command exited with a non zero exit code: "@ + diagnostics,
            MetadataErrorView::Undecodable => "the diagnostics of cargo metadata are not valid UTF-8"@,
            MetadataErrorView::Malformed(cause) => cause,
        }
    }

    /// The error in words: that the metadata could not be had, and why.
    pub open spec fn text(self) -> Seq<char> {
        "failed to get cargo metadata: "@ + self.cause()
    }
}

impl MetadataError {
    /// The error in words: that the metadata could not be had, and why.
    pub fn message(&self) -> (message: String)
        ensures
            message@ == self@.text(),
    {
        let head = "failed to get cargo metadata: ".to_owned();
        match self {
            MetadataError::Unavailable(cause) => head.concat(cause.as_str()),
            MetadataError::NonZeroExit(diagnostics) => {
                let text = "cargo metadata command exited with a non zero exit code: ".to_owned();
                head.concat(text.concat(diagnostics.as_str()).as_str())
            },
            MetadataError::Undecodable => head.concat(
                "the diagnostics of cargo metadata are not valid UTF-8",
            ),
            MetadataError::Malformed(cause) => head.concat(cause.as_str()),
        }
    }
}

/// The metadata that the query gave, or why there is none.
pub fn get_cargo_metadata(reply: MetadataReply) -> (metadata: Result<CargoMetadata, MetadataError>)
    ensures
        is_metadata_result(metadata, metadata_of(reply@)),
{
    match reply {
        MetadataReply::Unavailable(cause) => Err(MetadataError::Unavailable(cause)),
        MetadataReply::Failed { stderr } => match decode_text(stderr) {
            Some(diagnostics) => Err(MetadataError::NonZeroExit(diagnostics)),
            None => Err(MetadataError::Undecodable),
        },
        MetadataReply::Malformed(cause) => Err(MetadataError::Malformed(cause)),
        MetadataReply::Document(metadata) => Ok(metadata),
    }
}

/// The root directory of the workspace, from the metadata query's reply.
pub fn get_workspace_dir(reply: MetadataReply) -> (root: Result<String, MetadataError>)
    ensures
        is_directory_result(root, workspace_dir_of(reply@)),
{
    match get_cargo_metadata(reply) {
        Ok(metadata) => Ok(metadata.workspace_root),
        Err(error) => Err(error),
    }
}

/// The directory in which the compiled binary lies, from the metadata
/// query's reply.
pub fn get_target_dir(reply: MetadataReply, target: Option<&str>, is_release: bool) -> (dir: Result<
    String,
    MetadataError,
>)
    ensures
        is_directory_result(dir, binary_dir_of(reply@, target.deep_view(), is_release)),
{
    match get_cargo_metadata(reply) {
        Ok(metadata) => {
            let base = match target {
                Some(triple) => join_path(metadata.target_directory.as_str(), triple),
                None => metadata.target_directory,
            };
            Ok(
                join_path(
                    base.as_str(),
                    if is_release {
                        "release"
                    } else {
                        "debug"
                    },
                ),
            )
        },
        Err(error) => Err(error),
    }
}

} // verus!
