//! The failures of discovery, of preparing a file and of sending it.
//!
//! Errors raised by other crates and the paths of files are carried as they
//! came; URLs are held as text and a status as its number.

use crate::filename::{SourceDistFilename, SourceDistFilenameView};
use vstd::prelude::*;

verus! {

/// `std::path::PathBuf`, the path of a file. It is carried as it came: nothing
/// is said of what it holds.
#[verifier::external_type_specification]
#[verifier::external_body]
pub struct ExPathBuf(std::path::PathBuf);

/// `PathBuf::clone` gives a path equal to the one it was given.
pub assume_specification[ <std::path::PathBuf as Clone>::clone ](
    path: &std::path::PathBuf,
) -> (copy: std::path::PathBuf)
    ensures
        copy == *path,
;

/// `glob::PatternError`, why a pattern did not parse. It is carried as it came:
/// nothing is said of what it holds.
#[verifier::external_type_specification]
#[verifier::external_body]
pub struct ExPatternError(glob::PatternError);

/// `glob::GlobError`, a failed step of a walk. It is carried as it came:
/// nothing is said of what it holds.
#[verifier::external_type_specification]
#[verifier::external_body]
pub struct ExGlobError(glob::GlobError);

/// `std::io::Error`. It is carried as it came: nothing is said of what it holds.
#[verifier::external_type_specification]
#[verifier::external_body]
pub struct ExIoError(std::io::Error);

/// `std::fmt::Error`. It is carried as it came: nothing is said of what it holds.
#[verifier::external_type_specification]
#[verifier::external_body]
pub struct ExFmtError(std::fmt::Error);

/// `reqwest::Error`, a failure to read an answer. It is carried as it came:
/// nothing is said of what it holds.
#[verifier::external_type_specification]
#[verifier::external_body]
pub struct ExReqwestError(reqwest::Error);

/// `reqwest_middleware::Error`, a failure to send a request. It is carried as it
/// came: nothing is said of what it holds.
#[verifier::external_type_specification]
#[verifier::external_body]
pub struct ExMiddlewareError(reqwest_middleware::Error);

/// Why publishing failed.
#[derive(Debug)]
pub enum PublishError {
    /// A path pattern did not parse: the pattern and what is wrong with it.
    Pattern(String, glob::PatternError),
    /// Walking the file system for a pattern failed.
    Glob(glob::GlobError),
    /// The patterns matched no wheel and no source distribution.
    NoFiles,
    Fmt(std::fmt::Error),
    /// The file at this path is neither a wheel nor a source distribution.
    InvalidFilename(std::path::PathBuf),
    /// The file at this path could not be prepared for upload.
    PublishPrepare(std::path::PathBuf, Box<PublishPrepareError>),
    /// The file at this path could not be published to the index at this URL.
    PublishSend(std::path::PathBuf, String, PublishSendError),
}

/// Failure to get the metadata of one file.
#[derive(Debug)]
pub enum PublishPrepareError {
    Io(std::io::Error),
    /// The wheel's metadata could not be read; the reader's own account of it.
    Metadata(String),
    /// The metadata did not parse; the parser's own account of it.
    Metadata23(String),
    /// Only `.tar.gz` source distributions are uploaded.
    InvalidExtension(SourceDistFilename),
    /// The archive holds no `PKG-INFO` one level below its top.
    MissingPkgInfo,
    /// The archive holds several such `PKG-INFO` files: their paths, joined by `, `.
    MultiplePkgInfo(String),
    /// The archive entry at this path could not be read.
    Read(String, std::io::Error),
}

/// Failure in or after the transport of one file.
#[derive(Debug)]
pub enum PublishSendError {
    /// The request could not be sent.
    ReqwestMiddleware(reqwest_middleware::Error),
    /// The index answered with this status and its body could not be read.
    StatusNoBody(u16, reqwest::Error),
    /// The index answered with this status and this message.
    Status(u16, String),
    /// The index answered 403 Forbidden, with this message.
    PermissionDenied(u16, String),
    /// The request was redirected to this URL; nothing was uploaded.
    RedirectError(String),
}

/// A transport failure with its texts as sequences of characters.
pub enum PublishSendErrorView {
    ReqwestMiddleware(reqwest_middleware::Error),
    StatusNoBody(u16, reqwest::Error),
    Status(u16, Seq<char>),
    PermissionDenied(u16, Seq<char>),
    RedirectError(Seq<char>),
}

impl View for PublishSendError {
    type V = PublishSendErrorView;

    open spec fn view(&self) -> PublishSendErrorView {
        match self {
            PublishSendError::ReqwestMiddleware(cause) => PublishSendErrorView::ReqwestMiddleware(
                *cause,
            ),
            PublishSendError::StatusNoBody(status, cause) => PublishSendErrorView::StatusNoBody(
                *status,
                *cause,
            ),
            PublishSendError::Status(status, message) => PublishSendErrorView::Status(
                *status,
                message@,
            ),
            PublishSendError::PermissionDenied(status, message) => {
                PublishSendErrorView::PermissionDenied(*status, message@)
            },
            PublishSendError::RedirectError(url) => PublishSendErrorView::RedirectError(url@),
        }
    }
}

/// A preparation failure with its texts as sequences of characters.
pub enum PublishPrepareErrorView {
    Io(std::io::Error),
    Metadata(Seq<char>),
    Metadata23(Seq<char>),
    InvalidExtension(SourceDistFilenameView),
    MissingPkgInfo,
    MultiplePkgInfo(Seq<char>),
    Read(Seq<char>, std::io::Error),
}

impl View for PublishPrepareError {
    type V = PublishPrepareErrorView;

    open spec fn view(&self) -> PublishPrepareErrorView {
        match self {
            PublishPrepareError::Io(cause) => PublishPrepareErrorView::Io(*cause),
            PublishPrepareError::Metadata(message) => PublishPrepareErrorView::Metadata(message@),
            PublishPrepareError::Metadata23(message) => PublishPrepareErrorView::Metadata23(
                message@,
            ),
            PublishPrepareError::InvalidExtension(filename) => {
                PublishPrepareErrorView::InvalidExtension(filename@)
            },
            PublishPrepareError::MissingPkgInfo => PublishPrepareErrorView::MissingPkgInfo,
            PublishPrepareError::MultiplePkgInfo(paths) => PublishPrepareErrorView::MultiplePkgInfo(
                paths@,
            ),
            PublishPrepareError::Read(path, cause) => PublishPrepareErrorView::Read(path@, *cause),
        }
    }
}

/// A failure with its texts as sequences of characters.
pub enum PublishErrorView {
    Pattern(Seq<char>, glob::PatternError),
    Glob(glob::GlobError),
    NoFiles,
    Fmt(std::fmt::Error),
    InvalidFilename(std::path::PathBuf),
    PublishPrepare(std::path::PathBuf, PublishPrepareErrorView),
    PublishSend(std::path::PathBuf, Seq<char>, PublishSendErrorView),
}

impl View for PublishError {
    type V = PublishErrorView;

    open spec fn view(&self) -> PublishErrorView {
        match self {
            PublishError::Pattern(pattern, cause) => PublishErrorView::Pattern(pattern@, *cause),
            PublishError::Glob(cause) => PublishErrorView::Glob(*cause),
            PublishError::NoFiles => PublishErrorView::NoFiles,
            PublishError::Fmt(cause) => PublishErrorView::Fmt(*cause),
            PublishError::InvalidFilename(path) => PublishErrorView::InvalidFilename(*path),
            PublishError::PublishPrepare(path, cause) => PublishErrorView::PublishPrepare(
                *path,
                cause@,
            ),
            PublishError::PublishSend(path, registry, cause) => PublishErrorView::PublishSend(
                *path,
                registry@,
                cause@,
            ),
        }
    }
}

} // verus!
