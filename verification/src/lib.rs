//! Uploading built Python distributions, wheels and source distributions, to
//! a package index.
//!
//! The library decides and computes; it opens no file and sends nothing. Its
//! caller expands the path patterns, reads the files and talks to the index,
//! and hands what it found to [`files_for_publishing`] and, step by step, to
//! [`upload`].

pub mod digest;
pub mod discover;
pub mod error;
pub mod filename;
pub mod form;
pub mod metadata;
pub mod pkg_info;
pub mod reporter;
pub mod request;
pub mod response;
pub mod text;
pub mod upload;

pub use crate::digest::{hash_bytes, FileHasher};
pub use crate::discover::{files_for_publishing, Candidate, CandidateName, Expansion};
pub use crate::error::{PublishError, PublishPrepareError, PublishSendError};
pub use crate::filename::{DistFilename, SourceDistExtension, SourceDistFilename, WheelFilename};
pub use crate::form::form_metadata;
pub use crate::metadata::{
    metadata_source, raw_metadata, Metadata23, MetadataRead, MetadataSource,
};
pub use crate::pkg_info::{is_pkg_info, source_dist_pkg_info};
pub use crate::reporter::{report_read, Reporter};
pub use crate::request::{announcement, build_request, RegistryTarget, UploadRequest};
pub use crate::response::{check_response_head, classify_failure, handle_response, ResponseHead};
pub use crate::upload::{upload, UploadAction, UploadEvent, UploadJob, UploadState};
