//! The core metadata of a distribution, and where in a file it is read from.

use crate::error::{PublishPrepareError, PublishPrepareErrorView};
use crate::filename::{DistFilename, DistFilenameView, SourceDistExtension};
use crate::pkg_info::{found_view, pkg_info_of, source_dist_pkg_info};
use crate::text::{opt_text, texts};
use vstd::prelude::*;

verus! {

/// The core metadata fields that an upload carries. A field that may stand
/// once is an `Option`, one that may be repeated a `Vec` in the order of the
/// metadata file.
#[derive(Clone, Debug)]
pub struct Metadata23 {
    pub metadata_version: String,
    pub name: String,
    pub version: String,
    pub platforms: Vec<String>,
    pub summary: Option<String>,
    pub description: Option<String>,
    pub description_content_type: Option<String>,
    pub keywords: Option<String>,
    pub home_page: Option<String>,
    pub download_url: Option<String>,
    pub author: Option<String>,
    pub author_email: Option<String>,
    pub maintainer: Option<String>,
    pub maintainer_email: Option<String>,
    pub license: Option<String>,
    pub classifiers: Vec<String>,
    pub requires_dist: Vec<String>,
    pub provides_dist: Vec<String>,
    pub obsoletes_dist: Vec<String>,
    pub requires_python: Option<String>,
    pub requires_external: Vec<String>,
    pub project_urls: Vec<String>,
}

/// The metadata as plain text.
pub struct Metadata23View {
    pub metadata_version: Seq<char>,
    pub name: Seq<char>,
    pub version: Seq<char>,
    pub platforms: Seq<Seq<char>>,
    pub summary: Option<Seq<char>>,
    pub description: Option<Seq<char>>,
    pub description_content_type: Option<Seq<char>>,
    pub keywords: Option<Seq<char>>,
    pub home_page: Option<Seq<char>>,
    pub download_url: Option<Seq<char>>,
    pub author: Option<Seq<char>>,
    pub author_email: Option<Seq<char>>,
    pub maintainer: Option<Seq<char>>,
    pub maintainer_email: Option<Seq<char>>,
    pub license: Option<Seq<char>>,
    pub classifiers: Seq<Seq<char>>,
    pub requires_dist: Seq<Seq<char>>,
    pub provides_dist: Seq<Seq<char>>,
    pub obsoletes_dist: Seq<Seq<char>>,
    pub requires_python: Option<Seq<char>>,
    pub requires_external: Seq<Seq<char>>,
    pub project_urls: Seq<Seq<char>>,
}

impl View for Metadata23 {
    type V = Metadata23View;

    open spec fn view(&self) -> Metadata23View {
        Metadata23View {
            metadata_version: self.metadata_version@,
            name: self.name@,
            version: self.version@,
            platforms: texts(self.platforms@),
            summary: opt_text(self.summary),
            description: opt_text(self.description),
            description_content_type: opt_text(self.description_content_type),
            keywords: opt_text(self.keywords),
            home_page: opt_text(self.home_page),
            download_url: opt_text(self.download_url),
            author: opt_text(self.author),
            author_email: opt_text(self.author_email),
            maintainer: opt_text(self.maintainer),
            maintainer_email: opt_text(self.maintainer_email),
            license: opt_text(self.license),
            classifiers: texts(self.classifiers@),
            requires_dist: texts(self.requires_dist@),
            provides_dist: texts(self.provides_dist@),
            obsoletes_dist: texts(self.obsoletes_dist@),
            requires_python: opt_text(self.requires_python),
            requires_external: texts(self.requires_external@),
            project_urls: texts(self.project_urls@),
        }
    }
}

/// The part of a distribution file that holds its metadata.
#[derive(Clone, Copy, Debug, PartialEq, Eq, Structural)]
pub enum MetadataSource {
    /// The `PKG-INFO` file of a gzipped tar archive.
    PkgInfo,
    /// The `METADATA` file in a wheel's `.dist-info` directory.
    WheelMetadata,
}

/// Where the metadata of a file with this name is read from. A source
/// distribution must be a `.tar.gz`: other archives can be installed, but are
/// neither built nor uploaded.
pub open spec fn metadata_source_of(filename: DistFilenameView) -> Result<
    MetadataSource,
    PublishPrepareErrorView,
> {
    match filename {
        DistFilenameView::SourceDistFilename(sdist) => if sdist.extension
            == SourceDistExtension::TarGz {
            Ok(MetadataSource::PkgInfo)
        } else {
            Err(PublishPrepareErrorView::InvalidExtension(sdist))
        },
        DistFilenameView::WheelFilename(_) => Ok(MetadataSource::WheelMetadata),
    }
}

/// A choice of source, or the reason for none, with texts as sequences of characters.
pub open spec fn source_view(source: Result<MetadataSource, PublishPrepareError>) -> Result<
    MetadataSource,
    PublishPrepareErrorView,
> {
    match source {
        Ok(source) => Ok(source),
        Err(cause) => Err(cause@),
    }
}

/// Decides from the name alone where the metadata is read from, before the
/// file is opened.
pub fn metadata_source(filename: &DistFilename) -> (source: Result<
    MetadataSource,
    PublishPrepareError,
>)
    ensures
        source_view(source) == metadata_source_of(filename@),
{
    match filename {
        DistFilename::SourceDistFilename(sdist) => {
            if sdist.extension == SourceDistExtension::TarGz {
                Ok(MetadataSource::PkgInfo)
            } else {
                Err(PublishPrepareError::InvalidExtension(sdist.duplicate()))
            }
        },
        DistFilename::WheelFilename(_) => Ok(MetadataSource::WheelMetadata),
    }
}

/// A source distribution that is no `.tar.gz` is refused for its extension,
/// whatever else its name says.
pub proof fn lemma_other_extension_is_refused(filename: DistFilenameView)
    requires
        filename is SourceDistFilename,
        filename->SourceDistFilename_0.extension != SourceDistExtension::TarGz,
    ensures
        metadata_source_of(filename) == Err::<MetadataSource, PublishPrepareErrorView>(
            PublishPrepareErrorView::InvalidExtension(filename->SourceDistFilename_0),
        ),
{
}

/// What came of looking for the raw metadata in a file.
#[derive(Debug)]
pub enum MetadataRead {
    /// The file could not be opened, or its archive not be walked.
    Failed(std::io::Error),
    /// A `PKG-INFO` entry of the archive could not be read: its path and the cause.
    EntryFailed(String, std::io::Error),
    /// The archive of a source distribution was walked to its end: the
    /// `PKG-INFO` entries one level below its top, each with its path and content.
    PkgInfos(Vec<(String, Vec<u8>)>),
    /// The wheel could not be read: the reader's own account of it.
    WheelFailed(String),
    /// The `METADATA` file of a wheel.
    Wheel(Vec<u8>),
}

/// What came of looking for the raw metadata, in plain text.
pub enum MetadataReadView {
    Failed(std::io::Error),
    EntryFailed(Seq<char>, std::io::Error),
    PkgInfos(Seq<(Seq<char>, Seq<u8>)>),
    WheelFailed(Seq<char>),
    Wheel(Seq<u8>),
}

impl View for MetadataRead {
    type V = MetadataReadView;

    open spec fn view(&self) -> MetadataReadView {
        match self {
            MetadataRead::Failed(cause) => MetadataReadView::Failed(*cause),
            MetadataRead::EntryFailed(path, cause) => MetadataReadView::EntryFailed(path@, *cause),
            MetadataRead::PkgInfos(found) => MetadataReadView::PkgInfos(found_view(found@)),
            MetadataRead::WheelFailed(message) => MetadataReadView::WheelFailed(message@),
            MetadataRead::Wheel(raw) => MetadataReadView::Wheel(raw@),
        }
    }
}

/// The raw metadata of a file, or why there is none. A file that cannot be
/// opened or walked fails with the cause, an entry that cannot be read fails
/// under its path, and a wheel that cannot be read fails with the reader's
/// account. Of the `PKG-INFO` entries of a source distribution there must be
/// exactly one.
pub open spec fn raw_metadata_of(read: MetadataReadView) -> Result<
    Seq<u8>,
    PublishPrepareErrorView,
> {
    match read {
        MetadataReadView::Failed(cause) => Err(PublishPrepareErrorView::Io(cause)),
        MetadataReadView::EntryFailed(path, cause) => Err(
            PublishPrepareErrorView::Read(path, cause),
        ),
        MetadataReadView::PkgInfos(found) => pkg_info_of(found),
        MetadataReadView::WheelFailed(message) => Err(PublishPrepareErrorView::Metadata(message)),
        MetadataReadView::Wheel(raw) => Ok(raw),
    }
}

/// Turns what came of looking for the raw metadata into the metadata or the
/// failure to get it.
pub fn raw_metadata(read: MetadataRead) -> (raw: Result<Vec<u8>, PublishPrepareError>)
    ensures
        crate::pkg_info::raw_view(raw) == raw_metadata_of(read@),
{
    match read {
        MetadataRead::Failed(cause) => Err(PublishPrepareError::Io(cause)),
        MetadataRead::EntryFailed(path, cause) => Err(PublishPrepareError::Read(path, cause)),
        MetadataRead::PkgInfos(found) => source_dist_pkg_info(found),
        MetadataRead::WheelFailed(message) => Err(PublishPrepareError::Metadata(message)),
        MetadataRead::Wheel(raw) => Ok(raw),
    }
}

} // verus!
