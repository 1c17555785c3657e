//! The course of one upload, as a machine that is told what happened outside
//! and answers with what to do next.
//!
//! Reading the file, asking the metadata parser and talking to the index are
//! the caller's part. The order of these steps, what is sent, and what each
//! outcome means are decided here.

use crate::error::{
    PublishError, PublishErrorView, PublishPrepareError, PublishPrepareErrorView, PublishSendError,
    PublishSendErrorView,
};
use crate::filename::{DistFilename, DistFilenameView};
use crate::form::{form_fields, form_metadata, form_view, Entry};
use crate::metadata::{
    metadata_source, metadata_source_of, raw_metadata, raw_metadata_of, Metadata23,
    Metadata23View, MetadataRead, MetadataReadView, MetadataSource,
};
use crate::request::{
    announcement, build_request, request_of, RegistryTarget, RegistryTargetView, UploadRequest,
    UploadRequestView,
};
use crate::response::{
    check_response_head, handle_response, head_outcome, response_outcome, ResponseHead,
    ResponseHeadView,
};
use crate::filename::SourceDistExtension;
use vstd::prelude::*;
use vstd::string::StringExecFns;

verus! {

/// One file to upload and where it goes.
#[derive(Debug)]
pub struct UploadJob {
    /// The path of the file.
    pub file: std::path::PathBuf,
    /// What the file's name says.
    pub filename: DistFilename,
    pub target: RegistryTarget,
}

/// A job as plain text.
pub struct UploadJobView {
    pub file: std::path::PathBuf,
    pub filename: DistFilenameView,
    pub target: RegistryTargetView,
}

impl View for UploadJob {
    type V = UploadJobView;

    open spec fn view(&self) -> UploadJobView {
        UploadJobView { file: self.file, filename: self.filename@, target: self.target@ }
    }
}

/// How far an upload has come.
#[derive(Debug)]
pub enum UploadState {
    /// Nothing has happened yet.
    Start,
    /// The file is being hashed.
    Hashing,
    /// The raw metadata is being read from the file.
    ReadingMetadata { digest: String },
    /// The raw metadata is being parsed.
    ParsingMetadata { digest: String },
    /// The form is ready and the file is being opened for sending.
    OpeningFile { form: Vec<(&'static str, String)> },
    /// The reporter is being told that the upload starts.
    Announcing { form: Vec<(&'static str, String)> },
    /// The request is on its way.
    Sending,
    /// The index did not answer with success and the body of its answer is being read.
    ReadingBody { head: ResponseHead },
    /// The upload has ended.
    Finished,
}

/// A state as plain text.
pub enum UploadStateView {
    Start,
    Hashing,
    ReadingMetadata { digest: Seq<char> },
    ParsingMetadata { digest: Seq<char> },
    OpeningFile { form: Seq<Entry> },
    Announcing { form: Seq<Entry> },
    Sending,
    ReadingBody { head: ResponseHeadView },
    Finished,
}

impl View for UploadState {
    type V = UploadStateView;

    open spec fn view(&self) -> UploadStateView {
        match self {
            UploadState::Start => UploadStateView::Start,
            UploadState::Hashing => UploadStateView::Hashing,
            UploadState::ReadingMetadata { digest } => UploadStateView::ReadingMetadata {
                digest: digest@,
            },
            UploadState::ParsingMetadata { digest } => UploadStateView::ParsingMetadata {
                digest: digest@,
            },
            UploadState::OpeningFile { form } => UploadStateView::OpeningFile {
                form: form_view(form@),
            },
            UploadState::Announcing { form } => UploadStateView::Announcing {
                form: form_view(form@),
            },
            UploadState::Sending => UploadStateView::Sending,
            UploadState::ReadingBody { head } => UploadStateView::ReadingBody { head: head@ },
            UploadState::Finished => UploadStateView::Finished,
        }
    }
}

/// What happened outside since the last step.
#[derive(Debug)]
pub enum UploadEvent {
    /// The upload was asked for.
    Started,
    /// The file was read through: its SHA-256 digest in hexadecimal.
    Hashed(Result<String, std::io::Error>),
    /// The raw metadata was looked for in the file.
    MetadataRead(MetadataRead),
    /// The raw metadata went through the parser: the metadata, or the
    /// parser's account of what is wrong with it.
    MetadataParsed(Result<Metadata23, String>),
    /// The file was opened for sending: its size in bytes.
    FileOpened(Result<u64, std::io::Error>),
    /// The reporter was told of the upload: the id under which it counts it.
    Announced(usize),
    /// The request was sent.
    Responded(Result<ResponseHead, reqwest_middleware::Error>),
    /// The body of the answer was read.
    BodyRead(Result<Vec<u8>, reqwest::Error>),
}

/// An event as plain text.
pub enum UploadEventView {
    Started,
    Hashed(Result<Seq<char>, std::io::Error>),
    MetadataRead(MetadataReadView),
    MetadataParsed(Result<Metadata23View, Seq<char>>),
    FileOpened(Result<u64, std::io::Error>),
    Announced(usize),
    Responded(Result<ResponseHeadView, reqwest_middleware::Error>),
    BodyRead(Result<Seq<u8>, reqwest::Error>),
}

impl View for UploadEvent {
    type V = UploadEventView;

    open spec fn view(&self) -> UploadEventView {
        match self {
            UploadEvent::Started => UploadEventView::Started,
            UploadEvent::Hashed(Ok(digest)) => UploadEventView::Hashed(Ok(digest@)),
            UploadEvent::Hashed(Err(cause)) => UploadEventView::Hashed(Err(*cause)),
            UploadEvent::MetadataRead(read) => UploadEventView::MetadataRead(read@),
            UploadEvent::MetadataParsed(Ok(metadata)) => UploadEventView::MetadataParsed(
                Ok(metadata@),
            ),
            UploadEvent::MetadataParsed(Err(message)) => UploadEventView::MetadataParsed(
                Err(message@),
            ),
            UploadEvent::FileOpened(opened) => UploadEventView::FileOpened(*opened),
            UploadEvent::Announced(id) => UploadEventView::Announced(*id),
            UploadEvent::Responded(Ok(head)) => UploadEventView::Responded(Ok(head@)),
            UploadEvent::Responded(Err(cause)) => UploadEventView::Responded(Err(*cause)),
            UploadEvent::BodyRead(Ok(body)) => UploadEventView::BodyRead(Ok(body@)),
            UploadEvent::BodyRead(Err(cause)) => UploadEventView::BodyRead(Err(*cause)),
        }
    }
}

/// What is to be done outside next.
#[derive(Debug)]
pub enum UploadAction {
    /// Read the file through and take its digest.
    HashFile,
    /// Read the raw metadata from this part of the file.
    ReadMetadata(MetadataSource),
    /// Hand these bytes to the metadata parser.
    ParseMetadata(Vec<u8>),
    /// Open the file for sending and find out its size.
    OpenFile,
    /// Tell the reporter that the upload of the file of this name and size
    /// starts, with `on_download_start`.
    Announce { name: String, size: Option<u64> },
    /// Send this request with the file as its content, and tell the reporter
    /// of every piece that goes out, under the id of the request.
    Send(UploadRequest),
    /// Read the body of the answer.
    ReadBody,
    /// Stop: `Ok(true)` if the file was newly uploaded, `Ok(false)` if the
    /// index had it already.
    Finish(Result<bool, PublishError>),
}

/// An action as plain text.
pub enum UploadActionView {
    HashFile,
    ReadMetadata(MetadataSource),
    ParseMetadata(Seq<u8>),
    OpenFile,
    Announce { name: Seq<char>, size: Option<u64> },
    Send(UploadRequestView),
    ReadBody,
    Finish(Result<bool, PublishErrorView>),
}

impl View for UploadAction {
    type V = UploadActionView;

    open spec fn view(&self) -> UploadActionView {
        match self {
            UploadAction::HashFile => UploadActionView::HashFile,
            UploadAction::ReadMetadata(source) => UploadActionView::ReadMetadata(*source),
            UploadAction::ParseMetadata(raw) => UploadActionView::ParseMetadata(raw@),
            UploadAction::OpenFile => UploadActionView::OpenFile,
            UploadAction::Announce { name, size } => UploadActionView::Announce {
                name: name@,
                size: *size,
            },
            UploadAction::Send(request) => UploadActionView::Send(request@),
            UploadAction::ReadBody => UploadActionView::ReadBody,
            UploadAction::Finish(Ok(newly_uploaded)) => UploadActionView::Finish(
                Ok(*newly_uploaded),
            ),
            UploadAction::Finish(Err(cause)) => UploadActionView::Finish(Err(cause@)),
        }
    }
}

/// The event is the answer to what the state waits for.
pub open spec fn expects(state: UploadStateView, event: UploadEventView) -> bool {
    match (state, event) {
        (UploadStateView::Start, UploadEventView::Started) => true,
        (UploadStateView::Hashing, UploadEventView::Hashed(_)) => true,
        (UploadStateView::ReadingMetadata { .. }, UploadEventView::MetadataRead(_)) => true,
        (UploadStateView::ParsingMetadata { .. }, UploadEventView::MetadataParsed(_)) => true,
        (UploadStateView::OpeningFile { .. }, UploadEventView::FileOpened(_)) => true,
        (UploadStateView::Announcing { .. }, UploadEventView::Announced(_)) => true,
        (UploadStateView::Sending, UploadEventView::Responded(_)) => true,
        (UploadStateView::ReadingBody { .. }, UploadEventView::BodyRead(_)) => true,
        _ => false,
    }
}

/// The end of an upload that could not be prepared: the failure under the file's path.
pub open spec fn prepare_failed(job: UploadJobView, cause: PublishPrepareErrorView) -> (
    UploadStateView,
    UploadActionView,
) {
    (
        UploadStateView::Finished,
        UploadActionView::Finish(Err(PublishErrorView::PublishPrepare(job.file, cause))),
    )
}

/// The end of an upload that was sent: its outcome, a failure under the
/// file's path and the index's URL.
pub open spec fn sent(job: UploadJobView, outcome: Result<bool, PublishSendErrorView>) -> (
    UploadStateView,
    UploadActionView,
) {
    (
        UploadStateView::Finished,
        UploadActionView::Finish(
            match outcome {
                Ok(newly_uploaded) => Ok(newly_uploaded),
                Err(cause) => Err(PublishErrorView::PublishSend(job.file, job.target.url, cause)),
            },
        ),
    )
}

/// One step of an upload: the state after `event` and what to do next. The
/// file is hashed first; then its metadata is read and parsed; then the form
/// is built and the file opened; then the reporter is told the file's name
/// and size; then the request is sent under the id that the reporter handed
/// out; and the body of the answer is read only where its head does not
/// settle the outcome. Nothing is said of an event that the state does not
/// wait for.
pub open spec fn upload_step(
    job: UploadJobView,
    state: UploadStateView,
    event: UploadEventView,
) -> (UploadStateView, UploadActionView) {
    match (state, event) {
        (UploadStateView::Start, UploadEventView::Started) => (
            UploadStateView::Hashing,
            UploadActionView::HashFile,
        ),
        (UploadStateView::Hashing, UploadEventView::Hashed(Err(cause))) => prepare_failed(
            job,
            PublishPrepareErrorView::Io(cause),
        ),
        (UploadStateView::Hashing, UploadEventView::Hashed(Ok(digest))) => match metadata_source_of(
            job.filename,
        ) {
            Ok(source) => (
                UploadStateView::ReadingMetadata { digest },
                UploadActionView::ReadMetadata(source),
            ),
            Err(cause) => prepare_failed(job, cause),
        },
        (
            UploadStateView::ReadingMetadata { digest },
            UploadEventView::MetadataRead(read),
        ) => match raw_metadata_of(read) {
            Ok(raw) => (
                UploadStateView::ParsingMetadata { digest },
                UploadActionView::ParseMetadata(raw),
            ),
            Err(cause) => prepare_failed(job, cause),
        },
        (
            UploadStateView::ParsingMetadata { digest },
            UploadEventView::MetadataParsed(Ok(metadata)),
        ) => (
            UploadStateView::OpeningFile { form: form_fields(digest, job.filename, metadata) },
            UploadActionView::OpenFile,
        ),
        (
            UploadStateView::ParsingMetadata { .. },
            UploadEventView::MetadataParsed(Err(message)),
        ) => prepare_failed(job, PublishPrepareErrorView::Metadata23(message)),
        (UploadStateView::OpeningFile { form }, UploadEventView::FileOpened(Ok(size))) => (
            UploadStateView::Announcing { form },
            UploadActionView::Announce { name: job.filename.text(), size: Some(size) },
        ),
        (UploadStateView::Announcing { form }, UploadEventView::Announced(id)) => (
            UploadStateView::Sending,
            UploadActionView::Send(request_of(job.target, job.filename.text(), form, id)),
        ),
        (UploadStateView::OpeningFile { .. }, UploadEventView::FileOpened(Err(cause))) => {
            prepare_failed(job, PublishPrepareErrorView::Io(cause))
        },
        (UploadStateView::Sending, UploadEventView::Responded(Err(cause))) => sent(
            job,
            Err(PublishSendErrorView::ReqwestMiddleware(cause)),
        ),
        (UploadStateView::Sending, UploadEventView::Responded(Ok(head))) => match head_outcome(
            job.target.url,
            head,
        ) {
            Some(outcome) => sent(job, outcome),
            None => (UploadStateView::ReadingBody { head }, UploadActionView::ReadBody),
        },
        (UploadStateView::ReadingBody { head }, UploadEventView::BodyRead(body)) => sent(
            job,
            response_outcome(job.target.url, head, body),
        ),
        _ => arbitrary(),
    }
}

impl UploadState {
    /// Tells whether `event` is the answer to what the state waits for.
    pub fn expects(&self, event: &UploadEvent) -> (fitting: bool)
        ensures
            fitting == expects(self@, event@),
    {
        match (self, event) {
            (UploadState::Start, UploadEvent::Started) => true,
            (UploadState::Hashing, UploadEvent::Hashed(_)) => true,
            (UploadState::ReadingMetadata { .. }, UploadEvent::MetadataRead(_)) => true,
            (UploadState::ParsingMetadata { .. }, UploadEvent::MetadataParsed(_)) => true,
            (UploadState::OpeningFile { .. }, UploadEvent::FileOpened(_)) => true,
            (UploadState::Announcing { .. }, UploadEvent::Announced(_)) => true,
            (UploadState::Sending, UploadEvent::Responded(_)) => true,
            (UploadState::ReadingBody { .. }, UploadEvent::BodyRead(_)) => true,
            _ => false,
        }
    }
}

/// Ends an upload that could not be prepared.
fn fail_prepare(job: &UploadJob, cause: PublishPrepareError) -> (next: (UploadState, UploadAction))
    ensures
        (next.0@, next.1@) == prepare_failed(job@, cause@),
{
    (
        UploadState::Finished,
        UploadAction::Finish(
            Err(PublishError::PublishPrepare(job.file.clone(), Box::new(cause))),
        ),
    )
}

/// Ends an upload that was sent.
fn finish_sent(job: &UploadJob, outcome: Result<bool, PublishSendError>) -> (next: (
    UploadState,
    UploadAction,
))
    ensures
        (next.0@, next.1@) == sent(job@, crate::response::outcome_view(outcome)),
{
    let outcome = match outcome {
        Ok(newly_uploaded) => Ok(newly_uploaded),
        Err(cause) => Err(
            PublishError::PublishSend(
                job.file.clone(),
                String::from_str(job.target.url()),
                cause,
            ),
        ),
    };
    (UploadState::Finished, UploadAction::Finish(outcome))
}

/// Takes one step of the upload of a file to an index: from the state and
/// what happened outside to the next state and what to do next. The upload
/// begins in `UploadState::Start` with `UploadEvent::Started` and has ended
/// when the action is `UploadAction::Finish`. An event that is no answer to
/// what the state waits for gives `None`.
pub fn upload(job: &UploadJob, state: UploadState, event: UploadEvent) -> (next: Option<
    (UploadState, UploadAction),
>)
    ensures
        next is Some <==> expects(state@, event@),
        next matches Some(next) ==> (next.0@, next.1@) == upload_step(job@, state@, event@),
{
    let next = match (state, event) {
        (UploadState::Start, UploadEvent::Started) => (UploadState::Hashing, UploadAction::HashFile),
        (UploadState::Hashing, UploadEvent::Hashed(Err(cause))) => fail_prepare(
            job,
            PublishPrepareError::Io(cause),
        ),
        (UploadState::Hashing, UploadEvent::Hashed(Ok(digest))) => {
            match metadata_source(&job.filename) {
                Ok(source) => (
                    UploadState::ReadingMetadata { digest },
                    UploadAction::ReadMetadata(source),
                ),
                Err(cause) => fail_prepare(job, cause),
            }
        },
        (UploadState::ReadingMetadata { digest }, UploadEvent::MetadataRead(read)) => {
            match raw_metadata(read) {
                Ok(raw) => (
                    UploadState::ParsingMetadata { digest },
                    UploadAction::ParseMetadata(raw),
                ),
                Err(cause) => fail_prepare(job, cause),
            }
        },
        (UploadState::ParsingMetadata { digest }, UploadEvent::MetadataParsed(Ok(metadata))) => {
            let form = form_metadata(digest, &job.filename, metadata);
            (UploadState::OpeningFile { form }, UploadAction::OpenFile)
        },
        (
            UploadState::ParsingMetadata { digest: _ },
            UploadEvent::MetadataParsed(Err(message)),
        ) => fail_prepare(job, PublishPrepareError::Metadata23(message)),
        (UploadState::OpeningFile { form }, UploadEvent::FileOpened(Ok(size))) => {
            let (name, size) = announcement(&job.filename, size);
            (UploadState::Announcing { form }, UploadAction::Announce { name, size })
        },
        (UploadState::Announcing { form }, UploadEvent::Announced(id)) => {
            let request = build_request(&job.filename, &job.target, form, id);
            (UploadState::Sending, UploadAction::Send(request))
        },
        (UploadState::OpeningFile { form: _ }, UploadEvent::FileOpened(Err(cause))) => {
            fail_prepare(job, PublishPrepareError::Io(cause))
        },
        (UploadState::Sending, UploadEvent::Responded(Err(cause))) => finish_sent(
            job,
            Err(PublishSendError::ReqwestMiddleware(cause)),
        ),
        (UploadState::Sending, UploadEvent::Responded(Ok(head))) => {
            match check_response_head(job.target.url(), &head) {
                Some(outcome) => finish_sent(job, outcome),
                None => (UploadState::ReadingBody { head }, UploadAction::ReadBody),
            }
        },
        (UploadState::ReadingBody { head }, UploadEvent::BodyRead(body)) => {
            let outcome = handle_response(job.target.url(), &head, body);
            finish_sent(job, outcome)
        },
        _ => {
            return None;
        },
    };
    Some(next)
}

/// An upload has ended exactly when there is nothing more to do outside:
/// the state after a step is `Finished` if and only if the action is `Finish`.
pub proof fn lemma_finish_ends(
    job: UploadJobView,
    state: UploadStateView,
    event: UploadEventView,
)
    requires
        expects(state, event),
    ensures
        upload_step(job, state, event).0 is Finished <==> upload_step(job, state, event).1 is Finish,
{
}

/// Every failure of an upload names the file, and a failure in or after
/// transport names the index as well.
pub proof fn lemma_failures_name_the_file(
    job: UploadJobView,
    state: UploadStateView,
    event: UploadEventView,
)
    requires
        expects(state, event),
    ensures
        upload_step(job, state, event).1 matches UploadActionView::Finish(Err(cause))
            ==> match cause {
            PublishErrorView::PublishPrepare(file, _) => file == job.file,
            PublishErrorView::PublishSend(file, registry, _) => file == job.file && registry
                == job.target.url,
            _ => false,
        },
{
}

/// A source distribution that is no `.tar.gz` is refused for its extension as
/// soon as the file is hashed: nobody is asked to open the archive.
pub proof fn lemma_other_extension_is_never_read(job: UploadJobView, digest: Seq<char>)
    requires
        job.filename is SourceDistFilename,
        job.filename->SourceDistFilename_0.extension != SourceDistExtension::TarGz,
    ensures
        upload_step(job, UploadStateView::Hashing, UploadEventView::Hashed(Ok(digest)))
            == prepare_failed(
            job,
            PublishPrepareErrorView::InvalidExtension(job.filename->SourceDistFilename_0),
        ),
{
}

/// An answer from another URL than the index's ends the upload with a
/// redirect error, whatever its status; its body is not asked for.
pub proof fn lemma_redirect_ends_upload(job: UploadJobView, head: ResponseHeadView)
    requires
        head.url != job.target.url,
    ensures
        upload_step(job, UploadStateView::Sending, UploadEventView::Responded(Ok(head))) == sent(
            job,
            Err(PublishSendErrorView::RedirectError(head.url)),
        ),
{
}

/// An upload in which nothing fails takes seven steps. The file is hashed,
/// its metadata read and parsed, and the file opened; the reporter is told
/// the file's name and size; then the request goes out with the form of that
/// digest and that metadata under the file's name and the reporter's id; and
/// a 2xx answer from the index's own URL ends the upload as newly uploaded.
pub proof fn lemma_successful_upload(
    job: UploadJobView,
    digest: Seq<char>,
    read: MetadataReadView,
    metadata: Metadata23View,
    size: u64,
    progress_id: usize,
    head: ResponseHeadView,
)
    requires
        metadata_source_of(job.filename) is Ok,
        raw_metadata_of(read) is Ok,
        head.url == job.target.url,
        crate::response::is_success(head.status),
    ensures
        ({
            let started = upload_step(job, UploadStateView::Start, UploadEventView::Started);
            let hashed = upload_step(job, started.0, UploadEventView::Hashed(Ok(digest)));
            let looked = upload_step(job, hashed.0, UploadEventView::MetadataRead(read));
            let parsed = upload_step(job, looked.0, UploadEventView::MetadataParsed(Ok(metadata)));
            let opened = upload_step(job, parsed.0, UploadEventView::FileOpened(Ok(size)));
            let announced = upload_step(job, opened.0, UploadEventView::Announced(progress_id));
            let answered = upload_step(job, announced.0, UploadEventView::Responded(Ok(head)));
            &&& started.1 == UploadActionView::HashFile
            &&& hashed.1 == UploadActionView::ReadMetadata(metadata_source_of(job.filename)->Ok_0)
            &&& looked.1 == UploadActionView::ParseMetadata(raw_metadata_of(read)->Ok_0)
            &&& parsed.1 == UploadActionView::OpenFile
            &&& opened.1 == (UploadActionView::Announce {
                name: job.filename.text(),
                size: Some(size),
            })
            &&& announced.1 == UploadActionView::Send(
                request_of(
                    job.target,
                    job.filename.text(),
                    form_fields(digest, job.filename, metadata),
                    progress_id,
                ),
            )
            &&& answered == (UploadStateView::Finished, UploadActionView::Finish(Ok(true)))
        }),
{
}

} // verus!
