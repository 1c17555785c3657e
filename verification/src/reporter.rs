//! The collaborator that is told how an upload proceeds.

use vstd::prelude::*;

verus! {

/// Receives the progress of uploads. An upload is announced with
/// `on_download_start`, which hands out the id under which
/// `on_download_progress` then counts its bytes.
pub trait Reporter: Send + Sync + 'static {
    fn on_progress(&self, name: &str, id: usize);

    fn on_download_start(&self, name: &str, size: Option<u64>) -> usize;

    fn on_download_progress(&self, id: usize, inc: u64);

    fn on_download_complete(&self);
}

/// Tells the reporter that `read` more bytes of the upload `id` went out.
pub fn report_read<R: Reporter>(reporter: &R, id: usize, read: usize) {
    reporter.on_download_progress(id, read as u64);
}

} // verus!
