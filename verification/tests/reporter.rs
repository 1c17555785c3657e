use std::sync::atomic::{AtomicU64, AtomicUsize, Ordering};
use uv_publish::{report_read, Reporter};

struct Tally {
    id: AtomicUsize,
    bytes: AtomicU64,
}

impl Reporter for Tally {
    fn on_progress(&self, _name: &str, _id: usize) {}

    fn on_download_start(&self, _name: &str, _size: Option<u64>) -> usize {
        0
    }

    fn on_download_progress(&self, id: usize, inc: u64) {
        self.id.store(id, Ordering::SeqCst);
        self.bytes.fetch_add(inc, Ordering::SeqCst);
    }

    fn on_download_complete(&self) {}
}

#[test]
fn each_read_is_reported_under_the_upload_id() {
    let tally = Tally {
        id: AtomicUsize::new(0),
        bytes: AtomicU64::new(0),
    };
    report_read(&tally, 3, 10);
    report_read(&tally, 3, 0);
    report_read(&tally, 3, 4086);
    assert_eq!(tally.id.load(Ordering::SeqCst), 3);
    assert_eq!(tally.bytes.load(Ordering::SeqCst), 4096);
}
