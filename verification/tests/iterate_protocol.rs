use twtar::header::EntryKind;
use twtar::{
    read_source_header, try_iter_twrp_backup, CallbackResult, EntryConsumer, RawSource,
    SourceEntry, TwrpTarKind, TwrptarxError,
};

/// A consumer that records every visited entry's path and can be told to
/// stop or to reject after a fixed number of entries.
struct Recorder {
    paths: Vec<Vec<u8>>,
    kinds: Vec<EntryKind>,
    stop_after: Option<usize>,
    fail_after: Option<usize>,
}

impl Recorder {
    fn new() -> Recorder {
        Recorder { paths: Vec::new(), kinds: Vec::new(), stop_after: None, fail_after: None }
    }
}

impl EntryConsumer for Recorder {
    fn on_entry(&mut self, entry: &mut SourceEntry<'_>) -> CallbackResult {
        let header = match read_source_header(entry) {
            Ok(h) => h,
            Err(_) => return CallbackResult::Error,
        };
        self.paths.push(header.path);
        self.kinds.push(header.kind);
        if self.stop_after.map_or(false, |n| self.paths.len() >= n) {
            return CallbackResult::Stop;
        }
        if self.fail_after.map_or(false, |n| self.paths.len() >= n) {
            return CallbackResult::Error;
        }
        CallbackResult::Continue
    }
}

fn sample_container(names: &[&str]) -> Vec<u8> {
    let mut b = tar::Builder::new(Vec::new());
    for name in names {
        let mut h = tar::Header::new_gnu();
        h.set_entry_type(tar::EntryType::Regular);
        h.set_path(name).unwrap();
        h.set_size(2);
        h.set_mode(0o644);
        h.set_uid(0);
        h.set_gid(0);
        h.set_mtime(1636237042);
        h.set_cksum();
        b.append(&h, &b"xy"[..]).unwrap();
    }
    b.into_inner().unwrap()
}

fn open_plain(bytes: Vec<u8>) -> twtar::TwrpTarFile {
    match try_iter_twrp_backup(RawSource::new(std::io::Cursor::new(bytes)), None).unwrap() {
        TwrpTarKind::Plain(f) => f,
        TwrpTarKind::Encrypted(_) => panic!("plain input must compose the plain branch"),
    }
}

#[test]
fn all_entries_are_visited_in_order() {
    let names = ["one", "two", "three", "four"];
    let mut file = open_plain(sample_container(&names));
    let mut rec = Recorder::new();
    file.iter_backup(&mut rec).unwrap();
    let got: Vec<Vec<u8>> = names.iter().map(|n| n.as_bytes().to_vec()).collect();
    assert_eq!(rec.paths, got);
    assert!(rec.kinds.iter().all(|k| *k == EntryKind::Regular));
}

#[test]
fn stop_terminates_early_with_success() {
    let names = ["one", "two", "three", "four", "five"];
    let mut file = open_plain(sample_container(&names));
    let mut rec = Recorder::new();
    rec.stop_after = Some(2);
    let r = file.iter_backup(&mut rec);
    assert!(r.is_ok(), "stopping early is an overall success");
    assert_eq!(rec.paths.len(), 2, "entries past the stop are never visited");
}

#[test]
fn error_signal_aborts_with_callback_error() {
    let names = ["one", "two", "three", "four"];
    let mut file = open_plain(sample_container(&names));
    let mut rec = Recorder::new();
    rec.fail_after = Some(3);
    let r = file.iter_backup(&mut rec);
    assert!(matches!(r, Err(TwrptarxError::CallBackSignalError)));
    assert_eq!(rec.paths.len(), 3);
}

#[test]
fn empty_container_visits_nothing() {
    let b = tar::Builder::new(Vec::new());
    let bytes = b.into_inner().unwrap();
    let mut file = open_plain(bytes);
    let mut rec = Recorder::new();
    file.iter_backup(&mut rec).unwrap();
    assert!(rec.paths.is_empty());
}

#[test]
fn malformed_container_reports_entry_index() {
    // 512 bytes that are not a valid header block
    let garbage = vec![1u8; 512];
    let mut file = open_plain(garbage);
    let mut rec = Recorder::new();
    let r = file.iter_backup(&mut rec);
    match r {
        Err(TwrptarxError::TIOTar { index, .. }) => assert_eq!(index, 0),
        other => panic!("expected a parse failure at entry index 0, got {:?}", other),
    }
    assert!(rec.paths.is_empty());
}
