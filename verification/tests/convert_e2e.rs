use std::cell::RefCell;
use std::io::Write;
use std::rc::Rc;
use twtar::{try_iter_twrp_backup, RawSource, TarSink, Translator, TwrpTarKind};

#[derive(Clone)]
struct SharedBuf(Rc<RefCell<Vec<u8>>>);

impl SharedBuf {
    fn new() -> SharedBuf {
        SharedBuf(Rc::new(RefCell::new(Vec::new())))
    }

    fn take(&self) -> Vec<u8> {
        self.0.borrow().clone()
    }
}

impl Write for SharedBuf {
    fn write(&mut self, buf: &[u8]) -> std::io::Result<usize> {
        self.0.borrow_mut().extend_from_slice(buf);
        Ok(buf.len())
    }

    fn flush(&mut self) -> std::io::Result<()> {
        Ok(())
    }
}

fn dir_header(path: &str) -> tar::Header {
    let mut h = tar::Header::new_gnu();
    h.set_entry_type(tar::EntryType::Directory);
    h.set_path(path).unwrap();
    h.set_size(0);
    h.set_mode(0o755);
    h.set_uid(0);
    h.set_gid(0);
    h.set_mtime(1636237042);
    h.set_cksum();
    h
}

fn file_header(path: &str, size: u64) -> tar::Header {
    let mut h = tar::Header::new_gnu();
    h.set_entry_type(tar::EntryType::Regular);
    h.set_path(path).unwrap();
    h.set_size(size);
    h.set_mode(0o644);
    h.set_uid(0);
    h.set_gid(0);
    h.set_mtime(1636237042);
    h.set_cksum();
    h
}

/// Runs the whole pipeline over the given container bytes and returns the
/// destination container bytes together with the processed count and the
/// warning flag.
fn convert(container: Vec<u8>, key: Option<&[u8]>) -> (Vec<u8>, u64, bool) {
    let out = SharedBuf::new();
    let mut translator = Translator::new(TarSink::new(out.clone()));
    let kind = try_iter_twrp_backup(RawSource::new(std::io::Cursor::new(container)), key).unwrap();
    let driven = match kind {
        TwrpTarKind::Plain(mut plain) => plain.iter_backup(&mut translator),
        TwrpTarKind::Encrypted(mut encr) => encr.iter_backup(&mut translator),
    };
    driven.unwrap();
    translator.finish().unwrap();
    (out.take(), translator.processed(), translator.warned())
}

fn read_entries(bytes: &[u8]) -> Vec<(String, tar::EntryType, u64, Vec<u8>)> {
    let mut archive = tar::Archive::new(bytes);
    let mut out = Vec::new();
    for entry in archive.entries().unwrap() {
        let mut entry = entry.unwrap();
        let path = String::from_utf8(entry.header().path_bytes().into_owned()).unwrap();
        let ty = entry.header().entry_type();
        let size = entry.header().size().unwrap();
        let mut payload = Vec::new();
        std::io::Read::read_to_end(&mut entry, &mut payload).unwrap();
        out.push((path, ty, size, payload));
    }
    out
}

#[test]
fn plain_container_is_translated_in_order() {
    let mut b = tar::Builder::new(Vec::new());
    b.append(&dir_header("dir/"), &[][..]).unwrap();
    b.append(&file_header("dir/file.txt", 5), &b"hello"[..]).unwrap();
    let src = b.into_inner().unwrap();

    let (out, processed, warned) = convert(src, None);
    let entries = read_entries(&out);
    assert_eq!(processed, 2);
    assert!(!warned);
    assert_eq!(entries.len(), 2);
    assert_eq!(entries[0].0, "dir/");
    assert_eq!(entries[0].1, tar::EntryType::Directory);
    assert_eq!(entries[0].2, 0);
    assert_eq!(entries[1].0, "dir/file.txt");
    assert_eq!(entries[1].1, tar::EntryType::Regular);
    assert_eq!(entries[1].2, 5);
    assert_eq!(entries[1].3, b"hello".to_vec());
}

#[test]
fn absolute_path_is_rewritten_and_warns() {
    let mut b = tar::Builder::new(Vec::new());
    b.append(&dir_header("dir/"), &[][..]).unwrap();
    let mut h = tar::Header::new_gnu();
    h.set_entry_type(tar::EntryType::Regular);
    h.set_path_absolute("/dir/file.txt").unwrap();
    h.set_size(5);
    h.set_mode(0o644);
    h.set_uid(0);
    h.set_gid(0);
    h.set_mtime(1636237042);
    h.set_cksum();
    b.append(&h, &b"hello"[..]).unwrap();
    let src = b.into_inner().unwrap();

    let (out, processed, warned) = convert(src, None);
    let entries = read_entries(&out);
    assert_eq!(processed, 2);
    assert!(warned, "the one-shot absolute-path warning must be triggered");
    assert_eq!(entries[1].0, "dir/file.txt");
}

#[test]
fn entry_order_is_preserved() {
    let names = ["a/", "a/x", "b/", "b/y", "c/"];
    let mut b = tar::Builder::new(Vec::new());
    for name in names {
        if name.ends_with('/') {
            b.append(&dir_header(name), &[][..]).unwrap();
        } else {
            b.append(&file_header(name, 1), &b"z"[..]).unwrap();
        }
    }
    let src = b.into_inner().unwrap();

    let (out, processed, _) = convert(src, None);
    let entries = read_entries(&out);
    assert_eq!(processed, names.len() as u64);
    let got: Vec<String> = entries.iter().map(|e| e.0.clone()).collect();
    assert_eq!(got, names.iter().map(|n| n.to_string()).collect::<Vec<String>>());
}

#[test]
fn block_device_numbers_are_copied_and_others_dropped() {
    let mut b = tar::Builder::new(Vec::new());
    let mut dev = tar::Header::new_gnu();
    dev.set_entry_type(tar::EntryType::Block);
    dev.set_path("dev/sda").unwrap();
    dev.set_size(0);
    dev.set_mode(0o660);
    dev.set_uid(0);
    dev.set_gid(0);
    dev.set_mtime(1636237042);
    dev.set_device_major(7).unwrap();
    dev.set_device_minor(9).unwrap();
    dev.set_cksum();
    b.append(&dev, &[][..]).unwrap();
    let mut reg = file_header("plain.txt", 2);
    // a spurious device number on a regular entry
    reg.set_device_major(5).unwrap();
    reg.set_device_minor(6).unwrap();
    reg.set_cksum();
    b.append(&reg, &b"ok"[..]).unwrap();
    let src = b.into_inner().unwrap();

    let (out, processed, _) = convert(src, None);
    assert_eq!(processed, 2);
    let mut archive = tar::Archive::new(&out[..]);
    let mut it = archive.entries().unwrap();
    let first = it.next().unwrap().unwrap();
    assert_eq!(first.header().entry_type(), tar::EntryType::Block);
    assert_eq!(first.header().device_major().unwrap(), Some(7));
    assert_eq!(first.header().device_minor().unwrap(), Some(9));
    let second = it.next().unwrap().unwrap();
    assert_eq!(second.header().entry_type(), tar::EntryType::Regular);
    let raw = second.header().as_gnu().unwrap();
    assert!(raw.dev_major.iter().all(|b| *b == 0), "no device major may be written");
    assert!(raw.dev_minor.iter().all(|b| *b == 0), "no device minor may be written");
}

#[test]
fn ownership_and_link_fields_survive_translation() {
    let mut b = tar::Builder::new(Vec::new());
    let mut h = tar::Header::new_gnu();
    h.set_entry_type(tar::EntryType::Symlink);
    h.set_path("here").unwrap();
    h.set_link_name("there").unwrap();
    h.set_size(0);
    h.set_mode(0o777);
    h.set_uid(1234);
    h.set_gid(4321);
    h.set_mtime(1636237042);
    h.set_username("test-user").unwrap();
    h.set_groupname("test-group").unwrap();
    h.set_cksum();
    b.append(&h, &[][..]).unwrap();
    let src = b.into_inner().unwrap();

    let (out, _, _) = convert(src, None);
    let mut archive = tar::Archive::new(&out[..]);
    let mut it = archive.entries().unwrap();
    let e = it.next().unwrap().unwrap();
    let h = e.header();
    assert_eq!(h.entry_type(), tar::EntryType::Symlink);
    assert_eq!(h.link_name_bytes().unwrap().into_owned(), b"there".to_vec());
    assert_eq!(h.mode().unwrap(), 0o777);
    assert_eq!(h.uid().unwrap(), 1234);
    assert_eq!(h.gid().unwrap(), 4321);
    assert_eq!(h.mtime().unwrap(), 1636237042);
    assert_eq!(h.username().unwrap(), Some("test-user"));
    assert_eq!(h.groupname().unwrap(), Some("test-group"));
}

#[test]
fn gzipped_container_is_decompressed_transparently() {
    let mut b = tar::Builder::new(Vec::new());
    b.append(&file_header("z.txt", 3), &b"abc"[..]).unwrap();
    let src = b.into_inner().unwrap();
    let mut enc = flate2::write::GzEncoder::new(Vec::new(), flate2::Compression::default());
    enc.write_all(&src).unwrap();
    let gz = enc.finish().unwrap();

    let (out, processed, _) = convert(gz, None);
    let entries = read_entries(&out);
    assert_eq!(processed, 1);
    assert_eq!(entries[0].0, "z.txt");
    assert_eq!(entries[0].3, b"abc".to_vec());
}

#[test]
fn encrypted_container_yields_identical_entries() {
    let mut b = tar::Builder::new(Vec::new());
    b.append(&dir_header("dir/"), &[][..]).unwrap();
    b.append(&file_header("dir/file.txt", 5), &b"hello"[..]).unwrap();
    let src = b.into_inner().unwrap();

    let key: &[u8] = b"asd";
    let mut sink = roaes::RoaesSink::new(Vec::new(), key).unwrap();
    sink.write_all(&src).unwrap();
    sink.flush().unwrap();
    let encrypted = sink.into_inner();

    let (plain_out, plain_count, _) = convert(src, None);
    let (enc_out, enc_count, _) = convert(encrypted, Some(key));
    assert_eq!(plain_count, enc_count);
    assert_eq!(read_entries(&plain_out), read_entries(&enc_out));
}
