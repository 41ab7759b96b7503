use vstd::prelude::*;
use crate::errors::TwrptarxError;
use crate::header::{DestHeader, DestHeaderView, EntryKind, SourceHeader, SourceHeaderView};
use crate::iterate::{CallbackResult, EntryConsumer, SourceEntry};
use crate::translate::{
    is_absolute_path, lemma_session_warned_push, lemma_translated_session_push, session_warned,
    translate_header, translated_session,
};

verus! {

#[verifier::external_type_specification]
#[verifier::external_body]
pub struct ExTarHeader(tar::Header);

/// Relies on tar::Entry::header: a view of the entry's already-parsed
/// header block.
#[verifier::external_body]
fn entry_header<'a>(entry: &'a SourceEntry<'_>) -> (r: &'a tar::Header) {
    entry.inner.header()
}

/// Relies on tar::Header::entry_type: the entry's type byte, mapped onto
/// the library's kinds; any type byte without a kind of its own is carried
/// verbatim.
#[verifier::external_body]
fn header_kind(h: &tar::Header) -> (r: EntryKind) {
    match h.entry_type() {
        tar::EntryType::Regular => EntryKind::Regular,
        tar::EntryType::Directory => EntryKind::Directory,
        tar::EntryType::Symlink => EntryKind::Symlink,
        tar::EntryType::Link => EntryKind::Hardlink,
        tar::EntryType::Char => EntryKind::CharDevice,
        tar::EntryType::Block => EntryKind::BlockDevice,
        tar::EntryType::Fifo => EntryKind::Fifo,
        other => EntryKind::Other(other.as_byte()),
    }
}

/// Relies on tar::Header::path_bytes: the entry path as raw bytes, with a
/// ustar prefix joined in where one is present.
#[verifier::external_body]
fn header_path(h: &tar::Header) -> (r: Vec<u8>) {
    h.path_bytes().into_owned()
}

/// Relies on tar::Header::link_name_bytes: the link target as raw bytes,
/// absent for entries that carry none.
#[verifier::external_body]
fn header_link(h: &tar::Header) -> (r: Option<Vec<u8>>) {
    h.link_name_bytes().map(|c| c.into_owned())
}

/// Relies on tar::Header::mode: the permission bits, or a description of
/// the malformed octal field.
#[verifier::external_body]
fn header_mode(h: &tar::Header) -> (r: Result<u32, String>) {
    h.mode().map_err(|e| format!("unable to read mode field: {}", e))
}

/// Relies on tar::Header::uid: the numeric owner id, or a description of
/// the malformed field.
#[verifier::external_body]
fn header_uid(h: &tar::Header) -> (r: Result<u64, String>) {
    h.uid().map_err(|e| format!("unable to read uid field: {}", e))
}

/// Relies on tar::Header::gid: the numeric group id, or a description of
/// the malformed field.
#[verifier::external_body]
fn header_gid(h: &tar::Header) -> (r: Result<u64, String>) {
    h.gid().map_err(|e| format!("unable to read gid field: {}", e))
}

/// Relies on tar::Header::mtime: the modification time, or a description
/// of the malformed field.
#[verifier::external_body]
fn header_mtime(h: &tar::Header) -> (r: Result<u64, String>) {
    h.mtime().map_err(|e| format!("unable to read mtime field: {}", e))
}

/// Relies on tar::Header::size: the declared payload size, or a
/// description of the malformed field.
#[verifier::external_body]
fn header_size(h: &tar::Header) -> (r: Result<u64, String>) {
    h.size().map_err(|e| format!("unable to read size field: {}", e))
}

/// Relies on tar::Header::username: the owner name where the source
/// carries a UTF-8 decodable one; an absent or undecodable name reads as
/// unset, which is not an error.
#[verifier::external_body]
fn header_username(h: &tar::Header) -> (r: Option<String>) {
    match h.username() {
        Ok(name) => name.map(|s| s.to_owned()),
        Err(_) => None,
    }
}

/// Relies on tar::Header::groupname: the group name where the source
/// carries a UTF-8 decodable one; an absent or undecodable name reads as
/// unset, which is not an error.
#[verifier::external_body]
fn header_groupname(h: &tar::Header) -> (r: Option<String>) {
    match h.groupname() {
        Ok(name) => name.map(|s| s.to_owned()),
        Err(_) => None,
    }
}

/// Relies on tar::Header::device_major: the device major number where the
/// header format carries one, or a description of the malformed field.
#[verifier::external_body]
fn header_device_major(h: &tar::Header) -> (r: Result<Option<u32>, String>) {
    h.device_major().map_err(|e| format!("unable to read device major field: {}", e))
}

/// Relies on tar::Header::device_minor: the device minor number where the
/// header format carries one, or a description of the malformed field.
#[verifier::external_body]
fn header_device_minor(h: &tar::Header) -> (r: Result<Option<u32>, String>) {
    h.device_minor().map_err(|e| format!("unable to read device minor field: {}", e))
}

/// Reads every field the translation consumes out of one parsed entry's
/// header into a plain metadata snapshot. A malformed numeric field is an
/// I/O-classified failure; an absent or undecodable owner or group name is
/// not.
pub fn read_source_header(entry: &SourceEntry<'_>) -> (r: Result<SourceHeader, TwrptarxError>)
    ensures
        r matches Err(e) ==> e is TIO,
        r matches Ok(h) ==> (!(h@.kind is BlockDevice) ==> h@.device_major is None
            && h@.device_minor is None),
{
    let h = entry_header(entry);
    let mode = match header_mode(h) {
        Ok(v) => v,
        Err(desc) => {
            return Err(TwrptarxError::TIO { desc });
        },
    };
    let uid = match header_uid(h) {
        Ok(v) => v,
        Err(desc) => {
            return Err(TwrptarxError::TIO { desc });
        },
    };
    let gid = match header_gid(h) {
        Ok(v) => v,
        Err(desc) => {
            return Err(TwrptarxError::TIO { desc });
        },
    };
    let mtime = match header_mtime(h) {
        Ok(v) => v,
        Err(desc) => {
            return Err(TwrptarxError::TIO { desc });
        },
    };
    let size = match header_size(h) {
        Ok(v) => v,
        Err(desc) => {
            return Err(TwrptarxError::TIO { desc });
        },
    };
    let kind = header_kind(h);
    let device_major = if kind == EntryKind::BlockDevice {
        match header_device_major(h) {
            Ok(v) => v,
            Err(desc) => {
                return Err(TwrptarxError::TIO { desc });
            },
        }
    } else {
        // Only block devices carry meaningful device numbers; other kinds
        // often hold an empty field that does not even parse.
        None
    };
    let device_minor = if kind == EntryKind::BlockDevice {
        match header_device_minor(h) {
            Ok(v) => v,
            Err(desc) => {
                return Err(TwrptarxError::TIO { desc });
            },
        }
    } else {
        None
    };
    Ok(
        SourceHeader {
            path: header_path(h),
            kind,
            link_target: header_link(h),
            mode,
            uid,
            gid,
            mtime,
            username: header_username(h),
            groupname: header_groupname(h),
            device_major,
            device_minor,
            size,
        },
    )
}

/// Relies on tar::Header::new_gnu: a fresh, zeroed GNU-format header.
#[verifier::external_body]
fn new_gnu_header() -> (r: tar::Header) {
    tar::Header::new_gnu()
}

/// Relies on tar::Header::set_entry_type: writes the type byte matching
/// the given kind.
#[verifier::external_body]
fn set_header_kind(h: &mut tar::Header, kind: EntryKind) {
    h.set_entry_type(
        match kind {
            EntryKind::Regular => tar::EntryType::Regular,
            EntryKind::Directory => tar::EntryType::Directory,
            EntryKind::Symlink => tar::EntryType::Symlink,
            EntryKind::Hardlink => tar::EntryType::Link,
            EntryKind::CharDevice => tar::EntryType::Char,
            EntryKind::BlockDevice => tar::EntryType::Block,
            EntryKind::Fifo => tar::EntryType::Fifo,
            EntryKind::Other(b) => tar::EntryType::new(b),
        },
    );
}

/// Relies on tar::Header::set_path: writes the entry path; a path that is
/// not UTF-8 decodable, is absolute, or does not fit the format's name
/// field is reported as a descriptive error.
#[verifier::external_body]
fn set_header_path(h: &mut tar::Header, path: &Vec<u8>) -> (r: Result<(), String>) {
    match String::from_utf8(path.clone()) {
        Ok(s) => h.set_path(s.as_str()).map_err(|e| format!("unable to write path field: {}", e)),
        Err(e) => Err(format!("unable to decode path as UTF-8: {}", e)),
    }
}

/// Relies on tar::Header::set_link_name: writes the link target; a target
/// that is not UTF-8 decodable or does not fit is reported as a
/// descriptive error.
#[verifier::external_body]
fn set_header_link(h: &mut tar::Header, link: &Vec<u8>) -> (r: Result<(), String>) {
    match String::from_utf8(link.clone()) {
        Ok(s) => h.set_link_name(s.as_str()).map_err(
            |e| format!("unable to write link name field: {}", e),
        ),
        Err(e) => Err(format!("unable to decode link name as UTF-8: {}", e)),
    }
}

/// Relies on tar::Header::set_mode.
#[verifier::external_body]
fn set_header_mode(h: &mut tar::Header, mode: u32) {
    h.set_mode(mode);
}

/// Relies on tar::Header::set_uid.
#[verifier::external_body]
fn set_header_uid(h: &mut tar::Header, uid: u64) {
    h.set_uid(uid);
}

/// Relies on tar::Header::set_gid.
#[verifier::external_body]
fn set_header_gid(h: &mut tar::Header, gid: u64) {
    h.set_gid(gid);
}

/// Relies on tar::Header::set_mtime.
#[verifier::external_body]
fn set_header_mtime(h: &mut tar::Header, mtime: u64) {
    h.set_mtime(mtime);
}

/// Relies on tar::Header::set_username: writes the owner name; a name the
/// format cannot hold is reported as a descriptive error.
#[verifier::external_body]
fn set_header_username(h: &mut tar::Header, name: &String) -> (r: Result<(), String>) {
    h.set_username(name.as_str()).map_err(|e| format!("unable to write owner name field: {}", e))
}

/// Relies on tar::Header::set_groupname: writes the group name; a name the
/// format cannot hold is reported as a descriptive error.
#[verifier::external_body]
fn set_header_groupname(h: &mut tar::Header, name: &String) -> (r: Result<(), String>) {
    h.set_groupname(name.as_str()).map_err(|e| format!("unable to write group name field: {}", e))
}

/// Relies on tar::Header::set_device_major: writes the device major
/// number; a header format without the field is reported as a descriptive
/// error.
#[verifier::external_body]
fn set_header_device_major(h: &mut tar::Header, major: u32) -> (r: Result<(), String>) {
    h.set_device_major(major).map_err(|e| format!("unable to write device major field: {}", e))
}

/// Relies on tar::Header::set_device_minor: writes the device minor
/// number; a header format without the field is reported as a descriptive
/// error.
#[verifier::external_body]
fn set_header_device_minor(h: &mut tar::Header, minor: u32) -> (r: Result<(), String>) {
    h.set_device_minor(minor).map_err(|e| format!("unable to write device minor field: {}", e))
}

/// Relies on tar::Header::set_size.
#[verifier::external_body]
fn set_header_size(h: &mut tar::Header, size: u64) {
    h.set_size(size);
}

/// Relies on tar::Header::set_cksum: computes the integrity checksum fresh
/// from the finalized header fields.
#[verifier::external_body]
fn set_header_cksum(h: &mut tar::Header) {
    h.set_cksum();
}

/// Serializes a destination metadata record into a raw destination-format
/// header: every field is written explicitly, and the integrity checksum is
/// computed fresh, last, by the destination format itself.
fn build_raw_header(d: &DestHeader) -> (r: Result<tar::Header, TwrptarxError>)
    ensures
        r matches Err(e) ==> e is TIO,
{
    let mut h = new_gnu_header();
    set_header_kind(&mut h, d.kind);
    if let Some(link) = &d.link_target {
        if let Err(desc) = set_header_link(&mut h, link) {
            return Err(TwrptarxError::TIO { desc });
        }
    }
    set_header_mode(&mut h, d.mode);
    set_header_uid(&mut h, d.uid);
    set_header_gid(&mut h, d.gid);
    set_header_mtime(&mut h, d.mtime);
    if let Some(name) = &d.username {
        if let Err(desc) = set_header_username(&mut h, name) {
            return Err(TwrptarxError::TIO { desc });
        }
    }
    if let Some(name) = &d.groupname {
        if let Err(desc) = set_header_groupname(&mut h, name) {
            return Err(TwrptarxError::TIO { desc });
        }
    }
    if let Some(major) = d.device_major {
        if let Err(desc) = set_header_device_major(&mut h, major) {
            return Err(TwrptarxError::TIO { desc });
        }
    }
    if let Some(minor) = d.device_minor {
        if let Err(desc) = set_header_device_minor(&mut h, minor) {
            return Err(TwrptarxError::TIO { desc });
        }
    }
    if let Err(desc) = set_header_path(&mut h, &d.path) {
        return Err(TwrptarxError::TIO { desc });
    }
    set_header_size(&mut h, d.size);
    set_header_cksum(&mut h);
    Ok(h)
}

/// The destination container being written: a destination-format builder
/// over an erased output byte sink.
#[verifier::external_body]
pub struct TarSink {
    inner: tar::Builder<Box<dyn std::io::Write>>,
}

impl TarSink {
    /// Erases any writer into the destination sink. The value is only
    /// carried, never inspected, so nothing is assumed of it.
    #[verifier::external_body]
    pub fn new<W: std::io::Write + 'static>(inner: W) -> (r: TarSink) {
        TarSink { inner: tar::Builder::new(Box::new(inner)) }
    }
}

/// Relies on tar::Builder::append: serializes one record from the raw
/// header and streams the payload through unmodified, byte for byte, for
/// exactly the declared size.
#[verifier::external_body]
fn append_record(sink: &mut TarSink, h: &tar::Header, payload: &mut SourceEntry<'_>) -> (r: Result<
    (),
    String,
>) {
    sink.inner.append(h, &mut payload.inner).map_err(|e| format!("unable to append entry: {}", e))
}

/// Relies on tar::Builder::finish: terminates the destination container
/// with its canonical end-of-archive marker and flushes the sink.
#[verifier::external_body]
fn sink_finish(sink: &mut TarSink) -> (r: Result<(), String>) {
    sink.inner.finish().map_err(|e| format!("unable to finish writing tar archive: {}", e))
}

/// Transfers one entry: reads the source metadata, translates it, writes
/// the translated record and the entry's payload to the destination, and
/// advances the session state. On success the running counter grows by
/// exactly one and the one-shot absolute-path flag folds in the source
/// path; on failure both are left untouched and the failure is
/// I/O-classified. The returned ghost value names the source metadata the
/// translation consumed.
pub fn transfer_entry(
    entry: &mut SourceEntry<'_>,
    sink: &mut TarSink,
    warning_absolute: &mut bool,
    counter: &mut u64,
) -> (r: Result<Ghost<SourceHeaderView>, TwrptarxError>)
    requires
        *old(counter) < u64::MAX,
    ensures
        r matches Ok(g) ==> *final(counter) == *old(counter) + 1 && *final(warning_absolute) == (
        *old(warning_absolute) || is_absolute_path(g@.path)),
        r matches Err(e) ==> *final(counter) == *old(counter) && *final(warning_absolute) == *old(
            warning_absolute,
        ) && e is TIO,
{
    let src = match read_source_header(entry) {
        Ok(h) => h,
        Err(e) => {
            return Err(e);
        },
    };
    let ghost src_view = src@;
    let mut warned = *warning_absolute;
    let dest = translate_header(src, &mut warned);
    let raw = match build_raw_header(&dest) {
        Ok(h) => h,
        Err(e) => {
            return Err(e);
        },
    };
    match append_record(sink, &raw, entry) {
        Ok(()) => {
            *warning_absolute = warned;
            *counter = *counter + 1;
            Ok(Ghost(src_view))
        },
        Err(desc) => Err(TwrptarxError::TIO { desc }),
    }
}

/// The consumer that performs the whole conversion: it translates every
/// visited entry and appends it to the destination container, maintaining
/// the session's running counter and one-shot absolute-path flag. It never
/// asks to stop early; an entry it cannot transfer makes it signal `Error`.
pub struct Translator {
    sink: TarSink,
    counter: u64,
    warning_absolute: bool,
    sources: Ghost<Seq<SourceHeaderView>>,
    signals: Ghost<Seq<CallbackResult>>,
}

impl Translator {
    /// The source metadata of the entries written so far, in source order.
    pub closed spec fn translated(&self) -> Seq<SourceHeaderView> {
        self.sources@
    }

    /// The destination metadata of the entries written so far: exactly the
    /// translation of the sources, in the same order.
    pub closed spec fn written(&self) -> Seq<DestHeaderView> {
        translated_session(self.sources@)
    }

    /// Starts a fresh session over the given destination sink: nothing
    /// written, counter at zero, warning flag down.
    pub fn new(sink: TarSink) -> (t: Translator)
        ensures
            t.wf(),
            t.translated() == Seq::<SourceHeaderView>::empty(),
            t.log() == Seq::<CallbackResult>::empty(),
    {
        Translator {
            sink,
            counter: 0,
            warning_absolute: false,
            sources: Ghost(Seq::empty()),
            signals: Ghost(Seq::empty()),
        }
    }

    /// The running processed-entry count: the number of entries that have
    /// reached write time.
    pub fn processed(&self) -> (n: u64)
        ensures
            self.wf() ==> n as nat == self.translated().len(),
    {
        self.counter
    }

    /// Whether the one-shot absolute-path warning has been triggered: true
    /// exactly when some translated entry had an absolute source path.
    pub fn warned(&self) -> (w: bool)
        ensures
            self.wf() ==> w == session_warned(self.translated(), false),
    {
        self.warning_absolute
    }

    /// Finalizes the destination container. The session record is left
    /// untouched, so the counts and the warning flag stay readable.
    pub fn finish(&mut self) -> (r: Result<(), TwrptarxError>)
        ensures
            final(self).translated() == old(self).translated(),
            final(self).log() == old(self).log(),
            old(self).wf() ==> final(self).wf(),
            r matches Err(e) ==> e is TIO,
    {
        match sink_finish(&mut self.sink) {
            Ok(()) => Ok(()),
            Err(desc) => Err(TwrptarxError::TIO { desc }),
        }
    }
}

/// What the translator writes is exactly the translation of what it
/// consumed: one destination header per source header, in source order,
/// each the per-entry translation of its source.
pub proof fn lemma_translator_written(t: &Translator)
    ensures
        t.written() == translated_session(t.translated()),
        t.written().len() == t.translated().len(),
        forall|i: int|
            0 <= i < t.translated().len() ==> t.written()[i] == crate::translate::translated_header(
                t.translated()[i],
            ),
{
}

impl EntryConsumer for Translator {
    closed spec fn log(&self) -> Seq<CallbackResult> {
        self.signals@
    }

    closed spec fn wf(&self) -> bool {
        &&& self.counter as nat == self.sources@.len()
        &&& self.warning_absolute == session_warned(self.sources@, false)
    }

    fn on_entry(&mut self, entry: &mut SourceEntry<'_>) -> (r: CallbackResult)
        ensures
            r is Continue ==> final(self).translated().len() == old(self).translated().len() + 1
                && final(self).translated().take(old(self).translated().len() as int) == old(
                self,
            ).translated(),
            !(r is Continue) ==> final(self).translated() == old(self).translated(),
            !(r is Stop),
    {
        if self.counter == u64::MAX {
            proof {
                self.signals@ = self.signals@.push(CallbackResult::Error);
            }
            return CallbackResult::Error;
        }
        match transfer_entry(entry, &mut self.sink, &mut self.warning_absolute, &mut self.counter) {
            Ok(g) => {
                proof {
                    lemma_session_warned_push(self.sources@, g@, false);
                    lemma_translated_session_push(self.sources@, g@);
                    self.sources@ = self.sources@.push(g@);
                    self.signals@ = self.signals@.push(CallbackResult::Continue);
                }
                CallbackResult::Continue
            },
            Err(_) => {
                proof {
                    self.signals@ = self.signals@.push(CallbackResult::Error);
                }
                CallbackResult::Error
            },
        }
    }
}

} // verus!
