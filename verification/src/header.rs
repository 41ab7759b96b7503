use vstd::prelude::*;

verus! {

/// Kind of a container entry.
#[derive(Clone, Copy, Debug, PartialEq, Eq, Structural)]
pub enum EntryKind {
    Regular,
    Directory,
    Symlink,
    Hardlink,
    CharDevice,
    BlockDevice,
    Fifo,
    /// Any other entry type (sparse entries, extension records,
    /// vendor-specific types), carried through verbatim as its type byte.
    Other(u8),
}

/// Immutable per-entry metadata snapshot read from the source container.
/// Owner and group names are absent when the source does not carry a
/// decodable value; that absence is not an error. Device numbers are
/// meaningful only for device entries but are recorded as the source
/// presents them.
pub struct SourceHeader {
    pub path: Vec<u8>,
    pub kind: EntryKind,
    pub link_target: Option<Vec<u8>>,
    pub mode: u32,
    pub uid: u64,
    pub gid: u64,
    pub mtime: u64,
    pub username: Option<String>,
    pub groupname: Option<String>,
    pub device_major: Option<u32>,
    pub device_minor: Option<u32>,
    pub size: u64,
}

/// Mathematical model of a [`SourceHeader`].
pub ghost struct SourceHeaderView {
    pub path: Seq<u8>,
    pub kind: EntryKind,
    pub link_target: Option<Seq<u8>>,
    pub mode: u32,
    pub uid: u64,
    pub gid: u64,
    pub mtime: u64,
    pub username: Option<Seq<char>>,
    pub groupname: Option<Seq<char>>,
    pub device_major: Option<u32>,
    pub device_minor: Option<u32>,
    pub size: u64,
}

impl View for SourceHeader {
    type V = SourceHeaderView;

    open spec fn view(&self) -> SourceHeaderView {
        SourceHeaderView {
            path: self.path@,
            kind: self.kind,
            link_target: match self.link_target {
                Some(l) => Some(l@),
                None => None,
            },
            mode: self.mode,
            uid: self.uid,
            gid: self.gid,
            mtime: self.mtime,
            username: match self.username {
                Some(n) => Some(n@),
                None => None,
            },
            groupname: match self.groupname {
                Some(n) => Some(n@),
                None => None,
            },
            device_major: self.device_major,
            device_minor: self.device_minor,
            size: self.size,
        }
    }
}

/// Per-entry metadata being handed to the destination container writer.
/// Every field is set explicitly by the translation algorithm; the
/// destination's integrity checksum is computed fresh by the destination
/// format and never appears here.
pub struct DestHeader {
    pub path: Vec<u8>,
    pub kind: EntryKind,
    pub link_target: Option<Vec<u8>>,
    pub mode: u32,
    pub uid: u64,
    pub gid: u64,
    pub mtime: u64,
    pub username: Option<String>,
    pub groupname: Option<String>,
    pub device_major: Option<u32>,
    pub device_minor: Option<u32>,
    pub size: u64,
}

/// Mathematical model of a [`DestHeader`].
pub ghost struct DestHeaderView {
    pub path: Seq<u8>,
    pub kind: EntryKind,
    pub link_target: Option<Seq<u8>>,
    pub mode: u32,
    pub uid: u64,
    pub gid: u64,
    pub mtime: u64,
    pub username: Option<Seq<char>>,
    pub groupname: Option<Seq<char>>,
    pub device_major: Option<u32>,
    pub device_minor: Option<u32>,
    pub size: u64,
}

impl View for DestHeader {
    type V = DestHeaderView;

    open spec fn view(&self) -> DestHeaderView {
        DestHeaderView {
            path: self.path@,
            kind: self.kind,
            link_target: match self.link_target {
                Some(l) => Some(l@),
                None => None,
            },
            mode: self.mode,
            uid: self.uid,
            gid: self.gid,
            mtime: self.mtime,
            username: match self.username {
                Some(n) => Some(n@),
                None => None,
            },
            groupname: match self.groupname {
                Some(n) => Some(n@),
                None => None,
            },
            device_major: self.device_major,
            device_minor: self.device_minor,
            size: self.size,
        }
    }
}

} // verus!
