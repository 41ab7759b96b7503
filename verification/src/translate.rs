use vstd::prelude::*;
use crate::header::{DestHeader, DestHeaderView, EntryKind, SourceHeader, SourceHeaderView};

verus! {

/// A path is absolute when it starts with the path separator.
pub open spec fn is_absolute_path(p: Seq<u8>) -> bool {
    p.len() > 0 && p[0] == 47u8
}

/// The canonical relative form of a path: the leading path-root, however
/// many separator bytes wide, is removed.
pub open spec fn strip_path_root(p: Seq<u8>) -> Seq<u8>
    decreases p.len(),
{
    if p.len() > 0 && p[0] == 47u8 {
        strip_path_root(p.drop_first())
    } else {
        p
    }
}

/// The destination header that the translation algorithm produces for one
/// source header: entry kind, link target, permission bits, ownership,
/// modification time and declared payload size are copied verbatim; the path
/// is normalized to its relative form; device numbers are carried over only
/// for block-device entries.
pub open spec fn translated_header(h: SourceHeaderView) -> DestHeaderView {
    DestHeaderView {
        path: strip_path_root(h.path),
        kind: h.kind,
        link_target: h.link_target,
        mode: h.mode,
        uid: h.uid,
        gid: h.gid,
        mtime: h.mtime,
        username: h.username,
        groupname: h.groupname,
        device_major: if h.kind is BlockDevice { h.device_major } else { None },
        device_minor: if h.kind is BlockDevice { h.device_minor } else { None },
        size: h.size,
    }
}

/// The destination headers of a whole session, in source order.
pub open spec fn translated_session(hs: Seq<SourceHeaderView>) -> Seq<DestHeaderView> {
    hs.map(|i: int, h: SourceHeaderView| translated_header(h))
}

/// The one-shot absolute-path flag after a session that started with flag
/// `warned` has processed the headers `hs`.
pub open spec fn session_warned(hs: Seq<SourceHeaderView>, warned: bool) -> bool {
    warned || exists|i: int| 0 <= i < hs.len() && is_absolute_path(hs[i].path)
}

proof fn lemma_strip_skip(p: Seq<u8>, k: int)
    requires
        0 <= k <= p.len(),
        forall|j: int| 0 <= j < k ==> p[j] == 47u8,
    ensures
        strip_path_root(p) == strip_path_root(p.skip(k)),
    decreases k,
{
    if k > 0 {
        assert(p.len() > 0 && p[0] == 47u8);
        assert(p.drop_first() =~= p.skip(1));
        lemma_strip_skip(p.skip(1), k - 1);
        assert(p.skip(1).skip(k - 1) =~= p.skip(k));
    } else {
        assert(p.skip(0) =~= p);
    }
}

/// Rewrites a path to its canonical relative form: an absolute path loses
/// its leading path-root; an already-relative path is returned unchanged.
pub fn normalize_path(p: Vec<u8>) -> (r: Vec<u8>)
    ensures
        r@ == strip_path_root(p@),
        !is_absolute_path(p@) ==> r@ == p@,
{
    let mut i: usize = 0;
    while i < p.len() && p[i] == 47u8
        invariant
            0 <= i <= p.len(),
            forall|j: int| 0 <= j < i ==> p@[j] == 47u8,
        decreases p.len() - i,
    {
        i += 1;
    }
    proof {
        lemma_strip_skip(p@, i as int);
    }
    let mut r: Vec<u8> = Vec::new();
    let mut j: usize = i;
    while j < p.len()
        invariant
            i <= j <= p.len(),
            r@ == p@.subrange(i as int, j as int),
        decreases p.len() - j,
    {
        r.push(p[j]);
        assert(r@ =~= p@.subrange(i as int, j + 1 as int));
        j += 1;
    }
    assert(r@ =~= p@.skip(i as int));
    r
}

/// Translates one source header into a destination header and folds the
/// one-shot absolute-path flag of the running session: the flag is raised
/// when the source path is absolute and is never lowered again.
pub fn translate_header(src: SourceHeader, warning_absolute: &mut bool) -> (d: DestHeader)
    ensures
        d@ == translated_header(src@),
        *final(warning_absolute) == (*old(warning_absolute) || is_absolute_path(src@.path)),
{
    if src.path.len() > 0 && src.path[0] == 47u8 {
        *warning_absolute = true;
    }
    let device_major = if src.kind == EntryKind::BlockDevice { src.device_major } else { None };
    let device_minor = if src.kind == EntryKind::BlockDevice { src.device_minor } else { None };
    DestHeader {
        path: normalize_path(src.path),
        kind: src.kind,
        link_target: src.link_target,
        mode: src.mode,
        uid: src.uid,
        gid: src.gid,
        mtime: src.mtime,
        username: src.username,
        groupname: src.groupname,
        device_major,
        device_minor,
        size: src.size,
    }
}

/// Path normalization is idempotent, and leaves a relative path untouched:
/// the normalized form of any path is relative, so normalizing it again
/// changes nothing.
pub proof fn lemma_normalize_idempotent(p: Seq<u8>)
    ensures
        !is_absolute_path(strip_path_root(p)),
        strip_path_root(strip_path_root(p)) == strip_path_root(p),
        !is_absolute_path(p) ==> strip_path_root(p) == p,
    decreases p.len(),
{
    if p.len() > 0 && p[0] == 47u8 {
        lemma_normalize_idempotent(p.drop_first());
    }
}

/// Entry-order preservation: a session writes exactly one destination
/// header per source header, in source order, each the translation of the
/// source header at the same position.
pub proof fn lemma_session_order(hs: Seq<SourceHeaderView>)
    ensures
        translated_session(hs).len() == hs.len(),
        forall|i: int|
            0 <= i < hs.len() ==> translated_session(hs)[i] == translated_header(hs[i]),
{
}

/// The one-shot absolute-path warning fires exactly when some source path
/// in the session is absolute, no matter how many absolute paths occur, and
/// once raised it stays raised for the rest of the session.
pub proof fn lemma_session_warned(hs: Seq<SourceHeaderView>, warned: bool)
    ensures
        session_warned(hs, warned) == (warned || exists|i: int|
            0 <= i < hs.len() && is_absolute_path(hs[i].path)),
        warned ==> session_warned(hs, warned),
{
}

/// Extending a session by one entry appends exactly that entry's
/// translation to the destination sequence.
pub proof fn lemma_translated_session_push(hs: Seq<SourceHeaderView>, h: SourceHeaderView)
    ensures
        translated_session(hs.push(h)) == translated_session(hs).push(translated_header(h)),
{
    assert(translated_session(hs.push(h)) =~= translated_session(hs).push(translated_header(h)));
}

/// Extending a session by one entry raises the one-shot flag exactly when
/// it was already raised or the new entry's path is absolute.
pub proof fn lemma_session_warned_push(hs: Seq<SourceHeaderView>, h: SourceHeaderView, w: bool)
    ensures
        session_warned(hs.push(h), w) == (session_warned(hs, w) || is_absolute_path(h.path)),
{
    let pushed = hs.push(h);
    if session_warned(hs, w) {
        if !w {
            let i = choose|i: int| 0 <= i < hs.len() && is_absolute_path(hs[i].path);
            assert(is_absolute_path(pushed[i].path));
        }
    }
    if is_absolute_path(h.path) {
        assert(is_absolute_path(pushed[hs.len() as int].path));
    }
    if session_warned(pushed, w) && !w {
        let i = choose|i: int| 0 <= i < pushed.len() && is_absolute_path(pushed[i].path);
        if i < hs.len() {
            assert(is_absolute_path(hs[i].path));
        } else {
            assert(pushed[i] == h);
        }
    }
}

/// Device-number policy: a block-device entry carries the source's device
/// major and minor numbers; every other entry kind carries none, whatever
/// spurious values the source header exposes.
pub proof fn lemma_device_numbers(h: SourceHeaderView)
    ensures
        h.kind is BlockDevice ==> translated_header(h).device_major == h.device_major
            && translated_header(h).device_minor == h.device_minor,
        !(h.kind is BlockDevice) ==> translated_header(h).device_major is None
            && translated_header(h).device_minor is None,
{
}

} // verus!
