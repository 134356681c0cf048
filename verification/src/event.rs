//! Normalization of raw filesystem-watcher callbacks into the typed change
//! events the router consumes.
//!
//! A watcher callback may batch several changed paths under one event kind.
//! The normalizer turns such a batch into one [`FileChangeEvent`] per path,
//! preserving the kind, and drops kinds that are irrelevant to subscribers
//! (pure metadata updates and accesses), so that no-op notifications never
//! reach the router.

use vstd::prelude::*;

use crate::os_string::PortableOsString;

verus! {

/// The kind of a change event as a subscriber sees it.
#[derive(Clone, Copy, Debug, PartialEq, Eq, Structural)]
pub enum EventKind {
    Create,
    ModifyData,
    RenameTo,
    Other,
}

/// The kind of an event as the native watcher reports it, before
/// normalization.
#[derive(Clone, Copy, Debug, PartialEq, Eq, Structural)]
pub enum RawEventKind {
    Access,
    Create,
    DataModify,
    MetadataModify,
    RenameFrom,
    RenameTo,
    Remove,
    Other,
}

/// How a raw kind normalizes: `None` for kinds filtered out as irrelevant,
/// `Some` with the kind subscribers are told about otherwise.
pub open spec fn normalized_kind(raw: RawEventKind) -> Option<EventKind> {
    match raw {
        RawEventKind::Access => None,
        RawEventKind::MetadataModify => None,
        RawEventKind::Create => Some(EventKind::Create),
        RawEventKind::DataModify => Some(EventKind::ModifyData),
        RawEventKind::RenameTo => Some(EventKind::RenameTo),
        RawEventKind::RenameFrom => Some(EventKind::Other),
        RawEventKind::Remove => Some(EventKind::Other),
        RawEventKind::Other => Some(EventKind::Other),
    }
}

/// One normalized change: a single path together with what happened to it.
#[derive(Clone, Debug)]
pub struct FileChangeEvent {
    pub path: PortableOsString,
    pub kind: EventKind,
}

/// Splits one raw watcher callback into per-path change events.
///
/// Irrelevant kinds yield no events at all; a relevant kind yields exactly
/// one event per reported path, in the reported order, all carrying the
/// normalized kind.
pub fn normalize_event(paths: Vec<PortableOsString>, raw: RawEventKind) -> (r: Vec<
    FileChangeEvent,
>)
    ensures
        normalized_kind(raw) is None ==> r@.len() == 0,
        normalized_kind(raw) matches Some(k) ==> {
            &&& r@.len() == paths@.len()
            &&& forall|i: int|
                0 <= i < r@.len() ==> (#[trigger] r@[i]).path == paths@[i] && r@[i].kind == k
        },
{
    let kind = match raw {
        RawEventKind::Access => None,
        RawEventKind::MetadataModify => None,
        RawEventKind::Create => Some(EventKind::Create),
        RawEventKind::DataModify => Some(EventKind::ModifyData),
        RawEventKind::RenameTo => Some(EventKind::RenameTo),
        RawEventKind::RenameFrom => Some(EventKind::Other),
        RawEventKind::Remove => Some(EventKind::Other),
        RawEventKind::Other => Some(EventKind::Other),
    };
    let mut r: Vec<FileChangeEvent> = Vec::new();
    match kind {
        None => r,
        Some(k) => {
            let ghost orig = paths@;
            let mut rest = paths;
            while rest.len() > 0
                invariant
                    normalized_kind(raw) == Some(k),
                    r@.len() + rest@.len() == orig.len(),
                    rest@ == orig.subrange(r@.len() as int, orig.len() as int),
                    forall|i: int|
                        0 <= i < r@.len() ==> (#[trigger] r@[i]).path == orig[i] && r@[i].kind
                            == k,
                decreases rest@.len(),
            {
                let p = rest.remove(0);
                r.push(FileChangeEvent { path: p, kind: k });
            }
            r
        }
    }
}

} // verus!
