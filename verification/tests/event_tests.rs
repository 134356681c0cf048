use gmtool::event::{normalize_event, EventKind, RawEventKind};
use gmtool::os_string::PortableOsString;

fn path(text: &str) -> PortableOsString {
    PortableOsString::Undifferentiated(String::from(text))
}

#[test]
fn batch_splits_into_one_event_per_path() {
    let events = normalize_event(
        vec![path("/tmp/a.gcs"), path("/tmp/b.gcs"), path("/tmp/c.gcs")],
        RawEventKind::DataModify,
    );
    assert_eq!(events.len(), 3);
    assert_eq!(events[0].path, path("/tmp/a.gcs"));
    assert_eq!(events[1].path, path("/tmp/b.gcs"));
    assert_eq!(events[2].path, path("/tmp/c.gcs"));
    for e in &events {
        assert_eq!(e.kind, EventKind::ModifyData);
    }
}

#[test]
fn metadata_only_updates_are_filtered_out() {
    let events = normalize_event(vec![path("/tmp/a.gcs")], RawEventKind::MetadataModify);
    assert!(events.is_empty());
    let events = normalize_event(vec![path("/tmp/a.gcs")], RawEventKind::Access);
    assert!(events.is_empty());
}

#[test]
fn kinds_normalize_as_documented() {
    let p = vec![path("/tmp/a.gcs")];
    assert_eq!(normalize_event(p.clone(), RawEventKind::Create)[0].kind, EventKind::Create);
    assert_eq!(normalize_event(p.clone(), RawEventKind::RenameTo)[0].kind, EventKind::RenameTo);
    assert_eq!(normalize_event(p.clone(), RawEventKind::RenameFrom)[0].kind, EventKind::Other);
    assert_eq!(normalize_event(p.clone(), RawEventKind::Remove)[0].kind, EventKind::Other);
    assert_eq!(normalize_event(p.clone(), RawEventKind::Other)[0].kind, EventKind::Other);
}

#[test]
fn empty_batch_stays_empty() {
    let events = normalize_event(Vec::new(), RawEventKind::DataModify);
    assert!(events.is_empty());
}
