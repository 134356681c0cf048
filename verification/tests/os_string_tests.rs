use gmtool::file_entry::{classify_dir_entry, FileEntry};
use gmtool::os_string::PortableOsString;

#[test]
fn to_str_lossy_returns_the_text() {
    let plain = PortableOsString::Undifferentiated(String::from("hello"));
    assert_eq!(plain.to_str_lossy(), "hello");

    let unix = PortableOsString::Unix {
        data: vec![0x2f, 0x74, 0x6d, 0x70],
        text: String::from("/tmp"),
    };
    assert_eq!(unix.to_str_lossy(), "/tmp");
    assert_eq!(unix.to_string_lossy(), String::from("/tmp"));

    let windows = PortableOsString::Windows {
        data: vec![0x43, 0x3a],
        text: String::from("C:"),
    };
    assert_eq!(windows.to_str_lossy(), "C:");
}

#[test]
fn equality_is_by_platform_shape_and_contents() {
    let a = PortableOsString::Undifferentiated(String::from("x"));
    let b = PortableOsString::Undifferentiated(String::from("x"));
    let c = PortableOsString::Undifferentiated(String::from("y"));
    assert_eq!(a, b);
    assert_ne!(a, c);

    let u1 = PortableOsString::Unix { data: vec![1, 2], text: String::from("x") };
    let u2 = PortableOsString::Unix { data: vec![1, 2], text: String::from("x") };
    let u3 = PortableOsString::Unix { data: vec![1, 3], text: String::from("x") };
    assert_eq!(u1, u2);
    assert_ne!(u1, u3);
    // Same text under a different platform shape is a different value.
    assert_ne!(a, u1);
}

#[test]
fn clone_preserves_the_value() {
    let u = PortableOsString::Unix { data: vec![1, 2], text: String::from("x") };
    assert_eq!(u.clone(), u);
}

#[test]
fn from_string_is_undifferentiated() {
    let p = PortableOsString::from(String::from("dir/file.gcs"));
    assert_eq!(p, PortableOsString::Undifferentiated(String::from("dir/file.gcs")));
}

#[test]
fn directories_always_list() {
    let name = PortableOsString::Undifferentiated(String::from("saves"));
    match classify_dir_entry(name.clone(), true, false) {
        Some(FileEntry::Directory(n)) => assert_eq!(n, name),
        _ => panic!("a directory must list as a directory"),
    }
}

#[test]
fn sheet_files_list_and_others_do_not() {
    let hero = PortableOsString::Undifferentiated(String::from("hero.gcs"));
    match classify_dir_entry(hero.clone(), false, true) {
        Some(FileEntry::GCSFile(n)) => assert_eq!(n, hero),
        _ => panic!("a .gcs file must list as a sheet"),
    }
    let text = PortableOsString::Undifferentiated(String::from("notes.txt"));
    assert!(classify_dir_entry(text, false, true).is_none());
    // A bare ".gcs" is a hidden file without an extension.
    let hidden = PortableOsString::Undifferentiated(String::from(".gcs"));
    assert!(classify_dir_entry(hidden, false, true).is_none());
    // Neither a directory nor a regular file: dropped.
    let odd = PortableOsString::Undifferentiated(String::from("pipe.gcs"));
    assert!(classify_dir_entry(odd, false, false).is_none());
}
