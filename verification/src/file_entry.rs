//! Directory entries as the file browser lists them: character-sheet files
//! and directories, everything else filtered out.

use vstd::prelude::*;
use vstd::string::StrSliceExecFns;

use crate::os_string::PortableOsString;

verus! {

/// One entry of a directory listing a client may open.
#[derive(Debug)]
pub enum FileEntry {
    GCSFile(PortableOsString),
    Directory(PortableOsString),
}

/// Whether a file name carries the `.gcs` extension: it ends in `.gcs` and
/// has at least one character of stem before the dot (a bare `.gcs` is a
/// hidden file with no extension).
pub open spec fn has_gcs_extension(name: Seq<char>) -> bool {
    name.len() >= 5 && name.subrange(name.len() - 4, name.len() as int) == seq![
        '.',
        'g',
        'c',
        's',
    ]
}

/// Decides [`has_gcs_extension`] on a name's text.
fn text_has_gcs_extension(s: &str) -> (r: bool)
    ensures
        r == has_gcs_extension(s@),
{
    let ghost tail = seq!['.', 'g', 'c', 's'];
    let n = s.unicode_len();
    if n < 5 {
        return false;
    }
    let c1 = s.get_char(n - 4);
    let c2 = s.get_char(n - 3);
    let c3 = s.get_char(n - 2);
    let c4 = s.get_char(n - 1);
    let r = c1 == '.' && c2 == 'g' && c3 == 'c' && c4 == 's';
    proof {
        let sub = s@.subrange(s@.len() - 4, s@.len() as int);
        if r {
            assert(sub =~= tail);
        } else {
            if sub == tail {
                assert(sub[0] == '.' && sub[1] == 'g' && sub[2] == 'c' && sub[3] == 's');
            }
        }
    }
    r
}

/// Sorts one directory entry the way the file browser shows them: a
/// directory stays a directory, a regular file appears only if it is a
/// character-sheet (`.gcs`) file, and anything else is dropped.
pub fn classify_dir_entry(name: PortableOsString, is_dir: bool, is_file: bool) -> (r: Option<
    FileEntry,
>)
    ensures
        r == if is_dir {
            Some(FileEntry::Directory(name))
        } else if is_file && has_gcs_extension(name@.lossy_text()) {
            Some(FileEntry::GCSFile(name))
        } else {
            None::<FileEntry>
        },
{
    if is_dir {
        Some(FileEntry::Directory(name))
    } else if is_file && text_has_gcs_extension(name.to_str_lossy()) {
        Some(FileEntry::GCSFile(name))
    } else {
        None
    }
}

} // verus!
