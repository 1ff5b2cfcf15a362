//! The pure side of the filesystem operations: pre-action checks that
//! decide between proceeding and failing, the confirmation strings of the
//! mutating operations, directory-listing lines, human-scaled sizes and
//! the metadata block.

use vstd::prelude::*;
use vstd::string::StringExecFns;

use crate::errors::{FsError, NotFoundKind};
use crate::text::{digit_char, push_char, spec_decimal, spec_digit, u64_to_string};
use crate::tree::EntryKind;

verus! {

/// Allows deleting a file only when the path exists and is not a
/// directory; a directory is redirected to the directory-delete operation.
pub fn delete_file_check(path: &str, exists: bool, is_dir: bool) -> (r: Result<(), FsError>)
    ensures
        !exists ==> (r matches Err(e) && e matches FsError::NotFound { kind, path: p }
            && kind is File && p@ == path@),
        exists && is_dir ==> (r matches Err(e) && e matches FsError::IsADirectory { path: p }
            && p@ == path@),
        exists && !is_dir ==> r is Ok,
{
    if !exists {
        Err(FsError::NotFound { kind: NotFoundKind::File, path: path.to_owned() })
    } else if is_dir {
        Err(FsError::IsADirectory { path: path.to_owned() })
    } else {
        Ok(())
    }
}

/// Allows deleting a directory only when the path exists and is one; a
/// non-directory is redirected to the file-delete operation.
pub fn delete_directory_check(path: &str, exists: bool, is_dir: bool) -> (r: Result<(), FsError>)
    ensures
        !exists ==> (r matches Err(e) && e matches FsError::NotFound { kind, path: p }
            && kind is Directory && p@ == path@),
        exists && !is_dir ==> (r matches Err(e) && e matches FsError::NotADirectory {
            path: p,
            suggest_delete_file: s,
        } && s && p@ == path@),
        exists && is_dir ==> r is Ok,
{
    if !exists {
        Err(FsError::NotFound { kind: NotFoundKind::Directory, path: path.to_owned() })
    } else if !is_dir {
        Err(FsError::NotADirectory { path: path.to_owned(), suggest_delete_file: true })
    } else {
        Ok(())
    }
}

/// Allows rendering a tree only of an existing directory.
pub fn tree_check(path: &str, exists: bool, is_dir: bool) -> (r: Result<(), FsError>)
    ensures
        !exists ==> (r matches Err(e) && e matches FsError::NotFound { kind, path: p }
            && kind is Path && p@ == path@),
        exists && !is_dir ==> (r matches Err(e) && e matches FsError::NotADirectory {
            path: p,
            suggest_delete_file: s,
        } && !s && p@ == path@),
        exists && is_dir ==> r is Ok,
{
    if !exists {
        Err(FsError::NotFound { kind: NotFoundKind::Path, path: path.to_owned() })
    } else if !is_dir {
        Err(FsError::NotADirectory { path: path.to_owned(), suggest_delete_file: false })
    } else {
        Ok(())
    }
}

/// Allows a move only when the source exists.
pub fn move_check(source: &str, source_exists: bool) -> (r: Result<(), FsError>)
    ensures
        !source_exists ==> (r matches Err(e) && e matches FsError::NotFound { kind, path: p }
            && kind is Source && p@ == source@),
        source_exists ==> r is Ok,
{
    if !source_exists {
        Err(FsError::NotFound { kind: NotFoundKind::Source, path: source.to_owned() })
    } else {
        Ok(())
    }
}

/// The confirmation for a completed write.
pub fn wrote_file_message(path: &str) -> (r: String)
    ensures
        r@ == "Successfully wrote to file '"@ + path@ + "'"@,
{
    "Successfully wrote to file '".to_owned().concat(path).concat("'")
}

/// The confirmation for a created directory.
pub fn created_directory_message(path: &str) -> (r: String)
    ensures
        r@ == "Successfully created directory '"@ + path@ + "'"@,
{
    "Successfully created directory '".to_owned().concat(path).concat("'")
}

/// The confirmation for a completed move, naming both paths.
pub fn moved_message(source: &str, destination: &str) -> (r: String)
    ensures
        r@ == "Successfully moved '"@ + source@ + "' to '"@ + destination@ + "'"@,
{
    "Successfully moved '".to_owned().concat(source).concat("' to '").concat(destination).concat(
        "'",
    )
}

/// The confirmation for a deleted file.
pub fn deleted_file_message(path: &str) -> (r: String)
    ensures
        r@ == "Successfully deleted file '"@ + path@ + "'"@,
{
    "Successfully deleted file '".to_owned().concat(path).concat("'")
}

/// The confirmation for a deleted directory.
pub fn deleted_directory_message(path: &str) -> (r: String)
    ensures
        r@ == "Successfully deleted directory '"@ + path@ + "'"@,
{
    "Successfully deleted directory '".to_owned().concat(path).concat("'")
}

/// One observed directory entry, as a listing sees it: a named entry of
/// some kind, or one whose very reading failed.
pub enum ListEntry {
    Entry { name: String, kind: EntryKind },
    Unreadable { detail: String },
}

/// The listing tag of an entry kind. An entry whose type could not be
/// read is tagged unknown; anything readable that is not a directory
/// counts as a file.
pub open spec fn list_tag(kind: EntryKind) -> Seq<char> {
    match kind {
        EntryKind::Directory => "[DIR]"@,
        EntryKind::File => "[FILE]"@,
        EntryKind::Symlink => "[FILE]"@,
        EntryKind::Unknown => "[UNKNOWN]"@,
    }
}

/// The listing line of one entry, newline-terminated; a failed entry
/// becomes an inline error line instead of failing the listing.
pub open spec fn spec_list_line(e: ListEntry) -> Seq<char> {
    match e {
        ListEntry::Entry { name, kind } => list_tag(kind) + " "@ + name@ + "\n"@,
        ListEntry::Unreadable { detail } => "Error reading entry: "@ + detail@ + "\n"@,
    }
}

/// Formats directory entries as listing lines, one per entry, in order.
pub fn format_list(entries: &Vec<ListEntry>) -> (r: Vec<String>)
    ensures
        r@.map_values(|s: String| s@) == entries@.map_values(|e: ListEntry| spec_list_line(e)),
{
    let len = entries.len();
    let mut r: Vec<String> = Vec::new();
    let mut i: usize = 0;
    while i < len
        invariant
            len == entries@.len(),
            i <= len,
            r@.map_values(|s: String| s@) == entries@.subrange(0, i as int).map_values(
                |e: ListEntry| spec_list_line(e),
            ),
        decreases len - i,
    {
        let line = match &entries[i] {
            ListEntry::Entry { name, kind } => {
                let tag = match kind {
                    EntryKind::Directory => "[DIR]",
                    EntryKind::File => "[FILE]",
                    EntryKind::Symlink => "[FILE]",
                    EntryKind::Unknown => "[UNKNOWN]",
                };
                tag.to_owned().concat(" ").concat(name.as_str()).concat("\n")
            },
            ListEntry::Unreadable { detail } => "Error reading entry: ".to_owned().concat(
                detail.as_str(),
            ).concat("\n"),
        };
        proof {
            assert(line@ == spec_list_line(entries@[i as int]));
        }
        let ghost prev = r@.map_values(|s: String| s@);
        r.push(line);
        proof {
            assert(r@.map_values(|s: String| s@) =~= prev.push(line@));
            assert(entries@.subrange(0, i + 1).map_values(|e: ListEntry| spec_list_line(e))
                =~= entries@.subrange(0, i as int).map_values(|e: ListEntry| spec_list_line(e)).push(
                spec_list_line(entries@[i as int]),
            ));
        }
        i += 1;
    }
    proof {
        assert(entries@.subrange(0, len as int) =~= entries@);
    }
    r
}

/// The divisor that scales a size into its display unit: sizes below a
/// kibibyte stay in bytes, and the scale is capped at the terabyte unit.
pub open spec fn size_divisor(size: int) -> int {
    if size < 1048576 {
        1024
    } else if size < 1073741824 {
        1048576
    } else if size < 1099511627776 {
        1073741824
    } else {
        1099511627776
    }
}

/// The unit text that follows the scaled value.
pub open spec fn size_suffix(size: int) -> Seq<char> {
    if size < 1048576 {
        " KB"@
    } else if size < 1073741824 {
        " MB"@
    } else if size < 1099511627776 {
        " GB"@
    } else {
        " TB"@
    }
}

/// The scaled size in hundredths of a unit, rounded to nearest with ties
/// going to the even value, as the rendering of the exact quotient with
/// two decimals rounds it.
pub open spec fn rounded_centi(size: int, d: int) -> int {
    let t = size * 100;
    let q = t / d;
    let r = t % d;
    if 2 * r > d {
        q + 1
    } else if 2 * r < d {
        q
    } else if q % 2 == 0 {
        q
    } else {
        q + 1
    }
}

/// The human-scaled form of a byte count: bytes verbatim below a
/// kibibyte, otherwise the size scaled into its unit with two decimals.
pub open spec fn spec_format_size(size: int) -> Seq<char> {
    if size < 1024 {
        spec_decimal(size) + " B"@
    } else {
        let v = rounded_centi(size, size_divisor(size));
        spec_decimal(v / 100) + "."@ + seq![spec_digit((v % 100) / 10), spec_digit(v % 10)]
            + size_suffix(size)
    }
}

/// The scaled value in hundredths of a unit.
fn scaled_centi(size: u64, d: u64) -> (v: u64)
    requires
        1024 <= d,
    ensures
        v == rounded_centi(size as int, d as int),
{
    let t: u128 = (size as u128) * 100;
    let du: u128 = d as u128;
    let q: u128 = t / du;
    let r: u128 = t % du;
    proof {
        vstd::arithmetic::div_mod::lemma_fundamental_div_mod(t as int, du as int);
        vstd::arithmetic::mul::lemma_mul_inequality(1024, du as int, q as int);
        assert(1024 * (q as int) <= (du as int) * (q as int));
        assert(q < 0x2000000000000000);
    }
    let rounded: u128 = if 2 * r > du {
        q + 1
    } else if 2 * r < du {
        q
    } else if q % 2 == 0 {
        q
    } else {
        q + 1
    };
    rounded as u64
}

/// Renders a byte count human-scaled: below a kibibyte the bytes
/// verbatim, otherwise the value scaled into its unit (capped at
/// terabytes) with exactly two decimals, ties rounded to even.
pub fn format_size(size: u64) -> (r: String)
    ensures
        r@ == spec_format_size(size as int),
{
    if size < 1024 {
        let mut s = u64_to_string(size);
        s.append(" B");
        return s;
    }
    let d: u64 = if size < 1048576 {
        1024
    } else if size < 1073741824 {
        1048576
    } else if size < 1099511627776 {
        1073741824
    } else {
        1099511627776
    };
    let v = scaled_centi(size, d);
    let mut s = u64_to_string(v / 100);
    push_char(&mut s, '.');
    proof {
        reveal_strlit(".");
        assert("."@ =~= seq!['.']);
    }
    push_char(&mut s, digit_char((v % 100) / 10));
    push_char(&mut s, digit_char(v % 10));
    proof {
        assert((v % 100) % 10 == v % 10);
    }
    s.append(
        if size < 1048576 {
            " KB"
        } else if size < 1073741824 {
            " MB"
        } else if size < 1099511627776 {
            " GB"
        } else {
            " TB"
        },
    );
    proof {
        assert(s@ =~= spec_format_size(size as int));
    }
    s
}

/// The type word of the metadata block.
pub open spec fn kind_name(kind: EntryKind) -> Seq<char> {
    match kind {
        EntryKind::Directory => "Directory"@,
        EntryKind::File => "File"@,
        EntryKind::Symlink => "Symlink"@,
        EntryKind::Unknown => "Unknown"@,
    }
}

/// The modification-time text: seconds since the epoch when known.
pub open spec fn spec_modified_text(modified: Option<u64>) -> Seq<char> {
    match modified {
        Some(m) => spec_decimal(m as int) + " seconds since epoch"@,
        None => "Unknown"@,
    }
}

/// The whole metadata block of one path.
pub open spec fn spec_file_info(
    path: Seq<char>,
    kind: EntryKind,
    size: int,
    readonly: bool,
    modified: Option<u64>,
) -> Seq<char> {
    "Path: "@ + path + "\nType: "@ + kind_name(kind) + "\nSize: "@ + spec_format_size(size) + " ("@
        + spec_decimal(size) + " bytes)\nRead-only: "@ + (if readonly {
        "yes"@
    } else {
        "no"@
    }) + "\nModified: "@ + spec_modified_text(modified)
}

/// Formats the metadata block: path, type word, human-scaled size with
/// the raw byte count, read-only flag and modification time.
pub fn format_file_info(
    path: &str,
    kind: EntryKind,
    size: u64,
    readonly: bool,
    modified: Option<u64>,
) -> (r: String)
    ensures
        r@ == spec_file_info(path@, kind, size as int, readonly, modified),
{
    let mut s = "Path: ".to_owned();
    s.append(path);
    s.append("\nType: ");
    s.append(
        match kind {
            EntryKind::Directory => "Directory",
            EntryKind::File => "File",
            EntryKind::Symlink => "Symlink",
            EntryKind::Unknown => "Unknown",
        },
    );
    s.append("\nSize: ");
    let scaled = format_size(size);
    s.append(scaled.as_str());
    s.append(" (");
    let raw = u64_to_string(size);
    s.append(raw.as_str());
    s.append(" bytes)\nRead-only: ");
    s.append(if readonly { "yes" } else { "no" });
    s.append("\nModified: ");
    match modified {
        Some(m) => {
            let t = u64_to_string(m);
            s.append(t.as_str());
            s.append(" seconds since epoch");
        },
        None => {
            s.append("Unknown");
        },
    }
    proof {
        assert(s@ =~= spec_file_info(path@, kind, size as int, readonly, modified));
    }
    s
}

} // verus!
