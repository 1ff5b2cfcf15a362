use fsops::errors::{FsError, IoAction, NotFoundKind};
use fsops::ops::{
    delete_directory_check, delete_file_check, deleted_directory_message, deleted_file_message,
    format_file_info, format_list, format_size, move_check, moved_message, tree_check,
    wrote_file_message, ListEntry,
};
use fsops::resolve::resolve_path;
use fsops::search::{format_search_results, search_tree};
use fsops::tree::{render_tree, EntryKind, TreeNode};

fn node(name: &str, kind: EntryKind, children: Vec<TreeNode>) -> TreeNode {
    TreeNode { name: name.to_string(), name_decoded: true, kind, children }
}

#[test]
fn test_resolve_plain_path_is_identity() {
    let home = "/home/user".to_string();
    let r = resolve_path("/etc/hosts", Some(&home)).unwrap();
    assert_eq!(r, "/etc/hosts");
    let r = resolve_path("relative/path", None).unwrap();
    assert_eq!(r, "relative/path");
    let r = resolve_path("", None).unwrap();
    assert_eq!(r, "");
    // A tilde not in leading position asks for no expansion.
    let r = resolve_path("dir/~file", None).unwrap();
    assert_eq!(r, "dir/~file");
}

#[test]
fn test_resolve_tilde_expansion() {
    let home = "/home/user".to_string();
    assert_eq!(resolve_path("~", Some(&home)).unwrap(), "/home/user");
    assert_eq!(resolve_path("~/sub", Some(&home)).unwrap(), "/home/user/sub");
    assert_eq!(resolve_path("~/a/b.txt", Some(&home)).unwrap(), "/home/user/a/b.txt");
    assert_eq!(resolve_path("~/", Some(&home)).unwrap(), "/home/user/");
}

#[test]
fn test_resolve_without_home_fails() {
    let err = resolve_path("~", None).unwrap_err();
    assert_eq!(err.message(), "Cannot determine home directory from $HOME");
    let err = resolve_path("~/sub", None).unwrap_err();
    assert_eq!(err.message(), "Cannot determine home directory from $HOME");
    // Only expansion consults the home value.
    assert!(resolve_path("plain", None).is_ok());
}

#[test]
fn test_delete_checks_redirect_between_operations() {
    // Deleting a directory through delete-file points at delete-directory.
    let err = delete_file_check("/tmp/d", true, true).unwrap_err();
    assert_eq!(err.message(), "'/tmp/d' is a directory, use delete-directory instead");
    // And the other way round.
    let err = delete_directory_check("/tmp/f", true, false).unwrap_err();
    assert_eq!(err.message(), "'/tmp/f' is not a directory, use delete-file instead");
    assert!(delete_file_check("/tmp/f", true, false).is_ok());
    assert!(delete_directory_check("/tmp/d", true, true).is_ok());
}

#[test]
fn test_missing_target_messages() {
    let err = delete_file_check("/tmp/f", false, false).unwrap_err();
    assert_eq!(err.message(), "File '/tmp/f' does not exist");
    let err = delete_directory_check("/tmp/d", false, false).unwrap_err();
    assert_eq!(err.message(), "Directory '/tmp/d' does not exist");
    let err = tree_check("/tmp/t", false, false).unwrap_err();
    assert_eq!(err.message(), "Path '/tmp/t' does not exist");
    let err = tree_check("/tmp/t", true, false).unwrap_err();
    assert_eq!(err.message(), "'/tmp/t' is not a directory");
    let err = move_check("/tmp/src", false).unwrap_err();
    assert_eq!(err.message(), "Source path '/tmp/src' does not exist");
    assert!(move_check("/tmp/src", true).is_ok());
}

#[test]
fn test_delete_directory_failure_hint_on_non_empty() {
    let err = FsError::Io {
        action: IoAction::DeleteDirectory,
        path: "/tmp/d".to_string(),
        detail: "Directory not empty (os error 39)".to_string(),
    };
    assert_eq!(
        err.message(),
        "Failed to delete directory '/tmp/d': Directory not empty (os error 39) \
         Remove all contents first."
    );
    // The hint hangs on the cause text, case-insensitively.
    let err = FsError::Io {
        action: IoAction::DeleteDirectory,
        path: "/tmp/d".to_string(),
        detail: "DIRECTORY NOT EMPTY".to_string(),
    };
    assert!(err.message().ends_with("Remove all contents first."));
    // Any other cause gets no hint.
    let err = FsError::Io {
        action: IoAction::DeleteDirectory,
        path: "/tmp/d".to_string(),
        detail: "Permission denied (os error 13)".to_string(),
    };
    assert_eq!(err.message(), "Failed to delete directory '/tmp/d': Permission denied (os error 13)");
}

#[test]
fn test_io_failure_messages() {
    let err = FsError::Io {
        action: IoAction::ReadFile,
        path: "/tmp/f".to_string(),
        detail: "No such file or directory (os error 2)".to_string(),
    };
    assert_eq!(
        err.message(),
        "Failed to read file '/tmp/f': No such file or directory (os error 2)"
    );
    let err = FsError::Io {
        action: IoAction::ReadDirectory,
        path: "/tmp/d".to_string(),
        detail: "x".to_string(),
    };
    assert_eq!(err.message(), "Failed to read directory '/tmp/d': x");
    let err = FsError::Io {
        action: IoAction::CreateParentDirectory,
        path: "/tmp/p".to_string(),
        detail: "x".to_string(),
    };
    assert_eq!(err.message(), "Failed to create parent directory '/tmp/p': x");
    let err = FsError::Io {
        action: IoAction::CreateDestinationParentDirectory,
        path: "/tmp/p".to_string(),
        detail: "x".to_string(),
    };
    assert_eq!(err.message(), "Failed to create destination parent directory '/tmp/p': x");
    let err = FsError::Io {
        action: IoAction::WriteFile,
        path: "/tmp/f".to_string(),
        detail: "x".to_string(),
    };
    assert_eq!(err.message(), "Failed to write to file '/tmp/f': x");
    let err = FsError::Io {
        action: IoAction::CreateDirectory,
        path: "/tmp/d".to_string(),
        detail: "x".to_string(),
    };
    assert_eq!(err.message(), "Failed to create directory '/tmp/d': x");
    let err = FsError::Io {
        action: IoAction::DeleteFile,
        path: "/tmp/f".to_string(),
        detail: "x".to_string(),
    };
    assert_eq!(err.message(), "Failed to delete file '/tmp/f': x");
    let err = FsError::Io {
        action: IoAction::BuildTree,
        path: String::new(),
        detail: "x".to_string(),
    };
    assert_eq!(err.message(), "Failed to build directory tree: x");
    let err = FsError::Io {
        action: IoAction::Search,
        path: String::new(),
        detail: "x".to_string(),
    };
    assert_eq!(err.message(), "Failed to search directory: x");
    let err = FsError::Io {
        action: IoAction::Metadata,
        path: "/tmp/f".to_string(),
        detail: "x".to_string(),
    };
    assert_eq!(err.message(), "Failed to get metadata for '/tmp/f': x");
    let err = FsError::MoveFailed {
        source: "/a".to_string(),
        destination: "/b".to_string(),
        detail: "x".to_string(),
    };
    assert_eq!(err.message(), "Failed to move '/a' to '/b': x");
    let err = FsError::NotFound { kind: NotFoundKind::Source, path: "/a".to_string() };
    assert_eq!(err.message(), "Source path '/a' does not exist");
}

#[test]
fn test_success_messages() {
    assert_eq!(wrote_file_message("/tmp/f"), "Successfully wrote to file '/tmp/f'");
    assert_eq!(moved_message("/a", "/b"), "Successfully moved '/a' to '/b'");
    assert_eq!(deleted_file_message("/tmp/f"), "Successfully deleted file '/tmp/f'");
    assert_eq!(
        deleted_directory_message("/tmp/d"),
        "Successfully deleted directory '/tmp/d'"
    );
}

#[test]
fn test_format_list_lines() {
    let entries = vec![
        ListEntry::Entry { name: "docs".to_string(), kind: EntryKind::Directory },
        ListEntry::Entry { name: "a.txt".to_string(), kind: EntryKind::File },
        ListEntry::Entry { name: "link".to_string(), kind: EntryKind::Symlink },
        ListEntry::Entry { name: "odd".to_string(), kind: EntryKind::Unknown },
        ListEntry::Unreadable { detail: "bad entry".to_string() },
    ];
    let lines = format_list(&entries);
    assert_eq!(
        lines,
        vec![
            "[DIR] docs\n".to_string(),
            "[FILE] a.txt\n".to_string(),
            "[FILE] link\n".to_string(),
            "[UNKNOWN] odd\n".to_string(),
            "Error reading entry: bad entry\n".to_string(),
        ]
    );
}

#[test]
fn test_tree_depth_zero_lists_only_immediate_children() {
    // One file and one subdirectory; the subdirectory has a grandchild
    // that must stay invisible at depth zero.
    let nodes = vec![
        node("file.txt", EntryKind::File, vec![]),
        node(
            "sub",
            EntryKind::Directory,
            vec![node("inner.txt", EntryKind::File, vec![])],
        ),
    ];
    let out = render_tree(&nodes, 0);
    assert_eq!(out, "├── file.txt\n└── [DIR] sub\n");
}

#[test]
fn test_tree_renders_sorted_with_connectors() {
    let nodes = vec![
        node("zeta", EntryKind::File, vec![]),
        node(
            "alpha",
            EntryKind::Directory,
            vec![
                node("b.txt", EntryKind::File, vec![]),
                node("a.txt", EntryKind::File, vec![]),
            ],
        ),
        node("mid", EntryKind::Unknown, vec![]),
    ];
    let out = render_tree(&nodes, 1);
    assert_eq!(
        out,
        "├── [DIR] alpha\n\
         │   ├── a.txt\n\
         │   └── b.txt\n\
         ├── [?] mid\n\
         └── zeta\n"
    );
}

#[test]
fn test_tree_undecoded_names_sort_first() {
    let mut lossy = node("b\u{FFFD}d", EntryKind::File, vec![]);
    lossy.name_decoded = false;
    let nodes = vec![node("aaa", EntryKind::File, vec![]), lossy];
    let out = render_tree(&nodes, 0);
    // An entry whose name did not decode sorts as an absent key, ahead of
    // every named entry.
    assert_eq!(out, "├── b\u{FFFD}d\n└── aaa\n");
}

#[test]
fn test_tree_deeper_levels_indent_under_last_entry() {
    let nodes = vec![node(
        "sub",
        EntryKind::Directory,
        vec![node(
            "inner",
            EntryKind::Directory,
            vec![node("leaf.txt", EntryKind::File, vec![])],
        )],
    )];
    let out = render_tree(&nodes, 2);
    assert_eq!(
        out,
        "└── [DIR] sub\n    └── [DIR] inner\n        └── leaf.txt\n"
    );
}

#[test]
fn test_search_case_insensitive_name_match() {
    let nodes = vec![
        node("foo.txt", EntryKind::File, vec![]),
        node("bar.txt", EntryKind::File, vec![]),
        node("Foobar.md", EntryKind::File, vec![]),
    ];
    let found = search_tree("/root", &nodes, "foo");
    assert_eq!(found, vec!["/root/foo.txt".to_string(), "/root/Foobar.md".to_string()]);
}

#[test]
fn test_search_recurses_and_keeps_traversal_order() {
    let nodes = vec![
        node("notes", EntryKind::Directory, vec![node("foo.log", EntryKind::File, vec![])]),
        node("foo", EntryKind::Directory, vec![node("foo.txt", EntryKind::File, vec![])]),
    ];
    let found = search_tree("/base", &nodes, "FOO");
    // A matching directory is recorded and still searched further.
    assert_eq!(
        found,
        vec![
            "/base/notes/foo.log".to_string(),
            "/base/foo".to_string(),
            "/base/foo/foo.txt".to_string(),
        ]
    );
}

#[test]
fn test_search_results_formatting() {
    let empty: Vec<String> = vec![];
    assert_eq!(
        format_search_results(&empty, "foo", "/root"),
        "No files matching pattern 'foo' found in '/root'"
    );
    let results = vec!["/a/x".to_string(), "/a/y".to_string(), "/a/z".to_string()];
    assert_eq!(format_search_results(&results, "x", "/a"), "/a/x\n/a/y\n/a/z");
    let single = vec!["/a/x".to_string()];
    assert_eq!(format_search_results(&single, "x", "/a"), "/a/x");
}

#[test]
fn test_format_size_exact_values() {
    assert_eq!(format_size(0), "0 B");
    assert_eq!(format_size(512), "512 B");
    assert_eq!(format_size(1023), "1023 B");
    assert_eq!(format_size(1024), "1.00 KB");
    assert_eq!(format_size(1536), "1.50 KB");
    assert_eq!(format_size(1176), "1.15 KB");
    // Ties round to the even hundredth, as two-decimal rendering does.
    assert_eq!(format_size(1152), "1.12 KB");
    assert_eq!(format_size(1408), "1.38 KB");
    assert_eq!(format_size(1048576), "1.00 MB");
    assert_eq!(format_size(1073741824), "1.00 GB");
    assert_eq!(format_size(1099511627776), "1.00 TB");
    // The scale is capped at terabytes.
    assert_eq!(format_size(1099511627776 * 2048), "2048.00 TB");
}

// The original scaling, kept as a floating-point reference for the
// integer implementation.
fn reference_format_size(size: u64) -> String {
    let units = ["B", "KB", "MB", "GB", "TB"];
    let mut size_f = size as f64;
    let mut unit_idx = 0;
    while size_f >= 1024.0 && unit_idx < units.len() - 1 {
        size_f /= 1024.0;
        unit_idx += 1;
    }
    if unit_idx == 0 {
        format!("{} {}", size, units[unit_idx])
    } else {
        format!("{:.2} {}", size_f, units[unit_idx])
    }
}

#[test]
fn test_format_size_matches_float_rendering() {
    let samples: Vec<u64> = vec![
        0,
        1,
        999,
        1023,
        1024,
        1025,
        1151,
        1152,
        1153,
        1407,
        1408,
        1409,
        10240,
        123456,
        1048575,
        1048576,
        5242880,
        1073741823,
        1073741824,
        123456789012,
        1099511627775,
        1099511627776,
        9999999999999999,
    ];
    for s in samples {
        assert_eq!(format_size(s), reference_format_size(s), "size {}", s);
    }
}

#[test]
fn test_format_file_info_block() {
    let block = format_file_info("/tmp/f.txt", EntryKind::File, 1536, false, Some(1700000000));
    assert_eq!(
        block,
        "Path: /tmp/f.txt\nType: File\nSize: 1.50 KB (1536 bytes)\nRead-only: no\n\
         Modified: 1700000000 seconds since epoch"
    );
    let block = format_file_info("/tmp/d", EntryKind::Directory, 160, true, None);
    assert_eq!(
        block,
        "Path: /tmp/d\nType: Directory\nSize: 160 B (160 bytes)\nRead-only: yes\nModified: Unknown"
    );
    let block = format_file_info("/tmp/l", EntryKind::Symlink, 11, false, Some(0));
    assert!(block.contains("Type: Symlink"));
    let block = format_file_info("/tmp/u", EntryKind::Unknown, 0, false, None);
    assert!(block.contains("Type: Unknown"));
}
