use filepicker::{get_dir_content, parent_dir, ChildReading, Content, ContentData, DirReading};

fn found(path: &str, is_file: bool, byte_len: Option<u64>) -> ChildReading {
    ChildReading::Found { path: path.to_string(), is_file, byte_len }
}

fn data(row: &Content) -> &ContentData {
    match row {
        Content::File(d) | Content::Directory(d) => d,
        Content::Corrupt => panic!("a placeholder carries no data"),
    }
}

#[test]
fn parent_dir_drops_the_last_component() {
    assert_eq!(parent_dir("/tmp/a"), "/tmp");
    assert_eq!(parent_dir("/tmp/a/x.txt"), "/tmp/a");
    assert_eq!(parent_dir("/tmp"), "/");
}

#[test]
fn parent_dir_of_root_is_root() {
    assert_eq!(parent_dir("/"), "/");
}

#[test]
fn parent_dir_of_single_relative_name_is_empty() {
    assert_eq!(parent_dir("notes"), "");
    assert_eq!(parent_dir(""), "");
}

#[test]
fn new_names_entry_by_last_component() {
    let d = ContentData::new("/tmp/a/x".to_string(), false, Some(10240));
    assert!(!d.is_parent);
    assert_eq!(d.path, "/tmp/a/x");
    assert_eq!(d.name, "x");
    assert_eq!(d.size, 10);
}

#[test]
fn new_names_parent_link_with_two_dots() {
    let d = ContentData::new("/tmp".to_string(), true, Some(4096));
    assert!(d.is_parent);
    assert_eq!(d.path, "/tmp");
    assert_eq!(d.name, "..");
    assert_eq!(d.size, 4);
}

#[test]
fn new_parent_link_needs_no_name() {
    let d = ContentData::new("/".to_string(), true, None);
    assert!(d.is_parent);
    assert_eq!(d.path, "/");
    assert_eq!(d.name, "..");
    assert_eq!(d.size, 0);
}

#[test]
fn size_is_whole_kilobytes_rounded_down() {
    assert_eq!(ContentData::new("/f".to_string(), false, Some(0)).size, 0);
    assert_eq!(ContentData::new("/f".to_string(), false, Some(1023)).size, 0);
    assert_eq!(ContentData::new("/f".to_string(), false, Some(1024)).size, 1);
    assert_eq!(ContentData::new("/f".to_string(), false, Some(2047)).size, 1);
    assert_eq!(ContentData::new("/f".to_string(), false, Some(u64::MAX)).size, u64::MAX / 1024);
}

#[test]
fn size_is_zero_without_metadata() {
    assert_eq!(ContentData::new("/f".to_string(), false, None).size, 0);
}

#[test]
fn try_new_agrees_with_new_on_named_paths() {
    let d = ContentData::try_new("/tmp/a/y".to_string(), false, Some(4096)).expect("named");
    assert!(!d.is_parent);
    assert_eq!(d.path, "/tmp/a/y");
    assert_eq!(d.name, "y");
    assert_eq!(d.size, 4);
    let p = ContentData::try_new("/".to_string(), true, None).expect("parent link");
    assert_eq!(p.name, "..");
}

#[test]
fn try_new_refuses_paths_without_a_name() {
    assert!(ContentData::try_new("/".to_string(), false, Some(1)).is_none());
    assert!(ContentData::try_new("/tmp/..".to_string(), false, Some(1)).is_none());
    assert!(ContentData::try_new("".to_string(), false, Some(1)).is_none());
}

#[test]
fn default_is_the_placeholder() {
    let d = ContentData::default();
    assert!(!d.is_parent);
    assert_eq!(d.path, "no path");
    assert_eq!(d.name, "unknown");
    assert_eq!(d.size, 0);
}

#[test]
fn content_size_by_variant() {
    let f = Content::File(ContentData::new("/a/f".to_string(), false, Some(3 * 1024)));
    let d = Content::Directory(ContentData::new("/a/d".to_string(), false, Some(8192)));
    assert_eq!(f.size(), 3);
    assert_eq!(d.size(), 8);
    assert_eq!(Content::Corrupt.size(), 0);
}

#[test]
fn content_label_by_variant() {
    let f = Content::File(ContentData::new("/a/f.txt".to_string(), false, None));
    let d = Content::Directory(ContentData::new("/a".to_string(), true, None));
    assert_eq!(f.label(), "f.txt");
    assert_eq!(d.label(), "..");
    assert_eq!(Content::Corrupt.label(), "File or directory corrupted.");
}

#[test]
fn listing_of_directory_with_file_and_subdirectory() {
    let reading = DirReading {
        parent_len: Some(4096),
        children: Some(vec![
            found("/tmp/a/x", true, Some(10240)),
            found("/tmp/a/y", false, Some(4096)),
        ]),
    };
    let rows = get_dir_content("/tmp/a".to_string(), reading);
    assert_eq!(rows.len(), 3);
    assert!(matches!(rows[0], Content::Directory(_)));
    let up = data(&rows[0]);
    assert!(up.is_parent);
    assert_eq!(up.name, "..");
    assert_eq!(up.path, "/tmp");
    assert_eq!(up.size, 4);
    assert!(matches!(rows[1], Content::File(_)));
    let x = data(&rows[1]);
    assert!(!x.is_parent);
    assert_eq!(x.name, "x");
    assert_eq!(x.path, "/tmp/a/x");
    assert_eq!(x.size, 10);
    assert!(matches!(rows[2], Content::Directory(_)));
    let y = data(&rows[2]);
    assert!(!y.is_parent);
    assert_eq!(y.name, "y");
    assert_eq!(y.path, "/tmp/a/y");
    assert_eq!(y.size, 4);
}

#[test]
fn listing_keeps_the_order_read() {
    let reading = DirReading {
        parent_len: None,
        children: Some(vec![
            found("/d/zeta", true, None),
            found("/d/alpha", true, None),
            found("/d/mid", false, None),
        ]),
    };
    let rows = get_dir_content("/d".to_string(), reading);
    let names: Vec<String> = rows.iter().map(|r| r.label()).collect();
    assert_eq!(names, vec!["..", "zeta", "alpha", "mid"]);
}

#[test]
fn listing_of_unreadable_directory_is_parent_link_and_placeholder() {
    let reading = DirReading { parent_len: Some(4096), children: None };
    let rows = get_dir_content("/root/secret".to_string(), reading);
    assert_eq!(rows.len(), 2);
    assert!(matches!(rows[0], Content::Directory(_)));
    assert!(data(&rows[0]).is_parent);
    assert_eq!(data(&rows[0]).path, "/root");
    assert!(matches!(rows[1], Content::Corrupt));
}

#[test]
fn listing_of_empty_directory_is_the_parent_link_alone() {
    let reading = DirReading { parent_len: None, children: Some(Vec::new()) };
    let rows = get_dir_content("/tmp/empty".to_string(), reading);
    assert_eq!(rows.len(), 1);
    assert!(matches!(rows[0], Content::Directory(_)));
    assert_eq!(data(&rows[0]).path, "/tmp");
    assert_eq!(data(&rows[0]).size, 0);
}

#[test]
fn listing_at_root_links_back_to_root() {
    let reading = DirReading {
        parent_len: Some(4096),
        children: Some(vec![found("/etc", false, Some(4096))]),
    };
    let rows = get_dir_content("/".to_string(), reading);
    assert_eq!(rows.len(), 2);
    assert!(matches!(rows[0], Content::Directory(_)));
    assert!(data(&rows[0]).is_parent);
    assert_eq!(data(&rows[0]).path, "/");
    assert_eq!(data(&rows[0]).name, "..");
    assert_eq!(data(&rows[1]).name, "etc");
}

#[test]
fn unreadable_child_becomes_placeholder_in_its_place() {
    let reading = DirReading {
        parent_len: None,
        children: Some(vec![
            found("/d/a", true, Some(2048)),
            ChildReading::Unreadable,
            found("/d/b", false, None),
        ]),
    };
    let rows = get_dir_content("/d".to_string(), reading);
    assert_eq!(rows.len(), 4);
    assert!(matches!(rows[1], Content::File(_)));
    assert!(matches!(rows[2], Content::Corrupt));
    assert!(matches!(rows[3], Content::Directory(_)));
    assert_eq!(data(&rows[3]).name, "b");
    assert_eq!(data(&rows[3]).size, 0);
}

#[test]
fn child_without_a_name_becomes_placeholder() {
    let reading = DirReading {
        parent_len: None,
        children: Some(vec![found("/d/..", false, Some(1)), found("/d/ok", true, Some(1))]),
    };
    let rows = get_dir_content("/d".to_string(), reading);
    assert_eq!(rows.len(), 3);
    assert!(matches!(rows[1], Content::Corrupt));
    assert!(matches!(rows[2], Content::File(_)));
}
