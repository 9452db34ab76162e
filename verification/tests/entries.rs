use ery::entry::{item_to_entry, EntryKind, QueryEntry, RawItem};
use ery::query::{Query, RequestFlags, SortType};
use ery::results::QueryResults;
use ery::status::{is_fast_sort, yes_or_no};
use ery::ui::UI;

fn sample_item() -> RawItem {
    RawItem {
        index: 3,
        kind: EntryKind::Folder,
        filename: "cargo".to_string(),
        path: "C:/home".to_string(),
        filepath: "C:/home/cargo".to_string(),
        full_path_name: "C:/home/cargo".to_string(),
        extension: String::new(),
        size: 4096,
        date_created: 10,
        date_modified: 20,
        date_accessed: 30,
        attributes: 16,
        file_list_filename: "lists.efu".to_string(),
        run_count: 2,
        date_run: 40,
        date_recently_changed: 50,
        highlighted_filename: "*cargo*".to_string(),
        highlighted_path: "*C:/home*".to_string(),
        highlighted_full_path_and_filename: "*C:/home/cargo*".to_string(),
    }
}

fn all_flags() -> RequestFlags {
    RequestFlags {
        file_name: true,
        path: true,
        full_path_and_file_name: true,
        extension: true,
        size: true,
        date_created: true,
        date_modified: true,
        date_accessed: true,
        attributes: true,
        file_list_file_name: true,
        run_count: true,
        date_run: true,
        date_recently_changed: true,
        highlighted_file_name: true,
        highlighted_path: true,
        highlighted_full_path_and_file_name: true,
    }
}

fn no_flags() -> RequestFlags {
    RequestFlags {
        file_name: false,
        path: false,
        full_path_and_file_name: false,
        extension: false,
        size: false,
        date_created: false,
        date_modified: false,
        date_accessed: false,
        attributes: false,
        file_list_file_name: false,
        run_count: false,
        date_run: false,
        date_recently_changed: false,
        highlighted_file_name: false,
        highlighted_path: false,
        highlighted_full_path_and_file_name: false,
    }
}

#[test]
fn every_requested_field_is_present() {
    let e = item_to_entry(sample_item(), all_flags());
    assert_eq!(e.index, 3);
    assert_eq!(e.kind, EntryKind::Folder);
    assert_eq!(e.filename.as_deref(), Some("cargo"));
    assert_eq!(e.path.as_deref(), Some("C:/home"));
    assert_eq!(e.filepath.as_deref(), Some("C:/home/cargo"));
    assert_eq!(e.full_path_name.as_deref(), Some("C:/home/cargo"));
    assert_eq!(e.extension.as_deref(), Some(""));
    assert_eq!(e.size, Some(4096));
    assert_eq!(e.date_created, Some(10));
    assert_eq!(e.date_modified, Some(20));
    assert_eq!(e.date_accessed, Some(30));
    assert_eq!(e.attributes, Some(16));
    assert_eq!(e.file_list_filename.as_deref(), Some("lists.efu"));
    assert_eq!(e.run_count, Some(2));
    assert_eq!(e.date_run, Some(40));
    assert_eq!(e.date_recently_changed, Some(50));
    assert_eq!(e.highlighted_filename.as_deref(), Some("*cargo*"));
    assert_eq!(e.highlighted_path.as_deref(), Some("*C:/home*"));
    assert_eq!(e.highlighted_full_path_and_filename.as_deref(), Some("*C:/home/cargo*"));
}

#[test]
fn every_unrequested_field_is_absent() {
    let e = item_to_entry(sample_item(), no_flags());
    assert_eq!(e.index, 3);
    assert_eq!(e.kind, EntryKind::Folder);
    assert_eq!(e.filename, None);
    assert_eq!(e.path, None);
    assert_eq!(e.filepath, None);
    assert_eq!(e.full_path_name, None);
    assert_eq!(e.extension, None);
    assert_eq!(e.size, None);
    assert_eq!(e.date_created, None);
    assert_eq!(e.date_modified, None);
    assert_eq!(e.date_accessed, None);
    assert_eq!(e.attributes, None);
    assert_eq!(e.file_list_filename, None);
    assert_eq!(e.run_count, None);
    assert_eq!(e.date_run, None);
    assert_eq!(e.date_recently_changed, None);
    assert_eq!(e.highlighted_filename, None);
    assert_eq!(e.highlighted_path, None);
    assert_eq!(e.highlighted_full_path_and_filename, None);
}

#[test]
fn absent_is_distinct_from_empty() {
    // An empty string under a set flag stays a present-but-empty value;
    // a zero under a set flag stays a present zero.
    let mut item = sample_item();
    item.filename = String::new();
    item.size = 0;
    let e = item_to_entry(item, all_flags());
    assert_eq!(e.filename.as_deref(), Some(""));
    assert_ne!(e.filename, None);
    assert_eq!(e.size, Some(0));
    assert_ne!(e.size, None);
}

#[test]
fn combined_path_needs_both_flags() {
    let mut flags = no_flags();
    flags.path = true;
    let e = item_to_entry(sample_item(), flags);
    assert_eq!(e.path.as_deref(), Some("C:/home"));
    assert_eq!(e.filepath, None, "path alone must not produce the combined path");

    let mut flags = no_flags();
    flags.file_name = true;
    let e = item_to_entry(sample_item(), flags);
    assert_eq!(e.filename.as_deref(), Some("cargo"));
    assert_eq!(e.filepath, None, "file name alone must not produce the combined path");

    let mut flags = no_flags();
    flags.path = true;
    flags.file_name = true;
    let e = item_to_entry(sample_item(), flags);
    assert_eq!(e.filepath.as_deref(), Some("C:/home/cargo"));
}

#[test]
fn default_request_flags_ask_for_name_and_path() {
    let flags = RequestFlags::default();
    assert!(flags.file_name);
    assert!(flags.path);
    assert!(!flags.full_path_and_file_name);
    assert!(!flags.extension);
    assert!(!flags.size);
    assert!(!flags.date_created);
    assert!(!flags.date_modified);
    assert!(!flags.date_accessed);
    assert!(!flags.attributes);
    assert!(!flags.file_list_file_name);
    assert!(!flags.run_count);
    assert!(!flags.date_run);
    assert!(!flags.date_recently_changed);
    assert!(!flags.highlighted_file_name);
    assert!(!flags.highlighted_path);
    assert!(!flags.highlighted_full_path_and_file_name);
}

#[test]
fn default_query_asks_for_everything_matching() {
    let q = Query::default();
    assert_eq!(q.search, "");
    assert!(!q.match_path && !q.match_case && !q.match_whole_word && !q.regex);
    assert_eq!(q.max, u32::MAX);
    assert_eq!(q.offset, 0);
    assert_eq!(q.sort_type, SortType::NameAscending);
    assert_eq!(q.request_flags, RequestFlags::default());
}

#[test]
fn submitted_query_uses_the_client_cap() {
    let q = Query::with_search("abc".to_string());
    assert_eq!(q.search, "abc");
    assert_eq!(q.max, 512);
    assert_eq!(q.offset, 0);
    assert_eq!(q.sort_type, SortType::default());
    assert_eq!(q.request_flags, RequestFlags::default());
}

#[test]
fn default_batch_is_the_empty_batch() {
    let b = QueryResults::default();
    assert_eq!(b.search, "");
    assert_eq!(b.offset, 0);
    assert_eq!(b.number, 0);
    assert_eq!(b.total, 0);
    assert!(b.entrys.is_empty());
    assert_eq!(b.sort_type, SortType::NameAscending);
    assert_eq!(b.request_flags, RequestFlags::default());
}

fn batch_with_paths(paths: &[Option<&str>]) -> QueryResults {
    let entrys: Vec<QueryEntry> = paths
        .iter()
        .enumerate()
        .map(|(i, p)| {
            let mut item = sample_item();
            item.index = i as u32;
            let mut e = item_to_entry(item, no_flags());
            e.filepath = p.map(|s| s.to_string());
            e
        })
        .collect();
    QueryResults {
        search: "x".to_string(),
        offset: 0,
        number: entrys.len() as u32,
        total: entrys.len() as u32,
        request_flags: RequestFlags::default(),
        sort_type: SortType::default(),
        entrys,
    }
}

#[test]
fn selected_full_path_follows_the_highlight() {
    let batch = batch_with_paths(&[Some("C:/a"), None, Some("C:/c")]);
    let mut s = UI::new();
    s.is_focus_search_bar = false;

    s.selected = Some(0);
    assert_eq!(s.get_selected_full_path(&batch).as_deref(), Some("C:/a"));
    s.selected = Some(1);
    assert_eq!(s.get_selected_full_path(&batch), None);
    s.selected = Some(2);
    assert_eq!(s.get_selected_full_path(&batch).as_deref(), Some("C:/c"));
    s.selected = Some(3);
    assert_eq!(s.get_selected_full_path(&batch), None, "out of bounds yields nothing");
    s.selected = None;
    assert_eq!(s.get_selected_full_path(&batch), None);
}

#[test]
fn status_markers() {
    assert_eq!(yes_or_no(true), '\u{1F7E2}');
    assert_eq!(yes_or_no(false), '\u{1F7E4}');
    assert_eq!(is_fast_sort(true), "(fast sort)");
    assert_eq!(is_fast_sort(false), "");
}
