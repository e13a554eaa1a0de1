use prezpack::arx_creator::{ArxCreator, ArxRow, TableError};
use prezpack::create::EntryStoreCreator;
use prezpack::deferred::DeferredTable;
use prezpack::flatten::FlatNode;
use prezpack::fs_entry::{ContentAddress, FsEntry, WalkEntry};
use prezpack::jim_creator::{JimCreator, JimRow, MAX_TEXT};
use prezpack::mime::Mime;
use prezpack::store::{PropertyKind, Schema};

fn names(schema: &Schema) -> (Vec<&'static str>, Vec<(&'static str, Vec<&'static str>)>) {
    (
        schema.common.iter().map(|p| p.name).collect(),
        schema
            .variants
            .iter()
            .map(|v| (v.name, v.properties.iter().map(|p| p.name).collect()))
            .collect(),
    )
}

fn pack() -> jubako::creator::DirectoryPackCreator {
    prezpack::store::new_pack(0, *b"test")
}

#[test]
fn filesystem_schema() {
    let table = ArxCreator::new();
    let (common, variants) = names(table.schema());
    assert_eq!(common, vec!["name", "parent"]);
    assert_eq!(
        variants,
        vec![
            ("file", vec!["content", "size"]),
            ("dir", vec!["first_child", "nb_children"]),
            ("link", vec!["target"]),
        ]
    );
    assert_eq!(table.schema().common[1].kind, PropertyKind::Unsigned);
    assert_eq!(table.schema().variants[0].properties[0].kind, PropertyKind::Content);
}

#[test]
fn presentation_schema() {
    let table = JimCreator::new("index.html".to_string());
    let (common, variants) = names(table.schema());
    assert_eq!(common, vec!["path"]);
    assert_eq!(
        variants,
        vec![("content", vec!["mimetype", "address"]), ("redirect", vec!["target"])]
    );
    assert_eq!(
        table.schema().variants[0].properties[0].kind,
        PropertyKind::Bytes { inline: 0, indexed: true }
    );
}

#[test]
fn filesystem_records_are_named_by_last_component() {
    let mut cells = DeferredTable::new();
    let (count, vow) = cells.create(0);
    let mut table = ArxCreator::new();
    assert_eq!(table.add_directory("top/docs", None, 1, count), Ok(0));
    let address = ContentAddress { pack_id: 1, content_id: 4 };
    assert_eq!(table.add_content("top/docs/a.txt", Some(0), address, 12), Ok(1));
    assert_eq!(table.add_redirect("top/docs/l", Some(0), b"a.txt".to_vec()), Ok(2));
    assert_eq!(table.add_content("top/docs/..", Some(0), address, 12), Err(TableError::NoFileName));
    assert_eq!(table.add_directory("/", None, 0, count), Err(TableError::NoFileName));
    assert_eq!(table.add_redirect("", None, Vec::new()), Err(TableError::NoFileName));
    assert_eq!(table.entry_count(), 3);
    assert!(matches!(table.row(0), Some(ArxRow::Dir { name, parent: None, first_entry: 1, .. }) if name == b"docs"));
    assert!(matches!(table.row(1), Some(ArxRow::File { name, parent: Some(0), size: 12, .. }) if name == b"a.txt"));
    assert!(matches!(table.row(2), Some(ArxRow::Link { name, target, .. }) if name == b"l" && target == b"a.txt"));
    assert!(table.row(3).is_none());

    assert!(!table.is_resolved(&cells));
    cells.fulfil(vow, 2);
    assert!(table.is_resolved(&cells));
    table.set_root_count(1);
    assert_eq!(table.root_count(), 1);
}

#[test]
fn unresolved_table_leaves_pack_alone() {
    let mut cells = DeferredTable::new();
    let (count, _vow) = cells.create(0);
    let mut table = ArxCreator::new();
    table.add_directory("docs", None, 1, count).unwrap();
    let mut pack = pack();
    assert_eq!(table.finalize(&cells, &mut pack), Err(TableError::Unresolved));

    let mut stores = EntryStoreCreator::new(String::new());
    let entry = FsEntry::assemble(
        WalkEntry {
            path: "docs".into(),
            is_dir: true,
            is_file: false,
            is_symlink: false,
            size: 0,
            uid: 0,
            gid: 0,
            mode: 0,
            mtime: 0,
            head: Vec::new(),
            link_target: String::new(),
        },
        "docs".into(),
        None,
    )
    .unwrap();
    let unplaced = FlatNode { parent: None, is_dir: true, first_child: 1, child_count: None };
    assert_eq!(stores.add_entry(&entry, unplaced), Err(TableError::Unresolved));
    let placed = FlatNode { child_count: Some(count), ..unplaced };
    assert_eq!(stores.add_entry(&entry, placed), Ok(()));
    assert_eq!((stores.arx_count(), stores.jim_count()), (1, 0));
    assert!(!stores.is_resolved(&cells));
    assert_eq!(stores.finalize(&cells, &mut pack), Err(TableError::Unresolved));
}

#[test]
fn presentation_table_refuses_what_is_too_long() {
    assert_eq!(MAX_TEXT, 255);
    let mut table = JimCreator::new("index.html".to_string());
    let address = ContentAddress { pack_id: 1, content_id: 0 };
    let long = "d/".repeat(128);
    let whole = "n".repeat(255);
    assert_eq!(
        table.add_content(long.clone(), &Mime::text_html(), address),
        Err(TableError::TooLong)
    );
    assert_eq!(table.add_redirect(long, Vec::new()), Err(TableError::TooLong));
    assert_eq!(table.add_redirect("r".to_string(), vec![b'x'; 256]), Err(TableError::TooLong));
    assert_eq!(table.entry_count(), 0);
    assert_eq!(table.add_content(whole.clone(), &Mime::text_html(), address), Ok(0));
    assert_eq!(table.add_redirect("s".to_string(), vec![b'x'; 255]), Ok(1));
    // A path of two-byte characters is measured in bytes.
    assert_eq!(
        table.add_content("\u{e9}".repeat(128), &Mime::text_html(), address),
        Err(TableError::TooLong)
    );
    assert_eq!(table.add_content("\u{e9}".repeat(127), &Mime::text_html(), address), Ok(2));
    match table.row(0) {
        Some(JimRow::Content { path, mimetype, content }) => {
            assert_eq!(path.as_slice(), whole.as_bytes());
            assert_eq!(mimetype, b"text/html");
            assert_eq!(*content, address);
        }
        other => panic!("unexpected row {other:?}"),
    }
    assert!(matches!(table.row(1), Some(JimRow::Redirect { target, .. }) if target.len() == 255));
    assert!(matches!(table.row(2), Some(JimRow::Content { path, .. }) if path.len() == 254));
    assert_eq!(table.entry_count(), 3);
}

#[test]
fn refused_entry_leaves_every_table_alone() {
    let mut stores = EntryStoreCreator::new(String::new());
    let link = |name: &str, target: &str| {
        FsEntry::assemble(
            WalkEntry {
                path: name.to_string(),
                is_dir: false,
                is_file: false,
                is_symlink: true,
                size: 0,
                uid: 0,
                gid: 0,
                mode: 0,
                mtime: 0,
                head: Vec::new(),
                link_target: target.to_string(),
            },
            name.to_string(),
            None,
        )
        .unwrap()
    };
    let place = FlatNode { parent: None, is_dir: false, first_child: 0, child_count: None };
    let long = "t".repeat(256);
    assert_eq!(stores.add_entry(&link("l", &long), place), Err(TableError::TooLong));
    assert_eq!(stores.add_entry(&link(&long, "l"), place), Err(TableError::TooLong));
    assert_eq!((stores.arx_count(), stores.waj_count(), stores.jim_count()), (0, 0, 0));
    assert_eq!(stores.add_entry(&link("l", &"t".repeat(255)), place), Ok(()));
    assert_eq!((stores.arx_count(), stores.waj_count(), stores.jim_count()), (1, 1, 1));
}

#[test]
fn last_file_at_main_path_is_the_entry_point() {
    let mut table = JimCreator::new("index.html".to_string());
    let address = ContentAddress { pack_id: 1, content_id: 0 };
    assert_eq!(table.main_entry_id(), 0);
    table.add_content("about.html".to_string(), &Mime::text_html(), address).unwrap();
    table.add_redirect("index.html".to_string(), b"about.html".to_vec()).unwrap();
    assert_eq!(table.main_entry_id(), 0);
    table.add_content("index.html".to_string(), &Mime::text_html(), address).unwrap();
    assert_eq!(table.main_entry_id(), 2);
    table.add_content("more.html".to_string(), &Mime::text_html(), address).unwrap();
    assert_eq!(table.main_entry_id(), 2);
    table.add_content("index.html".to_string(), &Mime::text_html(), address).unwrap();
    assert_eq!(table.main_entry_id(), 4);
}

#[test]
fn web_table_marks_no_entry() {
    let mut table = JimCreator::web();
    let address = ContentAddress { pack_id: 1, content_id: 0 };
    table.add_content(String::new(), &Mime::text_html(), address).unwrap();
    table.add_content("index.html".to_string(), &Mime::text_html(), address).unwrap();
    assert_eq!(table.entry_count(), 2);
    assert_eq!(table.main_entry_id(), 0);
    let mut pack = pack();
    table.finalize(&mut pack);
}
