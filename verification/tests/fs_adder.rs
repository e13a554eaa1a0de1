use prezpack::create::EntryStoreCreator;
use prezpack::fs_adder::{AddError, FsAdder, Seeded, Step};
use prezpack::fs_entry::{Adder, ContentAddress, StoreError, WalkEntry};

struct Numbering(u32);

impl Adder for Numbering {
    fn add(&mut self, _path: &str) -> Result<ContentAddress, StoreError> {
        self.0 += 1;
        Ok(ContentAddress::in_content_pack(self.0 - 1))
    }
}

fn dir(path: &str) -> WalkEntry {
    WalkEntry {
        path: path.to_string(),
        is_dir: true,
        is_file: false,
        is_symlink: false,
        size: 0,
        uid: 0,
        gid: 0,
        mode: 0o755,
        mtime: 0,
        head: Vec::new(),
        link_target: String::new(),
    }
}

fn file(path: &str) -> WalkEntry {
    WalkEntry { is_dir: false, is_file: true, size: 1, head: vec![b'x'], ..dir(path) }
}

fn hidden(entry: &WalkEntry) -> bool {
    !entry.path.rsplit('/').next().unwrap().starts_with('.')
}

#[test]
fn filter_leaves_entries_out_without_counting_them() {
    let mut adder = FsAdder::new(EntryStoreCreator::new(String::new()), "in".to_string());
    assert_eq!(adder.add_from_path_with_filter(dir("in/.git"), true, hidden).unwrap(), Seeded::Filtered);
    assert_eq!(adder.add_from_path_with_filter(dir("in/src"), true, hidden).unwrap(), Seeded::Queued(0));
    assert_eq!(adder.root_count(), 1);
    let mut store = Numbering(0);
    assert!(matches!(adder.next(&mut store), Ok(Step::List(0, path)) if path == "in/src"));
    assert_eq!(adder.add_child_with_filter(file("in/src/.hidden"), hidden).unwrap(), Seeded::Filtered);
    assert_eq!(adder.add_child_with_filter(file("in/src/lib.rs"), hidden).unwrap(), Seeded::Queued(1));
    assert_eq!(adder.add_child(file("in/src/.kept")).unwrap(), Seeded::Queued(2));
    assert_eq!(adder.end_listing().unwrap(), 2);
    assert!(matches!(adder.next(&mut store), Ok(Step::Recorded(1))));
    assert!(matches!(adder.next(&mut store), Ok(Step::Recorded(2))));
    assert!(matches!(adder.next(&mut store), Ok(Step::Done)));
    assert!(adder.is_finished());
    assert_eq!(store.0, 2);
    assert_eq!(adder.flattener().child_count(0), Some(2));
}

#[test]
fn finish_hands_out_tables_and_sequence() {
    let mut adder = FsAdder::new(EntryStoreCreator::new(String::new()), String::new());
    adder.add_from_path(dir("a"), true).unwrap();
    let mut store = Numbering(0);
    assert!(matches!(adder.next(&mut store), Ok(Step::List(0, _))));
    assert!(!adder.is_finished());
    adder.add_child(file("a/f")).unwrap();
    adder.end_listing().unwrap();
    adder.next(&mut store).unwrap();
    let (tables, flat) = adder.finish().unwrap();
    assert_eq!(tables.arx_count(), 2);
    assert_eq!(tables.jim_count(), 1);
    assert_eq!(tables.waj_count(), 1);
    assert_eq!(flat.len(), 2);
    assert!(tables.is_resolved(flat.cells()));

    let mut adder = FsAdder::new(EntryStoreCreator::new(String::new()), String::new());
    adder.add_from_path(file("f"), true).unwrap();
    assert!(matches!(adder.finish(), Err(AddError::Unfinished)));
}

#[test]
fn recording_takes_the_answer_of_the_store() {
    let mut adder = FsAdder::new(EntryStoreCreator::new(String::new()), String::new());
    assert_eq!(adder.content_request(), None);
    assert!(matches!(adder.record(None), Ok(Step::Done)));
    adder.add_from_path(dir("d"), true).unwrap();
    adder.add_from_path(file("f"), true).unwrap();
    // A directory asks nothing of the store, and is then open.
    assert_eq!(adder.content_request(), None);
    assert!(matches!(adder.record(None), Ok(Step::List(0, path)) if path == "d"));
    assert_eq!(adder.content_request(), None);
    assert!(matches!(adder.record(None), Err(AddError::ListingExpected)));
    adder.end_listing().unwrap();
    // A file is recorded with the address given, and not without one.
    assert_eq!(adder.content_request(), Some("f"));
    assert!(matches!(adder.record(None), Err(AddError::ContentExpected)));
    assert_eq!(adder.creator().arx_count(), 1);
    let address = ContentAddress { pack_id: 1, content_id: 77 };
    assert!(matches!(adder.record(Some(address)), Ok(Step::Recorded(1))));
    match adder.creator().arx_creator().row(1) {
        Some(prezpack::arx_creator::ArxRow::File { content, .. }) => assert_eq!(*content, address),
        other => panic!("unexpected row {other:?}"),
    }
    assert_eq!(adder.content_request(), None);
    assert!(adder.is_finished());
}
