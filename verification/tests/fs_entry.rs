use prezpack::fs_entry::{
    Adder, ArxKind, ContentAddress, FsEntry, FsEntryKind, StoreError, WajKind, WalkEntry,
    CONTENT_PACK_ID, DIRECTORY_PACK_ID,
};

struct Counting {
    asked: Vec<String>,
    fail: bool,
}

impl Adder for Counting {
    fn add(&mut self, path: &str) -> Result<ContentAddress, StoreError> {
        self.asked.push(path.to_string());
        if self.fail {
            Err(StoreError { message: "disk full".to_string() })
        } else {
            Ok(ContentAddress::in_content_pack(self.asked.len() as u32 + 6))
        }
    }
}

fn node(path: &str, is_dir: bool, is_file: bool, is_symlink: bool) -> WalkEntry {
    WalkEntry {
        path: path.to_string(),
        is_dir,
        is_file,
        is_symlink,
        size: 11,
        uid: 1,
        gid: 2,
        mode: 3,
        mtime: 4,
        head: b"<html></html>".to_vec(),
        link_target: "elsewhere".to_string(),
    }
}

#[test]
fn regular_file_goes_through_the_store_once() {
    let mut store = Counting { asked: Vec::new(), fail: false };
    let entry =
        FsEntry::new_from_walk_entry(node("in/page", false, true, false), "page".into(), &mut store)
            .unwrap();
    assert_eq!(store.asked, vec!["in/page".to_string()]);
    match &entry.kind {
        FsEntryKind::File(address, mime, size) => {
            assert_eq!(*address, ContentAddress { pack_id: 1, content_id: 7 });
            assert_eq!(mime.as_str(), "text/html");
            assert_eq!(*size, 11);
        }
        other => panic!("unexpected kind {other:?}"),
    }
    assert_eq!(entry.path(), "in/page");
    assert_eq!(entry.name(), "page");
    assert_eq!((entry.uid(), entry.gid(), entry.mode(), entry.mtime()), (1, 2, 3, 4));
}

#[test]
fn other_nodes_never_reach_the_store() {
    let mut store = Counting { asked: Vec::new(), fail: true };
    let dir = FsEntry::new_from_walk_entry(node("d", true, false, false), "d".into(), &mut store);
    assert!(matches!(dir.unwrap().kind, FsEntryKind::Dir));
    let link = FsEntry::new_from_walk_entry(node("l", false, false, true), "l".into(), &mut store);
    assert!(matches!(link.unwrap().kind, FsEntryKind::Link(target) if target == "elsewhere"));
    let other = FsEntry::new_from_walk_entry(node("o", false, false, false), "o".into(), &mut store);
    assert!(matches!(other.unwrap().kind, FsEntryKind::Other));
    assert!(store.asked.is_empty());
}

#[test]
fn store_failure_is_handed_on() {
    let mut store = Counting { asked: Vec::new(), fail: true };
    let failed =
        FsEntry::new_from_walk_entry(node("in/f", false, true, false), "f".into(), &mut store);
    assert_eq!(failed.unwrap_err().message, "disk full");
    assert_eq!(store.asked.len(), 1);
}

#[test]
fn directory_wins_over_file_and_file_over_link() {
    let both = FsEntry::assemble(node("x", true, true, true), "x".into(), None).unwrap();
    assert!(matches!(both.kind, FsEntryKind::Dir));
    let address = ContentAddress { pack_id: 1, content_id: 0 };
    let file = FsEntry::assemble(node("x", false, true, true), "x".into(), Some(address)).unwrap();
    assert!(matches!(file.kind, FsEntryKind::File(..)));
    assert!(FsEntry::assemble(node("x", false, true, false), "x".into(), None).is_none());
    assert_eq!(node("x", false, true, true).content_request(), Some("x"));
    assert_eq!(node("x", true, true, false).content_request(), None);
    assert_eq!(node("x", false, false, true).content_request(), None);
}

#[test]
fn projections_by_kind() {
    let address = ContentAddress { pack_id: 1, content_id: 3 };
    let file = FsEntry::assemble(node("a.css", false, true, false), "a.css".into(), Some(address))
        .unwrap();
    assert!(matches!(file.arx_kind(), Some(ArxKind::File(11, a)) if a == address));
    assert!(
        matches!(file.waj_kind(), Some(WajKind::Content(a, mime)) if a == address && mime.as_str() == "text/css")
    );
    let dir = FsEntry::assemble(node("d", true, false, false), "d".into(), None).unwrap();
    assert!(matches!(dir.arx_kind(), Some(ArxKind::Dir)));
    assert!(dir.waj_kind().is_none());
    let link = FsEntry::assemble(node("l", false, false, true), "l".into(), None).unwrap();
    assert!(matches!(link.arx_kind(), Some(ArxKind::Link(target)) if target == "elsewhere"));
    assert!(matches!(link.waj_kind(), Some(WajKind::Redirect(target)) if target == "elsewhere"));
    let other = FsEntry::assemble(node("o", false, false, false), "o".into(), None).unwrap();
    assert!(other.arx_kind().is_none());
    assert!(other.waj_kind().is_none());
}

#[test]
fn projecting_twice_gives_the_same_records() {
    let address = ContentAddress { pack_id: 1, content_id: 3 };
    let file = FsEntry::assemble(node("a.css", false, true, false), "a.css".into(), Some(address))
        .unwrap();
    assert_eq!(format!("{:?}", file.arx_kind()), format!("{:?}", file.arx_kind()));
    assert_eq!(format!("{:?}", file.waj_kind()), format!("{:?}", file.waj_kind()));
}

#[test]
fn pack_numbers() {
    assert_eq!(DIRECTORY_PACK_ID, 0);
    assert_eq!(CONTENT_PACK_ID, 1);
    assert_eq!(
        ContentAddress::in_content_pack(9),
        ContentAddress { pack_id: 1, content_id: 9 }
    );
}
