use jubako::reader::{EntryTrait, Range};
use prezpack::arx_creator::{ArxRow, NO_PARENT};
use prezpack::create::{CreateError, Creator};
use prezpack::fs_adder::{AddError, Seeded, Step};
use prezpack::fs_entry::{Adder, ContentAddress, StoreError, WalkEntry};
use prezpack::jim_creator::JimRow;
use prezpack::layout::{ConcatMode, FinalizeStep, Pack, Placement};
use std::collections::BTreeMap;
use std::sync::Arc;

enum Node {
    Dir(Vec<&'static str>),
    File(&'static [u8]),
    Link(&'static str),
    Other,
}

struct Tree {
    nodes: BTreeMap<&'static str, Node>,
}

impl Tree {
    fn sample() -> Tree {
        let mut nodes = BTreeMap::new();
        nodes.insert("root", Node::Dir(vec!["root/a.txt", "root/sub", "root/link"]));
        nodes.insert("root/a.txt", Node::File(b"hello"));
        nodes.insert("root/sub", Node::Dir(vec!["root/sub/b.txt"]));
        nodes.insert("root/sub/b.txt", Node::File(b"world"));
        nodes.insert("root/link", Node::Link("a.txt"));
        Tree { nodes }
    }

    fn walk(&self, path: &str) -> WalkEntry {
        let node = &self.nodes[path];
        let content: &[u8] = match node {
            Node::File(bytes) => bytes,
            _ => b"",
        };
        WalkEntry {
            path: path.to_string(),
            is_dir: matches!(node, Node::Dir(_)),
            is_file: matches!(node, Node::File(_)),
            is_symlink: matches!(node, Node::Link(_)),
            size: content.len() as u64,
            uid: 1000,
            gid: 100,
            mode: 0o644,
            mtime: 1_700_000_000,
            head: content.iter().take(100).copied().collect(),
            link_target: match node {
                Node::Link(target) => target.to_string(),
                _ => String::new(),
            },
        }
    }

    fn children(&self, path: &str) -> Vec<&'static str> {
        match &self.nodes[path] {
            Node::Dir(children) => children.clone(),
            _ => Vec::new(),
        }
    }
}

struct MemoryStore<'a> {
    tree: &'a Tree,
    blobs: Vec<Vec<u8>>,
    refuse: Option<&'static str>,
}

impl<'a> MemoryStore<'a> {
    fn new(tree: &'a Tree) -> Self {
        MemoryStore { tree, blobs: Vec::new(), refuse: None }
    }
}

impl<'a> Adder for MemoryStore<'a> {
    fn add(&mut self, path: &str) -> Result<ContentAddress, StoreError> {
        if self.refuse == Some(path) {
            return Err(StoreError { message: format!("cannot read {path}") });
        }
        match &self.tree.nodes[path] {
            Node::File(bytes) => {
                self.blobs.push(bytes.to_vec());
                Ok(ContentAddress { pack_id: 1, content_id: self.blobs.len() as u32 - 1 })
            }
            _ => panic!("{path} is not a file"),
        }
    }
}

fn seed(creator: &mut Creator, tree: &Tree, path: &str, recurse: bool) -> Result<(), AddError> {
    if let Seeded::Listing = creator.add_from_path(tree.walk(path), recurse)? {
        for child in tree.children(path) {
            creator.add_child(tree.walk(child))?;
        }
        assert_eq!(creator.end_listing()?, creator.fs_adder().root_count() as u32);
    }
    Ok(())
}

fn drive(creator: &mut Creator, tree: &Tree, store: &mut MemoryStore) -> Result<(), AddError> {
    loop {
        match creator.next(store)? {
            Step::Done => return Ok(()),
            Step::Recorded(_) => {}
            Step::List(_, path) => {
                for child in tree.children(&path) {
                    creator.add_child(tree.walk(child))?;
                }
                creator.end_listing()?;
            }
        }
    }
}

fn built(prefix: &str, main: &str, mode: ConcatMode) -> (Creator, Vec<Vec<u8>>) {
    let tree = Tree::sample();
    let mut store = MemoryStore::new(&tree);
    let mut creator =
        Creator::new("out/site.jbk", prefix.to_string(), main.to_string(), mode).unwrap();
    seed(&mut creator, &tree, "root", true).unwrap();
    drive(&mut creator, &tree, &mut store).unwrap();
    (creator, store.blobs)
}

fn arx_rows(creator: &Creator) -> Vec<&ArxRow> {
    let table = creator.fs_adder().creator().arx_creator();
    (0..table.entry_count()).map(|i| table.row(i).unwrap()).collect()
}

fn jim_rows(creator: &Creator) -> Vec<&JimRow> {
    let table = creator.fs_adder().creator().jim_creator();
    (0..table.entry_count()).map(|i| table.row(i).unwrap()).collect()
}

fn waj_rows(creator: &Creator) -> Vec<&JimRow> {
    let table = creator.fs_adder().creator().waj_creator();
    (0..table.entry_count()).map(|i| table.row(i).unwrap()).collect()
}

fn name_and_parent(row: &ArxRow) -> (String, Option<u32>) {
    let (name, parent) = match row {
        ArxRow::File { name, parent, .. } => (name, parent),
        ArxRow::Dir { name, parent, .. } => (name, parent),
        ArxRow::Link { name, parent, .. } => (name, parent),
    };
    (String::from_utf8(name.clone()).unwrap(), *parent)
}

#[test]
fn sample_tree_with_implicit_root() {
    let (creator, blobs) = built("root", "a.txt", ConcatMode::OneFile);
    assert!(creator.is_finished());
    let rows = arx_rows(&creator);
    let listed: Vec<(String, Option<u32>)> = rows.iter().map(|r| name_and_parent(r)).collect();
    assert_eq!(
        listed,
        vec![
            ("a.txt".to_string(), None),
            ("sub".to_string(), None),
            ("link".to_string(), None),
            ("b.txt".to_string(), Some(1)),
        ]
    );
    assert_eq!(creator.fs_adder().root_count(), 3);
    let cells = creator.fs_adder().flattener().cells();
    match rows[1] {
        ArxRow::Dir { first_entry, nb_entries, .. } => {
            assert_eq!(*first_entry, 3);
            assert_eq!(cells.resolve(*nb_entries), Some(1));
        }
        other => panic!("sub is recorded as {other:?}"),
    }
    match rows[0] {
        ArxRow::File { content, size, .. } => {
            assert_eq!(*content, ContentAddress { pack_id: 1, content_id: 0 });
            assert_eq!(*size, 5);
        }
        other => panic!("a.txt is recorded as {other:?}"),
    }
    match rows[3] {
        ArxRow::File { content, .. } => {
            assert_eq!(*content, ContentAddress { pack_id: 1, content_id: 1 });
        }
        other => panic!("b.txt is recorded as {other:?}"),
    }
    match rows[2] {
        ArxRow::Link { target, .. } => assert_eq!(target, b"a.txt"),
        other => panic!("link is recorded as {other:?}"),
    }
    assert_eq!(blobs, vec![b"hello".to_vec(), b"world".to_vec()]);
}

#[test]
fn sample_tree_with_explicit_root() {
    let (creator, blobs) = built("", "root/a.txt", ConcatMode::OneFile);
    let rows = arx_rows(&creator);
    let listed: Vec<(String, Option<u32>)> = rows.iter().map(|r| name_and_parent(r)).collect();
    assert_eq!(
        listed,
        vec![
            ("root".to_string(), None),
            ("a.txt".to_string(), Some(0)),
            ("sub".to_string(), Some(0)),
            ("link".to_string(), Some(0)),
            ("b.txt".to_string(), Some(2)),
        ]
    );
    assert_eq!(creator.fs_adder().root_count(), 1);
    let cells = creator.fs_adder().flattener().cells();
    match (rows[0], rows[2]) {
        (
            ArxRow::Dir { first_entry: root_first, nb_entries: root_count, .. },
            ArxRow::Dir { first_entry: sub_first, nb_entries: sub_count, .. },
        ) => {
            assert_eq!((*root_first, cells.resolve(*root_count)), (1, Some(3)));
            assert_eq!((*sub_first, cells.resolve(*sub_count)), (4, Some(1)));
        }
        other => panic!("directories are recorded as {other:?}"),
    }
    assert_eq!(blobs.len(), 2);
}

#[test]
fn web_schema_records_files_and_redirects() {
    let (creator, _) = built("root", "a.txt", ConcatMode::OneFile);
    let rows = jim_rows(&creator);
    assert_eq!(rows.len(), 3);
    match rows[0] {
        JimRow::Content { path, mimetype, content } => {
            assert_eq!(path, b"a.txt");
            assert_eq!(mimetype, b"text/plain");
            assert_eq!(*content, ContentAddress { pack_id: 1, content_id: 0 });
        }
        other => panic!("a.txt is recorded as {other:?}"),
    }
    match rows[1] {
        JimRow::Redirect { path, target } => {
            assert_eq!(path, b"link");
            assert_eq!(target, b"a.txt");
        }
        other => panic!("link is recorded as {other:?}"),
    }
    match rows[2] {
        JimRow::Content { path, content, .. } => {
            assert_eq!(path, b"sub/b.txt");
            assert_eq!(*content, ContentAddress { pack_id: 1, content_id: 1 });
        }
        other => panic!("b.txt is recorded as {other:?}"),
    }
}

#[test]
fn presentation_table_is_web_table_with_entry_point() {
    let (creator, _) = built("root", "sub/b.txt", ConcatMode::OneFile);
    assert_eq!(format!("{:?}", waj_rows(&creator)), format!("{:?}", jim_rows(&creator)));
    let tables = creator.fs_adder().creator();
    assert_eq!((tables.waj_count(), tables.jim_count(), tables.arx_count()), (3, 3, 4));
    assert_eq!(tables.waj_creator().main_entry_id(), 0);
    assert_eq!(tables.jim_creator().main_entry_id(), 2);
}

#[test]
fn main_entry_is_the_file_at_the_main_path() {
    let (creator, _) = built("root", "sub/b.txt", ConcatMode::OneFile);
    let table = creator.fs_adder().creator().jim_creator();
    assert_eq!(table.main_entry_id(), 2);
    let marked: Vec<u32> = (0..table.entry_count())
        .filter(|i| matches!(table.row(*i).unwrap(), JimRow::Content { path, .. } if path == b"sub/b.txt"))
        .collect();
    assert_eq!(marked, vec![2]);
    let (creator, _) = built("root", "a.txt", ConcatMode::OneFile);
    assert_eq!(creator.fs_adder().creator().main_entry_id(), 0);
    let (creator, _) = built("root", "link", ConcatMode::OneFile);
    assert_eq!(creator.fs_adder().creator().main_entry_id(), 0);
}

#[test]
fn tables_do_not_depend_on_the_mode() {
    let describe = |mode: ConcatMode| -> (String, String, Vec<Vec<u8>>) {
        let (creator, blobs) = built("root", "a.txt", mode);
        let cells = creator.fs_adder().flattener().cells();
        let arx: Vec<String> = arx_rows(&creator)
            .iter()
            .map(|row| match row {
                ArxRow::Dir { nb_entries, .. } => {
                    format!("{row:?} with {:?} children", cells.resolve(*nb_entries))
                }
                _ => format!("{row:?}"),
            })
            .collect();
        (arx.join("\n"), format!("{:?}", jim_rows(&creator)), blobs)
    };
    let one = describe(ConcatMode::OneFile);
    assert_eq!(one, describe(ConcatMode::TwoFiles));
    assert_eq!(one, describe(ConcatMode::NoConcat));
}

fn locators(archive: &prezpack::create::Finalized) -> Vec<Vec<u8>> {
    let packs: Vec<Pack> = archive.manifest.iter().map(|entry| entry.pack).collect();
    assert_eq!(packs, vec![Pack::Directory, Pack::Content]);
    archive.manifest.iter().map(|entry| entry.locator.clone()).collect()
}

#[test]
fn finalize_plans_by_mode() {
    let (creator, _) = built("root", "a.txt", ConcatMode::NoConcat);
    let archive = creator.finalize("out/site.jbk").unwrap();
    assert_eq!(archive.out_dir, "out");
    assert_eq!(archive.manifest_file, "site.jbk");
    assert_eq!(archive.directory_file, "site.jbk.jbkd");
    assert_eq!(archive.content_file, "site.jbk.jbkc");
    assert_eq!(locators(&archive), vec![b"site.jbk.jbkd".to_vec(), b"site.jbk.jbkc".to_vec()]);
    assert!(!archive.layout.container);
    assert_eq!(archive.steps.len(), 6);
    assert_eq!(archive.steps[5], FinalizeStep::Persist(Pack::Manifest));

    let (creator, _) = built("root", "a.txt", ConcatMode::TwoFiles);
    let archive = creator.finalize("out/site.jbk").unwrap();
    assert_eq!(archive.layout.directory, Placement::Standalone);
    assert_eq!(archive.layout.content, Placement::Embedded);
    assert_eq!(locators(&archive), vec![b"site.jbk.jbkd".to_vec(), Vec::new()]);

    let (creator, _) = built("root", "a.txt", ConcatMode::OneFile);
    let archive = creator.finalize("out/site.jbk").unwrap();
    assert!(archive.layout.container);
    assert_eq!(locators(&archive), vec![Vec::<u8>::new(), Vec::new()]);
    assert_eq!(archive.steps.first(), Some(&FinalizeStep::OpenContainer));
    assert_eq!(archive.steps.last(), Some(&FinalizeStep::CloseContainer));
}

#[test]
fn written_directory_pack_reads_back() {
    let (creator, _) = built("", "root/a.txt", ConcatMode::OneFile);
    let archive = creator.finalize("out/site.jbk").unwrap();
    let (mut file, path) = tempfile::NamedTempFile::new().unwrap().into_parts();
    archive.directory_pack.finalize().unwrap().write(&mut file).unwrap();
    drop(file);
    let source = jubako::FileSource::open(&path).unwrap();
    let pack = Arc::new(jubako::reader::DirectoryPack::new(source.into()).unwrap());
    let entries = pack.create_entry_storage();
    let values = pack.create_value_storage();

    let index = pack.get_index_from_name("arx_entries").unwrap().unwrap();
    assert_eq!(index.count().into_u32(), 5);
    let roots = pack.get_index_from_name("arx_root").unwrap().unwrap();
    assert_eq!((roots.offset().into_u32(), roots.count().into_u32()), (0, 1));
    let builder = jubako::reader::builder::AnyBuilder::new(
        index.get_store(&entries).unwrap(),
        values.as_ref(),
    )
    .unwrap();
    let mut read = Vec::new();
    for i in 0..5u32 {
        let entry = index.get_entry(&builder, i.into()).unwrap().unwrap();
        let variant = entry.get_variant_id().unwrap().unwrap().into_u8();
        let name = entry.get_value("name").unwrap().unwrap().as_vec().unwrap().to_vec();
        let parent = entry.get_value("parent").unwrap().unwrap().as_unsigned();
        let range = if variant == 1 {
            let first = entry.get_value("first_child").unwrap().unwrap().as_unsigned();
            let count = entry.get_value("nb_children").unwrap().unwrap().as_unsigned();
            Some((first, count))
        } else {
            None
        };
        read.push((variant, String::from_utf8(name).unwrap(), parent, range));
    }
    assert_eq!(
        read,
        vec![
            (1, "root".to_string(), NO_PARENT, Some((1, 3))),
            (0, "a.txt".to_string(), 0, None),
            (1, "sub".to_string(), 0, Some((4, 1))),
            (2, "link".to_string(), 0, None),
            (0, "b.txt".to_string(), 2, None),
        ]
    );
    let file_entry = index.get_entry(&builder, 4u32.into()).unwrap().unwrap();
    let address = file_entry.get_value("content").unwrap().unwrap().as_content();
    assert_eq!((address.pack_id.into_u16(), address.content_id.into_u32()), (1, 1));
    assert_eq!(file_entry.get_value("size").unwrap().unwrap().as_unsigned(), 5);
    let link_entry = index.get_entry(&builder, 3u32.into()).unwrap().unwrap();
    assert_eq!(
        link_entry.get_value("target").unwrap().unwrap().as_vec().unwrap().to_vec(),
        b"a.txt".to_vec()
    );

    let plain = pack.get_index_from_name("waj_entries").unwrap().unwrap();
    assert_eq!((plain.offset().into_u32(), plain.count().into_u32()), (0, 3));
    assert!(pack.get_index_from_name("waj_main").unwrap().is_none());
    let builder =
        jubako::reader::builder::AnyBuilder::new(plain.get_store(&entries).unwrap(), values.as_ref())
            .unwrap();
    let last = plain.get_entry(&builder, 2u32.into()).unwrap().unwrap();
    assert_eq!(
        last.get_value("path").unwrap().unwrap().as_vec().unwrap().to_vec(),
        b"root/sub/b.txt".to_vec()
    );

    let web = pack.get_index_from_name("jim_entries").unwrap().unwrap();
    assert_eq!(web.count().into_u32(), 3);
    assert_ne!(web.get_store_id().into_u32(), plain.get_store_id().into_u32());
    let main = pack.get_index_from_name("jim_main").unwrap().unwrap();
    assert_eq!((main.offset().into_u32(), main.count().into_u32()), (0, 1));
    let builder =
        jubako::reader::builder::AnyBuilder::new(web.get_store(&entries).unwrap(), values.as_ref())
            .unwrap();
    let first = web.get_entry(&builder, 0u32.into()).unwrap().unwrap();
    assert_eq!(first.get_variant_id().unwrap().unwrap().into_u8(), 0);
    assert_eq!(
        first.get_value("path").unwrap().unwrap().as_vec().unwrap().to_vec(),
        b"root/a.txt".to_vec()
    );
    assert_eq!(
        first.get_value("mimetype").unwrap().unwrap().as_vec().unwrap().to_vec(),
        b"text/plain".to_vec()
    );
    let redirect = web.get_entry(&builder, 1u32.into()).unwrap().unwrap();
    assert_eq!(redirect.get_variant_id().unwrap().unwrap().into_u8(), 1);
    assert_eq!(
        redirect.get_value("target").unwrap().unwrap().as_vec().unwrap().to_vec(),
        b"a.txt".to_vec()
    );
}

#[test]
fn unlisted_directory_blocks_the_build() {
    let tree = Tree::sample();
    let mut store = MemoryStore::new(&tree);
    let mut creator =
        Creator::new("out/site.jbk", String::new(), String::new(), ConcatMode::OneFile).unwrap();
    seed(&mut creator, &tree, "root", true).unwrap();
    match creator.next(&mut store).unwrap() {
        Step::List(0, path) => assert_eq!(path, "root"),
        other => panic!("unexpected step {other:?}"),
    }
    // The listing of `root` fails: the caller gives up. Nothing can be
    // recorded or finalized behind its back.
    assert!(matches!(creator.next(&mut store), Err(AddError::ListingExpected)));
    assert!(!creator.is_finished());
    assert!(matches!(creator.finalize("out/site.jbk"), Err(CreateError::Unfinished)));
}

#[test]
fn store_failure_changes_nothing() {
    let tree = Tree::sample();
    let mut store = MemoryStore::new(&tree);
    store.refuse = Some("root/a.txt");
    let mut creator =
        Creator::new("out/site.jbk", "root".to_string(), String::new(), ConcatMode::OneFile)
            .unwrap();
    seed(&mut creator, &tree, "root", true).unwrap();
    match creator.next(&mut store) {
        Err(AddError::Store(error)) => assert_eq!(error.message, "cannot read root/a.txt"),
        other => panic!("unexpected step {other:?}"),
    }
    assert_eq!(creator.fs_adder().creator().arx_count(), 0);
    assert_eq!(creator.fs_adder().flattener().popped(), 0);
    assert!(store.blobs.is_empty());
    store.refuse = None;
    assert!(matches!(creator.next(&mut store), Ok(Step::Recorded(0))));
    assert_eq!(creator.fs_adder().creator().arx_count(), 1);
}

#[test]
fn roots_are_refused_once_recording_started() {
    let tree = Tree::sample();
    let mut store = MemoryStore::new(&tree);
    let mut creator =
        Creator::new("out/site.jbk", String::new(), String::new(), ConcatMode::OneFile).unwrap();
    assert!(matches!(creator.add_child(tree.walk("root/a.txt")), Err(AddError::NoListingExpected)));
    assert!(matches!(creator.end_listing(), Err(AddError::NoListingExpected)));
    assert_eq!(creator.add_from_path(tree.walk("root/a.txt"), true).unwrap(), Seeded::Queued(0));
    assert_eq!(creator.add_from_path(tree.walk("root/sub"), false).unwrap(), Seeded::Queued(1));
    assert!(matches!(creator.next(&mut store), Ok(Step::Recorded(0))));
    assert!(matches!(
        creator.add_from_path(tree.walk("root/link"), true),
        Err(AddError::NotSeeding)
    ));
    // `root/sub` was added without recursion: it is recorded as an empty
    // directory and never listed.
    assert!(matches!(creator.next(&mut store), Ok(Step::Recorded(1))));
    assert!(matches!(creator.next(&mut store), Ok(Step::Done)));
    let rows = arx_rows(&creator);
    let cells = creator.fs_adder().flattener().cells();
    match rows[1] {
        ArxRow::Dir { first_entry, nb_entries, .. } => {
            assert_eq!(*first_entry, 2);
            assert_eq!(cells.resolve(*nb_entries), Some(0));
        }
        other => panic!("sub is recorded as {other:?}"),
    }
}

#[test]
fn paths_are_screened_before_queueing() {
    let mut tree = Tree::sample();
    tree.nodes.insert("root/dev", Node::Other);
    let mut creator =
        Creator::new("out/site.jbk", "root".to_string(), String::new(), ConcatMode::OneFile)
            .unwrap();
    assert_eq!(creator.add_from_path(tree.walk("root"), false).unwrap(), Seeded::Prefix);
    assert_eq!(creator.add_from_path(tree.walk("root/dev"), true).unwrap(), Seeded::Skipped);
    let mut elsewhere = tree.walk("root/a.txt");
    elsewhere.path = "other/a.txt".to_string();
    assert!(matches!(creator.add_from_path(elsewhere, true), Err(AddError::NotUnderPrefix)));
    let mut dots = tree.walk("root/sub");
    dots.path = "root/sub/..".to_string();
    assert!(matches!(creator.add_from_path(dots, true), Err(AddError::NoFileName)));
    assert_eq!(creator.fs_adder().root_count(), 0);
    assert!(creator.is_finished());
}

#[test]
fn output_path_needs_parent_and_name() {
    let mode = ConcatMode::OneFile;
    assert!(matches!(
        Creator::new("/", String::new(), String::new(), mode),
        Err(CreateError::NoParent)
    ));
    let creator = Creator::new("out/site.jbk", String::new(), String::new(), mode).unwrap();
    assert!(matches!(creator.finalize("out/.."), Err(CreateError::NoFileName)));
    let creator = Creator::new("site.jbk", String::new(), String::new(), mode).unwrap();
    let archive = creator.finalize("site.jbk").unwrap();
    assert_eq!(archive.out_dir, "");
    assert_eq!(archive.manifest_file, "site.jbk");
}

fn generated_tree(seed: u64, limit: usize) -> Tree {
    let mut state = seed;
    let mut draw = move |bound: u64| -> u64 {
        state = state.wrapping_mul(6364136223846793005).wrapping_add(1442695040888963407);
        (state >> 33) % bound
    };
    let mut nodes: BTreeMap<&'static str, Node> = BTreeMap::new();
    let mut open: Vec<&'static str> = vec!["t"];
    let mut made = 1;
    while let Some(dir) = open.pop() {
        let mut children = Vec::new();
        let wanted = if made < limit { draw(5) } else { 0 };
        for k in 0..wanted {
            let path: &'static str = Box::leak(format!("{dir}/n{k}").into_boxed_str());
            children.push(path);
            made += 1;
            match draw(4) {
                0 | 1 => open.insert(0, path),
                2 => {
                    nodes.insert(path, Node::File(b"x"));
                }
                _ => {
                    nodes.insert(path, Node::Link("t"));
                }
            }
        }
        nodes.insert(dir, Node::Dir(children));
    }
    Tree { nodes }
}

#[test]
fn generated_trees_are_laid_out_breadth_first() {
    for seed in 1..20u64 {
        let tree = generated_tree(seed, 300);
        let mut store = MemoryStore::new(&tree);
        let mut creator =
            Creator::new("out/t.jbk", String::new(), String::new(), ConcatMode::NoConcat).unwrap();
        seed_roots(&mut creator, &tree);
        drive(&mut creator, &tree, &mut store).unwrap();
        let rows = arx_rows(&creator);
        let cells = creator.fs_adder().flattener().cells();
        assert_eq!(rows.len(), tree.nodes.len());
        assert_eq!(creator.fs_adder().root_count(), 1);
        assert_eq!(name_and_parent(rows[0]), ("t".to_string(), None));

        // The path of every entry, rebuilt from the parent links.
        let mut paths: Vec<String> = Vec::new();
        for (j, row) in rows.iter().enumerate() {
            let (name, parent) = name_and_parent(row);
            match parent {
                None => {
                    assert_eq!(j, 0);
                    paths.push(name);
                }
                Some(p) => {
                    assert!((p as usize) < j);
                    assert!(matches!(rows[p as usize], ArxRow::Dir { .. }));
                    paths.push(format!("{}/{}", paths[p as usize], name));
                }
            }
        }
        for (d, row) in rows.iter().enumerate() {
            if let ArxRow::Dir { first_entry, nb_entries, .. } = row {
                let first = *first_entry as usize;
                let count = cells.resolve(*nb_entries).unwrap() as usize;
                assert!(d < first && first + count <= rows.len());
                // The child range holds the children as they were listed,
                // and nothing else names this directory as its parent.
                let listed: Vec<String> =
                    tree.children(&paths[d]).iter().map(|c| c.to_string()).collect();
                assert_eq!(paths[first..first + count].to_vec(), listed);
                let named =
                    rows.iter().filter(|r| name_and_parent(r).1 == Some(d as u32)).count();
                assert_eq!(named, count);
            }
        }
        let files = tree.nodes.values().filter(|n| matches!(n, Node::File(_))).count();
        assert_eq!(store.blobs.len(), files);
    }
}

fn seed_roots(creator: &mut Creator, tree: &Tree) {
    seed(creator, tree, "t", true).unwrap();
}

#[test]
fn children_of_the_prefix_are_the_roots() {
    let tree = Tree::sample();
    let mut store = MemoryStore::new(&tree);
    let mut creator =
        Creator::new("out/site.jbk", "root".to_string(), String::new(), ConcatMode::OneFile)
            .unwrap();
    assert_eq!(creator.add_from_path(tree.walk("root"), true).unwrap(), Seeded::Listing);
    // While the prefix is listed nothing else is taken or recorded.
    assert!(!creator.is_finished());
    assert!(matches!(
        creator.add_from_path(tree.walk("root/a.txt"), true),
        Err(AddError::ListingExpected)
    ));
    assert!(matches!(creator.next(&mut store), Err(AddError::ListingExpected)));
    assert_eq!(creator.add_child(tree.walk("root/a.txt")).unwrap(), Seeded::Queued(0));
    assert_eq!(creator.add_child(tree.walk("root")).unwrap(), Seeded::Prefix);
    assert_eq!(creator.add_child(tree.walk("root/sub")).unwrap(), Seeded::Queued(1));
    assert_eq!(creator.end_listing().unwrap(), 2);
    assert_eq!(creator.fs_adder().root_count(), 2);
    assert!(matches!(creator.end_listing(), Err(AddError::NoListingExpected)));
    drive(&mut creator, &tree, &mut store).unwrap();
    let listed: Vec<(String, Option<u32>)> =
        arx_rows(&creator).iter().map(|r| name_and_parent(r)).collect();
    assert_eq!(
        listed,
        vec![
            ("a.txt".to_string(), None),
            ("sub".to_string(), None),
            ("b.txt".to_string(), Some(1)),
        ]
    );
    // Once recording has started the prefix cannot be opened any more.
    assert!(matches!(creator.add_from_path(tree.walk("root"), true), Err(AddError::NotSeeding)));
}

#[test]
fn too_long_path_stops_the_run() {
    let long: &'static str = Box::leak(format!("root/{}", "n".repeat(252)).into_boxed_str());
    let fits: &'static str = Box::leak(format!("root/{}", "n".repeat(250)).into_boxed_str());
    assert_eq!((long.len(), fits.len()), (257, 255));
    let mut tree = Tree::sample();
    tree.nodes.insert(fits, Node::File(b"fits"));
    tree.nodes.insert(long, Node::File(b"too long"));
    let mut store = MemoryStore::new(&tree);
    let mut creator =
        Creator::new("out/site.jbk", String::new(), String::new(), ConcatMode::OneFile).unwrap();
    assert_eq!(creator.add_from_path(tree.walk(fits), true).unwrap(), Seeded::Queued(0));
    assert_eq!(creator.add_from_path(tree.walk(long), true).unwrap(), Seeded::Queued(1));
    assert!(matches!(creator.next(&mut store), Ok(Step::Recorded(0))));
    match jim_rows(&creator)[0] {
        JimRow::Content { path, .. } => assert_eq!(path.as_slice(), fits.as_bytes()),
        other => panic!("unexpected row {other:?}"),
    }
    // The second path cannot be recorded: the store is not asked, nothing
    // changes, and the archive cannot be finalized.
    assert_eq!(creator.content_request(), None);
    assert!(matches!(creator.next(&mut store), Err(AddError::TooLong)));
    assert!(matches!(
        creator.record(Some(ContentAddress { pack_id: 1, content_id: 9 })),
        Err(AddError::TooLong)
    ));
    assert_eq!(store.blobs.len(), 1);
    let tables = creator.fs_adder().creator();
    assert_eq!((tables.arx_count(), tables.waj_count(), tables.jim_count()), (1, 1, 1));
    assert!(!creator.is_finished());
    assert!(matches!(creator.finalize("out/site.jbk"), Err(CreateError::Unfinished)));
}
