//! Filesystem entries and what each output schema records of them.
//!
//! A [`WalkEntry`] is what the directory walker reports of one node. From it
//! and from the address under which the content store keeps a file's bytes an
//! [`FsEntry`] is assembled. Each schema then takes its own projection of the
//! entry: the filesystem schema records directories, files and links, the web
//! schema records files and links only, and neither records anything else.

use vstd::prelude::*;
use crate::mime::{mime_of_path, resolved_mime, Mime};

verus! {

/// Where the content store keeps one blob: the pack and the blob's number in
/// that pack.
#[derive(Clone, Copy, Debug, PartialEq, Eq, Structural)]
pub struct ContentAddress {
    pub pack_id: u16,
    pub content_id: u32,
}

/// The number of the directory pack in an archive.
pub const DIRECTORY_PACK_ID: u16 = 0;

/// The number of the content pack in an archive.
pub const CONTENT_PACK_ID: u16 = 1;

impl ContentAddress {
    /// The address of the blob with number `content_id` of the content
    /// pack.
    pub fn in_content_pack(content_id: u32) -> (address: Self)
        ensures
            address == (ContentAddress { pack_id: CONTENT_PACK_ID, content_id }),
    {
        ContentAddress { pack_id: CONTENT_PACK_ID, content_id }
    }
}

/// The content store could not take a blob.
#[derive(Debug)]
pub struct StoreError {
    pub message: String,
}

/// The content store as the engine uses it: it takes the bytes of the file
/// at `path` and answers with the address under which it keeps them.
pub trait Adder {
    fn add(&mut self, path: &str) -> Result<ContentAddress, StoreError>;
}

/// One node as the directory walker reports it.
#[derive(Debug)]
pub struct WalkEntry {
    /// Path of the node in the filesystem.
    pub path: String,
    pub is_dir: bool,
    pub is_file: bool,
    pub is_symlink: bool,
    /// Size of a regular file in bytes.
    pub size: u64,
    pub uid: u64,
    pub gid: u64,
    pub mode: u64,
    pub mtime: u64,
    /// The first bytes of a regular file, read through a handle of their own.
    pub head: Vec<u8>,
    /// Where a symbolic link points.
    pub link_target: String,
}

/// A [`WalkEntry`] as contracts see it.
pub struct WalkView {
    pub path: Seq<char>,
    pub is_dir: bool,
    pub is_file: bool,
    pub is_symlink: bool,
    pub size: u64,
    pub uid: u64,
    pub gid: u64,
    pub mode: u64,
    pub mtime: u64,
    pub head: Seq<u8>,
    pub link_target: Seq<char>,
}

impl View for WalkEntry {
    type V = WalkView;

    open spec fn view(&self) -> WalkView {
        WalkView {
            path: self.path@,
            is_dir: self.is_dir,
            is_file: self.is_file,
            is_symlink: self.is_symlink,
            size: self.size,
            uid: self.uid,
            gid: self.gid,
            mode: self.mode,
            mtime: self.mtime,
            head: self.head@,
            link_target: self.link_target@,
        }
    }
}

/// What kind of node an entry is, with what the schemas record of it.
#[derive(Debug)]
pub enum FsEntryKind {
    Dir,
    /// A regular file: where its bytes are kept, their media type, their
    /// number.
    File(ContentAddress, Mime, u64),
    /// A symbolic link and its target.
    Link(String),
    /// Anything else: a device, a socket, a pipe.
    Other,
}

/// An [`FsEntryKind`] as contracts see it.
pub enum KindView {
    Dir,
    File { address: ContentAddress, mime: Seq<char>, size: u64 },
    Link { target: Seq<char> },
    Other,
}

impl View for FsEntryKind {
    type V = KindView;

    open spec fn view(&self) -> KindView {
        match self {
            FsEntryKind::Dir => KindView::Dir,
            FsEntryKind::File(address, mime, size) => KindView::File {
                address: *address,
                mime: mime@,
                size: *size,
            },
            FsEntryKind::Link(target) => KindView::Link { target: target@ },
            FsEntryKind::Other => KindView::Other,
        }
    }
}

/// One node of the input tree, ready to be recorded.
#[derive(Debug)]
pub struct FsEntry {
    pub kind: FsEntryKind,
    /// Path of the node in the filesystem.
    pub path: String,
    /// Path of the node in the archive.
    pub name: String,
    pub uid: u64,
    pub gid: u64,
    pub mode: u64,
    pub mtime: u64,
}

/// An [`FsEntry`] as contracts see it.
pub struct EntryView {
    pub kind: KindView,
    pub path: Seq<char>,
    pub name: Seq<char>,
    pub uid: u64,
    pub gid: u64,
    pub mode: u64,
    pub mtime: u64,
}

impl View for FsEntry {
    type V = EntryView;

    open spec fn view(&self) -> EntryView {
        EntryView {
            kind: self.kind@,
            path: self.path@,
            name: self.name@,
            uid: self.uid,
            gid: self.gid,
            mode: self.mode,
            mtime: self.mtime,
        }
    }
}

/// What the filesystem schema records of an entry.
#[derive(Debug)]
pub enum ArxKind {
    Dir,
    /// Size and content address of a file.
    File(u64, ContentAddress),
    /// Target of a link.
    Link(String),
}

/// An [`ArxKind`] as contracts see it.
pub enum ArxKindView {
    Dir,
    File { size: u64, address: ContentAddress },
    Link { target: Seq<char> },
}

impl View for ArxKind {
    type V = ArxKindView;

    open spec fn view(&self) -> ArxKindView {
        match self {
            ArxKind::Dir => ArxKindView::Dir,
            ArxKind::File(size, address) => ArxKindView::File { size: *size, address: *address },
            ArxKind::Link(target) => ArxKindView::Link { target: target@ },
        }
    }
}

/// What the web schema records of an entry.
#[derive(Debug)]
pub enum WajKind {
    /// Content address and media type of a file.
    Content(ContentAddress, Mime),
    /// Target of a redirection.
    Redirect(String),
}

/// A [`WajKind`] as contracts see it.
pub enum WajKindView {
    Content { address: ContentAddress, mime: Seq<char> },
    Redirect { target: Seq<char> },
}

impl View for WajKind {
    type V = WajKindView;

    open spec fn view(&self) -> WajKindView {
        match self {
            WajKind::Content(address, mime) => WajKindView::Content {
                address: *address,
                mime: mime@,
            },
            WajKind::Redirect(target) => WajKindView::Redirect { target: target@ },
        }
    }
}

/// The bytes of this node go to the content store: it is a regular file.
pub open spec fn needs_content(walk: WalkView) -> bool {
    !walk.is_dir && walk.is_file
}

/// The kind of a walked node. A directory is a directory whatever else the
/// walker says of it, then comes a regular file, then a link. `address` is
/// where the content store keeps the bytes of a file.
pub open spec fn kind_of(walk: WalkView, address: ContentAddress) -> KindView {
    if walk.is_dir {
        KindView::Dir
    } else if walk.is_file {
        KindView::File {
            address,
            mime: resolved_mime(mime_of_path(walk.path), walk.head),
            size: walk.size,
        }
    } else if walk.is_symlink {
        KindView::Link { target: walk.link_target }
    } else {
        KindView::Other
    }
}

/// The entry made of a walked node, its name in the archive and the address
/// of its content.
pub open spec fn entry_of(walk: WalkView, name: Seq<char>, address: ContentAddress) -> EntryView {
    EntryView {
        kind: kind_of(walk, address),
        path: walk.path,
        name,
        uid: walk.uid,
        gid: walk.gid,
        mode: walk.mode,
        mtime: walk.mtime,
    }
}

/// The filesystem schema's projection: directories, files and links.
pub open spec fn arx_projection(kind: KindView) -> Option<ArxKindView> {
    match kind {
        KindView::Dir => Some(ArxKindView::Dir),
        KindView::File { address, mime, size } => Some(ArxKindView::File { size, address }),
        KindView::Link { target } => Some(ArxKindView::Link { target }),
        KindView::Other => None,
    }
}

/// The web schema's projection: files and links. A directory has no record
/// of its own there: it is implied by the paths below it.
pub open spec fn waj_projection(kind: KindView) -> Option<WajKindView> {
    match kind {
        KindView::File { address, mime, size } => Some(WajKindView::Content { address, mime }),
        KindView::Link { target } => Some(WajKindView::Redirect { target }),
        KindView::Dir => None,
        KindView::Other => None,
    }
}

impl WalkEntry {
    /// The path whose bytes are to be handed to the content store, for a
    /// regular file; `None` for any other node.
    pub fn content_request(&self) -> (path: Option<&str>)
        ensures
            path is Some <==> needs_content(self@),
            path matches Some(p) ==> p@ == self@.path,
    {
        if !self.is_dir && self.is_file {
            Some(self.path.as_str())
        } else {
            None
        }
    }
}

impl FsEntry {
    /// Makes the entry of a walked node. `address` is what the content store
    /// answered for a regular file; for any other node it is not looked at.
    /// A regular file without an address makes no entry.
    pub fn assemble(dir_entry: WalkEntry, name: String, address: Option<ContentAddress>) -> (entry:
        Option<Box<Self>>)
        ensures
            entry is None <==> needs_content(dir_entry@) && address is None,
            entry matches Some(e) ==> exists|a: ContentAddress|
                (address matches Some(given) ==> a == given) && e@ == #[trigger] entry_of(
                    dir_entry@,
                    name@,
                    a,
                ),
    {
        let ghost walk = dir_entry@;
        let kind = if dir_entry.is_dir {
            FsEntryKind::Dir
        } else if dir_entry.is_file {
            match address {
                Some(a) => {
                    let mime = Mime::detect(dir_entry.path.as_str(), dir_entry.head.as_slice());
                    FsEntryKind::File(a, mime, dir_entry.size)
                },
                None => {
                    return None;
                },
            }
        } else if dir_entry.is_symlink {
            FsEntryKind::Link(dir_entry.link_target)
        } else {
            FsEntryKind::Other
        };
        let entry = FsEntry {
            kind,
            path: dir_entry.path,
            name,
            uid: dir_entry.uid,
            gid: dir_entry.gid,
            mode: dir_entry.mode,
            mtime: dir_entry.mtime,
        };
        proof {
            let a = match address {
                Some(given) => given,
                None => ContentAddress { pack_id: 0, content_id: 0 },
            };
            assert(entry@ == entry_of(walk, name@, a));
        }
        Some(Box::new(entry))
    }

    /// Makes the entry of a walked node, handing the bytes of a regular file
    /// to the content store first. The store is asked once for a regular
    /// file and not at all for anything else, so only a regular file can
    /// fail.
    pub fn new_from_walk_entry<A: Adder>(dir_entry: WalkEntry, name: String, adder: &mut A) -> (entry:
        Result<Box<Self>, StoreError>)
        ensures
            entry is Err ==> needs_content(dir_entry@),
            !needs_content(dir_entry@) ==> entry is Ok,
            entry matches Ok(e) ==> exists|a: ContentAddress|
                e@ == #[trigger] entry_of(dir_entry@, name@, a),
    {
        let address = match dir_entry.content_request() {
            Some(path) => match adder.add(path) {
                Ok(address) => Some(address),
                Err(error) => {
                    return Err(error);
                },
            },
            None => None,
        };
        Ok(FsEntry::assemble(dir_entry, name, address).unwrap())
    }

    /// What the filesystem schema records of this entry.
    pub fn arx_kind(&self) -> (kind: Option<ArxKind>)
        ensures
            kind is Some <==> arx_projection(self@.kind) is Some,
            kind matches Some(k) ==> Some(k@) == arx_projection(self@.kind),
    {
        match &self.kind {
            FsEntryKind::Dir => Some(ArxKind::Dir),
            FsEntryKind::File(address, _mime, size) => Some(ArxKind::File(*size, *address)),
            FsEntryKind::Link(target) => Some(ArxKind::Link(target.clone())),
            FsEntryKind::Other => None,
        }
    }

    /// What the web schema records of this entry.
    pub fn waj_kind(&self) -> (kind: Option<WajKind>)
        ensures
            kind is Some <==> waj_projection(self@.kind) is Some,
            kind matches Some(k) ==> Some(k@) == waj_projection(self@.kind),
    {
        match &self.kind {
            FsEntryKind::File(address, mime, _size) => Some(
                WajKind::Content(*address, mime.duplicate()),
            ),
            FsEntryKind::Link(target) => Some(WajKind::Redirect(target.clone())),
            FsEntryKind::Dir => None,
            FsEntryKind::Other => None,
        }
    }

    /// Path of the entry in the archive.
    pub fn name(&self) -> (name: &str)
        ensures
            name@ == self@.name,
    {
        self.name.as_str()
    }

    /// Path of the entry in the filesystem.
    pub fn path(&self) -> (path: &str)
        ensures
            path@ == self@.path,
    {
        self.path.as_str()
    }

    pub fn uid(&self) -> (uid: u64)
        ensures
            uid == self@.uid,
    {
        self.uid
    }

    pub fn gid(&self) -> (gid: u64)
        ensures
            gid == self@.gid,
    {
        self.gid
    }

    pub fn mode(&self) -> (mode: u64)
        ensures
            mode == self@.mode,
    {
        self.mode
    }

    pub fn mtime(&self) -> (mtime: u64)
        ensures
            mtime == self@.mtime,
    {
        self.mtime
    }
}

/// Projecting is a function of the entry's kind: two entries of one kind,
/// and so one entry looked at twice, give the same record in each schema.
pub proof fn lemma_projection_repeats(first: EntryView, second: EntryView)
    requires
        first.kind == second.kind,
    ensures
        arx_projection(first.kind) == arx_projection(second.kind),
        waj_projection(first.kind) == waj_projection(second.kind),
{
}

/// An entry of the web schema is an entry of the filesystem schema, and
/// what neither a directory, a file nor a link is has no record anywhere.
pub proof fn lemma_web_records_are_filesystem_records(kind: KindView)
    ensures
        waj_projection(kind) is Some ==> arx_projection(kind) is Some,
        arx_projection(kind) is None <==> kind is Other,
        waj_projection(kind) is None <==> kind is Other || kind is Dir,
{
}

} // verus!
