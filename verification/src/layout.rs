//! Where the finished packs go.
//!
//! An archive is three packs: the directory pack with the record tables, the
//! content pack with the blobs, and the manifest pack that lists the other
//! two. The concatenation mode decides which of them are embedded in one
//! container file at the output path and which become files of their own
//! beside it. It decides nothing else: what is written is the same in every
//! mode, in the same order.

use vstd::prelude::*;
use vstd::string::StringExecFns;
use vstd::utf8::encode_utf8;
use crate::paths::bytes_of;

verus! {

/// How the packs of an archive are laid out on disk.
#[derive(Clone, Copy, Debug, PartialEq, Eq, Structural)]
pub enum ConcatMode {
    /// Directory, content and manifest pack are embedded, in that order, in
    /// one container file.
    OneFile,
    /// The content pack and the manifest are embedded in the container; the
    /// directory pack is a file of its own beside it.
    TwoFiles,
    /// Directory and content pack are files of their own; the manifest is
    /// the only file at the output path.
    NoConcat,
}

/// One of the three packs of an archive.
#[derive(Clone, Copy, Debug, PartialEq, Eq, Structural)]
pub enum Pack {
    Directory,
    Content,
    Manifest,
}

/// Where a finished pack ends up.
#[derive(Clone, Copy, Debug, PartialEq, Eq, Structural)]
pub enum Placement {
    /// Inside the container at the output path, found there by its UUID.
    Embedded,
    /// In a file of its own.
    Standalone,
}

/// One step of committing an archive.
#[derive(Clone, Copy, Debug, PartialEq, Eq, Structural)]
pub enum FinalizeStep {
    /// Start the container at the output path.
    OpenContainer,
    /// Serialise the pack into a temporary file in the output directory.
    Write(Pack),
    /// Append the written pack to the container.
    Embed(Pack),
    /// Move the written pack from its temporary file to its final name.
    Persist(Pack),
    /// Finish the container.
    CloseContainer,
}

/// Where each pack goes, and whether there is a container.
#[derive(Clone, Copy, Debug, PartialEq, Eq, Structural)]
pub struct Layout {
    pub container: bool,
    pub directory: Placement,
    pub content: Placement,
    pub manifest: Placement,
}

impl Layout {
    /// Where `pack` goes.
    pub open spec fn spec_placement(self, pack: Pack) -> Placement {
        match pack {
            Pack::Directory => self.directory,
            Pack::Content => self.content,
            Pack::Manifest => self.manifest,
        }
    }

    /// Where `pack` goes.
    #[verifier::when_used_as_spec(spec_placement)]
    pub fn placement(self, pack: Pack) -> (placement: Placement)
        ensures
            placement == self.spec_placement(pack),
    {
        match pack {
            Pack::Directory => self.directory,
            Pack::Content => self.content,
            Pack::Manifest => self.manifest,
        }
    }

    /// There is a container exactly when a pack is embedded, and then the
    /// manifest is embedded: the container is what stands at the output path.
    pub open spec fn coherent(self) -> bool {
        &&& self.container <==> (self.directory == Placement::Embedded || self.content
            == Placement::Embedded || self.manifest == Placement::Embedded)
        &&& self.container ==> self.manifest == Placement::Embedded
    }
}

/// The layout that `mode` asks for.
pub open spec fn layout_of(mode: ConcatMode) -> Layout {
    match mode {
        ConcatMode::OneFile => Layout {
            container: true,
            directory: Placement::Embedded,
            content: Placement::Embedded,
            manifest: Placement::Embedded,
        },
        ConcatMode::TwoFiles => Layout {
            container: true,
            directory: Placement::Standalone,
            content: Placement::Embedded,
            manifest: Placement::Embedded,
        },
        ConcatMode::NoConcat => Layout {
            container: false,
            directory: Placement::Standalone,
            content: Placement::Standalone,
            manifest: Placement::Standalone,
        },
    }
}

/// The two steps that deal with one pack: write it, then put it in place.
pub open spec fn pack_steps(layout: Layout, pack: Pack) -> Seq<FinalizeStep> {
    seq![
        FinalizeStep::Write(pack),
        match layout.spec_placement(pack) {
            Placement::Embedded => FinalizeStep::Embed(pack),
            Placement::Standalone => FinalizeStep::Persist(pack),
        },
    ]
}

/// The steps that commit an archive: the container is opened first if there
/// is one, then come the directory pack, the content pack and the manifest,
/// each written and put in place before the next, and the container is
/// closed last.
pub open spec fn steps_of(layout: Layout) -> Seq<FinalizeStep> {
    let packs = pack_steps(layout, Pack::Directory) + pack_steps(layout, Pack::Content)
        + pack_steps(layout, Pack::Manifest);
    if layout.container {
        seq![FinalizeStep::OpenContainer] + packs + seq![FinalizeStep::CloseContainer]
    } else {
        packs
    }
}

/// What the name of a standalone pack adds to the name of the output file.
pub open spec fn suffix_of(pack: Pack) -> Seq<char> {
    match pack {
        Pack::Directory => ".jbkd"@,
        Pack::Content => ".jbkc"@,
        Pack::Manifest => Seq::empty(),
    }
}

/// The name of the file that holds `pack` where it stands alone.
pub open spec fn file_of(out_name: Seq<char>, pack: Pack) -> Seq<char> {
    out_name + suffix_of(pack)
}

/// What the manifest records as the place of `pack`: nothing for an embedded
/// pack, the name of its file for a standalone one.
pub open spec fn locator_of(layout: Layout, out_name: Seq<char>, pack: Pack) -> Seq<u8> {
    match layout.spec_placement(pack) {
        Placement::Embedded => Seq::empty(),
        Placement::Standalone => encode_utf8(file_of(out_name, pack)),
    }
}

/// What the manifest records of one pack that it lists: which pack it is
/// and where to find it. An empty locator stands for a pack embedded in the
/// container; any other locator is the name of the pack's file, beside the
/// manifest.
#[derive(Debug)]
pub struct ManifestEntry {
    pub pack: Pack,
    pub locator: Vec<u8>,
}

/// A [`ManifestEntry`] as contracts see it.
pub struct ManifestEntryView {
    pub pack: Pack,
    pub locator: Seq<u8>,
}

impl View for ManifestEntry {
    type V = ManifestEntryView;

    open spec fn view(&self) -> ManifestEntryView {
        ManifestEntryView { pack: self.pack, locator: self.locator@ }
    }
}

/// What the manifest lists: the directory pack, then the content pack, each
/// with its locator.
pub open spec fn manifest_of(layout: Layout, out_name: Seq<char>) -> Seq<ManifestEntryView> {
    seq![
        ManifestEntryView {
            pack: Pack::Directory,
            locator: locator_of(layout, out_name, Pack::Directory),
        },
        ManifestEntryView {
            pack: Pack::Content,
            locator: locator_of(layout, out_name, Pack::Content),
        },
    ]
}

/// The views of a list of manifest entries.
pub open spec fn manifest_views(entries: Seq<ManifestEntry>) -> Seq<ManifestEntryView> {
    entries.map_values(|e: ManifestEntry| e@)
}

/// The write steps among `steps`, in their order.
pub open spec fn writes_in(steps: Seq<FinalizeStep>) -> Seq<FinalizeStep> {
    steps.filter(|s: FinalizeStep| s is Write)
}

impl ConcatMode {
    /// The layout that this mode asks for.
    pub fn layout(self) -> (layout: Layout)
        ensures
            layout == layout_of(self),
            layout.coherent(),
    {
        match self {
            ConcatMode::OneFile => Layout {
                container: true,
                directory: Placement::Embedded,
                content: Placement::Embedded,
                manifest: Placement::Embedded,
            },
            ConcatMode::TwoFiles => Layout {
                container: true,
                directory: Placement::Standalone,
                content: Placement::Embedded,
                manifest: Placement::Embedded,
            },
            ConcatMode::NoConcat => Layout {
                container: false,
                directory: Placement::Standalone,
                content: Placement::Standalone,
                manifest: Placement::Standalone,
            },
        }
    }
}

/// The steps that commit an archive in the given layout, in order.
pub fn finalize_steps(layout: Layout) -> (steps: Vec<FinalizeStep>)
    ensures
        steps@ == steps_of(layout),
{
    let mut steps: Vec<FinalizeStep> = Vec::new();
    if layout.container {
        steps.push(FinalizeStep::OpenContainer);
    }
    let packs = [Pack::Directory, Pack::Content, Pack::Manifest];
    let ghost head = steps@;
    let mut i: usize = 0;
    while i < 3
        invariant
            i <= 3,
            packs@ == seq![Pack::Directory, Pack::Content, Pack::Manifest],
            i == 0 ==> steps@ == head,
            i == 1 ==> steps@ == head + pack_steps(layout, Pack::Directory),
            i == 2 ==> steps@ == head + pack_steps(layout, Pack::Directory) + pack_steps(
                layout,
                Pack::Content,
            ),
            i == 3 ==> steps@ == head + pack_steps(layout, Pack::Directory) + pack_steps(
                layout,
                Pack::Content,
            ) + pack_steps(layout, Pack::Manifest),
        decreases 3 - i,
    {
        let pack = packs[i];
        let ghost before = steps@;
        steps.push(FinalizeStep::Write(pack));
        match layout.placement(pack) {
            Placement::Embedded => steps.push(FinalizeStep::Embed(pack)),
            Placement::Standalone => steps.push(FinalizeStep::Persist(pack)),
        }
        assert(steps@ =~= before + pack_steps(layout, pack));
        i += 1;
    }
    if layout.container {
        steps.push(FinalizeStep::CloseContainer);
    }
    assert(steps@ =~= steps_of(layout));
    steps
}

/// The name of the file that holds `pack` where it stands alone: the name of
/// the output file for the manifest, that name with `.jbkd` behind it for
/// the directory pack and with `.jbkc` for the content pack.
pub fn pack_file_name(out_name: &str, pack: Pack) -> (name: String)
    ensures
        name@ == file_of(out_name@, pack),
{
    let name = out_name.to_owned();
    match pack {
        Pack::Directory => name.concat(".jbkd"),
        Pack::Content => name.concat(".jbkc"),
        Pack::Manifest => {
            assert(name@ + Seq::<char>::empty() =~= name@);
            name
        },
    }
}

/// What the manifest records as the place of `pack`.
pub fn locator(layout: Layout, out_name: &str, pack: Pack) -> (bytes: Vec<u8>)
    ensures
        bytes@ == locator_of(layout, out_name@, pack),
{
    match layout.placement(pack) {
        Placement::Embedded => Vec::new(),
        Placement::Standalone => {
            let name = pack_file_name(out_name, pack);
            bytes_of(name.as_str())
        },
    }
}

/// What the manifest lists in the given layout.
pub fn manifest_entries(layout: Layout, out_name: &str) -> (entries: Vec<ManifestEntry>)
    ensures
        manifest_views(entries@) == manifest_of(layout, out_name@),
{
    let mut entries: Vec<ManifestEntry> = Vec::new();
    entries.push(
        ManifestEntry { pack: Pack::Directory, locator: locator(layout, out_name, Pack::Directory) },
    );
    entries.push(
        ManifestEntry { pack: Pack::Content, locator: locator(layout, out_name, Pack::Content) },
    );
    assert(manifest_views(entries@) =~= manifest_of(layout, out_name@));
    entries
}

/// In every mode the same three packs are written, in the same order: the
/// directory pack, then the content pack, then the manifest. Nothing that
/// is written depends on the mode.
pub proof fn lemma_same_writes_in_every_mode(mode: ConcatMode)
    ensures
        writes_in(steps_of(layout_of(mode))) == seq![
            FinalizeStep::Write(Pack::Directory),
            FinalizeStep::Write(Pack::Content),
            FinalizeStep::Write(Pack::Manifest),
        ],
{
    let steps = steps_of(layout_of(mode));
    let is_write = |s: FinalizeStep| s is Write;
    match mode {
        ConcatMode::OneFile => {
            assert(steps =~= seq![
                FinalizeStep::OpenContainer,
                FinalizeStep::Write(Pack::Directory),
                FinalizeStep::Embed(Pack::Directory),
                FinalizeStep::Write(Pack::Content),
                FinalizeStep::Embed(Pack::Content),
                FinalizeStep::Write(Pack::Manifest),
                FinalizeStep::Embed(Pack::Manifest),
                FinalizeStep::CloseContainer,
            ]);
            lemma_filter_eight(steps, is_write);
        },
        ConcatMode::TwoFiles => {
            assert(steps =~= seq![
                FinalizeStep::OpenContainer,
                FinalizeStep::Write(Pack::Directory),
                FinalizeStep::Persist(Pack::Directory),
                FinalizeStep::Write(Pack::Content),
                FinalizeStep::Embed(Pack::Content),
                FinalizeStep::Write(Pack::Manifest),
                FinalizeStep::Embed(Pack::Manifest),
                FinalizeStep::CloseContainer,
            ]);
            lemma_filter_eight(steps, is_write);
        },
        ConcatMode::NoConcat => {
            assert(steps =~= seq![
                FinalizeStep::Write(Pack::Directory),
                FinalizeStep::Persist(Pack::Directory),
                FinalizeStep::Write(Pack::Content),
                FinalizeStep::Persist(Pack::Content),
                FinalizeStep::Write(Pack::Manifest),
                FinalizeStep::Persist(Pack::Manifest),
            ]);
            lemma_filter_six(steps, is_write);
        },
    }
}

/// Filtering a sequence keeps, of each element, what the predicate says.
proof fn lemma_filter_push<A>(s: Seq<A>, x: A, pred: spec_fn(A) -> bool)
    ensures
        s.push(x).filter(pred) == if pred(x) {
            s.filter(pred).push(x)
        } else {
            s.filter(pred)
        },
{
    reveal(Seq::filter);
    assert(s.push(x).drop_last() =~= s);
}

proof fn lemma_filter_six(s: Seq<FinalizeStep>, pred: spec_fn(FinalizeStep) -> bool)
    requires
        s.len() == 6,
        pred(s[0]) && !pred(s[1]) && pred(s[2]) && !pred(s[3]) && pred(s[4]) && !pred(s[5]),
    ensures
        s.filter(pred) == seq![s[0], s[2], s[4]],
{
    reveal(Seq::filter);
    let e = Seq::<FinalizeStep>::empty();
    assert(e.filter(pred) =~= e);
    lemma_filter_push(e, s[0], pred);
    lemma_filter_push(e.push(s[0]), s[1], pred);
    lemma_filter_push(e.push(s[0]).push(s[1]), s[2], pred);
    lemma_filter_push(e.push(s[0]).push(s[1]).push(s[2]), s[3], pred);
    lemma_filter_push(e.push(s[0]).push(s[1]).push(s[2]).push(s[3]), s[4], pred);
    lemma_filter_push(e.push(s[0]).push(s[1]).push(s[2]).push(s[3]).push(s[4]), s[5], pred);
    assert(s =~= e.push(s[0]).push(s[1]).push(s[2]).push(s[3]).push(s[4]).push(s[5]));
    assert(e.push(s[0]).push(s[2]).push(s[4]) =~= seq![s[0], s[2], s[4]]);
}

proof fn lemma_filter_eight(s: Seq<FinalizeStep>, pred: spec_fn(FinalizeStep) -> bool)
    requires
        s.len() == 8,
        !pred(s[0]) && pred(s[1]) && !pred(s[2]) && pred(s[3]) && !pred(s[4]) && pred(s[5])
            && !pred(s[6]) && !pred(s[7]),
    ensures
        s.filter(pred) == seq![s[1], s[3], s[5]],
{
    let e = Seq::<FinalizeStep>::empty();
    assert(e.filter(pred) =~= e) by {
        reveal(Seq::filter);
    }
    lemma_filter_push(e, s[0], pred);
    let t = e.push(s[0]).push(s[1]).push(s[2]).push(s[3]).push(s[4]).push(s[5]);
    lemma_filter_push(e.push(s[0]), s[1], pred);
    lemma_filter_push(e.push(s[0]).push(s[1]), s[2], pred);
    lemma_filter_push(e.push(s[0]).push(s[1]).push(s[2]), s[3], pred);
    lemma_filter_push(e.push(s[0]).push(s[1]).push(s[2]).push(s[3]), s[4], pred);
    lemma_filter_push(e.push(s[0]).push(s[1]).push(s[2]).push(s[3]).push(s[4]), s[5], pred);
    lemma_filter_push(t, s[6], pred);
    lemma_filter_push(t.push(s[6]), s[7], pred);
    assert(s =~= t.push(s[6]).push(s[7]));
    assert(e.push(s[1]).push(s[3]).push(s[5]) =~= seq![s[1], s[3], s[5]]);
}

/// A pack has a locator exactly when it stands alone, and the locator is
/// then the name of its file. Two modes that place a pack alike record the
/// same locator for it.
pub proof fn lemma_locator_follows_placement(a: ConcatMode, b: ConcatMode, out_name: Seq<char>, pack: Pack)
    ensures
        layout_of(a).spec_placement(pack) == Placement::Embedded ==> locator_of(
            layout_of(a),
            out_name,
            pack,
        ).len() == 0,
        layout_of(a).spec_placement(pack) == layout_of(b).spec_placement(pack) ==> locator_of(
            layout_of(a),
            out_name,
            pack,
        ) == locator_of(layout_of(b), out_name, pack),
{
}

} // verus!
