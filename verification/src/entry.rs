//! Entries: what a traversal of the source tree finds, and what the archive
//! gets for it.

use vstd::prelude::*;
use vstd::string::*;
use crate::manifest::{ManifestModel, ModManifest};
use crate::path::{
    any_hidden,
    archive_path,
    components,
    cuts,
    has_hidden_component,
    joined,
    lemma_components_are_names,
    lemma_components_concat,
    lemma_joined_under_root,
    lemma_segments_of_joined,
    path_components,
    segments,
    ARCHIVE_SEPARATOR,
};

verus! {

/// One entry that a traversal of the source tree yields: its path as the
/// traversal gives it, from the root down, and whether it is a regular file.
/// Whatever is no file is packaged as a directory.
#[derive(Debug, PartialEq, Eq)]
pub struct SourceEntry {
    pub path: String,
    pub is_file: bool,
}

/// What a `SourceEntry` stands for.
pub struct SourceEntryModel {
    pub path: Seq<char>,
    pub is_file: bool,
}

impl View for SourceEntry {
    type V = SourceEntryModel;

    open spec fn view(&self) -> SourceEntryModel {
        SourceEntryModel { path: self.path@, is_file: self.is_file }
    }
}

/// One entry of the archive. A file is filled from the bytes at `source`; a
/// directory is a bare marker. Either has its path inside the archive.
#[derive(Debug, PartialEq, Eq)]
pub enum ArchiveEntry {
    File { source: String, archive_path: String },
    Directory { archive_path: String },
}

/// What an `ArchiveEntry` stands for.
pub enum ArchiveEntryModel {
    File { source: Seq<char>, archive_path: Seq<char> },
    Directory { archive_path: Seq<char> },
}

impl View for ArchiveEntry {
    type V = ArchiveEntryModel;

    open spec fn view(&self) -> ArchiveEntryModel {
        match self {
            ArchiveEntry::File { source, archive_path } => ArchiveEntryModel::File {
                source: source@,
                archive_path: archive_path@,
            },
            ArchiveEntry::Directory { archive_path } => ArchiveEntryModel::Directory {
                archive_path: archive_path@,
            },
        }
    }
}

impl ArchiveEntryModel {
    /// The entry's path inside the archive.
    pub open spec fn path(self) -> Seq<char> {
        match self {
            ArchiveEntryModel::File { archive_path, .. } => archive_path,
            ArchiveEntryModel::Directory { archive_path } => archive_path,
        }
    }

    /// Whether the entry stands under the top-level segment `root`: its path
    /// starts with the segment and the archive separator, and goes on.
    pub open spec fn rooted_under(self, root: Seq<char>) -> bool {
        root.push(ARCHIVE_SEPARATOR).is_prefix_of(self.path()) && self.path().len() > root.len() + 1
    }
}

impl ArchiveEntry {
    /// The entry's path inside the archive.
    pub fn path(&self) -> (path: &String)
        ensures
            path@ == self@.path(),
    {
        match self {
            ArchiveEntry::File { archive_path, .. } => archive_path,
            ArchiveEntry::Directory { archive_path } => archive_path,
        }
    }

    /// Whether the entry is a file.
    pub fn is_file(&self) -> (r: bool)
        ensures
            r == (self@ is File),
    {
        match self {
            ArchiveEntry::File { .. } => true,
            ArchiveEntry::Directory { .. } => false,
        }
    }
}

impl Clone for ArchiveEntry {
    fn clone(&self) -> (copy: Self)
        ensures
            copy@ == self@,
    {
        match self {
            ArchiveEntry::File { source, archive_path } => ArchiveEntry::File {
                source: source.clone(),
                archive_path: archive_path.clone(),
            },
            ArchiveEntry::Directory { archive_path } => ArchiveEntry::Directory {
                archive_path: archive_path.clone(),
            },
        }
    }
}

/// The views of a sequence of source entries.
pub open spec fn source_views(entries: Seq<SourceEntry>) -> Seq<SourceEntryModel> {
    Seq::new(entries.len(), |i: int| entries[i]@)
}

/// The views of a sequence of archive entries.
pub open spec fn archive_views(entries: Seq<ArchiveEntry>) -> Seq<ArchiveEntryModel> {
    Seq::new(entries.len(), |i: int| entries[i]@)
}

/// Whether an entry is left out of the archive of `manifest`: the traversal
/// root is, and so is whatever has a hidden component.
pub open spec fn left_out(manifest: ManifestModel, entry: SourceEntryModel, separator: char) -> bool {
    let parts = path_components(entry.path, separator);
    parts.len() == 0 || any_hidden(parts, manifest.artifact_file_name())
}

/// The archive entry that stands for a source entry, whether or not the
/// entry is left out: a file keeps its source path, and either kind gets the
/// entry's components under the archive root.
pub open spec fn mapped(manifest: ManifestModel, entry: SourceEntryModel, separator: char) -> ArchiveEntryModel {
    let archive_path = joined(seq![manifest.archive_root()] + path_components(entry.path, separator));
    if entry.is_file {
        ArchiveEntryModel::File { source: entry.path, archive_path }
    } else {
        ArchiveEntryModel::Directory { archive_path }
    }
}

/// What the archive gets for one source entry: nothing where the entry is
/// left out, else the entry mapped.
pub open spec fn planned(manifest: ManifestModel, entry: SourceEntryModel, separator: char) -> Option<
    ArchiveEntryModel,
> {
    if left_out(manifest, entry, separator) {
        None
    } else {
        Some(mapped(manifest, entry, separator))
    }
}

/// What the archive gets for a sequence of source entries: what it gets for
/// each, in the same order.
pub open spec fn plan(manifest: ManifestModel, entries: Seq<SourceEntryModel>, separator: char) -> Seq<
    ArchiveEntryModel,
>
    decreases entries.len(),
{
    if entries.len() == 0 {
        Seq::<ArchiveEntryModel>::empty()
    } else {
        let before = plan(manifest, entries.drop_last(), separator);
        match planned(manifest, entries.last(), separator) {
            Some(entry) => before.push(entry),
            None => before,
        }
    }
}

/// Decides what the archive of `manifest` gets for one entry of the source
/// tree. `separator` is the host's path separator.
pub fn plan_entry(manifest: &ModManifest, entry: &SourceEntry, separator: char) -> (result: Option<
    ArchiveEntry,
>)
    ensures
        match result {
            Some(e) => planned(manifest@, entry@, separator) == Some(e@),
            None => planned(manifest@, entry@, separator) is None,
        },
{
    let parts = components(entry.path.as_str(), separator);
    let artifact_name = manifest.artifact_file_name();
    if has_hidden_component(&parts, artifact_name.as_str()) {
        return None;
    }
    let root = manifest.archive_root();
    match archive_path(root.as_str(), &parts) {
        None => None,
        Some(archive_path) => {
            if entry.is_file {
                Some(ArchiveEntry::File { source: entry.path.clone(), archive_path })
            } else {
                Some(ArchiveEntry::Directory { archive_path })
            }
        },
    }
}

/// Decides what the archive of `manifest` gets for the entries of a source
/// tree, in the order in which the traversal found them.
pub fn plan_entries(manifest: &ModManifest, entries: &Vec<SourceEntry>, separator: char) -> (result:
    Vec<ArchiveEntry>)
    ensures
        archive_views(result@) == plan(manifest@, source_views(entries@), separator),
{
    let mut result: Vec<ArchiveEntry> = Vec::new();
    let mut i: usize = 0;
    assert(source_views(entries@).take(0) =~= Seq::<SourceEntryModel>::empty());
    assert(archive_views(result@) =~= Seq::<ArchiveEntryModel>::empty());
    while i < entries.len()
        invariant
            i <= entries.len(),
            archive_views(result@) == plan(
                manifest@,
                source_views(entries@).take(i as int),
                separator,
            ),
        decreases entries.len() - i,
    {
        let ghost before = archive_views(result@);
        proof {
            let upto = source_views(entries@).take(i + 1);
            assert(upto.drop_last() =~= source_views(entries@).take(i as int));
            assert(upto.last() == entries@[i as int]@);
        }
        match plan_entry(manifest, &entries[i], separator) {
            Some(entry) => {
                result.push(entry);
                assert(archive_views(result@) =~= before.push(entry@));
            },
            None => {},
        }
        i = i + 1;
    }
    assert(source_views(entries@).take(entries.len() as int) =~= source_views(entries@));
    result
}

/// An entry that lies below the traversal root.
pub open spec fn is_below_root(entry: SourceEntryModel, separator: char) -> bool {
    path_components(entry.path, separator).len() > 0
}

/// The part of an archive path below the top-level segment `root`.
pub open spec fn below_root(archive_path: Seq<char>, root: Seq<char>) -> Seq<char> {
    archive_path.skip(root.len() as int + 1)
}

/// Each planned entry is what the archive gets for one of the source
/// entries: the proof hands out the place of that source entry.
pub proof fn lemma_plan_origin(
    manifest: ManifestModel,
    entries: Seq<SourceEntryModel>,
    separator: char,
    i: int,
) -> (j: int)
    requires
        0 <= i < plan(manifest, entries, separator).len(),
    ensures
        0 <= j < entries.len(),
        planned(manifest, entries[j], separator) == Some(plan(manifest, entries, separator)[i]),
    decreases entries.len(),
{
    let before = plan(manifest, entries.drop_last(), separator);
    if i < before.len() {
        let j = lemma_plan_origin(manifest, entries.drop_last(), separator, i);
        assert(entries.drop_last()[j] == entries[j]);
        j
    } else {
        entries.len() - 1
    }
}

/// Each source entry that is not left out is planned: the proof hands out
/// its place in the plan.
pub proof fn lemma_plan_covers(
    manifest: ManifestModel,
    entries: Seq<SourceEntryModel>,
    separator: char,
    j: int,
) -> (i: int)
    requires
        0 <= j < entries.len(),
        !left_out(manifest, entries[j], separator),
    ensures
        0 <= i < plan(manifest, entries, separator).len(),
        plan(manifest, entries, separator)[i] == mapped(manifest, entries[j], separator),
    decreases entries.len(),
{
    let before = plan(manifest, entries.drop_last(), separator);
    if j < entries.len() - 1 {
        assert(entries.drop_last()[j] == entries[j]);
        let i = lemma_plan_covers(manifest, entries.drop_last(), separator, j);
        i
    } else {
        before.len() as int
    }
}

/// Below the archive root a mapped entry keeps the path of its source: the
/// archive path is the root, the archive separator and the source's
/// components joined, and cutting it below the root gives those components
/// back. So two entries with one archive path have the same components.
pub proof fn mapped_path_keeps_components(
    manifest: ManifestModel,
    entry: SourceEntryModel,
    separator: char,
)
    requires
        is_below_root(entry, separator),
    ensures
        mapped(manifest, entry, separator).path() == manifest.archive_root().push(
            ARCHIVE_SEPARATOR,
        ) + joined(path_components(entry.path, separator)),
        segments(
            below_root(mapped(manifest, entry, separator).path(), manifest.archive_root()),
            ARCHIVE_SEPARATOR,
        ) == path_components(entry.path, separator),
{
    let root = manifest.archive_root();
    let parts = path_components(entry.path, separator);
    let path = mapped(manifest, entry, separator).path();
    lemma_joined_under_root(root, parts);
    lemma_components_are_names(entry.path, separator);
    lemma_segments_of_joined(parts);
    assert(below_root(path, root) =~= joined(parts));
}

/// Hidden entries never reach the archive, at whatever depth they lie. Every
/// planned entry stands under the one top-level segment of its archive, none
/// stands for the traversal root, and below the top-level segment no segment
/// of its path is the artifact's own name, a dot-prefixed name or the name of
/// the output cache directory.
pub proof fn hidden_entries_never_planned(
    manifest: ManifestModel,
    entries: Seq<SourceEntryModel>,
    separator: char,
    i: int,
)
    requires
        0 <= i < plan(manifest, entries, separator).len(),
    ensures
        ({
            let path = plan(manifest, entries, separator)[i].path();
            let root = manifest.archive_root();
            let below = segments(below_root(path, root), ARCHIVE_SEPARATOR);
            &&& plan(manifest, entries, separator)[i].rooted_under(root)
            &&& !any_hidden(below, manifest.artifact_file_name())
            &&& forall|k: int| 0 <= k < below.len() ==> crate::path::names_entry(#[trigger] below[k])
        }),
{
    let j = lemma_plan_origin(manifest, entries, separator, i);
    let entry = entries[j];
    let root = manifest.archive_root();
    let path = plan(manifest, entries, separator)[i].path();
    assert(path == mapped(manifest, entry, separator).path());
    mapped_path_keeps_components(manifest, entry, separator);
    lemma_components_are_names(entry.path, separator);
    assert(root.push(ARCHIVE_SEPARATOR) =~= path.subrange(0, root.len() as int + 1));
    let parts = path_components(entry.path, separator);
    assert(crate::path::names_entry(parts[0]));
    crate::path::lemma_joined_starts_with_first(parts);
}

/// A file of the archive is filled from where the traversal found it, and a
/// directory stays a directory: each planned entry has the kind of the source
/// entry that it stands for, and a file names that entry's path as the source
/// of its bytes.
pub proof fn planned_entry_keeps_kind_and_source(
    manifest: ManifestModel,
    entries: Seq<SourceEntryModel>,
    separator: char,
    i: int,
) -> (j: int)
    requires
        0 <= i < plan(manifest, entries, separator).len(),
    ensures
        0 <= j < entries.len(),
        !left_out(manifest, entries[j], separator),
        plan(manifest, entries, separator)[i].path() == mapped(
            manifest,
            entries[j],
            separator,
        ).path(),
        match plan(manifest, entries, separator)[i] {
            ArchiveEntryModel::File { source, .. } => entries[j].is_file && source
                == entries[j].path,
            ArchiveEntryModel::Directory { .. } => !entries[j].is_file,
        },
{
    lemma_plan_origin(manifest, entries, separator, i)
}

/// What lies below a hidden entry is left out with it, however deep. So a
/// traversal that does not descend into what the filter hides misses nothing
/// that the archive would get.
pub proof fn below_hidden_is_left_out(
    manifest: ManifestModel,
    above: SourceEntryModel,
    below: SourceEntryModel,
    c: char,
    rest: Seq<char>,
    separator: char,
)
    requires
        any_hidden(path_components(above.path, separator), manifest.artifact_file_name()),
        cuts(c, separator),
        below.path == above.path.push(c) + rest,
    ensures
        left_out(manifest, below, separator),
{
    let artifact_name = manifest.artifact_file_name();
    let upper = path_components(above.path, separator);
    let lower = path_components(rest, separator);
    lemma_components_concat(above.path, c, rest, separator);
    let i = choose|i: int| 0 <= i < upper.len() && crate::filter::hidden(upper[i], artifact_name);
    assert((upper + lower)[i] == upper[i]);
}

/// A source tree without hidden entries is kept whole: its entries below the
/// root, each mapped, are the plan, in the traversal's order.
pub proof fn clean_tree_is_kept_whole(
    manifest: ManifestModel,
    entries: Seq<SourceEntryModel>,
    separator: char,
)
    requires
        forall|j: int|
            0 <= j < entries.len() ==> !any_hidden(
                path_components((#[trigger] entries[j]).path, separator),
                manifest.artifact_file_name(),
            ),
    ensures
        plan(manifest, entries, separator) == entries.filter(
            |e: SourceEntryModel| is_below_root(e, separator),
        ).map_values(|e: SourceEntryModel| mapped(manifest, e, separator)),
    decreases entries.len(),
{
    let below = |e: SourceEntryModel| is_below_root(e, separator);
    let map = |e: SourceEntryModel| mapped(manifest, e, separator);
    if entries.len() == 0 {
        reveal(Seq::filter);
        assert(entries.filter(below).map_values(map) =~= Seq::<ArchiveEntryModel>::empty());
    } else {
        let init = entries.drop_last();
        assert forall|j: int| 0 <= j < init.len() implies !any_hidden(
            path_components((#[trigger] init[j]).path, separator),
            manifest.artifact_file_name(),
        ) by {
            assert(init[j] == entries[j]);
        }
        clean_tree_is_kept_whole(manifest, init, separator);
        assert(entries =~= init.push(entries.last()));
        init.lemma_filter_push(entries.last(), below);
        let last = entries[entries.len() - 1];
        if is_below_root(last, separator) {
            init.filter(below).lemma_push_map_commute(map, last);
        }
    }
}

/// The order in which a traversal yields the entries does not change which
/// entries the archive gets: two listings of the same entries give plans of
/// the same entries.
pub proof fn plan_ignores_order(
    manifest: ManifestModel,
    first: Seq<SourceEntryModel>,
    second: Seq<SourceEntryModel>,
    separator: char,
)
    requires
        first.to_set() == second.to_set(),
    ensures
        plan(manifest, first, separator).to_set() == plan(manifest, second, separator).to_set(),
{
    lemma_plan_within(manifest, first, second, separator);
    lemma_plan_within(manifest, second, first, separator);
    assert(plan(manifest, first, separator).to_set() =~= plan(
        manifest,
        second,
        separator,
    ).to_set());
}

/// Where every entry of `first` occurs in `second`, every entry planned for
/// `first` is planned for `second`.
pub proof fn lemma_plan_within(
    manifest: ManifestModel,
    first: Seq<SourceEntryModel>,
    second: Seq<SourceEntryModel>,
    separator: char,
)
    requires
        first.to_set().subset_of(second.to_set()),
    ensures
        plan(manifest, first, separator).to_set().subset_of(
            plan(manifest, second, separator).to_set(),
        ),
{
    let ours = plan(manifest, first, separator);
    let theirs = plan(manifest, second, separator);
    assert forall|a: ArchiveEntryModel| ours.to_set().contains(a) implies theirs.to_set().contains(
        a,
    ) by {
        assert(ours.contains(a));
        let i = choose|i: int| 0 <= i < ours.len() && ours[i] == a;
        let j = lemma_plan_origin(manifest, first, separator, i);
        assert(first.contains(first[j]));
        assert(first.to_set().contains(first[j]));
        assert(second.to_set().contains(first[j]));
        assert(second.contains(first[j]));
        let k = choose|k: int| 0 <= k < second.len() && second[k] == first[j];
        let l = lemma_plan_covers(manifest, second, separator, k);
        assert(theirs[l] == a);
        assert(theirs.contains(a));
    }
}

} // verus!
