//! The path mapper: from a path below the traversal root to a path inside
//! the archive.
//!
//! A source path is cut into components at the host's separator and at `/`.
//! Inside the archive the components are joined by `/` under one top-level
//! segment, whatever the host's convention is.

use vstd::prelude::*;
use vstd::string::*;

verus! {

/// The separator of paths inside an archive.
pub const ARCHIVE_SEPARATOR: char = '/';

/// The views of a sequence of strings.
pub open spec fn texts(strings: Seq<String>) -> Seq<Seq<char>> {
    Seq::new(strings.len(), |i: int| strings[i]@)
}

/// Whether `c` ends a segment of a source path: the host's separator does,
/// and so does `/`.
pub open spec fn cuts(c: char, separator: char) -> bool {
    c == separator || c == ARCHIVE_SEPARATOR
}

/// `path` cut at every separating character. There is always at least one
/// segment, and segments may be empty.
pub open spec fn segments(path: Seq<char>, separator: char) -> Seq<Seq<char>>
    decreases path.len(),
{
    if path.len() == 0 {
        seq![Seq::<char>::empty()]
    } else {
        let before = segments(path.drop_last(), separator);
        if cuts(path.last(), separator) {
            before.push(Seq::<char>::empty())
        } else {
            before.drop_last().push(before.last().push(path.last()))
        }
    }
}

/// A segment that names something below the root: neither empty nor the
/// root marker.
pub open spec fn names_entry(segment: Seq<char>) -> bool {
    segment.len() > 0 && segment != crate::filter::root_marker()
}

/// The components of `path`: its segments without the empty ones and
/// without root markers, in their order. The traversal root has none.
pub open spec fn path_components(path: Seq<char>, separator: char) -> Seq<Seq<char>> {
    segments(path, separator).filter(|segment: Seq<char>| names_entry(segment))
}

/// `parts` joined by the archive separator.
pub open spec fn joined(parts: Seq<Seq<char>>) -> Seq<char>
    decreases parts.len(),
{
    if parts.len() == 0 {
        Seq::<char>::empty()
    } else if parts.len() == 1 {
        parts[0]
    } else {
        joined(parts.drop_last()).push(ARCHIVE_SEPARATOR) + parts.last()
    }
}

/// The path inside the archive of the entry with the given components, under
/// the top-level segment `root`. The traversal root itself has no such path.
pub open spec fn archive_path_of(root: Seq<char>, components: Seq<Seq<char>>) -> Option<Seq<char>> {
    if components.len() == 0 {
        None
    } else {
        Some(joined(seq![root] + components))
    }
}

/// Whether one of `components` is kept out of archives by the traversal
/// filter, at whatever depth.
pub open spec fn any_hidden(components: Seq<Seq<char>>, artifact_name: Seq<char>) -> bool {
    exists|i: int|
        0 <= i < components.len() && #[trigger] crate::filter::hidden(components[i], artifact_name)
}

/// The path of the file `file_name` in `directory`: the two joined by the
/// host's separator, which is left out where the directory is empty or
/// already ends in a separating character.
pub open spec fn destination_of(directory: Seq<char>, file_name: Seq<char>, separator: char) -> Seq<
    char,
> {
    if directory.len() == 0 || cuts(directory.last(), separator) {
        directory + file_name
    } else {
        directory.push(separator) + file_name
    }
}

/// A text without a separating character.
pub open spec fn uncut(text: Seq<char>, separator: char) -> bool {
    forall|i: int| 0 <= i < text.len() ==> !cuts(#[trigger] text[i], separator)
}

/// Appends `segment` to `parts` if it names an entry.
fn keep_segment(parts: &mut Vec<String>, segment: String)
    ensures
        texts(final(parts)@) == if names_entry(segment@) {
            texts(old(parts)@).push(segment@)
        } else {
            texts(old(parts)@)
        },
{
    proof {
        reveal_strlit(".");
        assert("."@ =~= crate::filter::root_marker());
    }
    if !segment.as_str().is_empty() && !crate::text::same_text(segment.as_str(), ".") {
        let ghost kept = segment@;
        parts.push(segment);
        assert(texts(parts@) =~= texts(old(parts)@).push(kept));
    }
}

/// Cuts a source path into its components.
pub fn components(path: &str, separator: char) -> (parts: Vec<String>)
    ensures
        texts(parts@) == path_components(path@, separator),
{
    let mut parts: Vec<String> = Vec::new();
    let mut current = String::new();
    let ghost keep = |segment: Seq<char>| names_entry(segment);
    proof {
        assert(path@.take(0) =~= Seq::<char>::empty());
        assert(segments(path@.take(0), separator).drop_last() =~= Seq::<Seq<char>>::empty());
        reveal(Seq::filter);
        assert(texts(parts@) =~= Seq::<Seq<char>>::empty());
    }
    for c in iter: path.chars()
        invariant
            iter.seq() == path@,
            keep == |segment: Seq<char>| names_entry(segment),
            segments(path@.take(iter.index() as int), separator).len() >= 1,
            segments(path@.take(iter.index() as int), separator).last() == current@,
            texts(parts@) == segments(path@.take(iter.index() as int), separator).drop_last().filter(
                keep,
            ),
    {
        let ghost i = iter.index() as int;
        let ghost before = segments(path@.take(i), separator);
        proof {
            assert(path@.take(i + 1).drop_last() =~= path@.take(i));
            assert(path@.take(i + 1).last() == c);
        }
        if c == separator || c == ARCHIVE_SEPARATOR {
            keep_segment(&mut parts, current);
            current = String::new();
            proof {
                let after = segments(path@.take(i + 1), separator);
                assert(after == before.push(Seq::<char>::empty()));
                assert(after.drop_last() =~= before);
                assert(before =~= before.drop_last().push(before.last()));
                before.drop_last().lemma_filter_push(before.last(), keep);
            }
        } else {
            current.push(c);
            proof {
                let after = segments(path@.take(i + 1), separator);
                assert(after == before.drop_last().push(before.last().push(c)));
                assert(after.drop_last() =~= before.drop_last());
            }
        }
    }
    proof {
        assert(path@.take(path@.len() as int) =~= path@);
        let all = segments(path@, separator);
        assert(all =~= all.drop_last().push(all.last()));
        all.drop_last().lemma_filter_push(all.last(), keep);
    }
    keep_segment(&mut parts, current);
    parts
}

/// Decides whether an entry with the given components is kept out of the
/// archive whose file is named `artifact_name`: it is as soon as one of its
/// components is hidden.
pub fn has_hidden_component(components: &Vec<String>, artifact_name: &str) -> (r: bool)
    ensures
        r == any_hidden(texts(components@), artifact_name@),
{
    let mut i: usize = 0;
    while i < components.len()
        invariant
            i <= components.len(),
            forall|j: int|
                0 <= j < i ==> !#[trigger] crate::filter::hidden(
                    texts(components@)[j],
                    artifact_name@,
                ),
        decreases components.len() - i,
    {
        if crate::filter::is_hidden(components[i].as_str(), artifact_name) {
            assert(crate::filter::hidden(texts(components@)[i as int], artifact_name@));
            return true;
        }
        i = i + 1;
    }
    false
}

/// Maps an entry to its path inside the archive: the top-level segment `root`
/// and the entry's components, joined by `/`. The traversal root, which has
/// no components, has no path there.
pub fn archive_path(root: &str, components: &Vec<String>) -> (mapped: Option<String>)
    ensures
        match mapped {
            Some(path) => archive_path_of(root@, texts(components@)) == Some(path@),
            None => archive_path_of(root@, texts(components@)) is None,
        },
{
    if components.len() == 0 {
        return None;
    }
    let mut path = root.to_owned();
    let mut i: usize = 0;
    assert((seq![root@] + texts(components@).take(0)) =~= seq![root@]);
    while i < components.len()
        invariant
            i <= components.len(),
            path@ == joined(seq![root@] + texts(components@).take(i as int)),
        decreases components.len() - i,
    {
        proof {
            let before = seq![root@] + texts(components@).take(i as int);
            let after = seq![root@] + texts(components@).take(i + 1);
            assert(after.drop_last() =~= before);
            assert(after.last() == components@[i as int]@);
        }
        path.push(ARCHIVE_SEPARATOR);
        path.append(components[i].as_str());
        i = i + 1;
    }
    assert(texts(components@).take(components.len() as int) =~= texts(components@));
    Some(path)
}

/// Computes the full path of the artifact `file_name` in the destination
/// directory.
pub fn destination_path(directory: &str, file_name: &str, separator: char) -> (path: String)
    ensures
        path@ == destination_of(directory@, file_name@, separator),
{
    let n = directory.unicode_len();
    let mut path = directory.to_owned();
    if n > 0 {
        let last = directory.get_char(n - 1);
        if last != separator && last != ARCHIVE_SEPARATOR {
            path.push(separator);
        }
    }
    path.append(file_name);
    path
}

/// `segments` always yields at least one segment.
pub proof fn lemma_segments_nonempty(path: Seq<char>, separator: char)
    ensures
        segments(path, separator).len() >= 1,
    decreases path.len(),
{
    if path.len() > 0 {
        lemma_segments_nonempty(path.drop_last(), separator);
    }
}

/// No segment holds a separating character.
pub proof fn lemma_segments_uncut(path: Seq<char>, separator: char)
    ensures
        forall|k: int|
            0 <= k < segments(path, separator).len() ==> uncut(
                #[trigger] segments(path, separator)[k],
                separator,
            ),
    decreases path.len(),
{
    if path.len() > 0 {
        lemma_segments_uncut(path.drop_last(), separator);
        lemma_segments_nonempty(path.drop_last(), separator);
        let before = segments(path.drop_last(), separator);
        let after = segments(path, separator);
        assert forall|k: int| 0 <= k < after.len() implies uncut(
            #[trigger] after[k],
            separator,
        ) by {
            if cuts(path.last(), separator) {
                if k < before.len() {
                    assert(after[k] == before[k]);
                }
            } else {
                if k < before.len() - 1 {
                    assert(after[k] == before[k]);
                } else {
                    assert(after[k] == before.last().push(path.last()));
                    assert(uncut(before.last(), separator));
                }
            }
        }
    }
}

/// Every component names an entry and holds no separating character.
pub proof fn lemma_components_are_names(path: Seq<char>, separator: char)
    ensures
        forall|k: int|
            0 <= k < path_components(path, separator).len() ==> {
                &&& names_entry(#[trigger] path_components(path, separator)[k])
                &&& uncut(path_components(path, separator)[k], separator)
                &&& uncut(path_components(path, separator)[k], ARCHIVE_SEPARATOR)
            },
{
    let all = segments(path, separator);
    let keep = |segment: Seq<char>| names_entry(segment);
    let kept = all.filter(keep);
    lemma_segments_uncut(path, separator);
    assert forall|k: int| 0 <= k < kept.len() implies {
        &&& names_entry(#[trigger] kept[k])
        &&& uncut(kept[k], separator)
        &&& uncut(kept[k], ARCHIVE_SEPARATOR)
    } by {
        all.lemma_filter_pred(keep, k);
        assert(kept.contains(kept[k]));
        all.lemma_filter_contains_rev(keep, kept[k]);
        let j = choose|j: int| 0 <= j < all.len() && all[j] == kept[k];
        assert(uncut(all[j], separator));
    }
}

/// Text without a separating character, put behind a path, lengthens the
/// path's last segment and changes no other.
pub proof fn lemma_segments_append(prefix: Seq<char>, tail: Seq<char>, separator: char)
    requires
        uncut(tail, separator),
    ensures
        segments(prefix + tail, separator) == segments(prefix, separator).drop_last().push(
            segments(prefix, separator).last() + tail,
        ),
    decreases tail.len(),
{
    lemma_segments_nonempty(prefix, separator);
    let base = segments(prefix, separator);
    if tail.len() == 0 {
        assert(prefix + tail =~= prefix);
        assert(base.last() + tail =~= base.last());
        assert(base.drop_last().push(base.last()) =~= base);
    } else {
        let shorter = tail.drop_last();
        assert forall|i: int| 0 <= i < shorter.len() implies !cuts(
            #[trigger] shorter[i],
            separator,
        ) by {
            assert(shorter[i] == tail[i]);
        }
        lemma_segments_append(prefix, shorter, separator);
        assert((prefix + tail).drop_last() =~= prefix + shorter);
        assert((prefix + tail).last() == tail[tail.len() - 1]);
        let mid = segments(prefix + shorter, separator);
        assert(mid.drop_last() =~= base.drop_last());
        assert(mid.last().push(tail.last()) =~= base.last() + tail);
    }
}

/// A path that is made of two, with a separating character between them,
/// has the segments of the first and then those of the second.
pub proof fn lemma_segments_concat(front: Seq<char>, c: char, back: Seq<char>, separator: char)
    requires
        cuts(c, separator),
    ensures
        segments(front.push(c) + back, separator) == segments(front, separator) + segments(
            back,
            separator,
        ),
    decreases back.len(),
{
    let whole = front.push(c) + back;
    let nothing = Seq::<char>::empty();
    let first = segments(front, separator);
    if back.len() == 0 {
        assert(whole =~= front.push(c));
        assert(front.push(c).drop_last() =~= front);
        assert(first.push(nothing) =~= first + seq![nothing]);
    } else {
        let shorter = back.drop_last();
        lemma_segments_concat(front, c, shorter, separator);
        lemma_segments_nonempty(shorter, separator);
        assert(whole.drop_last() =~= front.push(c) + shorter);
        assert(whole.last() == back.last());
        let second = segments(shorter, separator);
        if cuts(back.last(), separator) {
            assert((first + second).push(nothing) =~= first + second.push(nothing));
        } else {
            let grown = second.last().push(back.last());
            assert((first + second).drop_last() =~= first + second.drop_last());
            assert((first + second).last() == second.last());
            assert((first + second.drop_last()).push(grown) =~= first + second.drop_last().push(
                grown,
            ));
        }
    }
}

/// A path that is made of two, with a separating character between them,
/// has the components of the first and then those of the second.
pub proof fn lemma_components_concat(front: Seq<char>, c: char, back: Seq<char>, separator: char)
    requires
        cuts(c, separator),
    ensures
        path_components(front.push(c) + back, separator) == path_components(front, separator)
            + path_components(back, separator),
{
    lemma_segments_concat(front, c, back, separator);
    Seq::filter_distributes_over_add(
        segments(front, separator),
        segments(back, separator),
        |segment: Seq<char>| names_entry(segment),
    );
}

/// Cutting what was joined gives the parts back, where no part holds the
/// archive separator.
pub proof fn lemma_segments_of_joined(parts: Seq<Seq<char>>)
    requires
        parts.len() >= 1,
        forall|i: int| 0 <= i < parts.len() ==> uncut(#[trigger] parts[i], ARCHIVE_SEPARATOR),
    ensures
        segments(joined(parts), ARCHIVE_SEPARATOR) == parts,
    decreases parts.len(),
{
    let nothing = Seq::<char>::empty();
    if parts.len() == 1 {
        lemma_segments_append(nothing, parts[0], ARCHIVE_SEPARATOR);
        assert(nothing + parts[0] =~= parts[0]);
        assert(segments(nothing, ARCHIVE_SEPARATOR) =~= seq![nothing]);
        assert(segments(joined(parts), ARCHIVE_SEPARATOR) =~= parts);
    } else {
        let init = parts.drop_last();
        assert forall|i: int| 0 <= i < init.len() implies uncut(
            #[trigger] init[i],
            ARCHIVE_SEPARATOR,
        ) by {
            assert(init[i] == parts[i]);
        }
        lemma_segments_of_joined(init);
        let stem = joined(init).push(ARCHIVE_SEPARATOR);
        assert(stem.drop_last() =~= joined(init));
        assert(segments(stem, ARCHIVE_SEPARATOR) == init.push(nothing));
        assert(uncut(parts.last(), ARCHIVE_SEPARATOR));
        lemma_segments_append(stem, parts.last(), ARCHIVE_SEPARATOR);
        assert(init.push(nothing).drop_last() =~= init);
        assert(nothing + parts.last() =~= parts.last());
        assert(init.push(parts.last()) =~= parts);
    }
}

/// What is joined starts with its first part.
pub proof fn lemma_joined_starts_with_first(parts: Seq<Seq<char>>)
    requires
        parts.len() >= 1,
    ensures
        joined(parts).len() >= parts[0].len(),
    decreases parts.len(),
{
    if parts.len() > 1 {
        lemma_joined_starts_with_first(parts.drop_last());
        assert(parts.drop_last()[0] == parts[0]);
    }
}

/// An archive path is the root, the archive separator, and the components
/// joined.
pub proof fn lemma_joined_under_root(root: Seq<char>, components: Seq<Seq<char>>)
    requires
        components.len() >= 1,
    ensures
        joined(seq![root] + components) == root.push(ARCHIVE_SEPARATOR) + joined(components),
    decreases components.len(),
{
    let all = seq![root] + components;
    assert(all.drop_last() =~= seq![root] + components.drop_last());
    assert(all.last() == components.last());
    if components.len() == 1 {
        assert(all.drop_last() =~= seq![root]);
        assert(joined(seq![root]) == root);
        assert(joined(components) == components[0]);
        assert(joined(all) =~= root.push(ARCHIVE_SEPARATOR) + components[0]);
    } else {
        lemma_joined_under_root(root, components.drop_last());
        assert(joined(all) =~= root.push(ARCHIVE_SEPARATOR) + joined(components));
    }
}

} // verus!
