//! Laws of the file layout: which path each file of a design gets.

use vstd::prelude::*;
use crate::manager::{camera_angles, file_path, preview_name};
use crate::paths::{climbs, inside, is_relative, join_path_spec, parent_segment_at, scad_suffix, stem_of};

verus! {

/// Joining keeps the last character of a non-empty relative part.
proof fn lemma_join_ends_like_rel(base: Seq<char>, rel: Seq<char>)
    requires
        rel.len() > 0,
    ensures
        join_path_spec(base, rel).len() >= rel.len(),
        join_path_spec(base, rel).last() == rel.last(),
{
}

/// Two relative parts that begin alike and join onto one base to the same
/// path are the same.
proof fn lemma_join_injective(base: Seq<char>, r1: Seq<char>, r2: Seq<char>)
    requires
        r1.len() > 0,
        r2.len() > 0,
        r1[0] == r2[0],
        join_path_spec(base, r1) == join_path_spec(base, r2),
    ensures
        r1 == r2,
{
    if r1[0] == '/' {
    } else if base.len() == 0 || base[base.len() - 1] == '/' {
        assert((base + r1).subrange(base.len() as int, (base + r1).len() as int) =~= r1);
        assert((base + r2).subrange(base.len() as int, (base + r2).len() as int) =~= r2);
    } else {
        let k: int = base.len() as int + 1;
        assert((base + seq!['/'] + r1).subrange(k, (base + seq!['/'] + r1).len() as int) =~= r1);
        assert((base + seq!['/'] + r2).subrange(k, (base + seq!['/'] + r2).len() as int) =~= r2);
    }
}

/// A name that does not end in 'd' keeps its whole text as its stem.
pub(crate) proof fn lemma_stem_keeps_name(name: Seq<char>)
    requires
        name.len() > 0,
        name.last() != 'd',
    ensures
        stem_of(name) == name,
{
    if name.len() >= 5 && name.subrange(name.len() - 5, name.len() as int) == scad_suffix() {
        assert(name.subrange(name.len() - 5, name.len() as int)[4] == name.last());
    }
}

/// The path of a file with a non-empty extension ends like the extension.
proof fn lemma_file_path_ends_like_ext(dir: Seq<char>, name: Seq<char>, ext: Seq<char>)
    requires
        ext.len() > 0,
    ensures
        file_path(dir, name, ext).last() == ext.last(),
{
    let rel = stem_of(name) + seq!['.'] + ext;
    assert(rel.last() == ext.last());
    lemma_join_ends_like_rel(dir, rel);
}

/// The relative name of preview `i` of the design `stem`, its ".png" added.
spec fn preview_rel(stem: Seq<char>, i: int) -> Seq<char> {
    preview_name(stem, camera_angles()[i].1) + seq!['.'] + "png"@
}

/// The preview labels: seven non-empty, pairwise different names, none
/// of which ends in 'd'.
pub(crate) proof fn lemma_labels()
    ensures
        camera_angles().len() == 7,
        forall|i: int| 0 <= i < 7 ==> #[trigger] camera_angles()[i].1.len() > 0
            && camera_angles()[i].1.last() != 'd',
        forall|i: int, j: int| 0 <= i < 7 && 0 <= j < 7 && i != j
            ==> #[trigger] camera_angles()[i].1 != #[trigger] camera_angles()[j].1,
{
    reveal_strlit("iso");
    reveal_strlit("front");
    reveal_strlit("top");
    reveal_strlit("right");
    reveal_strlit("back");
    reveal_strlit("top_right");
    reveal_strlit("top_left");
    assert forall|i: int, j: int| 0 <= i < 7 && 0 <= j < 7 && i != j
        implies #[trigger] camera_angles()[i].1 != #[trigger] camera_angles()[j].1 by {
        let a = camera_angles()[i].1;
        let b = camera_angles()[j].1;
        if a == b {
            assert(a.len() == b.len());
            assert(a[0] == b[0]);
            assert(a.last() == b.last());
        }
    }
}

proof fn lemma_preview_path(dir: Seq<char>, stem: Seq<char>, i: int)
    requires
        0 <= i < 7,
    ensures
        file_path(dir, preview_name(stem, camera_angles()[i].1), "png"@)
            == join_path_spec(dir, preview_rel(stem, i)),
        preview_rel(stem, i).len() > 0,
        preview_rel(stem, i)[0] == (if stem.len() > 0 { stem[0] } else { '_' }),
        preview_rel(stem, i).last() == 'g',
{
    lemma_labels();
    reveal_strlit("_preview_");
    reveal_strlit("png");
    let label = camera_angles()[i].1;
    let name = preview_name(stem, label);
    assert(name.last() == label.last());
    lemma_stem_keeps_name(name);
    if stem.len() > 0 {
        assert(name[0] == stem[0]);
    } else {
        assert(name[0] == '_');
    }
}

/// The files that a design owns all have paths of their own: its source,
/// each of its preview images and its metadata are pairwise distinct, and
/// an STL export, under whatever name, never lands on any of them.
pub proof fn lemma_design_files_distinct(dir: Seq<char>, filename: Seq<char>, output_name: Seq<char>)
    ensures
        forall|i: int, j: int|
            #![trigger camera_angles()[i], camera_angles()[j]]
            0 <= i < camera_angles().len() && 0 <= j < camera_angles().len() && i != j
                ==> file_path(dir, preview_name(stem_of(filename), camera_angles()[i].1), "png"@)
                != file_path(dir, preview_name(stem_of(filename), camera_angles()[j].1), "png"@),
        forall|i: int|
            #![trigger camera_angles()[i]]
            0 <= i < camera_angles().len() ==> {
                let png = file_path(dir, preview_name(stem_of(filename), camera_angles()[i].1), "png"@);
                &&& png != file_path(dir, filename, "scad"@)
                &&& png != file_path(dir, stem_of(filename) + ".meta"@, "json"@)
                &&& png != file_path(dir, output_name, "stl"@)
            },
        file_path(dir, filename, "scad"@) != file_path(dir, stem_of(filename) + ".meta"@, "json"@),
        file_path(dir, output_name, "stl"@) != file_path(dir, filename, "scad"@),
        file_path(dir, output_name, "stl"@) != file_path(dir, stem_of(filename) + ".meta"@, "json"@),
        forall|i: int|
            #![trigger camera_angles()[i]]
            0 <= i < camera_angles().len() ==> file_path(dir, stem_of(filename) + "_preview"@, "png"@)
                != file_path(dir, preview_name(stem_of(filename), camera_angles()[i].1), "png"@),
        ({
            let single = file_path(dir, stem_of(filename) + "_preview"@, "png"@);
            &&& single != file_path(dir, filename, "scad"@)
            &&& single != file_path(dir, stem_of(filename) + ".meta"@, "json"@)
            &&& single != file_path(dir, output_name, "stl"@)
        }),
{
    reveal_strlit("scad");
    reveal_strlit("json");
    reveal_strlit("stl");
    reveal_strlit("png");
    lemma_labels();
    let stem = stem_of(filename);
    let meta = stem + ".meta"@;
    lemma_file_path_ends_like_ext(dir, filename, "scad"@);
    lemma_file_path_ends_like_ext(dir, meta, "json"@);
    lemma_file_path_ends_like_ext(dir, output_name, "stl"@);
    assert forall|i: int|
        #![trigger camera_angles()[i]]
        0 <= i < camera_angles().len() implies {
            let png = file_path(dir, preview_name(stem, camera_angles()[i].1), "png"@);
            &&& png != file_path(dir, filename, "scad"@)
            &&& png != file_path(dir, meta, "json"@)
            &&& png != file_path(dir, output_name, "stl"@)
        } by {
        lemma_preview_path(dir, stem, i);
        lemma_join_ends_like_rel(dir, preview_rel(stem, i));
    }
    assert forall|i: int, j: int|
        #![trigger camera_angles()[i], camera_angles()[j]]
        0 <= i < camera_angles().len() && 0 <= j < camera_angles().len() && i != j
            implies file_path(dir, preview_name(stem, camera_angles()[i].1), "png"@)
            != file_path(dir, preview_name(stem, camera_angles()[j].1), "png"@) by {
        lemma_preview_path(dir, stem, i);
        lemma_preview_path(dir, stem, j);
        let ri = preview_rel(stem, i);
        let rj = preview_rel(stem, j);
        if join_path_spec(dir, ri) == join_path_spec(dir, rj) {
            lemma_join_injective(dir, ri, rj);
            let li = camera_angles()[i].1;
            let lj = camera_angles()[j].1;
            reveal_strlit("_preview_");
            let k: int = stem.len() as int + 9;
            assert(ri.subrange(k, k + li.len()) =~= li);
            assert(rj.subrange(k, k + lj.len()) =~= lj);
            assert(ri.len() == k + li.len() + 4);
            assert(rj.len() == k + lj.len() + 4);
        }
    }
    reveal_strlit("_preview");
    let single_name = stem + "_preview"@;
    assert(single_name.last() == 'w');
    lemma_stem_keeps_name(single_name);
    let single_rel = single_name + seq!['.'] + "png"@;
    lemma_file_path_ends_like_ext(dir, single_name, "png"@);
    if stem.len() > 0 {
        assert(single_rel[0] == stem[0]);
    } else {
        assert(single_rel[0] == '_');
    }
    assert forall|i: int|
        #![trigger camera_angles()[i]]
        0 <= i < camera_angles().len() implies file_path(dir, single_name, "png"@)
            != file_path(dir, preview_name(stem, camera_angles()[i].1), "png"@) by {
        lemma_preview_path(dir, stem, i);
        let ri = preview_rel(stem, i);
        if join_path_spec(dir, single_rel) == join_path_spec(dir, ri) {
            lemma_join_injective(dir, single_rel, ri);
            reveal_strlit("_preview_");
            assert(single_rel.len() == stem.len() + 12);
            assert(ri.len() == stem.len() + 13 + camera_angles()[i].1.len());
        }
    }
}

/// A design may be named with or without its ".scad": for a name that does
/// not already end in ".scad", the name and the name with ".scad" appended
/// have the same stem, so they address the same files (source, previews,
/// metadata, exports), whatever the extension asked for.
pub proof fn lemma_scad_extension_optional(dir: Seq<char>, name: Seq<char>, ext: Seq<char>)
    requires
        stem_of(name) == name,
    ensures
        stem_of(name + scad_suffix()) == stem_of(name),
        file_path(dir, name + scad_suffix(), ext) == file_path(dir, name, ext),
{
    let full = name + scad_suffix();
    assert(full.subrange(full.len() - 5, full.len() as int) =~= scad_suffix());
    assert(full.subrange(0, full.len() - 5) =~= name);
}

/// Appending a suffix without '/' that does not end in '.' to the stem of
/// a name that never climbs gives a relative path that never climbs.
pub(crate) proof fn lemma_suffix_keeps_inside(name: Seq<char>, suffix: Seq<char>)
    requires
        is_relative(name),
        !climbs(name),
        suffix.len() > 0,
        forall|k: int| 0 <= k < suffix.len() ==> suffix[k] != '/',
        suffix.last() != '.',
    ensures
        is_relative(stem_of(name) + suffix),
        !climbs(stem_of(name) + suffix),
{
    let stem = stem_of(name);
    let t = stem + suffix;
    assert(stem.len() <= name.len());
    assert(forall|k: int| 0 <= k < stem.len() ==> stem[k] == name[k]);
    if stem.len() == 0 {
        assert(t[0] == suffix[0]);
    } else {
        assert(t[0] == name[0]);
    }
    assert forall|i: int| !#[trigger] parent_segment_at(t, i) by {
        if parent_segment_at(t, i) {
            if i + 2 < stem.len() {
                assert(t[i] == name[i] && t[i + 1] == name[i + 1] && t[i + 2] == name[i + 2]);
                if i > 0 {
                    assert(t[i - 1] == name[i - 1]);
                }
                assert(parent_segment_at(name, i));
            } else if i + 2 == t.len() {
                assert(t[i + 1] == suffix.last());
            } else {
                assert(t[i + 2] == suffix[i + 2 - stem.len()]);
            }
        }
    }
}

pub(crate) proof fn lemma_joined_inside(dir: Seq<char>, rel: Seq<char>)
    requires
        is_relative(rel),
        !climbs(rel),
    ensures
        inside(dir, join_path_spec(dir, rel)),
{
}

} // verus!
