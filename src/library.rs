//! Reading the library: which stored comics count when several carry the
//! same path word, and which chapters an update enqueues.

use indexmap::IndexMap;
use vstd::prelude::*;
use crate::comic::{ChapterGroup, ChapterInfo};
use crate::naming::views_of;

verus! {

/// A `metadata.json` found in the library: the comic's path word and the
/// file's modification time.
#[derive(Debug, Clone)]
pub struct MetadataFile {
    pub path_word: String,
    pub modified: u128,
}

/// Relies on `slice::sort_by`: the result is a permutation of the input,
/// ordered by the comparison (here: modification time, newest first).
#[verifier::external_body]
fn sort_newest_first(v: &mut Vec<(u128, usize)>)
    ensures
        final(v)@.to_multiset() == old(v)@.to_multiset(),
        forall|i: int, j: int| 0 <= i < j < final(v)@.len() ==> (#[trigger] final(v)@[i]).0 >= (#[trigger] final(v)@[j]).0,
{
    v.sort_by(|a, b| b.0.cmp(&a.0));
}

/// Some chosen file, taken at sorted position `q` or earlier, has path word
/// `key`.
spec fn represented(files: Seq<MetadataFile>, r: Seq<usize>, pos: Seq<int>, key: Seq<char>, q: int) -> bool {
    exists|k: int| 0 <= k < r.len() && pos[k] <= q && #[trigger] files[r[k] as int].path_word@ == key
}

/// File `i`'s path word is shown, by a file at least as new.
pub open spec fn newest_shown(files: Seq<MetadataFile>, r: Seq<usize>, i: int) -> bool {
    exists|k: int| 0 <= k < r.len() && #[trigger] files[r[k] as int].path_word@ == files[i].path_word@
        && files[r[k] as int].modified >= files[i].modified
}

/// indexmap's insertion-ordered hash map, used opaquely through the
/// wrappers below.
#[verifier::external_type_specification]
#[verifier::external_body]
#[verifier::reject_recursive_types(K)]
#[verifier::reject_recursive_types(V)]
#[verifier::reject_recursive_types(S)]
pub struct ExIndexMap<K, V, S>(IndexMap<K, V, S>);

/// What an index map from path words to positions holds.
pub uninterp spec fn index_map_contents(m: IndexMap<String, usize>) -> Map<Seq<char>, usize>;

/// Relies on `IndexMap::new`: a new map is empty.
#[verifier::external_body]
fn index_map_new() -> (r: IndexMap<String, usize>)
    ensures
        index_map_contents(r).dom() =~= Set::empty(),
{
    IndexMap::new()
}

/// Relies on `IndexMap::get`: the value stored under a key equal to `k`
/// (`String` equality is equality of the characters).
#[verifier::external_body]
fn index_map_get(m: &IndexMap<String, usize>, k: &String) -> (r: Option<usize>)
    ensures
        r is Some <==> index_map_contents(*m).contains_key(k@),
        r matches Some(v) ==> v == index_map_contents(*m)[k@],
{
    m.get(k).copied()
}

/// Relies on `IndexMap::insert`: the key now maps to `v`; other keys keep
/// their values.
#[verifier::external_body]
fn index_map_insert(m: &mut IndexMap<String, usize>, k: String, v: usize)
    ensures
        index_map_contents(*final(m)) == index_map_contents(*old(m)).insert(k@, v),
{
    m.insert(k, v);
}

/// The comics the library shows, as positions in `files`: newest first, one
/// per path word, and for each path word a newest file.
pub fn library_order(files: &Vec<MetadataFile>) -> (r: Vec<usize>)
    ensures
        forall|k: int| 0 <= k < r@.len() ==> #[trigger] r@[k] < files@.len(),
        forall|a: int, b: int| 0 <= a < b < r@.len()
            ==> files@[#[trigger] r@[a] as int].modified >= files@[#[trigger] r@[b] as int].modified,
        forall|a: int, b: int| 0 <= a < r@.len() && 0 <= b < r@.len() && a != b
            ==> files@[#[trigger] r@[a] as int].path_word@ != files@[#[trigger] r@[b] as int].path_word@,
        forall|i: int| 0 <= i < files@.len() ==> #[trigger] newest_shown(files@, r@, i),
{
    let mut pairs: Vec<(u128, usize)> = Vec::new();
    let mut i: usize = 0;
    while i < files.len()
        invariant
            i <= files.len(),
            pairs@.len() == i,
            forall|q: int| 0 <= q < i ==> #[trigger] pairs@[q] == (files@[q].modified, q as usize),
        decreases files.len() - i,
    {
        pairs.push((files[i].modified, i));
        i += 1;
    }
    let ghost orig = pairs@;
    sort_newest_first(&mut pairs);
    let ghost s = pairs@;
    assert(orig.len() == files@.len());
    proof {
        assert forall|q: int| 0 <= q < s.len() implies (#[trigger] s[q]).1 < files@.len()
            && files@[s[q].1 as int].modified == s[q].0 by {
            vstd::seq_lib::to_multiset_contains(s, s[q]);
            vstd::seq_lib::to_multiset_contains(orig, s[q]);
            assert(s.contains(s[q]));
            let w = choose|w: int| 0 <= w < orig.len() && orig[w] == s[q];
        }
        assert forall|i2: int| 0 <= i2 < orig.len() implies s.contains(#[trigger] orig[i2]) by {
            assert(orig.contains(orig[i2]));
            vstd::seq_lib::to_multiset_contains(orig, orig[i2]);
            vstd::seq_lib::to_multiset_contains(s, orig[i2]);
        }
    }
    let mut r: Vec<usize> = Vec::new();
    let mut seen_words = index_map_new();
    let ghost mut pos: Seq<int> = Seq::empty();
    let mut p: usize = 0;
    while p < pairs.len()
        invariant
            pairs@ == s,
            p <= s.len(),
            forall|q: int| 0 <= q < s.len() ==> (#[trigger] s[q]).1 < files@.len()
                && files@[s[q].1 as int].modified == s[q].0,
            forall|a: int, b: int| 0 <= a < b < s.len() ==> (#[trigger] s[a]).0 >= (#[trigger] s[b]).0,
            pos.len() == r@.len(),
            forall|k: int| 0 <= k < r@.len() ==> #[trigger] r@[k] < files@.len(),
            forall|k: int| 0 <= k < r@.len() ==> 0 <= #[trigger] pos[k] < p && r@[k] == s[pos[k]].1,
            forall|a: int, b: int| 0 <= a < b < r@.len() ==> #[trigger] pos[a] < #[trigger] pos[b],
            forall|a: int, b: int| 0 <= a < r@.len() && 0 <= b < r@.len() && a != b
                ==> files@[#[trigger] r@[a] as int].path_word@ != files@[#[trigger] r@[b] as int].path_word@,
            forall|q: int| 0 <= q < p ==> represented(files@, r@, pos, files@[(#[trigger] s[q]).1 as int].path_word@, q),
            forall|key: Seq<char>| #[trigger] index_map_contents(seen_words).contains_key(key) ==> {
                let k = index_map_contents(seen_words)[key] as int;
                0 <= k < r@.len() && files@[r@[k] as int].path_word@ == key
            },
            forall|k: int| 0 <= k < r@.len()
                ==> index_map_contents(seen_words).contains_key(#[trigger] files@[r@[k] as int].path_word@),
        decreases s.len() - p,
    {
        let idx = pairs[p].1;
        let found = index_map_get(&seen_words, &files[idx].path_word);
        let seen = found.is_some();
        proof {
            let key = files@[idx as int].path_word@;
            if seen {
                let k2 = index_map_contents(seen_words)[key] as int;
                assert(files@[r@[k2] as int].path_word@ == key);
            }
        }
        let ghost rb = r@;
        let ghost pb = pos;
        if !seen {
            index_map_insert(&mut seen_words, files[idx].path_word.clone(), r.len());
            r.push(idx);
            proof {
                pos = pos.push(p as int);
                assert forall|a: int, b: int| 0 <= a < r@.len() && 0 <= b < r@.len() && a != b
                    implies files@[#[trigger] r@[a] as int].path_word@ != files@[#[trigger] r@[b] as int].path_word@ by {
                    if a < rb.len() && b < rb.len() {
                        assert(r@[a] == rb[a] && r@[b] == rb[b]);
                    }
                }
            }
        }
        proof {
            assert forall|q: int| 0 <= q < p + 1 implies represented(files@, r@, pos,
                files@[(#[trigger] s[q]).1 as int].path_word@, q) by {
                let key = files@[s[q].1 as int].path_word@;
                if q < p {
                    assert(represented(files@, rb, pb, key, q));
                    let k2 = choose|k2: int| 0 <= k2 < rb.len() && pb[k2] <= q
                        && #[trigger] files@[rb[k2] as int].path_word@ == key;
                    assert(r@[k2] == rb[k2] && pos[k2] == pb[k2]);
                    assert(files@[r@[k2] as int].path_word@ == key);
                } else if !seen {
                    let k2 = rb.len() as int;
                    assert(r@[k2] == idx);
                    assert(pos[k2] == q);
                    assert(files@[r@[k2] as int].path_word@ == key);
                } else {
                    let k2 = choose|k2: int| 0 <= k2 < rb.len()
                        && files@[#[trigger] rb[k2] as int].path_word@ == files@[idx as int].path_word@;
                    assert(pb[k2] < p);
                    assert(r@[k2] == rb[k2] && pos[k2] == pb[k2]);
                    assert(files@[r@[k2] as int].path_word@ == key);
                }
            }
        }
        p += 1;
    }
    proof {
        assert forall|a: int, b: int| 0 <= a < b < r@.len()
            implies files@[#[trigger] r@[a] as int].modified >= files@[#[trigger] r@[b] as int].modified by {
            assert(pos[a] < pos[b]);
            assert(s[pos[a]].0 >= s[pos[b]].0);
        }
        assert forall|i2: int| 0 <= i2 < files@.len() implies #[trigger] newest_shown(files@, r@, i2) by {
            assert(orig[i2] == (files@[i2].modified, i2 as usize));
            assert(s.contains(orig[i2]));
            let q = choose|q: int| 0 <= q < s.len() && s[q] == orig[i2];
            assert(0 <= q < p);
            let key = files@[s[q].1 as int].path_word@;
            assert(represented(files@, r@, pos, key, q));
            let k = choose|k: int| 0 <= k < r@.len() && pos[k] <= q
                && #[trigger] files@[r@[k] as int].path_word@ == key;
            assert(r@[k] == s[pos[k]].1);
            let pk = pos[k];
            assert(files@[s[pk].1 as int].modified == s[pk].0);
            assert(files@[r@[k] as int].modified == s[pk].0);
            if pk < q {
                assert(s[pk].0 >= s[q].0);
            }
            assert(s[q].1 == i2 as usize);
            assert(s[q].0 == files@[i2].modified);
            assert(files@[r@[k] as int].path_word@ == files@[i2].path_word@);
            assert(files@[r@[k] as int].modified >= files@[i2].modified);
        }
    }
    r
}

/// The name of the file that holds a comic's metadata.
pub const COMIC_METADATA_FILE: &'static str = "metadata.json";

/// The name of the optional file that holds a published chapter's metadata.
pub const CHAPTER_METADATA_FILE: &'static str = "chapter-metadata.json";

/// Whether a directory entry is a published chapter's metadata file.
pub fn is_chapter_metadata(file_name: &str, is_file: bool) -> (r: bool)
    ensures
        r == (is_file && file_name@ == CHAPTER_METADATA_FILE@),
{
    is_file && String::from_str(file_name) == String::from_str(CHAPTER_METADATA_FILE)
}

/// Whether a directory entry is a comic's metadata file.
pub fn is_comic_metadata(file_name: &str, is_file: bool) -> (r: bool)
    ensures
        r == (is_file && file_name@ == COMIC_METADATA_FILE@),
{
    is_file && String::from_str(file_name) == String::from_str(COMIC_METADATA_FILE)
}

/// The chapter counts as downloaded.
pub open spec fn is_downloaded(c: ChapterInfo) -> bool {
    c.is_downloaded == Some(true)
}

/// Some chapter of `cs` is downloaded.
pub open spec fn any_downloaded(cs: Seq<ChapterInfo>) -> bool {
    exists|j: int| 0 <= j < cs.len() && is_downloaded(#[trigger] cs[j])
}

/// The ids of the chapters of `cs` that are not downloaded, in order.
pub open spec fn missing_uuids(cs: Seq<ChapterInfo>) -> Seq<Seq<char>>
    decreases cs.len(),
{
    if cs.len() == 0 {
        Seq::empty()
    } else {
        missing_uuids(cs.drop_last()) + if is_downloaded(cs.last()) {
            Seq::<Seq<char>>::empty()
        } else {
            seq![cs.last().chapter_uuid@]
        }
    }
}

/// The chapters an update enqueues: in every group with a downloaded
/// chapter, the chapters not downloaded, group by group in order.
pub open spec fn update_plan(gs: Seq<ChapterGroup>) -> Seq<Seq<char>>
    decreases gs.len(),
{
    if gs.len() == 0 {
        Seq::empty()
    } else {
        update_plan(gs.drop_last()) + if any_downloaded(gs.last().chapters@) {
            missing_uuids(gs.last().chapters@)
        } else {
            Seq::<Seq<char>>::empty()
        }
    }
}

fn has_downloaded_chapter(cs: &Vec<ChapterInfo>) -> (r: bool)
    ensures
        r == any_downloaded(cs@),
{
    let mut j: usize = 0;
    while j < cs.len()
        invariant
            j <= cs.len(),
            forall|k: int| 0 <= k < j ==> !is_downloaded(#[trigger] cs@[k]),
        decreases cs.len() - j,
    {
        if cs[j].is_downloaded == Some(true) {
            return true;
        }
        j += 1;
    }
    false
}

fn push_missing(cs: &Vec<ChapterInfo>, out: &mut Vec<String>)
    ensures
        views_of(final(out)@) == views_of(old(out)@) + missing_uuids(cs@),
{
    let ghost start = views_of(out@);
    let mut j: usize = 0;
    while j < cs.len()
        invariant
            j <= cs.len(),
            views_of(out@) == start + missing_uuids(cs@.take(j as int)),
        decreases cs.len() - j,
    {
        assert(cs@.take(j + 1).drop_last() =~= cs@.take(j as int));
        let ghost before = out@;
        if cs[j].is_downloaded != Some(true) {
            out.push(cs[j].chapter_uuid.clone());
            assert(views_of(out@) =~= views_of(before) + seq![cs@[j as int].chapter_uuid@]);
        }
        j += 1;
    }
    assert(cs@.take(cs.len() as int) =~= cs@);
}

/// The chapters an update of a freshly fetched comic enqueues, with flags
/// recomputed from the disk: in every group with at least one downloaded
/// chapter, each chapter not downloaded.
pub fn chapters_to_update(groups: &Vec<ChapterGroup>) -> (r: Vec<String>)
    ensures
        views_of(r@) == update_plan(groups@),
{
    let mut out: Vec<String> = Vec::new();
    let mut i: usize = 0;
    while i < groups.len()
        invariant
            i <= groups.len(),
            views_of(out@) == update_plan(groups@.take(i as int)),
        decreases groups.len() - i,
    {
        assert(groups@.take(i + 1).drop_last() =~= groups@.take(i as int));
        if has_downloaded_chapter(&groups[i].chapters) {
            push_missing(&groups[i].chapters, &mut out);
        } else {
            assert(views_of(out@) + Seq::<Seq<char>>::empty() =~= views_of(out@));
        }
        i += 1;
    }
    assert(groups@.take(groups.len() as int) =~= groups@);
    out
}

} // verus!
