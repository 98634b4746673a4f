//! The comic model: chapters as the library stores them, derived from the
//! remote listing, and the `is_downloaded` flags derived from the disk.

use vstd::prelude::*;
use crate::naming::{disambiguate_titles, disambiguated, prefixed_chapter_title, prefixed_title, push_str, views_of};
use crate::text::{chars_of, filename_filter, sanitized_title, string_of};

verus! {

/// Whether a comic is still being serialised.
#[derive(Debug, Clone, Copy, PartialEq, Eq, Structural)]
pub enum ComicStatus {
    Ongoing,
    Completed,
}

/// The status for a remote status value: 0 is ongoing, anything else
/// completed.
pub fn comic_status_of(value: i64) -> (r: ComicStatus)
    ensures
        r == (if value == 0 { ComicStatus::Ongoing } else { ComicStatus::Completed }),
{
    if value == 0 { ComicStatus::Ongoing } else { ComicStatus::Completed }
}

/// A chapter as the remote lists it.
#[derive(Debug, Clone)]
pub struct ChapterInGetChaptersRespData {
    pub index: i64,
    pub uuid: String,
    /// How many chapters the group has.
    pub count: i64,
    /// Ten times the chapter's order.
    pub ordered: i64,
    pub size: i64,
    pub name: String,
    pub comic_id: String,
    pub comic_path_word: String,
    pub group_id: Option<String>,
    pub group_path_word: String,
    pub type_field: i64,
    pub img_type: i64,
    pub news: String,
    pub datetime_created: String,
    pub prev: Option<String>,
    pub next: Option<String>,
}

/// A chapter as the library stores it.
#[derive(Debug)]
pub struct ChapterInfo {
    pub chapter_uuid: String,
    /// The sanitised title, with a collision suffix where needed.
    pub chapter_title: String,
    /// The title with the order in front: the chapter's directory name.
    pub prefixed_chapter_title: String,
    /// How many pages the chapter has.
    pub chapter_size: i64,
    pub comic_uuid: String,
    pub comic_title: String,
    pub comic_path_word: String,
    pub group_path_word: String,
    pub group_name: String,
    /// How many chapters the group has.
    pub group_size: i64,
    /// Ten times the chapter's order (the order is `order_tenths / 10`).
    pub order_tenths: i64,
    pub comic_status: ComicStatus,
    /// Whether the chapter's published directory exists; absent in stored
    /// metadata.
    pub is_downloaded: Option<bool>,
}

/// The sanitised titles of a listing, in order.
pub open spec fn sanitized_titles(chs: Seq<ChapterInGetChaptersRespData>) -> Seq<Seq<char>> {
    chs.map_values(|c: ChapterInGetChaptersRespData| sanitized_title(c.name@))
}

/// `info` is the stored form of entry `i` of a group listing.
pub open spec fn chapter_info_from(
    info: ChapterInfo,
    chs: Seq<ChapterInGetChaptersRespData>,
    i: int,
    comic_title: Seq<char>,
    group_name: Seq<char>,
    comic_uuid: Seq<char>,
    comic_path_word: Seq<char>,
    group_path_word: Seq<char>,
    status: ComicStatus,
) -> bool {
    let c = chs[i];
    let title = disambiguated(sanitized_titles(chs), i);
    &&& info.chapter_uuid@ == c.uuid@
    &&& info.chapter_title@ == title
    &&& info.prefixed_chapter_title@ == prefixed_title(c.ordered as int, title)
    &&& info.chapter_size == c.size
    &&& info.comic_uuid@ == comic_uuid
    &&& info.comic_title@ == comic_title
    &&& info.comic_path_word@ == comic_path_word
    &&& info.group_path_word@ == group_path_word
    &&& info.group_name@ == group_name
    &&& info.group_size == c.count
    &&& info.order_tenths == c.ordered
    &&& info.comic_status == status
    &&& info.is_downloaded is None
}

/// The chapters of one group as the library stores them: titles sanitised,
/// collisions suffixed, each directory name prefixed with the order.
pub fn chapter_infos_from_resp(
    chapters: &Vec<ChapterInGetChaptersRespData>,
    comic_title: &String,
    group_name: &String,
    comic_uuid: &String,
    comic_path_word: &String,
    group_path_word: &String,
    comic_status: ComicStatus,
) -> (r: Vec<ChapterInfo>)
    ensures
        r@.len() == chapters@.len(),
        forall|i: int| 0 <= i < r@.len() ==> chapter_info_from(#[trigger] r@[i], chapters@, i,
            comic_title@, group_name@, comic_uuid@, comic_path_word@, group_path_word@, comic_status),
{
    let mut names: Vec<String> = Vec::new();
    let mut i: usize = 0;
    while i < chapters.len()
        invariant
            i <= chapters.len(),
            names@.len() == i,
            forall|j: int| 0 <= j < i ==> (#[trigger] names@[j])@ == sanitized_title(chapters@[j].name@),
        decreases chapters.len() - i,
    {
        names.push(filename_filter(chapters[i].name.as_str()));
        i += 1;
    }
    assert(views_of(names@) =~= sanitized_titles(chapters@));
    let titles = disambiguate_titles(&names);
    let mut r: Vec<ChapterInfo> = Vec::new();
    let mut i: usize = 0;
    while i < chapters.len()
        invariant
            i <= chapters.len(),
            titles@.len() == chapters@.len(),
            views_of(names@) == sanitized_titles(chapters@),
            forall|j: int| 0 <= j < titles@.len() ==> #[trigger] titles@[j]@ == disambiguated(views_of(names@), j),
            r@.len() == i,
            forall|j: int| 0 <= j < i ==> chapter_info_from(#[trigger] r@[j], chapters@, j,
                comic_title@, group_name@, comic_uuid@, comic_path_word@, group_path_word@, comic_status),
        decreases chapters.len() - i,
    {
        let c = &chapters[i];
        let title = titles[i].clone();
        let prefixed = prefixed_chapter_title(c.ordered, title.as_str());
        r.push(ChapterInfo {
            chapter_uuid: c.uuid.clone(),
            chapter_title: title,
            prefixed_chapter_title: prefixed,
            chapter_size: c.size,
            comic_uuid: comic_uuid.clone(),
            comic_title: comic_title.clone(),
            comic_path_word: comic_path_word.clone(),
            group_path_word: group_path_word.clone(),
            group_name: group_name.clone(),
            group_size: c.count,
            order_tenths: c.ordered,
            comic_status,
            is_downloaded: None,
        });
        i += 1;
    }
    r
}

/// The chapters of one group, keyed by the group's path word.
#[derive(Debug)]
pub struct ChapterGroup {
    pub group_path_word: String,
    pub chapters: Vec<ChapterInfo>,
}

/// The path of a chapter's published directory relative to its comic's
/// directory: `<group name>/<prefixed title>`.
pub open spec fn chapter_rel_dir(c: ChapterInfo) -> Seq<char> {
    c.group_name@ + seq!['/'] + c.prefixed_chapter_title@
}

/// Builds the path of a chapter's published directory relative to its
/// comic's directory.
pub fn chapter_rel_dir_string(c: &ChapterInfo) -> (r: String)
    ensures
        r@ == chapter_rel_dir(*c),
{
    let mut out = chars_of(c.group_name.as_str());
    out.push('/');
    push_str(&mut out, c.prefixed_chapter_title.as_str());
    string_of(&out)
}

/// `b` is `a` with every chapter's flag replaced by `flag` of that chapter.
pub open spec fn reflagged(a: Seq<ChapterGroup>, b: Seq<ChapterGroup>, flag: spec_fn(ChapterInfo) -> Option<bool>) -> bool {
    &&& a.len() == b.len()
    &&& forall|i: int| 0 <= i < a.len() ==> {
        &&& (#[trigger] b[i]).group_path_word == a[i].group_path_word
        &&& b[i].chapters@.len() == a[i].chapters@.len()
        &&& forall|j: int| 0 <= j < a[i].chapters@.len() ==> (#[trigger] b[i].chapters@[j]) == (ChapterInfo {
            is_downloaded: flag(a[i].chapters@[j]),
            ..a[i].chapters@[j]
        })
    }
}

/// The flag a chapter gets: none when clearing, else whether its directory
/// is among `published`.
pub open spec fn flag_for(clear: bool, published: Seq<Seq<char>>) -> spec_fn(ChapterInfo) -> Option<bool> {
    |c: ChapterInfo| if clear { None } else { Some(published.contains(chapter_rel_dir(c))) }
}

/// Whether `list` holds `s`.
pub fn contains_string(list: &Vec<String>, s: &String) -> (r: bool)
    ensures
        r == views_of(list@).contains(s@),
{
    let mut i: usize = 0;
    while i < list.len()
        invariant
            i <= list.len(),
            forall|j: int| 0 <= j < i ==> (#[trigger] list@[j])@ != s@,
        decreases list.len() - i,
    {
        if list[i] == *s {
            assert(views_of(list@)[i as int] == s@);
            return true;
        }
        i += 1;
    }
    assert forall|j: int| 0 <= j < views_of(list@).len() implies views_of(list@)[j] != s@ by {
        assert(views_of(list@)[j] == list@[j]@);
    }
    false
}

fn reflag_chapters(chapters: Vec<ChapterInfo>, published: &Vec<String>, clear: bool) -> (r: Vec<ChapterInfo>)
    ensures
        r@.len() == chapters@.len(),
        forall|j: int| 0 <= j < chapters@.len() ==> (#[trigger] r@[j]) == (ChapterInfo {
            is_downloaded: flag_for(clear, views_of(published@))(chapters@[j]),
            ..chapters@[j]
        }),
{
    let ghost orig = chapters@;
    let mut chapters = chapters;
    let mut out: Vec<ChapterInfo> = Vec::new();
    while chapters.len() > 0
        invariant
            out@.len() + chapters@.len() == orig.len(),
            chapters@ == orig.skip(out@.len() as int),
            forall|j: int| 0 <= j < out@.len() ==> (#[trigger] out@[j]) == (ChapterInfo {
                is_downloaded: flag_for(clear, views_of(published@))(orig[j]),
                ..orig[j]
            }),
        decreases chapters.len(),
    {
        let mut c = chapters.remove(0);
        assert(c == orig[out@.len() as int]);
        if clear {
            c.is_downloaded = None;
        } else {
            let dir = chapter_rel_dir_string(&c);
            c.is_downloaded = Some(contains_string(published, &dir));
        }
        out.push(c);
        assert(chapters@ =~= orig.skip(out@.len() as int));
    }
    out
}

fn reflag_groups(groups: Vec<ChapterGroup>, published: &Vec<String>, clear: bool) -> (r: Vec<ChapterGroup>)
    ensures
        reflagged(groups@, r@, flag_for(clear, views_of(published@))),
{
    let ghost orig = groups@;
    let ghost flag = flag_for(clear, views_of(published@));
    let mut groups = groups;
    let mut out: Vec<ChapterGroup> = Vec::new();
    while groups.len() > 0
        invariant
            out@.len() + groups@.len() == orig.len(),
            groups@ == orig.skip(out@.len() as int),
            reflagged(orig.take(out@.len() as int), out@, flag),
            flag == flag_for(clear, views_of(published@)),
        decreases groups.len(),
    {
        let g = groups.remove(0);
        assert(g == orig[out@.len() as int]);
        let ChapterGroup { group_path_word, chapters } = g;
        let ghost old_chapters = chapters@;
        let chapters = reflag_chapters(chapters, published, clear);
        assert forall|j: int| 0 <= j < old_chapters.len() implies (#[trigger] chapters@[j]) == (ChapterInfo {
            is_downloaded: flag(old_chapters[j]),
            ..old_chapters[j]
        }) by {
            assert(chapters@[j] == (ChapterInfo {
                is_downloaded: flag_for(clear, views_of(published@))(old_chapters[j]),
                ..old_chapters[j]
            }));
        }
        let ghost before = out@;
        out.push(ChapterGroup { group_path_word, chapters });
        assert(groups@ =~= orig.skip(out@.len() as int));
        assert forall|i: int| 0 <= i < out@.len() implies {
            &&& (#[trigger] out@[i]).group_path_word == orig.take(out@.len() as int)[i].group_path_word
            &&& out@[i].chapters@.len() == orig.take(out@.len() as int)[i].chapters@.len()
            &&& forall|j: int| 0 <= j < orig.take(out@.len() as int)[i].chapters@.len()
                ==> (#[trigger] out@[i].chapters@[j]) == (ChapterInfo {
                is_downloaded: flag(orig.take(out@.len() as int)[i].chapters@[j]),
                ..orig.take(out@.len() as int)[i].chapters@[j]
            })
        } by {
            if i < before.len() {
                assert(orig.take(out@.len() as int)[i] == orig.take(before.len() as int)[i]);
                assert(out@[i] == before[i]);
            } else {
                assert(orig.take(out@.len() as int)[i] == orig[i]);
                assert(orig[i].chapters@ == old_chapters);
            }
        }
    }
    assert(orig.take(out@.len() as int) =~= orig);
    out
}

/// Drops every chapter's `is_downloaded` flag, as stored metadata omits it.
pub fn clear_downloaded_flags(groups: Vec<ChapterGroup>) -> (r: Vec<ChapterGroup>)
    ensures
        reflagged(groups@, r@, |c: ChapterInfo| None::<bool>),
{
    let empty: Vec<String> = Vec::new();
    let r = reflag_groups(groups, &empty, true);
    assert(flag_for(true, views_of(empty@)) == |c: ChapterInfo| None::<bool>);
    r
}

/// Recomputes every chapter's `is_downloaded` flag from the published
/// chapter directories of its comic (`<group name>/<prefixed title>`).
pub fn sync_downloaded_flags(groups: Vec<ChapterGroup>, published: &Vec<String>) -> (r: Vec<ChapterGroup>)
    ensures
        reflagged(groups@, r@, |c: ChapterInfo| Some(views_of(published@).contains(chapter_rel_dir(c)))),
{
    let r = reflag_groups(groups, published, false);
    assert(flag_for(false, views_of(published@)) == |c: ChapterInfo| Some(views_of(published@).contains(chapter_rel_dir(c))));
    r
}

/// `a` and `b` hold the same groups with the same chapters.
pub open spec fn same_chapters(a: Seq<ChapterGroup>, b: Seq<ChapterGroup>) -> bool {
    &&& a.len() == b.len()
    &&& forall|i: int| 0 <= i < a.len() ==> (#[trigger] a[i]).group_path_word == b[i].group_path_word
        && a[i].chapters@ == b[i].chapters@
}

/// Stored metadata loses nothing the library needs: loading a comic whose
/// flags were dropped and recomputing them from the published directories
/// gives the same chapters, flags included, as recomputing them on the comic
/// before it was stored.
pub proof fn lemma_metadata_round_trip(
    in_memory: Seq<ChapterGroup>,
    stored: Seq<ChapterGroup>,
    reloaded: Seq<ChapterGroup>,
    direct: Seq<ChapterGroup>,
    published: Seq<Seq<char>>,
)
    requires
        reflagged(in_memory, stored, |c: ChapterInfo| None::<bool>),
        reflagged(stored, reloaded, |c: ChapterInfo| Some(published.contains(chapter_rel_dir(c)))),
        reflagged(in_memory, direct, |c: ChapterInfo| Some(published.contains(chapter_rel_dir(c)))),
    ensures
        forall|i: int, j: int| 0 <= i < stored.len() && 0 <= j < stored[i].chapters@.len()
            ==> (#[trigger] stored[i].chapters@[j]).is_downloaded is None,
        same_chapters(reloaded, direct),
{
    assert forall|i: int| 0 <= i < reloaded.len() implies (#[trigger] reloaded[i]).group_path_word
        == direct[i].group_path_word && reloaded[i].chapters@ == direct[i].chapters@ by {
        assert forall|j: int| 0 <= j < reloaded[i].chapters@.len() implies
            #[trigger] reloaded[i].chapters@[j] == direct[i].chapters@[j] by {
            let o = in_memory[i].chapters@[j];
            let st = stored[i].chapters@[j];
            assert(st == ChapterInfo { is_downloaded: None::<bool>, ..o });
            assert(chapter_rel_dir(st) == chapter_rel_dir(o));
        }
        assert(reloaded[i].chapters@ =~= direct[i].chapters@);
    }
}

/// An author as the remote describes it.
#[derive(Debug, Clone)]
pub struct AuthorRespData {
    pub name: String,
    pub alias: String,
    pub path_word: String,
}

/// A labelled value as the remote describes it.
#[derive(Debug, Clone)]
pub struct LabeledValueRespData {
    pub value: i64,
    pub display: String,
}

/// A theme as the remote describes it.
#[derive(Debug, Clone)]
pub struct ThemeRespData {
    pub name: String,
    pub path_word: String,
}

/// The latest chapter as the remote describes it.
#[derive(Debug, Clone)]
pub struct LastChapterRespData {
    pub uuid: String,
    pub name: String,
}

/// A chapter group as the remote describes it.
#[derive(Debug, Clone)]
pub struct GroupRespData {
    pub path_word: String,
    pub count: u32,
    pub name: String,
}

/// An author of a comic.
#[derive(Debug, Clone)]
pub struct Author {
    pub name: String,
    pub alias: String,
    pub path_word: String,
}

impl Author {
    /// The authors of a remote comic, in order.
    pub fn from(author: Vec<AuthorRespData>) -> (r: Vec<Author>)
        ensures
            r@.len() == author@.len(),
            forall|i: int| 0 <= i < r@.len() ==> (#[trigger] r@[i]).name == author@[i].name
                && r@[i].alias == author@[i].alias && r@[i].path_word == author@[i].path_word,
    {
        let ghost orig = author@;
        let mut rest = author;
        let mut r: Vec<Author> = Vec::new();
        while rest.len() > 0
            invariant
                r@.len() + rest@.len() == orig.len(),
                rest@ == orig.skip(r@.len() as int),
                forall|i: int| 0 <= i < r@.len() ==> (#[trigger] r@[i]).name == orig[i].name
                    && r@[i].alias == orig[i].alias && r@[i].path_word == orig[i].path_word,
            decreases rest.len(),
        {
            let a = rest.remove(0);
            r.push(Author { name: a.name, alias: a.alias, path_word: a.path_word });
            assert(rest@ =~= orig.skip(r@.len() as int));
        }
        r
    }
}

/// A value with its display text.
#[derive(Debug, Clone)]
pub struct LabeledValue {
    pub value: i64,
    pub display: String,
}

impl LabeledValue {
    /// The labelled value of a remote one.
    pub fn from(labeled_value: LabeledValueRespData) -> (r: LabeledValue)
        ensures
            r.value == labeled_value.value,
            r.display == labeled_value.display,
    {
        LabeledValue { value: labeled_value.value, display: labeled_value.display }
    }
}

/// A theme (tag) of a comic.
#[derive(Debug, Clone)]
pub struct Theme {
    pub name: String,
    pub path_word: String,
}

impl Theme {
    /// The themes of a remote comic, in order.
    pub fn from(theme: Vec<ThemeRespData>) -> (r: Vec<Theme>)
        ensures
            r@.len() == theme@.len(),
            forall|i: int| 0 <= i < r@.len() ==> (#[trigger] r@[i]).name == theme@[i].name
                && r@[i].path_word == theme@[i].path_word,
    {
        let ghost orig = theme@;
        let mut rest = theme;
        let mut r: Vec<Theme> = Vec::new();
        while rest.len() > 0
            invariant
                r@.len() + rest@.len() == orig.len(),
                rest@ == orig.skip(r@.len() as int),
                forall|i: int| 0 <= i < r@.len() ==> (#[trigger] r@[i]).name == orig[i].name
                    && r@[i].path_word == orig[i].path_word,
            decreases rest.len(),
        {
            let t = rest.remove(0);
            r.push(Theme { name: t.name, path_word: t.path_word });
            assert(rest@ =~= orig.skip(r@.len() as int));
        }
        r
    }
}

/// The latest chapter of a comic.
#[derive(Debug, Clone)]
pub struct LastChapter {
    pub uuid: String,
    pub name: String,
}

impl LastChapter {
    /// The latest chapter of a remote comic.
    pub fn from(last_chapter: LastChapterRespData) -> (r: LastChapter)
        ensures
            r.uuid == last_chapter.uuid,
            r.name == last_chapter.name,
    {
        LastChapter { uuid: last_chapter.uuid, name: last_chapter.name }
    }
}

/// A chapter group of a comic.
#[derive(Debug, Clone)]
pub struct Group {
    pub path_word: String,
    pub count: u32,
    pub name: String,
}

impl Group {
    /// The groups of a remote comic, in order.
    pub fn from(group: Vec<GroupRespData>) -> (r: Vec<Group>)
        ensures
            r@.len() == group@.len(),
            forall|i: int| 0 <= i < r@.len() ==> (#[trigger] r@[i]).path_word == group@[i].path_word
                && r@[i].count == group@[i].count && r@[i].name == group@[i].name,
    {
        let ghost orig = group@;
        let mut rest = group;
        let mut r: Vec<Group> = Vec::new();
        while rest.len() > 0
            invariant
                r@.len() + rest@.len() == orig.len(),
                rest@ == orig.skip(r@.len() as int),
                forall|i: int| 0 <= i < r@.len() ==> (#[trigger] r@[i]).path_word == orig[i].path_word
                    && r@[i].count == orig[i].count && r@[i].name == orig[i].name,
            decreases rest.len(),
        {
            let g = rest.remove(0);
            r.push(Group { path_word: g.path_word, count: g.count, name: g.name });
            assert(rest@ =~= orig.skip(r@.len() as int));
        }
        r
    }
}

/// The chapters the remote lists for one group.
#[derive(Debug, Clone)]
pub struct GroupListing {
    pub group_path_word: String,
    pub chapters: Vec<ChapterInGetChaptersRespData>,
}

/// The listing for group `key`: the first one under that key, else none.
pub open spec fn listing_for(ls: Seq<GroupListing>, key: Seq<char>) -> Seq<ChapterInGetChaptersRespData>
    decreases ls.len(),
{
    if ls.len() == 0 {
        Seq::empty()
    } else if ls[0].group_path_word@ == key {
        ls[0].chapters@
    } else {
        listing_for(ls.drop_first(), key)
    }
}

fn find_listing(ls: &Vec<GroupListing>, key: &String) -> (r: Option<usize>)
    ensures
        r matches Some(i) ==> i < ls@.len() && ls@[i as int].chapters@ == listing_for(ls@, key@),
        r is None ==> listing_for(ls@, key@) == Seq::<ChapterInGetChaptersRespData>::empty(),
{
    let mut i: usize = 0;
    assert(ls@.skip(0) =~= ls@);
    while i < ls.len()
        invariant
            i <= ls.len(),
            listing_for(ls@.skip(i as int), key@) == listing_for(ls@, key@),
        decreases ls.len() - i,
    {
        assert(ls@.skip(i as int).drop_first() =~= ls@.skip(i + 1));
        if ls[i].group_path_word == *key {
            return Some(i);
        }
        i += 1;
    }
    assert(ls@.skip(i as int).len() == 0);
    None
}

/// Builds the stored chapter groups of a comic from its remote groups and the
/// listings fetched for them, in the order of the remote groups. A group
/// without a listing has no chapters.
pub fn chapter_groups_from_resp(
    groups: &Vec<GroupRespData>,
    listings: &Vec<GroupListing>,
    comic_title: &String,
    comic_uuid: &String,
    comic_path_word: &String,
    comic_status: ComicStatus,
) -> (r: Vec<ChapterGroup>)
    ensures
        r@.len() == groups@.len(),
        forall|i: int| 0 <= i < r@.len() ==> {
            let g = groups@[i];
            let chs = listing_for(listings@, g.path_word@);
            &&& (#[trigger] r@[i]).group_path_word@ == g.path_word@
            &&& r@[i].chapters@.len() == chs.len()
            &&& forall|j: int| 0 <= j < chs.len() ==> chapter_info_from(#[trigger] r@[i].chapters@[j], chs, j,
                comic_title@, sanitized_title(g.name@), comic_uuid@, comic_path_word@, g.path_word@, comic_status)
        },
{
    let mut r: Vec<ChapterGroup> = Vec::new();
    let mut i: usize = 0;
    while i < groups.len()
        invariant
            i <= groups.len(),
            r@.len() == i,
            forall|k: int| 0 <= k < i ==> {
                let g = groups@[k];
                let chs = listing_for(listings@, g.path_word@);
                &&& (#[trigger] r@[k]).group_path_word@ == g.path_word@
                &&& r@[k].chapters@.len() == chs.len()
                &&& forall|j: int| 0 <= j < chs.len() ==> chapter_info_from(#[trigger] r@[k].chapters@[j], chs, j,
                    comic_title@, sanitized_title(g.name@), comic_uuid@, comic_path_word@, g.path_word@, comic_status)
            },
        decreases groups.len() - i,
    {
        let g = &groups[i];
        let group_name = filename_filter(g.name.as_str());
        let empty: Vec<ChapterInGetChaptersRespData> = Vec::new();
        let chapters = match find_listing(listings, &g.path_word) {
            Some(k) => chapter_infos_from_resp(&listings[k].chapters, comic_title, &group_name, comic_uuid,
                comic_path_word, &g.path_word, comic_status),
            None => chapter_infos_from_resp(&empty, comic_title, &group_name, comic_uuid,
                comic_path_word, &g.path_word, comic_status),
        };
        r.push(ChapterGroup { group_path_word: g.path_word.clone(), chapters });
        i += 1;
    }
    r
}

/// A comic's details as the remote describes them.
#[derive(Debug, Clone)]
pub struct ComicDetailRespData {
    pub uuid: String,
    pub b_404: bool,
    pub b_hidden: bool,
    pub ban: i64,
    pub ban_ip: Option<bool>,
    pub name: String,
    pub alias: Option<String>,
    pub path_word: String,
    pub close_comment: bool,
    pub close_roast: bool,
    pub free_type: LabeledValueRespData,
    pub restrict: LabeledValueRespData,
    pub reclass: LabeledValueRespData,
    pub seo_baidu: Option<String>,
    pub region: LabeledValueRespData,
    pub status: LabeledValueRespData,
    pub author: Vec<AuthorRespData>,
    pub theme: Vec<ThemeRespData>,
    pub brief: String,
    pub datetime_updated: String,
    pub cover: String,
    pub last_chapter: LastChapterRespData,
    pub popular: i64,
}

/// A comic as the remote describes it, with its groups but no chapters.
#[derive(Debug, Clone)]
pub struct GetComicRespData {
    pub is_banned: bool,
    pub is_lock: bool,
    pub is_login: bool,
    pub is_mobile_bind: bool,
    pub is_vip: bool,
    pub comic: ComicDetailRespData,
    pub popular: i64,
    pub groups: Vec<GroupRespData>,
}

/// A comic's details as the library stores them.
#[derive(Debug)]
pub struct ComicDetail {
    pub uuid: String,
    pub b_404: bool,
    pub b_hidden: bool,
    pub ban: i64,
    pub ban_ip: Option<bool>,
    /// The sanitised title: the name of the comic's directory.
    pub name: String,
    pub alias: Option<String>,
    pub path_word: String,
    pub close_comment: bool,
    pub close_roast: bool,
    pub free_type: LabeledValue,
    pub restrict: LabeledValue,
    pub reclass: LabeledValue,
    pub seo_baidu: Option<String>,
    pub region: LabeledValue,
    pub status: LabeledValue,
    pub author: Vec<Author>,
    pub theme: Vec<Theme>,
    pub brief: String,
    pub datetime_updated: String,
    pub cover: String,
    pub last_chapter: LastChapter,
    pub popular: i64,
    /// The chapters of each group, in the order of the comic's groups.
    pub groups: Vec<ChapterGroup>,
}

/// A comic as the library stores it.
#[derive(Debug)]
pub struct Comic {
    pub is_banned: bool,
    pub is_lock: bool,
    pub is_login: bool,
    pub is_mobile_bind: bool,
    pub is_vip: bool,
    pub comic: ComicDetail,
    pub popular: i64,
    pub groups: Vec<Group>,
}

/// No two remote groups share a path word.
pub open spec fn resp_group_keys_unique(gs: Seq<GroupRespData>) -> bool {
    forall|i: int, j: int| 0 <= i < gs.len() && 0 <= j < gs.len() && i != j
        ==> (#[trigger] gs[i]).path_word@ != (#[trigger] gs[j]).path_word@
}

/// No two chapter groups share a path word.
pub open spec fn chapter_group_keys_unique(gs: Seq<ChapterGroup>) -> bool {
    forall|i: int, j: int| 0 <= i < gs.len() && 0 <= j < gs.len() && i != j
        ==> (#[trigger] gs[i]).group_path_word@ != (#[trigger] gs[j]).group_path_word@
}

/// No two groups share a path word.
pub open spec fn group_keys_unique(gs: Seq<Group>) -> bool {
    forall|i: int, j: int| 0 <= i < gs.len() && 0 <= j < gs.len() && i != j
        ==> (#[trigger] gs[i]).path_word@ != (#[trigger] gs[j]).path_word@
}

impl Comic {
    /// Builds a comic from its remote description and the chapter listings of
    /// its groups: titles sanitised, chapter titles disambiguated per group,
    /// chapter flags left unset.
    pub fn from_resp_data(comic_resp_data: GetComicRespData, listings: &Vec<GroupListing>) -> (r: Comic)
        ensures
            r.comic.name@ == sanitized_title(comic_resp_data.comic.name@),
            r.comic.path_word == comic_resp_data.comic.path_word,
            r.comic.uuid == comic_resp_data.comic.uuid,
            r.popular == comic_resp_data.popular,
            r.comic.popular == comic_resp_data.popular,
            r.groups@.len() == comic_resp_data.groups@.len(),
            r.comic.groups@.len() == comic_resp_data.groups@.len(),
            resp_group_keys_unique(comic_resp_data.groups@) ==> chapter_group_keys_unique(r.comic.groups@)
                && group_keys_unique(r.groups@),
            forall|i: int| 0 <= i < r.comic.groups@.len() ==> {
                let g = comic_resp_data.groups@[i];
                let chs = listing_for(listings@, g.path_word@);
                &&& (#[trigger] r.comic.groups@[i]).group_path_word@ == g.path_word@
                &&& r.comic.groups@[i].chapters@.len() == chs.len()
                &&& forall|j: int| 0 <= j < chs.len() ==> chapter_info_from(#[trigger] r.comic.groups@[i].chapters@[j],
                    chs, j, sanitized_title(comic_resp_data.comic.name@), sanitized_title(g.name@),
                    comic_resp_data.comic.uuid@, comic_resp_data.comic.path_word@, g.path_word@,
                    if comic_resp_data.comic.status.value == 0 { ComicStatus::Ongoing } else { ComicStatus::Completed })
            },
    {
        let GetComicRespData { is_banned, is_lock, is_login, is_mobile_bind, is_vip, comic, popular, groups } =
            comic_resp_data;
        let comic_status = comic_status_of(comic.status.value);
        let comic_title = filename_filter(comic.name.as_str());
        let chapter_groups = chapter_groups_from_resp(&groups, listings, &comic_title, &comic.uuid,
            &comic.path_word, comic_status);
        let detail = ComicDetail {
            uuid: comic.uuid,
            b_404: comic.b_404,
            b_hidden: comic.b_hidden,
            ban: comic.ban,
            ban_ip: comic.ban_ip,
            name: comic_title,
            alias: comic.alias,
            path_word: comic.path_word,
            close_comment: comic.close_comment,
            close_roast: comic.close_roast,
            free_type: LabeledValue::from(comic.free_type),
            restrict: LabeledValue::from(comic.restrict),
            reclass: LabeledValue::from(comic.reclass),
            seo_baidu: comic.seo_baidu,
            region: LabeledValue::from(comic.region),
            status: LabeledValue::from(comic.status),
            author: Author::from(comic.author),
            theme: Theme::from(comic.theme),
            brief: comic.brief,
            datetime_updated: comic.datetime_updated,
            cover: comic.cover,
            last_chapter: LastChapter::from(comic.last_chapter),
            popular,
            groups: chapter_groups,
        };
        Comic {
            is_banned,
            is_lock,
            is_login,
            is_mobile_bind,
            is_vip,
            comic: detail,
            popular,
            groups: Group::from(groups),
        }
    }

    /// The chapter with id `chapter_uuid`, as group and position, searching
    /// the groups in order.
    pub fn find_chapter(&self, chapter_uuid: &String) -> (r: Option<(usize, usize)>)
        ensures
            r is None ==> forall|i: int, j: int| 0 <= i < self.comic.groups@.len()
                && 0 <= j < self.comic.groups@[i].chapters@.len()
                ==> (#[trigger] self.comic.groups@[i].chapters@[j]).chapter_uuid@ != chapter_uuid@,
            r matches Some((i, j)) ==> i < self.comic.groups@.len() && j < self.comic.groups@[i as int].chapters@.len()
                && self.comic.groups@[i as int].chapters@[j as int].chapter_uuid@ == chapter_uuid@,
    {
        let mut i: usize = 0;
        while i < self.comic.groups.len()
            invariant
                i <= self.comic.groups@.len(),
                forall|a: int, b: int| 0 <= a < i && 0 <= b < self.comic.groups@[a].chapters@.len()
                    ==> (#[trigger] self.comic.groups@[a].chapters@[b]).chapter_uuid@ != chapter_uuid@,
            decreases self.comic.groups@.len() - i,
        {
            let chapters = &self.comic.groups[i].chapters;
            let mut j: usize = 0;
            while j < chapters.len()
                invariant
                    i < self.comic.groups@.len(),
                    chapters@ == self.comic.groups@[i as int].chapters@,
                    j <= chapters@.len(),
                    forall|b: int| 0 <= b < j ==> (#[trigger] chapters@[b]).chapter_uuid@ != chapter_uuid@,
                decreases chapters@.len() - j,
            {
                if chapters[j].chapter_uuid == *chapter_uuid {
                    return Some((i, j));
                }
                j += 1;
            }
            i += 1;
        }
        None
    }
}

} // verus!
