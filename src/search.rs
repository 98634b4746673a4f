//! Search results and favourites, with whether each comic is in the library.

use vstd::prelude::*;
use crate::comic::AuthorRespData;
use crate::naming::views_of;
use crate::comic::contains_string;

verus! {

/// One page of a listing.
#[derive(Debug, Clone)]
pub struct Pagination<T> {
    pub list: Vec<T>,
    pub total: i64,
    pub limit: i64,
    pub offset: i64,
}

/// A comic found by a search, as the remote describes it.
#[derive(Debug, Clone)]
pub struct ComicInSearchRespData {
    pub alias: Option<String>,
    pub author: Vec<AuthorRespData>,
    pub ban: i64,
    pub cover: String,
    pub name: String,
    pub path_word: String,
    pub popular: i64,
}

/// A page of search results, as the remote describes it.
#[derive(Debug, Clone)]
pub struct SearchRespData(pub Pagination<ComicInSearchRespData>);

/// A comic found by a search.
#[derive(Debug, Clone)]
pub struct ComicInSearch {
    pub name: String,
    pub alias: Option<String>,
    pub path_word: String,
    pub cover: String,
    pub ban: i64,
    pub author: Vec<AuthorRespData>,
    pub popular: i64,
    /// Whether the library holds the comic.
    pub is_downloaded: bool,
}

impl ComicInSearch {
    /// A search hit, marked downloaded when its path word is among
    /// `downloaded_path_words`.
    pub fn from_resp_data(resp_data: &ComicInSearchRespData, downloaded_path_words: &Vec<String>) -> (r: ComicInSearch)
        ensures
            r.name == resp_data.name,
            r.path_word == resp_data.path_word,
            r.ban == resp_data.ban,
            r.popular == resp_data.popular,
            r.is_downloaded == views_of(downloaded_path_words@).contains(resp_data.path_word@),
    {
        let mut comic = ComicInSearch {
            name: resp_data.name.clone(),
            alias: resp_data.alias.clone(),
            path_word: resp_data.path_word.clone(),
            cover: resp_data.cover.clone(),
            ban: resp_data.ban,
            author: resp_data.author.clone(),
            popular: resp_data.popular,
            is_downloaded: false,
        };
        comic.update_fields(downloaded_path_words);
        comic
    }

    /// Recomputes whether the library holds the comic.
    pub fn update_fields(&mut self, downloaded_path_words: &Vec<String>)
        ensures
            final(self).is_downloaded == views_of(downloaded_path_words@).contains(old(self).path_word@),
            final(self).name == old(self).name,
            final(self).path_word == old(self).path_word,
            final(self).ban == old(self).ban,
            final(self).popular == old(self).popular,
    {
        self.is_downloaded = contains_string(downloaded_path_words, &self.path_word);
    }
}

/// A page of search results.
#[derive(Debug, Clone)]
pub struct SearchResult(pub Pagination<ComicInSearch>);

impl SearchResult {
    /// The results of a remote search page, in order.
    pub fn from_resp_data(resp_data: SearchRespData, downloaded_path_words: &Vec<String>) -> (r: SearchResult)
        ensures
            r.0.total == resp_data.0.total,
            r.0.limit == resp_data.0.limit,
            r.0.offset == resp_data.0.offset,
            r.0.list@.len() == resp_data.0.list@.len(),
            forall|i: int| 0 <= i < r.0.list@.len() ==> (#[trigger] r.0.list@[i]).path_word
                == resp_data.0.list@[i].path_word && r.0.list@[i].is_downloaded
                == views_of(downloaded_path_words@).contains(resp_data.0.list@[i].path_word@),
    {
        let p = &resp_data.0;
        let mut list: Vec<ComicInSearch> = Vec::new();
        let mut i: usize = 0;
        while i < p.list.len()
            invariant
                i <= p.list@.len(),
                list@.len() == i,
                forall|j: int| 0 <= j < i ==> (#[trigger] list@[j]).path_word == p.list@[j].path_word
                    && list@[j].is_downloaded == views_of(downloaded_path_words@).contains(p.list@[j].path_word@),
            decreases p.list@.len() - i,
        {
            list.push(ComicInSearch::from_resp_data(&p.list[i], downloaded_path_words));
            i += 1;
        }
        SearchResult(Pagination { list, total: p.total, limit: p.limit, offset: p.offset })
    }
}

/// A favourite comic, as the remote describes it.
#[derive(Debug, Clone)]
pub struct ComicInGetFavoriteRespData {
    pub uuid: String,
    pub b_display: bool,
    pub name: String,
    pub path_word: String,
    pub author: Vec<AuthorRespData>,
    pub cover: String,
    pub status: i64,
    pub popular: i64,
    pub datetime_updated: String,
    pub last_chapter_id: String,
    pub last_chapter_name: String,
}

/// A favourites entry, as the remote describes it.
#[derive(Debug, Clone)]
pub struct FavoriteItemRespData {
    pub uuid: i64,
    pub b_folder: bool,
    pub comic: ComicInGetFavoriteRespData,
}

/// A page of favourites, as the remote describes it.
#[derive(Debug, Clone)]
pub struct GetFavoriteRespData(pub Pagination<FavoriteItemRespData>);

/// A favourite comic.
#[derive(Debug, Clone)]
pub struct ComicInFavorite {
    pub uuid: String,
    pub b_display: bool,
    pub name: String,
    pub path_word: String,
    pub author: Vec<AuthorRespData>,
    pub cover: String,
    pub status: i64,
    pub popular: i64,
    pub datetime_updated: String,
    pub last_chapter_id: String,
    pub last_chapter_name: String,
    /// Whether the library holds the comic.
    pub is_downloaded: bool,
}

impl ComicInFavorite {
    /// A favourite, marked downloaded when its path word is among
    /// `downloaded_path_words`.
    pub fn from_resp_data(resp_data: &ComicInGetFavoriteRespData, downloaded_path_words: &Vec<String>)
        -> (r: ComicInFavorite)
        ensures
            r.uuid == resp_data.uuid,
            r.name == resp_data.name,
            r.path_word == resp_data.path_word,
            r.status == resp_data.status,
            r.is_downloaded == views_of(downloaded_path_words@).contains(resp_data.path_word@),
    {
        let mut comic = ComicInFavorite {
            uuid: resp_data.uuid.clone(),
            b_display: resp_data.b_display,
            name: resp_data.name.clone(),
            path_word: resp_data.path_word.clone(),
            author: resp_data.author.clone(),
            cover: resp_data.cover.clone(),
            status: resp_data.status,
            popular: resp_data.popular,
            datetime_updated: resp_data.datetime_updated.clone(),
            last_chapter_id: resp_data.last_chapter_id.clone(),
            last_chapter_name: resp_data.last_chapter_name.clone(),
            is_downloaded: false,
        };
        comic.update_fields(downloaded_path_words);
        comic
    }

    /// Recomputes whether the library holds the comic.
    pub fn update_fields(&mut self, downloaded_path_words: &Vec<String>)
        ensures
            final(self).is_downloaded == views_of(downloaded_path_words@).contains(old(self).path_word@),
            final(self).uuid == old(self).uuid,
            final(self).name == old(self).name,
            final(self).path_word == old(self).path_word,
            final(self).status == old(self).status,
    {
        self.is_downloaded = contains_string(downloaded_path_words, &self.path_word);
    }
}

/// A favourites entry.
#[derive(Debug, Clone)]
pub struct FavoriteItem {
    pub uuid: i64,
    pub b_folder: bool,
    pub comic: ComicInFavorite,
}

/// A page of favourites.
#[derive(Debug, Clone)]
pub struct GetFavoriteResult(pub Pagination<FavoriteItem>);

impl GetFavoriteResult {
    /// The favourites of a remote page, in order.
    pub fn from_resp_data(resp_data: GetFavoriteRespData, downloaded_path_words: &Vec<String>) -> (r: GetFavoriteResult)
        ensures
            r.0.total == resp_data.0.total,
            r.0.limit == resp_data.0.limit,
            r.0.offset == resp_data.0.offset,
            r.0.list@.len() == resp_data.0.list@.len(),
            forall|i: int| 0 <= i < r.0.list@.len() ==> (#[trigger] r.0.list@[i]).uuid == resp_data.0.list@[i].uuid
                && r.0.list@[i].comic.path_word == resp_data.0.list@[i].comic.path_word
                && r.0.list@[i].comic.is_downloaded
                == views_of(downloaded_path_words@).contains(resp_data.0.list@[i].comic.path_word@),
    {
        let p = &resp_data.0;
        let mut list: Vec<FavoriteItem> = Vec::new();
        let mut i: usize = 0;
        while i < p.list.len()
            invariant
                i <= p.list@.len(),
                list@.len() == i,
                forall|j: int| 0 <= j < i ==> (#[trigger] list@[j]).uuid == p.list@[j].uuid
                    && list@[j].comic.path_word == p.list@[j].comic.path_word
                    && list@[j].comic.is_downloaded
                    == views_of(downloaded_path_words@).contains(p.list@[j].comic.path_word@),
            decreases p.list@.len() - i,
        {
            let item = &p.list[i];
            let comic = ComicInFavorite::from_resp_data(&item.comic, downloaded_path_words);
            list.push(FavoriteItem { uuid: item.uuid, b_folder: item.b_folder, comic });
            i += 1;
        }
        GetFavoriteResult(Pagination { list, total: p.total, limit: p.limit, offset: p.offset })
    }
}

} // verus!
