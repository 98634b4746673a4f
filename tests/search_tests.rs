use copymanga_downloader::comic::AuthorRespData;
use copymanga_downloader::search::{
    ComicInGetFavoriteRespData, ComicInSearchRespData, FavoriteItemRespData, GetFavoriteRespData, GetFavoriteResult,
    Pagination, SearchRespData, SearchResult,
};

fn hit(path_word: &str) -> ComicInSearchRespData {
    ComicInSearchRespData {
        alias: None,
        author: vec![AuthorRespData { name: "A".to_string(), alias: String::new(), path_word: "a".to_string() }],
        ban: 0,
        cover: String::new(),
        name: path_word.to_uppercase(),
        path_word: path_word.to_string(),
        popular: 3,
    }
}

fn favorite(uuid: i64, path_word: &str) -> FavoriteItemRespData {
    FavoriteItemRespData {
        uuid,
        b_folder: false,
        comic: ComicInGetFavoriteRespData {
            uuid: format!("u{uuid}"),
            b_display: true,
            name: path_word.to_string(),
            path_word: path_word.to_string(),
            author: vec![],
            cover: String::new(),
            status: 0,
            popular: 1,
            datetime_updated: String::new(),
            last_chapter_id: String::new(),
            last_chapter_name: String::new(),
        },
    }
}

#[test]
fn search_results_mark_comics_in_the_library() {
    let resp = SearchRespData(Pagination { list: vec![hit("demo"), hit("other")], total: 2, limit: 20, offset: 0 });
    let r = SearchResult::from_resp_data(resp, &vec!["demo".to_string()]);
    assert_eq!(r.0.total, 2);
    assert_eq!(r.0.list.len(), 2);
    assert!(r.0.list[0].is_downloaded);
    assert!(!r.0.list[1].is_downloaded);
    assert_eq!(r.0.list[1].name, "OTHER");
}

#[test]
fn favorites_mark_comics_in_the_library() {
    let resp = GetFavoriteRespData(Pagination {
        list: vec![favorite(1, "x"), favorite(2, "demo")],
        total: 40,
        limit: 18,
        offset: 18,
    });
    let mut r = GetFavoriteResult::from_resp_data(resp, &vec!["demo".to_string()]);
    assert_eq!((r.0.total, r.0.limit, r.0.offset), (40, 18, 18));
    assert_eq!(r.0.list[1].uuid, 2);
    assert!(!r.0.list[0].comic.is_downloaded);
    assert!(r.0.list[1].comic.is_downloaded);
    r.0.list[1].comic.update_fields(&vec![]);
    assert!(!r.0.list[1].comic.is_downloaded);
}
