use copymanga_downloader::comic::{
    chapter_rel_dir_string, clear_downloaded_flags, sync_downloaded_flags, Comic, ComicDetailRespData,
    ChapterInGetChaptersRespData, GetComicRespData, GroupListing, GroupRespData, LabeledValueRespData,
    LastChapterRespData, AuthorRespData, ThemeRespData, ComicStatus,
};
use copymanga_downloader::client::url_and_index_pairs;
use copymanga_downloader::config::{Archive, DownloadFormat};
use copymanga_downloader::engine::DownloadTaskState;
use copymanga_downloader::naming::page_file_name;
use copymanga_downloader::engine::{DownloadEngine, TaskError};
use copymanga_downloader::library::{
    chapters_to_update, is_chapter_metadata, is_comic_metadata, library_order, MetadataFile,
};

fn labeled(v: i64) -> LabeledValueRespData {
    LabeledValueRespData { value: v, display: format!("v{v}") }
}

fn chapter(uuid: &str, name: &str, ordered: i64) -> ChapterInGetChaptersRespData {
    ChapterInGetChaptersRespData {
        index: 0,
        uuid: uuid.to_string(),
        count: 2,
        ordered,
        size: 3,
        name: name.to_string(),
        comic_id: "cid".to_string(),
        comic_path_word: "demo".to_string(),
        group_id: None,
        group_path_word: "default".to_string(),
        type_field: 1,
        img_type: 2,
        news: String::new(),
        datetime_created: String::new(),
        prev: None,
        next: None,
    }
}

fn demo_comic(chapters: Vec<ChapterInGetChaptersRespData>) -> Comic {
    let resp = GetComicRespData {
        is_banned: false,
        is_lock: false,
        is_login: true,
        is_mobile_bind: false,
        is_vip: false,
        comic: ComicDetailRespData {
            uuid: "cu".to_string(),
            b_404: false,
            b_hidden: false,
            ban: 0,
            ban_ip: None,
            name: " demo? ".to_string(),
            alias: None,
            path_word: "demo".to_string(),
            close_comment: false,
            close_roast: false,
            free_type: labeled(1),
            restrict: labeled(0),
            reclass: labeled(0),
            seo_baidu: None,
            region: labeled(0),
            status: labeled(0),
            author: vec![AuthorRespData { name: "A".to_string(), alias: String::new(), path_word: "a".to_string() }],
            theme: vec![ThemeRespData { name: "T".to_string(), path_word: "t".to_string() }],
            brief: "b".to_string(),
            datetime_updated: "2024-01-01".to_string(),
            cover: "https://h/c.jpg".to_string(),
            last_chapter: LastChapterRespData { uuid: "c2".to_string(), name: "Ch 2".to_string() },
            popular: 7,
        },
        popular: 7,
        groups: vec![
            GroupRespData { path_word: "default".to_string(), count: 2, name: "默认".to_string() },
            GroupRespData { path_word: "extra".to_string(), count: 0, name: "Extra".to_string() },
        ],
    };
    let listings = vec![GroupListing { group_path_word: "default".to_string(), chapters }];
    Comic::from_resp_data(resp, &listings)
}

#[test]
fn comic_from_remote_data_sanitises_and_orders() {
    let comic = demo_comic(vec![chapter("c1", "Ch 1", 10), chapter("c2", "Ch 2", 20)]);
    assert_eq!(comic.comic.name, "demo？");
    assert_eq!(comic.comic.groups.len(), 2);
    assert_eq!(comic.comic.groups[0].group_path_word, "default");
    assert_eq!(comic.comic.groups[0].chapters[1].prefixed_chapter_title, "2 Ch 2");
    assert_eq!(comic.comic.groups[0].chapters[0].group_name, "默认");
    assert_eq!(comic.comic.groups[0].chapters[0].comic_title, "demo？");
    assert_eq!(comic.comic.groups[0].chapters[0].comic_status, ComicStatus::Ongoing);
    assert!(comic.comic.groups[1].chapters.is_empty());
    assert_eq!(comic.groups[1].name, "Extra");
    assert_eq!(comic.comic.author[0].name, "A");
    assert_eq!(comic.comic.theme[0].path_word, "t");
    assert_eq!(comic.comic.last_chapter.uuid, "c2");
    assert_eq!(comic.comic.status.value, 0);
    assert_eq!(comic.find_chapter(&"c2".to_string()), Some((0, 1)));
    assert_eq!(comic.find_chapter(&"zz".to_string()), None);
}

#[test]
fn downloaded_flags_come_from_published_directories() {
    let comic = demo_comic(vec![chapter("c1", "Ch 1", 10), chapter("c2", "Ch 2", 20)]);
    assert_eq!(chapter_rel_dir_string(&comic.comic.groups[0].chapters[0]), "默认/1 Ch 1");
    let published = vec!["默认/1 Ch 1".to_string()];
    let groups = sync_downloaded_flags(comic.comic.groups, &published);
    assert_eq!(groups[0].chapters[0].is_downloaded, Some(true));
    assert_eq!(groups[0].chapters[1].is_downloaded, Some(false));
    let stored = clear_downloaded_flags(groups);
    assert_eq!(stored[0].chapters[0].is_downloaded, None);
    assert_eq!(stored[0].chapters[1].is_downloaded, None);
    let reloaded = sync_downloaded_flags(stored, &published);
    assert_eq!(reloaded[0].chapters[0].is_downloaded, Some(true));
    assert_eq!(reloaded[0].chapters[1].is_downloaded, Some(false));
}

#[test]
fn library_update_enqueues_exactly_the_missing_chapter() {
    let comic = demo_comic(vec![chapter("c1", "Ch 1", 10), chapter("c2", "Ch 2", 20)]);
    let groups = sync_downloaded_flags(comic.comic.groups, &vec!["默认/1 Ch 1".to_string()]);
    let plan = chapters_to_update(&groups);
    assert_eq!(plan, vec!["c2".to_string()]);
    let mut engine = DownloadEngine::new();
    for uuid in &plan {
        engine.create_download_task(uuid).unwrap();
    }
    assert!(engine.progress(&"c2".to_string()).is_some());
    assert!(engine.progress(&"c1".to_string()).is_none());
    assert_eq!(engine.create_download_task(&"c2".to_string()), Err(TaskError::AlreadyExists));
}

#[test]
fn library_update_skips_groups_without_downloads() {
    let comic = demo_comic(vec![chapter("c1", "Ch 1", 10), chapter("c2", "Ch 2", 20)]);
    let groups = sync_downloaded_flags(comic.comic.groups, &vec![]);
    assert!(chapters_to_update(&groups).is_empty());
    let comic = demo_comic(vec![chapter("c1", "Ch 1", 10), chapter("c2", "Ch 2", 20)]);
    let all = vec!["默认/1 Ch 1".to_string(), "默认/2 Ch 2".to_string()];
    let groups = sync_downloaded_flags(comic.comic.groups, &all);
    assert!(chapters_to_update(&groups).is_empty());
}

#[test]
fn library_keeps_the_newest_copy_of_each_comic() {
    let f = |p: &str, m: u128| MetadataFile { path_word: p.to_string(), modified: m };
    let files = vec![f("a", 5), f("b", 9), f("a", 7), f("c", 1), f("b", 2)];
    assert_eq!(library_order(&files), vec![1, 2, 3]);
    assert_eq!(library_order(&vec![]), Vec::<usize>::new());
    assert_eq!(library_order(&vec![f("z", 3)]), vec![0]);
}

#[test]
fn only_metadata_files_count() {
    assert!(is_comic_metadata("metadata.json", true));
    assert!(!is_comic_metadata("metadata.json", false));
    assert!(!is_comic_metadata("chapter-metadata.json", true));
    assert!(is_chapter_metadata("chapter-metadata.json", true));
    assert!(!is_chapter_metadata("metadata.json", true));
    assert_eq!(Archive::Cbz.extension(), "cbz");
}

#[test]
fn happy_path_publishes_three_webp_pages() {
    let mut comic = demo_comic(vec![chapter("c1", "Ch 1", 10)]);
    comic.comic.groups[0].chapters[0].group_name = "default".to_string();
    let info = &comic.comic.groups[0].chapters[0];
    assert_eq!(chapter_rel_dir_string(info), "default/1 Ch 1");
    let urls: Vec<String> = ["https://h/a.c800x.webp", "https://h/b.c800x.webp", "https://h/c.c800x.webp"]
        .iter()
        .map(|s| s.to_string())
        .collect();
    let pages = url_and_index_pairs(&urls, &vec![0, 1, 2]);
    let names: Vec<String> =
        pages.iter().map(|p| page_file_name(p.index as u64, DownloadFormat::Webp)).collect();
    assert_eq!(names, vec!["001.webp", "002.webp", "003.webp"]);
    let mut engine = DownloadEngine::new();
    let key = "c1".to_string();
    engine.create_download_task(&key).unwrap();
    assert_eq!(engine.try_acquire_chapter_permit(&key), Ok(true));
    engine.set_total_img_count(&key, pages.len() as u32).unwrap();
    for _ in &pages {
        engine.try_acquire_image_permit(&key).unwrap();
        engine.release_image_permit(&key, true).unwrap();
    }
    assert_eq!(engine.finish_images(&key), Ok(true));
    engine.finish_chapter(&key, true).unwrap();
    let p = engine.progress(&key).unwrap();
    assert_eq!((p.state, p.downloaded_img_count, p.total_img_count), (DownloadTaskState::Completed, 3, 3));
}

#[test]
fn publishing_without_every_image_fails() {
    let mut engine = DownloadEngine::new();
    let key = "c1".to_string();
    engine.create_download_task(&key).unwrap();
    engine.try_acquire_chapter_permit(&key).unwrap();
    engine.set_total_img_count(&key, 2).unwrap();
    engine.record_existing_page(&key).unwrap();
    engine.finish_chapter(&key, true).unwrap();
    assert_eq!(engine.progress(&key).unwrap().state, DownloadTaskState::Failed);
}
