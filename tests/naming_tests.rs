use copymanga_downloader::comic::{chapter_infos_from_resp, ChapterInGetChaptersRespData, ComicStatus};
use copymanga_downloader::config::DownloadFormat;
use copymanga_downloader::naming::{
    disambiguate_titles, keep_temp_file, order_label_string, page_file_name, prefixed_chapter_title,
    temp_dir_name,
};
use copymanga_downloader::text::filename_filter;

fn chapter(uuid: &str, name: &str, ordered: i64) -> ChapterInGetChaptersRespData {
    ChapterInGetChaptersRespData {
        index: 0,
        uuid: uuid.to_string(),
        count: 2,
        ordered,
        size: 3,
        name: name.to_string(),
        comic_id: "cid".to_string(),
        comic_path_word: "demo".to_string(),
        group_id: None,
        group_path_word: "default".to_string(),
        type_field: 1,
        img_type: 2,
        news: String::new(),
        datetime_created: String::new(),
        prev: None,
        next: None,
    }
}

#[test]
fn filename_filter_maps_reserved_characters() {
    assert_eq!(filename_filter("a/b\\c:d*e?f\"g<h>i|j"), "a b c：d⭐e？f'g《h》i丨j");
}

#[test]
fn filename_filter_trims_white_space() {
    assert_eq!(filename_filter("  Ch 1 \t\n"), "Ch 1");
    assert_eq!(filename_filter(" / "), "");
    assert_eq!(filename_filter("\u{3000}番外\u{3000}"), "番外");
}

#[test]
fn collision_titles_count_down_in_traversal_order() {
    let titles = vec!["番外".to_string(), "番外".to_string()];
    assert_eq!(disambiguate_titles(&titles), vec!["番外-2".to_string(), "番外-1".to_string()]);
}

#[test]
fn collision_leaves_unique_titles_alone() {
    let titles: Vec<String> = ["a", "b", "a", "c", "a"].iter().map(|s| s.to_string()).collect();
    let expected: Vec<String> = ["a-3", "b", "a-2", "c", "a-1"].iter().map(|s| s.to_string()).collect();
    assert_eq!(disambiguate_titles(&titles), expected);
}

#[test]
fn collision_with_many_duplicates_uses_two_digit_suffixes() {
    let titles: Vec<String> = (0..12).map(|_| "x".to_string()).collect();
    let r = disambiguate_titles(&titles);
    assert_eq!(r[0], "x-12");
    assert_eq!(r[11], "x-1");
    let mut sorted = r.clone();
    sorted.sort();
    sorted.dedup();
    assert_eq!(sorted.len(), 12);
}

#[test]
fn collision_group_publishes_distinct_directories() {
    let chapters = vec![chapter("u1", "番外", 10), chapter("u2", "番外", 20)];
    let infos = chapter_infos_from_resp(
        &chapters,
        &"demo".to_string(),
        &"default".to_string(),
        &"cu".to_string(),
        &"demo".to_string(),
        &"default".to_string(),
        ComicStatus::Ongoing,
    );
    assert_eq!(infos[0].chapter_title, "番外-2");
    assert_eq!(infos[1].chapter_title, "番外-1");
    assert_eq!(infos[0].prefixed_chapter_title, "1 番外-2");
    assert_eq!(infos[1].prefixed_chapter_title, "2 番外-1");
    assert_eq!(infos[0].is_downloaded, None);
    assert_eq!(infos[1].order_tenths, 20);
}

#[test]
fn order_labels_follow_the_rational_order() {
    assert_eq!(order_label_string(10), "1");
    assert_eq!(order_label_string(15), "1.5");
    assert_eq!(order_label_string(0), "0");
    assert_eq!(order_label_string(3), "0.3");
    assert_eq!(order_label_string(1230), "123");
    assert_eq!(order_label_string(-5), "-0.5");
    assert_eq!(order_label_string(-20), "-2");
}

#[test]
fn prefixed_title_joins_order_and_title() {
    assert_eq!(prefixed_chapter_title(10, "Ch 1"), "1 Ch 1");
    assert_eq!(prefixed_chapter_title(105, "x"), "10.5 x");
}

#[test]
fn temp_dir_name_has_the_downloading_prefix() {
    assert_eq!(temp_dir_name("1 Ch 1"), ".downloading-1 Ch 1");
}

#[test]
fn page_file_names_are_one_based_and_padded() {
    assert_eq!(page_file_name(0, DownloadFormat::Webp), "001.webp");
    assert_eq!(page_file_name(2, DownloadFormat::Webp), "003.webp");
    assert_eq!(page_file_name(9, DownloadFormat::Jpeg), "010.jpg");
    assert_eq!(page_file_name(98, DownloadFormat::Jpeg), "099.jpg");
    assert_eq!(page_file_name(99, DownloadFormat::Jpeg), "100.jpg");
    assert_eq!(page_file_name(1233, DownloadFormat::Webp), "1234.webp");
}

#[test]
fn stale_temp_files_are_dropped() {
    assert!(keep_temp_file(Some("webp"), DownloadFormat::Webp));
    assert!(!keep_temp_file(Some("jpg"), DownloadFormat::Webp));
    assert!(keep_temp_file(Some("jpg"), DownloadFormat::Jpeg));
    assert!(!keep_temp_file(None, DownloadFormat::Jpeg));
    assert!(!keep_temp_file(Some("WEBP"), DownloadFormat::Webp));
}
