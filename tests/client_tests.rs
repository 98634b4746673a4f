use copymanga_downloader::account_pool::{Account, AccountPool};
use copymanga_downloader::client::{
    check_envelope_code, check_status, concat_pages, convert_to_format, encode_password, format_of_content_type,
    page_in_format, page_offset, remaining_page_offsets, to_string_chain, url_and_index_pairs, ApiOperation,
    CommandError, CopyMangaError, RiskControlError, CHAPTERS_LIMIT, FAVORITE_LIMIT, SEARCH_LIMIT,
};
use copymanga_downloader::config::{ApiDomainMode, Config, DownloadFormat, GetFavoriteOrdering};
use copymanga_downloader::retry::{
    fetch_outcome_of, random_retry_wait_ms, retry_wait_ms, risk_countdown, ChapterFetchRetry, FetchOutcome,
    RetryAction,
};

fn account(name: &str, token: &str, limited_at: i64) -> Account {
    Account { username: name.to_string(), password: "pw".to_string(), token: token.to_string(), limited_at }
}

#[test]
fn status_210_is_risk_control_tagged_with_the_operation() {
    let ops = [
        ApiOperation::Register,
        ApiOperation::Login,
        ApiOperation::GetUserProfile,
        ApiOperation::Search,
        ApiOperation::GetComic,
        ApiOperation::GetChapter,
        ApiOperation::GetChapters,
        ApiOperation::GetFavorite,
    ];
    for op in ops {
        match check_status(op, 210, "slow down".to_string()) {
            Err(CopyMangaError::RiskControl(e)) => {
                let (tag, body) = match e {
                    RiskControlError::Register(b) => (ApiOperation::Register, b),
                    RiskControlError::Login(b) => (ApiOperation::Login, b),
                    RiskControlError::GetUserProfile(b) => (ApiOperation::GetUserProfile, b),
                    RiskControlError::Search(b) => (ApiOperation::Search, b),
                    RiskControlError::GetComic(b) => (ApiOperation::GetComic, b),
                    RiskControlError::GetChapter(b) => (ApiOperation::GetChapter, b),
                    RiskControlError::GetChapters(b) => (ApiOperation::GetChapters, b),
                    RiskControlError::GetFavorite(b) => (ApiOperation::GetFavorite, b),
                };
                assert_eq!(tag, op);
                assert_eq!(body, "slow down");
            }
            other => panic!("expected risk control, got {other:?}"),
        }
    }
}

#[test]
fn other_statuses_are_ordinary_errors() {
    assert!(matches!(check_status(ApiOperation::Search, 200, "b".to_string()), Ok(b) if b == "b"));
    assert!(matches!(check_status(ApiOperation::Search, 500, "b".to_string()), Err(CopyMangaError::Other(_))));
    assert!(matches!(check_status(ApiOperation::GetUserProfile, 401, "b".to_string()), Err(CopyMangaError::StaleToken(b)) if b == "b"));
    assert!(matches!(check_status(ApiOperation::GetComic, 401, "b".to_string()), Err(CopyMangaError::Other(_))));
    assert!(check_envelope_code(200).is_ok());
    assert!(matches!(check_envelope_code(404), Err(CopyMangaError::Other(_))));
}

#[test]
fn password_is_salted_and_base64_encoded() {
    assert_eq!(encode_password("secret"), "c2VjcmV0LTE3Mjk=");
    assert_eq!(encode_password("密码"), "5a+G56CBLTE3Mjk=");
}

#[test]
fn page_offsets_for_search_and_favorites() {
    assert_eq!(page_offset(1, SEARCH_LIMIT), Some(0));
    assert_eq!(page_offset(3, SEARCH_LIMIT), Some(40));
    assert_eq!(page_offset(2, FAVORITE_LIMIT), Some(18));
    assert_eq!(page_offset(i64::MAX, SEARCH_LIMIT), None);
    assert_eq!(GetFavoriteOrdering::Added.as_params(), "-datetime_modifier");
    assert_eq!(GetFavoriteOrdering::Updated.as_params(), "-datetime_updated");
    assert_eq!(GetFavoriteOrdering::Read.as_params(), "-datetime_browse");
}

#[test]
fn chapter_listing_pagination_boundaries() {
    assert_eq!(CHAPTERS_LIMIT, 500);
    assert_eq!(remaining_page_offsets(1, CHAPTERS_LIMIT), Vec::<i64>::new());
    assert_eq!(remaining_page_offsets(500, CHAPTERS_LIMIT), Vec::<i64>::new());
    assert_eq!(remaining_page_offsets(501, CHAPTERS_LIMIT), vec![500]);
    assert_eq!(remaining_page_offsets(1000, CHAPTERS_LIMIT), vec![500]);
    assert_eq!(remaining_page_offsets(1001, CHAPTERS_LIMIT), vec![500, 1000]);
    assert_eq!(remaining_page_offsets(0, CHAPTERS_LIMIT), Vec::<i64>::new());
}

#[test]
fn pages_are_joined_in_page_order() {
    let pages = vec![vec![1, 2], vec![], vec![3], vec![4, 5, 6]];
    assert_eq!(concat_pages(pages), vec![1, 2, 3, 4, 5, 6]);
    assert_eq!(concat_pages(Vec::<Vec<u8>>::new()), Vec::<u8>::new());
}

#[test]
fn manifest_urls_ask_for_the_large_resolution() {
    let urls: Vec<String> = ["https://h/a.c800x.webp", "https://h/b.c800x.webp", "https://h/c.c800x.webp"]
        .iter()
        .map(|s| s.to_string())
        .collect();
    let pairs = url_and_index_pairs(&urls, &vec![0, 1, 2]);
    assert_eq!(pairs.len(), 3);
    assert_eq!(pairs[0].url, "https://h/a.c1500x.webp");
    assert_eq!(pairs[2].url, "https://h/c.c1500x.webp");
    assert_eq!(pairs[1].index, 1);
    let other = url_and_index_pairs(&vec!["https://h/x.c800x..c800x.jpg".to_string()], &vec![7, 8]);
    assert_eq!(other[0].url, "https://h/x.c1500x..c1500x.jpg");
    assert_eq!(other[0].index, 7);
}

#[test]
fn content_types_map_to_formats() {
    assert_eq!(format_of_content_type("image/webp"), Some(DownloadFormat::Webp));
    assert_eq!(format_of_content_type("image/jpeg"), Some(DownloadFormat::Jpeg));
    assert_eq!(format_of_content_type("image/png"), None);
    assert!(page_in_format("text/html", vec![1, 2], DownloadFormat::Webp).is_err());
}

#[test]
fn same_format_is_kept_verbatim() {
    let data = vec![1u8, 2, 3];
    assert_eq!(page_in_format("image/webp", data.clone(), DownloadFormat::Webp).ok(), Some(data.clone()));
    assert_eq!(convert_to_format(data.clone(), DownloadFormat::Jpeg, DownloadFormat::Jpeg).ok(), Some(data));
}

#[test]
fn other_format_is_reencoded() {
    let img = image::RgbImage::from_pixel(4, 4, image::Rgb([200, 10, 10]));
    let mut jpeg = Vec::new();
    image::DynamicImage::ImageRgb8(img)
        .write_to(&mut std::io::Cursor::new(&mut jpeg), image::ImageFormat::Jpeg)
        .unwrap();
    let webp = page_in_format("image/jpeg", jpeg.clone(), DownloadFormat::Webp).ok().unwrap();
    assert_ne!(webp, jpeg);
    assert_eq!(&webp[0..4], b"RIFF");
    assert_eq!(&webp[8..12], b"WEBP");
    let back = convert_to_format(webp, DownloadFormat::Webp, DownloadFormat::Jpeg).ok().unwrap();
    assert_eq!(&back[0..2], &[0xFF, 0xD8]);
    assert!(convert_to_format(vec![0, 1, 2], DownloadFormat::Jpeg, DownloadFormat::Webp).is_err());
}

#[test]
fn register_risk_control_starts_the_countdown() {
    let e = CopyMangaError::RiskControl(RiskControlError::Register("x".to_string()));
    assert_eq!(fetch_outcome_of(&e), FetchOutcome::RegisterRiskControl);
    let mut retry = ChapterFetchRetry::new();
    assert_eq!(retry.on_outcome(fetch_outcome_of(&e)), RetryAction::CountdownThenRetry);
    assert_eq!(retry.failed_attempts, 0);
    let countdown = risk_countdown();
    assert_eq!(countdown.len(), 60);
    assert_eq!(countdown[0], 59);
    assert_eq!(countdown[59], 0);
    assert!(countdown.windows(2).all(|w| w[0] == w[1] + 1));
}

#[test]
fn other_failures_retry_up_to_five_attempts() {
    let e = CopyMangaError::RiskControl(RiskControlError::GetChapter("x".to_string()));
    assert_eq!(fetch_outcome_of(&e), FetchOutcome::Failed);
    assert_eq!(fetch_outcome_of(&CopyMangaError::Other("x".to_string())), FetchOutcome::Failed);
    let mut retry = ChapterFetchRetry::new();
    for _ in 0..4 {
        assert_eq!(retry.on_outcome(FetchOutcome::Failed), RetryAction::WaitThenRetry);
    }
    assert_eq!(retry.on_outcome(FetchOutcome::Failed), RetryAction::GiveUp);
    let mut retry = ChapterFetchRetry::new();
    retry.on_outcome(FetchOutcome::Failed);
    assert_eq!(retry.on_outcome(FetchOutcome::Fetched), RetryAction::Done);
}

#[test]
fn retry_waits_between_one_and_five_seconds() {
    assert_eq!(retry_wait_ms(0), 1000);
    assert_eq!(retry_wait_ms(3999), 4999);
    assert_eq!(retry_wait_ms(4000), 1000);
    for _ in 0..50 {
        let ms = random_retry_wait_ms();
        assert!((1000..5000).contains(&ms));
    }
}

#[test]
fn risk_control_on_an_account_marks_it_limited() {
    let mut pool = AccountPool::new(60);
    pool.add_account(account("a", "ta", 0));
    pool.add_account(account("b", "tb", 0));
    assert_eq!(pool.get_available_account(1000), Some(0));
    pool.mark_limited(0, 1000);
    assert_eq!(pool.accounts[0].limited_at, 1000);
    assert_eq!(pool.get_available_account(1000), Some(1));
    assert_eq!(pool.chapter_authorization(1), "Token tb");
    pool.mark_limited(1, 1010);
    assert_eq!(pool.get_available_account(1030), None);
    assert_eq!(pool.get_available_account(1060), Some(0));
    assert_eq!(AccountPool::new(60).get_available_account(0), None);
}

#[test]
fn marking_limited_now_uses_the_clock() {
    let mut pool = AccountPool::new(60);
    pool.add_account(account("a", "ta", 0));
    let now = pool.mark_limited_now(0);
    assert!(now > 1_600_000_000);
    assert_eq!(pool.accounts[0].limited_at, now);
    assert_eq!(pool.accounts[0].token, "ta");
    let (found, at) = pool.get_available_account_now();
    assert_eq!(found, None);
    assert!(at >= now);
    pool.add_account(account("b", "tb", 0));
    assert_eq!(pool.get_available_account_now().0, Some(1));
}

#[test]
fn chapter_requests_use_the_pool_token_not_the_primary_one() {
    let mut config = Config::default("/L".to_string(), "/E".to_string());
    config.token = "primary".to_string();
    let mut pool = AccountPool::new(60);
    pool.add_account(account("a", "disposable", 0));
    let i = pool.get_available_account(100).unwrap();
    assert_eq!(pool.chapter_authorization(i), "Token disposable");
    assert_eq!(config.get_authorization(), "Token primary");
}

#[test]
fn api_domain_follows_the_mode() {
    let mut config = Config::default("/L".to_string(), "/E".to_string());
    assert_eq!(config.get_api_domain(), "api.copy2000.online");
    config.custom_api_domain = "example.org".to_string();
    assert_eq!(config.get_api_domain(), "api.copy2000.online");
    config.api_domain_mode = ApiDomainMode::Custom;
    assert_eq!(config.get_api_domain(), "example.org");
    assert_eq!(DownloadFormat::Webp.extension(), "webp");
    assert_eq!(DownloadFormat::Jpeg.extension(), "jpg");
}

#[test]
fn error_chains_are_numbered_lines() {
    let msgs = vec!["outer".to_string(), "inner".to_string()];
    assert_eq!(to_string_chain(&msgs), "0: outer\n1: inner\n");
    let e = CommandError::from("failed", &msgs);
    assert_eq!(e.err_title, "failed");
    assert_eq!(e.err_message, "0: outer\n1: inner\n");
    assert_eq!(to_string_chain(&vec![]), "");
}
