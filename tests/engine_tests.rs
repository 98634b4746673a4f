use copymanga_downloader::engine::{DownloadEngine, DownloadTaskState, TaskError, CHAPTER_PERMITS, IMAGE_PERMITS};

fn s(x: &str) -> String {
    x.to_string()
}

fn state(e: &DownloadEngine, k: &str) -> DownloadTaskState {
    e.progress(&s(k)).unwrap().state
}

#[test]
fn happy_path_completes_with_all_images() {
    let mut e = DownloadEngine::new();
    let c1 = s("c1");
    e.create_download_task(&c1).unwrap();
    assert_eq!(state(&e, "c1"), DownloadTaskState::Pending);
    assert_eq!(e.try_acquire_chapter_permit(&c1), Ok(true));
    assert_eq!(state(&e, "c1"), DownloadTaskState::Downloading);
    e.set_total_img_count(&c1, 3).unwrap();
    for _ in 0..3 {
        assert_eq!(e.try_acquire_image_permit(&c1), Ok(true));
        e.release_image_permit(&c1, true).unwrap();
    }
    assert_eq!(e.finish_images(&c1), Ok(true));
    e.finish_chapter(&c1, true).unwrap();
    let p = e.progress(&c1).unwrap();
    assert_eq!(p.state, DownloadTaskState::Completed);
    assert_eq!(p.downloaded_img_count, 3);
    assert_eq!(p.total_img_count, 3);
    assert_eq!(e.chapter_permits_in_use(), 0);
    assert_eq!(e.image_permits_in_use(), 0);
}

#[test]
fn duplicate_active_task_is_refused() {
    let mut e = DownloadEngine::new();
    let c = s("c");
    e.create_download_task(&c).unwrap();
    assert_eq!(e.create_download_task(&c), Err(TaskError::AlreadyExists));
    e.pause_download_task(&c).unwrap();
    assert_eq!(e.create_download_task(&c), Err(TaskError::AlreadyExists));
    e.cancel_download_task(&c).unwrap();
    assert_eq!(e.create_download_task(&c), Ok(()));
    assert_eq!(state(&e, "c"), DownloadTaskState::Pending);
}

#[test]
fn control_of_a_missing_task_fails() {
    let mut e = DownloadEngine::new();
    assert_eq!(e.pause_download_task(&s("x")), Err(TaskError::NotFound));
    assert_eq!(e.resume_download_task(&s("x")), Err(TaskError::NotFound));
    assert_eq!(e.cancel_download_task(&s("x")), Err(TaskError::NotFound));
    assert_eq!(e.try_acquire_chapter_permit(&s("x")), Err(TaskError::NotFound));
}

#[test]
fn finished_tasks_do_not_change_state() {
    let mut e = DownloadEngine::new();
    let c = s("c");
    e.create_download_task(&c).unwrap();
    e.try_acquire_chapter_permit(&c).unwrap();
    e.finish_chapter(&c, false).unwrap();
    assert_eq!(state(&e, "c"), DownloadTaskState::Failed);
    assert_eq!(e.pause_download_task(&c), Ok(()));
    assert_eq!(e.resume_download_task(&c), Ok(()));
    assert_eq!(e.cancel_download_task(&c), Ok(()));
    assert_eq!(state(&e, "c"), DownloadTaskState::Failed);
    let d = s("d");
    e.create_download_task(&d).unwrap();
    e.try_acquire_chapter_permit(&d).unwrap();
    e.set_total_img_count(&d, 0).unwrap();
    e.finish_chapter(&d, true).unwrap();
    assert_eq!(e.cancel_download_task(&d), Ok(()));
    assert_eq!(state(&e, "d"), DownloadTaskState::Completed);
}

#[test]
fn at_most_three_chapters_download_at_once() {
    let mut e = DownloadEngine::new();
    let keys: Vec<String> = (0..5).map(|i| format!("c{i}")).collect();
    for k in &keys {
        e.create_download_task(k).unwrap();
    }
    let granted: Vec<bool> = keys.iter().map(|k| e.try_acquire_chapter_permit(k).unwrap()).collect();
    assert_eq!(granted, vec![true, true, true, false, false]);
    assert_eq!(e.chapter_permits_in_use(), CHAPTER_PERMITS);
    assert_eq!(state(&e, "c3"), DownloadTaskState::Pending);
}

#[test]
fn at_most_thirty_images_download_at_once() {
    let mut e = DownloadEngine::new();
    let a = s("a");
    let b = s("b");
    e.create_download_task(&a).unwrap();
    e.create_download_task(&b).unwrap();
    e.try_acquire_chapter_permit(&a).unwrap();
    e.try_acquire_chapter_permit(&b).unwrap();
    e.set_total_img_count(&a, 40).unwrap();
    e.set_total_img_count(&b, 40).unwrap();
    for _ in 0..20 {
        assert_eq!(e.try_acquire_image_permit(&a), Ok(true));
    }
    for _ in 0..10 {
        assert_eq!(e.try_acquire_image_permit(&b), Ok(true));
    }
    assert_eq!(e.try_acquire_image_permit(&b), Ok(false));
    assert_eq!(e.image_permits_in_use(), IMAGE_PERMITS);
    e.pause_download_task(&a).unwrap();
    assert_eq!(e.image_permits_in_use(), 10);
    assert_eq!(e.try_acquire_image_permit(&b), Ok(true));
    assert_eq!(e.try_acquire_image_permit(&a), Err(TaskError::NotDownloading));
}

#[test]
fn pause_releases_the_chapter_permit_and_resume_requeues() {
    let mut e = DownloadEngine::new();
    let c = s("c");
    e.create_download_task(&c).unwrap();
    e.try_acquire_chapter_permit(&c).unwrap();
    e.set_total_img_count(&c, 10).unwrap();
    for _ in 0..3 {
        e.try_acquire_image_permit(&c).unwrap();
        e.release_image_permit(&c, true).unwrap();
    }
    e.try_acquire_image_permit(&c).unwrap();
    let before = e.chapter_permits_in_use();
    e.pause_download_task(&c).unwrap();
    assert_eq!(e.chapter_permits_in_use(), before - 1);
    assert_eq!(e.image_permits_in_use(), 0);
    let p = e.progress(&c).unwrap();
    assert_eq!((p.state, p.downloaded_img_count), (DownloadTaskState::Paused, 3));
    e.resume_download_task(&c).unwrap();
    assert_eq!(state(&e, "c"), DownloadTaskState::Pending);
    assert_eq!(e.try_acquire_chapter_permit(&c), Ok(true));
    for _ in 0..7 {
        e.try_acquire_image_permit(&c).unwrap();
        e.release_image_permit(&c, true).unwrap();
    }
    assert_eq!(e.finish_images(&c), Ok(true));
    e.finish_chapter(&c, true).unwrap();
    let p = e.progress(&c).unwrap();
    assert_eq!((p.state, p.downloaded_img_count, p.total_img_count), (DownloadTaskState::Completed, 10, 10));
}

#[test]
fn missing_image_fails_the_chapter() {
    let mut e = DownloadEngine::new();
    let c = s("c");
    e.create_download_task(&c).unwrap();
    e.try_acquire_chapter_permit(&c).unwrap();
    e.set_total_img_count(&c, 3).unwrap();
    for saved in [true, false, true] {
        e.try_acquire_image_permit(&c).unwrap();
        e.release_image_permit(&c, saved).unwrap();
    }
    assert_eq!(e.finish_images(&c), Ok(false));
    let p = e.progress(&c).unwrap();
    assert_eq!((p.state, p.downloaded_img_count), (DownloadTaskState::Failed, 2));
    assert_eq!(e.chapter_permits_in_use(), 0);
    e.create_download_task(&c).unwrap();
    e.try_acquire_chapter_permit(&c).unwrap();
    e.set_total_img_count(&c, 3).unwrap();
    e.record_existing_page(&c).unwrap();
    e.record_existing_page(&c).unwrap();
    e.try_acquire_image_permit(&c).unwrap();
    e.release_image_permit(&c, true).unwrap();
    assert_eq!(e.finish_images(&c), Ok(true));
}

#[test]
fn rerun_of_a_completed_chapter_fast_forwards() {
    let mut e = DownloadEngine::new();
    let c = s("c");
    e.create_download_task(&c).unwrap();
    e.try_acquire_chapter_permit(&c).unwrap();
    e.set_total_img_count(&c, 4).unwrap();
    for _ in 0..4 {
        e.record_existing_page(&c).unwrap();
    }
    assert_eq!(e.image_permits_in_use(), 0);
    assert_eq!(e.finish_images(&c), Ok(true));
    e.finish_chapter(&c, true).unwrap();
    let p = e.progress(&c).unwrap();
    assert_eq!((p.state, p.downloaded_img_count, p.total_img_count), (DownloadTaskState::Completed, 4, 4));
}

#[test]
fn empty_chapter_completes_directly() {
    let mut e = DownloadEngine::new();
    let c = s("c");
    e.create_download_task(&c).unwrap();
    e.try_acquire_chapter_permit(&c).unwrap();
    e.set_total_img_count(&c, 0).unwrap();
    assert_eq!(e.finish_images(&c), Ok(true));
    e.finish_chapter(&c, true).unwrap();
    assert_eq!(state(&e, "c"), DownloadTaskState::Completed);
}

#[test]
fn operations_on_a_task_not_downloading_are_refused() {
    let mut e = DownloadEngine::new();
    let c = s("c");
    e.create_download_task(&c).unwrap();
    assert_eq!(e.set_total_img_count(&c, 1), Err(TaskError::NotDownloading));
    assert_eq!(e.try_acquire_image_permit(&c), Err(TaskError::NotDownloading));
    assert_eq!(e.release_image_permit(&c, true), Err(TaskError::NotDownloading));
    assert_eq!(e.finish_images(&c), Err(TaskError::NotDownloading));
    assert_eq!(e.finish_chapter(&c, true), Err(TaskError::NotDownloading));
}
