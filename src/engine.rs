//! The download engine's bookkeeping: one task per chapter, the lifecycle of
//! each task, and the chapter and image permits that bound concurrency.
//!
//! The asynchronous runner performs the work (fetching, writing files) and
//! reports each step here; every decision about states, counts and permits is
//! made by the methods below.

use vstd::prelude::*;

verus! {

/// How many chapters may download at once.
pub const CHAPTER_PERMITS: u32 = 3;

/// How many images may download at once, over all chapters.
pub const IMAGE_PERMITS: u32 = 30;

/// The lifecycle state of a chapter download task.
#[derive(Debug, Clone, Copy, PartialEq, Eq, Structural)]
pub enum DownloadTaskState {
    Pending,
    Downloading,
    Paused,
    Cancelled,
    Completed,
    Failed,
}

/// A task in this state can still make progress or be controlled.
pub open spec fn is_active(s: DownloadTaskState) -> bool {
    s == DownloadTaskState::Pending || s == DownloadTaskState::Downloading
        || s == DownloadTaskState::Paused
}

/// Why an engine operation was refused.
#[derive(Debug, Clone, Copy, PartialEq, Eq, Structural)]
pub enum TaskError {
    /// An active task for the chapter already exists.
    AlreadyExists,
    /// No task exists for the chapter.
    NotFound,
    /// The operation needs the task to be downloading with its permit.
    NotDownloading,
}

/// A task as the engine sees it.
pub struct TaskRecord {
    pub chapter_uuid: String,
    pub state: DownloadTaskState,
    pub holds_chapter_permit: bool,
    pub image_permits: u32,
    pub downloaded_img_count: u32,
    pub total_img_count: u32,
}

/// What progress reports carry about a task.
#[derive(Debug, Clone, Copy, PartialEq, Eq, Structural)]
pub struct TaskProgress {
    pub state: DownloadTaskState,
    pub downloaded_img_count: u32,
    pub total_img_count: u32,
}

/// The abstract value of a task.
pub struct TaskView {
    pub key: Seq<char>,
    pub state: DownloadTaskState,
    pub holds_chapter_permit: bool,
    pub image_permits: nat,
    pub downloaded: nat,
    pub total: nat,
}

impl View for TaskRecord {
    type V = TaskView;

    open spec fn view(&self) -> TaskView {
        TaskView {
            key: self.chapter_uuid@,
            state: self.state,
            holds_chapter_permit: self.holds_chapter_permit,
            image_permits: self.image_permits as nat,
            downloaded: self.downloaded_img_count as nat,
            total: self.total_img_count as nat,
        }
    }
}

/// The sum of `w` over the tasks of `s`.
pub open spec fn weight_sum(s: Seq<TaskView>, w: spec_fn(TaskView) -> nat) -> nat
    decreases s.len(),
{
    if s.len() == 0 {
        0
    } else {
        weight_sum(s.drop_last(), w) + w(s.last())
    }
}

pub open spec fn chapter_permit_weight() -> spec_fn(TaskView) -> nat {
    |t: TaskView| if t.holds_chapter_permit { 1nat } else { 0nat }
}

pub open spec fn image_permit_weight() -> spec_fn(TaskView) -> nat {
    |t: TaskView| t.image_permits
}

/// The number of chapter permits held in `s`.
pub open spec fn chapter_permits_held(s: Seq<TaskView>) -> nat {
    weight_sum(s, chapter_permit_weight())
}

/// The number of image permits held in `s`.
pub open spec fn image_permits_held(s: Seq<TaskView>) -> nat {
    weight_sum(s, image_permit_weight())
}

/// Some task of `s` is for chapter `k`.
pub open spec fn has_key(s: Seq<TaskView>, k: Seq<char>) -> bool {
    exists|i: int| 0 <= i < s.len() && (#[trigger] s[i]).key == k
}

/// The position of the task for chapter `k`.
pub open spec fn index_of(s: Seq<TaskView>, k: Seq<char>) -> int {
    choose|i: int| 0 <= i < s.len() && (#[trigger] s[i]).key == k
}

/// The task for chapter `k`.
pub open spec fn entry(s: Seq<TaskView>, k: Seq<char>) -> TaskView {
    s[index_of(s, k)]
}

/// No two tasks share a chapter.
pub open spec fn keys_unique(s: Seq<TaskView>) -> bool {
    forall|i: int, j: int|
        0 <= i < s.len() && 0 <= j < s.len() && i != j ==> (#[trigger] s[i]).key != (#[trigger] s[j]).key
}

/// The invariant of a single task: it holds its chapter permit exactly while
/// downloading, holds image permits only then, has not downloaded more
/// images than it has, and has all of them once completed.
pub open spec fn task_wf(t: TaskView) -> bool {
    &&& (t.state == DownloadTaskState::Downloading <==> t.holds_chapter_permit)
    &&& (t.image_permits > 0 ==> t.state == DownloadTaskState::Downloading)
    &&& t.downloaded <= t.total
    &&& (t.state == DownloadTaskState::Completed ==> t.downloaded == t.total)
}

/// A new task for chapter `k`.
pub open spec fn fresh_task(k: Seq<char>) -> TaskView {
    TaskView {
        key: k,
        state: DownloadTaskState::Pending,
        holds_chapter_permit: false,
        image_permits: 0,
        downloaded: 0,
        total: 0,
    }
}

/// `t` moved to state `s` with every permit it held given back.
pub open spec fn released(t: TaskView, s: DownloadTaskState) -> TaskView {
    TaskView { state: s, holds_chapter_permit: false, image_permits: 0, ..t }
}

/// What resuming does to a task in state `s`: a paused task queues again;
/// a pending or downloading one is left as it is.
pub open spec fn resumed_state(s: DownloadTaskState) -> DownloadTaskState {
    if s == DownloadTaskState::Paused {
        DownloadTaskState::Pending
    } else {
        s
    }
}

/// `t` once its chapter permit is granted.
pub open spec fn started(t: TaskView) -> TaskView {
    TaskView { state: DownloadTaskState::Downloading, holds_chapter_permit: true, ..t }
}

/// `t` once its manifest is known to hold `total` images.
pub open spec fn with_total(t: TaskView, total: nat) -> TaskView {
    TaskView { total: total, downloaded: 0, ..t }
}

/// `t` with one more image on disk (never above the total).
pub open spec fn page_done(t: TaskView) -> TaskView {
    TaskView { downloaded: if t.downloaded < t.total { t.downloaded + 1 } else { t.downloaded }, ..t }
}

/// `t` with `n` more images on disk.
pub open spec fn pages_done(t: TaskView, n: nat) -> TaskView
    decreases n,
{
    if n == 0 {
        t
    } else {
        page_done(pages_done(t, (n - 1) as nat))
    }
}

/// Every image of the task is on disk, so the chapter may be published.
pub open spec fn ready_to_publish(t: TaskView) -> bool {
    t.downloaded == t.total
}

/// `t` once it is resumed.
pub open spec fn resumed(t: TaskView) -> TaskView {
    TaskView { state: resumed_state(t.state), ..t }
}

/// Pausing a pending or downloading task and resuming it puts it back in the
/// queue with its counts intact; once its permit is granted again it is in
/// the state it was in when first granted, so it downloads and publishes the
/// same pages as a task that was never paused.
pub proof fn lemma_pause_resume_requeues(t: TaskView)
    requires
        task_wf(t),
        t.state == DownloadTaskState::Pending || t.state == DownloadTaskState::Downloading,
    ensures
        resumed(released(t, DownloadTaskState::Paused)) == (TaskView {
            state: DownloadTaskState::Pending,
            holds_chapter_permit: false,
            image_permits: 0,
            ..t
        }),
        started(resumed(released(t, DownloadTaskState::Paused))).downloaded == t.downloaded,
        started(resumed(released(t, DownloadTaskState::Paused))).total == t.total,
        ready_to_publish(started(resumed(released(t, DownloadTaskState::Paused)))) == ready_to_publish(t),
{
}

/// `n` recorded pages of a chapter of `total` images leave `min(n, total)`
/// downloaded.
pub proof fn lemma_pages_done_count(t: TaskView, total: nat, n: nat)
    ensures
        pages_done(with_total(t, total), n).downloaded == if n <= total { n } else { total },
        pages_done(with_total(t, total), n).total == total,
        pages_done(with_total(t, total), n).state == t.state,
    decreases n,
{
    if n > 0 {
        lemma_pages_done_count(t, total, (n - 1) as nat);
    }
}

/// Re-running a chapter whose `total` pages are all on disk: recording each
/// existing page brings the count to the total, so the chapter is published
/// without fetching anything.
pub proof fn lemma_rerun_fast_forwards(t: TaskView, total: nat)
    ensures
        pages_done(with_total(t, total), total).downloaded == total,
        ready_to_publish(pages_done(with_total(t, total), total)),
{
    lemma_pages_done_count(t, total, total);
}

/// A chapter with a missing image is not published: the task fails, gives
/// back its permits and keeps its counts, so a later task resumes from the
/// pages already on disk.
pub proof fn lemma_incomplete_chapter_fails(t: TaskView)
    requires
        !ready_to_publish(t),
    ensures
        released(t, DownloadTaskState::Failed).state == DownloadTaskState::Failed,
        released(t, DownloadTaskState::Failed).downloaded == t.downloaded,
        released(t, DownloadTaskState::Failed).total == t.total,
        !released(t, DownloadTaskState::Failed).holds_chapter_permit,
        released(t, DownloadTaskState::Failed).image_permits == 0,
{
}

/// A chapter without images is ready to publish as soon as its manifest is
/// known.
pub proof fn lemma_empty_chapter_publishes(t: TaskView)
    ensures
        ready_to_publish(with_total(t, 0)),
{
}

/// The engine's table of tasks, with the permits they hold.
pub struct DownloadEngine {
    tasks: Vec<TaskRecord>,
    chapter_permits_in_use: u32,
    image_permits_in_use: u32,
}

impl View for DownloadEngine {
    type V = Seq<TaskView>;

    closed spec fn view(&self) -> Seq<TaskView> {
        self.tasks@.map_values(|t: TaskRecord| t@)
    }
}

proof fn lemma_weight_push(s: Seq<TaskView>, x: TaskView, w: spec_fn(TaskView) -> nat)
    ensures
        weight_sum(s.push(x), w) == weight_sum(s, w) + w(x),
{
    assert(s.push(x).drop_last() == s);
}

proof fn lemma_weight_update(s: Seq<TaskView>, j: int, x: TaskView, w: spec_fn(TaskView) -> nat)
    requires
        0 <= j < s.len(),
    ensures
        weight_sum(s.update(j, x), w) + w(s[j]) == weight_sum(s, w) + w(x),
    decreases s.len(),
{
    let u = s.update(j, x);
    if j == s.len() - 1 {
        assert(u.drop_last() == s.drop_last());
    } else {
        lemma_weight_update(s.drop_last(), j, x, w);
        assert(u.drop_last() == s.drop_last().update(j, x));
    }
}

proof fn lemma_weight_remove(s: Seq<TaskView>, j: int, w: spec_fn(TaskView) -> nat)
    requires
        0 <= j < s.len(),
    ensures
        weight_sum(s.remove(j), w) + w(s[j]) == weight_sum(s, w),
    decreases s.len(),
{
    let u = s.remove(j);
    if j == s.len() - 1 {
        assert(u == s.drop_last());
    } else {
        lemma_weight_remove(s.drop_last(), j, w);
        assert(u.drop_last() == s.drop_last().remove(j));
    }
}

impl DownloadEngine {
    /// The engine's invariant: one task per chapter, every task well formed,
    /// the permit counters equal to what the tasks hold and within capacity.
    pub closed spec fn wf(&self) -> bool {
        &&& keys_unique(self@)
        &&& forall|i: int| 0 <= i < self@.len() ==> task_wf(#[trigger] self@[i])
        &&& self.chapter_permits_in_use as nat == chapter_permits_held(self@)
        &&& self.image_permits_in_use as nat == image_permits_held(self@)
        &&& self.chapter_permits_in_use <= CHAPTER_PERMITS
        &&& self.image_permits_in_use <= IMAGE_PERMITS
    }

    /// In every reachable engine, at most three tasks download holding a
    /// chapter permit, and at most thirty image permits are held; a task
    /// holds its chapter permit exactly while it downloads.
    pub proof fn lemma_permits_within_capacity(&self)
        requires
            self.wf(),
        ensures
            chapter_permits_held(self@) <= CHAPTER_PERMITS,
            image_permits_held(self@) <= IMAGE_PERMITS,
            forall|i: int| 0 <= i < self@.len() ==> task_wf(#[trigger] self@[i]),
    {
    }

    /// In every reachable engine, a completed task has downloaded exactly as
    /// many images as its chapter has: the count its last update reports is
    /// the number of pages it published.
    pub proof fn lemma_completed_has_every_image(&self)
        requires
            self.wf(),
        ensures
            forall|i: int| 0 <= i < self@.len() && (#[trigger] self@[i]).state == DownloadTaskState::Completed
                ==> self@[i].downloaded == self@[i].total,
    {
        assert forall|i: int| 0 <= i < self@.len() && (#[trigger] self@[i]).state == DownloadTaskState::Completed
            implies self@[i].downloaded == self@[i].total by {
            assert(task_wf(self@[i]));
        }
    }

    /// In every reachable engine, no two tasks are for the same chapter; in
    /// particular at most one active task exists per chapter.
    pub proof fn lemma_one_task_per_chapter(&self)
        requires
            self.wf(),
        ensures
            keys_unique(self@),
    {
    }

    /// An engine with no tasks and every permit free.
    pub fn new() -> (r: DownloadEngine)
        ensures
            r.wf(),
            r@.len() == 0,
    {
        let r = DownloadEngine { tasks: Vec::new(), chapter_permits_in_use: 0, image_permits_in_use: 0 };
        assert(r@ == Seq::<TaskView>::empty());
        r
    }

    /// The number of chapter permits in use.
    pub fn chapter_permits_in_use(&self) -> (r: u32)
        requires
            self.wf(),
        ensures
            r as nat == chapter_permits_held(self@),
    {
        self.chapter_permits_in_use
    }

    /// The number of image permits in use.
    pub fn image_permits_in_use(&self) -> (r: u32)
        requires
            self.wf(),
        ensures
            r as nat == image_permits_held(self@),
    {
        self.image_permits_in_use
    }

    /// The position of the task for `chapter_uuid`, if there is one.
    pub fn find(&self, chapter_uuid: &String) -> (r: Option<usize>)
        requires
            self.wf(),
        ensures
            r is None <==> !has_key(self@, chapter_uuid@),
            r is Some ==> r->0 == index_of(self@, chapter_uuid@) && r->0 < self@.len()
                && self@[r->0 as int].key == chapter_uuid@,
    {
        let mut i: usize = 0;
        while i < self.tasks.len()
            invariant
                self.wf(),
                i <= self.tasks.len(),
                forall|j: int| 0 <= j < i ==> (#[trigger] self@[j]).key != chapter_uuid@,
            decreases self.tasks.len() - i,
        {
            if self.tasks[i].chapter_uuid == *chapter_uuid {
                assert(self@[i as int].key == chapter_uuid@);
                assert(has_key(self@, chapter_uuid@));
                let ghost c = index_of(self@, chapter_uuid@);
                assert(self@[c].key == chapter_uuid@);
                assert(c == i);
                return Some(i);
            }
            i += 1;
        }
        None
    }

    /// The state, downloaded count and total count of the task for
    /// `chapter_uuid`.
    pub fn progress(&self, chapter_uuid: &String) -> (r: Option<TaskProgress>)
        requires
            self.wf(),
        ensures
            r is None <==> !has_key(self@, chapter_uuid@),
            r matches Some(p) ==> {
                let t = entry(self@, chapter_uuid@);
                p.state == t.state && p.downloaded_img_count as nat == t.downloaded
                    && p.total_img_count as nat == t.total
            },
    {
        match self.find(chapter_uuid) {
            None => None,
            Some(i) => {
                let t = &self.tasks[i];
                Some(TaskProgress {
                    state: t.state,
                    downloaded_img_count: t.downloaded_img_count,
                    total_img_count: t.total_img_count,
                })
            },
        }
    }

    /// Creates a pending task for `chapter_uuid`. Refused while an active task
    /// for the chapter exists; a finished task for it is replaced.
    pub fn create_download_task(&mut self, chapter_uuid: &String) -> (r: Result<(), TaskError>)
        requires
            old(self).wf(),
        ensures
            final(self).wf(),
            has_key(old(self)@, chapter_uuid@) && is_active(entry(old(self)@, chapter_uuid@).state)
                ==> r == Err::<(), TaskError>(TaskError::AlreadyExists) && final(self)@ == old(self)@,
            !(has_key(old(self)@, chapter_uuid@) && is_active(entry(old(self)@, chapter_uuid@).state))
                ==> r is Ok && final(self)@ == (if has_key(old(self)@, chapter_uuid@) {
                    old(self)@.remove(index_of(old(self)@, chapter_uuid@))
                } else {
                    old(self)@
                }).push(fresh_task(chapter_uuid@)),
    {
        let ghost s0 = self@;
        match self.find(chapter_uuid) {
            Some(i) => {
                let st = self.tasks[i].state;
                if st == DownloadTaskState::Pending || st == DownloadTaskState::Downloading
                    || st == DownloadTaskState::Paused {
                    return Err(TaskError::AlreadyExists);
                }
                proof {
                    lemma_weight_remove(s0, i as int, chapter_permit_weight());
                    lemma_weight_remove(s0, i as int, image_permit_weight());
                }
                self.tasks.remove(i);
                assert(self@ == s0.remove(i as int));
                assert forall|a: int, b: int|
                    0 <= a < self@.len() && 0 <= b < self@.len() && a != b
                    implies (#[trigger] self@[a]).key != (#[trigger] self@[b]).key by {
                    let a0 = if a < i { a } else { a + 1 };
                    let b0 = if b < i { b } else { b + 1 };
                    assert(self@[a] == s0[a0]);
                    assert(self@[b] == s0[b0]);
                }
                assert forall|a: int| 0 <= a < self@.len() implies task_wf(#[trigger] self@[a]) by {
                    let a0 = if a < i { a } else { a + 1 };
                    assert(self@[a] == s0[a0]);
                }
            },
            None => {},
        }
        let ghost s1 = self@;
        assert(!has_key(s1, chapter_uuid@)) by {
            if has_key(s0, chapter_uuid@) {
                let i0 = index_of(s0, chapter_uuid@);
                if exists|a: int| 0 <= a < s1.len() && (#[trigger] s1[a]).key == chapter_uuid@ {
                    let a = choose|a: int| 0 <= a < s1.len() && (#[trigger] s1[a]).key == chapter_uuid@;
                    let a0 = if a < i0 { a } else { a + 1 };
                    assert(s1[a] == s0[a0]);
                }
            }
        }
        let rec = TaskRecord {
            chapter_uuid: chapter_uuid.clone(),
            state: DownloadTaskState::Pending,
            holds_chapter_permit: false,
            image_permits: 0,
            downloaded_img_count: 0,
            total_img_count: 0,
        };
        proof {
            lemma_weight_push(s1, rec@, chapter_permit_weight());
            lemma_weight_push(s1, rec@, image_permit_weight());
        }
        self.tasks.push(rec);
        assert(self@ == s1.push(fresh_task(chapter_uuid@)));
        Ok(())
    }

    /// Replaces the task at `i` by `t`, keeping the counters in step.
    fn replace_task(&mut self, i: usize, t: TaskRecord)
        requires
            old(self).wf(),
            i < old(self)@.len(),
            t@.key == old(self)@[i as int].key,
            task_wf(t@),
            chapter_permits_held(old(self)@) - (if old(self)@[i as int].holds_chapter_permit { 1int } else { 0int })
                + (if t@.holds_chapter_permit { 1int } else { 0int }) <= CHAPTER_PERMITS,
            image_permits_held(old(self)@) - old(self)@[i as int].image_permits + t@.image_permits
                <= IMAGE_PERMITS,
        ensures
            final(self).wf(),
            final(self)@ == old(self)@.update(i as int, t@),
    {
        let ghost s0 = self@;
        let ghost tv = t@;
        proof {
            lemma_weight_update(s0, i as int, tv, chapter_permit_weight());
            lemma_weight_update(s0, i as int, tv, image_permit_weight());
            lemma_weight_remove(s0, i as int, chapter_permit_weight());
            lemma_weight_remove(s0, i as int, image_permit_weight());
        }
        let old_holds = self.tasks[i].holds_chapter_permit;
        let old_images = self.tasks[i].image_permits;
        let new_holds = t.holds_chapter_permit;
        let new_images = t.image_permits;
        self.tasks.set(i, t);
        assert(self@ == s0.update(i as int, tv));
        if old_holds {
            self.chapter_permits_in_use = self.chapter_permits_in_use - 1;
        }
        if new_holds {
            self.chapter_permits_in_use = self.chapter_permits_in_use + 1;
        }
        self.image_permits_in_use = self.image_permits_in_use - old_images;
        self.image_permits_in_use = self.image_permits_in_use + new_images;
        assert forall|a: int, b: int|
            0 <= a < self@.len() && 0 <= b < self@.len() && a != b
            implies (#[trigger] self@[a]).key != (#[trigger] self@[b]).key by {
            assert(s0[a].key == self@[a].key);
            assert(s0[b].key == self@[b].key);
        }
        assert forall|a: int| 0 <= a < self@.len() implies task_wf(#[trigger] self@[a]) by {
            if a != i {
                assert(self@[a] == s0[a]);
            }
        }
    }

    fn copy_task(&self, i: usize) -> (r: TaskRecord)
        requires
            i < self@.len(),
        ensures
            r@ == self@[i as int],
    {
        let t = &self.tasks[i];
        TaskRecord {
            chapter_uuid: t.chapter_uuid.clone(),
            state: t.state,
            holds_chapter_permit: t.holds_chapter_permit,
            image_permits: t.image_permits,
            downloaded_img_count: t.downloaded_img_count,
            total_img_count: t.total_img_count,
        }
    }

    /// Looks up a task that is downloading: `NotFound` when there is none,
    /// `NotDownloading` when it is in another state.
    fn find_downloading(&self, chapter_uuid: &String) -> (r: Result<usize, TaskError>)
        requires
            self.wf(),
        ensures
            !has_key(self@, chapter_uuid@) ==> r == Err::<usize, TaskError>(TaskError::NotFound),
            has_key(self@, chapter_uuid@) && entry(self@, chapter_uuid@).state != DownloadTaskState::Downloading
                ==> r == Err::<usize, TaskError>(TaskError::NotDownloading),
            has_key(self@, chapter_uuid@) && entry(self@, chapter_uuid@).state == DownloadTaskState::Downloading
                ==> r == Ok::<usize, TaskError>(index_of(self@, chapter_uuid@) as usize),
            r matches Ok(i) ==> i < self@.len() && i == index_of(self@, chapter_uuid@),
    {
        match self.find(chapter_uuid) {
            None => Err(TaskError::NotFound),
            Some(i) => {
                if self.tasks[i].state == DownloadTaskState::Downloading {
                    Ok(i)
                } else {
                    Err(TaskError::NotDownloading)
                }
            },
        }
    }

    /// Pauses an active task; it gives back every permit it holds.
    /// Fails only when no task exists; a finished task is left as it is.
    pub fn pause_download_task(&mut self, chapter_uuid: &String) -> (r: Result<(), TaskError>)
        requires
            old(self).wf(),
        ensures
            final(self).wf(),
            r is Err <==> !has_key(old(self)@, chapter_uuid@),
            r is Err ==> r == Err::<(), TaskError>(TaskError::NotFound),
            r is Err || !is_active(entry(old(self)@, chapter_uuid@).state) ==> final(self)@ == old(self)@,
            r is Ok && is_active(entry(old(self)@, chapter_uuid@).state) ==> final(self)@ == old(self)@.update(
                index_of(old(self)@, chapter_uuid@), released(entry(old(self)@, chapter_uuid@), DownloadTaskState::Paused)),
    {
        let i = match self.find(chapter_uuid) {
            None => return Err(TaskError::NotFound),
            Some(i) => i,
        };
        let st = self.tasks[i].state;
        if !(st == DownloadTaskState::Pending || st == DownloadTaskState::Downloading
            || st == DownloadTaskState::Paused) {
            return Ok(());
        }
        let mut t = self.copy_task(i);
        t.state = DownloadTaskState::Paused;
        t.holds_chapter_permit = false;
        t.image_permits = 0;
        self.replace_task(i, t);
        Ok(())
    }

    /// Resumes an active task: a paused one queues for a permit again.
    /// Fails only when no task exists; a finished task is left as it is.
    pub fn resume_download_task(&mut self, chapter_uuid: &String) -> (r: Result<(), TaskError>)
        requires
            old(self).wf(),
        ensures
            final(self).wf(),
            r is Err <==> !has_key(old(self)@, chapter_uuid@),
            r is Err ==> r == Err::<(), TaskError>(TaskError::NotFound),
            r is Err || !is_active(entry(old(self)@, chapter_uuid@).state) ==> final(self)@ == old(self)@,
            r is Ok && is_active(entry(old(self)@, chapter_uuid@).state) ==> final(self)@ == old(self)@.update(
                index_of(old(self)@, chapter_uuid@), resumed(entry(old(self)@, chapter_uuid@))),
    {
        let i = match self.find(chapter_uuid) {
            None => return Err(TaskError::NotFound),
            Some(i) => i,
        };
        let st = self.tasks[i].state;
        if !(st == DownloadTaskState::Pending || st == DownloadTaskState::Downloading
            || st == DownloadTaskState::Paused) {
            return Ok(());
        }
        let mut t = self.copy_task(i);
        if t.state == DownloadTaskState::Paused {
            t.state = DownloadTaskState::Pending;
        }
        self.replace_task(i, t);
        Ok(())
    }

    /// Cancels an active task; it gives back every permit it holds.
    /// Fails only when no task exists; a finished task is left as it is.
    pub fn cancel_download_task(&mut self, chapter_uuid: &String) -> (r: Result<(), TaskError>)
        requires
            old(self).wf(),
        ensures
            final(self).wf(),
            r is Err <==> !has_key(old(self)@, chapter_uuid@),
            r is Err ==> r == Err::<(), TaskError>(TaskError::NotFound),
            r is Err || !is_active(entry(old(self)@, chapter_uuid@).state) ==> final(self)@ == old(self)@,
            r is Ok && is_active(entry(old(self)@, chapter_uuid@).state) ==> final(self)@ == old(self)@.update(
                index_of(old(self)@, chapter_uuid@), released(entry(old(self)@, chapter_uuid@), DownloadTaskState::Cancelled)),
    {
        let i = match self.find(chapter_uuid) {
            None => return Err(TaskError::NotFound),
            Some(i) => i,
        };
        let st = self.tasks[i].state;
        if !(st == DownloadTaskState::Pending || st == DownloadTaskState::Downloading
            || st == DownloadTaskState::Paused) {
            return Ok(());
        }
        let mut t = self.copy_task(i);
        t.state = DownloadTaskState::Cancelled;
        t.holds_chapter_permit = false;
        t.image_permits = 0;
        self.replace_task(i, t);
        Ok(())
    }

    /// Grants a pending task a chapter permit if one is free; it then
    /// downloads. Returns whether the permit was granted.
    pub fn try_acquire_chapter_permit(&mut self, chapter_uuid: &String) -> (r: Result<bool, TaskError>)
        requires
            old(self).wf(),
        ensures
            final(self).wf(),
            !has_key(old(self)@, chapter_uuid@) ==> r == Err::<bool, TaskError>(TaskError::NotFound),
            has_key(old(self)@, chapter_uuid@) ==> r is Ok,
            r == Ok::<bool, TaskError>(true) <==> has_key(old(self)@, chapter_uuid@)
                && entry(old(self)@, chapter_uuid@).state == DownloadTaskState::Pending
                && chapter_permits_held(old(self)@) < CHAPTER_PERMITS,
            r == Ok::<bool, TaskError>(true) ==> final(self)@ == old(self)@.update(
                index_of(old(self)@, chapter_uuid@), started(entry(old(self)@, chapter_uuid@))),
            r != Ok::<bool, TaskError>(true) ==> final(self)@ == old(self)@,
    {
        let i = match self.find(chapter_uuid) {
            None => return Err(TaskError::NotFound),
            Some(i) => i,
        };
        if self.tasks[i].state != DownloadTaskState::Pending || self.chapter_permits_in_use >= CHAPTER_PERMITS {
            return Ok(false);
        }
        let mut t = self.copy_task(i);
        t.state = DownloadTaskState::Downloading;
        t.holds_chapter_permit = true;
        self.replace_task(i, t);
        Ok(true)
    }

    /// Records the number of images of a downloading task's chapter.
    pub fn set_total_img_count(&mut self, chapter_uuid: &String, total: u32) -> (r: Result<(), TaskError>)
        requires
            old(self).wf(),
        ensures
            final(self).wf(),
            !has_key(old(self)@, chapter_uuid@) ==> r == Err::<(), TaskError>(TaskError::NotFound),
            r is Ok <==> has_key(old(self)@, chapter_uuid@)
                && entry(old(self)@, chapter_uuid@).state == DownloadTaskState::Downloading,
            has_key(old(self)@, chapter_uuid@) && r is Err
                ==> r == Err::<(), TaskError>(TaskError::NotDownloading),
            r is Err ==> final(self)@ == old(self)@,
            r is Ok ==> final(self)@ == old(self)@.update(index_of(old(self)@, chapter_uuid@),
                with_total(entry(old(self)@, chapter_uuid@), total as nat)),
    {
        let i = self.find_downloading(chapter_uuid)?;
        let mut t = self.copy_task(i);
        t.total_img_count = total;
        t.downloaded_img_count = 0;
        self.replace_task(i, t);
        Ok(())
    }

    /// Records a page that is already on disk from an earlier run.
    pub fn record_existing_page(&mut self, chapter_uuid: &String) -> (r: Result<(), TaskError>)
        requires
            old(self).wf(),
        ensures
            final(self).wf(),
            !has_key(old(self)@, chapter_uuid@) ==> r == Err::<(), TaskError>(TaskError::NotFound),
            r is Ok <==> has_key(old(self)@, chapter_uuid@)
                && entry(old(self)@, chapter_uuid@).state == DownloadTaskState::Downloading,
            has_key(old(self)@, chapter_uuid@) && r is Err
                ==> r == Err::<(), TaskError>(TaskError::NotDownloading),
            r is Err ==> final(self)@ == old(self)@,
            r is Ok ==> final(self)@ == old(self)@.update(index_of(old(self)@, chapter_uuid@),
                page_done(entry(old(self)@, chapter_uuid@))),
    {
        let i = self.find_downloading(chapter_uuid)?;
        let mut t = self.copy_task(i);
        if t.downloaded_img_count < t.total_img_count {
            t.downloaded_img_count = t.downloaded_img_count + 1;
        }
        self.replace_task(i, t);
        Ok(())
    }

    /// Grants an image permit to a worker of a downloading task if one is
    /// free. Returns whether it was granted.
    pub fn try_acquire_image_permit(&mut self, chapter_uuid: &String) -> (r: Result<bool, TaskError>)
        requires
            old(self).wf(),
        ensures
            final(self).wf(),
            !has_key(old(self)@, chapter_uuid@) ==> r == Err::<bool, TaskError>(TaskError::NotFound),
            r is Ok <==> has_key(old(self)@, chapter_uuid@)
                && entry(old(self)@, chapter_uuid@).state == DownloadTaskState::Downloading,
            has_key(old(self)@, chapter_uuid@) && r is Err
                ==> r == Err::<bool, TaskError>(TaskError::NotDownloading),
            r == Ok::<bool, TaskError>(true) <==> r is Ok && image_permits_held(old(self)@) < IMAGE_PERMITS,
            r == Ok::<bool, TaskError>(true) ==> final(self)@ == old(self)@.update(
                index_of(old(self)@, chapter_uuid@),
                TaskView { image_permits: entry(old(self)@, chapter_uuid@).image_permits + 1,
                    ..entry(old(self)@, chapter_uuid@) }),
            r != Ok::<bool, TaskError>(true) ==> final(self)@ == old(self)@,
    {
        let i = self.find_downloading(chapter_uuid)?;
        if self.image_permits_in_use >= IMAGE_PERMITS {
            return Ok(false);
        }
        let mut t = self.copy_task(i);
        proof {
            lemma_weight_remove(self@, i as int, image_permit_weight());
        }
        t.image_permits = t.image_permits + 1;
        self.replace_task(i, t);
        Ok(true)
    }

    /// A worker of a downloading task gives back its image permit, with the
    /// page saved (`saved`) or not.
    pub fn release_image_permit(&mut self, chapter_uuid: &String, saved: bool) -> (r: Result<(), TaskError>)
        requires
            old(self).wf(),
        ensures
            final(self).wf(),
            !has_key(old(self)@, chapter_uuid@) ==> r == Err::<(), TaskError>(TaskError::NotFound),
            r is Ok <==> has_key(old(self)@, chapter_uuid@)
                && entry(old(self)@, chapter_uuid@).state == DownloadTaskState::Downloading
                && entry(old(self)@, chapter_uuid@).image_permits > 0,
            has_key(old(self)@, chapter_uuid@) && r is Err
                ==> r == Err::<(), TaskError>(TaskError::NotDownloading),
            r is Err ==> final(self)@ == old(self)@,
            r is Ok ==> final(self)@ == old(self)@.update(index_of(old(self)@, chapter_uuid@), {
                let t = entry(old(self)@, chapter_uuid@);
                let u = TaskView { image_permits: (t.image_permits - 1) as nat, ..t };
                if saved { page_done(u) } else { u }
            }),
    {
        let i = self.find_downloading(chapter_uuid)?;
        if self.tasks[i].image_permits == 0 {
            return Err(TaskError::NotDownloading);
        }
        let mut t = self.copy_task(i);
        t.image_permits = t.image_permits - 1;
        if saved && t.downloaded_img_count < t.total_img_count {
            t.downloaded_img_count = t.downloaded_img_count + 1;
        }
        self.replace_task(i, t);
        Ok(())
    }

    /// Decides, once every worker of a downloading task has finished, whether
    /// its chapter can be published: only when every image is on disk. A
    /// chapter with missing images fails and gives back its permits.
    pub fn finish_images(&mut self, chapter_uuid: &String) -> (r: Result<bool, TaskError>)
        requires
            old(self).wf(),
        ensures
            final(self).wf(),
            !has_key(old(self)@, chapter_uuid@) ==> r == Err::<bool, TaskError>(TaskError::NotFound),
            r is Ok <==> has_key(old(self)@, chapter_uuid@)
                && entry(old(self)@, chapter_uuid@).state == DownloadTaskState::Downloading,
            has_key(old(self)@, chapter_uuid@) && r is Err
                ==> r == Err::<bool, TaskError>(TaskError::NotDownloading),
            r is Err ==> final(self)@ == old(self)@,
            r == Ok::<bool, TaskError>(true) <==> r is Ok && ready_to_publish(entry(old(self)@, chapter_uuid@)),
            r == Ok::<bool, TaskError>(true) ==> final(self)@ == old(self)@,
            r == Ok::<bool, TaskError>(false) ==> final(self)@ == old(self)@.update(
                index_of(old(self)@, chapter_uuid@),
                released(entry(old(self)@, chapter_uuid@), DownloadTaskState::Failed)),
    {
        let i = self.find_downloading(chapter_uuid)?;
        if self.tasks[i].downloaded_img_count == self.tasks[i].total_img_count {
            return Ok(true);
        }
        let mut t = self.copy_task(i);
        t.state = DownloadTaskState::Failed;
        t.holds_chapter_permit = false;
        t.image_permits = 0;
        self.replace_task(i, t);
        Ok(false)
    }

    /// Ends a downloading task: `Completed` when its chapter was published
    /// with every image on disk, else `Failed`. Its permits are given back.
    pub fn finish_chapter(&mut self, chapter_uuid: &String, published: bool) -> (r: Result<(), TaskError>)
        requires
            old(self).wf(),
        ensures
            final(self).wf(),
            !has_key(old(self)@, chapter_uuid@) ==> r == Err::<(), TaskError>(TaskError::NotFound),
            r is Ok <==> has_key(old(self)@, chapter_uuid@)
                && entry(old(self)@, chapter_uuid@).state == DownloadTaskState::Downloading,
            has_key(old(self)@, chapter_uuid@) && r is Err
                ==> r == Err::<(), TaskError>(TaskError::NotDownloading),
            r is Err ==> final(self)@ == old(self)@,
            r is Ok ==> final(self)@ == old(self)@.update(index_of(old(self)@, chapter_uuid@),
                released(entry(old(self)@, chapter_uuid@),
                    if published && ready_to_publish(entry(old(self)@, chapter_uuid@)) {
                        DownloadTaskState::Completed
                    } else {
                        DownloadTaskState::Failed
                    })),
    {
        let i = self.find_downloading(chapter_uuid)?;
        let mut t = self.copy_task(i);
        t.state = if published && t.downloaded_img_count == t.total_img_count {
            DownloadTaskState::Completed
        } else {
            DownloadTaskState::Failed
        };
        t.holds_chapter_permit = false;
        t.image_permits = 0;
        self.replace_task(i, t);
        Ok(())
    }
}

} // verus!
