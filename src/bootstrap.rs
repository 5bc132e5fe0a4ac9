//! The orchestrator of the background jobs: a state machine that owns the
//! queue of pending tasks, runs at most one of them at a time, and decides
//! when the library snapshot must be reloaded.
//!
//! The machine does no work itself. Each call of [`Bootstrap::update`] takes
//! one input event and returns the actions that the caller must perform, in
//! order: start a job, reload the library, set or clear the shared
//! cancellation flag, or publish an output to observers.
use vstd::prelude::*;

verus! {

/// The kind of media a job works on.
#[derive(PartialEq, Eq, Structural, Clone, Copy, Debug)]
pub enum MediaType {
    Photo,
    Video,
}

/// The kind of a maintenance job, as reported in its start and completion events.
#[derive(PartialEq, Eq, Structural, Clone, Copy, Debug)]
pub enum TaskName {
    Scan(MediaType),
    Enrich(MediaType),
    MotionPhoto,
    Thumbnail(MediaType),
    Clean(MediaType),
    DetectFaces,
    RecognizeFaces,
    Transcode,
}

/// Identity of a picture in the repository.
#[derive(PartialEq, Eq, Structural, Clone, Copy, Debug)]
pub struct PictureId {
    pub id: i64,
}

/// Whether face-related jobs may be scheduled at all.
#[derive(PartialEq, Eq, Structural, Clone, Copy, Debug)]
pub enum FaceDetectionMode {
    Off,
    On,
}

/// A queued trigger: which job to start, and with what argument.
#[derive(PartialEq, Eq, Structural, Clone, Copy, Debug)]
pub enum Task {
    PhotoScan,
    VideoScan,
    PhotoEnrich,
    VideoEnrich,
    PhotoThumbnail,
    VideoThumbnail,
    PhotoClean,
    VideoClean,
    PhotoExtractMotion,
    PhotoDetectFaces,
    PhotoDetectFacesForOne(PictureId),
    PhotoRecognizeFaces,
    VideoTranscode,
}

/// Input events of the orchestrator.
#[derive(PartialEq, Eq, Structural, Clone, Copy, Debug)]
pub enum BootstrapInput {
    /// Reload the library, and start the first queued job unless one is running.
    Start,
    /// Queue face detection for one picture, then face recognition; nothing
    /// while face detection is off.
    ScanPictureForFaces(PictureId),
    /// Queue face detection for all pictures, then face recognition; nothing
    /// while face detection is off.
    ScanPicturesForFaces,
    /// Queue transcoding of all incompatible videos.
    TranscodeAll,
    /// A job has started.
    TaskStarted(TaskName),
    /// A job has completed, with the number of items it changed if it counts them.
    TaskCompleted(TaskName, Option<usize>),
    /// Drop all pending jobs and ask the running one to stop.
    Stop,
}

/// Outputs published to observers.
#[derive(PartialEq, Eq, Structural, Clone, Copy, Debug)]
pub enum BootstrapOutput {
    /// A job has started.
    TaskStarted(TaskName),
    /// The queue has drained and no job is running.
    Completed,
}

/// What the caller of [`Bootstrap::update`] must do, in order.
#[derive(PartialEq, Eq, Structural, Clone, Copy, Debug)]
pub enum BootstrapAction {
    /// Fire the trigger of the given task.
    Run(Task),
    /// Reload the library snapshot.
    RefreshLibrary,
    /// Store this value in the shared cancellation flag.
    SetCancelled(bool),
    /// Publish this output to observers.
    Emit(BootstrapOutput),
}

/// The abstract state of the orchestrator.
pub struct BootstrapState {
    /// Pending tasks, oldest first.
    pub queue: Seq<Task>,
    /// Whether a job occupies the running slot.
    pub running: bool,
    /// Whether a completed job has changed library items since the last drain.
    pub stale: bool,
    /// The value last given to the cancellation flag.
    pub cancelled: bool,
    /// The face-detection setting.
    pub mode: FaceDetectionMode,
}

/// The job kind that a task starts.
pub open spec fn task_name(t: Task) -> TaskName {
    match t {
        Task::PhotoScan => TaskName::Scan(MediaType::Photo),
        Task::VideoScan => TaskName::Scan(MediaType::Video),
        Task::PhotoEnrich => TaskName::Enrich(MediaType::Photo),
        Task::VideoEnrich => TaskName::Enrich(MediaType::Video),
        Task::PhotoThumbnail => TaskName::Thumbnail(MediaType::Photo),
        Task::VideoThumbnail => TaskName::Thumbnail(MediaType::Video),
        Task::PhotoClean => TaskName::Clean(MediaType::Photo),
        Task::VideoClean => TaskName::Clean(MediaType::Video),
        Task::PhotoExtractMotion => TaskName::MotionPhoto,
        Task::PhotoDetectFaces => TaskName::DetectFaces,
        Task::PhotoDetectFacesForOne(_) => TaskName::DetectFaces,
        Task::PhotoRecognizeFaces => TaskName::RecognizeFaces,
        Task::VideoTranscode => TaskName::Transcode,
    }
}

/// Whether a task belongs to face detection or recognition.
pub open spec fn is_face_task(t: Task) -> bool {
    match t {
        Task::PhotoDetectFaces | Task::PhotoDetectFacesForOne(_) | Task::PhotoRecognizeFaces => true,
        _ => false,
    }
}

/// The tasks queued when `t` is asked for under the face-detection setting
/// `mode`: nothing for a face task while the setting is off, else `t` alone.
pub open spec fn admitted(mode: FaceDetectionMode, t: Task) -> Seq<Task> {
    if mode == FaceDetectionMode::Off && is_face_task(t) {
        Seq::empty()
    } else {
        seq![t]
    }
}

/// The startup sequence under the setting `mode`, in the order the jobs run.
pub open spec fn startup_tasks(mode: FaceDetectionMode) -> Seq<Task> {
    seq![
        Task::PhotoScan,
        Task::VideoScan,
        Task::PhotoEnrich,
        Task::VideoEnrich,
        Task::PhotoThumbnail,
        Task::VideoThumbnail,
        Task::PhotoClean,
        Task::VideoClean,
        Task::PhotoExtractMotion,
    ] + admitted(mode, Task::PhotoDetectFaces) + admitted(mode, Task::PhotoRecognizeFaces)
}

/// The tasks that an input queues under the setting `mode`.
pub open spec fn queued_for(mode: FaceDetectionMode, msg: BootstrapInput) -> Seq<Task> {
    match msg {
        BootstrapInput::ScanPictureForFaces(id) => admitted(mode, Task::PhotoDetectFacesForOne(id))
            + admitted(mode, Task::PhotoRecognizeFaces),
        BootstrapInput::ScanPicturesForFaces => admitted(mode, Task::PhotoDetectFaces) + admitted(
            mode,
            Task::PhotoRecognizeFaces,
        ),
        BootstrapInput::TranscodeAll => seq![Task::VideoTranscode],
        _ => Seq::empty(),
    }
}

/// The state with `ts` appended to the queue.
pub open spec fn with_queued(s: BootstrapState, ts: Seq<Task>) -> BootstrapState {
    BootstrapState { queue: s.queue + ts, ..s }
}

/// Whether a completion report marks the library as changed.
pub open spec fn changed_items(count: Option<usize>) -> bool {
    match count {
        Some(n) => n > 0,
        None => false,
    }
}

/// The state with the task at the head of the queue taken into the running slot.
pub open spec fn pop_and_run(s: BootstrapState) -> (BootstrapState, Seq<BootstrapAction>)
    recommends
        s.queue.len() > 0,
{
    (BootstrapState { queue: s.queue.drop_first(), running: true, ..s }, seq![BootstrapAction::Run(s.queue[0])])
}

/// Starts the head of the queue if no job is running and the queue is not empty.
pub open spec fn run_if_idle_spec(s: BootstrapState) -> (BootstrapState, Seq<BootstrapAction>) {
    if s.running || s.queue.len() == 0 {
        (s, Seq::empty())
    } else {
        pop_and_run(s)
    }
}

/// What one input event does to the state, and the actions it asks for.
pub open spec fn step(s: BootstrapState, msg: BootstrapInput) -> (BootstrapState, Seq<BootstrapAction>) {
    match msg {
        BootstrapInput::Start => {
            if s.running {
                // A job already holds the running slot: only reload the library.
                (s, seq![BootstrapAction::RefreshLibrary])
            } else if s.queue.len() > 0 {
                let (t, a) = pop_and_run(s);
                (t, seq![BootstrapAction::RefreshLibrary] + a)
            } else {
                (
                    BootstrapState { running: false, ..s },
                    seq![
                        BootstrapAction::RefreshLibrary,
                        BootstrapAction::Emit(BootstrapOutput::Completed),
                    ],
                )
            }
        },
        BootstrapInput::ScanPictureForFaces(_) | BootstrapInput::ScanPicturesForFaces => {
            if s.mode == FaceDetectionMode::Off {
                // Face scans are switched off: nothing is queued or started.
                (s, Seq::empty())
            } else {
                run_if_idle_spec(with_queued(s, queued_for(s.mode, msg)))
            }
        },
        BootstrapInput::TranscodeAll => run_if_idle_spec(with_queued(s, queued_for(s.mode, msg))),
        BootstrapInput::TaskStarted(name) => {
            (s, seq![BootstrapAction::Emit(BootstrapOutput::TaskStarted(name))])
        },
        BootstrapInput::TaskCompleted(_, count) => {
            let stale = s.stale || changed_items(count);
            if s.queue.len() > 0 {
                pop_and_run(BootstrapState { stale, ..s })
            } else {
                let tail = seq![
                    BootstrapAction::SetCancelled(false),
                    BootstrapAction::Emit(BootstrapOutput::Completed),
                ];
                (
                    BootstrapState { stale: false, running: false, cancelled: false, ..s },
                    if stale { seq![BootstrapAction::RefreshLibrary] + tail } else { tail },
                )
            }
        },
        BootstrapInput::Stop => {
            if s.running {
                (
                    BootstrapState { queue: Seq::empty(), cancelled: true, ..s },
                    seq![BootstrapAction::SetCancelled(true)],
                )
            } else {
                (s, Seq::empty())
            }
        },
    }
}

/// Whether jobs of this kind report how many library items they changed:
/// enrichment, thumbnails, cleaning and motion-photo extraction do; scans,
/// transcoding and the face jobs do not.
pub open spec fn counts_items(name: TaskName) -> bool {
    match name {
        TaskName::Enrich(_) | TaskName::Thumbnail(_) | TaskName::Clean(_) | TaskName::MotionPhoto => true,
        _ => false,
    }
}

impl TaskName {
    /// Whether jobs of this kind report how many library items they changed.
    pub fn counts_items(self) -> (r: bool)
        ensures
            r == counts_items(self),
    {
        match self {
            TaskName::Enrich(_) | TaskName::Thumbnail(_) | TaskName::Clean(_) | TaskName::MotionPhoto => true,
            _ => false,
        }
    }

    /// The completion report of a job of this kind that changed `count`
    /// items: the count goes with it only where the kind keeps one.
    pub fn completed(self, count: usize) -> (r: BootstrapInput)
        ensures
            r == BootstrapInput::TaskCompleted(
                self,
                if counts_items(self) { Some(count) } else { None },
            ),
    {
        if self.counts_items() {
            BootstrapInput::TaskCompleted(self, Some(count))
        } else {
            BootstrapInput::TaskCompleted(self, None)
        }
    }
}

/// The orchestrator: the queue of pending tasks and the bookkeeping around
/// the one running slot.
pub struct Bootstrap {
    /// Pending tasks, oldest first.
    pending_tasks: Vec<Task>,
    /// Whether a task is currently running.
    is_running: bool,
    /// Whether a completed task has changed library items, so that the
    /// library must be reloaded when the queue drains.
    library_stale: bool,
    /// The value last given to the shared cancellation flag.
    stop: bool,
    face_detection_mode: FaceDetectionMode,
}

impl View for Bootstrap {
    type V = BootstrapState;

    closed spec fn view(&self) -> BootstrapState {
        BootstrapState {
            queue: self.pending_tasks@,
            running: self.is_running,
            stale: self.library_stale,
            cancelled: self.stop,
            mode: self.face_detection_mode,
        }
    }
}

impl Task {
    /// The job kind that a task of this variant starts.
    pub fn name(&self) -> (r: TaskName)
        ensures
            r == task_name(*self),
    {
        match self {
            Task::PhotoScan => TaskName::Scan(MediaType::Photo),
            Task::VideoScan => TaskName::Scan(MediaType::Video),
            Task::PhotoEnrich => TaskName::Enrich(MediaType::Photo),
            Task::VideoEnrich => TaskName::Enrich(MediaType::Video),
            Task::PhotoThumbnail => TaskName::Thumbnail(MediaType::Photo),
            Task::VideoThumbnail => TaskName::Thumbnail(MediaType::Video),
            Task::PhotoClean => TaskName::Clean(MediaType::Photo),
            Task::VideoClean => TaskName::Clean(MediaType::Video),
            Task::PhotoExtractMotion => TaskName::MotionPhoto,
            Task::PhotoDetectFaces => TaskName::DetectFaces,
            Task::PhotoDetectFacesForOne(_) => TaskName::DetectFaces,
            Task::PhotoRecognizeFaces => TaskName::RecognizeFaces,
            Task::VideoTranscode => TaskName::Transcode,
        }
    }
}

impl Bootstrap {
    /// An idle orchestrator with nothing queued.
    pub fn new(face_detection_mode: FaceDetectionMode) -> (r: Bootstrap)
        ensures
            r@ == (BootstrapState {
                queue: Seq::empty(),
                running: false,
                stale: false,
                cancelled: false,
                mode: face_detection_mode,
            }),
    {
        let r = Bootstrap {
            pending_tasks: Vec::new(),
            is_running: false,
            library_stale: false,
            stop: false,
            face_detection_mode,
        };
        assert(r@.queue =~= Seq::<Task>::empty());
        r
    }

    /// An idle orchestrator with the startup sequence queued.
    pub fn init(face_detection_mode: FaceDetectionMode) -> (r: Bootstrap)
        ensures
            r@ == (BootstrapState {
                queue: startup_tasks(face_detection_mode),
                running: false,
                stale: false,
                cancelled: false,
                mode: face_detection_mode,
            }),
    {
        let mut bootstrap = Bootstrap::new(face_detection_mode);
        // Tasks will execute in the order added.
        bootstrap.add_task_photo_scan();
        bootstrap.add_task_video_scan();
        bootstrap.add_task_photo_enrich();
        bootstrap.add_task_video_enrich();
        bootstrap.add_task_photo_thumbnail();
        bootstrap.add_task_video_thumbnail();
        bootstrap.add_task_photo_clean();
        bootstrap.add_task_video_clean();
        bootstrap.add_task_photo_extract_motion();
        bootstrap.add_task_photo_detect_faces();
        bootstrap.add_task_photo_recognize_faces();
        assert(bootstrap@.queue =~= startup_tasks(face_detection_mode));
        bootstrap
    }

    /// Changes the face-detection setting for the tasks queued from now on.
    pub fn set_face_detection_mode(&mut self, mode: FaceDetectionMode)
        ensures
            final(self)@ == (BootstrapState { mode, ..old(self)@ }),
    {
        self.face_detection_mode = mode;
    }

    /// Appends a task to the tail of the queue.
    pub fn enqueue(&mut self, task: Task)
        ensures
            final(self)@ == with_queued(old(self)@, seq![task]),
    {
        self.pending_tasks.push(task);
        assert(self@.queue =~= old(self)@.queue + seq![task]);
    }

    /// Appends `task` unless it is a face task and face detection is off.
    fn enqueue_admitted(&mut self, task: Task)
        ensures
            final(self)@ == with_queued(old(self)@, admitted(old(self)@.mode, task)),
    {
        let face = match task {
            Task::PhotoDetectFaces | Task::PhotoDetectFacesForOne(_) | Task::PhotoRecognizeFaces => true,
            _ => false,
        };
        match self.face_detection_mode {
            FaceDetectionMode::Off if face => {
                assert(self@.queue =~= old(self)@.queue + Seq::<Task>::empty());
            },
            _ => {
                self.enqueue(task);
            },
        }
    }

    pub fn add_task_photo_scan(&mut self)
        ensures
            final(self)@ == with_queued(old(self)@, seq![Task::PhotoScan]),
    {
        self.enqueue(Task::PhotoScan);
    }

    pub fn add_task_video_scan(&mut self)
        ensures
            final(self)@ == with_queued(old(self)@, seq![Task::VideoScan]),
    {
        self.enqueue(Task::VideoScan);
    }

    pub fn add_task_photo_enrich(&mut self)
        ensures
            final(self)@ == with_queued(old(self)@, seq![Task::PhotoEnrich]),
    {
        self.enqueue(Task::PhotoEnrich);
    }

    pub fn add_task_video_enrich(&mut self)
        ensures
            final(self)@ == with_queued(old(self)@, seq![Task::VideoEnrich]),
    {
        self.enqueue(Task::VideoEnrich);
    }

    pub fn add_task_photo_thumbnail(&mut self)
        ensures
            final(self)@ == with_queued(old(self)@, seq![Task::PhotoThumbnail]),
    {
        self.enqueue(Task::PhotoThumbnail);
    }

    pub fn add_task_video_thumbnail(&mut self)
        ensures
            final(self)@ == with_queued(old(self)@, seq![Task::VideoThumbnail]),
    {
        self.enqueue(Task::VideoThumbnail);
    }

    pub fn add_task_photo_clean(&mut self)
        ensures
            final(self)@ == with_queued(old(self)@, seq![Task::PhotoClean]),
    {
        self.enqueue(Task::PhotoClean);
    }

    pub fn add_task_video_clean(&mut self)
        ensures
            final(self)@ == with_queued(old(self)@, seq![Task::VideoClean]),
    {
        self.enqueue(Task::VideoClean);
    }

    pub fn add_task_photo_extract_motion(&mut self)
        ensures
            final(self)@ == with_queued(old(self)@, seq![Task::PhotoExtractMotion]),
    {
        self.enqueue(Task::PhotoExtractMotion);
    }

    /// Queues face detection for all pictures; nothing while face detection is off.
    pub fn add_task_photo_detect_faces(&mut self)
        ensures
            final(self)@ == with_queued(old(self)@, admitted(old(self)@.mode, Task::PhotoDetectFaces)),
            old(self)@.mode == FaceDetectionMode::Off ==> final(self)@ == old(self)@,
    {
        self.enqueue_admitted(Task::PhotoDetectFaces);
        assert(old(self)@.mode == FaceDetectionMode::Off ==> self@.queue =~= old(self)@.queue);
    }

    /// Queues face detection for one picture; nothing while face detection is off.
    pub fn add_task_photo_detect_faces_for_one(&mut self, picture_id: PictureId)
        ensures
            final(self)@ == with_queued(
                old(self)@,
                admitted(old(self)@.mode, Task::PhotoDetectFacesForOne(picture_id)),
            ),
            old(self)@.mode == FaceDetectionMode::Off ==> final(self)@ == old(self)@,
    {
        self.enqueue_admitted(Task::PhotoDetectFacesForOne(picture_id));
        assert(old(self)@.mode == FaceDetectionMode::Off ==> self@.queue =~= old(self)@.queue);
    }

    /// Queues face recognition; nothing while face detection is off.
    pub fn add_task_photo_recognize_faces(&mut self)
        ensures
            final(self)@ == with_queued(old(self)@, admitted(old(self)@.mode, Task::PhotoRecognizeFaces)),
            old(self)@.mode == FaceDetectionMode::Off ==> final(self)@ == old(self)@,
    {
        self.enqueue_admitted(Task::PhotoRecognizeFaces);
        assert(old(self)@.mode == FaceDetectionMode::Off ==> self@.queue =~= old(self)@.queue);
    }

    pub fn add_task_video_transcode(&mut self)
        ensures
            final(self)@ == with_queued(old(self)@, seq![Task::VideoTranscode]),
    {
        self.enqueue(Task::VideoTranscode);
    }

    /// Takes the head of the queue into the running slot.
    fn pop_and_run(&mut self) -> (r: Vec<BootstrapAction>)
        requires
            old(self)@.queue.len() > 0,
        ensures
            (final(self)@, r@) == pop_and_run(old(self)@),
    {
        let task = self.pending_tasks.remove(0);
        self.is_running = true;
        let r = vec![BootstrapAction::Run(task)];
        assert(r@ =~= seq![BootstrapAction::Run(old(self)@.queue[0])]);
        r
    }

    /// Starts the next task if none is running.
    pub fn run_if_idle(&mut self) -> (r: Vec<BootstrapAction>)
        ensures
            (final(self)@, r@) == run_if_idle_spec(old(self)@),
    {
        if self.is_running || self.pending_tasks.len() == 0 {
            let r = Vec::new();
            assert(r@ =~= Seq::<BootstrapAction>::empty());
            r
        } else {
            self.pop_and_run()
        }
    }

    /// Handles one input event, and returns the actions that the caller must
    /// perform, in order.
    pub fn update(&mut self, msg: BootstrapInput) -> (r: Vec<BootstrapAction>)
        ensures
            (final(self)@, r@) == step(old(self)@, msg),
    {
        match msg {
            BootstrapInput::Start => {
                // Load the library right away, so that it shows before the jobs are done.
                let mut r = vec![BootstrapAction::RefreshLibrary];
                if self.is_running {
                    // A job already holds the running slot; it starts the next one
                    // when it completes.
                } else if self.pending_tasks.len() > 0 {
                    let mut a = self.pop_and_run();
                    r.append(&mut a);
                } else {
                    self.is_running = false;
                    r.push(BootstrapAction::Emit(BootstrapOutput::Completed));
                }
                assert(r@ =~= step(old(self)@, msg).1);
                r
            },
            BootstrapInput::ScanPictureForFaces(picture_id) => {
                if let FaceDetectionMode::Off = self.face_detection_mode {
                    return Vec::new();
                }
                self.add_task_photo_detect_faces_for_one(picture_id);
                self.add_task_photo_recognize_faces();
                assert(self@.queue =~= old(self)@.queue + queued_for(old(self)@.mode, msg));
                assert(self@ == with_queued(old(self)@, queued_for(old(self)@.mode, msg)));
                self.run_if_idle()
            },
            BootstrapInput::ScanPicturesForFaces => {
                if let FaceDetectionMode::Off = self.face_detection_mode {
                    return Vec::new();
                }
                self.add_task_photo_detect_faces();
                self.add_task_photo_recognize_faces();
                assert(self@.queue =~= old(self)@.queue + queued_for(old(self)@.mode, msg));
                assert(self@ == with_queued(old(self)@, queued_for(old(self)@.mode, msg)));
                self.run_if_idle()
            },
            BootstrapInput::TranscodeAll => {
                self.add_task_video_transcode();
                self.run_if_idle()
            },
            BootstrapInput::TaskStarted(task_name) => {
                let r = vec![BootstrapAction::Emit(BootstrapOutput::TaskStarted(task_name))];
                assert(r@ =~= step(old(self)@, msg).1);
                r
            },
            BootstrapInput::TaskCompleted(_, updated) => {
                let changed = match updated {
                    Some(n) => n > 0,
                    None => false,
                };
                self.library_stale = self.library_stale || changed;
                if self.pending_tasks.len() > 0 {
                    self.pop_and_run()
                } else {
                    // The last task has completed: reload the library if a task
                    // has changed what it shows.
                    let mut r = Vec::new();
                    if self.library_stale {
                        r.push(BootstrapAction::RefreshLibrary);
                    }
                    self.library_stale = false;
                    self.is_running = false;
                    self.stop = false;
                    r.push(BootstrapAction::SetCancelled(false));
                    r.push(BootstrapAction::Emit(BootstrapOutput::Completed));
                    assert(r@ =~= step(old(self)@, msg).1);
                    r
                }
            },
            BootstrapInput::Stop => {
                let mut r = Vec::new();
                if self.is_running {
                    self.pending_tasks.clear();
                    self.stop = true;
                    r.push(BootstrapAction::SetCancelled(true));
                }
                assert(r@ =~= step(old(self)@, msg).1);
                assert(self@ =~= step(old(self)@, msg).0);
                r
            },
        }
    }

    /// The pending tasks, oldest first.
    pub fn pending_tasks(&self) -> (r: Vec<Task>)
        ensures
            r@ == self@.queue,
    {
        let mut r: Vec<Task> = Vec::new();
        let mut i: usize = 0;
        while i < self.pending_tasks.len()
            invariant
                i <= self.pending_tasks.len(),
                r@ =~= self.pending_tasks@.take(i as int),
            decreases self.pending_tasks.len() - i,
        {
            r.push(self.pending_tasks[i]);
            i = i + 1;
        }
        assert(r@ =~= self@.queue);
        r
    }

    /// The number of pending tasks.
    pub fn pending_len(&self) -> (r: usize)
        ensures
            r == self@.queue.len(),
    {
        self.pending_tasks.len()
    }

    /// Whether a task occupies the running slot.
    pub fn is_running(&self) -> (r: bool)
        ensures
            r == self@.running,
    {
        self.is_running
    }

    /// Whether the library must be reloaded when the queue drains.
    pub fn is_library_stale(&self) -> (r: bool)
        ensures
            r == self@.stale,
    {
        self.library_stale
    }

    /// The value last given to the cancellation flag.
    pub fn is_cancelled(&self) -> (r: bool)
        ensures
            r == self@.cancelled,
    {
        self.stop
    }

    /// The face-detection setting.
    pub fn face_detection_mode(&self) -> (r: FaceDetectionMode)
        ensures
            r == self@.mode,
    {
        self.face_detection_mode
    }
}

} // verus!
