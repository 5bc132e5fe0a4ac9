use fotema::bootstrap::{
    Bootstrap, BootstrapAction, BootstrapInput, BootstrapOutput, FaceDetectionMode, MediaType,
    PictureId, Task, TaskName,
};

fn started(actions: &[BootstrapAction]) -> Vec<Task> {
    actions
        .iter()
        .filter_map(|a| match a {
            BootstrapAction::Run(t) => Some(*t),
            _ => None,
        })
        .collect()
}

fn refreshes(actions: &[BootstrapAction]) -> usize {
    actions
        .iter()
        .filter(|a| **a == BootstrapAction::RefreshLibrary)
        .count()
}

#[test]
fn scan_scenario_refreshes_once_at_drain() {
    let mut b = Bootstrap::new(FaceDetectionMode::On);
    b.enqueue(Task::PhotoScan);
    b.enqueue(Task::VideoScan);

    let a = b.update(BootstrapInput::Start);
    assert_eq!(
        a,
        vec![BootstrapAction::RefreshLibrary, BootstrapAction::Run(Task::PhotoScan)]
    );
    let a = b.update(BootstrapInput::TaskStarted(TaskName::Scan(MediaType::Photo)));
    assert_eq!(
        a,
        vec![BootstrapAction::Emit(BootstrapOutput::TaskStarted(TaskName::Scan(
            MediaType::Photo
        )))]
    );

    let a = b.update(BootstrapInput::TaskCompleted(TaskName::Scan(MediaType::Photo), None));
    assert_eq!(a, vec![BootstrapAction::Run(Task::VideoScan)]);
    let a = b.update(BootstrapInput::TaskStarted(TaskName::Scan(MediaType::Video)));
    assert_eq!(
        a,
        vec![BootstrapAction::Emit(BootstrapOutput::TaskStarted(TaskName::Scan(
            MediaType::Video
        )))]
    );

    let a = b.update(BootstrapInput::TaskCompleted(TaskName::Scan(MediaType::Video), Some(5)));
    assert_eq!(b.pending_len(), 0);
    assert_eq!(
        a,
        vec![
            BootstrapAction::RefreshLibrary,
            BootstrapAction::SetCancelled(false),
            BootstrapAction::Emit(BootstrapOutput::Completed),
        ]
    );
    assert!(!b.is_running());
    assert!(!b.is_library_stale());
}

#[test]
fn start_with_empty_queue_completes_at_once() {
    let mut b = Bootstrap::new(FaceDetectionMode::Off);
    let a = b.update(BootstrapInput::Start);
    assert_eq!(
        a,
        vec![
            BootstrapAction::RefreshLibrary,
            BootstrapAction::Emit(BootstrapOutput::Completed),
        ]
    );
    assert!(!b.is_running());
}

#[test]
fn startup_sequence_order_with_faces_on() {
    let b = Bootstrap::init(FaceDetectionMode::On);
    assert_eq!(
        b.pending_tasks(),
        vec![
            Task::PhotoScan,
            Task::VideoScan,
            Task::PhotoEnrich,
            Task::VideoEnrich,
            Task::PhotoThumbnail,
            Task::VideoThumbnail,
            Task::PhotoClean,
            Task::VideoClean,
            Task::PhotoExtractMotion,
            Task::PhotoDetectFaces,
            Task::PhotoRecognizeFaces,
        ]
    );
    assert!(!b.is_running());
}

#[test]
fn startup_sequence_without_faces_when_off() {
    let b = Bootstrap::init(FaceDetectionMode::Off);
    assert_eq!(b.pending_len(), 9);
    assert_eq!(b.pending_tasks()[8], Task::PhotoExtractMotion);
}

#[test]
fn tasks_start_in_fifo_order() {
    let mut b = Bootstrap::init(FaceDetectionMode::On);
    let mut order = started(&b.update(BootstrapInput::Start));
    order.extend(started(&b.update(BootstrapInput::TranscodeAll)));
    order.extend(started(&b.update(BootstrapInput::ScanPictureForFaces(PictureId { id: 7 }))));
    for _ in 0..20 {
        if !b.is_running() {
            break;
        }
        order.extend(started(&b.update(BootstrapInput::TaskCompleted(TaskName::Transcode, None))));
    }
    assert_eq!(
        order,
        vec![
            Task::PhotoScan,
            Task::VideoScan,
            Task::PhotoEnrich,
            Task::VideoEnrich,
            Task::PhotoThumbnail,
            Task::VideoThumbnail,
            Task::PhotoClean,
            Task::VideoClean,
            Task::PhotoExtractMotion,
            Task::PhotoDetectFaces,
            Task::PhotoRecognizeFaces,
            Task::VideoTranscode,
            Task::PhotoDetectFacesForOne(PictureId { id: 7 }),
            Task::PhotoRecognizeFaces,
        ]
    );
}

#[test]
fn no_second_task_starts_while_one_runs() {
    let mut b = Bootstrap::new(FaceDetectionMode::On);
    let a = b.update(BootstrapInput::TranscodeAll);
    assert_eq!(a, vec![BootstrapAction::Run(Task::VideoTranscode)]);
    assert!(b.is_running());
    let a = b.update(BootstrapInput::ScanPicturesForFaces);
    assert!(started(&a).is_empty());
    assert_eq!(
        b.pending_tasks(),
        vec![Task::PhotoDetectFaces, Task::PhotoRecognizeFaces]
    );
    let a = b.update(BootstrapInput::TaskStarted(TaskName::Transcode));
    assert!(started(&a).is_empty());
    let a = b.update(BootstrapInput::TaskCompleted(TaskName::Transcode, None));
    assert_eq!(a, vec![BootstrapAction::Run(Task::PhotoDetectFaces)]);
}

#[test]
fn stop_clears_queue_and_sets_cancellation() {
    let mut b = Bootstrap::init(FaceDetectionMode::On);
    b.update(BootstrapInput::Start);
    assert_eq!(b.pending_len(), 10);
    let a = b.update(BootstrapInput::Stop);
    assert_eq!(a, vec![BootstrapAction::SetCancelled(true)]);
    assert_eq!(b.pending_len(), 0);
    assert!(b.is_cancelled());
    assert!(b.is_running());

    let a = b.update(BootstrapInput::TaskCompleted(TaskName::Scan(MediaType::Photo), None));
    assert_eq!(
        a,
        vec![
            BootstrapAction::SetCancelled(false),
            BootstrapAction::Emit(BootstrapOutput::Completed),
        ]
    );
    assert!(!b.is_running());
    assert!(!b.is_cancelled());
}

#[test]
fn stop_while_idle_does_nothing() {
    let mut b = Bootstrap::init(FaceDetectionMode::On);
    let a = b.update(BootstrapInput::Stop);
    assert!(a.is_empty());
    assert_eq!(b.pending_len(), 11);
    assert!(!b.is_cancelled());
}

#[test]
fn drain_without_changes_never_refreshes() {
    let mut b = Bootstrap::new(FaceDetectionMode::On);
    b.enqueue(Task::PhotoEnrich);
    b.enqueue(Task::PhotoClean);
    b.enqueue(Task::VideoClean);
    let mut actions = Vec::new();
    b.update(BootstrapInput::Start);
    actions.extend(b.update(BootstrapInput::TaskCompleted(TaskName::Enrich(MediaType::Photo), Some(0))));
    actions.extend(b.update(BootstrapInput::TaskCompleted(TaskName::Clean(MediaType::Photo), None)));
    actions.extend(b.update(BootstrapInput::TaskCompleted(TaskName::Clean(MediaType::Video), Some(0))));
    assert_eq!(refreshes(&actions), 0);
    assert_eq!(actions.last(), Some(&BootstrapAction::Emit(BootstrapOutput::Completed)));
}

#[test]
fn drain_with_changes_refreshes_once_at_the_end() {
    let mut b = Bootstrap::new(FaceDetectionMode::On);
    b.enqueue(Task::PhotoEnrich);
    b.enqueue(Task::PhotoClean);
    b.enqueue(Task::VideoClean);
    b.update(BootstrapInput::Start);
    let a1 = b.update(BootstrapInput::TaskCompleted(TaskName::Enrich(MediaType::Photo), Some(3)));
    assert_eq!(refreshes(&a1), 0);
    assert!(b.is_library_stale());
    let a2 = b.update(BootstrapInput::TaskCompleted(TaskName::Clean(MediaType::Photo), Some(1)));
    assert_eq!(refreshes(&a2), 0);
    let a3 = b.update(BootstrapInput::TaskCompleted(TaskName::Clean(MediaType::Video), None));
    assert_eq!(refreshes(&a3), 1);
    assert_eq!(a3[0], BootstrapAction::RefreshLibrary);
    assert!(!b.is_library_stale());
}

#[test]
fn face_scans_are_no_ops_when_detection_off() {
    let mut b = Bootstrap::new(FaceDetectionMode::Off);
    b.update(BootstrapInput::TranscodeAll);
    let before = b.pending_len();
    let a = b.update(BootstrapInput::ScanPicturesForFaces);
    assert!(a.is_empty());
    assert_eq!(b.pending_len(), before);
    let a = b.update(BootstrapInput::ScanPictureForFaces(PictureId { id: 3 }));
    assert!(a.is_empty());
    assert_eq!(b.pending_len(), before);
}

#[test]
fn face_mode_can_change_at_runtime() {
    let mut b = Bootstrap::new(FaceDetectionMode::Off);
    b.add_task_photo_detect_faces();
    assert_eq!(b.pending_len(), 0);
    b.set_face_detection_mode(FaceDetectionMode::On);
    assert_eq!(b.face_detection_mode(), FaceDetectionMode::On);
    b.add_task_photo_detect_faces_for_one(PictureId { id: 11 });
    b.add_task_photo_recognize_faces();
    assert_eq!(
        b.pending_tasks(),
        vec![
            Task::PhotoDetectFacesForOne(PictureId { id: 11 }),
            Task::PhotoRecognizeFaces
        ]
    );
}

#[test]
fn run_if_idle_starts_head_only_when_idle() {
    let mut b = Bootstrap::new(FaceDetectionMode::On);
    assert!(b.run_if_idle().is_empty());
    b.add_task_video_transcode();
    b.add_task_photo_scan();
    assert_eq!(b.run_if_idle(), vec![BootstrapAction::Run(Task::VideoTranscode)]);
    assert!(b.run_if_idle().is_empty());
    assert_eq!(b.pending_tasks(), vec![Task::PhotoScan]);
}

#[test]
fn task_names_match_jobs() {
    assert_eq!(Task::PhotoScan.name(), TaskName::Scan(MediaType::Photo));
    assert_eq!(Task::VideoThumbnail.name(), TaskName::Thumbnail(MediaType::Video));
    assert_eq!(Task::PhotoExtractMotion.name(), TaskName::MotionPhoto);
    assert_eq!(
        Task::PhotoDetectFacesForOne(PictureId { id: 1 }).name(),
        TaskName::DetectFaces
    );
    assert_eq!(Task::VideoTranscode.name(), TaskName::Transcode);
}

#[test]
fn face_scans_do_nothing_when_off_and_idle_with_tasks_queued() {
    let mut b = Bootstrap::init(FaceDetectionMode::Off);
    assert!(!b.is_running());
    let before = b.pending_tasks();
    let a = b.update(BootstrapInput::ScanPicturesForFaces);
    assert!(a.is_empty());
    let a = b.update(BootstrapInput::ScanPictureForFaces(PictureId { id: 5 }));
    assert!(a.is_empty());
    assert_eq!(b.pending_tasks(), before);
    assert!(!b.is_running());
}

#[test]
fn face_scans_queue_and_start_when_on_and_idle() {
    let mut b = Bootstrap::new(FaceDetectionMode::On);
    let a = b.update(BootstrapInput::ScanPictureForFaces(PictureId { id: 5 }));
    assert_eq!(
        a,
        vec![BootstrapAction::Run(Task::PhotoDetectFacesForOne(PictureId { id: 5 }))]
    );
    assert_eq!(b.pending_tasks(), vec![Task::PhotoRecognizeFaces]);
}

#[test]
fn second_start_while_running_only_refreshes() {
    let mut b = Bootstrap::init(FaceDetectionMode::On);
    b.update(BootstrapInput::Start);
    assert_eq!(b.pending_len(), 10);
    let a = b.update(BootstrapInput::Start);
    assert_eq!(a, vec![BootstrapAction::RefreshLibrary]);
    assert_eq!(b.pending_len(), 10);
    assert!(b.is_running());
    let a = b.update(BootstrapInput::TaskCompleted(TaskName::Scan(MediaType::Photo), None));
    assert_eq!(a, vec![BootstrapAction::Run(Task::VideoScan)]);
}

#[test]
fn completion_reports_keep_counts_only_for_counting_jobs() {
    assert_eq!(
        TaskName::Enrich(MediaType::Video).completed(4),
        BootstrapInput::TaskCompleted(TaskName::Enrich(MediaType::Video), Some(4))
    );
    assert_eq!(
        TaskName::Thumbnail(MediaType::Photo).completed(0),
        BootstrapInput::TaskCompleted(TaskName::Thumbnail(MediaType::Photo), Some(0))
    );
    assert_eq!(
        TaskName::Clean(MediaType::Photo).completed(2),
        BootstrapInput::TaskCompleted(TaskName::Clean(MediaType::Photo), Some(2))
    );
    assert_eq!(
        TaskName::MotionPhoto.completed(9),
        BootstrapInput::TaskCompleted(TaskName::MotionPhoto, Some(9))
    );
    assert_eq!(
        TaskName::Scan(MediaType::Photo).completed(7),
        BootstrapInput::TaskCompleted(TaskName::Scan(MediaType::Photo), None)
    );
    assert_eq!(
        TaskName::Transcode.completed(7),
        BootstrapInput::TaskCompleted(TaskName::Transcode, None)
    );
    assert_eq!(
        TaskName::DetectFaces.completed(7),
        BootstrapInput::TaskCompleted(TaskName::DetectFaces, None)
    );
    assert_eq!(
        TaskName::RecognizeFaces.completed(7),
        BootstrapInput::TaskCompleted(TaskName::RecognizeFaces, None)
    );
    assert!(!TaskName::Scan(MediaType::Video).counts_items());
}
