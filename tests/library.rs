use fotema::error::Error;
use fotema::library::{Library, Visual, VisualId};

fn visual(id: &str, folder: &str) -> Visual {
    Visual {
        visual_id: VisualId::new(id),
        path: format!("{}/{}.jpg", folder, id),
        parent_path: folder.to_string(),
        thumbnail_path: None,
        is_selfie: false,
        is_video_only: false,
        is_motion_photo: false,
    }
}

#[test]
fn get_missing_then_found_after_refresh() {
    let mut lib = Library::new();
    assert!(lib.get(&VisualId::new("missing-id")).is_none());
    assert!(lib.refresh(Ok(vec![])).is_ok());
    assert!(lib.get(&VisualId::new("missing-id")).is_none());

    assert!(lib
        .refresh(Ok(vec![visual("other", "/a"), visual("missing-id", "/b")]))
        .is_ok());
    let found = lib.get(&VisualId::new("missing-id")).expect("entry after refresh");
    assert_eq!(found.visual_id.id, "missing-id");
    assert_eq!(found.parent_path, "/b");
}

#[test]
fn get_returns_first_match() {
    let mut lib = Library::new();
    lib.refresh(Ok(vec![visual("x", "/first"), visual("x", "/second")]))
        .unwrap();
    assert_eq!(lib.get(&VisualId::new("x")).unwrap().parent_path, "/first");
}

#[test]
fn refresh_replaces_whole_snapshot() {
    let mut lib = Library::new();
    lib.refresh(Ok(vec![visual("a", "/1"), visual("b", "/1"), visual("c", "/2")]))
        .unwrap();
    let before = lib.all();
    assert_eq!(before.len(), 3);
    lib.refresh(Ok(vec![visual("d", "/3")])).unwrap();
    let after = lib.all();
    assert_eq!(after.len(), 1);
    assert_eq!(after[0].visual_id.id, "d");
    // A reader holding the old snapshot still sees it in full.
    let ids: Vec<&str> = before.iter().map(|v| v.visual_id.id.as_str()).collect();
    assert_eq!(ids, vec!["a", "b", "c"]);
    assert!(lib.get(&VisualId::new("a")).is_none());
}

#[test]
fn failed_refresh_keeps_snapshot() {
    let mut lib = Library::new();
    lib.refresh(Ok(vec![visual("a", "/1"), visual("b", "/1")])).unwrap();
    let r = lib.refresh(Err(Error::RepositoryError("database closed".to_string())));
    assert!(matches!(r, Err(Error::RepositoryError(m)) if m == "database closed"));
    assert_eq!(lib.len(), 2);
    assert_eq!(lib.all()[1].visual_id.id, "b");
}

#[test]
fn all_keeps_order() {
    let mut lib = Library::new();
    assert!(lib.all().is_empty());
    lib.refresh(Ok(vec![visual("z", "/1"), visual("y", "/1"), visual("x", "/1")]))
        .unwrap();
    let ids: Vec<String> = lib.all().iter().map(|v| v.visual_id.id.clone()).collect();
    assert_eq!(ids, vec!["z", "y", "x"]);
}
