use lux_aurumque::pipeline::{Scene, SceneArchive};
use lux_aurumque::process::PublicWorld;
use lux_aurumque::vision::{SceneArchive as PublicArchive, UnifiedScene};

#[test]
fn scene_archive_is_append_only() {
    let mut archive = SceneArchive::new();
    assert!(archive.is_empty());
    archive.push(Scene { caption: "first".into(), contributing: 1, total_tokens: 10 });
    archive.push(Scene { caption: "second".into(), contributing: 2, total_tokens: 20 });
    assert_eq!(archive.len(), 2);
    assert_eq!(archive.last().unwrap().caption, "second");
    let captions: Vec<_> = archive.iter().map(|s| s.caption.as_str()).collect();
    assert_eq!(captions, ["first", "second"]);
}

#[test]
fn tests_scene_archive_is_append_only() {
    let mut archive = PublicArchive::new();
    assert!(archive.is_empty());
    archive.deposit(UnifiedScene { caption: "first".into(), contributing: 1, total_tokens: 10 });
    archive.deposit(UnifiedScene { caption: "second".into(), contributing: 2, total_tokens: 20 });
    assert_eq!(archive.len(), 2);
    assert_eq!(archive.last().unwrap().caption, "second");
    let captions: Vec<_> = archive.iter().map(|s| s.caption.as_str()).collect();
    assert_eq!(captions, ["first", "second"]);
}

#[test]
fn empty_archive_has_no_last_scene() {
    let archive = PublicArchive::default();
    assert!(archive.last().is_none());
    assert_eq!(archive.len(), 0);
    assert_eq!(archive.iter().count(), 0);
}

#[test]
fn deposit_keeps_earlier_scenes() {
    let mut archive = PublicArchive::new();
    for i in 0..5u32 {
        archive.deposit(UnifiedScene {
            caption: format!("scene {i}"),
            contributing: i as usize,
            total_tokens: i,
        });
        assert_eq!(archive.len(), i as usize + 1);
        assert_eq!(archive.last().unwrap().total_tokens, i);
    }
    let tokens: Vec<u32> = archive.iter().map(|s| s.total_tokens).collect();
    assert_eq!(tokens, vec![0, 1, 2, 3, 4]);
}
