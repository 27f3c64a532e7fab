use lp::artwork::{
    artwork_data, thumbnail_plan, CopyKind, ThumbnailAction, ThumbnailJob, THUMBNAIL_SIZE,
};

#[test]
fn artwork_data_is_a_json_record_of_both_ids() {
    assert_eq!(
        artwork_data("0123", "abcd"),
        r#"{"original":{"id":"0123"},"thumbnail":{"id":"abcd"}}"#
    );
    assert_eq!(artwork_data("", ""), r#"{"original":{"id":""},"thumbnail":{"id":""}}"#);
}

#[test]
fn thumbnail_plan_paths() {
    let plan = thumbnail_plan("lib", "nujabes/modal-soul", "default", "cd", "o1", "t1", "store");
    assert_eq!(plan.primary.pathname, "nujabes/modal-soul/default-cd.jpg");
    assert_eq!(plan.primary.src, "lib/-attachments/albums/nujabes/modal-soul/default-cd.jpg");
    assert_eq!(plan.primary.thumbnail_src, "tmp/cache/nujabes/modal-soul/default-cd.jpg");
    assert_eq!(plan.fallback.pathname, "nujabes/modal-soul/default.jpg");
    assert_eq!(plan.fallback.src, "lib/-attachments/albums/nujabes/modal-soul/default.jpg");
    assert_eq!(plan.fallback.thumbnail_src, "tmp/cache/nujabes/modal-soul/default.jpg");
    assert_eq!(plan.original_dst, "store/o1.jpg");
    assert_eq!(plan.thumbnail_dst, "store/t1.jpg");
    assert_eq!(plan.cache_dir, "tmp/cache/nujabes/modal-soul");
}

fn describe(action: &ThumbnailAction) -> String {
    match action {
        ThumbnailAction::Probe(p) => format!("probe {}", p),
        ThumbnailAction::Copy { from, to, kind } => {
            let k = match kind {
                CopyKind::Original => "original",
                CopyKind::Thumbnail => "thumbnail",
            };
            format!("copy {} {} -> {}", k, from, to)
        }
        ThumbnailAction::CreateDirAll(d) => format!("mkdir {}", d),
        ThumbnailAction::Resize { from, to, width, height } => {
            format!("resize {} -> {} {}x{}", from, to, width, height)
        }
        ThumbnailAction::UpdateArtwork { release_id, original_id, thumbnail_id } => {
            format!("update {} {} {}", release_id, original_id, thumbnail_id)
        }
        ThumbnailAction::MissingArtwork(p) => format!("missing {}", p),
        ThumbnailAction::Finished => "finished".to_string(),
    }
}

/// Runs a job against a file system in which exactly `existing` exist.
fn run(existing: &[&str]) -> Vec<String> {
    let mut job = ThumbnailJob::new(
        "lib",
        7,
        "a/b",
        "jp",
        "vinyl",
        "o".to_string(),
        "t".to_string(),
        "store",
    );
    let mut answer = false;
    let mut log = Vec::new();
    for _ in 0..20 {
        let action = job.step(answer);
        answer = match &action {
            ThumbnailAction::Probe(p) => existing.contains(&p.as_str()),
            _ => false,
        };
        let finished = matches!(action, ThumbnailAction::Finished);
        log.push(describe(&action));
        if finished {
            break;
        }
    }
    log
}

#[test]
fn job_with_primary_artwork_and_cached_thumbnail() {
    let log = run(&[
        "lib/-attachments/albums/a/b/jp-vinyl.jpg",
        "tmp/cache/a/b/jp-vinyl.jpg",
    ]);
    assert_eq!(
        log,
        vec![
            "probe lib/-attachments/albums/a/b/jp-vinyl.jpg",
            "copy original lib/-attachments/albums/a/b/jp-vinyl.jpg -> store/o.jpg",
            "probe tmp/cache/a/b/jp-vinyl.jpg",
            "copy thumbnail tmp/cache/a/b/jp-vinyl.jpg -> store/t.jpg",
            "update 7 o t",
            "finished",
        ]
    );
}

#[test]
fn job_with_fallback_artwork_and_no_cached_thumbnail() {
    let log = run(&["lib/-attachments/albums/a/b/jp.jpg"]);
    let size = THUMBNAIL_SIZE;
    assert_eq!(
        log,
        vec![
            "probe lib/-attachments/albums/a/b/jp-vinyl.jpg".to_string(),
            "probe lib/-attachments/albums/a/b/jp.jpg".to_string(),
            "copy original lib/-attachments/albums/a/b/jp.jpg -> store/o.jpg".to_string(),
            "probe tmp/cache/a/b/jp.jpg".to_string(),
            "mkdir tmp/cache/a/b".to_string(),
            format!("resize lib/-attachments/albums/a/b/jp.jpg -> tmp/cache/a/b/jp.jpg {}x{}", size, size),
            "copy thumbnail tmp/cache/a/b/jp.jpg -> store/t.jpg".to_string(),
            "update 7 o t".to_string(),
            "finished".to_string(),
        ]
    );
    assert_eq!(size, 256);
}

#[test]
fn job_without_artwork_fails() {
    let log = run(&["tmp/cache/a/b/jp.jpg"]);
    assert_eq!(
        log,
        vec![
            "probe lib/-attachments/albums/a/b/jp-vinyl.jpg",
            "probe lib/-attachments/albums/a/b/jp.jpg",
            "missing lib/-attachments/albums/a/b/jp.jpg",
            "finished",
        ]
    );
}
