use coub_clip::{
    build_concat_args, build_single_args, interpret_exit, plan_run, playlist_content, Budget,
    ClipError, MetadataParts, Variant, VariantSet,
};

#[test]
fn playlist_repeats_one_line_per_loop() {
    let content = playlist_content("/tmp/clip.mp4", 3);
    assert_eq!(content, "file '/tmp/clip.mp4'\nfile '/tmp/clip.mp4'\nfile '/tmp/clip.mp4'\n");
}

#[test]
fn playlist_for_zero_loops_is_empty() {
    assert_eq!(playlist_content("/tmp/clip.mp4", 0), "");
}

#[test]
fn single_pass_arguments_are_exact() {
    let args = build_single_args("/tmp/clip.mp4", "https://cdn.example/a.mp3", "/tmp/out.mp4");
    assert_eq!(
        args,
        vec![
            "-i",
            "/tmp/clip.mp4",
            "-i",
            "https://cdn.example/a.mp3",
            "-shortest",
            "-c:v:0",
            "copy",
            "-y",
            "/tmp/out.mp4",
        ]
    );
}

#[test]
fn concat_arguments_are_exact() {
    let args = build_concat_args("/tmp/list.txt", "https://cdn.example/a.mp3", "/tmp/out.mp4");
    assert_eq!(
        args,
        vec![
            "-f",
            "concat",
            "-safe",
            "0",
            "-i",
            "/tmp/list.txt",
            "-i",
            "https://cdn.example/a.mp3",
            "-shortest",
            "-c:v:0",
            "copy",
            "-y",
            "/tmp/out.mp4",
        ]
    );
}

#[test]
fn repeated_invocation_builds_identical_overwriting_arguments() {
    let first = build_single_args("/tmp/clip.mp4", "https://cdn.example/a.mp3", "/tmp/out.mp4");
    let second = build_single_args("/tmp/clip.mp4", "https://cdn.example/a.mp3", "/tmp/out.mp4");
    assert_eq!(first, second);
    assert!(first.iter().any(|a| a.as_str() == "-y"));
}

#[test]
fn transcoder_exit_maps_to_result() {
    assert_eq!(interpret_exit(true), Ok(()));
    assert_eq!(interpret_exit(false), Err(ClipError::Transcode));
}

fn variant(url: &str, size: u64) -> Variant {
    Variant { url: url.to_string(), size }
}

fn parts_with(video: VariantSet) -> MetadataParts {
    MetadataParts {
        title: Some("A clip".to_string()),
        duration_ms: Some(9_240),
        audio: VariantSet {
            high: Some(variant("https://cdn.example/a.mp3", 2_000)),
            med: None,
        },
        video,
    }
}

#[test]
fn planned_run_carries_descriptor_and_loop_count() {
    let video = VariantSet {
        high: Some(variant("https://cdn.example/v.mp4", 10_000_000)),
        med: None,
    };
    let run = plan_run("abc123".to_string(), parts_with(video), Budget::MaxBytes(24_000_000))
        .unwrap();
    assert_eq!(run.coub.video, "https://cdn.example/v.mp4");
    assert_eq!(run.coub.audio, "https://cdn.example/a.mp3");
    assert_eq!(run.loops, 2);
    assert!(run.uses_concat());
}

#[test]
fn missing_video_variant_fails_before_any_planning() {
    let video = VariantSet { high: None, med: None };
    let r = plan_run("abc123".to_string(), parts_with(video), Budget::MaxBytes(24_000_000));
    assert_eq!(r.unwrap_err(), ClipError::Fetch);
}

#[test]
fn zero_size_fails_planning_after_extraction() {
    let video = VariantSet {
        high: Some(variant("https://cdn.example/v.mp4", 0)),
        med: None,
    };
    let r = plan_run("abc123".to_string(), parts_with(video), Budget::MaxBytes(24_000_000));
    assert_eq!(r.unwrap_err(), ClipError::Plan);
}

#[test]
fn duration_budget_selects_single_pass_for_long_clips() {
    let video = VariantSet {
        high: Some(variant("https://cdn.example/v.mp4", 10_000_000)),
        med: None,
    };
    let mut parts = parts_with(video);
    parts.duration_ms = Some(30_000);
    let run = plan_run("abc123".to_string(), parts, Budget::MaxMillis(21_000)).unwrap();
    assert_eq!(run.loops, 0);
    assert!(!run.uses_concat());
}
