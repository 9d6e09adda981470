use hearye::stt::{
    check_downloaded_model, choose_model, clock, home_or_tmp, log_path, model_dir, model_is_valid,
    model_path, num_threads, path_join, ModelSource, SttError, MIN_MODEL_BYTES,
};

#[test]
fn clock_formats_time_of_day() {
    assert_eq!(clock(0), "00:00:00");
    assert_eq!(clock(3661), "01:01:01");
    assert_eq!(clock(86_400 + 86_399), "23:59:59");
}

#[test]
fn model_path_under_home() {
    assert_eq!(
        model_path("/Users/ann"),
        "/Users/ann/Library/Application Support/com.charlie.hearye/models/ggml-base.en.bin"
    );
    assert_eq!(model_dir("/Users/ann/"), "/Users/ann/Library/Application Support/com.charlie.hearye/models");
    assert_eq!(log_path("/tmp"), "/tmp/Library/Logs/hearye.log");
}

#[test]
fn path_join_matches_std() {
    for (a, b) in [("/x", "y"), ("/x/", "y"), ("", "y"), ("rel", "a/b")] {
        let expected = std::path::PathBuf::from(a).join(b);
        assert_eq!(path_join(a, b), expected.to_str().unwrap());
    }
}

#[test]
fn home_falls_back_to_tmp() {
    assert_eq!(home_or_tmp(None), "/tmp");
    assert_eq!(home_or_tmp(Some("/h".to_string())), "/h");
}

#[test]
fn threads_are_clamped() {
    assert_eq!(num_threads(None), 4);
    assert_eq!(num_threads(Some(0)), 1);
    assert_eq!(num_threads(Some(6)), 6);
    assert_eq!(num_threads(Some(64)), 8);
}

#[test]
fn model_tiers() {
    let big = Some(MIN_MODEL_BYTES);
    let small = Some(MIN_MODEL_BYTES - 1);
    assert!(model_is_valid(big));
    assert!(!model_is_valid(small));
    assert!(!model_is_valid(None));
    assert_eq!(choose_model(big, big), ModelSource::Override);
    assert_eq!(choose_model(small, big), ModelSource::Bundled);
    assert_eq!(choose_model(None, small), ModelSource::Download);
}

#[test]
fn small_download_is_refused() {
    assert!(check_downloaded_model(MIN_MODEL_BYTES).is_ok());
    match check_downloaded_model(12) {
        Err(e @ SttError::ModelTooSmall(12)) => {
            assert_eq!(e.message(), "downloaded model is suspiciously small (12 bytes)")
        }
        _ => panic!("small model accepted"),
    }
}

#[test]
fn a_passed_download_is_used_from_then_on() {
    let len = 147_951_465u64;
    assert!(check_downloaded_model(len).is_ok());
    assert_eq!(choose_model(Some(len), None), ModelSource::Override);
    assert_eq!(choose_model(Some(len), Some(len)), ModelSource::Override);
}
