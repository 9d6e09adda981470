use hearye::transcript::clean_whisper_output;

#[test]
fn blank_audio_annotation_is_dropped() {
    assert_eq!(clean_whisper_output(" [BLANK_AUDIO]"), "");
}

#[test]
fn annotations_inside_text_are_dropped() {
    assert_eq!(clean_whisper_output(" Hello [Music] world."), "Hello world.");
}

#[test]
fn unterminated_bracket_drops_the_rest() {
    assert_eq!(clean_whisper_output("keep this [and not this"), "keep this");
}

#[test]
fn stray_closing_bracket_is_kept() {
    assert_eq!(clean_whisper_output("a]b"), "a]b");
}

#[test]
fn nested_open_bracket_ends_at_first_close() {
    assert_eq!(clean_whisper_output("x [a [b] c] y"), "x c] y");
}

#[test]
fn noise_markers_are_removed() {
    assert_eq!(
        clean_whisper_output("(silence) so (Inaudible) then (No speech) done (SILENCE)"),
        "so then done"
    );
}

#[test]
fn markers_are_removed_in_one_pass_each() {
    assert_eq!(clean_whisper_output("(sil(silence)ence)"), "(silence)");
}

#[test]
fn whitespace_is_collapsed() {
    assert_eq!(clean_whisper_output("  one\t two\n\nthree   "), "one two three");
}

#[test]
fn unicode_whitespace_is_collapsed() {
    assert_eq!(clean_whisper_output("a\u{3000}b\u{00A0}\u{2003}c"), "a b c");
}

#[test]
fn empty_input_gives_empty_output() {
    assert_eq!(clean_whisper_output(""), "");
}

#[test]
fn cleaned_output_is_well_formed() {
    for input in [
        "  [x] a  (silence)  b [y  ",
        "[[[]]] q\r\n r ",
        "\u{2028}x\u{2029}",
        "(no speech)(no speech)",
    ] {
        let out = clean_whisper_output(input);
        assert!(!out.contains('['));
        assert!(!out.starts_with(' ') && !out.ends_with(' '));
        assert!(!out.contains("  "));
        assert!(out.chars().all(|c| c == ' ' || !c.is_whitespace()));
    }
}

#[test]
fn cleaning_twice_is_cleaning_once() {
    for text in ["  Hello [BLANK_AUDIO]  world \n again ", "[Music]", "", "a  b\tc", "x [unclosed"] {
        let once = clean_whisper_output(text);
        assert_eq!(clean_whisper_output(&once), once);
    }
    let nested = clean_whisper_output("(sil(silence)ence)");
    assert_eq!(nested, "(silence)");
    assert_eq!(clean_whisper_output(&nested), "");
}
