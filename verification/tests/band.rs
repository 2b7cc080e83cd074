use mindtype_core::band::{compute_band, MTBandRange, BAND_WIDTH};

#[test]
fn whole_short_text_before_caret() {
    let band = compute_band("hello world", 11);
    assert_eq!(band, MTBandRange { start: 0, end: 11, valid: true });
}

#[test]
fn empty_text_has_no_band() {
    let band = compute_band("", 0);
    assert_eq!(band, MTBandRange { start: 0, end: 0, valid: false });
}

#[test]
fn caret_at_start_is_invalid() {
    let band = compute_band("some text", 0);
    assert!(!band.valid);
    assert_eq!(band.end, 0);
}

#[test]
fn caret_is_clamped_to_text_length() {
    let band = compute_band("abc", 99);
    assert_eq!(band, MTBandRange { start: 0, end: 3, valid: true });
}

#[test]
fn hard_cutoff_without_whitespace_keeps_width_bound() {
    let text: String = "a".repeat(80);
    let band = compute_band(&text, 80);
    assert_eq!(band, MTBandRange { start: 30, end: 80, valid: true });
    assert!(band.end - band.start <= BAND_WIDTH);
}

#[test]
fn band_starts_just_after_last_whitespace_before_cutoff() {
    // 10 chars, a space, then 69 more: caret at 80, cutoff at 30, and the
    // last whitespace before the cutoff sits at offset 10.
    let text = format!("{} {}", "a".repeat(10), "b".repeat(69));
    let band = compute_band(&text, 80);
    assert_eq!(band, MTBandRange { start: 11, end: 80, valid: true });
}

#[test]
fn whitespace_at_cutoff_is_not_a_boundary() {
    // The space sits exactly at the cutoff (offset 30), which is searched
    // exclusively, so the band falls back to the hard cutoff.
    let text = format!("{} {}", "a".repeat(30), "b".repeat(49));
    let band = compute_band(&text, 80);
    assert_eq!(band, MTBandRange { start: 30, end: 80, valid: true });
}

#[test]
fn multibyte_text_is_measured_in_characters() {
    // Seven two-byte characters; caret offsets count characters, not bytes.
    let band = compute_band("ééé ééé", 7);
    assert_eq!(band, MTBandRange { start: 0, end: 7, valid: true });
}

#[test]
fn band_is_idempotent_on_identical_input() {
    let text = format!("{} {}", "x".repeat(40), "y".repeat(40));
    let first = compute_band(&text, 81);
    let second = compute_band(&text, 81);
    assert_eq!(first, second);
}
