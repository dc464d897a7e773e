use ffav::sys::{av_err, ffaverr, mk_tag, AVERROR_EOF, AVERROR_STREAM_NOT_FOUND, EAGAIN};

#[test]
fn av_err_negates_positive_numbers() {
    assert_eq!(av_err(EAGAIN), -11);
    assert_eq!(av_err(22), -22);
}

#[test]
fn av_err_keeps_negative_numbers() {
    assert_eq!(av_err(-11), -11);
    assert_eq!(av_err(0), 0);
    assert_eq!(av_err(i32::MIN), i32::MIN);
}

#[test]
fn mk_tag_packs_little_endian() {
    assert_eq!(mk_tag('E', 'O', 'F', ' '), 0x20464f45);
    assert_eq!(mk_tag('\u{1}', '\0', '\0', '\0'), 1);
    assert_eq!(mk_tag('\0', '\u{1}', '\0', '\0'), 256);
    assert_eq!(mk_tag('\0', '\0', '\u{1}', '\0'), 65536);
    assert_eq!(mk_tag('\0', '\0', '\0', '\u{7f}'), 0x7f00_0000);
}

#[test]
fn mk_tag_reads_the_bits_as_signed() {
    assert_eq!(mk_tag('\0', '\0', '\0', '\u{80}'), i32::MIN);
    assert_eq!(mk_tag('\u{ff}', '\u{ff}', '\u{ff}', '\u{ff}'), -1);
    assert_eq!(mk_tag('\u{1}', '\0', '\0', '\u{f8}'), -134217727);
}

#[test]
fn mk_tag_lets_wide_characters_run_into_higher_bytes() {
    assert_eq!(mk_tag('\u{100}', '\0', '\0', '\0'), 256);
    assert_eq!(mk_tag('\u{102}', '\u{1}', '\0', '\0'), 0x102);
    assert_eq!(mk_tag('\0', '\0', '\0', '\u{100}'), 0);
    assert_eq!(mk_tag('\0', '\0', '\0', '\u{101}'), 0x0100_0000);
    assert_eq!(mk_tag('\u{10ffff}', '\0', '\0', '\0'), 0x10ffff);
}

#[test]
fn ffaverr_matches_named_codes() {
    assert_eq!(ffaverr('E', 'O', 'F', ' '), AVERROR_EOF);
    assert_eq!(ffaverr('\u{f8}', 'S', 'T', 'R'), AVERROR_STREAM_NOT_FOUND);
    assert_eq!(ffaverr('\u{ff}', '\u{ff}', '\u{ff}', '\u{ff}'), 1);
}
