use ncm_player::lyrics::{encode_lyrics, line_has_tag, lyrics_from_text, normalize_line, text_lines};

fn lines(v: &[&str]) -> Vec<String> {
    v.iter().map(|s| s.to_string()).collect()
}

#[test]
fn normalize_whole_tag_appends_zero_fraction() {
    assert_eq!(normalize_line("[01:02]la"), "[01:02.000]la");
}

#[test]
fn normalize_two_digit_fraction_pads_right() {
    assert_eq!(normalize_line("[01:02.34]la"), "[01:02.340]la");
}

#[test]
fn normalize_one_digit_fraction_pads_right() {
    assert_eq!(normalize_line("[01:02.5]la"), "[01:02.500]la");
}

#[test]
fn normalize_canonical_tag_is_unchanged() {
    assert_eq!(normalize_line("[01:02.345]la"), "[01:02.345]la");
    let once = normalize_line("[01:02]la");
    assert_eq!(normalize_line(&once), once);
}

#[test]
fn normalize_triple_tag_relabels_groups() {
    assert_eq!(normalize_line("[00:11:22]Hi"), "[00:11.22]Hi");
    assert_eq!(normalize_line("[00:11:223]Hi"), "[00:11.223]Hi");
}

#[test]
fn normalize_keeps_untagged_lines() {
    assert_eq!(normalize_line("no tag"), "no tag");
    assert_eq!(normalize_line("[ar:someone]"), "[ar:someone]");
    assert_eq!(normalize_line(""), "");
    assert!(!line_has_tag("[00:01"));
    assert!(line_has_tag("[00:01]"));
}

#[test]
fn timestamps_of_each_shape() {
    let out = encode_lyrics(
        lines(&["[01:02]a", "[01:02.3]b", "[01:02.34]c", "[01:02.345]d", "[01:02:34]e"]),
        vec![],
        vec![],
    );
    let ts: Vec<u64> = out.iter().map(|l| l.timestamp).collect();
    assert_eq!(ts, vec![62000, 62300, 62340, 62345, 62340]);
    let texts: Vec<&str> = out.iter().map(|l| l.lyric_line.as_str()).collect();
    assert_eq!(texts, vec!["a", "b", "c", "d", "e"]);
}

#[test]
fn huge_minutes_saturate() {
    let out = encode_lyrics(lines(&["[99999999999999999999:00.000]x"]), vec![], vec![]);
    assert_eq!(out.len(), 1);
    assert_eq!(out[0].timestamp, u64::MAX);
}

#[test]
fn translation_attached_to_every_primary_line() {
    let out = encode_lyrics(
        lines(&["[00:01.00]one", "[00:02.00]two", "[00:03.00]three"]),
        lines(&["[00:01.00]eins", "[00:02.00]zwei", "[00:03.00]drei"]),
        vec![],
    );
    assert_eq!(out.len(), 3);
    let tr: Vec<Option<String>> = out.iter().map(|l| l.trans_lyric_line.clone()).collect();
    assert_eq!(
        tr,
        vec![Some("eins".to_string()), Some("zwei".to_string()), Some("drei".to_string())]
    );
    assert!(out.iter().all(|l| l.roman_lyric_line.is_none()));
}

#[test]
fn secondary_lines_match_by_canonical_tag() {
    // "[00:02]" and "[00:02.000]" name the same canonical tag
    let out = encode_lyrics(
        lines(&["[00:01.000]one", "[00:02.000]two"]),
        lines(&["[00:02]zwei"]),
        lines(&["[00:01.0]ichi", "not a lyric line", "[00:02.00]ni"]),
    );
    assert_eq!(out.len(), 2);
    assert_eq!(out[0].trans_lyric_line, None);
    assert_eq!(out[1].trans_lyric_line, Some("zwei".to_string()));
    assert_eq!(out[0].roman_lyric_line, Some("ichi".to_string()));
    assert_eq!(out[1].roman_lyric_line, Some("ni".to_string()));
}

#[test]
fn untagged_primary_lines_are_left_out_and_tabs_trimmed() {
    let out = encode_lyrics(lines(&["title", "[00:01.000]one\t\t", "", "[00:02.000]"]), vec![], vec![]);
    assert_eq!(out.len(), 2);
    assert_eq!(out[0].lyric_line, "one");
    assert_eq!(out[1].lyric_line, "");
    assert_eq!(out[1].timestamp, 2000);
}

#[test]
fn empty_primary_text_gives_no_lyrics() {
    let out = lyrics_from_text("", "[00:01.000]translated\n[00:02.000]more", "");
    assert!(out.is_empty());
}

#[test]
fn texts_are_split_on_newlines() {
    assert_eq!(text_lines(""), vec![String::new()]);
    assert_eq!(text_lines("a\nb\n"), vec!["a".to_string(), "b".to_string(), String::new()]);
    let out = lyrics_from_text("[00:01.00]one\n[00:02.00]two", "[00:02.00]zwei", "");
    assert_eq!(out.len(), 2);
    assert_eq!(out[0].timestamp, 1000);
    assert_eq!(out[1].trans_lyric_line, Some("zwei".to_string()));
}

#[test]
fn equal_timestamps_keep_their_order() {
    let out = encode_lyrics(
        lines(&["[00:01.000]first", "[00:01.000]second"]),
        lines(&["[00:01.000]eins", "[00:01.000]zwei"]),
        vec![],
    );
    assert_eq!(out.len(), 2);
    assert_eq!(out[0].lyric_line, "first");
    assert_eq!(out[1].lyric_line, "second");
    assert_eq!(out[0].timestamp, out[1].timestamp);
    assert_eq!(out[0].trans_lyric_line, Some("eins".to_string()));
    assert_eq!(out[1].trans_lyric_line, Some("zwei".to_string()));
}
