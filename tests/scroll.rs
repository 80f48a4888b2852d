use ncm_player::scroll::lyric_centered_offset;

#[test]
fn offset_near_top_is_left_alone() {
    assert_eq!(lyric_centered_offset(20, 2, 1, 10), None);
    assert_eq!(lyric_centered_offset(1, 0, 1, 10), None);
}

#[test]
fn offset_centres_in_the_middle() {
    assert_eq!(lyric_centered_offset(20, 8, 1, 10), Some(3));
    assert_eq!(lyric_centered_offset(20, 8, 2, 10), Some(6));
}

#[test]
fn offset_stops_at_the_bottom() {
    assert_eq!(lyric_centered_offset(20, 18, 1, 10), Some(9));
    assert_eq!(lyric_centered_offset(20, 19, 1, 10), Some(9));
    assert_eq!(lyric_centered_offset(4, 3, 1, 10), None);
}
