use rubric::link::{contains_link, matches_pattern, BadPattern, LINK_PATTERN};

#[test]
fn youtube_link_is_recognized() {
    assert_eq!(contains_link("see https://youtube.com/watch?v=x for my answer"), Ok(true));
}

#[test]
fn short_youtube_link_is_recognized() {
    assert_eq!(contains_link("check my video at youtu.be/abc"), Ok(true));
}

#[test]
fn tiktok_link_is_recognized() {
    assert_eq!(contains_link("https://www.tiktok.com/@someone/video/1"), Ok(true));
}

#[test]
fn text_without_a_link_has_none() {
    assert_eq!(contains_link("I did not record a video."), Ok(false));
    assert_eq!(contains_link(""), Ok(false));
}

#[test]
fn other_hosts_are_not_recognized() {
    assert_eq!(contains_link("https://example.com/watch?v=x"), Ok(false));
    assert_eq!(contains_link("https://vimeo.com/12345"), Ok(false));
}

#[test]
fn host_without_a_path_is_not_a_link() {
    assert_eq!(contains_link("I put it on youtube.com yesterday"), Ok(false));
}

#[test]
fn link_is_found_anywhere_in_the_text() {
    assert_eq!(contains_link("first line\nsecond line youtu.be/x\nthird line"), Ok(true));
}

#[test]
fn link_pattern_compiles() {
    assert!(matches_pattern(LINK_PATTERN, "").is_ok());
}

#[test]
fn pattern_can_be_supplied() {
    assert_eq!(matches_pattern("vimeo\\.com/", "https://vimeo.com/12345"), Ok(true));
    assert_eq!(matches_pattern("vimeo\\.com/", "https://youtube.com/watch"), Ok(false));
}

#[test]
fn unclosed_group_is_a_bad_pattern() {
    assert_eq!(matches_pattern("(youtube", "youtube"), Err(BadPattern));
}

#[test]
fn oversized_pattern_is_a_bad_pattern() {
    assert_eq!(matches_pattern("\\w{1000}", "youtube"), Err(BadPattern));
}

#[test]
fn dot_in_the_pattern_stands_for_any_character() {
    assert_eq!(contains_link("youtube-com/watch"), Ok(true));
    assert_eq!(contains_link("youtu\nbe/abc"), Ok(false));
}
