use libvorpal::{shorten_clusters, shorten_unicode};

const EMOJI_TEXT: &str = "Your 📣 life literally 💯 is as valuable as a summer ant. 🐜 I'm 😏 just 👏 gonna stomp you, 👉 you're 🐶 gonna keep 🙊 coming back, 👻 I'm gonna 🙄 seal 🤐 up 😱 all 💯 my cracks, 😆 you're 😃 gonna 🗣️ keep coming back, why? 😳🤔 Cause you 👈 keep 🌵 smelling 😏👃👃💀 the syrup, you 👉🏼👴🏿 worthless b 🔥";

#[test]
fn format_test_shorten_test() {
    let input = "yeyeyeyeyeyeyeyeyeyeyeyeyeyeye".to_string();
    let trunc_length = 6;
    let trunc_trail = "...";
    let expected_outcome = "yeyeye...";
    assert_eq!(expected_outcome, shorten_unicode(input, trunc_length, trunc_trail));
}

#[test]
fn format_test_shorten_japanese_test() {
    let input = "魑魅魍魎".to_string();
    let trunc_length = 2;
    let trunc_trail = "!";
    let expected_outcome = "魑魅!";
    assert_eq!(expected_outcome, shorten_unicode(input, trunc_length, trunc_trail));
}

#[test]
fn format_test_shorten_emoji_test() {
    let input = EMOJI_TEXT.to_string();
    let trunc_length = 41;
    let trunc_trail = "[REDACTED]";
    let expected_outcome = "Your 📣 life literally 💯 is as valuable as[REDACTED]";
    assert_eq!(expected_outcome, shorten_unicode(input, trunc_length, trunc_trail));
}

#[test]
fn format_test_shorten_rune_test() {
    let input = "ᚠ feoh, ᚢ ur, ᚦ þorn, ᚩ os, ᚱ rad, ᚳ".to_string();
    let trunc_length = 12;
    let trunc_trail = "...";
    let expected_outcome = "ᚠ feoh, ᚢ ur...";
    assert_eq!(expected_outcome, shorten_unicode(input, trunc_length, trunc_trail));
}

#[test]
fn test_shorten_test() {
    let input = "yeyeyeyeyeyeyeyeyeyeyeyeyeyeye".to_string();
    let trunc_length = 6;
    let trunc_trail = "...";
    let expected_outcome = "yeyeye...";
    assert_eq!(expected_outcome, shorten_unicode(input, trunc_length, trunc_trail));
}

#[test]
fn test_shorten_japanese_test() {
    let input = "魑魅魍魎".to_string();
    let trunc_length = 2;
    let trunc_trail = "!";
    let expected_outcome = "魑魅!";
    assert_eq!(expected_outcome, shorten_unicode(input, trunc_length, trunc_trail));
}

#[test]
fn test_shorten_emoji_test() {
    let input = EMOJI_TEXT.to_string();
    let trunc_length = 41;
    let trunc_trail = "[REDACTED]";
    let expected_outcome = "Your 📣 life literally 💯 is as valuable as[REDACTED]";
    assert_eq!(expected_outcome, shorten_unicode(input, trunc_length, trunc_trail));
}

#[test]
fn test_shorten_rune_test() {
    let input = "ᚠ feoh, ᚢ ur, ᚦ þorn, ᚩ os, ᚱ rad, ᚳ".to_string();
    let trunc_length = 12;
    let trunc_trail = "...";
    let expected_outcome = "ᚠ feoh, ᚢ ur...";
    assert_eq!(expected_outcome, shorten_unicode(input, trunc_length, trunc_trail));
}

#[test]
fn emoji_with_modifier_counts_once() {
    // thumbs up with a skin-tone modifier, then a family joined by zero-width joiners
    let input = "👍🏽👨‍👩‍👧ab".to_string();
    assert_eq!("👍🏽…", shorten_unicode(input.clone(), 1, "…"));
    assert_eq!("👍🏽👨‍👩‍👧|", shorten_unicode(input, 2, "|"));
}

#[test]
fn combining_marks_stay_with_their_letter() {
    let input = "a\u{310}e\u{301}o\u{308}\u{332}".to_string();
    assert_eq!("a\u{310}e\u{301}", shorten_unicode(input, 2, ""));
}

#[test]
fn count_above_cluster_count_keeps_whole_text() {
    assert_eq!("abc...", shorten_unicode("abc".to_string(), 10, "..."));
    assert_eq!("...", shorten_unicode(String::new(), 3, "..."));
}

#[test]
fn count_zero_leaves_only_trail() {
    assert_eq!("!", shorten_unicode("abc".to_string(), 0, "!"));
}

#[test]
fn result_ends_with_trail_and_whole_clusters() {
    let input = "e\u{301}e\u{301}e\u{301}".to_string();
    for n in 0..5usize {
        let r = shorten_unicode(input.clone(), n, "~~");
        assert!(r.ends_with("~~"));
        let head = &r[..r.len() - 2];
        assert_eq!(head.chars().count(), 2 * n.min(3));
        assert!(input.starts_with(head));
    }
}

#[test]
fn shorten_clusters_takes_given_clusters() {
    let clusters = vec!["ab".to_string(), "c".to_string(), "de".to_string()];
    assert_eq!("abc+", shorten_clusters(&clusters, 2, "+"));
    assert_eq!("abcde+", shorten_clusters(&clusters, 7, "+"));
    assert_eq!("+", shorten_clusters(&clusters, 0, "+"));
    assert_eq!("+", shorten_clusters(&Vec::new(), 4, "+"));
}

#[test]
fn empty_text_gives_trail_alone() {
    assert_eq!("[x]", shorten_unicode(String::new(), 0, "[x]"));
    assert_eq!("", shorten_unicode(String::new(), usize::MAX, ""));
    assert_eq!("魑魅魍魎", shorten_unicode("魑魅魍魎".to_string(), usize::MAX, ""));
}
