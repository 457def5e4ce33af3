use tts_pipeline::segmenter::split_by_stop_words;
use tts_pipeline::segmenter::stop_word;

#[test]
fn empty_text_yields_no_segments() {
    let segs = split_by_stop_words("");
    assert!(segs.is_empty());
}

#[test]
fn text_without_stop_words_is_one_segment() {
    let segs = split_by_stop_words("Hello world");
    assert_eq!(segs, vec!["Hello world".to_string()]);
}

#[test]
fn boundary_follows_the_stop_word() {
    let segs = split_by_stop_words("Hi. Bye.");
    assert_eq!(segs, vec!["Hi.".to_string(), " Bye.".to_string()]);
}

#[test]
fn adjacent_stop_words_each_close_a_segment() {
    let segs = split_by_stop_words("Wait…!");
    assert_eq!(segs, vec!["Wait…".to_string(), "!".to_string()]);
}

#[test]
fn japanese_punctuation_closes_segments() {
    let segs = split_by_stop_words("こんにちは。元気？はい！");
    assert_eq!(
        segs,
        vec![
            "こんにちは。".to_string(),
            "元気？".to_string(),
            "はい！".to_string(),
        ]
    );
}

#[test]
fn concatenation_reproduces_the_text() {
    let texts = [
        "",
        "Hello world",
        "Hi. Bye.",
        "Wait…!",
        "こんにちは。元気？はい！",
        "a,b.c?d!e",
        "。。。",
        "ends mid sentence",
    ];
    for text in texts {
        let segs = split_by_stop_words(text);
        let joined: String = segs.concat();
        assert_eq!(joined, text);
    }
}

#[test]
fn every_segment_but_the_last_ends_with_a_stop_word() {
    let segs = split_by_stop_words("One. Two, three? Four and five");
    assert!(segs.len() >= 2);
    for seg in &segs[..segs.len() - 1] {
        let last = seg.chars().last().unwrap();
        assert!(stop_word(last));
    }
}

#[test]
fn no_segment_is_empty() {
    let texts = ["Wait…!", "。。。", "x", "a.b.", "trailing."];
    for text in texts {
        for seg in split_by_stop_words(text) {
            assert!(!seg.is_empty());
        }
    }
}

#[test]
fn segmentation_is_idempotent() {
    let text = "One. Two, three? Four…!";
    let first = split_by_stop_words(text);
    let second = split_by_stop_words(text);
    assert_eq!(first, second);
}

#[test]
fn text_ending_on_a_stop_word_has_no_empty_trailing_segment() {
    let segs = split_by_stop_words("Over.");
    assert_eq!(segs, vec!["Over.".to_string()]);
}

#[test]
fn stop_word_set_membership() {
    for c in ['。', '、', '？', '！', '…', ',', '.', '?', '!'] {
        assert!(stop_word(c));
    }
    for c in ['a', ' ', 'ん', ';', ':', '-'] {
        assert!(!stop_word(c));
    }
}

#[test]
fn multi_byte_characters_are_never_split() {
    let segs = split_by_stop_words("猫…犬");
    assert_eq!(segs, vec!["猫…".to_string(), "犬".to_string()]);
}
