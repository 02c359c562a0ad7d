use yambot::text::{byte_length, chars_of, join_with_spaces, split_words};
use yambot::tts::chunking::{pack_chunks, split_text};
use yambot::tts::queue::TTSQueue;
use yambot::tts::service::{TTSService, MAX_TEXT_LENGTH};

fn words_of(text: &str) -> Vec<String> {
    split_words(&chars_of(text))
}

#[test]
fn short_text_is_one_chunk() {
    assert_eq!(split_text("hello world", 200), vec!["hello world"]);
}

#[test]
fn short_text_is_trimmed() {
    assert_eq!(split_text("  hello   world \n", 200), vec!["hello   world"]);
}

#[test]
fn empty_text_is_one_empty_chunk() {
    assert_eq!(split_text("", 200), vec![""]);
    assert_eq!(split_text("   ", 200), vec![""]);
}

#[test]
fn text_of_exactly_the_bound_is_one_chunk() {
    assert_eq!(split_text("aaaa bbbbb", 10), vec!["aaaa bbbbb"]);
}

#[test]
fn long_text_is_packed_greedily() {
    assert_eq!(split_text("aaa bbb ccc ddd", 10), vec!["aaa bbb", "ccc ddd"]);
    assert_eq!(split_text("aaaa bbbbb c", 10), vec!["aaaa bbbbb", "c"]);
    assert_eq!(split_text("a b c d e f", 3), vec!["a b", "c d", "e f"]);
}

#[test]
fn long_text_loses_extra_whitespace() {
    assert_eq!(split_text("  aaa \t bbb \n ccc   ddd  ", 10), vec!["aaa bbb", "ccc ddd"]);
}

#[test]
fn word_longer_than_the_bound_is_its_own_chunk() {
    assert_eq!(split_text("abcdefghijklmnop xyz", 5), vec!["abcdefghijklmnop", "xyz"]);
    assert_eq!(split_text("ab abcdefghijklmnop xy z", 5), vec!["ab", "abcdefghijklmnop", "xy z"]);
}

#[test]
fn bound_of_zero_puts_every_word_in_its_own_chunk() {
    assert_eq!(split_text("a bb ccc", 0), vec!["a", "bb", "ccc"]);
}

#[test]
fn long_text_of_whitespace_has_no_chunk() {
    assert_eq!(split_text("            ", 5), Vec::<String>::new());
}

#[test]
fn length_is_counted_in_bytes() {
    // Each word takes four bytes: two words and a space do not fit in eight.
    assert_eq!(split_text("éé éé éé", 8), vec!["éé", "éé", "éé"]);
    assert_eq!(split_text("éé éé éé", 9), vec!["éé éé", "éé"]);
}

#[test]
fn pack_chunks_closes_a_chunk_when_the_next_word_does_not_fit() {
    let words = vec!["aa".to_string(), "bb".to_string(), "cc".to_string()];
    assert_eq!(pack_chunks(&words, 5), vec!["aa bb", "cc"]);
    assert_eq!(pack_chunks(&words, 8), vec!["aa bb cc"]);
    assert_eq!(pack_chunks(&Vec::new(), 8), Vec::<String>::new());
}

#[test]
fn every_chunk_is_within_the_bound_or_a_single_long_word() {
    let text = "alpha beta gamma delta epsilonepsilonepsilon zeta eta theta iota kappa";
    for max in 0..40usize {
        for chunk in split_text(text, max) {
            let single = words_of(&chunk).len() == 1;
            assert!(byte_length(&chunk) <= max || single, "max {} chunk {:?}", max, chunk);
        }
    }
}

#[test]
fn rejoined_chunks_have_the_words_of_the_text() {
    let text = "  alpha beta\tgamma   delta epsilonepsilonepsilon zeta\neta theta iota kappa ";
    for max in 0..100usize {
        let chunks = split_text(text, max);
        assert_eq!(words_of(&join_with_spaces(&chunks)), words_of(text), "max {}", max);
    }
}

#[test]
fn splitting_a_chunk_again_gives_the_chunk() {
    let text = "alpha beta gamma delta epsilon zeta eta theta iota kappa";
    for chunk in split_text(text, 12) {
        assert_eq!(split_text(&chunk, 12), vec![chunk.clone()]);
    }
}

#[test]
fn message_of_450_characters_makes_three_chunks() {
    // Ninety words of four letters with single spaces: 449 characters, and one more.
    let mut text = String::new();
    for i in 0..90 {
        if i > 0 {
            text.push(' ');
        }
        text.push_str("word");
    }
    text.push('s');
    assert_eq!(text.len(), 450);
    let service = TTSService::new(TTSQueue::new());
    let chunks = service.split_text(&text);
    assert_eq!(chunks.len(), 3);
    for chunk in &chunks {
        assert!(chunk.len() <= 200);
        assert!(!chunk.starts_with(' ') && !chunk.ends_with(' '));
    }
    assert_eq!(chunks[0].len(), 199);
    assert_eq!(chunks[1].len(), 199);
    assert_eq!(chunks[2].len(), 50);
    assert_eq!(join_with_spaces(&chunks), text);
}

#[test]
fn service_splits_at_two_hundred_bytes() {
    assert_eq!(MAX_TEXT_LENGTH, 200);
    let service = TTSService::new(TTSQueue::new());
    let long_word = "x".repeat(201);
    assert_eq!(service.split_text(&long_word), vec![long_word.clone()]);
    let text = format!("{} {}", "a".repeat(100), "b".repeat(100));
    assert_eq!(service.split_text(&text), vec!["a".repeat(100), "b".repeat(100)]);
    let fits = format!("{} {}", "a".repeat(100), "b".repeat(99));
    assert_eq!(service.split_text(&fits), vec![fits.clone()]);
}
