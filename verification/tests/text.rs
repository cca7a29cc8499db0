use sidecar_lifecycle::text::{chars_of, contains, same_text};

#[test]
fn chars_of_keeps_every_character_in_order() {
    assert_eq!(chars_of("main"), vec!['m', 'a', 'i', 'n']);
    assert_eq!(chars_of(""), Vec::<char>::new());
    assert_eq!(chars_of("né"), vec!['n', 'é']);
}

#[test]
fn contains_finds_a_needle_at_the_start() {
    assert!(contains("csemInsight --port 3354", "csemInsight"));
}

#[test]
fn contains_finds_a_needle_in_the_middle() {
    assert!(contains("/opt/app/csemInsight-x86_64 serve", "csemInsight"));
}

#[test]
fn contains_finds_a_needle_at_the_end() {
    assert!(contains("/usr/local/bin/csemInsight", "csemInsight"));
}

#[test]
fn contains_accepts_the_whole_text_as_needle() {
    assert!(contains("csemInsight", "csemInsight"));
}

#[test]
fn contains_rejects_a_needle_longer_than_the_text() {
    assert!(!contains("csemInsigh", "csemInsight"));
    assert!(!contains("", "csemInsight"));
}

#[test]
fn contains_is_case_sensitive() {
    assert!(!contains("cseminsight", "csemInsight"));
    assert!(!contains("CSEMINSIGHT", "csemInsight"));
}

#[test]
fn contains_needs_a_contiguous_run() {
    assert!(!contains("csem Insight", "csemInsight"));
    assert!(!contains("csemInsigh t", "csemInsight"));
}

#[test]
fn contains_restarts_after_a_partial_match() {
    assert!(contains("csemcsemInsight", "csemInsight"));
    assert!(contains("aab", "ab"));
    assert!(!contains("aaa", "ab"));
}

#[test]
fn contains_finds_the_empty_needle_everywhere() {
    assert!(contains("anything", ""));
    assert!(contains("", ""));
}

#[test]
fn contains_agrees_with_std_on_wide_characters() {
    let samples = ["né csemInsight", "日本語", "a日b", "日日本", ""];
    let needles = ["csemInsight", "本", "日本", "é c", "b", ""];
    for hay in samples {
        for needle in needles {
            assert_eq!(contains(hay, needle), hay.contains(needle));
        }
    }
}

#[test]
fn same_text_holds_of_equal_texts_only() {
    assert!(same_text("main", "main"));
    assert!(same_text("", ""));
    assert!(!same_text("main", "Main"));
    assert!(!same_text("main", "main "));
    assert!(!same_text("main", "mai"));
    assert!(!same_text("", "main"));
    assert!(!same_text("niam", "main"));
}
