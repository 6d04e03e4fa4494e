use term_dashboard::synthesis::{
    expand_abbreviations, normalize_punctuation, preprocess_text, replace_str, split_sentences,
};

#[test]
fn test_preprocess_text() {
    let input = "Hello   world.\nThis is Dr. Smith.";
    let output = preprocess_text(input);
    assert!(output.contains("Doctor Smith"));
    assert!(!output.contains("  "));
}

#[test]
fn preprocess_text_exact() {
    assert_eq!(preprocess_text("  Hello   world.\n\n  This is Dr. Smith!!!  \r\nok"), "Hello world. This is Doctor Smith! ok");
    assert_eq!(preprocess_text(""), "");
    assert_eq!(preprocess_text("\n \n"), "");
}

#[test]
fn test_expand_abbreviations() {
    assert_eq!(expand_abbreviations("Dr. Smith"), "Doctor Smith");
    assert_eq!(expand_abbreviations("Mr. Jones"), "Mister Jones");
}

#[test]
fn expand_abbreviations_all_entries() {
    assert_eq!(expand_abbreviations("Mrs. A, Ms. B, Prof. C, Sr. D, Jr. E"), "Missus A, Miss B, Professor C, Senior D, Junior E");
    assert_eq!(expand_abbreviations("cats vs. dogs etc. e.g. i.e."), "cats versus dogs et cetera for example that is");
}

#[test]
fn normalize_punctuation_examples() {
    assert_eq!(normalize_punctuation("Wow!!!  Really??  Yes.  No"), "Wow! Really? Yes. No");
    assert_eq!(normalize_punctuation("a!?!?"), "a!?!?");
}

#[test]
fn replace_is_left_to_right_without_overlap() {
    assert_eq!(replace_str("aaaa", "aa", "b"), "bb");
    assert_eq!(replace_str("aaa", "aa", "b"), "ba");
    assert_eq!(replace_str("abc", "", "x"), "abc");
}

#[test]
fn test_split_sentences() {
    let text = "Hello world. How are you? I am fine!";
    let sentences = split_sentences(text);
    assert_eq!(sentences.len(), 3);
    assert_eq!(sentences[0], "Hello world.");
    assert_eq!(sentences[1], "How are you?");
    assert_eq!(sentences[2], "I am fine!");
}

#[test]
fn split_sentences_edges() {
    assert!(split_sentences("").is_empty());
    assert!(split_sentences("   ").is_empty());
    assert_eq!(split_sentences("No end"), vec!["No end".to_string()]);
    assert_eq!(split_sentences("3.14 is pi"), vec!["3.14 is pi".to_string()]);
}
