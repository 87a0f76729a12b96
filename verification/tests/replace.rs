use redirect_https::replace::{replace, replace_chars};
use redirect_https::text::{chars_of, string_of};

#[test]
fn replace_single_occurrence() {
    assert_eq!(replace("example.com:8080/foo", ":8080", ":8443"), "example.com:8443/foo");
}

#[test]
fn replace_every_occurrence() {
    assert_eq!(replace("a-b-c-d", "-", "+"), "a+b+c+d");
    assert_eq!(replace("abcabcabc", "abc", "x"), "xxx");
}

#[test]
fn replace_absent_pattern_keeps_text() {
    assert_eq!(replace("https://example.com/", ":8080", ":8443"), "https://example.com/");
}

#[test]
fn replace_pattern_longer_than_text() {
    assert_eq!(replace("ab", "abc", "x"), "ab");
}

#[test]
fn replace_in_empty_text() {
    assert_eq!(replace("", "a", "x"), "");
    assert_eq!(replace("", "", "x"), "x");
}

#[test]
fn replace_occurrences_do_not_overlap() {
    assert_eq!(replace("aaa", "aa", "b"), "ba");
    assert_eq!(replace("aaaa", "aa", "b"), "bb");
    assert_eq!(replace("ababa", "aba", "x"), "xba");
}

#[test]
fn replace_does_not_search_what_it_substituted() {
    assert_eq!(replace("aa", "a", "aa"), "aaaa");
    assert_eq!(replace("ab", "b", "ab"), "aab");
}

#[test]
fn replace_with_empty_substitute_removes() {
    assert_eq!(replace("a:8080b:8080", ":8080", ""), "ab");
}

#[test]
fn replace_empty_pattern_goes_between_characters() {
    assert_eq!(replace("abc", "", "-"), "-a-b-c-");
    assert_eq!(replace("a", "", "xy"), "xyaxy");
}

#[test]
fn replace_at_both_ends() {
    assert_eq!(replace("/a/", "/", "//"), "//a//");
}

#[test]
fn replace_whole_text() {
    assert_eq!(replace("http", "http", "https"), "https");
}

#[test]
fn replace_counts_characters_not_bytes() {
    assert_eq!(replace("h\u{e9}llo w\u{f6}rld", "\u{f6}", "o"), "h\u{e9}llo world");
    assert_eq!(replace("\u{1F600}a\u{1F600}", "a", "\u{e9}\u{e9}"), "\u{1F600}\u{e9}\u{e9}\u{1F600}");
    assert_eq!(replace("\u{e9}", "", "-"), "-\u{e9}-");
}

#[test]
fn replace_chars_works_on_vectors() {
    let text = vec!['a', 'b', 'c', 'b'];
    let pattern = vec!['b'];
    let substitute = vec!['x', 'y'];
    assert_eq!(replace_chars(&text, &pattern, &substitute), vec!['a', 'x', 'y', 'c', 'x', 'y']);
}

#[test]
fn replace_chars_leaves_arguments_alone() {
    let text = vec!['a', 'b'];
    let pattern = vec!['a'];
    let substitute = vec!['c'];
    let out = replace_chars(&text, &pattern, &substitute);
    assert_eq!(out, vec!['c', 'b']);
    assert_eq!(text, vec!['a', 'b']);
    assert_eq!(pattern, vec!['a']);
    assert_eq!(substitute, vec!['c']);
}

fn words(alphabet: &[char], max_len: usize) -> Vec<String> {
    let mut all = vec![String::new()];
    let mut last = vec![String::new()];
    for _ in 0..max_len {
        let mut next = Vec::new();
        for word in &last {
            for c in alphabet {
                let mut longer = word.clone();
                longer.push(*c);
                next.push(longer);
            }
        }
        all.extend(next.iter().cloned());
        last = next;
    }
    all
}

#[test]
fn replace_agrees_with_std_on_small_words() {
    let texts = words(&['a', 'b'], 7);
    let patterns = words(&['a', 'b'], 3);
    let substitutes = ["", "a", "b", "ab", "ba", "c", "\u{e9}"];
    for text in &texts {
        for pattern in &patterns {
            for substitute in substitutes {
                assert_eq!(
                    replace(text, pattern, substitute),
                    text.replace(pattern.as_str(), substitute),
                    "text {:?}, pattern {:?}, substitute {:?}",
                    text,
                    pattern,
                    substitute
                );
            }
        }
    }
}

#[test]
fn replace_agrees_with_std_on_mixed_width_characters() {
    let texts = words(&['a', '\u{e9}', '\u{1F600}'], 5);
    let patterns = words(&['a', '\u{e9}', '\u{1F600}'], 2);
    let substitutes = ["", "a", "\u{e9}a", "\u{1F600}"];
    for text in &texts {
        for pattern in &patterns {
            for substitute in substitutes {
                assert_eq!(
                    replace(text, pattern, substitute),
                    text.replace(pattern.as_str(), substitute)
                );
            }
        }
    }
}

#[test]
fn chars_of_lists_characters_in_order() {
    assert_eq!(chars_of("h\u{e9}!"), vec!['h', '\u{e9}', '!']);
    assert_eq!(chars_of(""), Vec::<char>::new());
}

#[test]
fn string_of_joins_characters_in_order() {
    assert_eq!(string_of(&vec!['h', '\u{e9}', '!']), "h\u{e9}!");
    assert_eq!(string_of(&Vec::new()), "");
}

#[test]
fn chars_and_string_round_trip() {
    let text = "https://example.com:8443/p\u{e4}th?q=\u{1F600}";
    assert_eq!(string_of(&chars_of(text)), text);
}
