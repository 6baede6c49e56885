use tech_writer::text::split_lines;
use tech_writer::tools::{search_code, SourceFile};
use tech_writer::utils::read_prompt_file;

/// Every text over the alphabet, up to the given length.
fn texts(alphabet: &[char], max_len: usize) -> Vec<String> {
    let mut all = vec![String::new()];
    let mut last = vec![String::new()];
    for _ in 0..max_len {
        let mut next = Vec::new();
        for text in &last {
            for c in alphabet {
                let mut longer = text.clone();
                longer.push(*c);
                next.push(longer);
            }
        }
        all.extend(next.iter().cloned());
        last = next;
    }
    all
}

/// The lines of a text, by the rule the library states: a line ends at a
/// line feed, a carriage return before that line feed is dropped, a last
/// line without a line feed is kept as it is.
fn lines_by_rule(text: &[char]) -> Vec<String> {
    if text.is_empty() {
        return Vec::new();
    }
    let end = text.iter().position(|c| *c == '\n').unwrap_or(text.len());
    if end >= text.len() {
        return vec![text.iter().collect()];
    }
    let mut line = &text[..end];
    if line.last() == Some(&'\r') {
        line = &line[..line.len() - 1];
    }
    let mut lines = vec![line.iter().collect::<String>()];
    lines.extend(lines_by_rule(&text[end + 1..]));
    lines
}

fn is_whitespace_by_rule(c: char) -> bool {
    ('\u{0009}'..='\u{000D}').contains(&c)
        || c == '\u{0020}'
        || c == '\u{0085}'
        || c == '\u{00A0}'
        || c == '\u{1680}'
        || ('\u{2000}'..='\u{200A}').contains(&c)
        || c == '\u{2028}'
        || c == '\u{2029}'
        || c == '\u{202F}'
        || c == '\u{205F}'
        || c == '\u{3000}'
}

fn trimmed_by_rule(text: &str) -> String {
    let mut chars: Vec<char> = text.chars().collect();
    while !chars.is_empty() && is_whitespace_by_rule(chars[0]) {
        chars.remove(0);
    }
    while !chars.is_empty() && is_whitespace_by_rule(chars[chars.len() - 1]) {
        chars.pop();
    }
    chars.into_iter().collect()
}

fn escaped_by_rule(text: &str) -> String {
    let mut out = String::new();
    for c in text.chars() {
        if "\\.+*?()|[]{}^$#&-~".contains(c) {
            out.push('\\');
        }
        out.push(c);
    }
    out
}

#[test]
fn lines_are_those_of_the_standard_library() {
    for text in texts(&['a', '\n', '\r'], 8) {
        let expected: Vec<String> = text.lines().map(String::from).collect();
        assert_eq!(split_lines(&text), expected, "lines of {:?}", text);
    }
    assert_eq!(split_lines("one\r\ntwo\n\nfour\r"), vec!["one", "two", "", "four\r"]);
    assert_eq!(split_lines(""), Vec::<String>::new());
    assert_eq!(split_lines("\n"), vec![""]);
    assert_eq!(split_lines("\r\r\n\r"), vec!["\r", "\r"]);
    assert_eq!(split_lines("caf\u{e9}\r\n\u{1f980}"), vec!["caf\u{e9}", "\u{1f980}"]);
}

#[test]
fn lines_follow_the_stated_rule() {
    for text in texts(&['a', '\n', '\r'], 7) {
        let files = vec![SourceFile { path: "f".to_string(), binary: false, content: Some(text.clone()) }];
        let matches = search_code(&files, "").unwrap();
        let found: Vec<String> = matches.iter().map(|m| m.content.clone()).collect();
        let chars: Vec<char> = text.chars().collect();
        assert_eq!(found, lines_by_rule(&chars), "lines of {:?}", text);
        let numbers: Vec<usize> = matches.iter().map(|m| m.line).collect();
        assert_eq!(numbers, (1..=found.len()).collect::<Vec<usize>>());
    }
}

#[test]
fn whitespace_is_the_unicode_property() {
    let mut code = 0u32;
    while code <= 0x10FFFF {
        if let Some(c) = char::from_u32(code) {
            assert_eq!(is_whitespace_by_rule(c), c.is_whitespace(), "U+{:04X}", code);
        }
        code += 1;
    }
}

#[test]
fn trimming_follows_the_stated_rule() {
    for text in texts(&['a', ' ', '\n', '\u{a0}', '\u{200b}'], 5) {
        assert_eq!(read_prompt_file(&text), trimmed_by_rule(&text), "trimming {:?}", text);
    }
}

#[test]
fn escaping_follows_the_stated_rule() {
    let mut code = 0u32;
    while code < 0x3000 {
        if let Some(c) = char::from_u32(code) {
            let text = format!("a{}b{}", c, c);
            assert_eq!(regex::escape(&text), escaped_by_rule(&text));
        }
        code += 1;
    }
    assert_eq!(regex::escape("f(x)*2 - [a|b]"), "f\\(x\\)\\*2 \\- \\[a\\|b\\]");
}

#[test]
fn escaped_query_matches_as_a_substring() {
    let lines = ["a.b", "axb", "1+1=2", "a\\b", "{x}", "^$", "#& -~", "plain"];
    let content = lines.join("\n");
    let files = vec![SourceFile { path: "f".to_string(), binary: false, content: Some(content) }];
    for query in [".", "+", "\\", "{x}", "^", "$", "#&", "-~", "a", "x", "1+1", "b", "=2", "(", "lai"] {
        let expected: Vec<&str> = lines.iter().copied().filter(|l| l.contains(query)).collect();
        let found: Vec<String> =
            search_code(&files, query).unwrap().into_iter().map(|m| m.content).collect();
        assert_eq!(found, expected, "query {:?}", query);
    }
}
