use webhooks_receiver::sql::{escape_clickhouse_identifier, escape_clickhouse_string};

#[test]
fn string_escape_puts_a_backslash_before_backslash_and_quote() {
    assert_eq!(escape_clickhouse_string("plain"), "plain");
    assert_eq!(escape_clickhouse_string("it's"), "it\\'s");
    assert_eq!(escape_clickhouse_string("a\\b"), "a\\\\b");
    assert_eq!(escape_clickhouse_string("\\'"), "\\\\\\'");
    assert_eq!(escape_clickhouse_string(""), "");
    assert_eq!(escape_clickhouse_string("\u{e9}'\u{1f600}"), "\u{e9}\\'\u{1f600}");
}

#[test]
fn identifier_escape_doubles_backticks() {
    assert_eq!(escape_clickhouse_identifier("webhooks"), "webhooks");
    assert_eq!(escape_clickhouse_identifier("web`hooks"), "web``hooks");
    assert_eq!(escape_clickhouse_identifier("``"), "````");
}

fn literal_end(text: &[u8], mut pos: usize) -> Option<usize> {
    while pos < text.len() {
        match text[pos] {
            b'\\' => pos += 2,
            b'\'' => {
                if pos + 1 < text.len() && text[pos + 1] == b'\'' {
                    pos += 2;
                } else {
                    return Some(pos);
                }
            }
            _ => pos += 1,
        }
    }
    None
}

#[test]
fn no_text_of_quotes_and_backslashes_leaves_its_literal() {
    let alphabet = ['\'', '\\', 'a', ' ', ';', '-'];
    let mut inputs: Vec<String> = vec![String::new()];
    for _ in 0..5 {
        let mut next = Vec::new();
        for s in &inputs {
            for c in alphabet {
                let mut t = s.clone();
                t.push(c);
                next.push(t);
            }
        }
        for s in &next {
            let escaped = escape_clickhouse_string(s);
            let statement = format!("x = '{}' AND y", escaped);
            let body_start = 5;
            assert_eq!(
                literal_end(statement.as_bytes(), body_start),
                Some(body_start + escaped.len())
            );
        }
        inputs = next;
    }
}
