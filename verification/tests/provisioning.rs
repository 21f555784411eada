use user_accounts::provisioning::{create_role_statement, grant_statement, quote, Quoting};

#[test]
fn the_role_is_created_under_the_username() {
    assert_eq!(
        create_role_statement("a@b.com", "Secret123"),
        "CREATE USER \"a@b.com\" WITH PASSWORD E'Secret123';"
    );
}

#[test]
fn the_read_group_is_granted_to_the_role() {
    assert_eq!(grant_statement("a@b.com"), "GRANT housing_reader TO \"a@b.com\";");
}

#[test]
fn a_double_quote_in_a_username_is_doubled() {
    assert_eq!(
        grant_statement("x\"; DROP TABLE users; --@b.com"),
        "GRANT housing_reader TO \"x\"\"; DROP TABLE users; --@b.com\";"
    );
    assert_eq!(
        create_role_statement("x\" SUPERUSER; --@b.com", "pw"),
        "CREATE USER \"x\"\" SUPERUSER; --@b.com\" WITH PASSWORD E'pw';"
    );
}

#[test]
fn a_single_quote_in_a_password_is_doubled() {
    assert_eq!(
        create_role_statement("a@b.com", "x'; DROP ROLE admin; --"),
        "CREATE USER \"a@b.com\" WITH PASSWORD E'x''; DROP ROLE admin; --';"
    );
}

#[test]
fn a_backslash_in_a_password_is_doubled() {
    assert_eq!(
        create_role_statement("a@b.com", "a\\'b"),
        "CREATE USER \"a@b.com\" WITH PASSWORD E'a\\\\''b';"
    );
}

#[test]
fn a_name_keeps_single_quotes_and_backslashes() {
    assert_eq!(quote(Quoting::Identifier, "o'neil\\x"), "\"o'neil\\x\"");
}

#[test]
fn a_string_constant_keeps_double_quotes() {
    assert_eq!(quote(Quoting::Literal, "say \"hi\""), "E'say \"hi\"'");
}

#[test]
fn the_empty_text_is_quoted() {
    assert_eq!(quote(Quoting::Identifier, ""), "\"\"");
    assert_eq!(quote(Quoting::Literal, ""), "E''");
}

#[test]
fn a_text_of_quote_marks_only_is_quoted() {
    assert_eq!(quote(Quoting::Identifier, "\"\""), "\"\"\"\"\"\"");
    assert_eq!(quote(Quoting::Literal, "''"), "E''''''");
}

#[test]
fn characters_beyond_ascii_pass_unchanged() {
    assert_eq!(quote(Quoting::Identifier, "j\u{fc}rgen@b.com"), "\"j\u{fc}rgen@b.com\"");
    assert_eq!(quote(Quoting::Literal, "p\u{e4}ss"), "E'p\u{e4}ss'");
}

// Reads what follows an opening as a reader of statements does: a doubled
// character stands for one, and a single quote mark closes the text.
fn read_back(quoting: Quoting, input: &str) -> Option<(String, usize)> {
    let chars: Vec<char> = input.chars().collect();
    let mark = match quoting {
        Quoting::Identifier => '"',
        Quoting::Literal => '\'',
    };
    let mut text = String::new();
    let mut i = 0;
    while i < chars.len() {
        let c = chars[i];
        let doubles = c == mark || (quoting == Quoting::Literal && c == '\\');
        if doubles {
            if i + 1 < chars.len() && chars[i + 1] == c {
                text.push(c);
                i += 2;
            } else if c == mark {
                return Some((text, i + 1));
            } else {
                return None;
            }
        } else {
            text.push(c);
            i += 1;
        }
    }
    None
}

#[test]
fn a_quoted_name_reads_back_as_it_was() {
    for name in ["a@b.com", "", "\"", "x\"; DROP TABLE users; --", "\"\"\"", "a\"b\"\"c"] {
        let statement = grant_statement(name);
        let body = &statement["GRANT housing_reader TO \"".len()..];
        let (text, taken) = read_back(Quoting::Identifier, body).unwrap();
        assert_eq!(text, name);
        assert_eq!(&body[taken..], ";");
    }
}

#[test]
fn a_quoted_password_reads_back_as_it_was() {
    for password in ["Secret123", "", "'", "\\", "\\'", "'; DROP ROLE x; --", "a\\\\'b''"] {
        let quoted = quote(Quoting::Literal, password);
        let (text, taken) = read_back(Quoting::Literal, &quoted[2..]).unwrap();
        assert_eq!(text, password);
        assert_eq!(taken, quoted.len() - 2);
    }
}
