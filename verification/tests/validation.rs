use user_accounts::validation::is_valid_email;

#[test]
fn accepts_a_short_address() {
    assert!(is_valid_email("a@b.com"));
}

#[test]
fn accepts_the_shortest_address() {
    assert!(is_valid_email("a@b.cd"));
}

#[test]
fn accepts_dots_in_both_parts() {
    assert!(is_valid_email("first.last@mail.example.org"));
}

#[test]
fn rejects_a_text_without_at_sign() {
    assert!(!is_valid_email("noat.com"));
}

#[test]
fn rejects_a_domain_without_dot() {
    assert!(!is_valid_email("a@b"));
    assert!(!is_valid_email("someone@localhost"));
}

#[test]
fn rejects_a_domain_of_three_bytes() {
    assert!(!is_valid_email("x@y.c"));
    assert!(!is_valid_email("name@y.c"));
}

#[test]
fn rejects_an_empty_local_part() {
    assert!(!is_valid_email("@missing.com"));
}

#[test]
fn rejects_an_empty_domain() {
    assert!(!is_valid_email("trailing@"));
}

#[test]
fn rejects_two_at_signs() {
    assert!(!is_valid_email("a@@b.com"));
    assert!(!is_valid_email("a@b@c.com"));
    assert!(!is_valid_email("a@b.com@"));
}

#[test]
fn rejects_a_dot_at_either_end_of_the_domain() {
    assert!(!is_valid_email("a@.bcom"));
    assert!(!is_valid_email("a@bcom."));
    assert!(!is_valid_email("a@.b.com"));
}

#[test]
fn rejects_the_empty_text() {
    assert!(!is_valid_email(""));
}

#[test]
fn counts_length_in_bytes() {
    // Two characters in front of the domain, three bytes.
    assert!(is_valid_email("\u{e9}@b.cd"));
    // The domain is three characters and four bytes.
    assert!(is_valid_email("ab@\u{e9}.c"));
    // Five bytes in all.
    assert!(!is_valid_email("@a.bc"));
}

#[test]
fn a_dot_in_front_of_the_at_sign_is_no_dot_of_the_domain() {
    assert!(!is_valid_email("a.b@cdef"));
}
