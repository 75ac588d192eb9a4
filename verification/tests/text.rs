use oauth2_dcr::{
    join_with_spaces, scopes_from_space_delimited, scopes_to_space_delimited, split_at_spaces,
    str_eq, DynamicClientRegistrationUrl, RedirectUrl, Scope,
};

#[test]
fn split_keeps_empty_pieces() {
    assert_eq!(split_at_spaces("a  b"), vec!["a", "", "b"]);
    assert_eq!(split_at_spaces(""), vec![""]);
    assert_eq!(split_at_spaces(" "), vec!["", ""]);
    assert_eq!(split_at_spaces("openid profile email"), vec!["openid", "profile", "email"]);
}

#[test]
fn join_puts_single_spaces_between() {
    assert_eq!(join_with_spaces(&vec![]), "");
    assert_eq!(join_with_spaces(&vec!["a".to_string()]), "a");
    assert_eq!(join_with_spaces(&vec!["a".to_string(), "".to_string(), "b".to_string()]), "a  b");
}

#[test]
fn join_of_split_gives_the_text_back() {
    for s in ["", " ", "a", "a b", "  x  y ", "é ü"] {
        assert_eq!(join_with_spaces(&split_at_spaces(s)), s);
    }
}

#[test]
fn split_of_join_gives_the_list_back() {
    let items = vec!["read".to_string(), "write".to_string(), "".to_string()];
    assert_eq!(split_at_spaces(&join_with_spaces(&items)), items);
}

#[test]
fn scope_lists_round_trip_through_text() {
    let scopes = scopes_from_space_delimited("openid email");
    assert_eq!(scopes, vec![Scope::new("openid".to_string()), Scope::new("email".to_string())]);
    assert_eq!(scopes_to_space_delimited(&scopes), "openid email");
}

#[test]
fn str_eq_compares_text() {
    assert!(str_eq("abc", "abc"));
    assert!(!str_eq("abc", "abd"));
    assert!(!str_eq("abc", "ab"));
}

#[test]
fn urls_are_parsed_and_normalized() {
    let u = RedirectUrl::new("HTTP://Example.COM".to_string()).unwrap();
    assert_eq!(u.url(), "http://example.com/");
    assert_eq!(u.as_str(), "HTTP://Example.COM");
    assert!(RedirectUrl::new("not a url".to_string()).is_err());
    let e = DynamicClientRegistrationUrl::new("https://Server.Example.com/reg?x=1".to_string())
        .unwrap();
    assert_eq!(e.url(), "https://server.example.com/reg?x=1");
    assert!(DynamicClientRegistrationUrl::new("/relative".to_string()).is_err());
}
