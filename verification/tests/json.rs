use oauth2_dcr::{
    dynamic_client_registration_impl, encode_json_object, encode_string_array, BodyValue,
    ClientName, DynamicClientRegistrationUrl,
};

#[test]
fn empty_array_and_object() {
    assert_eq!(encode_string_array(&vec![]), b"[]".to_vec());
    assert_eq!(encode_json_object(&vec![]), b"{}".to_vec());
}

#[test]
fn arrays_are_comma_separated_string_literals() {
    let items = vec!["a".to_string(), "b\"c".to_string(), "".to_string()];
    assert_eq!(
        String::from_utf8(encode_string_array(&items)).unwrap(),
        r#"["a","b\"c",""]"#
    );
}

#[test]
fn objects_keep_member_order_and_raw_text() {
    let members = vec![
        ("z".to_string(), BodyValue::Str("1".to_string())),
        ("a".to_string(), BodyValue::StrList(vec!["x".to_string()])),
        ("k\ty".to_string(), BodyValue::Raw(b"{\"n\":2}".to_vec())),
    ];
    assert_eq!(
        String::from_utf8(encode_json_object(&members)).unwrap(),
        r#"{"z":"1","a":["x"],"k\ty":{"n":2}}"#
    );
}

#[test]
fn body_members_are_listed_in_field_order() {
    let url = DynamicClientRegistrationUrl::new("https://as.example/reg".to_string()).unwrap();
    let req = dynamic_client_registration_impl(ClientName::new("c".to_string()), &url)
        .set_software_id("s")
        .add_extra_param("e", "1")
        .set_logo_uri("https://l.example");
    let names: Vec<String> = req
        .registration_body_members(Some(b"[]".to_vec()))
        .into_iter()
        .map(|(n, _)| n)
        .collect();
    assert_eq!(names, vec!["client_name", "logo_uri", "jwks", "software_id", "e"]);
}
