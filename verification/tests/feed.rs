use launcher_core::decode_news_body;
use launcher_core::process_response;
use launcher_core::FetchError;

#[test]
fn decodes_single_item_exactly() {
    let body = "{\"updates\":[{\"update_key\":\"A\",\"update_value\":\"B\",\"additional_info\":\"C\"}]}";
    let items = decode_news_body(body).unwrap();
    assert_eq!(items.len(), 1);
    assert_eq!(items[0].update_key, "A");
    assert_eq!(items[0].update_value, "B");
    assert_eq!(items[0].additional_info, "C");
}

#[test]
fn decodes_items_in_order() {
    let body = "{\"updates\":[\
        {\"update_key\":\"first\",\"update_value\":\"one\",\"additional_info\":\"x\"},\
        {\"update_key\":\"second\",\"update_value\":\"two\",\"additional_info\":\"y\"}]}";
    let items = decode_news_body(body).unwrap();
    assert_eq!(items.len(), 2);
    assert_eq!(items[0].update_key, "first");
    assert_eq!(items[1].update_key, "second");
}

#[test]
fn decodes_empty_update_list() {
    let items = decode_news_body("{\"updates\":[]}").unwrap();
    assert!(items.is_empty());
}

#[test]
fn tolerates_whitespace_and_member_order() {
    let body = " { \"updates\" : [ {\n\t\"additional_info\" : \"C\" ,\
        \"update_value\" : \"B\" , \"update_key\" : \"A\" } ] } \n";
    let items = decode_news_body(body).unwrap();
    assert_eq!(items.len(), 1);
    assert_eq!(items[0].update_key, "A");
    assert_eq!(items[0].update_value, "B");
    assert_eq!(items[0].additional_info, "C");
}

#[test]
fn decodes_escapes_in_strings() {
    let body = "{\"updates\":[{\"update_key\":\"a\\\"b\",\"update_value\":\"c\\\\d\\r\",\
        \"additional_info\":\"e\\nf\\t\\/\\b\\f\"}]}";
    let items = decode_news_body(body).unwrap();
    assert_eq!(items[0].update_key, "a\"b");
    assert_eq!(items[0].update_value, "c\\d\r");
    assert_eq!(items[0].additional_info, "e\nf\t/\u{8}\u{c}");
}

#[test]
fn unicode_escapes_are_not_part_of_the_format() {
    let body = "{\"updates\":[{\"update_key\":\"\\u0041\",\"update_value\":\"B\",\
        \"additional_info\":\"C\"}]}";
    assert_eq!(decode_news_body(body), Err(FetchError::Decode));
}

#[test]
fn raw_non_ascii_text_passes_through() {
    let body = "{\"updates\":[{\"update_key\":\"Новости\",\"update_value\":\"запуск\",\
        \"additional_info\":\"ok\"}]}";
    let items = decode_news_body(body).unwrap();
    assert_eq!(items[0].update_key, "Новости");
    assert_eq!(items[0].update_value, "запуск");
}

#[test]
fn repeated_member_keeps_last_value() {
    let body = "{\"updates\":[{\"update_key\":\"old\",\"update_key\":\"new\",\
        \"update_value\":\"B\",\"additional_info\":\"C\"}]}";
    let items = decode_news_body(body).unwrap();
    assert_eq!(items[0].update_key, "new");
}

#[test]
fn missing_updates_key_is_decode_error() {
    assert_eq!(decode_news_body("{\"other\":[]}"), Err(FetchError::Decode));
    assert_eq!(decode_news_body("{}"), Err(FetchError::Decode));
}

#[test]
fn entry_missing_update_value_is_decode_error() {
    let body = "{\"updates\":[{\"update_key\":\"A\",\"additional_info\":\"C\"}]}";
    assert_eq!(decode_news_body(body), Err(FetchError::Decode));
}

#[test]
fn no_partial_item_survives_a_bad_entry() {
    let body = "{\"updates\":[\
        {\"update_key\":\"A\",\"update_value\":\"B\",\"additional_info\":\"C\"},\
        {\"update_key\":\"D\"}]}";
    assert_eq!(decode_news_body(body), Err(FetchError::Decode));
}

#[test]
fn malformed_bodies_are_decode_errors() {
    assert_eq!(decode_news_body(""), Err(FetchError::Decode));
    assert_eq!(decode_news_body("not json"), Err(FetchError::Decode));
    assert_eq!(decode_news_body("{\"updates\":["), Err(FetchError::Decode));
    assert_eq!(decode_news_body("{\"updates\":[]} trailing"), Err(FetchError::Decode));
    assert_eq!(
        decode_news_body("{\"updates\":[{\"update_key\":\"A\\q\",\"update_value\":\"B\",\"additional_info\":\"C\"}]}"),
        Err(FetchError::Decode)
    );
}

#[test]
fn non_success_status_reports_the_code() {
    assert_eq!(
        process_response(404, "{\"updates\":[]}"),
        Err(FetchError::HttpStatus(404))
    );
    assert_eq!(
        process_response(500, "irrelevant"),
        Err(FetchError::HttpStatus(500))
    );
}

#[test]
fn success_status_decodes_the_body() {
    let items = process_response(200, "{\"updates\":[]}").unwrap();
    assert!(items.is_empty());
    assert_eq!(process_response(200, "nope"), Err(FetchError::Decode));
}
