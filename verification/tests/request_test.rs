use cooplan_definition_consumer::storage::elements::amqp_definition::{
    find_by_version_request, API_CONSUMER_INPUT_ID, API_CONSUMER_OUTPUT_ID,
};

fn expected(version: &str, token: &str) -> Vec<u8> {
    let json_request = format!(
        "{{\
            \"header\": {{
                \"element\": \"definition\",
                \"action\": \"get\",
                \"token\": \"{}\" 
            }},
            \"version\": \"{}\"
        }}",
        token, version
    );
    json_request.into_bytes()
}

#[test]
fn request_for_a_version_is_the_expected_json() {
    let request = find_by_version_request("6bc4697553f0511780480ddae602a636802d3cdc", "secret");
    assert_eq!(
        request,
        expected("6bc4697553f0511780480ddae602a636802d3cdc", "secret")
    );
    let text = String::from_utf8(request).unwrap();
    assert_eq!(
        text,
        "{\"header\": {\n                \"element\": \"definition\",\n                \"action\": \"get\",\n                \"token\": \"secret\" \n            },\n            \"version\": \"6bc4697553f0511780480ddae602a636802d3cdc\"\n        }"
    );
}

#[test]
fn request_places_token_and_version_verbatim() {
    let request = find_by_version_request("v\u{e9}rsion", "t\"k");
    assert_eq!(request, expected("v\u{e9}rsion", "t\"k"));
    let empty = find_by_version_request("", "");
    assert_eq!(empty, expected("", ""));
}

#[test]
fn request_text_decodes_back() {
    let request = find_by_version_request("1.0", "abc");
    let text = String::from_utf8(request).unwrap();
    assert!(text.contains("\"token\": \"abc\" "));
    assert!(text.contains("\"version\": \"1.0\""));
}

#[test]
fn provider_endpoints() {
    assert_eq!(API_CONSUMER_INPUT_ID, "definition_by_version");
    assert_eq!(API_CONSUMER_OUTPUT_ID, "latest_definition");
}
