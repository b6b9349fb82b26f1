//! What the definition provider is asked, and through which of its endpoints.
use vstd::prelude::*;
use vstd::utf8::{decode_utf8, encode_utf8, valid_utf8};

verus! {

/// The input of the definition provider that answers requests for a version.
pub const API_CONSUMER_INPUT_ID: &'static str = "definition_by_version";

/// The output of the definition provider that streams the latest definition.
pub const API_CONSUMER_OUTPUT_ID: &'static str = "latest_definition";

/// The text of a request for the definition of `version`, authenticated by `token`:
/// a JSON object whose header names the element, the action and the token, and whose
/// body names the version. The token and the version are placed as they are.
pub open spec fn by_version_request_text(token: Seq<char>, version: Seq<char>) -> Seq<char> {
    "{\"header\": {\n                \"element\": \"definition\",\n                \"action\": \"get\",\n                \"token\": \""@
        + token + "\" \n            },\n            \"version\": \""@ + version
        + "\"\n        }"@
}

/// The bytes of the request for the definition of `version`, authenticated by `token`:
/// the UTF-8 encoding of `by_version_request_text(token, version)`.
pub fn find_by_version_request(version: &str, token: &str) -> (request: Vec<u8>)
    ensures
        request@ == encode_utf8(by_version_request_text(token@, version@)),
        request@ == encode_utf8(
            "{\"header\": {\n                \"element\": \"definition\",\n                \"action\": \"get\",\n                \"token\": \""@ + token@ + "\" \n            },\n            \"version\": \""@ + version@ + "\"\n        }"@,
        ),
        decode_utf8(request@) == by_version_request_text(token@, version@),
{
    let mut json_request = "{\"header\": {\n                \"element\": \"definition\",\n                \"action\": \"get\",\n                \"token\": \"".to_owned();
    json_request.append(token);
    json_request.append("\" \n            },\n            \"version\": \"");
    json_request.append(version);
    json_request.append("\"\n        }");
    let request = json_request.as_str().as_bytes_vec();
    proof {
        lemma_request_decodes_to_text(token@, version@);
    }
    request
}

/// The request bytes are valid UTF-8 and decode back to the request text, so the
/// provider reads exactly the token and version that were given.
pub proof fn lemma_request_decodes_to_text(token: Seq<char>, version: Seq<char>)
    ensures
        valid_utf8(encode_utf8(by_version_request_text(token, version))),
        decode_utf8(encode_utf8(by_version_request_text(token, version)))
            == by_version_request_text(token, version),
{
    vstd::utf8::encode_utf8_valid_utf8(by_version_request_text(token, version));
    vstd::utf8::encode_utf8_decode_utf8(by_version_request_text(token, version));
}

/// The request text holds the given token and the given version whole and unchanged,
/// whatever their lengths, between fixed pieces: the header up to the token's opening
/// quote, the text between the token's closing quote and the version's opening quote,
/// and the closing of the object. Nothing else is in it.
pub proof fn lemma_request_carries_token_and_version_verbatim(
    token: Seq<char>,
    version: Seq<char>,
)
    ensures
        ({
            let text = by_version_request_text(token, version);
            let head = "{\"header\": {\n                \"element\": \"definition\",\n                \"action\": \"get\",\n                \"token\": \""@;
            let middle = "\" \n            },\n            \"version\": \""@;
            let tail = "\"\n        }"@;
            let token_end = head.len() + token.len();
            let version_start = token_end + middle.len();
            let version_end = version_start + version.len();
            &&& text.len() == version_end + tail.len()
            &&& text.subrange(0, head.len() as int) == head
            &&& text.subrange(head.len() as int, token_end as int) == token
            &&& text.subrange(token_end as int, version_start as int) == middle
            &&& text.subrange(version_start as int, version_end as int) == version
            &&& text.subrange(version_end as int, text.len() as int) == tail
        }),
{
    let text = by_version_request_text(token, version);
    let head = "{\"header\": {\n                \"element\": \"definition\",\n                \"action\": \"get\",\n                \"token\": \""@;
    let middle = "\" \n            },\n            \"version\": \""@;
    let tail = "\"\n        }"@;
    let token_end = head.len() + token.len();
    let version_start = token_end + middle.len();
    let version_end = version_start + version.len();
    assert(text =~= head + token + middle + version + tail);
    assert(text.subrange(0, head.len() as int) =~= head);
    assert(text.subrange(head.len() as int, token_end as int) =~= token);
    assert(text.subrange(token_end as int, version_start as int) =~= middle);
    assert(text.subrange(version_start as int, version_end as int) =~= version);
    assert(text.subrange(version_end as int, text.len() as int) =~= tail);
}

} // verus!
