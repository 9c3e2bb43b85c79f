use autodeployment::dependencies::keys_of_member;
use autodeployment::json::{
    member_of_document, names_in_document, text_of_document, JsonLevel,
};
use autodeployment::provision::output_text;

fn pair(name: &str, document: &str) -> (String, Vec<u8>) {
    (name.to_string(), document.as_bytes().to_vec())
}

#[test]
fn one_level_of_a_document() {
    assert_eq!(
        JsonLevel::of(b" {\"b\": \"x\", \"a\": {\"c\": [1, 2]}, \"n\": 1.5 } "),
        JsonLevel::Members(vec![pair("a", "{\"c\": [1, 2]}"), pair("b", "\"x\""), pair("n", "1.5")])
    );
    assert_eq!(JsonLevel::of(b"{}"), JsonLevel::Members(vec![]));
    assert_eq!(JsonLevel::of(b"\"hi\\n\\u00e9\""), JsonLevel::Text("hi\n\u{e9}".to_string()));
    assert_eq!(JsonLevel::of(b"{\"a\": 1, \"a\": 2}"), JsonLevel::Members(vec![pair("a", "2")]));
    for other in ["[1]", "1", "true", "null", "", "nope", "{\"a\": 1} x", "{\"a\"}", "{a: 1}"] {
        assert_eq!(JsonLevel::of(other.as_bytes()), JsonLevel::Other, "{:?}", other);
    }
    assert_eq!(JsonLevel::of(&[0xff, 0xfe]), JsonLevel::Other);
}

#[test]
fn lookups_in_a_level() {
    let level = JsonLevel::of(b"{\"b\": \"x\", \"a\": 7}");
    assert_eq!(level.member("a"), Some(&b"7".to_vec()));
    assert_eq!(level.member("b"), Some(&b"\"x\"".to_vec()));
    assert_eq!(level.member("c"), None);
    assert_eq!(level.names(), Some(vec!["a".to_string(), "b".to_string()]));
    assert_eq!(level.text(), None);
    let text = JsonLevel::Text("t".to_string());
    assert_eq!(text.member("a"), None);
    assert_eq!(text.names(), None);
    assert_eq!(text.text(), Some("t".to_string()));
    assert_eq!(JsonLevel::Other.member("a"), None);
    assert_eq!(JsonLevel::Other.names(), None);
    assert_eq!(JsonLevel::Other.text(), None);
}

#[test]
fn lookups_in_a_document() {
    let document = b"{\"dependencies\": {\"z\": \"1\", \"a\": \"2\"}, \"name\": \"app\", \"list\": [1]}";
    assert_eq!(member_of_document(document, "name"), Some(b"\"app\"".to_vec()));
    assert_eq!(member_of_document(document, "missing"), None);
    assert_eq!(member_of_document(b"[1]", "name"), None);
    assert_eq!(
        names_in_document(document),
        Some(vec!["dependencies".to_string(), "list".to_string(), "name".to_string()])
    );
    assert_eq!(names_in_document(b"\"x\""), None);
    assert_eq!(text_of_document(b"\"app\""), Some("app".to_string()));
    assert_eq!(text_of_document(b"7"), None);
    assert_eq!(
        keys_of_member(document, "dependencies"),
        Some(vec!["a".to_string(), "z".to_string()])
    );
    assert_eq!(keys_of_member(document, "name"), None);
    assert_eq!(keys_of_member(document, "list"), None);
    assert_eq!(keys_of_member(document, "devDependencies"), None);
    assert_eq!(keys_of_member(b"not json", "dependencies"), None);
}

#[test]
fn answers_for_an_output() {
    let document = b"{\"ip\": {\"value\": \"1.2.3.4\", \"type\": \"string\"}, \"n\": {\"value\": 3}, \"bare\": \"x\", \"empty\": {}}".to_vec();
    assert_eq!(output_text(&document, "ip", "value"), Some(Some("1.2.3.4".to_string())));
    assert_eq!(output_text(&document, "ip", "type"), Some(Some("string".to_string())));
    assert_eq!(output_text(&document, "n", "value"), Some(None));
    assert_eq!(output_text(&document, "bare", "value"), Some(None));
    assert_eq!(output_text(&document, "empty", "value"), Some(None));
    assert_eq!(output_text(&document, "missing", "value"), None);
    assert_eq!(output_text(&b"[]".to_vec(), "ip", "value"), None);
    assert_eq!(output_text(&b"".to_vec(), "ip", "value"), None);
}
