use bms_data::jsonlist::{decode_string_list, decode_or_empty, encode_string_list};

fn strings(items: &[&str]) -> Vec<String> {
    items.iter().map(|s| s.to_string()).collect()
}

#[test]
fn encode_empty_list() {
    assert_eq!(encode_string_list(&Vec::new()), "[]");
}

#[test]
fn encode_two_items() {
    assert_eq!(encode_string_list(&strings(&["R1", "R2"])), "[\"R1\",\"R2\"]");
}

#[test]
fn encode_matches_reference_encoder() {
    let cases: Vec<Vec<String>> = vec![
        strings(&[]),
        strings(&["R1", "R2"]),
        strings(&["a\"b", "back\\slash", "line\nbreak", "tab\there"]),
        strings(&["control\u{1}char", "café", "日本語"]),
        strings(&[""]),
    ];
    for case in cases {
        let ours = encode_string_list(&case);
        let reference = serde_json::to_string(&case).unwrap();
        assert_eq!(ours, reference);
    }
}

#[test]
fn decode_inverts_encode() {
    let cases: Vec<Vec<String>> = vec![
        strings(&[]),
        strings(&["R1", "R2"]),
        strings(&["a\"b", "back\\slash", "line\nbreak"]),
        strings(&["control\u{1}char", "tab\there", "ret\rhere", "ff\u{c}bs\u{8}"]),
        strings(&["café", "日本語", ""]),
    ];
    for case in cases {
        let encoded = encode_string_list(&case);
        let decoded = decode_string_list(&encoded).expect("canonical encoding must decode");
        assert_eq!(decoded, case);
    }
}

#[test]
fn decode_reads_reference_output() {
    let case = strings(&["a\"b", "x\\y", "new\nline", "bell\u{7}", "ünïcode"]);
    let reference = serde_json::to_string(&case).unwrap();
    let decoded = decode_string_list(&reference).expect("reference encoding must decode");
    assert_eq!(decoded, case);
}

#[test]
fn decode_accepts_escapes() {
    let decoded = decode_string_list("[\"a\\u0041\\/\\\"\"]").unwrap();
    assert_eq!(decoded, strings(&["aA/\""]));
}

#[test]
fn decode_accepts_whitespace() {
    assert_eq!(decode_string_list("[ \"a\" ,\t\"b\" ]").unwrap(), strings(&["a", "b"]));
    assert_eq!(decode_string_list("  [ ]\n").unwrap(), Vec::<String>::new());
    assert_eq!(decode_string_list(" [\"R1\",\"R2\"] ").unwrap(), strings(&["R1", "R2"]));
    // The reference decoder agrees on these inputs.
    let via_reference: Vec<String> = serde_json::from_str("[ \"a\" ,\t\"b\" ]").unwrap();
    assert_eq!(via_reference, strings(&["a", "b"]));
}

#[test]
fn decode_accepts_basic_plane_escapes() {
    assert_eq!(decode_string_list("[\"\\u3042\"]").unwrap(), strings(&["\u{3042}"]));
    assert_eq!(decode_string_list("[\"\\uD7FF\\uE000\"]").unwrap(), strings(&["\u{d7ff}\u{e000}"]));
}

#[test]
fn decode_rejects_surrogate_escapes() {
    assert!(decode_string_list("[\"\\ud83d\\ude00\"]").is_none());
    assert!(decode_string_list("[\"\\uDC00\"]").is_none());
}

#[test]
fn decode_rejects_malformed() {
    assert!(decode_string_list("not json").is_none());
    assert!(decode_string_list("").is_none());
    assert!(decode_string_list("[").is_none());
    assert!(decode_string_list("[\"a\"").is_none());
    assert!(decode_string_list("[\"a\",]").is_none());
    assert!(decode_string_list("[1,2]").is_none());
    assert!(decode_string_list("[\"a\"]trailing").is_none());
    assert!(decode_string_list("[\"bad\\escape\"]").is_none());
}

#[test]
fn decode_or_empty_degrades() {
    assert_eq!(decode_or_empty("not json"), Vec::<String>::new());
    assert_eq!(decode_or_empty("[\"R1\"]"), strings(&["R1"]));
}
