use http_engine::header::{Header, HeaderFault, Headers};

fn pairs(headers: &Headers) -> Vec<(String, Vec<u8>)> {
    headers
        .entries()
        .into_iter()
        .map(|Header { name, value }| (name, value))
        .collect()
}

fn pair(name: &str, value: &[u8]) -> (String, Vec<u8>) {
    (name.to_string(), value.to_vec())
}

#[test]
fn new_map_is_empty() {
    let headers = Headers::new();
    assert!(pairs(&headers).is_empty());
    assert!(!headers.contains_key("accept"));
    assert_eq!(headers.get("accept"), None);
}

#[test]
fn append_stores_the_name_in_lower_case() {
    let mut headers = Headers::new();
    assert_eq!(headers.append("X-Test", b"1"), Ok(()));
    assert_eq!(pairs(&headers), vec![pair("x-test", b"1")]);
}

#[test]
fn append_keeps_the_value_as_it_is() {
    let mut headers = Headers::new();
    assert_eq!(headers.append("Content-Type", b"Text/HTML; Charset=UTF-8"), Ok(()));
    assert_eq!(
        pairs(&headers),
        vec![pair("content-type", b"Text/HTML; Charset=UTF-8")]
    );
}

#[test]
fn append_twice_under_one_name_keeps_both_values() {
    let mut headers = Headers::new();
    assert_eq!(headers.append("set-cookie", b"a=1"), Ok(()));
    assert_eq!(headers.append("Set-Cookie", b"b=2"), Ok(()));
    assert_eq!(
        pairs(&headers),
        vec![pair("set-cookie", b"a=1"), pair("set-cookie", b"b=2")]
    );
}

#[test]
fn values_of_one_name_stand_together() {
    let mut headers = Headers::new();
    assert_eq!(headers.append("a", b"1"), Ok(()));
    assert_eq!(headers.append("b", b"2"), Ok(()));
    assert_eq!(headers.append("A", b"3"), Ok(()));
    assert_eq!(headers.append("c", b"4"), Ok(()));
    assert_eq!(headers.append("b", b"5"), Ok(()));
    assert_eq!(
        pairs(&headers),
        vec![
            pair("a", b"1"),
            pair("a", b"3"),
            pair("b", b"2"),
            pair("b", b"5"),
            pair("c", b"4"),
        ]
    );
}

#[test]
fn append_refuses_what_is_no_header_name() {
    let mut headers = Headers::new();
    assert_eq!(headers.append("", b"1"), Err(HeaderFault::InvalidName));
    assert_eq!(headers.append("bad name", b"1"), Err(HeaderFault::InvalidName));
    assert_eq!(headers.append("colon:", b"1"), Err(HeaderFault::InvalidName));
    assert_eq!(headers.append("quote\"", b"1"), Err(HeaderFault::InvalidName));
    assert_eq!(headers.append("(paren)", b"1"), Err(HeaderFault::InvalidName));
    assert_eq!(headers.append("caf\u{e9}", b"1"), Err(HeaderFault::InvalidName));
    assert_eq!(headers.append("line\nbreak", b"1"), Err(HeaderFault::InvalidName));
    assert!(pairs(&headers).is_empty());
}

#[test]
fn append_takes_every_token_character() {
    let mut headers = Headers::new();
    let name = "!#$%&'*+-.^_`|~0123456789abcdefghijklmnopqrstuvwxyzABCDEFGHIJKLMNOPQRSTUVWXYZ";
    assert_eq!(headers.append(name, b"v"), Ok(()));
    assert_eq!(
        pairs(&headers),
        vec![pair(
            "!#$%&'*+-.^_`|~0123456789abcdefghijklmnopqrstuvwxyzabcdefghijklmnopqrstuvwxyz",
            b"v"
        )]
    );
}

#[test]
fn append_refuses_each_character_that_is_no_token_character() {
    let allowed = "!#$%&'*+-.^_`|~";
    for code in 0u8..128 {
        let c = code as char;
        let token = c.is_ascii_alphanumeric() || allowed.contains(c);
        let mut headers = Headers::new();
        let name = format!("x{c}");
        let expected = if token { Ok(()) } else { Err(HeaderFault::InvalidName) };
        assert_eq!(headers.append(&name, b"v"), expected, "character {code}");
    }
}

#[test]
fn header_name_length_limit() {
    let longest = "a".repeat(65535);
    let too_long = "a".repeat(65536);
    let mut headers = Headers::new();
    assert_eq!(headers.append(&too_long, b"1"), Err(HeaderFault::InvalidName));
    assert_eq!(headers.append(&longest, b"1"), Ok(()));
    assert_eq!(pairs(&headers), vec![pair(&longest, b"1")]);
    assert!(headers.contains_key(&longest));
    assert!(!headers.contains_key(&too_long));
}

#[test]
fn long_names_are_lower_cased_too() {
    let name = "X-".to_string() + &"Ab".repeat(50);
    let lower = "x-".to_string() + &"ab".repeat(50);
    let mut headers = Headers::new();
    assert_eq!(headers.append(&name, b"1"), Ok(()));
    assert_eq!(pairs(&headers), vec![pair(&lower, b"1")]);
    assert_eq!(headers.get(&name), Some(b"1".to_vec()));
    assert_eq!(headers.get(&lower), Some(b"1".to_vec()));
    let broken = name.clone() + " ";
    assert_eq!(headers.get(&broken), None);
}

#[test]
fn append_refuses_a_value_with_a_control_byte() {
    let mut headers = Headers::new();
    assert_eq!(headers.append("x", b"a\nb"), Err(HeaderFault::InvalidValue));
    assert_eq!(headers.append("x", b"a\rb"), Err(HeaderFault::InvalidValue));
    assert_eq!(headers.append("x", &[0]), Err(HeaderFault::InvalidValue));
    assert_eq!(headers.append("x", &[31]), Err(HeaderFault::InvalidValue));
    assert_eq!(headers.append("x", &[127]), Err(HeaderFault::InvalidValue));
    assert!(pairs(&headers).is_empty());
}

#[test]
fn append_takes_tabs_spaces_and_high_bytes() {
    let mut headers = Headers::new();
    assert_eq!(headers.append("x", b"a\tb c"), Ok(()));
    assert_eq!(headers.append("y", &[32, 126, 128, 255]), Ok(()));
    assert_eq!(headers.append("z", b""), Ok(()));
    assert_eq!(
        pairs(&headers),
        vec![pair("x", b"a\tb c"), pair("y", &[32, 126, 128, 255]), pair("z", b"")]
    );
}

#[test]
fn each_value_byte_is_taken_or_refused() {
    for b in 0u8..=255 {
        let accepted = (b >= 32 && b != 127) || b == 9;
        let mut headers = Headers::new();
        let expected = if accepted { Ok(()) } else { Err(HeaderFault::InvalidValue) };
        assert_eq!(headers.append("x", &[b]), expected, "byte {b}");
    }
}

#[test]
fn an_invalid_name_is_reported_before_an_invalid_value() {
    let mut headers = Headers::new();
    assert_eq!(headers.append("bad name", b"a\nb"), Err(HeaderFault::InvalidName));
}

#[test]
fn get_compares_without_regard_to_case() {
    let mut headers = Headers::new();
    assert_eq!(headers.append("Content-Type", b"text/plain"), Ok(()));
    assert_eq!(headers.get("content-type"), Some(b"text/plain".to_vec()));
    assert_eq!(headers.get("CONTENT-TYPE"), Some(b"text/plain".to_vec()));
    assert_eq!(headers.get("Content-Type"), Some(b"text/plain".to_vec()));
    assert_eq!(headers.get("content-length"), None);
}

#[test]
fn get_gives_the_first_value_of_a_name() {
    let mut headers = Headers::new();
    assert_eq!(headers.append("a", b"1"), Ok(()));
    assert_eq!(headers.append("b", b"2"), Ok(()));
    assert_eq!(headers.append("a", b"3"), Ok(()));
    assert_eq!(headers.get("a"), Some(b"1".to_vec()));
    assert_eq!(headers.get("b"), Some(b"2".to_vec()));
}

#[test]
fn a_key_that_is_no_header_name_finds_nothing() {
    let mut headers = Headers::new();
    assert_eq!(headers.append("a", b"1"), Ok(()));
    assert_eq!(headers.get(""), None);
    assert_eq!(headers.get("a b"), None);
    assert_eq!(headers.get("a "), None);
    assert!(!headers.contains_key(""));
    assert!(!headers.contains_key("a:"));
}

#[test]
fn contains_key_compares_without_regard_to_case() {
    let mut headers = Headers::new();
    assert_eq!(headers.append("Host", b"example.com"), Ok(()));
    assert!(headers.contains_key("host"));
    assert!(headers.contains_key("HOST"));
    assert!(!headers.contains_key("accept"));
}

#[test]
fn clone_has_the_same_entries_and_is_independent() {
    let mut headers = Headers::new();
    assert_eq!(headers.append("a", b"1"), Ok(()));
    assert_eq!(headers.append("b", b"2"), Ok(()));
    let mut copy = headers.clone();
    assert_eq!(pairs(&copy), pairs(&headers));
    assert_eq!(copy.append("c", b"3"), Ok(()));
    assert_eq!(pairs(&headers), vec![pair("a", b"1"), pair("b", b"2")]);
    assert_eq!(
        pairs(&copy),
        vec![pair("a", b"1"), pair("b", b"2"), pair("c", b"3")]
    );
}

#[test]
fn a_full_map_refuses_and_keeps_its_entries() {
    let mut headers = Headers::new();
    let mut taken: usize = 0;
    let mut refusal = None;
    while taken < 40000 {
        let name = format!("x-{taken}");
        match headers.append(&name, b"v") {
            Ok(()) => taken += 1,
            Err(fault) => {
                refusal = Some(fault);
                break;
            }
        }
    }
    assert_eq!(refusal, Some(HeaderFault::Full));
    assert!(taken <= 32768);
    assert_eq!(headers.entries().len(), taken);
    assert_eq!(headers.append("x-0", b"w"), Err(HeaderFault::Full));
    assert_eq!(headers.entries().len(), taken);
    assert_eq!(headers.get("x-0"), Some(b"v".to_vec()));
}

fn model_append(entries: &mut Vec<(String, Vec<u8>)>, name: &str, value: &[u8]) {
    let lower = name.to_ascii_lowercase();
    let slot = match entries.iter().rposition(|(n, _)| *n == lower) {
        Some(last) => last + 1,
        None => entries.len(),
    };
    entries.insert(slot, (lower, value.to_vec()));
}

fn model_get(entries: &[(String, Vec<u8>)], key: &str) -> Option<Vec<u8>> {
    let lower = key.to_ascii_lowercase();
    entries.iter().find(|(n, _)| *n == lower).map(|(_, v)| v.clone())
}

#[test]
fn appends_in_any_order_follow_the_model() {
    let mut seed: u64 = 0x2545_f491_4f6c_dd1d;
    let mut next = move |bound: u64| {
        seed = seed.wrapping_mul(6364136223846793005).wrapping_add(1442695040888963407);
        (seed >> 33) % bound
    };
    for round in 0..40 {
        let names = 1 + next(12);
        let steps = next(60);
        let mut headers = Headers::new();
        let mut model: Vec<(String, Vec<u8>)> = Vec::new();
        for step in 0..steps {
            let n = next(names);
            let name = if next(2) == 0 { format!("X-Name-{n}") } else { format!("x-name-{n}") };
            let value = format!("{round}.{step}");
            assert_eq!(headers.append(&name, value.as_bytes()), Ok(()));
            model_append(&mut model, &name, value.as_bytes());
            assert_eq!(pairs(&headers), model, "round {round}, step {step}");
        }
        for n in 0..names + 2 {
            let key = format!("X-NAME-{n}");
            assert_eq!(headers.get(&key), model_get(&model, &key));
            assert_eq!(headers.contains_key(&key), model_get(&model, &key).is_some());
        }
        assert_eq!(pairs(&headers.clone()), model);
    }
}

#[test]
fn many_names_keep_the_order_of_their_first_appearance() {
    let mut headers = Headers::new();
    let mut model: Vec<(String, Vec<u8>)> = Vec::new();
    for i in 0..3000 {
        let name = format!("h{}", (i * 7919) % 1000);
        let value = format!("{i}");
        assert_eq!(headers.append(&name, value.as_bytes()), Ok(()));
        model_append(&mut model, &name, value.as_bytes());
    }
    assert_eq!(pairs(&headers), model);
    assert_eq!(headers.get("H0"), model_get(&model, "h0"));
}

#[test]
fn a_map_of_the_client_is_taken_as_it_is() {
    let mut map = reqwest::header::HeaderMap::new();
    map.append("content-type", reqwest::header::HeaderValue::from_static("text/plain"));
    map.append("set-cookie", reqwest::header::HeaderValue::from_static("a=1"));
    map.append("content-type", reqwest::header::HeaderValue::from_static("text/html"));
    let headers = Headers::from_map(map);
    assert_eq!(
        pairs(&headers),
        vec![
            pair("content-type", b"text/plain"),
            pair("content-type", b"text/html"),
            pair("set-cookie", b"a=1"),
        ]
    );
    assert_eq!(headers.get("Content-Type"), Some(b"text/plain".to_vec()));
}

#[test]
fn a_map_with_room_takes_every_accepted_header() {
    let mut headers = Headers::new();
    for i in 0..4096 {
        assert_eq!(headers.entries().len(), i);
        assert_eq!(headers.append(&format!("x-{}", i % 1500), b"v"), Ok(()), "header {i}");
    }
    assert_eq!(headers.entries().len(), 4096);
}
