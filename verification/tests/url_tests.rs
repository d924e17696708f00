use wikirandom::url::encode_unsafe_url_chars;

#[test]
fn test_no_change_safe_url() {
    let url = "https://wikicat.com";
    let encoded = encode_unsafe_url_chars(&url);
    assert_eq!(encoded, String::from(url));
}

#[test]
fn test_encoded_url_space() {
    let url = " ";
    let encoded = encode_unsafe_url_chars(url);
    assert_eq!(encoded, String::from("%20"));
}

#[test]
fn test_encoded_url_other_chars() {
    let url = "êëè";
    let encoded = encode_unsafe_url_chars(url);
    assert_eq!(encoded, String::from("%C3%AA%C3%AB%C3%A8"));
}

#[test]
fn test_encoded_url_every_unsafe_ascii() {
    let url = "a b<c>d[e]f{g}h|i\\j^k";
    let encoded = encode_unsafe_url_chars(url);
    assert_eq!(encoded, "a%20b%3Cc%3Ed%5Be%5Df%7Bg%7Dh%7Ci%5Cj%5Ek");
}

#[test]
fn test_encoded_url_controls() {
    let url = "\u{1}\t\n\u{7f}";
    let encoded = encode_unsafe_url_chars(url);
    assert_eq!(encoded, "%01%09%0A%7F");
}

#[test]
fn test_encoded_url_empty() {
    assert_eq!(encode_unsafe_url_chars(""), "");
}
