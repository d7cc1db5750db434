use wgsocks::config::decode_base64;
use wgsocks::config::decode_base64_key;
use wgsocks::config::key_from_octets;
use wgsocks::config::try_decode_base64_key;
use wgsocks::config::Endpoint;

const KEY: &str = "AAECAwQFBgcICQoLDA0ODxAREhMUFRYXGBkaGxwdHh8=";

fn counting() -> [u8; 32] {
    let mut key = [0u8; 32];
    for i in 0..32 {
        key[i] = i as u8;
    }
    key
}

#[test]
fn key_is_decoded() {
    assert_eq!(decode_base64_key(KEY), counting());
    assert_eq!(try_decode_base64_key(KEY), Some(counting()));
}

#[test]
fn octets_are_decoded() {
    assert_eq!(decode_base64(""), Some(vec![]));
    assert_eq!(decode_base64("AQID"), Some(vec![1, 2, 3]));
    assert_eq!(decode_base64("//8="), Some(vec![255, 255]));
}

#[test]
fn encoding_is_undone() {
    for n in 0..100u8 {
        let octets: Vec<u8> = (0..n).map(|i| i.wrapping_mul(37).wrapping_add(n)).collect();
        assert_eq!(decode_base64(&base64::encode(&octets)), Some(octets));
    }
    let key = [0xf7; 32];
    assert_eq!(decode_base64_key(&base64::encode(key)), key);
}

#[test]
fn key_has_one_text() {
    let text = base64::encode(counting());
    assert_eq!(text.len(), 44);
    for last in "ABCDEFGHIJKLMNOPQRSTUVWXYZabcdefghijklmnopqrstuvwxyz0123456789+/".chars() {
        let other = format!("{}{}=", &text[..42], last);
        match try_decode_base64_key(&other) {
            Some(key) => assert_eq!(base64::encode(key), other),
            None => assert_ne!(other, text),
        }
    }
}

#[test]
fn text_outside_base64_is_no_key() {
    assert_eq!(decode_base64("not base64!"), None);
    assert_eq!(try_decode_base64_key("not base64!"), None);
    assert_eq!(try_decode_base64_key("é"), None);
}

#[test]
fn url_alphabet_is_not_standard() {
    assert_eq!(decode_base64("__8="), None);
}

#[test]
fn key_of_another_length_is_none() {
    assert_eq!(try_decode_base64_key("AAECAwQFBgcICQoLDA0ODw=="), None);
    assert_eq!(try_decode_base64_key("AAECAwQFBgcICQoLDA0ODxAREhMUFRYXGBkaGxwdHh8g"), None);
    assert_eq!(try_decode_base64_key(""), None);
}

#[test]
fn key_has_as_many_octets() {
    assert_eq!(key_from_octets(&counting().to_vec()), Some(counting()));
    assert_eq!(key_from_octets(&vec![0; 31]), None);
    assert_eq!(key_from_octets(&vec![0; 33]), None);
}

#[test]
fn local_address_is_of_the_same_family() {
    let v4 = Endpoint::V4 { octets: [192, 0, 2, 1], port: 51820 };
    let v6 = Endpoint::V6 { segments: [0; 8], port: 51820, flowinfo: 0, scope_id: 0 };
    assert!(v4.is_ipv4());
    assert!(!v6.is_ipv4());
    assert_eq!(v4.local_address(), "0.0.0.0:0");
    assert_eq!(v6.local_address(), "[::]:0");
}
