use encrypt_canvas::codec::{decrypt, encrypt};

#[test]
fn test() {
    let str = String::from("bar");
    let cipher = encrypt(&str);
    let plaintext = decrypt(&cipher);
    println!("{:?}", cipher);
    assert_eq!(str, plaintext);
}

#[test]
fn encrypt_xors_each_byte_with_the_key() {
    // 'b' ^ 123 = 25, 'a' ^ 123 = 26, 'r' ^ 123 = 9
    assert_eq!(encrypt(&String::from("bar")), String::from("\u{19}\u{1a}\t"));
}

#[test]
fn decrypt_is_the_same_operation_as_encrypt() {
    let s = String::from("hello world");
    assert_eq!(encrypt(&s), decrypt(&s));
}

#[test]
fn round_trip_on_printable_ascii() {
    let cases = ["", " ", "hello", "world", "~!@#$%^&*()_+{}|:\"<>?", "The quick brown fox 0123456789"];
    for c in cases.iter() {
        let s = String::from(*c);
        assert_eq!(decrypt(&encrypt(&s)), s);
        assert_eq!(encrypt(&decrypt(&s)), s);
    }
}

#[test]
fn round_trip_on_every_printable_ascii_character() {
    let s: String = (0x20u8..0x7f).map(|b| b as char).collect();
    assert_eq!(decrypt(&encrypt(&s)), s);
}

#[test]
fn empty_text_stays_empty() {
    assert_eq!(encrypt(&String::new()), String::new());
}

#[test]
fn invalid_bytes_are_read_back_lossily() {
    // "é" is C3 A9; combined with the key it is B8 D2, which is not UTF-8.
    let cipher = encrypt(&String::from("é"));
    assert!(cipher.contains('\u{fffd}'));
    assert_ne!(decrypt(&cipher), String::from("é"));
}
