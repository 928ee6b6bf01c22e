use filmtrack::encoding::file_as_base64;
use filmtrack::import_log::{log_file_name, log_line};

fn encoded(bytes: &[u8]) -> String {
    let answer = file_as_base64(bytes);
    assert!(answer.success);
    assert_eq!(answer.error, None);
    answer.data.unwrap()
}

#[test]
fn the_standard_test_vectors() {
    assert_eq!(encoded(b""), "");
    assert_eq!(encoded(b"f"), "Zg==");
    assert_eq!(encoded(b"fo"), "Zm8=");
    assert_eq!(encoded(b"foo"), "Zm9v");
    assert_eq!(encoded(b"foob"), "Zm9vYg==");
    assert_eq!(encoded(b"fooba"), "Zm9vYmE=");
    assert_eq!(encoded(b"foobar"), "Zm9vYmFy");
}

#[test]
fn the_last_two_symbols_are_plus_and_slash() {
    assert_eq!(encoded(&[0xfb, 0xff]), "+/8=");
    assert_eq!(encoded(&[0xff, 0xff, 0xff]), "////");
    assert_eq!(encoded(&[0xf8]), "+A==");
    assert_eq!(encoded(&[0, 0, 0]), "AAAA");
}

#[test]
fn every_byte_value_is_encoded() {
    let all: Vec<u8> = (0..=255).collect();
    let text = encoded(&all);
    assert_eq!(text.len(), 344);
    assert!(text.starts_with("AAECAwQFBgcICQoLDA0ODw=="[..20].as_ref() as &str));
    assert!(text.ends_with("/P3+/w=="));
}

#[test]
fn the_log_file_is_named_after_the_session() {
    assert_eq!(log_file_name("20240301_083000"), "douban_import_20240301_083000.txt");
    assert_eq!(log_file_name(""), "douban_import_.txt");
}

#[test]
fn a_log_line_carries_the_time_and_the_message() {
    assert_eq!(
        log_line("2024-03-01 08:30:00", "imported 15 records"),
        "[2024-03-01 08:30:00] imported 15 records\n"
    );
    assert_eq!(log_line("", ""), "[] \n");
}
