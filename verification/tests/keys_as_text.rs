use dawn_android::canonical::{comes_first, in_canonical_order};
use dawn_android::crypto::{hash_reply, sym_key_reply};
use dawn_android::decimal::{integer_text, natural_text};
use dawn_android::failure::{Argument, Failure};
use dawn_android::handles::gen_handle_reply;
use dawn_android::host::{
    bytes_argument, file_argument, key_argument, message_type, optional_bytes_argument,
    optional_key_argument, optional_text_argument, text_argument,
};

fn text(s: &str) -> Option<String> {
    Some(s.to_string())
}

#[test]
fn hex_text_of_bytes_is_lower_case_two_digits_per_byte() {
    assert_eq!(sym_key_reply(&[1, 2, 3, 15, 16]), "0102030f10");
    assert_eq!(sym_key_reply(&[0x00, 0x7f, 0x80, 0xff]), "007f80ff");
    assert_eq!(hash_reply(&[0xf9, 0xb4, 0xca]), "f9b4ca");
    assert_eq!(sym_key_reply(b"Hello world!"), "48656c6c6f20776f726c6421");
}

#[test]
fn hex_text_of_no_bytes_is_empty() {
    assert_eq!(sym_key_reply(&[]), "");
}

#[test]
fn key_is_read_from_lower_upper_and_mixed_case() {
    assert_eq!(key_argument(text("f9b4ca"), Argument::Key), Ok(vec![0xf9, 0xb4, 0xca]));
    assert_eq!(key_argument(text("F9B4CA"), Argument::Key), Ok(vec![0xf9, 0xb4, 0xca]));
    assert_eq!(key_argument(text("f9B4Ca"), Argument::Key), Ok(vec![0xf9, 0xb4, 0xca]));
    assert_eq!(key_argument(text("0001ff"), Argument::Key), Ok(vec![0x00, 0x01, 0xff]));
}

#[test]
fn empty_text_is_the_empty_key() {
    assert_eq!(key_argument(text(""), Argument::PfsKey), Ok(vec![]));
}

#[test]
fn key_of_odd_length_is_invalid() {
    assert_eq!(
        key_argument(text("123"), Argument::PfsSalt),
        Err(Failure::InvalidKey(Argument::PfsSalt))
    );
    assert_eq!(key_argument(text("a"), Argument::KeyA), Err(Failure::InvalidKey(Argument::KeyA)));
}

#[test]
fn key_with_other_characters_is_invalid() {
    assert_eq!(key_argument(text("66ag"), Argument::Key), Err(Failure::InvalidKey(Argument::Key)));
    assert_eq!(
        key_argument(text("666f 6f62617"), Argument::Key),
        Err(Failure::InvalidKey(Argument::Key))
    );
    assert_eq!(key_argument(text("0x10"), Argument::Key), Err(Failure::InvalidKey(Argument::Key)));
    assert_eq!(key_argument(text("foo"), Argument::Key), Err(Failure::InvalidKey(Argument::Key)));
}

#[test]
fn key_with_characters_outside_ascii_is_invalid() {
    assert_eq!(
        key_argument(text("\u{e9}"), Argument::Key),
        Err(Failure::InvalidKey(Argument::Key))
    );
    assert_eq!(
        key_argument(text("\u{e9}\u{e9}"), Argument::Key),
        Err(Failure::InvalidKey(Argument::Key))
    );
    assert_eq!(
        key_argument(text("a\u{e9}b"), Argument::Key),
        Err(Failure::InvalidKey(Argument::Key))
    );
    assert_eq!(
        key_argument(text("\u{ff11}\u{ff12}"), Argument::Key),
        Err(Failure::InvalidKey(Argument::Key))
    );
}

#[test]
fn key_that_could_not_be_read_is_unreadable() {
    assert_eq!(key_argument(None, Argument::OwnSeckeySig), Err(Failure::Unreadable(Argument::OwnSeckeySig)));
}

#[test]
fn reported_key_reads_back_as_the_same_bytes() {
    let keys: Vec<Vec<u8>> = vec![
        vec![],
        vec![0],
        vec![0xff],
        vec![0x0a, 0xa0, 0x10, 0x01],
        (0..=255u8).collect(),
    ];
    for key in keys {
        let reported = sym_key_reply(&key);
        assert_eq!(reported.len(), 2 * key.len());
        assert_eq!(key_argument(Some(reported), Argument::Key), Ok(key));
    }
}

#[test]
fn optional_key_is_none_for_the_empty_text() {
    assert_eq!(optional_key_argument(text(""), Argument::RemotePubkeySig), Ok(None));
    assert_eq!(
        optional_key_argument(text("00ab"), Argument::RemotePubkeySig),
        Ok(Some(vec![0x00, 0xab]))
    );
    assert_eq!(
        optional_key_argument(text("0"), Argument::RemotePubkeySig),
        Err(Failure::InvalidKey(Argument::RemotePubkeySig))
    );
    assert_eq!(
        optional_key_argument(None, Argument::RemotePubkeySig),
        Err(Failure::Unreadable(Argument::RemotePubkeySig))
    );
}

#[test]
fn text_argument_is_handed_on_as_it_is() {
    assert_eq!(text_argument(text("Alice"), Argument::Name), Ok("Alice".to_string()));
    assert_eq!(text_argument(text(""), Argument::Name), Ok(String::new()));
    assert_eq!(text_argument(None, Argument::Name), Err(Failure::Unreadable(Argument::Name)));
}

#[test]
fn optional_text_is_none_for_the_empty_text() {
    assert_eq!(optional_text_argument(text(""), Argument::MsgString), Ok(None));
    assert_eq!(
        optional_text_argument(text("hi"), Argument::MsgString),
        Ok(Some("hi".to_string()))
    );
    assert_eq!(
        optional_text_argument(None, Argument::MsgString),
        Err(Failure::Unreadable(Argument::MsgString))
    );
}

#[test]
fn bytes_arguments_are_handed_on_as_they_are() {
    assert_eq!(bytes_argument(Some(vec![1, 2]), Argument::Handle), Ok(vec![1, 2]));
    assert_eq!(bytes_argument(Some(vec![]), Argument::Handle), Ok(vec![]));
    assert_eq!(bytes_argument(None, Argument::Handle), Err(Failure::Unreadable(Argument::Handle)));
    assert_eq!(optional_bytes_argument(Some(vec![]), Argument::MsgBytes), Ok(None));
    assert_eq!(optional_bytes_argument(Some(vec![0]), Argument::MsgBytes), Ok(Some(vec![0])));
    assert_eq!(
        optional_bytes_argument(None, Argument::MsgBytes),
        Err(Failure::Unreadable(Argument::MsgBytes))
    );
    assert_eq!(file_argument(Some(vec![9]), Argument::File), Ok(vec![9]));
    assert_eq!(file_argument(None, Argument::File), Err(Failure::UnreadableFile(Argument::File)));
}

#[test]
fn message_type_must_fit_in_a_byte() {
    assert_eq!(message_type(0), Ok(0));
    assert_eq!(message_type(7), Ok(7));
    assert_eq!(message_type(255), Ok(255));
    assert_eq!(message_type(256), Err(Failure::InvalidMessageType(256)));
    assert_eq!(message_type(-1), Err(Failure::InvalidMessageType(-1)));
    assert_eq!(message_type(i16::MAX), Err(Failure::InvalidMessageType(i16::MAX)));
    assert_eq!(message_type(i16::MIN), Err(Failure::InvalidMessageType(i16::MIN)));
}

#[test]
fn base64_text_is_standard_alphabet_without_padding() {
    assert_eq!(gen_handle_reply(b""), "");
    assert_eq!(gen_handle_reply(b"f"), "Zg");
    assert_eq!(gen_handle_reply(b"fo"), "Zm8");
    assert_eq!(gen_handle_reply(b"foo"), "Zm9v");
    assert_eq!(gen_handle_reply(b"foob"), "Zm9vYg");
    assert_eq!(gen_handle_reply(b"fooba"), "Zm9vYmE");
    assert_eq!(gen_handle_reply(b"foobar"), "Zm9vYmFy");
    assert_eq!(gen_handle_reply(&[0xff, 0xee, 0xfb]), "/+77");
    assert_eq!(gen_handle_reply(&[0xfb, 0xff]), "+/8");
    assert_eq!(gen_handle_reply(&[0, 0, 0, 0]), "AAAAAA");
}

#[test]
fn base64_text_has_four_characters_for_three_bytes() {
    for n in 0..100usize {
        let bytes: Vec<u8> = (0..n).map(|i| (i * 37 % 256) as u8).collect();
        let expected = n / 3 * 4 + if n % 3 == 0 { 0 } else { n % 3 + 1 };
        assert_eq!(gen_handle_reply(&bytes).len(), expected);
    }
}

#[test]
fn decimal_text_of_integers() {
    assert_eq!(natural_text(0), "0");
    assert_eq!(natural_text(9), "9");
    assert_eq!(natural_text(10), "10");
    assert_eq!(natural_text(4294967295), "4294967295");
    assert_eq!(integer_text(0), "0");
    assert_eq!(integer_text(7), "7");
    assert_eq!(integer_text(256), "256");
    assert_eq!(integer_text(1000), "1000");
    assert_eq!(integer_text(32767), "32767");
    assert_eq!(integer_text(-1), "-1");
    assert_eq!(integer_text(-300), "-300");
    assert_eq!(integer_text(-32768), "-32768");
}

#[test]
fn decimal_text_agrees_with_the_standard_formatting() {
    let mut n = i16::MIN;
    loop {
        assert_eq!(integer_text(n), format!("{}", n));
        if n == i16::MAX {
            break;
        }
        n += 1;
    }
}

#[test]
fn lexicographic_order_of_keys() {
    assert!(comes_first(&[], &[]));
    assert!(comes_first(&[], &[0]));
    assert!(!comes_first(&[0], &[]));
    assert!(comes_first(&[1], &[1, 0]));
    assert!(!comes_first(&[1, 0], &[1]));
    assert!(comes_first(&[1, 9], &[2]));
    assert!(!comes_first(&[2], &[1, 9]));
    assert!(comes_first(&[5, 5], &[5, 5]));
    assert!(comes_first(&[0x7f], &[0x80]));
    assert!(!comes_first(&[0xff], &[0x00, 0xff]));
}

#[test]
fn canonical_order_does_not_depend_on_the_order_given() {
    let keys: Vec<Vec<u8>> = vec![
        vec![],
        vec![0],
        vec![0, 0],
        vec![1],
        vec![1, 2, 3],
        vec![1, 2, 4],
        vec![0xff],
        vec![0x80, 0x01],
    ];
    for a in &keys {
        for b in &keys {
            let one = in_canonical_order(a.to_vec(), b.to_vec());
            let other = in_canonical_order(b.to_vec(), a.to_vec());
            assert_eq!(one, other);
            assert!(one.0 <= one.1);
            assert!((one.0 == *a && one.1 == *b) || (one.0 == *b && one.1 == *a));
        }
    }
}
