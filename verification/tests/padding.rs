//! Padding through the free-function wrappers and the trait methods.

use padder::{pad, pad_and_push_to_buffer, Alignment, Source, Symbol};

#[test]
fn wrapper_pad_slice_byte_left_align_zero() {
    let width: usize = 200;
    let mut output: Vec<u8> = Vec::with_capacity(width);
    pad_and_push_to_buffer(
        "aeirjgjkadmval,mr1873481 y uhaegr".as_bytes(),
        width,
        Alignment::Left,
        Symbol::Zero,
        &mut output,
    );

    let mut expected = String::from("aeirjgjkadmval,mr1873481 y uhaegr");
    (0..(width - expected.len())).for_each(|_| expected.push_str("0"));

    assert_eq!(expected.as_bytes(), output);
    assert_ne!(expected.capacity(), output.capacity());
    assert_eq!(width, output.capacity());
}

#[test]
fn wrapper_pad_vec_char_left_align_zero() {
    let output: Vec<char> = pad(vec!['a', 'b', 'c', '0'], 13, Alignment::Left, Symbol::Zero);
    let mut expected: Vec<char> = vec!['a', 'b', 'c', '0'];
    expected.extend_from_slice(&vec!['0'; 9]);

    assert_eq!(expected, output);
    assert_eq!(expected.capacity(), output.capacity());
}

#[test]
fn wrapper_pad_vec_u8_right_align_whitespace() {
    let output: Vec<u8> = pad(
        vec![0u8, 2, 65, 8, 41],
        13,
        Alignment::Right,
        Symbol::Whitespace,
    );
    let mut expected: Vec<u8> = vec![b' '; 8];
    expected.extend_from_slice(&vec![0u8, 2, 65, 8, 41]);

    assert_eq!(expected, output);
    assert_ne!(expected.capacity(), output.capacity());
}

#[test]
fn wrapper_pad_str_center_align_hyphen() {
    let output: String = pad("hejj jag", 20, Alignment::Center, Symbol::Hyphen);
    let mut expected = String::from("------hejj jag");
    expected.push_str("------");

    assert_eq!(expected, output);
    assert_ne!(expected.capacity(), output.capacity());
}

#[test]
fn wrapper_pad_and_push_to_buffer_str_left_align_zero() {
    let width: usize = 20;
    let mut output = String::with_capacity(width);
    pad_and_push_to_buffer(
        "testcool  123",
        width,
        Alignment::Left,
        Symbol::Zero,
        &mut output,
    );

    let mut expected = String::from("testcool  123");
    expected.push_str("0000000");

    assert_eq!(expected, output);
    assert_ne!(expected.capacity(), output.capacity());
    assert_eq!(width, output.capacity());
}

#[test]
fn pad_vec_char_left_align_hypgen() {
    let output: Vec<char> = vec!['a', 'b', 'c'].pad(6, Alignment::Left, Symbol::Hyphen);
    let expected = vec!['a', 'b', 'c', '-', '-', '-'];
    assert_eq!(expected, output);
}

#[test]
fn pad_vec_u8_left_align_hyphen() {
    let output = vec![0u8, 1, 2, 3].pad(6, Alignment::Left, Symbol::Hyphen);
    let mut expected = vec![0u8, 1, 2, 3];
    expected.extend_from_slice("--".as_bytes());

    assert_eq!(expected, output);
    // The Vec that we extend from slice with is `most likely` going to have
    // a capacity of 8, since the Vec implementation doubles the allocated space
    // that is needed as it extends, however, our implementation allocates exactly
    // the amount that is needed.
    assert_ne!(expected.capacity(), output.capacity());
}

#[test]
fn pad_vec_u8_right_align_hyphen() {
    let output = vec![14u8, 12u8, 9u8].pad(5, Alignment::Right, Symbol::Hyphen);
    let mut expected = "--".as_bytes().to_vec();
    expected.extend_from_slice(&vec![14u8, 12u8, 9u8]);

    assert_eq!(expected, output);
    assert_ne!(expected.capacity(), output.capacity());
}

#[test]
fn pad_vec_u8_center_align_hyphen() {
    let output = vec![14u8, 12u8, 9u8].pad(5, Alignment::Center, Symbol::Hyphen);
    let mut expected = "-".as_bytes().to_vec();
    expected.extend_from_slice(&vec![14u8, 12u8, 9u8]);
    expected.extend_from_slice("-".as_bytes());

    assert_eq!(expected, output);
    assert_ne!(expected.capacity(), output.capacity());
}

#[test]
fn pad_str_left_align_hyphen() {
    let output = "hej178".pad(12, Alignment::Left, Symbol::Hyphen);
    let expected = "hej178------".to_string();
    assert_eq!(expected, output);
}

#[test]
fn pad_str_right_align_hyphen() {
    let output = "9184".pad(8, Alignment::Right, Symbol::Hyphen);
    let expected = "----9184".to_string();
    assert_eq!(expected, output);
}

#[test]
fn pad_str_center_align_hyphen() {
    let output = "hejjj".pad(9, Alignment::Center, Symbol::Hyphen);
    let expected = "--hejjj--".to_string();
    assert_eq!(expected, output);
}

#[test]
fn pad_str_center_align_hyphen_even() {
    let output = "hejjj".pad(10, Alignment::Center, Symbol::Hyphen);
    let expected = "--hejjj---".to_string();
    assert_eq!(expected, output);
}

#[test]
fn pad_str_neft_align_whitespace() {
    let output = "hej".pad(6, Alignment::Left, Symbol::Whitespace);
    let expected = "hej   ".to_string();
    assert_eq!(expected, output);
}

#[test]
fn pad_str_right_align_whitespace() {
    let output = "hejjj".pad(9, Alignment::Right, Symbol::Whitespace);
    let expected = "    hejjj".to_string();
    assert_eq!(expected, output);
}

#[test]
fn pad_str_center_align_whitespace() {
    let output = "hejjj".pad(9, Alignment::Center, Symbol::Whitespace);
    let expected = "  hejjj  ".to_string();
    assert_eq!(expected, output);
}

#[test]
fn pad_str_center_align_whitespace_even() {
    let output = "hejjj".pad(10, Alignment::Center, Symbol::Whitespace);
    let expected = "  hejjj   ".to_string();
    assert_eq!(expected, output);
}

#[test]
fn pad_str_left_align_zero() {
    let output = "hej178".pad(12, Alignment::Left, Symbol::Zero);
    let expected = "hej178000000".to_string();
    assert_eq!(expected, output);
}

#[test]
fn pad_str_right_align_zero() {
    let output = "9184".pad(8, Alignment::Right, Symbol::Zero);
    let expected = "00009184".to_string();
    assert_eq!(expected, output);
}

#[test]
fn pad_str_center_align_zero() {
    let output = "hejjj".pad(9, Alignment::Center, Symbol::Whitespace);
    let expected = "  hejjj  ".to_string();
    assert_eq!(expected, output);
}

#[test]
fn pad_str_center_align_zero_even() {
    let output = "hejjj".pad(10, Alignment::Center, Symbol::Whitespace);
    let expected = "  hejjj   ".to_string();
    assert_eq!(expected, output);
}

#[test]
fn vec_pad_and_push_to_buffer_right_zero() {
    let width: usize = 8;
    let source = vec!['a', 'b', 'c', 'd', 'e'];
    let mut buffer = Vec::with_capacity(width);
    source.pad_and_push_to_buffer(width, Alignment::Right, Symbol::Zero, &mut buffer);
    let expected = vec!['0', '0', '0', 'a', 'b', 'c', 'd', 'e'];
    assert_eq!(expected, buffer);
}
