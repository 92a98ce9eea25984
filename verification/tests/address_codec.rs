use bech32::ToBase32;
use contract_interact::address::{decode, encode, Address, Bech32Address, ADDRESS_LEN};
use contract_interact::error::InteractError;
use multiversx_sc_snippets::imports::bech32 as framework_bech32;
use multiversx_sc_snippets::imports::Address as FrameworkAddress;

const ALICE_TEXT: &str = "erd1qyu5wthldzr8wx5c9ucg8kjagg0jfs53s8nr3zpz3hypefsdd8ssycr6th";
const ALICE_BYTES: [u8; 32] = [
    0x01, 0x39, 0x47, 0x2e, 0xff, 0x68, 0x86, 0x77, 0x1a, 0x98, 0x2f, 0x30, 0x83, 0xda, 0x5d, 0x42,
    0x1f, 0x24, 0xc2, 0x91, 0x81, 0xe6, 0x38, 0x88, 0x22, 0x8d, 0xc8, 0x1c, 0xa6, 0x0d, 0x69, 0xe1,
];

fn patterned(step: usize, start: usize) -> [u8; 32] {
    let mut bytes = [0u8; 32];
    for (i, b) in bytes.iter_mut().enumerate() {
        *b = ((i * step + start) % 256) as u8;
    }
    bytes
}

#[test]
fn encode_writes_the_known_text_of_a_known_address() {
    assert_eq!(encode(&Address::new(ALICE_BYTES)), ALICE_TEXT);
}

#[test]
fn decode_reads_the_known_address_of_a_known_text() {
    assert_eq!(decode(ALICE_TEXT), Ok(Address::new(ALICE_BYTES)));
}

#[test]
fn encode_then_decode_gives_the_address_back() {
    for (step, start) in [(0, 0), (0, 255), (1, 0), (7, 1), (13, 200), (255, 17)] {
        let address = Address::new(patterned(step, start));
        let text = encode(&address);
        assert!(text.starts_with("erd1"));
        assert_eq!(text.len(), 62);
        assert_eq!(decode(&text), Ok(address));
    }
}

#[test]
fn encode_agrees_with_the_framework() {
    for (step, start) in [(0, 0), (3, 9), (11, 250)] {
        let bytes = patterned(step, start);
        let expected = framework_bech32::encode(&FrameworkAddress::from(bytes));
        assert_eq!(encode(&Address::new(bytes)), expected);
    }
}

#[test]
fn decode_agrees_with_the_framework() {
    let decoded = framework_bech32::decode(ALICE_TEXT);
    assert_eq!(decode(ALICE_TEXT).unwrap().as_bytes(), decoded.as_array());
}

#[test]
fn decode_rejects_the_empty_text() {
    assert_eq!(decode(""), Err(InteractError::MalformedAddress));
}

#[test]
fn decode_rejects_a_wrong_checksum() {
    let mut text = String::from(ALICE_TEXT);
    text.pop();
    text.push('q');
    assert_eq!(decode(&text), Err(InteractError::MalformedAddress));
}

#[test]
fn decode_rejects_a_text_without_separator() {
    assert_eq!(decode("erdqyu5wthldzr8wx5c9ucg8kjagg0"), Err(InteractError::MalformedAddress));
}

#[test]
fn decode_rejects_mixed_case() {
    let text = ALICE_TEXT.replace("erd1qyu", "erd1QYU");
    assert_eq!(decode(&text), Err(InteractError::MalformedAddress));
}

#[test]
fn decode_rejects_a_payload_that_is_not_32_bytes() {
    // A well-formed bech32 text whose data part holds three bytes.
    assert_eq!(decode("bech321qqqsyrhqy2a"), Err(InteractError::MalformedAddress));
    // A well-formed bech32 text with an empty data part.
    assert_eq!(decode("a12uel5l"), Err(InteractError::MalformedAddress));
}

#[test]
fn decode_accepts_the_text_in_upper_case() {
    let text = ALICE_TEXT.to_uppercase();
    assert_eq!(decode(&text), Ok(Address::new(ALICE_BYTES)));
}

#[test]
fn decode_does_not_look_at_the_prefix_or_the_checksum_constant() {
    let groups = ALICE_BYTES.to_base32();
    let other_prefix = bech32::encode("xyz", groups.clone(), bech32::Variant::Bech32).unwrap();
    assert_eq!(decode(&other_prefix), Ok(Address::new(ALICE_BYTES)));
    let other_constant = bech32::encode("erd", groups, bech32::Variant::Bech32m).unwrap();
    assert_ne!(other_constant, ALICE_TEXT);
    assert_eq!(decode(&other_constant), Ok(Address::new(ALICE_BYTES)));
}

#[test]
fn from_slice_takes_exactly_32_bytes() {
    assert_eq!(ADDRESS_LEN, 32);
    assert_eq!(Address::from_slice(&ALICE_BYTES), Some(Address::new(ALICE_BYTES)));
    assert_eq!(Address::from_slice(&ALICE_BYTES[..31]), None);
    assert_eq!(Address::from_slice(&[0u8; 33]), None);
    assert_eq!(Address::from_slice(&[]), None);
    assert_eq!(Address::new(ALICE_BYTES).as_bytes(), &ALICE_BYTES);
}

#[test]
fn bech32_address_from_address_keeps_both_forms() {
    let kept = Bech32Address::from_address(Address::new(ALICE_BYTES));
    assert_eq!(kept.to_bech32_str(), ALICE_TEXT);
    assert_eq!(kept.to_bech32_string(), ALICE_TEXT.to_string());
    assert_eq!(kept.as_address(), &Address::new(ALICE_BYTES));
    assert_eq!(kept.clone(), kept);
}

#[test]
fn bech32_address_from_text_keeps_the_text_as_given() {
    let upper = ALICE_TEXT.to_uppercase();
    let kept = Bech32Address::from_bech32_string(upper.clone()).unwrap();
    assert_eq!(kept.to_bech32_str(), upper);
    assert_eq!(kept.as_address(), &Address::new(ALICE_BYTES));
}

#[test]
fn bech32_address_from_text_rejects_what_is_no_address() {
    assert_eq!(
        Bech32Address::from_bech32_string(String::from("not an address")),
        Err(InteractError::MalformedAddress)
    );
    assert_eq!(
        Bech32Address::from_bech32_string(String::new()),
        Err(InteractError::MalformedAddress)
    );
}
