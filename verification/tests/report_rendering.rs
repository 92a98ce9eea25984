use contract_interact::address::{Address, Bech32Address};
use contract_interact::dispatch::Report;

#[test]
fn a_new_address_is_shown_in_its_human_readable_form() {
    let alice = [
        0x01, 0x39, 0x47, 0x2e, 0xff, 0x68, 0x86, 0x77, 0x1a, 0x98, 0x2f, 0x30, 0x83, 0xda, 0x5d,
        0x42, 0x1f, 0x24, 0xc2, 0x91, 0x81, 0xe6, 0x38, 0x88, 0x22, 0x8d, 0xc8, 0x1c, 0xa6, 0x0d,
        0x69, 0xe1,
    ];
    let report = Report::NewAddress(Bech32Address::from_address(Address::new(alice)));
    assert_eq!(
        report.render(),
        "new address: erd1qyu5wthldzr8wx5c9ucg8kjagg0jfs53s8nr3zpz3hypefsdd8ssycr6th"
    );
}

#[test]
fn values_are_shown_in_hexadecimal() {
    assert_eq!(Report::Values(vec![]).render(), "Result:");
    assert_eq!(Report::Values(vec![vec![]]).render(), "Result: 0x");
    assert_eq!(Report::Values(vec![vec![0]]).render(), "Result: 0x00");
    assert_eq!(
        Report::Values(vec![vec![0x01, 0x23, 0x45, 0x67], vec![], vec![0x89, 0xab, 0xcd, 0xef]])
            .render(),
        "Result: 0x01234567 0x 0x89abcdef"
    );
    assert_eq!(Report::Values(vec![vec![0xff, 0x0f, 0xf0]]).render(), "Result: 0xff0ff0");
    assert_eq!(
        Report::Values(vec![b"XMEX-1a2b3c".to_vec()]).render(),
        "Result: 0x584d45582d316132623363"
    );
}

#[test]
fn every_byte_is_shown_as_two_digits() {
    let all: Vec<u8> = (0..=255).collect();
    let mut expected = String::from("Result: 0x");
    for byte in &all {
        expected.push_str(&format!("{byte:02x}"));
    }
    assert_eq!(Report::Values(vec![all]).render(), expected);
}

#[test]
fn a_fault_is_shown_as_it_was_reported() {
    assert_eq!(
        Report::Fault(String::from("user error: contract is paused")).render(),
        "Fault: user error: contract is paused"
    );
    assert_eq!(Report::Fault(String::new()).render(), "Fault: ");
}
