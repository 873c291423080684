use eth_transfer::address::Address;
use ethers::types::H160;
use std::str::FromStr;

const SAMPLE: &str = "0x34e6E1814300DF9237F52B2c11509FA9fb280FE3";
const SAMPLE_CANONICAL: &str = "0x34e6e1814300df9237f52b2c11509fa9fb280fe3";
const SAMPLE_BYTES: [u8; 20] = [
    0x34, 0xe6, 0xe1, 0x81, 0x43, 0x00, 0xdf, 0x92, 0x37, 0xf5, 0x2b, 0x2c, 0x11, 0x50, 0x9f, 0xa9,
    0xfb, 0x28, 0x0f, 0xe3,
];

#[test]
fn parse_reads_the_bytes() {
    assert_eq!(Address::parse(SAMPLE), Some(Address { bytes: SAMPLE_BYTES }));
    assert_eq!(Address::parse(SAMPLE_CANONICAL), Some(Address { bytes: SAMPLE_BYTES }));
}

#[test]
fn parse_takes_a_text_without_prefix() {
    assert_eq!(
        Address::parse("34e6E1814300DF9237F52B2c11509FA9fb280FE3"),
        Some(Address { bytes: SAMPLE_BYTES })
    );
}

#[test]
fn parse_passes_over_blanks() {
    assert_eq!(
        Address::parse("0x34e6 E1814300DF92\t37F52B2c11509FA9\r\nfb280FE3 "),
        Some(Address { bytes: SAMPLE_BYTES })
    );
    assert_eq!(
        Address::parse(" 34e6E1814300DF9237F52B2c11509FA9fb280FE3"),
        Some(Address { bytes: SAMPLE_BYTES })
    );
    assert_eq!(
        Address::parse("0x3 4e6E1814300DF9237F52B2c11509FA9fb280FE3"),
        Some(Address { bytes: SAMPLE_BYTES })
    );
}

#[test]
fn parse_refuses_a_wrong_length() {
    assert_eq!(Address::parse(""), None);
    assert_eq!(Address::parse("0x"), None);
    assert_eq!(Address::parse("0x34e6E1814300DF9237F52B2c11509FA9fb280FE"), None);
    assert_eq!(Address::parse("0x34e6E1814300DF9237F52B2c11509FA9fb280F"), None);
    assert_eq!(Address::parse("0x34e6E1814300DF9237F52B2c11509FA9fb280FE3a"), None);
    assert_eq!(Address::parse("0x34e6E1814300DF9237F52B2c11509FA9fb280FE3ab"), None);
}

#[test]
fn parse_refuses_other_characters() {
    assert_eq!(Address::parse("0x34e6E1814300DF9237F52B2c11509FA9fb280FEg"), None);
    assert_eq!(Address::parse("0X34e6E1814300DF9237F52B2c11509FA9fb280FE3"), None);
    assert_eq!(Address::parse("0x0x34e6E1814300DF9237F52B2c11509FA9fb280FE3"), None);
    assert_eq!(Address::parse(" 0x34e6E1814300DF9237F52B2c11509FA9fb280FE3"), None);
    assert_eq!(Address::parse("0x34e6E1814300DF9237F52B2c11509FA9fb280FE3!"), None);
    assert_eq!(Address::parse("0x34e6E1814300DF9237F52B2c11509FA9fb280F\u{e9}3"), None);
    assert_eq!(Address::parse("not an address"), None);
}

#[test]
fn to_hex_writes_lower_case_with_prefix() {
    assert_eq!(Address { bytes: SAMPLE_BYTES }.to_hex(), SAMPLE_CANONICAL);
    assert_eq!(
        Address { bytes: [0; 20] }.to_hex(),
        "0x0000000000000000000000000000000000000000"
    );
    assert_eq!(
        Address { bytes: [0xff; 20] }.to_hex(),
        "0xffffffffffffffffffffffffffffffffffffffff"
    );
    assert_eq!(
        Address { bytes: [0x09, 0x0a, 0x10, 0x9f, 0xa0, 0, 0, 0, 0, 0, 0, 0, 0, 0, 0, 0, 0, 0, 0, 1] }
            .to_hex(),
        "0x090a109fa0000000000000000000000000000001"
    );
}

#[test]
fn from_bytes_keeps_the_bytes() {
    assert_eq!(Address::from_bytes(SAMPLE_BYTES).bytes, SAMPLE_BYTES);
}

#[test]
fn writing_after_reading_gives_the_canonical_form() {
    for text in [
        SAMPLE,
        SAMPLE_CANONICAL,
        "34E6E1814300DF9237F52B2C11509FA9FB280FE3",
        "0x34e6 e181 4300 df92 37f5 2b2c 1150 9fa9 fb28 0fe3",
    ] {
        let address = Address::parse(text).unwrap();
        assert_eq!(address.to_hex(), SAMPLE_CANONICAL);
    }
}

#[test]
fn reading_after_writing_gives_the_address() {
    for bytes in [[0u8; 20], [0xffu8; 20], SAMPLE_BYTES] {
        let address = Address { bytes };
        assert_eq!(Address::parse(&address.to_hex()), Some(address));
    }
}

#[test]
fn canonical_form_is_its_own_canonical_form() {
    let once = Address::parse(SAMPLE).unwrap().to_hex();
    let twice = Address::parse(&once).unwrap().to_hex();
    assert_eq!(once, twice);
}

#[test]
fn to_hex_agrees_with_the_outside_notation() {
    for bytes in [[0u8; 20], [0xabu8; 20], SAMPLE_BYTES] {
        assert_eq!(Address { bytes }.to_hex(), format!("{:?}", H160(bytes)));
    }
}

#[test]
fn parse_agrees_with_the_outside_reader() {
    for text in [
        SAMPLE,
        "34e6E1814300DF9237F52B2c11509FA9fb280FE3",
        "0x34e6E1814300DF9237F52B2c11509FA9fb280FE3 ",
        "0x34e6E1814300DF9237F52B2c11509FA9fb280FE",
        "0x34e6E1814300DF9237F52B2c11509FA9fb280FE3 0",
        "",
        "0x",
        "zz",
    ] {
        let theirs = H160::from_str(text).ok().map(|h| h.0);
        let ours = Address::parse(text).map(|a| a.bytes);
        assert_eq!(ours, theirs);
    }
}
