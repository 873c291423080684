use eth_transfer::uint256::Uint256;
use eth_transfer::units::{format_ether, parse_ether, ETHER_DECIMALS, WEI_PER_ETHER};
use ethers::types::U256;

const MAX_ETHER: &str =
    "115792089237316195423570985008687907853269984665640564039457.584007913129639935";

fn n(x: u64) -> Uint256 {
    Uint256::from_u64(x)
}

#[test]
fn one_token_is_ten_to_the_18_base_units() {
    assert_eq!(ETHER_DECIMALS, 18);
    assert_eq!(WEI_PER_ETHER, 1_000_000_000_000_000_000);
    assert_eq!(parse_ether("1"), Some(n(WEI_PER_ETHER)));
}

#[test]
fn parse_ether_reads_the_default_amount() {
    assert_eq!(parse_ether("0.000001"), Some(n(1_000_000_000_000)));
}

#[test]
fn parse_ether_reads_whole_and_fraction() {
    assert_eq!(parse_ether("1.5"), Some(n(1_500_000_000_000_000_000)));
    assert_eq!(parse_ether("15.230001"), Some(n(15_230_001_000_000_000_000)));
    assert_eq!(parse_ether("0"), Some(n(0)));
    assert_eq!(parse_ether("000"), Some(n(0)));
    assert_eq!(parse_ether("0.0"), Some(n(0)));
    assert_eq!(parse_ether("007.5"), Some(n(7_500_000_000_000_000_000)));
    assert_eq!(parse_ether("0.000000000000000001"), Some(n(1)));
    assert_eq!(parse_ether("0.123456789012345678"), Some(n(123_456_789_012_345_678)));
}

#[test]
fn parse_ether_takes_an_empty_side_of_the_point() {
    assert_eq!(parse_ether(".5"), Some(n(500_000_000_000_000_000)));
    assert_eq!(parse_ether("5."), Some(n(5_000_000_000_000_000_000)));
}

#[test]
fn parse_ether_refuses_a_text_without_digits() {
    assert_eq!(parse_ether(""), None);
    assert_eq!(parse_ether("."), None);
}

#[test]
fn parse_ether_refuses_other_characters() {
    assert_eq!(parse_ether("-1"), None);
    assert_eq!(parse_ether("+1"), None);
    assert_eq!(parse_ether("1_000"), None);
    assert_eq!(parse_ether("1.2.3"), None);
    assert_eq!(parse_ether("1..2"), None);
    assert_eq!(parse_ether(" 1"), None);
    assert_eq!(parse_ether("1 "), None);
    assert_eq!(parse_ether("1e18"), None);
    assert_eq!(parse_ether("0x10"), None);
    assert_eq!(parse_ether("1,5"), None);
    assert_eq!(parse_ether("abc"), None);
    assert_eq!(parse_ether("1.5\u{661}"), None);
    assert_eq!(parse_ether("0.0000000000000000000\u{e9}"), None);
}

#[test]
fn parse_ether_refuses_a_lossy_fraction() {
    assert_eq!(parse_ether("0.0000000000000000001"), None);
    assert_eq!(parse_ether("1.0000000000000000005"), None);
    assert_eq!(parse_ether("0.00000000000000000000001"), None);
}

#[test]
fn parse_ether_takes_zeros_after_the_18th_place() {
    assert_eq!(parse_ether("0.1000000000000000000"), Some(n(100_000_000_000_000_000)));
    assert_eq!(parse_ether("2.000000000000000000000000"), Some(n(2_000_000_000_000_000_000)));
    assert_eq!(parse_ether("0.0000000000000000010"), Some(n(1)));
}

#[test]
fn parse_ether_holds_up_to_the_maximum() {
    assert_eq!(parse_ether(MAX_ETHER), Some(Uint256 { limbs: [u64::MAX; 4] }));
    assert_eq!(
        parse_ether(
            "115792089237316195423570985008687907853269984665640564039457.584007913129639936"
        ),
        None
    );
    assert_eq!(
        parse_ether("115792089237316195423570985008687907853269984665640564039458"),
        None
    );
    assert_eq!(
        parse_ether("115792089237316195423570985008687907853269984665640564039457"),
        Some(Uint256 {
            limbs: U256::from_dec_str(
                "115792089237316195423570985008687907853269984665640564039457000000000000000000"
            )
            .unwrap()
            .0
        })
    );
    assert_eq!(
        parse_ether(
            "115792089237316195423570985008687907853269984665640564039457584007913129639935"
        ),
        None
    );
}

#[test]
fn format_ether_writes_18_places() {
    assert_eq!(format_ether(&n(1_000_000_000_000)), "0.000001000000000000");
    assert_eq!(format_ether(&n(0)), "0.000000000000000000");
    assert_eq!(format_ether(&n(1)), "0.000000000000000001");
    assert_eq!(format_ether(&n(999_999_999_999_999_999)), "0.999999999999999999");
    assert_eq!(format_ether(&n(1_000_000_000_000_000_000)), "1.000000000000000000");
    assert_eq!(format_ether(&n(1_500_000_000_000_000_000)), "1.500000000000000000");
    assert_eq!(format_ether(&n(4_410_000)), "0.000000000004410000");
    assert_eq!(format_ether(&Uint256 { limbs: [u64::MAX; 4] }), MAX_ETHER);
}

#[test]
fn amount_round_trip() {
    for (text, canonical) in [
        ("0.000001", "0.000001000000000000"),
        ("1", "1.000000000000000000"),
        (".5", "0.500000000000000000"),
        ("5.", "5.000000000000000000"),
        ("0012.340", "12.340000000000000000"),
        (MAX_ETHER, MAX_ETHER),
    ] {
        let wei = parse_ether(text).unwrap();
        let written = format_ether(&wei);
        assert_eq!(written, canonical);
        assert_eq!(parse_ether(&written), Some(wei));
    }
}

#[test]
fn base_units_round_trip() {
    for limbs in [[0, 0, 0, 0], [1, 0, 0, 0], [u64::MAX, 0, 0, 0], [7, 9, 11, 13], [u64::MAX; 4]] {
        let wei = Uint256 { limbs };
        assert_eq!(parse_ether(&format_ether(&wei)), Some(wei));
    }
}

#[test]
fn format_ether_agrees_with_the_outside_notation() {
    for limbs in [[0, 0, 0, 0], [1_000_000_000_000, 0, 0, 0], [7, 9, 11, 13], [u64::MAX; 4]] {
        assert_eq!(
            format_ether(&Uint256 { limbs }),
            ethers::utils::format_ether(U256(limbs))
        );
    }
}

#[test]
fn parse_ether_agrees_with_the_outside_reader_on_amount_texts() {
    for text in ["0.000001", "1", "1.5", ".5", "5.", "0", "123456789.987654321", MAX_ETHER] {
        let theirs = ethers::utils::parse_ether(text).unwrap();
        assert_eq!(parse_ether(text).map(|v| v.limbs), Some(theirs.0));
    }
}
