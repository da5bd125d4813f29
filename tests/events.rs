use ledger::events::{
    base64_encode, ADL_EVENT_DISCRIMINATOR, BATCH_EVENT_DISCRIMINATOR, DEPOSIT_WITHDRAW_EVENT_DISCRIMINATOR,
    FEE_EVENT_DISCRIMINATOR, FUNDING_EVENT_DISCRIMINATOR, INSURANCE_FUND_EVENT_DISCRIMINATOR,
    LIQUIDATION_EVENT_DISCRIMINATOR, ORDER_EVENT_DISCRIMINATOR, POSITION_EVENT_DISCRIMINATOR,
    TRADE_EVENT_DISCRIMINATOR,
};

#[test]
fn test_base64_encode_empty() {
    let result = base64_encode(&[]);
    assert_eq!(result, b"");
}

#[test]
fn test_base64_encode_one_byte() {
    let result = base64_encode(&[0x41]);
    assert_eq!(&result, b"QQ==");
}

#[test]
fn test_base64_encode_hello() {
    let result = base64_encode(b"Hello");
    let result_str = core::str::from_utf8(&result).unwrap();
    assert_eq!(result_str, "SGVsbG8=");
}

#[test]
fn test_base64_encode_three_bytes() {
    let result = base64_encode(b"abc");
    let result_str = core::str::from_utf8(&result).unwrap();
    assert_eq!(result_str, "YWJj");
}

#[test]
fn test_all_discriminators_unique() {
    let discriminators = [
        ORDER_EVENT_DISCRIMINATOR,
        TRADE_EVENT_DISCRIMINATOR,
        POSITION_EVENT_DISCRIMINATOR,
        LIQUIDATION_EVENT_DISCRIMINATOR,
        ADL_EVENT_DISCRIMINATOR,
        FUNDING_EVENT_DISCRIMINATOR,
        DEPOSIT_WITHDRAW_EVENT_DISCRIMINATOR,
        FEE_EVENT_DISCRIMINATOR,
        INSURANCE_FUND_EVENT_DISCRIMINATOR,
        BATCH_EVENT_DISCRIMINATOR,
    ];
    for i in 0..discriminators.len() {
        for j in (i + 1)..discriminators.len() {
            assert_ne!(discriminators[i], discriminators[j], "Discriminator collision at index {} and {}", i, j);
        }
    }
}

#[test]
fn base64_full_alphabet_and_padding() {
    assert_eq!(base64_encode(&[0xfb, 0xff, 0xbf]), b"+/+/".to_vec());
    assert_eq!(base64_encode(b"ab"), b"YWI=".to_vec());
    assert_eq!(base64_encode(&[0, 0, 0, 0]), b"AAAAAA==".to_vec());
    assert_eq!(base64_encode(b"foobar"), b"Zm9vYmFy".to_vec());
    assert_eq!(&ORDER_EVENT_DISCRIMINATOR, b"evt_ordr");
    assert_eq!(&BATCH_EVENT_DISCRIMINATOR, b"evt_btch");
}
