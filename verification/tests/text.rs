use ledger_shell::codes::ErrorCodes;
use ledger_shell::error::{Error, TxResult};
use ledger_shell::text::{decimal_string, hex_digit, hex_string, join, join3};
use ledger_shell::types;
use ledger_shell::types::{Address, DateTimeUtc, PublicKey};

#[test]
fn test_decimal_string() {
    assert_eq!(decimal_string(0), "0");
    assert_eq!(decimal_string(7), "7");
    assert_eq!(decimal_string(10), "10");
    assert_eq!(decimal_string(13), "13");
    assert_eq!(decimal_string(1_700_000_100), "1700000100");
    assert_eq!(decimal_string(u64::MAX), "18446744073709551615");
}

#[test]
fn test_hex_string() {
    assert_eq!(hex_string(&[]), "");
    assert_eq!(hex_string(&[0x00]), "00");
    assert_eq!(hex_string(&[0x0f, 0xf0, 0xab]), "0FF0AB");
    assert_eq!(hex_string(&[0xde, 0xad, 0xbe, 0xef]), "DEADBEEF");
    assert_eq!(hex_digit(9), "9");
    assert_eq!(hex_digit(10), "A");
    assert_eq!(hex_digit(15), "F");
}

#[test]
fn test_join() {
    assert_eq!(join("ab", "cd"), "abcd");
    assert_eq!(join("", ""), "");
    assert_eq!(join3("a", "", "c"), "ac");
}

#[test]
fn test_hash_in_hex() {
    let mut bytes = [0u8; 32];
    bytes[0] = 0x01;
    bytes[31] = 0xfe;
    let hash = types::Hash::new(bytes);
    assert_eq!(
        hash.to_string(),
        "01000000000000000000000000000000000000000000000000000000000000FE"
    );
    assert_eq!(hash.to_string().len(), 64);
    assert_eq!(hash.to_vec(), bytes.to_vec());
    assert!(hash.same(&types::Hash::new(bytes)));
    bytes[31] = 0xff;
    assert!(!hash.same(&types::Hash::new(bytes)));
}

#[test]
fn test_time_order_and_text() {
    let a = DateTimeUtc { secs: 10, nanos: 5 };
    let b = DateTimeUtc { secs: 10, nanos: 6 };
    let c = DateTimeUtc { secs: 11, nanos: 0 };
    let d = DateTimeUtc { secs: -1, nanos: 999_999_999 };
    assert!(b.is_after(&a));
    assert!(!a.is_after(&b));
    assert!(!a.is_after(&a));
    assert!(c.is_after(&b));
    assert!(a.is_after(&d));
    assert_eq!(a.to_string(), "10s+5ns");
    assert_eq!(d.to_string(), "-1s+999999999ns");
    assert_eq!(
        DateTimeUtc { secs: i64::MIN, nanos: 0 }.to_string(),
        "-9223372036854775808s+0ns"
    );
    assert_eq!(
        DateTimeUtc { secs: i64::MAX, nanos: 1 }.to_string(),
        "9223372036854775807s+1ns"
    );
}

#[test]
fn test_addresses_and_keys_compare_by_text() {
    assert!(Address::new("atest1a").same(&Address::new("atest1a")));
    assert!(!Address::new("atest1a").same(&Address::new("atest1b")));
    assert!(PublicKey::new("k").same(&PublicKey::new("k").clone()));
    assert!(!PublicKey::new("k").same(&PublicKey::new("")));
}

#[test]
fn test_error_codes() {
    for n in 0u32..=13 {
        let code = ErrorCodes::from_u32(n).expect("Test failed");
        assert_eq!(code.to_u32(), n);
        assert_eq!(u32::from(code), n);
        assert_eq!(code.to_string(), n.to_string());
        assert_eq!(code.is_recoverable(), n <= 3);
    }
    assert_eq!(ErrorCodes::from_u32(14), None);
    assert_eq!(ErrorCodes::from_u32(u32::MAX), None);
    assert_eq!(ErrorCodes::from_u32(10), Some(ErrorCodes::ReplayTx));
    assert!(ErrorCodes::WasmRuntimeError.is_recoverable());
    assert!(!ErrorCodes::InvalidTx.is_recoverable());
}

#[test]
fn test_error_messages() {
    let text = |e: Error| e.to_string();
    assert_eq!(text(Error::RemoveDB("denied".to_string())), "Error removing the DB data: denied");
    assert_eq!(text(Error::ChainId("x".to_string())), "chain ID mismatch: x");
    assert_eq!(
        text(Error::TxDecoding("bad".to_string())),
        "Error decoding a transaction from bytes: bad"
    );
    assert_eq!(
        text(Error::TxApply("boom".to_string())),
        "Error trying to apply a transaction: boom"
    );
    assert_eq!(
        text(Error::GasOverflow),
        "Gas limit exceeding while applying transactions in block"
    );
    assert_eq!(text(Error::Tendermint("tm".to_string())), "tm");
    assert_eq!(text(Error::Ethereum("eth".to_string())), "eth");
    assert_eq!(text(Error::TowerServer("srv".to_string())), "Server error: srv");
    assert_eq!(text(Error::Broadcaster("channel closed".to_string())), "channel closed");
    assert_eq!(
        text(Error::BadProposal(42, "no quorum".to_string())),
        "Error executing proposal 42: no quorum"
    );
    assert_eq!(text(Error::ReadingWasm("io".to_string())), "Error reading wasm: io");
    assert_eq!(text(Error::LoadingWasm("io".to_string())), "Error loading wasm: io");
    assert_eq!(
        text(Error::StorageApi("db".to_string())),
        "Error reading from or writing to storage: db"
    );
    assert_eq!(
        text(Error::ReplayAttempt("again".to_string())),
        "Transaction replay attempt: again"
    );
}

#[test]
fn test_tx_result_from_error() {
    let result = TxResult::from(Error::GasOverflow);
    assert_eq!(result.code, 1);
    assert_eq!(result.info, "Gas limit exceeding while applying transactions in block");
    let result = TxResult::from(Error::BadProposal(0, String::new()));
    assert_eq!(result.code, 1);
    assert_eq!(result.info, "Error executing proposal 0: ");
}
