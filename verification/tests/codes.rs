use ledger_shell::codes::ErrorCodes;

#[test]
fn test_error_code_numbers() {
    assert_eq!(u32::from(ErrorCodes::Okay), 0);
    assert_eq!(u32::from(ErrorCodes::InvalidDecryptedChainId), 1);
    assert_eq!(u32::from(ErrorCodes::ExpiredDecryptedTx), 2);
    assert_eq!(u32::from(ErrorCodes::WasmRuntimeError), 3);
    assert_eq!(u32::from(ErrorCodes::InvalidTx), 4);
    assert_eq!(u32::from(ErrorCodes::InvalidSig), 5);
    assert_eq!(u32::from(ErrorCodes::InvalidOrder), 6);
    assert_eq!(u32::from(ErrorCodes::ExtraTxs), 7);
    assert_eq!(u32::from(ErrorCodes::Undecryptable), 8);
    assert_eq!(u32::from(ErrorCodes::AllocationError), 9);
    assert_eq!(u32::from(ErrorCodes::ReplayTx), 10);
    assert_eq!(u32::from(ErrorCodes::InvalidChainId), 11);
    assert_eq!(u32::from(ErrorCodes::ExpiredTx), 12);
    assert_eq!(u32::from(ErrorCodes::InvalidVoteExtension), 13);
}
