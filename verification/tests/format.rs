use ledger_engine::account::Account;
use ledger_engine::error::EngineError;
use ledger_engine::four_precision_number_format::serialize;
use ledger_engine::transaction::TransactionType;

/// An amount written as a decimal number, in ten-thousandths.
fn amount(value: f64) -> i64 {
    (value * 10_000.0).round() as i64
}

fn row(account: &Account) -> String {
    format!(
        "{},{},{},{},{}\n",
        account.client_id,
        serialize(&account.available),
        serialize(&account.held),
        serialize(&account.total),
        account.locked
    )
}

#[test]
fn test_serialize_output_four_decimal_precision() {
    let account = Account {
        client_id: 2,
        available: amount(2.0),
        held: amount(0.0),
        total: amount(2.0000),
        locked: false,
    };
    let accounts = vec![&account];

    let mut data = String::from("client,available,held,total,locked\n");
    for account in accounts {
        data.push_str(&row(account));
    }
    assert!(data.contains("2.0000"));
    assert_eq!(data, "client,available,held,total,locked\n2,2.0000,0.0000,2.0000,false\n");
}

#[test]
fn amounts_have_four_digits_after_the_point() {
    assert_eq!(serialize(&0), "0.0000");
    assert_eq!(serialize(&1), "0.0001");
    assert_eq!(serialize(&10), "0.0010");
    assert_eq!(serialize(&9_999), "0.9999");
    assert_eq!(serialize(&10_000), "1.0000");
    assert_eq!(serialize(&10_191), "1.0191");
    assert_eq!(serialize(&20_001), "2.0001");
    assert_eq!(serialize(&15_000), "1.5000");
    assert_eq!(serialize(&1_234_567_800), "123456.7800");
    assert_eq!(serialize(&100_000_000_000), "10000000.0000");
}

#[test]
fn negative_amounts_carry_a_sign() {
    assert_eq!(serialize(&-1), "-0.0001");
    assert_eq!(serialize(&-5_000), "-0.5000");
    assert_eq!(serialize(&-10_000), "-1.0000");
    assert_eq!(serialize(&-123_456), "-12.3456");
}

#[test]
fn extreme_amounts_are_written_in_full() {
    assert_eq!(serialize(&i64::MAX), "922337203685477.5807");
    assert_eq!(serialize(&i64::MIN), "-922337203685477.5808");
}

#[test]
fn kinds_are_read_from_their_names() {
    assert_eq!(TransactionType::from_str("deposit"), Ok(TransactionType::Deposit));
    assert_eq!(TransactionType::from_str("withdrawal"), Ok(TransactionType::Withdrawal));
    assert_eq!(TransactionType::from_str("dispute"), Ok(TransactionType::Dispute));
    assert_eq!(TransactionType::from_str("resolve"), Ok(TransactionType::Resolve));
    assert_eq!(TransactionType::from_str("chargeback"), Ok(TransactionType::Chargeback));
}

#[test]
fn other_names_are_refused_with_a_message() {
    assert_eq!(
        TransactionType::from_str("transfer"),
        Err(String::from("'transfer' is not a valid value for TransactionType"))
    );
    assert_eq!(
        TransactionType::from_str(""),
        Err(String::from("'' is not a valid value for TransactionType"))
    );
    assert!(TransactionType::from_str("Deposit").is_err());
    assert!(TransactionType::from_str(" deposit").is_err());
    assert!(TransactionType::from_str("deposit ").is_err());
    assert!(TransactionType::from_str("deposits").is_err());
}

#[test]
fn error_messages_name_the_client() {
    assert_eq!(
        EngineError::InsufficientFunds { client_id: 1 }.message(),
        "engine error: Client ID 1 doesn't have sufficient avalable"
    );
    assert_eq!(
        EngineError::InsufficientFunds { client_id: 65535 }.message(),
        "engine error: Client ID 65535 doesn't have sufficient avalable"
    );
    assert_eq!(
        EngineError::BalanceOutOfRange { client_id: 0 }.message(),
        "engine error: Client ID 0 has a balance out of range"
    );
    assert_eq!(
        EngineError::BalanceOutOfRange { client_id: 407 }.message(),
        "engine error: Client ID 407 has a balance out of range"
    );
}
