use ledger_engine::account::Account;
use ledger_engine::engine::Engine;
use ledger_engine::error::EngineError;
use ledger_engine::four_precision_number_format::serialize;
use ledger_engine::transaction::{Transaction, TransactionType};

/// An amount written as a decimal number, in ten-thousandths.
fn amount(value: f64) -> i64 {
    (value * 10_000.0).round() as i64
}

/// Reads transactions from text with the columns `type, client, tx, amount`.
fn decode(text: &str) -> Vec<Transaction> {
    let mut reader = csv::ReaderBuilder::new().flexible(true).from_reader(text.as_bytes());
    let mut transactions = Vec::new();
    for record in reader.records() {
        let record = record.unwrap();
        let value = match record.get(3) {
            Some(field) if !field.is_empty() => amount(field.parse::<f64>().unwrap()),
            _ => 0,
        };
        transactions.push(Transaction {
            kind: TransactionType::from_str(&record[0]).unwrap(),
            client_id: record[1].parse().unwrap(),
            transaction_id: record[2].parse().unwrap(),
            amount: value,
        });
    }
    transactions
}

/// Writes accounts as text with the columns `client, available, held, total,
/// locked`.
fn encode(accounts: &[&Account]) -> String {
    let mut writer = csv::Writer::from_writer(Vec::new());
    writer.write_record(["client", "available", "held", "total", "locked"]).unwrap();
    for account in accounts {
        writer
            .write_record([
                account.client_id.to_string(),
                serialize(&account.available),
                serialize(&account.held),
                serialize(&account.total),
                account.locked.to_string(),
            ])
            .unwrap();
    }
    String::from_utf8(writer.into_inner().unwrap()).unwrap()
}

fn run(input: &str) -> Result<String, EngineError> {
    let transactions = decode(input);
    let mut engine = Engine::default();
    engine.process_transactions(&transactions)?;
    Ok(encode(&engine.get_accounts()))
}

#[test]
fn test_only_deposit() {
    let transactions = decode("type,client,tx,amount\ndeposit,1,1,1.0191\ndeposit,2,2,2.0001\n");
    assert!(transactions.len() == 2);
    let mut engine = Engine::default();
    let ret = engine.process_transactions(&transactions);
    assert!(ret.is_ok());
    let data = encode(&engine.get_accounts());

    assert_eq!(
        String::from(
            "client,available,held,total,locked
1,1.0191,0.0000,1.0191,false
2,2.0001,0.0000,2.0001,false
"
        ),
        data
    )
}

#[test]
fn same_input_gives_the_same_bytes() {
    let input = "type,client,tx,amount
deposit,7,1,12.5
deposit,3,2,100.0001
withdrawal,7,3,2.25
dispute,3,2,
deposit,500,4,0.0001
resolve,3,2,
dispute,7,1,
chargeback,7,1,
deposit,1,5,42
";
    let expected = "client,available,held,total,locked
1,42.0000,0.0000,42.0000,false
3,100.0001,0.0000,100.0001,false
7,-2.2500,0.0000,-2.2500,true
500,0.0001,0.0000,0.0001,false
";
    let first = run(input).unwrap();
    assert_eq!(first, expected);
    for _ in 0..20 {
        assert_eq!(run(input).unwrap(), first);
    }
}

#[test]
fn failed_batch_gives_no_output() {
    let input = "type,client,tx,amount\ndeposit,1,1,1.5\nwithdrawal,1,2,1.5001\n";
    assert_eq!(run(input), Err(EngineError::InsufficientFunds { client_id: 1 }));
}
