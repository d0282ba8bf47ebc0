use ethers::signers::{LocalWallet, Signer};
use ethers::types::transaction::eip2718::TypedTransaction;
use ethers::types::{Eip1559TransactionRequest, TransactionRequest, H160};
use vault_cli::errors::WalletError;
use vault_cli::keys::Wallet;
use vault_cli::numeric::{Address, TxHash, U256};
use vault_cli::pipeline::{Action, ProviderReply, SendPipeline, Stage, TransactionService, MAX_CHAIN_ID};
use vault_cli::transaction::{encode_transfer, TransactionKind};

const TO: &str = "0x3535353535353535353535353535353535353535";
const TOKEN: &str = "0x00000000000000000000000000000000000000aa";
const URL: &str = "http://localhost:8545";

fn amount(text: &str) -> U256 {
    U256::from_dec_str(text).unwrap()
}

fn outside(text: &str) -> ethers::types::U256 {
    ethers::types::U256::from_dec_str(text).unwrap()
}

fn service_with(secret: [u8; 32]) -> TransactionService {
    let mut service = TransactionService::new();
    service.set_provider(URL).unwrap();
    service.set_wallet(Wallet::from_secret(secret).unwrap());
    service
}

fn service() -> TransactionService {
    service_with([0x46; 32])
}

fn hash() -> TxHash {
    TxHash { bytes: [0x77; 32] }
}

fn run(pipeline: &mut SendPipeline, chain_id: &str) -> Vec<Action> {
    let mut actions = Vec::new();
    loop {
        let action = pipeline.action();
        let reply = match &action {
            Action::GetGasPrice => ProviderReply::GasPrice(amount("20000000000")),
            Action::EstimateGas(_) => ProviderReply::GasEstimate(amount("21000")),
            Action::GetTransactionCount(_) => ProviderReply::TransactionCount(amount("5")),
            Action::GetChainId => ProviderReply::ChainId(amount(chain_id)),
            Action::SendRawTransaction(_) => ProviderReply::TransactionHash(hash()),
            Action::Finish { .. } | Action::Abort(_) => {
                actions.push(action);
                return actions;
            }
        };
        actions.push(action);
        pipeline.advance(reply);
    }
}

fn signed_by_the_outside_crate(secret: &[u8; 32], tx: TypedTransaction) -> Vec<u8> {
    let wallet = LocalWallet::from_bytes(secret).unwrap();
    let signature = wallet.sign_transaction_sync(&tx).unwrap();
    tx.rlp_signed(&signature).to_vec()
}

#[test]
fn send_resolves_every_field_from_the_provider() {
    let mut pipeline = service().send(TO, "1000000000000000000", None, None).unwrap();
    assert_eq!(pipeline.stage(), Stage::Draft);
    let draft = pipeline.transaction();
    assert_eq!(draft.kind, TransactionKind::Legacy);
    assert_eq!(draft.to, Address::from_text(TO));
    assert_eq!(draft.from.unwrap().to_text(), "0x9d8a62f656a8d1615c1294fd71e9cfb3e4855a4f");
    assert_eq!(draft.value, Some(amount("1000000000000000000")));
    assert_eq!((draft.gas, draft.gas_price, draft.nonce, draft.chain_id), (None, None, None, None));
    assert_eq!(pipeline.signed_bytes(), None);

    let actions = run(&mut pipeline, "1");
    assert_eq!(actions.len(), 6);
    assert!(matches!(actions[0], Action::GetGasPrice));
    match &actions[1] {
        Action::EstimateGas(tx) => {
            assert_eq!(tx.gas_price, Some(amount("20000000000")));
            assert_eq!(tx.gas, None);
            assert_eq!(tx.to, Address::from_text(TO));
        }
        other => panic!("unexpected action {:?}", other),
    }
    match &actions[2] {
        Action::GetTransactionCount(who) => {
            assert_eq!(who.to_text(), "0x9d8a62f656a8d1615c1294fd71e9cfb3e4855a4f")
        }
        other => panic!("unexpected action {:?}", other),
    }
    assert!(matches!(actions[3], Action::GetChainId));
    assert!(matches!(actions[4], Action::SendRawTransaction(_)));
    assert_eq!(pipeline.stage(), Stage::Broadcast);
    let done = pipeline.transaction();
    assert_eq!(done.gas_price, Some(amount("20000000000")));
    assert_eq!(done.gas, Some(amount("21000")));
    assert_eq!(done.nonce, Some(amount("5")));
    assert_eq!(done.chain_id, Some(1));
    match &actions[5] {
        Action::Finish { hash, record } => {
            assert_eq!(hash, &format!("0x{}", "77".repeat(32)));
            assert_eq!(record.tx_type, "Legacy");
            assert_eq!(record.from, "0x9d8a62f656a8d1615c1294fd71e9cfb3e4855a4f");
            assert_eq!(record.to.as_deref(), Some(TO));
            assert_eq!(record.value, "0xde0b6b3a7640000");
            assert_eq!(record.gas, "0x5208");
            assert_eq!(record.gas_price, "0x4a817c800");
            assert_eq!(record.token_value, None);
        }
        other => panic!("unexpected action {:?}", other),
    }
}

#[test]
fn send_is_deterministic_across_runs() {
    let mut first = service().send(TO, "1000000000000000000", None, None).unwrap();
    let mut second = service().send(TO, "1000000000000000000", None, None).unwrap();
    run(&mut first, "1");
    run(&mut second, "1");
    let signed = first.signed_bytes().unwrap();
    assert_eq!(Some(&signed), second.signed_bytes().as_ref());
    let tx: TypedTransaction = TransactionRequest::new()
        .to(H160([0x35; 20]))
        .value(outside("1000000000000000000"))
        .gas_price(outside("20000000000"))
        .gas(outside("21000"))
        .nonce(outside("5"))
        .chain_id(1u64)
        .into();
    assert_eq!(signed, signed_by_the_outside_crate(&[0x46; 32], tx));
}

#[test]
fn send_signs_the_known_example() {
    let mut pipeline = service().send(TO, "1000000000000000000", Some("20000000000"), Some("21000")).unwrap();
    assert_eq!(pipeline.stage(), Stage::GasLimited);
    assert!(matches!(pipeline.action(), Action::GetTransactionCount(_)));
    pipeline.advance(ProviderReply::TransactionCount(amount("9")));
    assert_eq!(pipeline.stage(), Stage::Nonced);
    pipeline.advance(ProviderReply::ChainId(amount("1")));
    assert_eq!(pipeline.stage(), Stage::Signed);
    let expected = "f86c098504a817c800825208943535353535353535353535353535353535353535880de0b6b3a76400008025a028ef61340bd939bc2195fe537567866003e1a15d3c71ff63e1590620aa636276a067cbe9d8997f761aecb703304b3800ccf555c9f3dc64214b297fb1966a3b6d83";
    assert_eq!(hex::encode(pipeline.signed_bytes().unwrap()), expected);
    match pipeline.action() {
        Action::SendRawTransaction(bytes) => assert_eq!(hex::encode(bytes), expected),
        other => panic!("unexpected action {:?}", other),
    }
}

#[test]
fn signature_depends_on_key_nonce_and_chain() {
    let base = |secret: [u8; 32], nonce: &str, chain: &str| {
        let mut pipeline = service_with(secret).send(TO, "1", Some("1"), Some("21000")).unwrap();
        pipeline.advance(ProviderReply::TransactionCount(amount(nonce)));
        pipeline.advance(ProviderReply::ChainId(amount(chain)));
        pipeline.signed_bytes().unwrap()
    };
    let reference = base([0x46; 32], "0", "1");
    assert_eq!(reference, base([0x46; 32], "0", "1"));
    assert_ne!(reference, base([0x47; 32], "0", "1"));
    assert_ne!(reference, base([0x46; 32], "1", "1"));
    assert_ne!(reference, base([0x46; 32], "0", "5"));
}

#[test]
fn send_refuses_malformed_input() {
    let service = service();
    assert!(matches!(service.send("0x1234", "1", None, None), Err(WalletError::Validation)));
    assert!(matches!(service.send("", "1", None, None), Err(WalletError::Validation)));
    assert!(matches!(service.send(TO, "-1", None, None), Err(WalletError::Validation)));
    assert!(matches!(service.send(TO, "1.0", None, None), Err(WalletError::Validation)));
    assert!(matches!(service.send(TO, "abc", None, None), Err(WalletError::Validation)));
    assert!(matches!(service.send(TO, "1", Some("1"), Some("lots")), Err(WalletError::Validation)));
    assert!(service.send(TO, "0", None, None).is_ok());
}

#[test]
fn send_needs_provider_and_wallet() {
    let mut service = TransactionService::new();
    assert!(matches!(service.send(TO, "1", None, None), Err(WalletError::NoProvider)));
    assert!(matches!(service.send("bad", "1", None, None), Err(WalletError::Validation)));
    service.set_provider(URL).unwrap();
    assert!(matches!(service.send(TO, "1", None, None), Err(WalletError::NoWallet)));
    assert!(matches!(service.send_token(TO, "1", TOKEN, None, None), Err(WalletError::NoWallet)));
    service.set_wallet(Wallet::from_secret([0x46; 32]).unwrap());
    assert!(service.send(TO, "1", None, None).is_ok());
}

#[test]
fn provider_url_must_parse() {
    let mut service = TransactionService::new();
    assert_eq!(service.set_provider("not a url"), Err(WalletError::Validation));
    assert!(service.provider_url().is_none());
    assert_eq!(service.set_provider(URL), Ok(()));
    assert_eq!(service.provider_url().map(|s| s.as_str()), Some(URL));
    assert_eq!(service.set_provider(""), Err(WalletError::Validation));
    assert_eq!(service.provider_url().map(|s| s.as_str()), Some(URL));
}

#[test]
fn gas_price_that_does_not_read_is_asked_of_the_provider() {
    let pipeline = service().send(TO, "1", Some("cheap"), None).unwrap();
    assert_eq!(pipeline.stage(), Stage::Draft);
    assert!(matches!(pipeline.action(), Action::GetGasPrice));
    let pipeline = service().send(TO, "1", Some("7"), None).unwrap();
    assert_eq!(pipeline.stage(), Stage::GasPriced);
    assert_eq!(pipeline.transaction().gas_price, Some(amount("7")));
    assert!(matches!(pipeline.action(), Action::EstimateGas(_)));
}

#[test]
fn gas_limit_is_read_once_the_gas_price_is_known() {
    let mut pipeline = service().send(TO, "1", None, Some("50000")).unwrap();
    assert_eq!(pipeline.stage(), Stage::Draft);
    pipeline.advance(ProviderReply::GasPrice(amount("3")));
    assert_eq!(pipeline.stage(), Stage::GasLimited);
    assert_eq!(pipeline.transaction().gas, Some(amount("50000")));
    assert_eq!(pipeline.transaction().gas_price, Some(amount("3")));

    let mut pipeline = service().send(TO, "1", None, Some("lots")).unwrap();
    pipeline.advance(ProviderReply::GasPrice(amount("3")));
    assert_eq!(pipeline.stage(), Stage::Failed);
    assert!(matches!(pipeline.action(), Action::Abort(WalletError::Validation)));
}

#[test]
fn provider_failure_aborts_the_send() {
    for failing in 0..5 {
        let mut pipeline = service().send(TO, "1", None, None).unwrap();
        let replies = [
            ProviderReply::GasPrice(amount("1")),
            ProviderReply::GasEstimate(amount("21000")),
            ProviderReply::TransactionCount(amount("0")),
            ProviderReply::ChainId(amount("1")),
            ProviderReply::TransactionHash(hash()),
        ];
        for (i, reply) in replies.into_iter().enumerate() {
            if i == failing {
                pipeline.advance(ProviderReply::Failure);
                break;
            }
            pipeline.advance(reply);
        }
        assert_eq!(pipeline.stage(), Stage::Failed);
        assert!(matches!(pipeline.action(), Action::Abort(WalletError::Network)));
        pipeline.advance(ProviderReply::GasPrice(amount("1")));
        assert_eq!(pipeline.stage(), Stage::Failed);
        assert!(matches!(pipeline.action(), Action::Abort(WalletError::Network)));
    }
}

#[test]
fn reply_out_of_turn_aborts_the_send() {
    let mut pipeline = service().send(TO, "1", None, None).unwrap();
    pipeline.advance(ProviderReply::ChainId(amount("1")));
    assert_eq!(pipeline.stage(), Stage::Failed);
    assert!(matches!(pipeline.action(), Action::Abort(WalletError::Network)));
}

#[test]
fn chain_id_that_cannot_be_bound_aborts_the_send() {
    let over = (MAX_CHAIN_ID as u128 + 1).to_string();
    for chain_id in [over.as_str(), "18446744073709551616"] {
        let mut pipeline = service().send(TO, "1", Some("1"), Some("21000")).unwrap();
        pipeline.advance(ProviderReply::TransactionCount(amount("0")));
        pipeline.advance(ProviderReply::ChainId(amount(chain_id)));
        assert_eq!(pipeline.stage(), Stage::Failed);
        assert!(matches!(pipeline.action(), Action::Abort(WalletError::Network)));
        assert_eq!(pipeline.signed_bytes(), None);
    }
    let mut pipeline = service().send(TO, "1", Some("1"), Some("21000")).unwrap();
    pipeline.advance(ProviderReply::TransactionCount(amount("0")));
    pipeline.advance(ProviderReply::ChainId(amount(&MAX_CHAIN_ID.to_string())));
    assert_eq!(pipeline.stage(), Stage::Signed);
    assert_eq!(pipeline.transaction().chain_id, Some(MAX_CHAIN_ID));
}

#[test]
fn finished_send_stays_finished() {
    let mut pipeline = service().send(TO, "1", None, None).unwrap();
    run(&mut pipeline, "1");
    let signed = pipeline.signed_bytes();
    pipeline.advance(ProviderReply::Failure);
    pipeline.advance(ProviderReply::GasPrice(amount("9")));
    assert_eq!(pipeline.stage(), Stage::Broadcast);
    assert_eq!(pipeline.signed_bytes(), signed);
    assert_eq!(pipeline.transaction().gas_price, Some(amount("20000000000")));
}

#[test]
fn token_send_calls_the_contract_with_the_transfer() {
    let mut pipeline = service().send_token(TO, "2500", TOKEN, None, None).unwrap();
    let draft = pipeline.transaction();
    assert_eq!(draft.kind, TransactionKind::Eip1559);
    assert_eq!(draft.to, Address::from_text(TOKEN));
    assert_eq!(draft.value, None);
    assert_eq!(draft.data, Some(encode_transfer(&Address::from_text(TO).unwrap(), &amount("2500"))));
    let actions = run(&mut pipeline, "137");
    match actions.last().unwrap() {
        Action::Finish { record, .. } => {
            assert_eq!(record.tx_type, "Eip1559");
            assert_eq!(record.to.as_deref(), Some(TO));
            assert_eq!(record.token_value.as_deref(), Some("2500"));
            assert_eq!(record.value, "0x0");
            assert_eq!(record.gas, "0x5208");
        }
        other => panic!("unexpected action {:?}", other),
    }
    let tx: TypedTransaction = Eip1559TransactionRequest::new()
        .to(H160(Address::from_text(TOKEN).unwrap().bytes))
        .data(encode_transfer(&Address::from_text(TO).unwrap(), &amount("2500")))
        .max_fee_per_gas(outside("20000000000"))
        .max_priority_fee_per_gas(outside("20000000000"))
        .gas(outside("21000"))
        .nonce(outside("5"))
        .chain_id(137u64)
        .into();
    let signed = pipeline.signed_bytes().unwrap();
    assert_eq!(signed[0], 0x02);
    assert_eq!(signed, signed_by_the_outside_crate(&[0x46; 32], tx));
}

#[test]
fn token_send_refuses_malformed_input() {
    let service = service();
    assert!(matches!(service.send_token("nobody", "1", TOKEN, None, None), Err(WalletError::Validation)));
    assert!(matches!(service.send_token(TO, "one", TOKEN, None, None), Err(WalletError::Validation)));
    assert!(matches!(service.send_token(TO, "1", "0x12", None, None), Err(WalletError::Validation)));
    assert!(matches!(service.send_token(TO, "1", TOKEN, Some("1"), Some("x")), Err(WalletError::Validation)));
    let empty = TransactionService::new();
    assert!(matches!(empty.send_token(TO, "1", "0x12", None, None), Err(WalletError::NoProvider)));
}

#[test]
fn balance_asks_for_the_wallet_address() {
    let mut service = TransactionService::new();
    assert_eq!(service.get_balance(), Err(WalletError::NoWallet));
    service.set_wallet(Wallet::from_secret([0x46; 32]).unwrap());
    assert_eq!(service.get_balance(), Err(WalletError::NoProvider));
    service.set_provider(URL).unwrap();
    assert_eq!(service.get_balance().unwrap().to_text(), "0x9d8a62f656a8d1615c1294fd71e9cfb3e4855a4f");
}

#[test]
fn token_balance_asks_the_contract_for_the_owner() {
    let mut service = TransactionService::new();
    assert_eq!(service.get_token_balance("zz").map(|c| c.data), Err(WalletError::Validation));
    assert_eq!(service.get_token_balance(TOKEN).map(|c| c.data), Err(WalletError::NoWallet));
    service.set_wallet(Wallet::from_secret([0x46; 32]).unwrap());
    assert_eq!(service.get_token_balance(TOKEN).map(|c| c.data), Err(WalletError::NoProvider));
    service.set_provider(URL).unwrap();
    let call = service.get_token_balance(TOKEN).unwrap();
    assert_eq!(call.token, Address::from_text(TOKEN).unwrap());
    assert_eq!(
        hex::encode(call.data),
        "70a082310000000000000000000000009d8a62f656a8d1615c1294fd71e9cfb3e4855a4f"
    );
}

#[test]
fn info_needs_a_provider_and_a_hash() {
    let text = "0x88df016429689c079f3b2f6ad39fa052532c56795b733da78a91ebe6a713944b";
    let mut service = TransactionService::new();
    assert_eq!(service.info(text), Err(WalletError::NoProvider));
    assert_eq!(service.info("zz"), Err(WalletError::NoProvider));
    service.set_provider(URL).unwrap();
    assert_eq!(service.info("zz"), Err(WalletError::Validation));
    assert_eq!(service.info("0x1234"), Err(WalletError::Validation));
    assert_eq!(service.info(text).unwrap().to_text(), text);
}

#[test]
fn wei_are_shown_as_whole_units_and_remainder() {
    assert_eq!(TransactionService::wei_to_eth(&amount("0")), "0.0");
    assert_eq!(TransactionService::wei_to_eth(&amount("1")), "0.1");
    assert_eq!(TransactionService::wei_to_eth(&amount("1000000000000000000")), "1.0");
    assert_eq!(TransactionService::wei_to_eth(&amount("1500000000000000000")), "1.500000000000000000");
    assert_eq!(TransactionService::wei_to_eth(&amount("1050000000000000000")), "1.50000000000000000");
    assert_eq!(TransactionService::wei_to_eth(&amount("123456789012345678901")), "123.456789012345678901");
}

#[test]
fn history_shows_a_line_for_each_record() {
    assert_eq!(TransactionService::history(&Vec::new()), None);
    let mut pipeline = service().send(TO, "1000000000000000000", None, None).unwrap();
    let record = match run(&mut pipeline, "1").pop().unwrap() {
        Action::Finish { record, .. } => record,
        other => panic!("unexpected action {:?}", other),
    };
    let lines = TransactionService::history(&vec![record]).unwrap();
    assert_eq!(lines.len(), 1);
    assert_eq!(lines[0].to, Address::from_text(TO).unwrap());
    assert_eq!(lines[0].from.to_text(), "0x9d8a62f656a8d1615c1294fd71e9cfb3e4855a4f");
    assert_eq!(lines[0].value, amount("1000000000000000000"));
    assert_eq!(lines[0].gas, amount("21000"));
    assert_eq!(lines[0].gas_price, amount("20000000000"));
    assert_eq!(lines[0].token_value, amount("0"));
}
