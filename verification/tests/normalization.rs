use txn_normalizer::move_modules::{
    DeleteModule, ModuleAbi, ModuleId, MoveModule, MoveModuleBytecode, WriteModule,
};
use txn_normalizer::signatures::{
    SchemeOutcome, SecondarySigner, Signature, SignatureEnvelope, SignatureInstance,
};
use txn_normalizer::user_transactions::{
    EntryFunctionPayload, TransactionInfo, TransactionPayload, UserTransaction,
    UserTransactionEnvelope, UserTransactionRequest,
};
use txn_normalizer::util::{
    current_timestamp, parse_timestamp, parse_timestamp_secs, to_decimal, Timestamp, Warning,
    MAX_TIMESTAMP_SECS,
};

fn sample_abi() -> ModuleAbi {
    ModuleAbi {
        address: "0x1".to_string(),
        name: "coin".to_string(),
        exposed_functions: vec!["{\"name\":\"transfer\"}".to_string(), "{\"name\":\"balance\"}".to_string()],
        friends: vec!["0x1::aptos_coin".to_string()],
        structs: vec!["{\"name\":\"Coin\"}".to_string()],
    }
}

fn now_stamp() -> Timestamp {
    Timestamp { secs: 1_700_000_000, micros: 123 }
}

#[test]
fn publish_with_abi_populates_all_metadata() {
    let event = WriteModule {
        address: "0x1".to_string(),
        data: MoveModuleBytecode { bytecode: vec![0xA1, 0x1C, 0xEB, 0x0B], abi: Some(sample_abi()) },
    };
    let mut warnings: Vec<Warning> = Vec::new();
    let record = MoveModule::from_write_module(event, 2, 100, now_stamp(), &mut warnings);
    assert!(!record.is_deleted);
    assert_eq!(record.transaction_version, 100);
    assert_eq!(record.write_set_change_index, 2);
    assert_eq!(record.name, "coin");
    assert_eq!(record.address, "0x1");
    assert_eq!(record.bytecode, Some(vec![0xA1, 0x1C, 0xEB, 0x0B]));
    assert_eq!(
        record.exposed_functions,
        Some(vec!["{\"name\":\"transfer\"}".to_string(), "{\"name\":\"balance\"}".to_string()])
    );
    assert_eq!(record.friends, Some(vec!["0x1::aptos_coin".to_string()]));
    assert_eq!(record.structs, Some(vec!["{\"name\":\"Coin\"}".to_string()]));
    assert_eq!(record.inserted_at, now_stamp());
    assert!(warnings.is_empty());
}

#[test]
fn publish_without_abi_degrades_gracefully() {
    let event = WriteModule {
        address: "0x42".to_string(),
        data: MoveModuleBytecode { bytecode: vec![1, 2, 3], abi: None },
    };
    let mut warnings: Vec<Warning> = Vec::new();
    let record = MoveModule::from_write_module(event, 0, 7, now_stamp(), &mut warnings);
    assert!(!record.is_deleted);
    assert_eq!(record.name, "");
    assert_eq!(record.address, "0x42");
    assert_eq!(record.bytecode, None);
    assert_eq!(record.exposed_functions, None);
    assert_eq!(record.friends, None);
    assert_eq!(record.structs, None);
    assert_eq!(warnings, vec![Warning::AbiDecodeFailed]);
}

#[test]
fn delete_module_record_is_bare() {
    let event = DeleteModule {
        address: "0x7".to_string(),
        module: ModuleId { address: "0x7".to_string(), name: "managed_coin".to_string() },
    };
    let record = MoveModule::from_delete_module(event, 5, 200, now_stamp());
    assert!(record.is_deleted);
    assert_eq!(record.name, "managed_coin");
    assert_eq!(record.address, "0x7");
    assert_eq!(record.bytecode, None);
    assert_eq!(record.exposed_functions, None);
    assert_eq!(record.friends, None);
    assert_eq!(record.structs, None);
}

#[test]
fn module_normalization_is_idempotent_but_for_stamp() {
    let make = |now: Timestamp, warnings: &mut Vec<Warning>| {
        MoveModule::from_write_module(
            WriteModule {
                address: "0x1".to_string(),
                data: MoveModuleBytecode { bytecode: vec![9, 9], abi: Some(sample_abi()) },
            },
            1,
            50,
            now,
            warnings,
        )
    };
    let mut w1: Vec<Warning> = Vec::new();
    let mut w2: Vec<Warning> = Vec::new();
    let a = make(Timestamp { secs: 10, micros: 0 }, &mut w1);
    let mut b = make(Timestamp { secs: 20, micros: 0 }, &mut w2);
    assert_ne!(a, b);
    b.inserted_at = a.inserted_at;
    assert_eq!(a, b);
    assert_eq!(w1, w2);
}

#[test]
fn decimal_round_trips_every_width() {
    for x in [0u64, 1, 999, 1_000_000_000_000, u64::MAX - 1, u64::MAX] {
        assert_eq!(to_decimal(x).to_u64(), x);
    }
}

#[test]
fn timestamp_secs_in_range_is_exact() {
    let mut warnings: Vec<Warning> = Vec::new();
    let t = parse_timestamp_secs(1_700_000_000, 33, &mut warnings);
    assert_eq!(t, Timestamp { secs: 1_700_000_000, micros: 0 });
    let ceiling = parse_timestamp_secs(MAX_TIMESTAMP_SECS, 33, &mut warnings);
    assert_eq!(ceiling, Timestamp { secs: MAX_TIMESTAMP_SECS, micros: 0 });
    assert!(warnings.is_empty());
}

#[test]
fn timestamp_secs_out_of_range_clamps_with_one_warning() {
    let mut warnings: Vec<Warning> = Vec::new();
    let t = parse_timestamp_secs(MAX_TIMESTAMP_SECS + 1, 77, &mut warnings);
    assert_eq!(t, Timestamp { secs: MAX_TIMESTAMP_SECS, micros: 0 });
    assert_eq!(warnings, vec![Warning::TimestampOutOfRange { version: 77 }]);
    let t2 = parse_timestamp_secs(u64::MAX, 78, &mut warnings);
    assert_eq!(t2, Timestamp { secs: MAX_TIMESTAMP_SECS, micros: 0 });
    assert_eq!(
        warnings,
        vec![
            Warning::TimestampOutOfRange { version: 77 },
            Warning::TimestampOutOfRange { version: 78 },
        ]
    );
}

#[test]
fn timestamp_micros_in_range_splits_exactly() {
    let mut warnings: Vec<Warning> = Vec::new();
    let t = parse_timestamp(1_700_000_000_654_321, 5, &mut warnings);
    assert_eq!(t, Timestamp { secs: 1_700_000_000, micros: 654_321 });
    assert!(warnings.is_empty());
}

#[test]
fn timestamp_micros_out_of_range_clamps_with_one_warning() {
    let mut warnings: Vec<Warning> = Vec::new();
    let t = parse_timestamp(u64::MAX, 9, &mut warnings);
    assert_eq!(t, Timestamp { secs: MAX_TIMESTAMP_SECS, micros: 999_999 });
    assert_eq!(warnings, vec![Warning::TimestampOutOfRange { version: 9 }]);
}

#[test]
fn clock_reading_is_forced_into_range() {
    assert_eq!(Timestamp::from_parts(None), Timestamp { secs: 0, micros: 0 });
    assert_eq!(
        Timestamp::from_parts(Some((u64::MAX, 1_500_000))),
        Timestamp { secs: MAX_TIMESTAMP_SECS, micros: 999_999 }
    );
    assert_eq!(Timestamp::from_parts(Some((12, 34))), Timestamp { secs: 12, micros: 34 });
    let now = current_timestamp();
    assert!(now.secs <= MAX_TIMESTAMP_SECS);
    assert!(now.micros < 1_000_000);
}

fn base_request(payload: TransactionPayload, signature: Option<SignatureEnvelope>) -> UserTransactionRequest {
    UserTransactionRequest {
        sender: "0xa550c18".to_string(),
        sequence_number: 4,
        max_gas_amount: 2000,
        gas_unit_price: 100,
        expiration_timestamp_secs: 1_700_000_600,
        payload,
        signature,
    }
}

fn envelope(request: UserTransactionRequest) -> UserTransactionEnvelope {
    UserTransactionEnvelope {
        info: TransactionInfo { version: 4321 },
        request,
        timestamp: 1_700_000_000_000_042,
    }
}

fn ed25519_instance() -> SignatureInstance {
    SignatureInstance { public_key: vec![1; 32], signature: vec![2; 64] }
}

#[test]
fn unsigned_transaction_has_empty_tag_and_no_records() {
    let txn = envelope(base_request(TransactionPayload::ScriptPayload, None));
    let mut warnings: Vec<Warning> = Vec::new();
    let (record, sigs) = UserTransaction::from_transaction(txn, now_stamp(), &mut warnings).unwrap();
    assert_eq!(record.parent_signature_type, "");
    assert!(sigs.is_empty());
    assert_eq!(record.version, 4321);
    assert_eq!(record.sender, "0xa550c18");
    assert_eq!(record.sequence_number, 4);
    assert_eq!(record.max_gas_amount.to_u64(), 2000);
    assert_eq!(record.gas_unit_price.to_u64(), 100);
    assert_eq!(record.expiration_timestamp_secs, Timestamp { secs: 1_700_000_600, micros: 0 });
    assert_eq!(record.timestamp, Timestamp { secs: 1_700_000_000, micros: 42 });
    assert!(warnings.is_empty());
}

#[test]
fn entry_function_payload_carries_its_identifier() {
    let payload = TransactionPayload::EntryFunctionPayload(EntryFunctionPayload {
        function: "0x1::coin::transfer".to_string(),
    });
    let txn = envelope(base_request(payload, None));
    let mut warnings: Vec<Warning> = Vec::new();
    let (record, _) = UserTransaction::from_transaction(txn, now_stamp(), &mut warnings).unwrap();
    assert_eq!(record.entry_function_id_str, "0x1::coin::transfer");
}

#[test]
fn script_payload_yields_empty_identifier() {
    let txn = envelope(base_request(TransactionPayload::ScriptPayload, None));
    let mut warnings: Vec<Warning> = Vec::new();
    let (record, _) = UserTransaction::from_transaction(txn, now_stamp(), &mut warnings).unwrap();
    assert_eq!(record.entry_function_id_str, "");
}

#[test]
fn signed_transaction_resolves_tag_and_records() {
    let signature = SignatureEnvelope::Ed25519(SchemeOutcome::Decoded(vec![ed25519_instance()]));
    let txn = envelope(base_request(TransactionPayload::ScriptPayload, Some(signature)));
    let mut warnings: Vec<Warning> = Vec::new();
    let (record, sigs) = UserTransaction::from_transaction(txn, now_stamp(), &mut warnings).unwrap();
    assert_eq!(record.parent_signature_type, "ed25519_signature");
    assert_eq!(
        sigs,
        vec![Signature {
            transaction_version: 4321,
            signer: "0xa550c18".to_string(),
            is_sender_primary: true,
            public_key: vec![1; 32],
            signature: vec![2; 64],
        }]
    );
}

#[test]
fn signature_tags_are_stable() {
    let decoded = || SchemeOutcome::Decoded(Vec::new());
    assert_eq!(Signature::get_signature_type(&SignatureEnvelope::Ed25519(decoded())), "ed25519_signature");
    assert_eq!(
        Signature::get_signature_type(&SignatureEnvelope::MultiEd25519(decoded())),
        "multi_ed25519_signature"
    );
    assert_eq!(
        Signature::get_signature_type(&SignatureEnvelope::MultiAgent {
            sender: decoded(),
            secondary_signers: Vec::new(),
        }),
        "multi_agent_signature"
    );
}

#[test]
fn multi_agent_records_flatten_in_order() {
    let signature = SignatureEnvelope::MultiAgent {
        sender: SchemeOutcome::Decoded(vec![ed25519_instance()]),
        secondary_signers: vec![
            SecondarySigner {
                address: "0xb0b".to_string(),
                outcome: SchemeOutcome::Decoded(vec![SignatureInstance {
                    public_key: vec![3; 32],
                    signature: vec![4; 64],
                }]),
            },
            SecondarySigner {
                address: "0xca41".to_string(),
                outcome: SchemeOutcome::Decoded(vec![SignatureInstance {
                    public_key: vec![5; 32],
                    signature: vec![6; 64],
                }]),
            },
        ],
    };
    let records = Signature::from_user_transaction(signature, &"0xa550c18".to_string(), 88).unwrap();
    assert_eq!(records.len(), 3);
    assert_eq!(records[0].signer, "0xa550c18");
    assert!(records[0].is_sender_primary);
    assert_eq!(records[1].signer, "0xb0b");
    assert!(!records[1].is_sender_primary);
    assert_eq!(records[1].public_key, vec![3; 32]);
    assert_eq!(records[2].signer, "0xca41");
    assert!(!records[2].is_sender_primary);
    assert!(records.iter().all(|r| r.transaction_version == 88));
}

#[test]
fn undecodable_signature_fails_the_whole_transaction() {
    let signature = SignatureEnvelope::MultiAgent {
        sender: SchemeOutcome::Decoded(vec![ed25519_instance()]),
        secondary_signers: vec![SecondarySigner {
            address: "0xb0b".to_string(),
            outcome: SchemeOutcome::Failed("secondary scheme corrupted".to_string()),
        }],
    };
    let txn = envelope(base_request(TransactionPayload::ScriptPayload, Some(signature)));
    let mut warnings: Vec<Warning> = Vec::new();
    let err = UserTransaction::from_transaction(txn, now_stamp(), &mut warnings).unwrap_err();
    assert_eq!(err.message, "secondary scheme corrupted");
    assert!(warnings.is_empty());
}

#[test]
fn failed_primary_signature_reports_its_message() {
    let signature = SignatureEnvelope::Ed25519(SchemeOutcome::Failed("bad envelope".to_string()));
    let err =
        Signature::from_user_transaction(signature, &"0xa550c18".to_string(), 1).unwrap_err();
    assert_eq!(err.message, "bad envelope");
}

#[test]
fn adversarial_expiration_is_clamped_with_diagnostic() {
    let mut request = base_request(TransactionPayload::ScriptPayload, None);
    request.expiration_timestamp_secs = u64::MAX;
    let txn = envelope(request);
    let mut warnings: Vec<Warning> = Vec::new();
    let (record, _) = UserTransaction::from_transaction(txn, now_stamp(), &mut warnings).unwrap();
    assert_eq!(record.expiration_timestamp_secs, Timestamp { secs: MAX_TIMESTAMP_SECS, micros: 0 });
    assert_eq!(warnings, vec![Warning::TimestampOutOfRange { version: 4321 }]);
}

#[test]
fn transaction_normalization_is_idempotent_but_for_stamp() {
    let make = |now: Timestamp| {
        let payload = TransactionPayload::EntryFunctionPayload(EntryFunctionPayload {
            function: "0x1::coin::transfer".to_string(),
        });
        let signature = SignatureEnvelope::Ed25519(SchemeOutcome::Decoded(vec![ed25519_instance()]));
        let txn = envelope(base_request(payload, Some(signature)));
        let mut warnings: Vec<Warning> = Vec::new();
        UserTransaction::from_transaction(txn, now, &mut warnings).unwrap()
    };
    let (a, sigs_a) = make(Timestamp { secs: 100, micros: 0 });
    let (mut b, sigs_b) = make(Timestamp { secs: 200, micros: 0 });
    assert_ne!(a, b);
    assert_eq!(sigs_a, sigs_b);
    b.inserted_at = a.inserted_at;
    assert_eq!(a, b);
}
