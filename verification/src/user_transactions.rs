//! User transaction normalization: one user-submitted transaction envelope
//! becomes one canonical `UserTransaction` record plus the flat signature
//! records its envelope resolved to.

use vstd::prelude::*;

use crate::signatures::{
    Signature, SignatureEnvelope, SignatureEnvelopeView, SignatureError, SignatureView,
    spec_envelope_ok, spec_first_error, spec_resolved_records, spec_signature_type,
};
use crate::util::{
    Decimal, Timestamp, Warning, parse_timestamp, parse_timestamp_secs, spec_micros_warnings,
    spec_parse_timestamp, spec_parse_timestamp_secs, spec_secs_warnings, spec_to_decimal,
    to_decimal,
};

verus! {

/// The transaction's embedded info: the authoritative source of its version,
/// the primary key of the canonical record.
#[derive(Clone, Copy, Debug, PartialEq, Eq, Structural)]
pub struct TransactionInfo {
    pub version: u64,
}

/// An entry-function call payload: the fully-qualified identifier of the
/// named on-chain function.
#[derive(Clone, Debug, PartialEq)]
pub struct EntryFunctionPayload {
    pub function: String,
}

/// The payload of a user transaction. The variant set is closed, so a new
/// payload kind is a compile-time-checked decision; only the entry-function
/// variant carries anything this layer reads.
#[derive(Clone, Debug, PartialEq)]
pub enum TransactionPayload {
    EntryFunctionPayload(EntryFunctionPayload),
    ScriptPayload,
    ModuleBundlePayload,
    MultisigPayload,
}

/// Mathematical model of `TransactionPayload`.
pub ghost enum TransactionPayloadView {
    EntryFunctionPayload(Seq<char>),
    ScriptPayload,
    ModuleBundlePayload,
    MultisigPayload,
}

impl View for TransactionPayload {
    type V = TransactionPayloadView;

    open spec fn view(&self) -> TransactionPayloadView {
        match self {
            TransactionPayload::EntryFunctionPayload(payload) =>
                TransactionPayloadView::EntryFunctionPayload(payload.function@),
            TransactionPayload::ScriptPayload => TransactionPayloadView::ScriptPayload,
            TransactionPayload::ModuleBundlePayload => TransactionPayloadView::ModuleBundlePayload,
            TransactionPayload::MultisigPayload => TransactionPayloadView::MultisigPayload,
        }
    }
}

/// The request half of a user transaction envelope, as submitted by the
/// sender. The sender address is already a hex-literal string.
#[derive(Clone, Debug, PartialEq)]
pub struct UserTransactionRequest {
    pub sender: String,
    pub sequence_number: u64,
    pub max_gas_amount: u64,
    pub gas_unit_price: u64,
    pub expiration_timestamp_secs: u64,
    pub payload: TransactionPayload,
    pub signature: Option<SignatureEnvelope>,
}

/// Mathematical model of `UserTransactionRequest`.
pub ghost struct UserTransactionRequestView {
    pub sender: Seq<char>,
    pub sequence_number: u64,
    pub max_gas_amount: u64,
    pub gas_unit_price: u64,
    pub expiration_timestamp_secs: u64,
    pub payload: TransactionPayloadView,
    pub signature: Option<SignatureEnvelopeView>,
}

impl View for UserTransactionRequest {
    type V = UserTransactionRequestView;

    open spec fn view(&self) -> UserTransactionRequestView {
        UserTransactionRequestView {
            sender: self.sender@,
            sequence_number: self.sequence_number,
            max_gas_amount: self.max_gas_amount,
            gas_unit_price: self.gas_unit_price,
            expiration_timestamp_secs: self.expiration_timestamp_secs,
            payload: self.payload@,
            signature: match self.signature {
                Some(s) => Some(s@),
                None => None,
            },
        }
    }
}

/// A user transaction as observed on chain: its embedded info, the sender's
/// request, and the chain-observed execution time in epoch microseconds.
#[derive(Clone, Debug, PartialEq)]
pub struct UserTransactionEnvelope {
    pub info: TransactionInfo,
    pub request: UserTransactionRequest,
    pub timestamp: u64,
}

/// Mathematical model of `UserTransactionEnvelope`.
pub ghost struct UserTransactionEnvelopeView {
    pub info: TransactionInfo,
    pub request: UserTransactionRequestView,
    pub timestamp: u64,
}

impl View for UserTransactionEnvelope {
    type V = UserTransactionEnvelopeView;

    open spec fn view(&self) -> UserTransactionEnvelopeView {
        UserTransactionEnvelopeView {
            info: self.info,
            request: self.request@,
            timestamp: self.timestamp,
        }
    }
}

/// Canonical record of one on-chain user transaction, keyed by `version`.
#[derive(Clone, Debug, PartialEq)]
pub struct UserTransaction {
    pub version: i64,
    pub parent_signature_type: String,
    pub sender: String,
    pub sequence_number: i64,
    pub max_gas_amount: Decimal,
    pub expiration_timestamp_secs: Timestamp,
    pub gas_unit_price: Decimal,
    pub timestamp: Timestamp,
    pub inserted_at: Timestamp,
    pub entry_function_id_str: String,
}

/// Mathematical model of a `UserTransaction` record.
pub ghost struct UserTransactionView {
    pub version: i64,
    pub parent_signature_type: Seq<char>,
    pub sender: Seq<char>,
    pub sequence_number: i64,
    pub max_gas_amount: Decimal,
    pub expiration_timestamp_secs: Timestamp,
    pub gas_unit_price: Decimal,
    pub timestamp: Timestamp,
    pub inserted_at: Timestamp,
    pub entry_function_id_str: Seq<char>,
}

impl View for UserTransaction {
    type V = UserTransactionView;

    open spec fn view(&self) -> UserTransactionView {
        UserTransactionView {
            version: self.version,
            parent_signature_type: self.parent_signature_type@,
            sender: self.sender@,
            sequence_number: self.sequence_number,
            max_gas_amount: self.max_gas_amount,
            expiration_timestamp_secs: self.expiration_timestamp_secs,
            gas_unit_price: self.gas_unit_price,
            timestamp: self.timestamp,
            inserted_at: self.inserted_at,
            entry_function_id_str: self.entry_function_id_str@,
        }
    }
}

/// The entry-function identifier a payload yields: the fully-qualified
/// function name for an entry-function call, the empty string for every
/// other payload variant.
pub open spec fn spec_entry_function_id(payload: TransactionPayloadView) -> Seq<char> {
    match payload {
        TransactionPayloadView::EntryFunctionPayload(function) => function,
        TransactionPayloadView::ScriptPayload => Seq::empty(),
        TransactionPayloadView::ModuleBundlePayload => Seq::empty(),
        TransactionPayloadView::MultisigPayload => Seq::empty(),
    }
}

/// The normalized signature-type tag: the envelope's stable tag when one is
/// present, the empty string when the transaction carries no signature.
pub open spec fn spec_parent_signature_type(
    signature: Option<SignatureEnvelopeView>,
) -> Seq<char> {
    match signature {
        Some(s) => spec_signature_type(s),
        None => Seq::empty(),
    }
}

/// Whether normalizing the envelope succeeds: always, except when a present
/// signature envelope fails its per-scheme conversion.
pub open spec fn spec_transaction_ok(txn: UserTransactionEnvelopeView) -> bool {
    match txn.request.signature {
        Some(s) => spec_envelope_ok(s),
        None => true,
    }
}

/// The signature records a transaction yields: the resolved envelope's flat
/// records, or none at all when no signature is present.
pub open spec fn spec_transaction_records(
    txn: UserTransactionEnvelopeView,
) -> Seq<SignatureView> {
    match txn.request.signature {
        Some(s) => spec_resolved_records(s, txn.request.sender, txn.info.version as i64),
        None => Seq::empty(),
    }
}

/// The warnings one successful normalization appends: the expiration
/// timestamp's, then the execution timestamp's, each tagged with the
/// transaction's version.
pub open spec fn spec_transaction_warnings(txn: UserTransactionEnvelopeView) -> Seq<Warning> {
    spec_secs_warnings(txn.request.expiration_timestamp_secs, txn.info.version as i64)
        + spec_micros_warnings(txn.timestamp, txn.info.version as i64)
}

/// What `UserTransaction::from_transaction` returns on success, stamped with
/// `now`.
pub open spec fn spec_user_transaction(
    txn: UserTransactionEnvelopeView,
    now: Timestamp,
) -> UserTransactionView {
    UserTransactionView {
        version: txn.info.version as i64,
        parent_signature_type: spec_parent_signature_type(txn.request.signature),
        sender: txn.request.sender,
        sequence_number: txn.request.sequence_number as i64,
        max_gas_amount: spec_to_decimal(txn.request.max_gas_amount),
        expiration_timestamp_secs: spec_parse_timestamp_secs(
            txn.request.expiration_timestamp_secs,
        ),
        gas_unit_price: spec_to_decimal(txn.request.gas_unit_price),
        timestamp: spec_parse_timestamp(txn.timestamp),
        inserted_at: now,
        entry_function_id_str: spec_entry_function_id(txn.request.payload),
    }
}

impl UserTransaction {
    /// Normalizes one user transaction envelope into its canonical record and
    /// its signature records, stamped with `now`. Succeeds for every envelope
    /// whose signature, if present, resolves; a present-but-undecodable
    /// signature fails the whole call atomically — no record and no warning
    /// escapes. Out-of-range timestamps are clamped, each appending one
    /// warning tagged with the transaction's version.
    pub fn from_transaction(
        txn: UserTransactionEnvelope,
        now: Timestamp,
        warnings: &mut Vec<Warning>,
    ) -> (r: Result<(UserTransaction, Vec<Signature>), SignatureError>)
        ensures
            r is Ok <==> spec_transaction_ok(txn@),
            r matches Ok(p) ==> {
                &&& p.0@ == spec_user_transaction(txn@, now)
                &&& p.1.deep_view() == spec_transaction_records(txn@)
                &&& final(warnings)@ == old(warnings)@ + spec_transaction_warnings(txn@)
            },
            r matches Err(e) ==> {
                &&& txn@.request.signature matches Some(s) && e.message@ == spec_first_error(s)
                &&& final(warnings)@ == old(warnings)@
            },
    {
        let UserTransactionEnvelope { info, request, timestamp } = txn;
        #[verifier::truncate]
        let version: i64 = info.version as i64;
        let UserTransactionRequest {
            sender,
            sequence_number,
            max_gas_amount,
            gas_unit_price,
            expiration_timestamp_secs,
            payload,
            signature,
        } = request;
        let parent_and_records: (String, Vec<Signature>) = match signature {
            None => (String::new(), Vec::new()),
            Some(s) => {
                let tag = Signature::get_signature_type(&s);
                match Signature::from_user_transaction(s, &sender, version) {
                    Ok(records) => (tag, records),
                    Err(e) => {
                        return Err(e);
                    },
                }
            },
        };
        let (parent_signature_type, sig_records) = parent_and_records;
        let expiration = parse_timestamp_secs(expiration_timestamp_secs, version, warnings);
        let execution_time = parse_timestamp(timestamp, version, warnings);
        #[verifier::truncate]
        let sequence_number_i64: i64 = sequence_number as i64;
        let entry_function_id_str = match payload {
            TransactionPayload::EntryFunctionPayload(entry) => entry.function,
            TransactionPayload::ScriptPayload => String::new(),
            TransactionPayload::ModuleBundlePayload => String::new(),
            TransactionPayload::MultisigPayload => String::new(),
        };
        let record = UserTransaction {
            version,
            parent_signature_type,
            sender,
            sequence_number: sequence_number_i64,
            max_gas_amount: to_decimal(max_gas_amount),
            expiration_timestamp_secs: expiration,
            gas_unit_price: to_decimal(gas_unit_price),
            timestamp: execution_time,
            inserted_at: now,
            entry_function_id_str,
        };
        proof {
            assert(warnings@ =~= old(warnings)@ + spec_transaction_warnings(txn@));
            assert(record@ == spec_user_transaction(txn@, now));
            assert(sig_records.deep_view() =~= spec_transaction_records(txn@));
        }
        Ok((record, sig_records))
    }
}

/// Law: a transaction with no signature yields an empty signature-type tag
/// and an empty signature-record sequence.
pub proof fn lemma_unsigned_transaction_is_bare(txn: UserTransactionEnvelopeView, now: Timestamp)
    requires
        txn.request.signature is None,
    ensures
        spec_user_transaction(txn, now).parent_signature_type == Seq::<char>::empty(),
        spec_transaction_records(txn) == Seq::<SignatureView>::empty(),
        spec_transaction_ok(txn),
{
}

/// Law: an entry-function payload's fully-qualified identifier is carried
/// into the record as it stands; every other payload variant yields the
/// empty identifier.
pub proof fn lemma_entry_function_id(txn: UserTransactionEnvelopeView, now: Timestamp)
    ensures
        (txn.request.payload matches TransactionPayloadView::EntryFunctionPayload(function)
            ==> spec_user_transaction(txn, now).entry_function_id_str == function),
        (!(txn.request.payload is EntryFunctionPayload) ==> spec_user_transaction(
            txn,
            now,
        ).entry_function_id_str == Seq::<char>::empty()),
{
}

/// Law: normalizing the same envelope twice yields records identical except
/// for the record-creation stamp `inserted_at`; the signature records do not
/// depend on the stamp at all.
pub proof fn lemma_transaction_idempotent(
    txn: UserTransactionEnvelopeView,
    now1: Timestamp,
    now2: Timestamp,
)
    ensures
        spec_user_transaction(txn, now1) == (UserTransactionView {
            inserted_at: now1,
            ..spec_user_transaction(txn, now2)
        }),
{
}

} // verus!
