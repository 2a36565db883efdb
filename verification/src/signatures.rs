//! Signature resolution: a polymorphic signature envelope becomes a stable
//! classification tag and a flat sequence of signature records.
//!
//! The per-scheme signature decoding is an external collaborator; an envelope
//! arrives carrying, for its variant, that collaborator's outcome — the
//! flattened signature instances, or its failure. A present envelope whose
//! decode failed indicates upstream corruption, so it fails the whole
//! transaction's normalization instead of being swallowed.

use vstd::prelude::*;
use vstd::string::StringExecFns;

verus! {

/// One decoded signature instance as the external per-scheme converter hands
/// it over: the signing public key and the signature bytes.
#[derive(Clone, Debug, PartialEq)]
pub struct SignatureInstance {
    pub public_key: Vec<u8>,
    pub signature: Vec<u8>,
}

/// Mathematical model of `SignatureInstance`.
pub ghost struct SignatureInstanceView {
    pub public_key: Seq<u8>,
    pub signature: Seq<u8>,
}

impl View for SignatureInstance {
    type V = SignatureInstanceView;

    open spec fn view(&self) -> SignatureInstanceView {
        SignatureInstanceView { public_key: self.public_key@, signature: self.signature@ }
    }
}

impl DeepView for SignatureInstance {
    type V = SignatureInstanceView;

    open spec fn deep_view(&self) -> SignatureInstanceView {
        self.view()
    }
}

/// The outcome of the external per-scheme converter for one signature
/// scheme: the decoded signature instances, or the failure it reported.
#[derive(Clone, Debug, PartialEq)]
pub enum SchemeOutcome {
    Decoded(Vec<SignatureInstance>),
    Failed(String),
}

impl View for SchemeOutcome {
    type V = Result<Seq<SignatureInstanceView>, Seq<char>>;

    open spec fn view(&self) -> Result<Seq<SignatureInstanceView>, Seq<char>> {
        match self {
            SchemeOutcome::Decoded(instances) => Ok(instances.deep_view()),
            SchemeOutcome::Failed(message) => Err(message@),
        }
    }
}

/// One secondary signer of a multi-agent transaction: its account address
/// and the converter's outcome for its own signature.
#[derive(Clone, Debug, PartialEq)]
pub struct SecondarySigner {
    pub address: String,
    pub outcome: SchemeOutcome,
}

/// Mathematical model of `SecondarySigner`.
pub ghost struct SecondarySignerView {
    pub address: Seq<char>,
    pub outcome: Result<Seq<SignatureInstanceView>, Seq<char>>,
}

impl View for SecondarySigner {
    type V = SecondarySignerView;

    open spec fn view(&self) -> SecondarySignerView {
        SecondarySignerView { address: self.address@, outcome: self.outcome@ }
    }
}

impl DeepView for SecondarySigner {
    type V = SecondarySignerView;

    open spec fn deep_view(&self) -> SecondarySignerView {
        self.view()
    }
}

/// A user transaction's signature envelope: one of the known signature
/// schemes, each carrying the external converter's outcome. The variant set
/// is closed, so a new scheme is a compile-time-checked decision.
#[derive(Clone, Debug, PartialEq)]
pub enum SignatureEnvelope {
    /// A single-key signature.
    Ed25519(SchemeOutcome),
    /// A threshold multi-signature.
    MultiEd25519(SchemeOutcome),
    /// A multi-agent signature: the sender's own signature and one
    /// signature per secondary signer.
    MultiAgent { sender: SchemeOutcome, secondary_signers: Vec<SecondarySigner> },
}

/// Mathematical model of `SignatureEnvelope`.
pub ghost enum SignatureEnvelopeView {
    Ed25519(Result<Seq<SignatureInstanceView>, Seq<char>>),
    MultiEd25519(Result<Seq<SignatureInstanceView>, Seq<char>>),
    MultiAgent {
        sender: Result<Seq<SignatureInstanceView>, Seq<char>>,
        secondary_signers: Seq<SecondarySignerView>,
    },
}

impl View for SignatureEnvelope {
    type V = SignatureEnvelopeView;

    open spec fn view(&self) -> SignatureEnvelopeView {
        match self {
            SignatureEnvelope::Ed25519(outcome) => SignatureEnvelopeView::Ed25519(outcome@),
            SignatureEnvelope::MultiEd25519(outcome) => SignatureEnvelopeView::MultiEd25519(
                outcome@,
            ),
            SignatureEnvelope::MultiAgent { sender, secondary_signers } =>
                SignatureEnvelopeView::MultiAgent {
                    sender: sender@,
                    secondary_signers: secondary_signers.deep_view(),
                },
        }
    }
}

/// Canonical record of one decoded signature instance, keyed by the version
/// of the transaction that carried it.
#[derive(Clone, Debug, PartialEq)]
pub struct Signature {
    pub transaction_version: i64,
    pub signer: String,
    pub is_sender_primary: bool,
    pub public_key: Vec<u8>,
    pub signature: Vec<u8>,
}

/// Mathematical model of a `Signature` record.
pub ghost struct SignatureView {
    pub transaction_version: i64,
    pub signer: Seq<char>,
    pub is_sender_primary: bool,
    pub public_key: Seq<u8>,
    pub signature: Seq<u8>,
}

impl View for Signature {
    type V = SignatureView;

    open spec fn view(&self) -> SignatureView {
        SignatureView {
            transaction_version: self.transaction_version,
            signer: self.signer@,
            is_sender_primary: self.is_sender_primary,
            public_key: self.public_key@,
            signature: self.signature@,
        }
    }
}

impl DeepView for Signature {
    type V = SignatureView;

    open spec fn deep_view(&self) -> SignatureView {
        self.view()
    }
}

/// The failure of a present-but-undecodable signature envelope: upstream
/// corruption that the caller must not receive silently.
#[derive(Clone, Debug, PartialEq)]
pub struct SignatureError {
    pub message: String,
}

/// The stable classification tag of each signature variant.
pub open spec fn spec_signature_type(s: SignatureEnvelopeView) -> Seq<char> {
    match s {
        SignatureEnvelopeView::Ed25519(_) => "ed25519_signature"@,
        SignatureEnvelopeView::MultiEd25519(_) => "multi_ed25519_signature"@,
        SignatureEnvelopeView::MultiAgent { .. } => "multi_agent_signature"@,
    }
}

/// The record one signature instance yields for the signer `signer`.
pub open spec fn spec_signature_record(
    instance: SignatureInstanceView,
    signer: Seq<char>,
    is_sender_primary: bool,
    version: i64,
) -> SignatureView {
    SignatureView {
        transaction_version: version,
        signer: signer,
        is_sender_primary: is_sender_primary,
        public_key: instance.public_key,
        signature: instance.signature,
    }
}

/// The records a sequence of instances yields, in order, all for one signer.
pub open spec fn spec_records_of(
    instances: Seq<SignatureInstanceView>,
    signer: Seq<char>,
    is_sender_primary: bool,
    version: i64,
) -> Seq<SignatureView> {
    instances.map(
        |i: int, instance: SignatureInstanceView|
            spec_signature_record(instance, signer, is_sender_primary, version),
    )
}

/// Whether every per-scheme conversion in the envelope succeeded: exactly
/// then does resolution succeed.
pub open spec fn spec_envelope_ok(s: SignatureEnvelopeView) -> bool {
    match s {
        SignatureEnvelopeView::Ed25519(outcome) => outcome is Ok,
        SignatureEnvelopeView::MultiEd25519(outcome) => outcome is Ok,
        SignatureEnvelopeView::MultiAgent { sender, secondary_signers } => sender is Ok
            && forall|i: int|
                0 <= i < secondary_signers.len() ==> (#[trigger] secondary_signers[i].outcome)
                    is Ok,
    }
}

/// The records of a run of secondary signers whose conversions succeeded,
/// one signer's records after another, in the envelope's order.
pub open spec fn spec_secondary_records(
    secondary_signers: Seq<SecondarySignerView>,
    version: i64,
) -> Seq<SignatureView>
    decreases secondary_signers.len(),
{
    if secondary_signers.len() == 0 {
        Seq::empty()
    } else {
        spec_secondary_records(secondary_signers.drop_last(), version) + spec_records_of(
            secondary_signers.last().outcome->Ok_0,
            secondary_signers.last().address,
            false,
            version,
        )
    }
}

/// The flattened records of a successfully resolved envelope: the sender's
/// records first (primary), then each secondary signer's in order.
pub open spec fn spec_resolved_records(
    s: SignatureEnvelopeView,
    sender: Seq<char>,
    version: i64,
) -> Seq<SignatureView> {
    match s {
        SignatureEnvelopeView::Ed25519(outcome) => spec_records_of(
            outcome->Ok_0,
            sender,
            true,
            version,
        ),
        SignatureEnvelopeView::MultiEd25519(outcome) => spec_records_of(
            outcome->Ok_0,
            sender,
            true,
            version,
        ),
        SignatureEnvelopeView::MultiAgent { sender: sender_outcome, secondary_signers } =>
            spec_records_of(sender_outcome->Ok_0, sender, true, version)
                + spec_secondary_records(secondary_signers, version),
    }
}

/// The message of the first failed conversion among the secondary signers;
/// meaningful only when one failed.
pub open spec fn spec_first_secondary_error(
    secondary_signers: Seq<SecondarySignerView>,
) -> Seq<char>
    decreases secondary_signers.len(),
{
    if secondary_signers.len() == 0 {
        Seq::empty()
    } else if secondary_signers.first().outcome is Err {
        secondary_signers.first().outcome->Err_0
    } else {
        spec_first_secondary_error(secondary_signers.drop_first())
    }
}

/// The message of the first failed conversion in the envelope; meaningful
/// only when the envelope is not ok.
pub open spec fn spec_first_error(s: SignatureEnvelopeView) -> Seq<char> {
    match s {
        SignatureEnvelopeView::Ed25519(outcome) => outcome->Err_0,
        SignatureEnvelopeView::MultiEd25519(outcome) => outcome->Err_0,
        SignatureEnvelopeView::MultiAgent { sender, secondary_signers } => if sender is Err {
            sender->Err_0
        } else {
            spec_first_secondary_error(secondary_signers)
        },
    }
}

/// If the first `k` secondary conversions succeeded and the `k`-th failed,
/// the first error of the run is the `k`-th signer's message.
proof fn lemma_first_secondary_error_at(
    secondary_signers: Seq<SecondarySignerView>,
    k: int,
)
    requires
        0 <= k < secondary_signers.len(),
        forall|j: int| 0 <= j < k ==> (#[trigger] secondary_signers[j].outcome) is Ok,
        secondary_signers[k].outcome is Err,
    ensures
        spec_first_secondary_error(secondary_signers) == secondary_signers[k].outcome->Err_0,
    decreases k,
{
    if k == 0 {
    } else {
        assert(secondary_signers.drop_first()[k - 1] == secondary_signers[k]);
        assert(forall|j: int|
            0 <= j < k - 1 ==> (#[trigger] secondary_signers.drop_first()[j].outcome) is Ok
            && secondary_signers.drop_first()[j] == secondary_signers[j + 1]);
        lemma_first_secondary_error_at(secondary_signers.drop_first(), k - 1);
    }
}

/// The deep view of a vector is its shallow view, element by element.
proof fn lemma_deep_view_parts<T: DeepView>(v: Vec<T>)
    ensures
        v.deep_view().len() == v@.len(),
        forall|i: int| 0 <= i < v@.len() ==> #[trigger] v.deep_view()[i] == v@[i].deep_view(),
{
}

/// Appends the records of one signer's decoded instances, consuming them.
fn push_instance_records(
    records: &mut Vec<Signature>,
    instances: Vec<SignatureInstance>,
    signer: &String,
    is_sender_primary: bool,
    version: i64,
)
    ensures
        final(records).deep_view() == old(records).deep_view() + spec_records_of(
            instances.deep_view(),
            signer@,
            is_sender_primary,
            version,
        ),
{
    let ghost all = instances.deep_view();
    let mut remaining = instances;
    while remaining.len() > 0
        invariant
            remaining@.len() <= all.len(),
            remaining.deep_view() =~= all.subrange(
                all.len() - remaining@.len(),
                all.len() as int,
            ),
            records.deep_view() =~= old(records).deep_view() + spec_records_of(
                all.take(all.len() - remaining@.len()),
                signer@,
                is_sender_primary,
                version,
            ),
        decreases remaining.len(),
    {
        let ghost k = all.len() - remaining@.len();
        let ghost prev = remaining;
        let ghost before = *records;
        let instance = remaining.remove(0);
        let record = Signature {
            transaction_version: version,
            signer: signer.clone(),
            is_sender_primary,
            public_key: instance.public_key,
            signature: instance.signature,
        };
        records.push(record);
        proof {
            lemma_deep_view_parts(prev);
            lemma_deep_view_parts(remaining);
            lemma_deep_view_parts(before);
            lemma_deep_view_parts(*records);
            assert(instance == prev@[0]);
            assert(instance@ == prev.deep_view()[0]);
            assert(instance@ == all[k]);
            assert(remaining@ =~= prev@.subrange(1, prev@.len() as int));
            assert forall|i: int| 0 <= i < remaining@.len() implies #[trigger] remaining.deep_view()[i]
                == all[k + 1 + i] by {
                assert(remaining@[i] == prev@[i + 1]);
                assert(prev.deep_view()[i + 1] == prev@[i + 1].deep_view());
            }
            assert(remaining.deep_view() =~= all.subrange(k + 1, all.len() as int));
            assert(record@ == spec_signature_record(all[k], signer@, is_sender_primary, version));
            assert(records@ =~= before@.push(record));
            assert forall|i: int| 0 <= i < records@.len() implies #[trigger] records.deep_view()[i]
                == (old(records).deep_view() + spec_records_of(
                all.take(k + 1),
                signer@,
                is_sender_primary,
                version,
            ))[i] by {
                if i < before@.len() {
                    assert(records@[i] == before@[i]);
                    assert(before.deep_view()[i] == before@[i].deep_view());
                } else {
                    assert(records@[i] == record);
                }
            }
            assert(records.deep_view() =~= old(records).deep_view() + spec_records_of(
                all.take(k + 1),
                signer@,
                is_sender_primary,
                version,
            ));
        }
    }
    proof {
        assert(all.take(all.len() as int) =~= all);
    }
}

impl Signature {
    /// The stable classification tag of the envelope's variant, used
    /// downstream for analytics and filtering.
    pub fn get_signature_type(s: &SignatureEnvelope) -> (r: String)
        ensures
            r@ == spec_signature_type(s@),
    {
        match s {
            SignatureEnvelope::Ed25519(_) => String::from_str("ed25519_signature"),
            SignatureEnvelope::MultiEd25519(_) => String::from_str("multi_ed25519_signature"),
            SignatureEnvelope::MultiAgent { .. } => String::from_str("multi_agent_signature"),
        }
    }

    /// Flattens a present signature envelope into records for transaction
    /// `version`, sent by `sender`. Succeeds exactly when every per-scheme
    /// conversion in the envelope succeeded; otherwise it fails with the
    /// first conversion failure, and no partial records escape.
    pub fn from_user_transaction(
        s: SignatureEnvelope,
        sender: &String,
        version: i64,
    ) -> (r: Result<Vec<Signature>, SignatureError>)
        ensures
            r is Ok <==> spec_envelope_ok(s@),
            r matches Ok(records) ==> records.deep_view() == spec_resolved_records(
                s@,
                sender@,
                version,
            ),
            r matches Err(e) ==> e.message@ == spec_first_error(s@),
    {
        match s {
            SignatureEnvelope::Ed25519(outcome) => Self::records_of_sender_outcome(
                outcome,
                sender,
                version,
            ),
            SignatureEnvelope::MultiEd25519(outcome) => Self::records_of_sender_outcome(
                outcome,
                sender,
                version,
            ),
            SignatureEnvelope::MultiAgent { sender: sender_outcome, secondary_signers } => {
                let ghost env = SignatureEnvelopeView::MultiAgent {
                    sender: sender_outcome@,
                    secondary_signers: secondary_signers.deep_view(),
                };
                let mut records: Vec<Signature> = Vec::new();
                match sender_outcome {
                    SchemeOutcome::Decoded(instances) => {
                        push_instance_records(&mut records, instances, sender, true, version);
                    },
                    SchemeOutcome::Failed(message) => {
                        return Err(SignatureError { message });
                    },
                }
                let ghost primary = records.deep_view();
                let ghost all = secondary_signers.deep_view();
                let mut remaining = secondary_signers;
                #[verifier::loop_isolation(false)]
                while remaining.len() > 0
                    invariant
                        remaining@.len() <= all.len(),
                        remaining.deep_view() =~= all.subrange(
                            all.len() - remaining@.len(),
                            all.len() as int,
                        ),
                        forall|j: int|
                            0 <= j < all.len() - remaining@.len() ==> (
                            #[trigger] all[j].outcome) is Ok,
                        records.deep_view() =~= primary + spec_secondary_records(
                            all.take(all.len() - remaining@.len()),
                            version,
                        ),
                    decreases remaining.len(),
                {
                    let ghost k = all.len() - remaining@.len();
                    let ghost prev = remaining;
                    let signer = remaining.remove(0);
                    proof {
                        lemma_deep_view_parts(prev);
                        lemma_deep_view_parts(remaining);
                        assert(signer == prev@[0]);
                        assert(signer@ == prev.deep_view()[0]);
                        assert(signer@ == all[k]);
                        assert(remaining@ =~= prev@.subrange(1, prev@.len() as int));
                        assert forall|i: int|
                            0 <= i < remaining@.len() implies #[trigger] remaining.deep_view()[i]
                            == all[k + 1 + i] by {
                            assert(remaining@[i] == prev@[i + 1]);
                            assert(prev.deep_view()[i + 1] == prev@[i + 1].deep_view());
                        }
                        assert(remaining.deep_view() =~= all.subrange(k + 1, all.len() as int));
                    }
                    match signer.outcome {
                        SchemeOutcome::Decoded(instances) => {
                            push_instance_records(
                                &mut records,
                                instances,
                                &signer.address,
                                false,
                                version,
                            );
                            proof {
                                assert(all.take(k + 1).drop_last() =~= all.take(k));
                                assert(all.take(k + 1).last() == all[k]);
                                assert(records.deep_view() =~= primary + spec_secondary_records(
                                    all.take(k + 1),
                                    version,
                                ));
                            }
                        },
                        SchemeOutcome::Failed(message) => {
                            proof {
                                lemma_first_secondary_error_at(all, k);
                                assert(all[k].outcome is Err);
                                assert(s@ == env);
                                assert(!spec_envelope_ok(s@));
                                assert(message@ == all[k].outcome->Err_0);
                            }
                            return Err(SignatureError { message });
                        },
                    }
                }
                proof {
                    assert(all.take(all.len() as int) =~= all);
                    assert(s@ == env);
                    assert(spec_envelope_ok(s@));
                    assert(records.deep_view() =~= spec_resolved_records(s@, sender@, version));
                }
                Ok(records)
            },
        }
    }

    /// Turns the sender's own conversion outcome into its records, or into
    /// the resolution failure.
    fn records_of_sender_outcome(
        outcome: SchemeOutcome,
        sender: &String,
        version: i64,
    ) -> (r: Result<Vec<Signature>, SignatureError>)
        ensures
            r is Ok <==> outcome@ is Ok,
            r matches Ok(records) ==> records.deep_view() == spec_records_of(
                outcome@->Ok_0,
                sender@,
                true,
                version,
            ),
            r matches Err(e) ==> e.message@ == outcome@->Err_0,
    {
        match outcome {
            SchemeOutcome::Decoded(instances) => {
                let mut records: Vec<Signature> = Vec::new();
                push_instance_records(&mut records, instances, sender, true, version);
                assert(records.deep_view() =~= spec_records_of(
                    instances.deep_view(),
                    sender@,
                    true,
                    version,
                ));
                Ok(records)
            },
            SchemeOutcome::Failed(message) => Err(SignatureError { message }),
        }
    }
}

} // verus!
