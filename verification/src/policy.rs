//! The trust policy applied to the outcome of a signature check.
//!
//! Whether a signature checks out mathematically is decided elsewhere; this
//! module decides whether a message with a given outcome is accepted. The
//! policy knows one shape of message: a single signature group at the
//! outermost layer, whose first result is the one that counts.

use vstd::prelude::*;

verus! {

/// Why a checked message is not accepted as authentic.
#[derive(Debug, Clone, Copy, PartialEq, Eq, Structural)]
pub enum PolicyError {
    /// The message is not one flat signature group at the outermost layer.
    UnexpectedStructure,
    /// There is no signature result to judge.
    NoSignature,
    /// The signature does not check out against the key.
    BadSignature,
    /// No key was found for the claimed signer.
    MissingKey,
}

/// The outcome of checking one signature against the keys at hand.
#[derive(Debug, Clone, PartialEq, Eq)]
pub enum VerificationOutcome {
    /// The signature checks out.
    GoodChecksum,
    /// The signature does not check out.
    BadChecksum,
    /// No key matches the signer that the signature names; the field holds
    /// the key identifier of that signer.
    MissingKey(Vec<u8>),
    /// No result at all.
    Absent,
}

/// One layer of a message.
#[derive(Debug, Clone, PartialEq, Eq)]
pub enum MessageLayer {
    /// A group of signatures over the same data, with one outcome each.
    SignatureGroup { results: Vec<VerificationOutcome> },
    /// Any other kind of layer, such as compression or encryption.
    Other,
}

/// The mathematical value of a [`VerificationOutcome`].
pub enum OutcomeView {
    GoodChecksum,
    BadChecksum,
    MissingKey(Seq<u8>),
    Absent,
}

/// The mathematical value of a [`MessageLayer`].
pub enum LayerView {
    SignatureGroup { results: Seq<OutcomeView> },
    Other,
}

impl View for VerificationOutcome {
    type V = OutcomeView;

    open spec fn view(&self) -> OutcomeView {
        match self {
            VerificationOutcome::GoodChecksum => OutcomeView::GoodChecksum,
            VerificationOutcome::BadChecksum => OutcomeView::BadChecksum,
            VerificationOutcome::MissingKey(id) => OutcomeView::MissingKey(id@),
            VerificationOutcome::Absent => OutcomeView::Absent,
        }
    }
}

impl View for MessageLayer {
    type V = LayerView;

    open spec fn view(&self) -> LayerView {
        match self {
            MessageLayer::SignatureGroup { results } => LayerView::SignatureGroup {
                results: results@.map_values(|o: VerificationOutcome| o@),
            },
            MessageLayer::Other => LayerView::Other,
        }
    }
}

/// The layers of a message, outermost first, each by its view.
pub open spec fn structure_view(layers: Seq<MessageLayer>) -> Seq<LayerView> {
    layers.map_values(|l: MessageLayer| l@)
}

/// The first result of a group, if it has one.
pub open spec fn first_outcome(results: Seq<OutcomeView>) -> Option<OutcomeView> {
    if results.len() == 0 {
        None
    } else {
        Some(results[0])
    }
}

/// The decision table: what the policy makes of the one outcome it consults.
pub open spec fn outcome_verdict(outcome: Option<OutcomeView>) -> Result<(), PolicyError> {
    match outcome {
        Some(OutcomeView::GoodChecksum) => Ok(()),
        Some(OutcomeView::BadChecksum) => Err(PolicyError::BadSignature),
        Some(OutcomeView::MissingKey(_)) => Err(PolicyError::MissingKey),
        Some(OutcomeView::Absent) => Err(PolicyError::NoSignature),
        None => Err(PolicyError::NoSignature),
    }
}

/// The verdict on a whole message.
///
/// The outermost layer is judged first: it must be a signature group, and the
/// first result of that group must pass the decision table. A message that
/// passes so far is accepted only if it has no further layer.
pub open spec fn policy_verdict(structure: Seq<LayerView>) -> Result<(), PolicyError> {
    if structure.len() == 0 {
        Err(PolicyError::NoSignature)
    } else {
        match structure[0] {
            LayerView::Other => Err(PolicyError::UnexpectedStructure),
            LayerView::SignatureGroup { results } => match outcome_verdict(first_outcome(results)) {
                Err(e) => Err(e),
                Ok(_) => if structure.len() == 1 {
                    Ok(())
                } else {
                    Err(PolicyError::UnexpectedStructure)
                },
            },
        }
    }
}

/// The one outcome that the policy consults: the first result of the
/// outermost layer, where that layer is a signature group with a result.
pub open spec fn consulted_outcome(structure: Seq<LayerView>) -> Option<OutcomeView> {
    if structure.len() == 0 {
        None
    } else {
        match structure[0] {
            LayerView::SignatureGroup { results } => first_outcome(results),
            LayerView::Other => None,
        }
    }
}

/// The one shape of message that the policy knows: a single layer, which is
/// a signature group.
pub open spec fn is_single_group(structure: Seq<LayerView>) -> bool {
    structure.len() == 1 && structure[0] is SignatureGroup
}

/// A message is accepted exactly when it is a single signature group whose
/// first result is a good checksum.
pub open spec fn is_single_good_group(structure: Seq<LayerView>) -> bool {
    &&& structure.len() == 1
    &&& structure[0] matches LayerView::SignatureGroup { results }
    &&& results.len() > 0
    &&& results[0] is GoodChecksum
}

impl PolicyError {
    /// The text of [`PolicyError::message`].
    pub open spec fn message_text(self) -> Seq<char> {
        match self {
            PolicyError::UnexpectedStructure => "Unexpected message structure"@,
            PolicyError::NoSignature => "No signature"@,
            PolicyError::BadSignature => "signature verification failed"@,
            PolicyError::MissingKey => "missing PGP key for signature"@,
        }
    }

    /// A line of text for a person to read.
    pub fn message(&self) -> (text: &'static str)
        ensures
            text@ == self.message_text(),
    {
        match self {
            PolicyError::UnexpectedStructure => "Unexpected message structure",
            PolicyError::NoSignature => "No signature",
            PolicyError::BadSignature => "signature verification failed",
            PolicyError::MissingKey => "missing PGP key for signature",
        }
    }
}

/// Applies the decision table to the one outcome that the policy consults.
pub fn judge(outcome: Option<&VerificationOutcome>) -> (verdict: Result<(), PolicyError>)
    ensures
        verdict == outcome_verdict(
            match outcome {
                Some(o) => Some(o@),
                None => None,
            },
        ),
{
    match outcome {
        Some(VerificationOutcome::GoodChecksum) => Ok(()),
        Some(VerificationOutcome::BadChecksum) => Err(PolicyError::BadSignature),
        Some(VerificationOutcome::MissingKey(_)) => Err(PolicyError::MissingKey),
        Some(VerificationOutcome::Absent) => Err(PolicyError::NoSignature),
        None => Err(PolicyError::NoSignature),
    }
}

/// Decides whether a message with the given layers, outermost first, is
/// accepted as authentic.
pub fn check(structure: &[MessageLayer]) -> (verdict: Result<(), PolicyError>)
    ensures
        verdict == policy_verdict(structure_view(structure@)),
        verdict is Ok <==> is_single_good_group(structure_view(structure@)),
{
    let mut good = false;
    let mut i: usize = 0;
    while i < structure.len()
        invariant
            i <= structure.len(),
            i == 0 ==> !good,
            i > 0 ==> i == 1 && good && is_single_good_group(
                structure_view(structure@).subrange(0, 1),
            ),
        decreases structure.len() - i,
    {
        match &structure[i] {
            MessageLayer::SignatureGroup { results } => {
                if i != 0 {
                    return Err(PolicyError::UnexpectedStructure);
                }
                let first = if results.len() > 0 {
                    Some(&results[0])
                } else {
                    None
                };
                match judge(first) {
                    Ok(_) => {
                        good = true;
                    },
                    Err(e) => {
                        return Err(e);
                    },
                }
            },
            MessageLayer::Other => {
                return Err(PolicyError::UnexpectedStructure);
            },
        }
        i += 1;
    }
    if good {
        Ok(())
    } else {
        Err(PolicyError::NoSignature)
    }
}

/// A message is accepted if and only if it is a single signature group whose
/// first result is a good checksum.
pub proof fn lemma_accepted_iff_single_good_group(structure: Seq<LayerView>)
    ensures
        policy_verdict(structure) is Ok <==> is_single_good_group(structure),
{
}

/// A signature that does not check out, or whose key is missing, is never
/// accepted: the verdict names the failure, whatever else the message holds.
pub proof fn lemma_failed_check_is_rejected(structure: Seq<LayerView>)
    requires
        consulted_outcome(structure) matches Some(outcome) && (outcome is BadChecksum
            || outcome is MissingKey),
    ensures
        policy_verdict(structure) is Err,
        consulted_outcome(structure)->Some_0 is BadChecksum ==> policy_verdict(structure) == Err::<
            (),
            PolicyError,
        >(PolicyError::BadSignature),
        consulted_outcome(structure)->Some_0 is MissingKey ==> policy_verdict(structure) == Err::<
            (),
            PolicyError,
        >(PolicyError::MissingKey),
{
}

/// A message of any other shape than a single signature group is never
/// accepted. It is rejected for the failure of the signature that the policy
/// consults, where that signature has failed, and else for its shape: as
/// having no signature where it has no layer, as an unexpected structure
/// where it has a layer that the policy does not know or a layer too many.
pub proof fn lemma_unrecognized_shape_is_rejected(structure: Seq<LayerView>)
    requires
        !is_single_group(structure),
    ensures
        policy_verdict(structure) is Err,
        structure.len() == 0 ==> policy_verdict(structure) == Err::<(), PolicyError>(
            PolicyError::NoSignature,
        ),
        structure.len() > 0 && structure[0] is Other ==> policy_verdict(structure) == Err::<
            (),
            PolicyError,
        >(PolicyError::UnexpectedStructure),
        structure.len() > 1 && structure[0] is SignatureGroup ==> policy_verdict(structure) == (
        match outcome_verdict(consulted_outcome(structure)) {
            Ok(_) => Err::<(), PolicyError>(PolicyError::UnexpectedStructure),
            Err(e) => Err::<(), PolicyError>(e),
        }),
{
}

/// A message without layers, with a layer that is not a signature group,
/// with more than one layer, or without a result in its group is rejected as
/// having no signature or an unexpected structure, unless the signature that
/// the policy consults has itself failed.
pub proof fn lemma_malformed_structure_is_rejected(structure: Seq<LayerView>)
    requires
        !is_single_group(structure) || consulted_outcome(structure) is None || consulted_outcome(
            structure,
        ) == Some(OutcomeView::Absent),
        !(consulted_outcome(structure) matches Some(outcome) && (outcome is BadChecksum
            || outcome is MissingKey)),
    ensures
        policy_verdict(structure) == Err::<(), PolicyError>(PolicyError::NoSignature)
            || policy_verdict(structure) == Err::<(), PolicyError>(
            PolicyError::UnexpectedStructure,
        ),
{
}

/// The verdict depends on the layers alone: two messages with the same
/// layers get the same verdict.
pub proof fn lemma_verdict_is_repeatable(first: Seq<LayerView>, second: Seq<LayerView>)
    requires
        first.len() == second.len(),
        forall|i: int| 0 <= i < first.len() ==> first[i] == second[i],
    ensures
        policy_verdict(first) == policy_verdict(second),
{
    assert(first =~= second);
}

} // verus!
