//! Receipts, and the decision whether one is bound to an image.
//!
//! The algebra that checks a seal against the circuit lives outside this
//! crate. It reports what it found in a seal; what follows from the report
//! is decided here.

use vstd::prelude::*;

verus! {

/// A commitment of eight words, such as the root of a memory image.
#[derive(Clone, Copy, Debug, PartialEq, Eq)]
pub struct Digest {
    /// The words of the commitment.
    pub words: [u32; 8],
}

impl Digest {
    /// Whether two commitments hold the same words.
    pub fn same(&self, other: &Digest) -> (r: bool)
        ensures
            r == (self.words@ == other.words@),
    {
        let mut i: usize = 0;
        while i < 8
            invariant
                i <= 8,
                forall|j: int| 0 <= j < i ==> self.words@[j] == other.words@[j],
            decreases 8 - i,
        {
            if self.words[i] != other.words[i] {
                return false;
            }
            i += 1;
        }
        assert(self.words@ =~= other.words@);
        true
    }
}

/// What a run hands out: the guest's public output, and the proof that the
/// output came from the run. Nothing else survives the process.
#[derive(Clone, Debug, PartialEq, Eq)]
pub struct Receipt {
    /// The bytes that the guest committed.
    pub journal: Vec<u8>,
    /// The proof; empty where sealing was skipped.
    pub seal: Vec<u8>,
}

/// What the seal verifier found in a receipt.
#[derive(Clone, Copy, Debug)]
pub struct SealReport {
    /// The seal satisfies the circuit's constraints.
    pub sound: bool,
    /// The image that the seal commits to.
    pub image_id: Digest,
    /// The seal commits to the receipt's journal.
    pub journal_bound: bool,
}

/// Why a receipt was not accepted.
#[derive(Clone, Copy, Debug, PartialEq, Eq, Structural)]
pub enum VerificationError {
    /// The receipt carries no seal.
    SealMissing,
    /// The seal does not satisfy the circuit's constraints.
    SealInvalid,
    /// The seal commits to another image.
    ImageIdMismatch,
    /// The seal commits to another journal.
    JournalMismatch,
}

impl VerificationError {
    /// The message shown to a user.
    pub fn to_string(&self) -> (r: String)
        ensures
            r@ == match *self {
                VerificationError::SealMissing => "the receipt has no seal"@,
                VerificationError::SealInvalid => "the seal is not valid"@,
                VerificationError::ImageIdMismatch => "the seal is bound to another image"@,
                VerificationError::JournalMismatch => "the seal is bound to another journal"@,
            },
    {
        match self {
            VerificationError::SealMissing => "the receipt has no seal".to_owned(),
            VerificationError::SealInvalid => "the seal is not valid".to_owned(),
            VerificationError::ImageIdMismatch => "the seal is bound to another image".to_owned(),
            VerificationError::JournalMismatch => "the seal is bound to another journal".to_owned(),
        }
    }
}

/// The verdict on a receipt with a seal of `seal_len` bytes, given the
/// verifier's report and the image that the caller expects. A receipt is
/// accepted only if nothing at all is amiss.
pub open spec fn verdict(seal_len: nat, report: SealReport, image_id: Digest) -> Result<
    (),
    VerificationError,
> {
    if seal_len == 0 {
        Err(VerificationError::SealMissing)
    } else if !report.sound {
        Err(VerificationError::SealInvalid)
    } else if report.image_id.words@ != image_id.words@ {
        Err(VerificationError::ImageIdMismatch)
    } else if !report.journal_bound {
        Err(VerificationError::JournalMismatch)
    } else {
        Ok(())
    }
}

impl Receipt {
    /// Decides whether the receipt is bound to `image_id`, from what the
    /// seal verifier reported of it.
    pub fn verify_with_report(&self, image_id: &Digest, report: &SealReport) -> (r: Result<
        (),
        VerificationError,
    >)
        ensures
            r == verdict(self.seal@.len(), *report, *image_id),
            self.seal@.len() == 0 ==> r is Err,
    {
        if self.seal.len() == 0 {
            Err(VerificationError::SealMissing)
        } else if !report.sound {
            Err(VerificationError::SealInvalid)
        } else if !report.image_id.same(image_id) {
            Err(VerificationError::ImageIdMismatch)
        } else if !report.journal_bound {
            Err(VerificationError::JournalMismatch)
        } else {
            Ok(())
        }
    }
}

/// A receipt with a seal is accepted for an image whenever the verifier
/// found the seal sound and bound to that image and to the journal.
pub proof fn lemma_sound_seal_verifies(seal_len: nat, report: SealReport, image_id: Digest)
    requires
        seal_len > 0,
        report.sound,
        report.journal_bound,
        report.image_id.words@ == image_id.words@,
    ensures
        verdict(seal_len, report, image_id) == Ok::<(), VerificationError>(()),
{
}

/// A receipt without a seal is accepted for no image, whatever the verifier
/// reports.
pub proof fn lemma_empty_seal_never_verifies(report: SealReport, image_id: Digest)
    ensures
        verdict(0, report, image_id) == Err::<(), VerificationError>(
            VerificationError::SealMissing,
        ),
{
}

/// A receipt is bound to one image: if it is accepted for an image, the same
/// receipt with the same report is refused for every other image.
pub proof fn lemma_receipt_binds_one_image(
    seal_len: nat,
    report: SealReport,
    image_id: Digest,
    other: Digest,
)
    requires
        verdict(seal_len, report, image_id) is Ok,
        other.words@ != image_id.words@,
    ensures
        verdict(seal_len, report, other) == Err::<(), VerificationError>(
            VerificationError::ImageIdMismatch,
        ),
{
}

} // verus!
