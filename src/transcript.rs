//! The Fiat-Shamir transcript: an append-only, domain-separated log of
//! labelled messages kept by merlin, from which challenges are derived.
use vstd::prelude::*;

verus! {

#[verifier::external_type_specification]
#[verifier::external_body]
pub struct ExTranscript(merlin::Transcript);

/// The domain-separation label a transcript was created with.
pub uninterp spec fn transcript_domain(t: merlin::Transcript) -> Seq<char>;

/// The labelled messages appended to a transcript, in order.
pub uninterp spec fn transcript_log(t: merlin::Transcript) -> Seq<(Seq<char>, Seq<u8>)>;

/// The 64 challenge bytes that a transcript with this domain and log yields
/// under `label`.
pub uninterp spec fn transcript_challenge(domain: Seq<char>, log: Seq<(Seq<char>, Seq<u8>)>, label: Seq<char>) -> Seq<u8>;

/// Relies on `merlin::Transcript::new`: a fresh transcript with the given
/// domain-separation label and nothing appended.
#[verifier::external_body]
pub fn new_transcript(domain: &'static str) -> (t: merlin::Transcript)
    ensures
        transcript_domain(t) == domain@,
        transcript_log(t) == Seq::<(Seq<char>, Seq<u8>)>::empty(),
{
    merlin::Transcript::new(domain.as_bytes())
}

/// Relies on `merlin::Transcript::append_message`: appends one labelled
/// message and keeps the domain.
#[verifier::external_body]
pub fn append_message(t: &mut merlin::Transcript, label: &'static str, message: &[u8])
    requires
        message@.len() <= u32::MAX,
    ensures
        transcript_domain(*final(t)) == transcript_domain(*old(t)),
        transcript_log(*final(t)) == transcript_log(*old(t)).push((label@, message@)),
{
    t.append_message(label.as_bytes(), message)
}

/// Relies on `merlin::Transcript::challenge_bytes`, run on a copy of the
/// transcript (`Clone`) so that the transcript itself is left as it is: the
/// bytes depend only on the domain, the log and the label.
#[verifier::external_body]
pub fn challenge_bytes(t: &merlin::Transcript, label: &'static str) -> (r: [u8; 64])
    ensures
        r@ == transcript_challenge(transcript_domain(*t), transcript_log(*t), label@),
{
    let mut fork = t.clone();
    let mut buf = [0u8; 64];
    fork.challenge_bytes(label.as_bytes(), &mut buf);
    buf
}

} // verus!
