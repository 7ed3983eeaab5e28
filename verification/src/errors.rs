//! The error taxonomy of the verification service, and the rendering of each
//! error as a single diagnostic string.

use vstd::prelude::*;
use vstd::string::StringExecFns;

verus! {

/// Why a verification call failed.  Each failure mode is a distinct variant,
/// so a caller can tell "format not recognized", "material malformed",
/// "nothing to try" and "tried and failed" apart.
pub enum VerifyError {
    /// The signature envelope begins with neither known marker line.
    UnrecognizedFormat,
    /// The certificate bundle or public key text is malformed.
    KeyMaterialParseError(String),
    /// The signature envelope is malformed for the detected format.
    SignatureParseError(String),
    /// Every candidate was tried and none authenticates the payload; the list
    /// holds one failure description per candidate, in candidate order.
    VerificationFailed(Vec<String>),
    /// The key material parsed but held zero certificates.
    EmptyCertificateBundle,
}

/// The per-candidate failure descriptions, each on a line of its own.
pub open spec fn spec_failure_lines(msgs: Seq<Seq<char>>) -> Seq<char>
    decreases msgs.len(),
{
    if msgs.len() == 0 {
        Seq::empty()
    } else {
        spec_failure_lines(msgs.drop_last()) + seq!['\n'] + msgs.last()
    }
}

/// The diagnostic string that `VerifyError::message` renders.
pub open spec fn spec_message(e: &VerifyError) -> Seq<char> {
    match e {
        VerifyError::UnrecognizedFormat => "unrecognized header"@,
        VerifyError::KeyMaterialParseError(m) => m@,
        VerifyError::SignatureParseError(m) => m@,
        VerifyError::VerificationFailed(msgs) => "Signature verification failed:"@
            + spec_failure_lines(msgs.deep_view()),
        VerifyError::EmptyCertificateBundle => "no certificates found in key material"@,
    }
}

proof fn lemma_failure_lines_step(msgs: Seq<Seq<char>>, i: int)
    requires
        0 <= i < msgs.len(),
    ensures
        spec_failure_lines(msgs.take(i + 1)) == spec_failure_lines(msgs.take(i)) + seq!['\n']
            + msgs[i],
{
    assert(msgs.take(i + 1).drop_last() =~= msgs.take(i));
    assert(msgs.take(i + 1).last() == msgs[i]);
}

/// An aggregated trial failure always renders under its fixed header,
/// whatever the per-candidate entries hold.
pub proof fn lemma_failure_message_opens_with_header(v: Vec<String>)
    ensures
        spec_message(&VerifyError::VerificationFailed(v)).len()
            >= "Signature verification failed:"@.len(),
        spec_message(&VerifyError::VerificationFailed(v)).subrange(
            0,
            "Signature verification failed:"@.len() as int,
        ) == "Signature verification failed:"@,
{
    let header = "Signature verification failed:"@;
    let lines = spec_failure_lines(v.deep_view());
    assert((header + lines).subrange(0, header.len() as int) =~= header);
}

/// The failure modes stay apart in their rendered form too: the fixed
/// messages for an unrecognized envelope and for an empty certificate bundle
/// differ, and an aggregated trial failure, whatever its entries, renders as
/// neither of them.
pub proof fn lemma_error_messages_distinguishable(v: Vec<String>)
    ensures
        spec_message(&VerifyError::UnrecognizedFormat) != spec_message(
            &VerifyError::EmptyCertificateBundle,
        ),
        spec_message(&VerifyError::VerificationFailed(v)) != spec_message(
            &VerifyError::UnrecognizedFormat,
        ),
        spec_message(&VerifyError::VerificationFailed(v)) != spec_message(
            &VerifyError::EmptyCertificateBundle,
        ),
{
    reveal_strlit("unrecognized header");
    reveal_strlit("no certificates found in key material");
    reveal_strlit("Signature verification failed:");
    let vf = spec_message(&VerifyError::VerificationFailed(v));
    assert(vf[0] == 'S');
    assert(spec_message(&VerifyError::UnrecognizedFormat)[0] == 'u');
    assert(spec_message(&VerifyError::EmptyCertificateBundle)[0] == 'n');
}

impl VerifyError {
    /// Render the error as one human-readable diagnostic string.  For
    /// `VerificationFailed` the string opens with a fixed header and then
    /// lists every candidate's failure description, one per line.
    pub fn message(&self) -> (m: String)
        ensures
            m@ == spec_message(self),
    {
        match self {
            VerifyError::UnrecognizedFormat => String::from_str("unrecognized header"),
            VerifyError::KeyMaterialParseError(m) => m.clone(),
            VerifyError::SignatureParseError(m) => m.clone(),
            VerifyError::EmptyCertificateBundle => String::from_str(
                "no certificates found in key material",
            ),
            VerifyError::VerificationFailed(msgs) => {
                let mut out = String::from_str("Signature verification failed:");
                let header: Ghost<Seq<char>> = Ghost("Signature verification failed:"@);
                let mut i: usize = 0;
                proof {
                    assert(msgs.deep_view().take(0) =~= Seq::<Seq<char>>::empty());
                }
                while i < msgs.len()
                    invariant
                        i <= msgs.len(),
                        out@ == header@ + spec_failure_lines(msgs.deep_view().take(i as int)),
                        header@ == "Signature verification failed:"@,
                    decreases msgs.len() - i,
                {
                    out.append("\n");
                    out.append(msgs[i].as_str());
                    proof {
                        reveal_strlit("\n");
                        assert("\n"@ =~= seq!['\n']);
                        lemma_failure_lines_step(msgs.deep_view(), i as int);
                        assert(msgs.deep_view()[i as int] == msgs@[i as int]@);
                    }
                    i = i + 1;
                }
                proof {
                    assert(msgs.deep_view().take(msgs@.len() as int) =~= msgs.deep_view());
                }
                out
            },
        }
    }
}

} // verus!
