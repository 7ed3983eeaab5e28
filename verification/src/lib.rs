//! Detached-signature verification: authenticate a byte payload against a
//! caller-supplied signature envelope and key material, dispatching between
//! the OpenPGP and SSH ecosystems by the envelope's leading marker line.
//!
//! Verification is a pure function of the three inputs: no state, no caching,
//! no side effects beyond the returned value.

pub mod detect;
pub mod errors;
pub mod pgp;
pub mod shell;
pub mod ssh;

use vstd::prelude::*;
use vstd::string::StringSliceAdditionalSpecFns;

use crate::detect::{detect_format, spec_format, SigFormat};
use crate::errors::{spec_message, VerifyError};
use crate::pgp::{pgp_cert_count, pgp_cert_verifies, pgp_sig_parses, verify_pgp};
use crate::ssh::{ssh_key_parses, ssh_namespace, ssh_sig_parses, ssh_verified, verify_ssh};

verus! {

/// The payload is authenticated: the envelope carries a recognized marker,
/// the key material and signature parse for that format, and some candidate
/// key authenticates the payload.
pub open spec fn spec_verified(payload: Seq<u8>, sig: Seq<char>, key: Seq<char>) -> bool {
    match spec_format(sig) {
        SigFormat::Pgp => pgp_cert_count(key) matches Some(n) && n > 0 && pgp_sig_parses(sig)
            && exists|i: int| 0 <= i < n && pgp_cert_verifies(key, i, payload, sig),
        SigFormat::Ssh => ssh_key_parses(key) && ssh_sig_parses(sig) && ssh_verified(
            key,
            ssh_namespace(),
            payload,
            sig,
        ),
        SigFormat::Unknown => false,
    }
}

/// One matching certificate suffices, wherever it stands in the bundle: when
/// the key material parses into `n` certificates, the signature parses, and
/// the certificate at any position `k` authenticates the payload, the call is
/// verified — whatever the other certificates are and in whatever order they
/// appear.
pub proof fn lemma_one_match_suffices(
    payload: Seq<u8>,
    sig: Seq<char>,
    key: Seq<char>,
    n: int,
    k: int,
)
    requires
        spec_format(sig) == SigFormat::Pgp,
        pgp_cert_count(key) == Some(n),
        0 <= k < n,
        pgp_sig_parses(sig),
        pgp_cert_verifies(key, k, payload, sig),
    ensures
        spec_verified(payload, sig, key),
{
    assert(exists|i: int| 0 <= i < n && pgp_cert_verifies(key, i, payload, sig)) by {
        assert(0 <= k < n && pgp_cert_verifies(key, k, payload, sig));
    }
}

/// Dispatch on the envelope's marker and verify, keeping the full error
/// taxonomy: the result distinguishes "format not recognized", "material
/// malformed", "nothing to try" and "tried and failed".
pub fn verify_outcome(payload: &[u8], sig: &str, key: &str) -> (r: Result<(), VerifyError>)
    ensures
        r is Ok <==> spec_verified(payload@, sig@, key@),
        spec_format(sig@) == SigFormat::Unknown <==> (r matches Err(
            VerifyError::UnrecognizedFormat,
        )),
        spec_format(sig@) == SigFormat::Pgp ==> {
            &&& pgp_cert_count(key@) is None <==> (r matches Err(
                VerifyError::KeyMaterialParseError(_),
            ))
            &&& pgp_cert_count(key@) == Some(0int) <==> (r matches Err(
                VerifyError::EmptyCertificateBundle,
            ))
            &&& r matches Err(VerifyError::VerificationFailed(v)) ==> {
                &&& pgp_cert_count(key@) == Some(v@.len() as int)
                &&& v@.len() > 0
                &&& forall|i: int| 0 <= i < v@.len() ==> !pgp_cert_verifies(key@, i, payload@, sig@)
            }
            &&& pgp_cert_count(key@) matches Some(n) ==> ((n > 0 && pgp_sig_parses(sig@)
                && forall|i: int| 0 <= i < n ==> !pgp_cert_verifies(key@, i, payload@, sig@)) ==> (
            r matches Err(VerifyError::VerificationFailed(v)) && v@.len() == n))
        },
        spec_format(sig@) == SigFormat::Ssh ==> {
            &&& !ssh_key_parses(key@) <==> (r matches Err(VerifyError::KeyMaterialParseError(_)))
            &&& (ssh_key_parses(key@) && !ssh_sig_parses(sig@)) <==> (r matches Err(
                VerifyError::SignatureParseError(_),
            ))
            &&& (ssh_key_parses(key@) && ssh_sig_parses(sig@) && !ssh_verified(
                key@,
                ssh_namespace(),
                payload@,
                sig@,
            )) <==> (r matches Err(VerifyError::VerificationFailed(_)))
            &&& r matches Err(VerifyError::VerificationFailed(v)) ==> v@.len() == 1
            &&& !(r matches Err(VerifyError::EmptyCertificateBundle))
        },
{
    match detect_format(sig) {
        SigFormat::Pgp => verify_pgp(payload, sig, key),
        SigFormat::Ssh => verify_ssh(payload, sig, key),
        SigFormat::Unknown => Err(VerifyError::UnrecognizedFormat),
    }
}

/// Verify and report failure as the rendered diagnostic string: the
/// aggregated per-certificate breakdown for OpenPGP, the specific
/// parse/verify failure for SSH, and a fixed message for an unrecognized
/// envelope.  The payload is the UTF-8 encoding of `json`.
pub fn verify_detailed(json: &str, sig: &str, key: &str) -> (r: Result<(), String>)
    ensures
        r is Ok <==> spec_verified(json.spec_bytes(), sig@, key@),
        spec_format(sig@) == SigFormat::Unknown ==> (r matches Err(m) && m@
            == "unrecognized header"@),
        (spec_format(sig@) == SigFormat::Pgp && pgp_cert_count(key@) == Some(0int)) ==> (r matches Err(
            m,
        ) && m@ == "no certificates found in key material"@),
{
    match verify_outcome(json.as_bytes(), sig, key) {
        Ok(_) => Ok(()),
        Err(e) => {
            proof {
                if spec_format(sig@) == SigFormat::Unknown {
                    assert(spec_message(&e) == "unrecognized header"@);
                }
                if spec_format(sig@) == SigFormat::Pgp && pgp_cert_count(key@) == Some(0int) {
                    assert(spec_message(&e) == "no certificates found in key material"@);
                }
            }
            Err(e.message())
        },
    }
}

/// Boolean-success entry point: `true` exactly on successful authentication;
/// every failure collapses to the diagnostic string.
pub fn verify(json: &str, sig: &str, key: &str) -> (r: Result<bool, String>)
    ensures
        r is Ok <==> spec_verified(json.spec_bytes(), sig@, key@),
        r matches Ok(b) ==> b == true,
{
    match verify_detailed(json, sig, key) {
        Ok(_) => Ok(true),
        Err(m) => Err(m),
    }
}

} // verus!
