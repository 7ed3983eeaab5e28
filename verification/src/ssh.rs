//! The SSH path: exactly one public key, exactly one signature object, one
//! verification call under a fixed namespace label.

use vstd::prelude::*;
use crate::errors::VerifyError;

verus! {

/// The fixed namespace label identifying the generic file/data signing
/// context.  The same label must be used when signing and when verifying;
/// it is a protocol parameter, not caller-configurable.
pub open spec fn ssh_namespace() -> Seq<char> {
    "file"@
}

/// The namespace label handed to every SSH verification call.
pub fn ssh_namespace_label() -> (s: &'static str)
    ensures
        s@ == ssh_namespace(),
{
    "file"
}

/// Whether the key text is a well-formed OpenSSH public key.
pub uninterp spec fn ssh_key_parses(key: Seq<char>) -> bool;

/// Whether the signature text is a well-formed SSH signature envelope.
pub uninterp spec fn ssh_sig_parses(sig: Seq<char>) -> bool;

/// Whether the key parsed from `key`, under namespace `ns`, authenticates
/// `payload` against the signature parsed from `sig`.
pub uninterp spec fn ssh_verified(
    key: Seq<char>,
    ns: Seq<char>,
    payload: Seq<u8>,
    sig: Seq<char>,
) -> bool;

/// Relies on `ssh_key::PublicKey`'s `FromStr` (the OpenSSH text format):
/// whether the text parses is a function of the text alone.
#[verifier::external_body]
fn check_ssh_key(key: &str) -> (r: Result<(), String>)
    ensures
        r is Ok <==> ssh_key_parses(key@),
{
    match key.parse::<ssh_key::PublicKey>() {
        Ok(_) => Ok(()),
        Err(e) => Err(format!("{}", e)),
    }
}

/// Relies on `ssh_key::SshSig`'s `FromStr` (the PEM envelope): whether the
/// text parses is a function of the text alone.
#[verifier::external_body]
fn check_ssh_sig(sig: &str) -> (r: Result<(), String>)
    ensures
        r is Ok <==> ssh_sig_parses(sig@),
{
    match sig.parse::<ssh_key::SshSig>() {
        Ok(_) => Ok(()),
        Err(e) => Err(format!("{}", e)),
    }
}

/// Relies on `ssh_key::PublicKey::verify`, on the key and signature parsed
/// from the given texts: the verification outcome is deterministic in the key
/// text, the namespace, the payload and the signature text.
#[verifier::external_body]
fn ssh_verify_call(key: &str, ns: &str, payload: &[u8], sig: &str) -> (r: Result<(), String>)
    ensures
        ssh_key_parses(key@) && ssh_sig_parses(sig@) ==> (r is Ok <==> ssh_verified(
            key@,
            ns@,
            payload@,
            sig@,
        )),
{
    let pk: ssh_key::PublicKey = match key.parse() {
        Ok(k) => k,
        Err(e) => return Err(format!("{}", e)),
    };
    let s: ssh_key::SshSig = match sig.parse() {
        Ok(s) => s,
        Err(e) => return Err(format!("{}", e)),
    };
    match pk.verify(ns, payload, &s) {
        Ok(()) => Ok(()),
        Err(e) => Err(format!("{}", e)),
    }
}

/// Verify `payload` against the single public key in `key` and the signature
/// envelope `sig`.  Success is owed exactly when both texts parse and the key
/// authenticates the payload under the fixed namespace; each failure stage
/// maps to its own error variant.
pub fn verify_ssh(payload: &[u8], sig: &str, key: &str) -> (r: Result<(), VerifyError>)
    ensures
        r is Ok <==> (ssh_key_parses(key@) && ssh_sig_parses(sig@) && ssh_verified(
            key@,
            ssh_namespace(),
            payload@,
            sig@,
        )),
        !ssh_key_parses(key@) <==> (r matches Err(VerifyError::KeyMaterialParseError(_))),
        (ssh_key_parses(key@) && !ssh_sig_parses(sig@)) <==> (r matches Err(
            VerifyError::SignatureParseError(_),
        )),
        (ssh_key_parses(key@) && ssh_sig_parses(sig@) && !ssh_verified(
            key@,
            ssh_namespace(),
            payload@,
            sig@,
        )) <==> (r matches Err(VerifyError::VerificationFailed(_))),
        r matches Err(VerifyError::VerificationFailed(v)) ==> v@.len() == 1,
        !(r matches Err(VerifyError::UnrecognizedFormat)),
        !(r matches Err(VerifyError::EmptyCertificateBundle)),
{
    if let Err(m) = check_ssh_key(key) {
        return Err(VerifyError::KeyMaterialParseError(m));
    }
    if let Err(m) = check_ssh_sig(sig) {
        return Err(VerifyError::SignatureParseError(m));
    }
    match ssh_verify_call(key, ssh_namespace_label(), payload, sig) {
        Ok(_) => Ok(()),
        Err(m) => {
            let mut detail: Vec<String> = Vec::new();
            detail.push(m);
            Err(VerifyError::VerificationFailed(detail))
        },
    }
}

} // verus!
