//! The OpenPGP path: parse the key material into an ordered certificate
//! bundle, parse the signature envelope once, try each certificate
//! independently against the signature, return on the first success, and
//! aggregate every failure otherwise.  A certificate's own attempt tries the
//! signature against each of its keys, primary and subkeys.

use vstd::prelude::*;
use vstd::string::StringExecFns;
use crate::errors::VerifyError;
use sequoia_openpgp::parse::Parse;

verus! {

#[verifier::external_type_specification]
#[verifier::external_body]
pub struct ExCert(sequoia_openpgp::Cert);

#[verifier::external_type_specification]
#[verifier::external_body]
pub struct ExSignature(sequoia_openpgp::packet::Signature);

/// How many certificates the key-material text parses into: `None` when the
/// bundle is malformed, otherwise the number of certificates, in order of
/// appearance.
pub uninterp spec fn pgp_cert_count(key: Seq<char>) -> Option<int>;

/// Whether the signature text parses into a signature packet (armored or
/// binary).
pub uninterp spec fn pgp_sig_parses(sig: Seq<char>) -> bool;

/// How many keys (primary and subkeys) the certificate at position `idx` of
/// the bundle parsed from `key` carries.
pub uninterp spec fn pgp_cert_key_count(key: Seq<char>, idx: int) -> int;

/// Whether key `kidx` of the certificate at position `idx` of the bundle
/// parsed from `key` authenticates `payload` against the signature parsed
/// from `sig`.
pub uninterp spec fn pgp_key_verifies(
    key: Seq<char>,
    idx: int,
    kidx: int,
    payload: Seq<u8>,
    sig: Seq<char>,
) -> bool;

/// A certificate authenticates the payload when any of its keys does.
pub open spec fn pgp_cert_verifies(
    key: Seq<char>,
    idx: int,
    payload: Seq<u8>,
    sig: Seq<char>,
) -> bool {
    exists|k: int|
        0 <= k < pgp_cert_key_count(key, idx) && pgp_key_verifies(key, idx, k, payload, sig)
}

/// One certificate of a parsed bundle, together with the key-material text it
/// came from and its position in that bundle.  Values are built only by
/// `parse_certs`, so the certificate is always the `index`-th certificate of
/// the bundle parsed from `origin`.
pub struct BundleCert {
    origin: String,
    index: usize,
    cert: sequoia_openpgp::Cert,
}

/// A signature packet together with the envelope text it was parsed from.
/// Values are built only by `parse_pgp_sig`, so the packet is always the one
/// parsed from `text`.
pub struct PgpSig {
    text: String,
    sig: sequoia_openpgp::packet::Signature,
}

/// Relies on `sequoia_openpgp::cert::CertParser` (through its `Parse` impl):
/// the key-material text parses into a certificate sequence, or fails, as a
/// function of the text alone.
#[verifier::external_body]
fn parse_certs(key: &str) -> (r: Result<Vec<BundleCert>, String>)
    ensures
        r is Ok <==> pgp_cert_count(key@) is Some,
        r matches Ok(v) ==> {
            &&& pgp_cert_count(key@) == Some(v@.len() as int)
            &&& forall|i: int|
                0 <= i < v@.len() ==> (#[trigger] v@[i]).origin@ == key@ && v@[i].index == i
        },
{
    let parser = match sequoia_openpgp::cert::CertParser::from_bytes(key.as_bytes()) {
        Ok(p) => p,
        Err(e) => return Err(format!("{}", e)),
    };
    let mut out: Vec<BundleCert> = Vec::new();
    for (index, item) in parser.enumerate() {
        match item {
            Ok(cert) => out.push(BundleCert { origin: key.to_string(), index, cert }),
            Err(e) => return Err(format!("{}", e)),
        }
    }
    Ok(out)
}

/// Relies on `sequoia_openpgp::PacketPile`'s `Parse` impl (armor is detected
/// automatically): whether the envelope text yields a signature packet is a
/// function of the text alone.
#[verifier::external_body]
fn parse_pgp_sig(sig: &str) -> (r: Result<PgpSig, String>)
    ensures
        r is Ok <==> pgp_sig_parses(sig@),
        r matches Ok(s) ==> s.text@ == sig@,
{
    let pile = match sequoia_openpgp::PacketPile::from_bytes(sig.as_bytes()) {
        Ok(p) => p,
        Err(e) => return Err(format!("{}", e)),
    };
    match pile.into_children().next() {
        Some(sequoia_openpgp::Packet::Signature(s)) => Ok(PgpSig { text: sig.to_string(), sig: s }),
        Some(p) => Err(format!("not a signature packet: {:?}", p)),
        None => Err("no signature packet found".to_string()),
    }
}

/// Relies on `Cert::keys`: how many keys (primary and subkeys) the
/// certificate carries, a function of the bundle it was parsed from.
#[verifier::external_body]
fn cert_key_count(c: &BundleCert) -> (n: usize)
    ensures
        n as int == pgp_cert_key_count(c.origin@, c.index as int),
{
    c.cert.keys().count()
}

/// Relies on `Signature::verify_message` against key `k` of the certificate,
/// as `Cert::keys` orders them: one cryptographic check of the signature over
/// the payload bytes, deterministic in the bundle text, the positions, the
/// payload and the signature text.
#[verifier::external_body]
fn key_verifies(c: &BundleCert, k: usize, payload: &[u8], s: &PgpSig) -> (r: bool)
    requires
        k < pgp_cert_key_count(c.origin@, c.index as int),
    ensures
        r == pgp_key_verifies(c.origin@, c.index as int, k as int, payload@, s.text@),
{
    match c.cert.keys().nth(k) {
        Some(ka) => s.sig.verify_message(ka.key(), payload).is_ok(),
        None => false,
    }
}

/// Relies on `Cert::fingerprint`, rendered as text, to label one
/// certificate's entry in the aggregated diagnostic.
#[verifier::external_body]
fn cert_fingerprint(c: &BundleCert) -> String {
    format!("{}", c.cert.fingerprint())
}

/// One certificate's attempt: try the signature against each key of the
/// certificate, succeeding as soon as one key authenticates the payload.
fn try_cert(c: &BundleCert, payload: &[u8], s: &PgpSig) -> (r: Result<(), String>)
    ensures
        r is Ok <==> pgp_cert_verifies(c.origin@, c.index as int, payload@, s.text@),
{
    let n = cert_key_count(c);
    let mut k: usize = 0;
    while k < n
        invariant
            k <= n,
            n as int == pgp_cert_key_count(c.origin@, c.index as int),
            forall|j: int|
                0 <= j < k ==> !pgp_key_verifies(c.origin@, c.index as int, j, payload@, s.text@),
        decreases n - k,
    {
        if key_verifies(c, k, payload, s) {
            assert(pgp_key_verifies(c.origin@, c.index as int, k as int, payload@, s.text@));
            return Ok(());
        }
        k = k + 1;
    }
    let mut m = String::from_str("certificate ");
    m.append(cert_fingerprint(c).as_str());
    m.append(" does not verify the signature");
    Err(m)
}

/// Verify `payload` against the signature envelope `sig` using any
/// certificate of the bundle in `key`.  Success is owed exactly when the
/// bundle parses non-empty, the signature parses, and some certificate
/// authenticates the payload; the first such certificate ends the trial.
/// When every certificate fails, the error lists one description per
/// certificate, in bundle order.
pub fn verify_pgp(payload: &[u8], sig: &str, key: &str) -> (r: Result<(), VerifyError>)
    ensures
        r is Ok <==> (pgp_cert_count(key@) matches Some(n) && n > 0 && pgp_sig_parses(sig@)
            && exists|i: int| 0 <= i < n && pgp_cert_verifies(key@, i, payload@, sig@)),
        pgp_cert_count(key@) is None <==> (r matches Err(VerifyError::KeyMaterialParseError(_))),
        pgp_cert_count(key@) == Some(0int) <==> (r matches Err(
            VerifyError::EmptyCertificateBundle,
        )),
        (pgp_cert_count(key@) matches Some(n) && n > 0 && !pgp_sig_parses(sig@)) <==> (r matches Err(
            VerifyError::SignatureParseError(_),
        )),
        r matches Err(VerifyError::VerificationFailed(v)) ==> {
            &&& pgp_cert_count(key@) == Some(v@.len() as int)
            &&& v@.len() > 0
            &&& forall|i: int| 0 <= i < v@.len() ==> !pgp_cert_verifies(key@, i, payload@, sig@)
        },
        pgp_cert_count(key@) matches Some(n) ==> ((n > 0 && pgp_sig_parses(sig@) && forall|i: int|
            0 <= i < n ==> !pgp_cert_verifies(key@, i, payload@, sig@)) ==> (r matches Err(
            VerifyError::VerificationFailed(v),
        ) && v@.len() == n)),
        !(r matches Err(VerifyError::UnrecognizedFormat)),
{
    let certs = match parse_certs(key) {
        Ok(c) => c,
        Err(m) => return Err(VerifyError::KeyMaterialParseError(m)),
    };
    if certs.len() == 0 {
        return Err(VerifyError::EmptyCertificateBundle);
    }
    let parsed_sig = match parse_pgp_sig(sig) {
        Ok(s) => s,
        Err(m) => return Err(VerifyError::SignatureParseError(m)),
    };
    let mut msgs: Vec<String> = Vec::new();
    let mut i: usize = 0;
    while i < certs.len()
        invariant
            i <= certs.len(),
            msgs@.len() == i,
            certs@.len() > 0,
            pgp_cert_count(key@) == Some(certs@.len() as int),
            pgp_sig_parses(sig@),
            parsed_sig.text@ == sig@,
            forall|j: int|
                0 <= j < certs@.len() ==> (#[trigger] certs@[j]).origin@ == key@
                    && certs@[j].index == j,
            forall|j: int| 0 <= j < i ==> !pgp_cert_verifies(key@, j, payload@, sig@),
        decreases certs.len() - i,
    {
        match try_cert(&certs[i], payload, &parsed_sig) {
            Ok(_) => {
                assert(pgp_cert_verifies(key@, i as int, payload@, sig@));
                return Ok(());
            },
            Err(m) => msgs.push(m),
        }
        i = i + 1;
    }
    Err(VerifyError::VerificationFailed(msgs))
}

} // verus!
