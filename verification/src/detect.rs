//! Dispatch between the two signature ecosystems by the envelope's leading
//! marker line.  This is a pure prefix match: no speculative parse of either
//! format is attempted.

use vstd::prelude::*;
use vstd::string::StrSliceExecFns;

verus! {

/// Which verifier handles a signature envelope.
#[derive(PartialEq, Eq, Structural, Clone, Copy, Debug)]
pub enum SigFormat {
    /// The envelope opens with the OpenPGP armor marker.
    Pgp,
    /// The envelope opens with the SSH signature marker.
    Ssh,
    /// Neither marker: the envelope is rejected unparsed.
    Unknown,
}

/// The OpenPGP armor marker line that selects the OpenPGP verifier.
pub open spec fn pgp_marker() -> Seq<char> {
    "-----BEGIN PGP SIGNATURE-----"@
}

/// The SSH signature marker line that selects the SSH verifier.
pub open spec fn ssh_marker() -> Seq<char> {
    "-----BEGIN SSH SIGNATURE-----"@
}

/// `s` begins with `prefix`.
pub open spec fn spec_starts_with(s: Seq<char>, prefix: Seq<char>) -> bool {
    s.len() >= prefix.len() && s.subrange(0, prefix.len() as int) == prefix
}

/// The format that the detector assigns to a signature envelope: the OpenPGP
/// marker wins, then the SSH marker, else the envelope is unrecognized.
pub open spec fn spec_format(s: Seq<char>) -> SigFormat {
    if spec_starts_with(s, pgp_marker()) {
        SigFormat::Pgp
    } else if spec_starts_with(s, ssh_marker()) {
        SigFormat::Ssh
    } else {
        SigFormat::Unknown
    }
}

/// Character-by-character prefix test.
fn starts_with(s: &str, prefix: &str) -> (r: bool)
    ensures
        r == spec_starts_with(s@, prefix@),
{
    let n = prefix.unicode_len();
    let m = s.unicode_len();
    if m < n {
        return false;
    }
    let mut i: usize = 0;
    while i < n
        invariant
            i <= n,
            n == prefix@.len(),
            n <= s@.len(),
            forall|j: int| 0 <= j < i ==> s@[j] == prefix@[j],
        decreases n - i,
    {
        if s.get_char(i) != prefix.get_char(i) {
            assert(!spec_starts_with(s@, prefix@)) by {
                assert(s@.subrange(0, n as int)[i as int] != prefix@[i as int]);
            }
            return false;
        }
        i = i + 1;
    }
    assert(s@.subrange(0, n as int) =~= prefix@);
    true
}

/// Decide which verifier handles the envelope, from its leading marker alone.
pub fn detect_format(sig: &str) -> (f: SigFormat)
    ensures
        f == spec_format(sig@),
{
    if starts_with(sig, "-----BEGIN PGP SIGNATURE-----") {
        SigFormat::Pgp
    } else if starts_with(sig, "-----BEGIN SSH SIGNATURE-----") {
        SigFormat::Ssh
    } else {
        SigFormat::Unknown
    }
}

} // verus!
