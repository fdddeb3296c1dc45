//! Validation of cross-chain (BTP) addresses.
//!
//! An address is well-formed when it reads
//! `btp://<network>/<contract>` with a nonempty network that holds no
//! slash and a nonempty contract part.

use vstd::prelude::*;
use vstd::string::StrSliceExecFns;

verus! {

/// Is `s` a well-formed cross-chain address?
pub open spec fn spec_valid_btp_address(s: Seq<char>) -> bool {
    &&& s.len() > 6
    &&& s[0] == 'b'
    &&& s[1] == 't'
    &&& s[2] == 'p'
    &&& s[3] == ':'
    &&& s[4] == '/'
    &&& s[5] == '/'
    &&& exists|i: int|
        6 < i < s.len() - 1 && s[i] == '/' && (forall|j: int| 6 <= j < i ==> s[j] != '/')
}

/// Decide well-formedness of an address.
#[verifier::loop_isolation(false)]
pub fn validate_btp_address(addr: &str) -> (r: bool)
    ensures
        r == spec_valid_btp_address(addr@),
{
    let n = addr.unicode_len();
    if n <= 6 {
        return false;
    }
    if !(addr.get_char(0) == 'b' && addr.get_char(1) == 't' && addr.get_char(2) == 'p'
        && addr.get_char(3) == ':' && addr.get_char(4) == '/' && addr.get_char(5) == '/') {
        return false;
    }
    let mut i: usize = 6;
    while i < n
        invariant
            6 <= i <= n,
            n == addr@.len(),
            forall|j: int| 6 <= j < i ==> addr@[j] != '/',
        decreases n - i,
    {
        if addr.get_char(i) == '/' {
            if i > 6 && i < n - 1 {
                assert(spec_valid_btp_address(addr@));
                return true;
            }
            // The first slash sits right after the scheme or at the
            // very end: no index can witness a well-formed address.
            proof {
                if spec_valid_btp_address(addr@) {
                    let k = choose|k: int|
                        6 < k < addr@.len() - 1 && addr@[k] == '/' && (forall|j: int|
                            6 <= j < k ==> addr@[j] != '/');
                    if k > i {
                        assert(addr@[i as int] != '/');
                    }
                    assert(false);
                }
            }
            return false;
        }
        i = i + 1;
    }
    // No slash after the scheme at all.
    proof {
        if spec_valid_btp_address(addr@) {
            let k = choose|k: int|
                6 < k < addr@.len() - 1 && addr@[k] == '/' && (forall|j: int|
                    6 <= j < k ==> addr@[j] != '/');
            assert(false);
        }
    }
    false
}

/// Split a well-formed address into its network and contract parts;
/// `None` exactly on the addresses that fail validation.
#[verifier::loop_isolation(false)]
pub fn split_btp_address(addr: &str) -> (r: Option<(String, String)>)
    ensures
        r is Some <==> spec_valid_btp_address(addr@),
        r matches Some(p) ==> exists|i: int|
            {
                &&& 6 < i < addr@.len() - 1
                &&& addr@[i] == '/'
                &&& (forall|j: int| 6 <= j < i ==> addr@[j] != '/')
                &&& p.0@ == addr@.subrange(6, i)
                &&& p.1@ == addr@.subrange(i + 1, addr@.len() as int)
            },
{
    let n = addr.unicode_len();
    if !validate_btp_address(addr) {
        return None;
    }
    let mut i: usize = 6;
    while i < n
        invariant
            6 <= i <= n,
            forall|j: int| 6 <= j < i ==> addr@[j] != '/',
        decreases n - i,
    {
        if addr.get_char(i) == '/' {
            proof {
                // The witness of validity is the first slash, which
                // is this one.
                let k = choose|k: int|
                    6 < k < addr@.len() - 1 && addr@[k] == '/' && (forall|j: int|
                        6 <= j < k ==> addr@[j] != '/');
                if k < i {
                    assert(addr@[k] != '/');
                }
                if k > i {
                    assert(addr@[i as int] != '/');
                }
                assert(k == i);
            }
            let network = addr.substring_char(6, i).to_owned();
            let contract = addr.substring_char(i + 1, n).to_owned();
            return Some((network, contract));
        }
        i = i + 1;
    }
    // Unreachable: a valid address holds a slash after the scheme.
    proof {
        let k = choose|k: int|
            6 < k < addr@.len() - 1 && addr@[k] == '/' && (forall|j: int|
                6 <= j < k ==> addr@[j] != '/');
        assert(false);
    }
    None
}

} // verus!
