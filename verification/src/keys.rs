//! Public keys, reduced to the plain values the gateway reads.
//!
//! The SSH layer and the user directory both hand keys around in OpenSSH
//! text form. The gateway only ever asks two things of a key: whether its
//! algorithm is Ed25519 (the one signature algorithm this service accepts),
//! and its raw key bytes, for comparing an offered key against the
//! registered ones. Parsing is done by the `ssh-key` crate behind a trusted
//! wrapper; everything downstream works on the plain values.

use vstd::prelude::*;

verus! {

/// A public key reduced to what the gateway's logic reads: whether its
/// algorithm is Ed25519, and for an Ed25519 key its raw 32 key bytes
/// (empty for any other algorithm).
pub struct ParsedKey {
    pub ed25519: bool,
    pub key_bytes: Vec<u8>,
}

/// What `ssh_key::PublicKey::from_openssh` yields on a given text: `None`
/// where the text is not a well-formed OpenSSH public key, otherwise whether
/// the key's algorithm is Ed25519 and, for an Ed25519 key, its raw key bytes.
pub uninterp spec fn openssh_key_of(s: Seq<char>) -> Option<(bool, Seq<u8>)>;

/// Relies on `ssh_key::PublicKey::from_openssh`: parses the OpenSSH one-line
/// form `algorithm base64-data comment`, a function of the text alone, and on
/// `ssh_key::public::KeyData::ed25519`, which hands out the raw 32-byte key
/// for an Ed25519 key and nothing for any other algorithm.
#[verifier::external_body]
pub(crate) fn parse_openssh_key(s: &str) -> (r: Option<ParsedKey>)
    ensures
        match r {
            Some(k) => openssh_key_of(s@) == Some::<(bool, Seq<u8>)>((k.ed25519, k.key_bytes@)),
            None => openssh_key_of(s@) is None,
        },
{
    match ssh_key::PublicKey::from_openssh(s) {
        Ok(key) => match key.key_data().ed25519() {
            Some(k) => Some(ParsedKey { ed25519: true, key_bytes: k.0.to_vec() }),
            None => Some(ParsedKey { ed25519: false, key_bytes: Vec::new() }),
        },
        Err(_) => None,
    }
}

/// The OpenSSH text `s` parses as a public key whose algorithm is Ed25519.
pub open spec fn is_supported_key(s: Seq<char>) -> bool {
    openssh_key_of(s) matches Some(k) && k.0
}

/// Decides whether `key` is a public key this service can register: it must
/// parse as an OpenSSH public key and use the Ed25519 algorithm.
pub fn valid_public_key(key: &str) -> (r: bool)
    ensures
        r == is_supported_key(key@),
{
    match parse_openssh_key(key) {
        Some(k) => k.ed25519,
        None => false,
    }
}

/// What a user's registered key texts parse to: the raw key bytes of each,
/// in order, or nothing if any text fails to parse or names an algorithm
/// other than Ed25519.
pub open spec fn parsed_registered_keys(texts: Seq<Seq<char>>) -> Option<Seq<Seq<u8>>>
    decreases texts.len(),
{
    if texts.len() == 0 {
        Some(Seq::empty())
    } else {
        match openssh_key_of(texts[0]) {
            Some(k) => if k.0 {
                match parsed_registered_keys(texts.drop_first()) {
                    Some(rest) => Some(seq![k.1] + rest),
                    None => None,
                }
            } else {
                None
            },
            None => None,
        }
    }
}

/// Unfolds `parsed_registered_keys` on the tail of `texts` from `i`.
pub proof fn lemma_parsed_registered_keys_head(texts: Seq<Seq<char>>, i: int)
    requires
        0 <= i < texts.len(),
    ensures
        parsed_registered_keys(texts.skip(i)) == (match openssh_key_of(texts[i]) {
            Some(k) => if k.0 {
                match parsed_registered_keys(texts.skip(i + 1)) {
                    Some(rest) => Some(seq![k.1] + rest),
                    None => None,
                }
            } else {
                None
            },
            None => None,
        }),
{
    let s = texts.skip(i);
    assert(s[0] == texts[i]);
    assert(s.drop_first() =~= texts.skip(i + 1));
}

/// Compares two byte strings.
pub fn bytes_eq(a: &Vec<u8>, b: &Vec<u8>) -> (r: bool)
    ensures
        r == (a@ == b@),
{
    if a.len() != b.len() {
        proof {
            assert(a@.len() != b@.len());
        }
        return false;
    }
    let mut i: usize = 0;
    while i < a.len()
        invariant
            a@.len() == b@.len(),
            i <= a@.len(),
            forall|j: int| 0 <= j < i ==> a@[j] == b@[j],
        decreases a@.len() - i,
    {
        if a[i] != b[i] {
            return false;
        }
        i += 1;
    }
    proof {
        assert(a@ =~= b@);
    }
    true
}

} // verus!
