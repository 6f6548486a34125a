//! Provider-issued platform certificates and the rotating store of them.
//!
//! Verification selects a public key by the certificate serial number an
//! inbound message claims; an unknown serial fails distinctly and is never
//! "verified" with a best-effort key. Rotation replaces the whole store in
//! one assignment, never editing it in place, so a verification sees either
//! the old complete set or the new one.

use crate::b64::b64_encode;
use crate::b64::b64_encode_bytes;
use crate::crypto::oaep_sha1_accepts;
use crate::crypto::rsa_oaep_sha1_encrypt;
use crate::errors::EncryptError;
use crate::errors::KeyError;
use vstd::prelude::*;

verus! {

/// One provider certificate: a serial number and the RSA public key it
/// names, held as its SPKI DER encoding.
pub struct PlatformCertificate {
    /// The certificate serial number (UTF-8 text).
    pub public_id: Vec<u8>,
    /// The provider's RSA public key, SPKI DER encoded.
    pub public_key_der: Vec<u8>,
}

impl PlatformCertificate {
    /// Encrypts a sensitive field (a bank account number, an id number)
    /// with RSA-OAEP/SHA-1 under this certificate's public key and encodes
    /// the ciphertext as base64 for embedding in a JSON body. Succeeds
    /// exactly when the cipher accepts the key and plaintext — that is, the
    /// key encoding parses and the plaintext fits the key's modulus. The
    /// padding is randomized, so the result is pinned only up to the
    /// ciphertext it encodes; there is no local decrypt path.
    pub fn encrypt(&self, data: &[u8]) -> (r: Result<Vec<u8>, EncryptError>)
        ensures
            r is Ok <==> oaep_sha1_accepts(self.public_key_der@, data@),
            r matches Ok(s) ==> exists|ct: Seq<u8>| s@ == b64_encode_bytes(ct),
            r is Err ==> r == Err::<Vec<u8>, EncryptError>(EncryptError::EncryptionFailed),
    {
        match rsa_oaep_sha1_encrypt(self.public_key_der.as_slice(), data) {
            Some(ciphertext) => {
                let encoded = b64_encode(ciphertext.as_slice());
                proof {
                    assert(encoded@ == b64_encode_bytes(ciphertext@));
                }
                Ok(encoded)
            },
            None => Err(EncryptError::EncryptionFailed),
        }
    }
}

/// The map a sequence of certificates denotes: each serial number to its
/// public key, later entries shadowing earlier ones (construction rules
/// duplicates out, so shadowing never actually happens).
pub open spec fn certs_map(s: Seq<PlatformCertificate>) -> Map<Seq<u8>, Seq<u8>>
    decreases s.len(),
{
    if s.len() == 0 {
        Map::empty()
    } else {
        certs_map(s.drop_last()).insert(s.last().public_id@, s.last().public_key_der@)
    }
}

/// A serial is in the denoted map exactly when some certificate carries it.
pub proof fn lemma_certs_map_domain(s: Seq<PlatformCertificate>, serial: Seq<u8>)
    ensures
        certs_map(s).contains_key(serial) <==> exists|i: int|
            0 <= i < s.len() && s[i].public_id@ == serial,
    decreases s.len(),
{
    if s.len() > 0 {
        lemma_certs_map_domain(s.drop_last(), serial);
        if s.last().public_id@ == serial {
            assert(s[s.len() - 1].public_id@ == serial);
        } else if certs_map(s).contains_key(serial) {
            let i = choose|i: int| 0 <= i < s.drop_last().len() && s.drop_last()[i].public_id@
                == serial;
            assert(s[i].public_id@ == serial);
        } else if exists|i: int| 0 <= i < s.len() && s[i].public_id@ == serial {
            let i = choose|i: int| 0 <= i < s.len() && s[i].public_id@ == serial;
            assert(s.drop_last()[i].public_id@ == serial);
        }
    }
}

/// With pairwise distinct serials, the denoted map sends each certificate's
/// serial to that certificate's key.
pub proof fn lemma_certs_map_value(s: Seq<PlatformCertificate>, i: int)
    requires
        0 <= i < s.len(),
        forall|j: int, k: int|
            0 <= j < k < s.len() ==> s[j].public_id@ != s[k].public_id@,
    ensures
        certs_map(s).contains_key(s[i].public_id@),
        certs_map(s)[s[i].public_id@] == s[i].public_key_der@,
    decreases s.len(),
{
    if i == s.len() - 1 {
    } else {
        lemma_certs_map_value(s.drop_last(), i);
        assert(s.drop_last()[i] == s[i]);
        assert(s.last().public_id@ != s[i].public_id@);
    }
}

/// The read-only mapping from certificate serial number to provider public
/// key that verification selects from.
pub struct CertificateStore {
    certificates: Vec<PlatformCertificate>,
}

impl CertificateStore {
    /// No two certificates in a store carry one serial number.
    #[verifier::type_invariant]
    spec fn inv(&self) -> bool {
        forall|j: int, k: int|
            0 <= j < k < self.certificates@.len() ==> self.certificates@[j].public_id@
                != self.certificates@[k].public_id@
    }
}

impl View for CertificateStore {
    type V = Map<Seq<u8>, Seq<u8>>;

    closed spec fn view(&self) -> Map<Seq<u8>, Seq<u8>> {
        certs_map(self.certificates@)
    }
}

impl CertificateStore {
    /// Builds a store from certificates, refusing two with one serial: a
    /// store never holds an ambiguous mapping.
    pub fn new(certificates: Vec<PlatformCertificate>) -> (r: Result<CertificateStore, KeyError>)
        ensures
            r is Ok <==> (forall|j: int, k: int|
                0 <= j < k < certificates@.len() ==> certificates@[j].public_id@
                    != certificates@[k].public_id@),
            r matches Ok(store) ==> store@ == certs_map(certificates@) && (forall|serial: Seq<u8>|
                store@.contains_key(serial) <==> exists|i: int|
                    0 <= i < certificates@.len() && certificates@[i].public_id@ == serial),
            r is Err ==> r == Err::<CertificateStore, KeyError>(KeyError::DuplicateSerial),
    {
        let n = certificates.len();
        for k in 0..n
            invariant
                n == certificates@.len(),
                forall|j0: int, k0: int|
                    0 <= j0 < k0 < k ==> certificates@[j0].public_id@
                        != certificates@[k0].public_id@,
        {
            for j in 0..k
                invariant
                    n == certificates@.len(),
                    k < n,
                    forall|j0: int, k0: int|
                        0 <= j0 < k0 < k ==> certificates@[j0].public_id@
                            != certificates@[k0].public_id@,
                    forall|j0: int|
                        0 <= j0 < j ==> certificates@[j0].public_id@
                            != certificates@[k as int].public_id@,
            {
                if bytes_eq(
                    certificates[j].public_id.as_slice(),
                    certificates[k].public_id.as_slice(),
                ) {
                    proof {
                        assert(certificates@[j as int].public_id@
                            == certificates@[k as int].public_id@);
                    }
                    return Err(KeyError::DuplicateSerial);
                }
            }
        }
        let store = CertificateStore { certificates };
        proof {
            assert forall|serial: Seq<u8>|
                store@.contains_key(serial) <==> exists|i: int|
                    0 <= i < store.certificates@.len() && store.certificates@[i].public_id@
                        == serial by {
                lemma_certs_map_domain(store.certificates@, serial);
            }
        }
        Ok(store)
    }

    /// Looks the claimed serial number up: the selected key when the store
    /// knows the serial, nothing otherwise.
    pub fn lookup(&self, serial: &[u8]) -> (r: Option<&Vec<u8>>)
        ensures
            r is Some <==> self@.contains_key(serial@),
            r matches Some(k) ==> self@[serial@] == k@,
    {
        proof {
            use_type_invariant(self);
            lemma_certs_map_domain(self.certificates@, serial@);
        }
        let n = self.certificates.len();
        for i in 0..n
            invariant
                n == self.certificates@.len(),
                forall|j: int| 0 <= j < i ==> self.certificates@[j].public_id@ != serial@,
                self@ == certs_map(self.certificates@),
                self@.contains_key(serial@) <==> exists|j: int|
                    0 <= j < n && self.certificates@[j].public_id@ == serial@,
                forall|j: int, k: int|
                    0 <= j < k < n ==> self.certificates@[j].public_id@
                        != self.certificates@[k].public_id@,
        {
            if bytes_eq(self.certificates[i].public_id.as_slice(), serial) {
                proof {
                    lemma_certs_map_value(self.certificates@, i as int);
                }
                return Some(&self.certificates[i].public_key_der);
            }
        }
        None
    }

    /// Replaces the whole mapping in one assignment: rotation never edits a
    /// store in place, so no verification can observe a partial set.
    pub fn rotate(&mut self, replacement: CertificateStore)
        ensures
            final (self)@ == replacement@,
    {
        *self = replacement;
    }
}

/// Byte-for-byte equality of two slices.
pub fn bytes_eq(a: &[u8], b: &[u8]) -> (r: bool)
    ensures
        r == (a@ == b@),
{
    if a.len() != b.len() {
        proof {
            assert(a@ != b@) by {
                assert(a@.len() != b@.len());
            }
        }
        return false;
    }
    let n = a.len();
    for i in 0..n
        invariant
            n == a@.len(),
            n == b@.len(),
            forall|j: int| 0 <= j < i ==> a@[j] == b@[j],
    {
        if a[i] != b[i] {
            return false;
        }
    }
    proof {
        assert(a@ =~= b@);
    }
    true
}

} // verus!
