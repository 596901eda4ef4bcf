//! Certificate lifecycle: when the stored certificate may be kept, when it
//! must be regenerated, and the fingerprint that commits to it.
//!
//! Reading and writing the certificate files, and generating the
//! certificate itself, belong to the caller; the decisions and the
//! fingerprint arithmetic live here.

use vstd::prelude::*;

verus! {

use vstd::string::{StringExecFns, StringSliceAdditionalSpecFns};
use crate::hashing::sha256_of;
use crate::text::{hex_pair_upper, lemma_utf8_eq, push_hex_byte_upper};

/// How long a fresh certificate stays valid, in days.
pub const CERT_VALIDITY_DAYS: i64 = 365;

/// Regenerate when fewer than this many days remain.
pub const CERT_RENEWAL_THRESHOLD_DAYS: i64 = 30;

/// The renewal threshold in microseconds: thirty days.
pub const CERT_RENEWAL_THRESHOLD_MICROS: u64 = 2592000000000;

/// What the certificate metadata file records.
#[derive(Debug, Clone)]
pub struct CertMetadata {
    /// When the certificate was created, microseconds since the epoch
    pub created_at_us: u64,
    /// When it expires, microseconds since the epoch
    pub expires_at_us: u64,
    /// Colon-separated uppercase hex SHA-256 of the certificate PEM
    pub fingerprint: String,
    /// The hostnames and addresses it was issued for
    pub hostnames: Vec<String>,
}

/// The set of hostname texts in a list, order and repetition forgotten.
pub open spec fn hostname_set(hs: Seq<String>) -> Set<Seq<char>> {
    Set::new(|v: Seq<char>| exists|i: int| 0 <= i < hs.len() && (#[trigger] hs[i])@ == v)
}

/// Whether a hostname list holds this text.
fn hostnames_contain(hs: &Vec<String>, v: &str) -> (r: bool)
    ensures
        r == hostname_set(hs@).contains(v@),
{
    let mut i: usize = 0;
    while i < hs.len()
        invariant
            i <= hs@.len(),
            forall|j: int| 0 <= j < i ==> (#[trigger] hs@[j])@ != v@,
        decreases hs@.len() - i,
    {
        if crate::text::bytes_eq(hs[i].as_str().as_bytes(), v.as_bytes()) {
            proof {
                lemma_utf8_eq(hs@[i as int]@, v@);
            }
            return true;
        }
        proof {
            assert(hs@[i as int]@ != v@);
        }
        i = i + 1;
    }
    false
}

/// Whether two hostname lists name the same set.
pub fn same_hostname_set(a: &Vec<String>, b: &Vec<String>) -> (r: bool)
    ensures
        r == (hostname_set(a@) == hostname_set(b@)),
{
    let mut i: usize = 0;
    while i < a.len()
        invariant
            i <= a@.len(),
            forall|j: int| 0 <= j < i ==> hostname_set(b@).contains((#[trigger] a@[j])@),
        decreases a@.len() - i,
    {
        if !hostnames_contain(b, a[i].as_str()) {
            proof {
                assert(hostname_set(a@).contains(a@[i as int]@));
            }
            return false;
        }
        i = i + 1;
    }
    let mut i: usize = 0;
    while i < b.len()
        invariant
            i <= b@.len(),
            forall|j: int| 0 <= j < a@.len() ==> hostname_set(b@).contains((#[trigger] a@[j])@),
            forall|j: int| 0 <= j < i ==> hostname_set(a@).contains((#[trigger] b@[j])@),
        decreases b@.len() - i,
    {
        if !hostnames_contain(a, b[i].as_str()) {
            proof {
                assert(hostname_set(b@).contains(b@[i as int]@));
            }
            return false;
        }
        i = i + 1;
    }
    proof {
        assert forall|v: Seq<char>| hostname_set(a@).contains(v) implies hostname_set(
            b@,
        ).contains(v) by {
            let j = choose|j: int| 0 <= j < a@.len() && (#[trigger] a@[j])@ == v;
        }
        assert forall|v: Seq<char>| hostname_set(b@).contains(v) implies hostname_set(
            a@,
        ).contains(v) by {
            let j = choose|j: int| 0 <= j < b@.len() && (#[trigger] b@[j])@ == v;
        }
        assert(hostname_set(a@) =~= hostname_set(b@));
    }
    true
}

/// The colon-separated uppercase hex text of a digest.
pub open spec fn fingerprint_chars(digest: Seq<u8>) -> Seq<char>
    decreases digest.len(),
{
    if digest.len() == 0 {
        Seq::empty()
    } else if digest.len() == 1 {
        hex_pair_upper(digest[0])
    } else {
        fingerprint_chars(digest.drop_last()) + seq![':'] + hex_pair_upper(digest.last())
    }
}

proof fn lemma_fingerprint_len(digest: Seq<u8>)
    ensures
        digest.len() > 0 ==> fingerprint_chars(digest).len() == 3 * digest.len() - 1,
        digest.len() == 0 ==> fingerprint_chars(digest).len() == 0,
    decreases digest.len(),
{
    if digest.len() > 1 {
        lemma_fingerprint_len(digest.drop_last());
    }
}

/// What the fingerprint of a certificate PEM is: the SHA-256 digest of its
/// UTF-8 bytes, each byte as two uppercase hex characters, the bytes
/// joined with colons.
pub open spec fn fingerprint_of(pem: Seq<char>) -> Seq<char> {
    fingerprint_chars(sha256_of(vstd::utf8::encode_utf8(pem)))
}

/// The SHA-256 fingerprint of a certificate PEM, colon-grouped uppercase
/// hex, 95 characters long.
pub fn calculate_cert_fingerprint(cert_pem: &str) -> (r: String)
    ensures
        r@ == fingerprint_of(cert_pem@),
        r@.len() == 95,
{
    let digest = crate::hashing::sha256(cert_pem.as_bytes());
    let mut s = String::new();
    let mut i: usize = 0;
    while i < digest.len()
        invariant
            i <= digest@.len(),
            digest@.len() == 32,
            s@ == fingerprint_chars(digest@.take(i as int)),
        decreases digest@.len() - i,
    {
        if i > 0 {
            s.push(':');
        }
        push_hex_byte_upper(&mut s, digest[i]);
        proof {
            let prefix = digest@.take(i as int);
            let ext = digest@.take(i as int + 1);
            assert(ext.drop_last() =~= prefix);
            assert(ext.last() == digest@[i as int]);
            if i == 0 {
                assert(s@ =~= fingerprint_chars(ext));
            } else {
                assert(s@ =~= fingerprint_chars(prefix) + seq![':'] + hex_pair_upper(
                    digest@[i as int],
                ));
            }
        }
        i = i + 1;
    }
    proof {
        assert(digest@.take(digest@.len() as int) =~= digest@);
        lemma_fingerprint_len(digest@);
    }
    s
}

/// Manages the certificate files under one configuration directory and
/// decides when the certificate may be kept.
pub struct CertificateManager {
    /// The directory holding the certificate, key and metadata files
    pub config_dir: String,
    /// The metadata of the stored certificate, once loaded
    pub metadata: Option<CertMetadata>,
}

impl CertificateManager {
    /// A manager over the given directory, with no metadata loaded yet.
    pub fn with_dir(config_dir: String) -> (r: Self)
        ensures
            r.config_dir@ == config_dir@,
            r.metadata is None,
    {
        CertificateManager { config_dir, metadata: None }
    }

    /// Installs the metadata read from disk, or clears it.
    pub fn set_metadata(&mut self, metadata: Option<CertMetadata>)
        ensures
            final(self).metadata == metadata,
            final(self).config_dir@ == old(self).config_dir@,
    {
        self.metadata = metadata;
    }

    /// The certificate file path.
    pub fn cert_path(&self) -> (r: String)
        ensures
            r@ == self.config_dir@ + "/server.crt"@,
    {
        let mut p = self.config_dir.clone();
        p.append("/server.crt");
        p
    }

    /// The private key file path.
    pub fn key_path(&self) -> (r: String)
        ensures
            r@ == self.config_dir@ + "/server.key"@,
    {
        let mut p = self.config_dir.clone();
        p.append("/server.key");
        p
    }

    /// The certificate metadata file path.
    pub fn metadata_path(&self) -> (r: String)
        ensures
            r@ == self.config_dir@ + "/cert_meta.json"@,
    {
        let mut p = self.config_dir.clone();
        p.append("/cert_meta.json");
        p
    }

    /// The fingerprint of the stored certificate, when metadata is loaded.
    pub fn get_fingerprint(&self) -> (r: Option<String>)
        ensures
            match r {
                Some(fp) => self.metadata matches Some(m) && fp@ == m.fingerprint@,
                None => self.metadata is None,
            },
    {
        match &self.metadata {
            Some(m) => Some(m.fingerprint.clone()),
            None => None,
        }
    }

    /// Law and decision in one: the stored certificate stands exactly when
    /// more than the renewal threshold remains before its expiry and the
    /// requested hostname set is the one it was issued for. A run with the
    /// same hostnames inside the validity window keeps the certificate —
    /// and with it the fingerprint; a changed hostname set or a near
    /// expiry forces one regeneration.
    pub fn is_certificate_valid(
        &self,
        meta: &CertMetadata,
        hostnames: &Vec<String>,
        now_us: u64,
    ) -> (r: bool)
        ensures
            r == (meta.expires_at_us >= now_us + CERT_RENEWAL_THRESHOLD_MICROS && hostname_set(
                hostnames@,
            ) == hostname_set(meta.hostnames@)),
    {
        if meta.expires_at_us < now_us || meta.expires_at_us - now_us
            < CERT_RENEWAL_THRESHOLD_MICROS {
            return false;
        }
        same_hostname_set(hostnames, &meta.hostnames)
    }

    /// Whether a new certificate must be generated: there is no metadata,
    /// or the stored certificate no longer stands.
    pub fn needs_regeneration(&self, hostnames: &Vec<String>, now_us: u64) -> (r: bool)
        ensures
            r == match self.metadata {
                Some(m) => !(m.expires_at_us >= now_us + CERT_RENEWAL_THRESHOLD_MICROS
                    && hostname_set(hostnames@) == hostname_set(m.hostnames@)),
                None => true,
            },
    {
        match &self.metadata {
            Some(m) => !self.is_certificate_valid(m, hostnames, now_us),
            None => true,
        }
    }
}

} // verus!
