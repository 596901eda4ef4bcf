//! Device pairing with PIN verification and token authentication.
//!
//! A pairing session holds a six-digit PIN valid for sixty seconds. On the
//! right PIN the session is consumed: a fresh 32-byte token goes back to
//! the client once, and only the base64 SHA-256 hash of that token is
//! stored with the new device. A presented token validates by hash lookup.

use vstd::prelude::*;

verus! {

use vstd::string::StringSliceAdditionalSpecFns;
use crate::device::{dev_eqv, spec_parse_device_type, Device, DeviceId, DeviceType};
use crate::hashing::token_hash_of;
use crate::storage::{contains_hash, contains_id, DeviceStorage, StorageError};
use vstd::string::{StrSliceExecFns, StringExecFns};

pub use crate::hashing::hash_token;

/// How long a PIN stays valid, in seconds.
pub const PIN_VALIDITY_SECONDS: i64 = 60;

/// The same validity in microseconds.
pub const PIN_VALIDITY_MICROS: u64 = 60000000;

/// Pairing errors.
#[derive(Debug, Clone)]
pub enum PairingError {
    /// The PIN was wrong or the session expired
    InvalidPin,
    /// No session under the given id
    SessionNotFound,
    /// The presented token matches no device
    InvalidToken,
    /// The device store failed
    Storage(StorageError),
}

/// A pairing session awaiting PIN verification.
#[derive(Debug, Clone)]
pub struct PairingSession {
    /// Session id, a fresh UUID
    pub session_id: String,
    /// The six-digit PIN, leading zeros kept
    pub pin: String,
    /// When the session expires, in microseconds since the epoch
    pub expires_at_us: u64,
}

impl PairingSession {
    /// A fresh session: random UUID, uniform six-digit PIN, sixty seconds
    /// of validity from now.
    pub fn new(now_us: u64) -> (r: Self)
        requires
            now_us + PIN_VALIDITY_MICROS <= u64::MAX,
        ensures
            r.session_id@.len() == 36,
            r.pin@.len() == 6,
            exists|n: int| 0 <= n < 1000000 && r.pin@ == crate::text::pin_str(n),
            r.expires_at_us == now_us + PIN_VALIDITY_MICROS,
    {
        let pin_value = crate::entropy::random_pin_number();
        let pin = crate::text::format_pin(pin_value);
        proof {
            assert(pin@ == crate::text::pin_str(pin_value as int));
        }
        PairingSession {
            session_id: crate::entropy::new_uuid_string(),
            pin,
            expires_at_us: now_us + PIN_VALIDITY_MICROS,
        }
    }

    /// Whether the clock has passed this session's expiry.
    pub fn is_expired(&self, now_us: u64) -> (r: bool)
        ensures
            r == (now_us > self.expires_at_us),
    {
        now_us > self.expires_at_us
    }

    /// Whether the session is alive and the PIN matches exactly.
    pub fn verify_pin(&self, pin: &str, now_us: u64) -> (r: bool)
        ensures
            r == (now_us <= self.expires_at_us && self.pin@ == pin@),
    {
        if now_us > self.expires_at_us {
            return false;
        }
        if crate::text::bytes_eq(self.pin.as_str().as_bytes(), pin.as_bytes()) {
            proof {
                crate::text::lemma_utf8_eq(self.pin@, pin@);
            }
            true
        } else {
            proof {
                assert(self.pin@ != pin@);
            }
            false
        }
    }
}

/// Response when starting a pairing session.
#[derive(Debug, Clone)]
pub struct PairingStartResponse {
    /// Session id for the pairing flow
    pub session_id: String,
    /// The six-digit PIN to display or share
    pub pin: String,
    /// Seconds until this PIN expires
    pub expires_in: i64,
}

/// Request to verify a PIN.
#[derive(Debug, Clone)]
pub struct PairingVerifyRequest {
    /// The session id from start
    pub session_id: String,
    /// The PIN the user entered
    pub pin: String,
    /// Device name provided by the client
    pub device_name: String,
    /// Device kind hint
    pub device_type: Option<String>,
}

/// Response after successful PIN verification.
#[derive(Debug, Clone)]
pub struct PairingVerifyResponse {
    /// The device id assigned to this device
    pub device_id: String,
    /// The auth token, returned exactly once
    pub token: String,
}

/// What a pairing QR code encodes.
#[derive(Debug, Clone)]
pub struct QrCodeData {
    /// Server URL to connect to
    pub url: String,
    /// The pairing PIN
    pub pin: String,
    /// Session id
    pub session_id: String,
    /// First twenty characters of the certificate fingerprint
    pub fingerprint: Option<String>,
    /// Server version
    pub version: Option<String>,
}

/// The device kind a verify request asks for: its hint parsed, or unknown.
pub open spec fn requested_device_type(device_type: Option<String>) -> DeviceType {
    match device_type {
        Some(s) => spec_parse_device_type(vstd::utf8::encode_utf8(s@)),
        None => DeviceType::Unknown,
    }
}

/// Some session in the table carries this id.
pub open spec fn contains_session(sessions: Seq<PairingSession>, id: Seq<char>) -> bool {
    exists|i: int| 0 <= i < sessions.len() && #[trigger] sessions[i].session_id@ == id
}

/// A session still alive at `now_us`.
pub open spec fn session_alive(s: PairingSession, now_us: u64) -> bool {
    now_us <= s.expires_at_us
}

/// Manages pairing sessions, token issue and the device table.
pub struct PairingManager {
    /// Active pairing sessions
    pub sessions: Vec<PairingSession>,
    /// The device table
    pub storage: DeviceStorage,
    /// Server URL for QR codes
    pub server_url: String,
    /// Certificate fingerprint for QR codes
    pub cert_fingerprint: Option<String>,
}

impl PairingManager {
    /// A manager over the given device table, with no active sessions.
    pub fn new(storage: DeviceStorage, server_url: String) -> (r: Self)
        ensures
            r.sessions@.len() == 0,
            r.storage == storage,
            r.server_url@ == server_url@,
            r.cert_fingerprint is None,
    {
        PairingManager { sessions: Vec::new(), storage, server_url, cert_fingerprint: None }
    }

    /// A manager that also knows the certificate fingerprint.
    pub fn with_fingerprint(storage: DeviceStorage, server_url: String, fingerprint: Option<String>) -> (r: Self)
        ensures
            r.sessions@.len() == 0,
            r.storage == storage,
            r.server_url@ == server_url@,
            r.cert_fingerprint == fingerprint,
    {
        PairingManager { sessions: Vec::new(), storage, server_url, cert_fingerprint: fingerprint }
    }

    /// Replaces the certificate fingerprint.
    pub fn set_fingerprint(&mut self, fingerprint: Option<String>)
        ensures
            final(self).cert_fingerprint == fingerprint,
            final(self).sessions@ == old(self).sessions@,
            final(self).storage == old(self).storage,
    {
        self.cert_fingerprint = fingerprint;
    }

    /// Drops every expired session.
    fn sweep_expired(&mut self, now_us: u64)
        ensures
            final(self).sessions@ == old(self).sessions@.filter(
                |s: PairingSession| now_us <= s.expires_at_us,
            ),
            final(self).storage == old(self).storage,
            final(self).server_url == old(self).server_url,
            final(self).cert_fingerprint == old(self).cert_fingerprint,
    {
        let mut kept: Vec<PairingSession> = Vec::new();
        let mut i: usize = 0;
        proof {
            assert(old(self).sessions@.take(0int).filter(
                |s: PairingSession| now_us <= s.expires_at_us,
            ) =~= Seq::<PairingSession>::empty());
        }
        while i < self.sessions.len()
            invariant
                i <= self.sessions@.len(),
                self.sessions@ == old(self).sessions@,
                kept@ == old(self).sessions@.take(i as int).filter(
                    |s: PairingSession| now_us <= s.expires_at_us,
                ),
            decreases self.sessions@.len() - i,
        {
            let ghost prefix = self.sessions@.take(i as int);
            let s = &self.sessions[i];
            if !(now_us > s.expires_at_us) {
                let copy = PairingSession {
                    session_id: s.session_id.clone(),
                    pin: s.pin.clone(),
                    expires_at_us: s.expires_at_us,
                };
                proof {
                    assert(copy.session_id@ == s.session_id@ && copy.pin@ == s.pin@);
                }
                kept.push(copy);
            }
            proof {
                assert(self.sessions@.take(i as int + 1) =~= prefix.push(
                    self.sessions@[i as int],
                ));
                prefix.lemma_filter_push(
                    self.sessions@[i as int],
                    |s: PairingSession| now_us <= s.expires_at_us,
                );
            }
            i = i + 1;
        }
        proof {
            assert(self.sessions@.take(self.sessions@.len() as int) =~= self.sessions@);
        }
        self.sessions = kept;
    }

    /// Starts a new pairing session: a fresh UUID and six-digit PIN, valid
    /// for sixty seconds, added to the table after expired sessions are
    /// swept out.
    pub fn start_pairing(&mut self, now_us: u64) -> (r: PairingStartResponse)
        requires
            now_us + PIN_VALIDITY_MICROS <= u64::MAX,
        ensures
            r.pin@.len() == 6,
            exists|n: int| 0 <= n < 1000000 && r.pin@ == crate::text::pin_str(n),
            r.expires_in == PIN_VALIDITY_SECONDS,
            final(self).sessions@.len() >= 1,
            final(self).sessions@ == old(self).sessions@.filter(
                |s: PairingSession| now_us <= s.expires_at_us,
            ).push(final(self).sessions@.last()),
            final(self).sessions@.last().session_id@ == r.session_id@,
            final(self).sessions@.last().pin@ == r.pin@,
            final(self).sessions@.last().expires_at_us == now_us + PIN_VALIDITY_MICROS,
            final(self).storage == old(self).storage,
    {
        let session = PairingSession::new(now_us);
        let response = PairingStartResponse {
            session_id: session.session_id.clone(),
            pin: session.pin.clone(),
            expires_in: PIN_VALIDITY_SECONDS,
        };
        self.sweep_expired(now_us);
        self.sessions.push(session);
        response
    }

    /// The index of the first session with this id, when one exists.
    fn find_session(&self, session_id: &str) -> (r: Option<usize>)
        ensures
            match r {
                Some(i) => i < self.sessions@.len() && self.sessions@[i as int].session_id@
                    == session_id@ && (forall|j: int|
                    0 <= j < i ==> #[trigger] self.sessions@[j].session_id@ != session_id@),
                None => !contains_session(self.sessions@, session_id@),
            },
    {
        let mut i: usize = 0;
        while i < self.sessions.len()
            invariant
                i <= self.sessions@.len(),
                forall|j: int|
                    0 <= j < i ==> #[trigger] self.sessions@[j].session_id@ != session_id@,
            decreases self.sessions@.len() - i,
        {
            if crate::text::bytes_eq(
                self.sessions[i].session_id.as_str().as_bytes(),
                session_id.as_bytes(),
            ) {
                proof {
                    crate::text::lemma_utf8_eq(
                        self.sessions@[i as int].session_id@,
                        session_id@,
                    );
                }
                return Some(i);
            }
            proof {
                assert(self.sessions@[i as int].session_id@ != session_id@);
            }
            i = i + 1;
        }
        None
    }

    /// Verifies a PIN and completes pairing. `SessionNotFound` exactly when
    /// no session carries the id. A wrong PIN or an expired session fails
    /// with `InvalidPin` and leaves the session standing, so the user may
    /// retry inside the window. On the right PIN the session is consumed: a
    /// fresh token goes back once, and the new device is stored carrying
    /// the name, the parsed kind, and exactly the hash of that token.
    pub fn verify_pin(&mut self, request: PairingVerifyRequest, now_us: u64) -> (r: Result<
        PairingVerifyResponse,
        PairingError,
    >)
        requires
            old(self).storage.wf(),
        ensures
            final(self).storage.wf(),
            r matches Err(e) ==> (e is SessionNotFound || e is InvalidPin) && final(self).sessions@
                == old(self).sessions@ && final(self).storage.devices@ == old(
                self,
            ).storage.devices@,
            (r matches Err(e) && e is SessionNotFound) <==> !contains_session(
                old(self).sessions@,
                request.session_id@,
            ),
            r is Ok <==> exists|i: int|
                {
                    &&& 0 <= i < old(self).sessions@.len()
                    &&& (#[trigger] old(self).sessions@[i].session_id@) == request.session_id@
                    &&& (forall|j: int|
                        0 <= j < i ==> #[trigger] old(self).sessions@[j].session_id@
                            != request.session_id@)
                    &&& session_alive(old(self).sessions@[i], now_us)
                    &&& old(self).sessions@[i].pin@ == request.pin@
                },
            r matches Ok(resp) ==> {
                &&& resp.device_id@.len() == 36
                &&& resp.token@.len() == 44
                &&& exists|k: int|
                    {
                        &&& 0 <= k < final(self).storage.devices@.len()
                        &&& (#[trigger] final(self).storage.devices@[k].id.0@) == resp.device_id@
                        &&& final(self).storage.devices@[k].token_hash@ == token_hash_of(
                            resp.token@,
                        )
                        &&& final(self).storage.devices@[k].name@ == request.device_name@
                        &&& final(self).storage.devices@[k].device_type == requested_device_type(
                            request.device_type,
                        )
                    }
                &&& exists|i: int|
                    0 <= i < old(self).sessions@.len() && (#[trigger] old(
                        self,
                    ).sessions@[i].session_id@) == request.session_id@ && final(self).sessions@
                        == old(self).sessions@.remove(i)
            },
    {
        let idx = match self.find_session(request.session_id.as_str()) {
            Some(i) => i,
            None => {
                return Err(PairingError::SessionNotFound);
            },
        };
        let ok = self.sessions[idx].verify_pin(request.pin.as_str(), now_us);
        if !ok {
            proof {
                let i = idx as int;
                assert(old(self).sessions@[i].session_id@ == request.session_id@);
                assert(!(session_alive(old(self).sessions@[i], now_us) && old(
                    self,
                ).sessions@[i].pin@ == request.pin@));
                assert(contains_session(old(self).sessions@, request.session_id@));
            }
            return Err(PairingError::InvalidPin);
        }

        let token_bytes = crate::entropy::random_token_bytes();
        let token = crate::hashing::base64_encode(token_bytes.as_slice());
        let token_hash = crate::hashing::hash_token(token.as_str());

        let device_type = match &request.device_type {
            Some(s) => DeviceType::parse(s.as_str()),
            None => DeviceType::Unknown,
        };

        let device = Device::new(request.device_name, device_type, token_hash);
        let device_id = device.id.0.clone();
        let ghost gdev = device;

        let _ = self.storage.save_device(device);

        self.sessions.remove(idx);

        proof {
            let i = idx as int;
            assert(old(self).sessions@[i].session_id@ == request.session_id@);
            assert(session_alive(old(self).sessions@[i], now_us) && old(self).sessions@[i].pin@
                == request.pin@);
            assert(self.sessions@ =~= old(self).sessions@.remove(i));
            assert(contains_id(self.storage.devices@, gdev.id.0@));
        }

        Ok(PairingVerifyResponse { device_id, token })
    }

    /// Validates a token: its hash is looked up in the device table. Fails
    /// with `InvalidToken` exactly when no device carries the hash.
    pub fn validate_token(&self, token: &str) -> (r: Result<Device, PairingError>)
        ensures
            r is Ok <==> contains_hash(self.storage.devices@, token_hash_of(token@)),
            r matches Ok(d) ==> d.token_hash@ == token_hash_of(token@) && exists|i: int|
                0 <= i < self.storage.devices@.len() && dev_eqv(
                    #[trigger] self.storage.devices@[i],
                    d,
                ),
            r matches Err(e) ==> e is InvalidToken,
    {
        let token_hash = crate::hashing::hash_token(token);
        match self.storage.get_device_by_token_hash(token_hash.as_str()) {
            Some(d) => Ok(d),
            None => Err(PairingError::InvalidToken),
        }
    }

    /// Moves the device's last-seen forward, found by its token.
    pub fn touch_device(&mut self, token: &str) -> (r: Result<(), PairingError>)
        requires
            old(self).storage.wf(),
        ensures
            final(self).storage.wf(),
            final(self).sessions@ == old(self).sessions@,
            r is Ok <==> contains_hash(old(self).storage.devices@, token_hash_of(token@)),
            r matches Err(e) ==> e is InvalidToken && final(self).storage.devices@ == old(
                self,
            ).storage.devices@,
    {
        let device = match self.validate_token(token) {
            Ok(d) => d,
            Err(e) => {
                return Err(e);
            },
        };
        match self.storage.touch_device(&device.id) {
            Ok(()) => Ok(()),
            Err(_) => Ok(()),
        }
    }

    /// Copies of all paired devices.
    pub fn list_devices(&self) -> (r: Vec<Device>)
        ensures
            r@.len() == self.storage.devices@.len(),
            forall|i: int|
                0 <= i < r@.len() ==> dev_eqv(#[trigger] r@[i], self.storage.devices@[i]),
    {
        self.storage.list_devices()
    }

    /// Revokes a device by its id string. `NotFound` when the id is not a
    /// UUID or no device carries it; afterwards no device carries the id.
    pub fn revoke_device(&mut self, device_id: &str) -> (r: Result<(), StorageError>)
        requires
            old(self).storage.wf(),
        ensures
            final(self).storage.wf(),
            final(self).sessions@ == old(self).sessions@,
            r is Ok <==> crate::device::is_uuid_bytes(device_id.spec_bytes()) && contains_id(
                old(self).storage.devices@,
                device_id@,
            ),
            r is Ok ==> !contains_id(final(self).storage.devices@, device_id@),
            r matches Err(e) ==> e is NotFound && final(self).storage.devices@ == old(
                self,
            ).storage.devices@,
    {
        let id = match DeviceId::parse(device_id) {
            Ok(id) => id,
            Err(_) => {
                return Err(StorageError::NotFound(device_id.to_owned()));
            },
        };
        self.storage.remove_device(&id)
    }

    /// Whether any device is paired.
    pub fn has_paired_devices(&self) -> (r: bool)
        ensures
            r == (self.storage.devices@.len() > 0),
    {
        self.storage.has_devices()
    }

    /// The PIN and whole seconds remaining of the first session with this
    /// id, when one exists.
    pub fn get_session_info(&self, session_id: &str, now_us: u64) -> (r: Option<(String, i64)>)
        ensures
            match r {
                Some(info) => exists|i: int|
                    {
                        &&& 0 <= i < self.sessions@.len()
                        &&& (#[trigger] self.sessions@[i].session_id@) == session_id@
                        &&& info.0@ == self.sessions@[i].pin@
                        &&& info.1 == (if self.sessions@[i].expires_at_us >= now_us {
                            ((self.sessions@[i].expires_at_us - now_us) as u64 / 1000000) as int
                        } else {
                            0int
                        })
                    },
                None => !contains_session(self.sessions@, session_id@),
            },
    {
        match self.find_session(session_id) {
            Some(i) => {
                let s = &self.sessions[i];
                let remaining: i64 = if s.expires_at_us >= now_us {
                    let micros = s.expires_at_us - now_us;
                    (micros / 1000000) as i64
                } else {
                    0
                };
                proof {
                    assert(self.sessions@[i as int].expires_at_us >= now_us ==> (
                    self.sessions@[i as int].expires_at_us - now_us) as u64 / 1000000 <= u64::MAX
                        / 1000000);
                }
                Some((s.pin.clone(), remaining))
            },
            None => None,
        }
    }

    /// What a QR code for this session encodes: the server URL, the PIN,
    /// the session id, and the first twenty characters of the certificate
    /// fingerprint when one is known.
    pub fn get_qr_data(&self, session_id: &str) -> (r: Option<QrCodeData>)
        ensures
            match r {
                Some(data) => exists|i: int|
                    {
                        &&& 0 <= i < self.sessions@.len()
                        &&& (#[trigger] self.sessions@[i].session_id@) == session_id@
                        &&& data.pin@ == self.sessions@[i].pin@
                        &&& data.session_id@ == self.sessions@[i].session_id@
                        &&& data.url@ == self.server_url@
                        &&& match (self.cert_fingerprint, data.fingerprint) {
                            (Some(f), Some(fp)) => fp@ == (if vstd::utf8::is_ascii_chars(f@)
                                && f@.len() > 20 {
                                f@.take(20)
                            } else {
                                f@
                            }),
                            (None, None) => true,
                            _ => false,
                        }
                    },
                None => !contains_session(self.sessions@, session_id@),
            },
    {
        match self.find_session(session_id) {
            Some(i) => {
                let s = &self.sessions[i];
                let fp = match &self.cert_fingerprint {
                    Some(f) => Some(truncate_fingerprint(f)),
                    None => None,
                };
                Some(
                    QrCodeData {
                        url: self.server_url.clone(),
                        pin: s.pin.clone(),
                        session_id: s.session_id.clone(),
                        fingerprint: fp,
                        version: None,
                    },
                )
            },
            None => None,
        }
    }
}

/// The first twenty characters of an ASCII fingerprint; a short or
/// non-ASCII one comes back whole.
pub fn truncate_fingerprint(f: &String) -> (r: String)
    ensures
        r@ == (if vstd::utf8::is_ascii_chars(f@) && f@.len() > 20 {
            f@.take(20)
        } else {
            f@
        }),
{
    if f.as_str().is_ascii() && f.as_str().unicode_len() > 20 {
        f.as_str().substring_ascii(0, 20).to_owned()
    } else {
        f.clone()
    }
}

/// The pairing URL a QR code carries: the scheme and the percent-encoded
/// server URL, the PIN and session id verbatim, then the fingerprint
/// prefix and version when present.
pub fn build_pairing_url(
    url: &str,
    pin: &str,
    session_id: &str,
    fingerprint: Option<&str>,
    version: Option<&str>,
) -> (r: String)
    ensures
        r@ == "linglide://pair?url="@ + crate::text::url_encode_bytes(url.spec_bytes()) + "&pin="@
            + pin@ + "&session="@ + session_id@ + (match fingerprint {
            Some(fp) => "&fp="@ + fp@,
            None => Seq::<char>::empty(),
        }) + (match version {
            Some(v) => "&v="@ + v@,
            None => Seq::<char>::empty(),
        }),
{
    let mut r = String::new();
    r.append("linglide://pair?url=");
    let encoded = crate::text::urlencoding(url);
    r.append(encoded.as_str());
    r.append("&pin=");
    r.append(pin);
    r.append("&session=");
    r.append(session_id);
    match fingerprint {
        Some(fp) => {
            r.append("&fp=");
            r.append(fp);
        },
        None => {},
    }
    match version {
        Some(v) => {
            r.append("&v=");
            r.append(v);
        },
        None => {},
    }
    proof {
        assert(r@ =~= "linglide://pair?url="@ + crate::text::url_encode_bytes(url.spec_bytes())
            + "&pin="@ + pin@ + "&session="@ + session_id@ + (match fingerprint {
            Some(fp) => "&fp="@ + fp@,
            None => Seq::<char>::empty(),
        }) + (match version {
            Some(v) => "&v="@ + v@,
            None => Seq::<char>::empty(),
        }));
    }
    r
}

/// Law: a token handed out by `verify_pin` validates afterwards — the
/// store holds a device whose hash is the hash of that token, so a lookup
/// by hash succeeds; and when no other device shares the hash, every
/// device the lookup can return carries the id `verify_pin` answered.
pub proof fn lemma_verify_then_validate(devices: Seq<Device>, token: Seq<char>, device_id: Seq<
    char,
>)
    requires
        exists|i: int|
            0 <= i < devices.len() && (#[trigger] devices[i].id.0@) == device_id
                && devices[i].token_hash@ == token_hash_of(token),
        forall|j: int|
            0 <= j < devices.len() && (#[trigger] devices[j].token_hash@) == token_hash_of(token)
                ==> devices[j].id.0@ == device_id,
    ensures
        contains_hash(devices, token_hash_of(token)),
        forall|j: int|
            0 <= j < devices.len() && (#[trigger] devices[j].token_hash@) == token_hash_of(token)
                ==> devices[j].id.0@ == device_id,
{
    let i = choose|i: int|
        0 <= i < devices.len() && (#[trigger] devices[i].id.0@) == device_id
            && devices[i].token_hash@ == token_hash_of(token);
    assert(devices[i].token_hash@ == token_hash_of(token));
}

/// Law: after a device is revoked, a token that hashed to it no longer
/// validates — provided no other device carried the same token hash. With
/// the id gone from the table, no device carries the hash, so the lookup
/// fails with `InvalidToken`.
pub proof fn lemma_revoked_token_fails(devices: Seq<Device>, token: Seq<char>, device_id: Seq<
    char,
>)
    requires
        forall|j: int|
            0 <= j < devices.len() && (#[trigger] devices[j].token_hash@) == token_hash_of(token)
                ==> devices[j].id.0@ == device_id,
        !contains_id(devices, device_id),
    ensures
        !contains_hash(devices, token_hash_of(token)),
{
    assert forall|j: int| 0 <= j < devices.len() implies (#[trigger] devices[j].token_hash@)
        != token_hash_of(token) by {
        if devices[j].token_hash@ == token_hash_of(token) {
            assert(devices[j].id.0@ == device_id);
            assert(contains_id(devices, device_id));
        }
    }
}

} // verus!
