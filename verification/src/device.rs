//! Paired devices: identity, kind, timestamps and the persisted token hash.

use vstd::prelude::*;

verus! {

use vstd::string::StringSliceAdditionalSpecFns;

/// A hyphen-separated UUID text: 36 bytes with hyphens at positions 8, 13,
/// 18 and 23 and hexadecimal digits everywhere else.
pub open spec fn is_uuid_bytes(s: Seq<u8>) -> bool {
    &&& s.len() == 36
    &&& forall|i: int|
        0 <= i < 36 ==> (if i == 8 || i == 13 || i == 18 || i == 23 {
            #[trigger] s[i] == 45
        } else {
            is_hex_digit_byte(s[i])
        })
}

/// An ASCII hexadecimal digit, either case.
pub open spec fn is_hex_digit_byte(b: u8) -> bool {
    (48 <= b <= 57) || (97 <= b <= 102) || (65 <= b <= 70)
}

/// Unique identifier of a paired device: a UUID in its hyphenated text
/// form.
#[derive(Debug, Clone)]
pub struct DeviceId(pub String);

impl DeviceId {
    /// A fresh random device id.
    pub fn new() -> (r: Self)
        ensures
            r.0@.len() == 36,
    {
        DeviceId(crate::entropy::new_uuid_string())
    }

    /// Accepts an existing id exactly when it has the hyphenated UUID
    /// shape.
    pub fn parse(s: &str) -> (r: Result<Self, crate::error::Error>)
        ensures
            r matches Ok(id) ==> id.0@ == s@ && is_uuid_bytes(s.spec_bytes()),
            r is Err <==> !is_uuid_bytes(s.spec_bytes()),
    {
        let bytes = s.as_bytes();
        if bytes.len() != 36 {
            return Err(crate::error::Error::NotFound(s.to_owned()));
        }
        let mut i: usize = 0;
        while i < 36
            invariant
                bytes@.len() == 36,
                bytes@ == s.spec_bytes(),
                i <= 36,
                forall|j: int|
                    0 <= j < i ==> (if j == 8 || j == 13 || j == 18 || j == 23 {
                        #[trigger] bytes@[j] == 45
                    } else {
                        is_hex_digit_byte(bytes@[j])
                    }),
            decreases 36 - i,
        {
            let b = bytes[i];
            if i == 8 || i == 13 || i == 18 || i == 23 {
                if b != 45 {
                    return Err(crate::error::Error::NotFound(s.to_owned()));
                }
            } else {
                if !((48 <= b && b <= 57) || (97 <= b && b <= 102) || (65 <= b && b <= 70)) {
                    return Err(crate::error::Error::NotFound(s.to_owned()));
                }
            }
            i = i + 1;
        }
        Ok(DeviceId(s.to_owned()))
    }
}

/// The kind of device connecting.
#[derive(Debug, Clone, Copy, PartialEq, Eq, Structural)]
pub enum DeviceType {
    /// iOS device (iPhone, iPad)
    Ios,
    /// Android device
    Android,
    /// Web browser
    Browser,
    /// Unknown or other device
    Unknown,
}

/// The bytes of the keyword `ios`.
pub open spec fn kw_ios() -> Seq<u8> {
    seq!['i' as u8, 'o' as u8, 's' as u8]
}

/// The bytes of the keyword `iphone`.
pub open spec fn kw_iphone() -> Seq<u8> {
    seq!['i' as u8, 'p' as u8, 'h' as u8, 'o' as u8, 'n' as u8, 'e' as u8]
}

/// The bytes of the keyword `ipad`.
pub open spec fn kw_ipad() -> Seq<u8> {
    seq!['i' as u8, 'p' as u8, 'a' as u8, 'd' as u8]
}

/// The bytes of the keyword `android`.
pub open spec fn kw_android() -> Seq<u8> {
    seq!['a' as u8, 'n' as u8, 'd' as u8, 'r' as u8, 'o' as u8, 'i' as u8, 'd' as u8]
}

/// The bytes of the keyword `browser`.
pub open spec fn kw_browser() -> Seq<u8> {
    seq!['b' as u8, 'r' as u8, 'o' as u8, 'w' as u8, 's' as u8, 'e' as u8, 'r' as u8]
}

/// The bytes of the keyword `web`.
pub open spec fn kw_web() -> Seq<u8> {
    seq!['w' as u8, 'e' as u8, 'b' as u8]
}

/// What a device-kind string means, after ASCII lowercasing: `ios`,
/// `iphone` and `ipad` name iOS; `android` Android; `browser` and `web` a
/// browser; anything else is unknown.
pub open spec fn spec_parse_device_type(bytes: Seq<u8>) -> DeviceType {
    let low = crate::text::ascii_lower_bytes(bytes);
    if low == kw_ios() || low == kw_iphone() || low == kw_ipad() {
        DeviceType::Ios
    } else if low == kw_android() {
        DeviceType::Android
    } else if low == kw_browser() || low == kw_web() {
        DeviceType::Browser
    } else {
        DeviceType::Unknown
    }
}

impl DeviceType {
    /// Parses a device-kind string, case-insensitively; an unrecognized
    /// string is the unknown kind.
    pub fn parse(s: &str) -> (r: DeviceType)
        ensures
            r == spec_parse_device_type(s.spec_bytes()),
    {
        let low = crate::text::to_ascii_lower(s.as_bytes());

        let mut ios: Vec<u8> = Vec::new();
        ios.push('i' as u8);
        ios.push('o' as u8);
        ios.push('s' as u8);
        assert(ios@ =~= kw_ios());

        let mut iphone: Vec<u8> = Vec::new();
        iphone.push('i' as u8);
        iphone.push('p' as u8);
        iphone.push('h' as u8);
        iphone.push('o' as u8);
        iphone.push('n' as u8);
        iphone.push('e' as u8);
        assert(iphone@ =~= kw_iphone());

        let mut ipad: Vec<u8> = Vec::new();
        ipad.push('i' as u8);
        ipad.push('p' as u8);
        ipad.push('a' as u8);
        ipad.push('d' as u8);
        assert(ipad@ =~= kw_ipad());

        let mut android: Vec<u8> = Vec::new();
        android.push('a' as u8);
        android.push('n' as u8);
        android.push('d' as u8);
        android.push('r' as u8);
        android.push('o' as u8);
        android.push('i' as u8);
        android.push('d' as u8);
        assert(android@ =~= kw_android());

        let mut browser: Vec<u8> = Vec::new();
        browser.push('b' as u8);
        browser.push('r' as u8);
        browser.push('o' as u8);
        browser.push('w' as u8);
        browser.push('s' as u8);
        browser.push('e' as u8);
        browser.push('r' as u8);
        assert(browser@ =~= kw_browser());

        let mut web: Vec<u8> = Vec::new();
        web.push('w' as u8);
        web.push('e' as u8);
        web.push('b' as u8);
        assert(web@ =~= kw_web());

        if crate::text::bytes_eq(low.as_slice(), ios.as_slice()) || crate::text::bytes_eq(
            low.as_slice(),
            iphone.as_slice(),
        ) || crate::text::bytes_eq(low.as_slice(), ipad.as_slice()) {
            DeviceType::Ios
        } else if crate::text::bytes_eq(low.as_slice(), android.as_slice()) {
            DeviceType::Android
        } else if crate::text::bytes_eq(low.as_slice(), browser.as_slice()) || crate::text::bytes_eq(
            low.as_slice(),
            web.as_slice(),
        ) {
            DeviceType::Browser
        } else {
            DeviceType::Unknown
        }
    }
}

impl core::str::FromStr for DeviceType {
    type Err = ();

    fn from_str(s: &str) -> Result<Self, Self::Err> {
        Ok(DeviceType::parse(s))
    }
}

/// A paired device. Only the hash of its token is ever stored.
#[derive(Debug, Clone)]
pub struct Device {
    /// Unique device identifier
    pub id: DeviceId,
    /// Human-readable device name
    pub name: String,
    /// Device kind hint
    pub device_type: DeviceType,
    /// When this device was first paired, in microseconds since the epoch
    pub paired_at: u64,
    /// Last time this device connected, in microseconds since the epoch
    pub last_seen: u64,
    /// Base64 of the SHA-256 of the device's token
    pub token_hash: String,
}

/// Two devices that agree field by field.
pub open spec fn dev_eqv(a: Device, b: Device) -> bool {
    &&& a.id.0@ == b.id.0@
    &&& a.name@ == b.name@
    &&& a.device_type == b.device_type
    &&& a.paired_at == b.paired_at
    &&& a.last_seen == b.last_seen
    &&& a.token_hash@ == b.token_hash@
}

/// Copies a device field by field.
pub fn clone_device(d: &Device) -> (r: Device)
    ensures
        dev_eqv(*d, r),
{
    Device {
        id: DeviceId(d.id.0.clone()),
        name: d.name.clone(),
        device_type: d.device_type,
        paired_at: d.paired_at,
        last_seen: d.last_seen,
        token_hash: d.token_hash.clone(),
    }
}

impl Device {
    /// A new device with a fresh random id, first seen and last seen now.
    pub fn new(name: String, device_type: DeviceType, token_hash: String) -> (r: Self)
        ensures
            r.name@ == name@,
            r.device_type == device_type,
            r.token_hash@ == token_hash@,
            r.paired_at == r.last_seen,
            r.id.0@.len() == 36,
    {
        let now = crate::clock::now_micros();
        Device { id: DeviceId::new(), name, device_type, paired_at: now, last_seen: now, token_hash }
    }

    /// Moves the last-seen timestamp forward to now; it never goes
    /// backwards, so last-seen is monotone even under clock skew.
    pub fn touch(&mut self)
        ensures
            final(self).last_seen >= old(self).last_seen,
            final(self).id.0@ == old(self).id.0@,
            final(self).name@ == old(self).name@,
            final(self).device_type == old(self).device_type,
            final(self).paired_at == old(self).paired_at,
            final(self).token_hash@ == old(self).token_hash@,
    {
        let now = crate::clock::now_micros();
        if now > self.last_seen {
            self.last_seen = now;
        }
    }
}

/// Summary of a device for API responses: everything but the token hash.
#[derive(Debug, Clone)]
pub struct DeviceInfo {
    /// Device id in UUID text form
    pub id: String,
    /// Human-readable device name
    pub name: String,
    /// Device kind hint
    pub device_type: DeviceType,
    /// When this device was first paired, in microseconds since the epoch
    pub paired_at: u64,
    /// Last time this device connected, in microseconds since the epoch
    pub last_seen: u64,
}

impl DeviceInfo {
    /// The public summary of a device.
    pub fn from_device(device: &Device) -> (r: Self)
        ensures
            r.id@ == device.id.0@,
            r.name@ == device.name@,
            r.device_type == device.device_type,
            r.paired_at == device.paired_at,
            r.last_seen == device.last_seen,
    {
        DeviceInfo {
            id: device.id.0.clone(),
            name: device.name.clone(),
            device_type: device.device_type,
            paired_at: device.paired_at,
            last_seen: device.last_seen,
        }
    }
}

} // verus!
