//! The identity that a guest boots with, and the device that carries it.
use crate::allocation_authority::{bytes_json, bytes_text};
use crate::guest_wire::{frame_header, frame_header_reads_back, header_length};
use crate::ids::{hyphenated, uuid_text, AllocationId, Id};
use crate::json::{decimal, decimal_text, id_json, json_string, quoted, signed_decimal, signed_text};
use crate::text::{byte_len, byte_length, extend};
use vstd::prelude::*;
use vstd::slice::slice_subrange;
use vstd::string::*;
use vstd::utf8::*;

verus! {

pub const DEVICE_BYTES: usize = 131072;

pub const MAX_BODY: usize = 65536;

/// Longest credential, in bytes.
pub const MAX_CREDENTIAL: usize = 16384;

/// The bytes that a bootstrap device starts with: `HDSBOOT1`.
pub open spec fn magic() -> Seq<u8> {
    seq![72u8, 68u8, 83u8, 66u8, 79u8, 79u8, 84u8, 49u8]
}

/// Why a bootstrap identity or device was refused.
#[derive(Debug, Clone, Copy, PartialEq, Eq, Structural)]
pub enum BootstrapError {
    /// Invalid bootstrap identity.
    Identity,
    /// Invalid bootstrap credential size.
    Credential,
    /// Missing bootstrap peer identity.
    Peer,
    /// Bootstrap identity expired.
    Expired,
    /// Bootstrap body too large.
    TooLarge,
    /// The device ends before its header or body does.
    Truncated,
    /// Unsupported bootstrap device.
    Magic,
    /// Invalid bootstrap body size.
    BodySize,
    /// Invalid bootstrap body.
    Body,
}

pub struct Bootstrap {
    pub version: u32,
    pub allocation: AllocationId,
    pub generation: i64,
    pub valid_until_unix_ms: i64,
    pub ca_pem: String,
    pub guest_cert_pem: String,
    pub guest_key_pem: String,
    pub host_pin: [u8; 32],
}

impl Clone for Bootstrap {
    fn clone(&self) -> (r: Self)
        ensures
            r == *self,
    {
        Bootstrap {
            version: self.version,
            allocation: self.allocation,
            generation: self.generation,
            valid_until_unix_ms: self.valid_until_unix_ms,
            ca_pem: self.ca_pem.clone(),
            guest_cert_pem: self.guest_cert_pem.clone(),
            guest_key_pem: self.guest_key_pem.clone(),
            host_pin: self.host_pin,
        }
    }
}

pub open spec fn credential_valid(text: Seq<char>) -> bool {
    text.len() > 0 && byte_len(text) <= MAX_CREDENTIAL
}

/// Every byte is zero.
pub open spec fn all_zero(bytes: Seq<u8>) -> bool {
    forall|i: int| 0 <= i < bytes.len() ==> #[trigger] bytes[i] == 0
}

/// What checking a bootstrap identity answers.
pub open spec fn bootstrap_check(b: Bootstrap) -> Result<(), BootstrapError> {
    if b.version != 1 || b.generation <= 0 || b.valid_until_unix_ms <= 0 {
        Err(BootstrapError::Identity)
    } else if !credential_valid(b.ca_pem@) || !credential_valid(b.guest_cert_pem@) || !credential_valid(b.guest_key_pem@) {
        Err(BootstrapError::Credential)
    } else if all_zero(b.host_pin@) {
        Err(BootstrapError::Peer)
    } else {
        Ok(())
    }
}

/// The typed encoding of a bootstrap identity: its fields in declaration order.
#[verifier::opaque]
pub open spec fn bootstrap_json(b: Bootstrap) -> Seq<char> {
    "{\"version\":"@ + decimal(b.version as nat) + ",\"allocation\":"@ + id_json("alc"@, b.allocation.value)
        + ",\"generation\":"@ + signed_decimal(b.generation as int) + ",\"valid_until_unix_ms\":"@ + signed_decimal(
        b.valid_until_unix_ms as int,
    ) + ",\"ca_pem\":"@ + json_string(b.ca_pem@) + ",\"guest_cert_pem\":"@ + json_string(b.guest_cert_pem@)
        + ",\"guest_key_pem\":"@ + json_string(b.guest_key_pem@) + ",\"host_pin\":"@ + bytes_json(b.host_pin@) + "}"@
}

/// The same bootstrap identity, field by field.
pub open spec fn same_bootstrap(a: Bootstrap, b: Bootstrap) -> bool {
    &&& a.version == b.version
    &&& a.allocation == b.allocation
    &&& a.generation == b.generation
    &&& a.valid_until_unix_ms == b.valid_until_unix_ms
    &&& a.ca_pem@ == b.ca_pem@
    &&& a.guest_cert_pem@ == b.guest_cert_pem@
    &&& a.guest_key_pem@ == b.guest_key_pem@
    &&& a.host_pin@ == b.host_pin@
}

/// A body framed for the device: the magic, the length, the body, zeros.
pub open spec fn device_bytes(body: Seq<u8>) -> Seq<u8> {
    magic() + frame_header(body.len() as u32) + body + Seq::new(
        (DEVICE_BYTES - 12 - body.len()) as nat,
        |i: int| 0u8,
    )
}

/// What writing a bootstrap device gives.
pub open spec fn device_check(b: Bootstrap) -> Result<Seq<u8>, BootstrapError> {
    match bootstrap_check(b) {
        Err(e) => Err(e),
        Ok(_) => if encode_utf8(bootstrap_json(b)).len() > MAX_BODY {
            Err(BootstrapError::TooLarge)
        } else {
            Ok(device_bytes(encode_utf8(bootstrap_json(b))))
        },
    }
}

/// The body that a device holds, or why it is refused.
pub open spec fn device_body_of(device: Seq<u8>) -> Result<Seq<u8>, BootstrapError> {
    if device.len() < 12 {
        Err(BootstrapError::Truncated)
    } else if device.take(8) != magic() {
        Err(BootstrapError::Magic)
    } else {
        let n = header_length(device.subrange(8, 12));
        if n == 0 || n > MAX_BODY {
            Err(BootstrapError::BodySize)
        } else if device.len() < 12 + n {
            Err(BootstrapError::Truncated)
        } else {
            Ok(device.subrange(12, 12 + n))
        }
    }
}

fn is_zero(bytes: &[u8; 32]) -> (r: bool)
    ensures
        r == all_zero(bytes@),
{
    let mut i: usize = 0;
    while i < 32
        invariant
            i <= 32,
            forall|j: int| 0 <= j < i ==> #[trigger] bytes@[j] == 0,
        decreases 32 - i,
    {
        if bytes[i] != 0 {
            return false;
        }
        i = i + 1;
    }
    true
}

fn is_credential(value: &str) -> (r: bool)
    ensures
        r == credential_valid(value@),
{
    !value.is_empty() && byte_length(value) <= MAX_CREDENTIAL
}

fn has_magic(device: &[u8]) -> (r: bool)
    requires
        device@.len() >= 8,
    ensures
        r == (device@.take(8) == magic()),
{
    let r: bool = device[0] == 72 && device[1] == 68 && device[2] == 83 && device[3] == 66 && device[4] == 79
        && device[5] == 79 && device[6] == 84 && device[7] == 49;
    proof {
        if r {
            assert(device@.take(8) =~= magic());
        } else if device@.take(8) == magic() {
            assert(device@.take(8)[0] == device@[0]);
            assert(device@.take(8)[1] == device@[1]);
            assert(device@.take(8)[2] == device@[2]);
            assert(device@.take(8)[3] == device@[3]);
            assert(device@.take(8)[4] == device@[4]);
            assert(device@.take(8)[5] == device@[5]);
            assert(device@.take(8)[6] == device@[6]);
            assert(device@.take(8)[7] == device@[7]);
        }
    }
    r
}

/// The length of the body behind a device header, or why it is refused.
pub open spec fn header_check(header: Seq<u8>) -> Result<int, BootstrapError> {
    if header.take(8) != magic() {
        Err(BootstrapError::Magic)
    } else {
        let n = header_length(header.subrange(8, 12));
        if n == 0 || n > MAX_BODY {
            Err(BootstrapError::BodySize)
        } else {
            Ok(n)
        }
    }
}

/// Read the twelve bytes in front of the body.
pub fn read_header(header: &[u8]) -> (r: Result<usize, BootstrapError>)
    requires
        header@.len() >= 12,
    ensures
        match r {
            Ok(n) => header_check(header@) == Ok::<int, BootstrapError>(n as int),
            Err(e) => header_check(header@) == Err::<int, BootstrapError>(e),
        },
{
    if !has_magic(header) {
        return Err(BootstrapError::Magic);
    }
    let n: u64 = header[8] as u64 * 0x1000000 + header[9] as u64 * 0x10000 + header[10] as u64 * 0x100 + header[11] as u64;
    if n == 0 || n > MAX_BODY as u64 {
        return Err(BootstrapError::BodySize);
    }
    Ok(n as usize)
}

/// The body that a device holds.
pub fn device_body(device: &[u8]) -> (r: Result<&[u8], BootstrapError>)
    ensures
        match r {
            Ok(body) => device_body_of(device@) == Ok::<Seq<u8>, BootstrapError>(body@),
            Err(e) => device_body_of(device@) == Err::<Seq<u8>, BootstrapError>(e),
        },
{
    if device.len() < 12 {
        return Err(BootstrapError::Truncated);
    }
    match read_header(device) {
        Err(e) => Err(e),
        Ok(n) => {
            if device.len() < 12 + n {
                return Err(BootstrapError::Truncated);
            }
            Ok(slice_subrange(device, 12, 12 + n))
        },
    }
}

/// What asking a bootstrap for the guest's identity answers at a time.
pub open spec fn served(b: Bootstrap, now_ms: i64) -> Result<(), BootstrapError> {
    match bootstrap_check(b) {
        Err(e) => Err(e),
        Ok(_) => if now_ms < b.valid_until_unix_ms {
            Ok(())
        } else {
            Err(BootstrapError::Expired)
        },
    }
}

/// What reading a device answers, where `parsed` is what its body says.
pub open spec fn device_read(device: Seq<u8>, parsed: Option<Bootstrap>) -> Result<Bootstrap, BootstrapError> {
    match device_body_of(device) {
        Err(e) => Err(e),
        Ok(_) => match parsed {
            None => Err(BootstrapError::Body),
            Some(b) => match bootstrap_check(b) {
                Ok(_) => Ok(b),
                Err(e) => Err(e),
            },
        },
    }
}

impl Bootstrap {
    pub fn validate(&self) -> (r: Result<(), BootstrapError>)
        ensures
            r == bootstrap_check(*self),
    {
        if self.version != 1 || self.generation <= 0 || self.valid_until_unix_ms <= 0 {
            return Err(BootstrapError::Identity);
        }
        if !is_credential(self.ca_pem.as_str()) || !is_credential(self.guest_cert_pem.as_str()) || !is_credential(
            self.guest_key_pem.as_str(),
        ) {
            return Err(BootstrapError::Credential);
        }
        if is_zero(&self.host_pin) {
            return Err(BootstrapError::Peer);
        }
        Ok(())
    }

    /// Whether the guest may serve with this identity at `now_ms`.
    pub fn server_identity(&self, now_ms: i64) -> (r: Result<(), BootstrapError>)
        ensures
            r == served(*self, now_ms),
    {
        match self.validate() {
            Err(e) => Err(e),
            Ok(_) => if now_ms < self.valid_until_unix_ms {
                Ok(())
            } else {
                Err(BootstrapError::Expired)
            },
        }
    }

    fn render(&self) -> (r: String)
        ensures
            r@ == bootstrap_json(*self),
    {
        proof {
            reveal(bootstrap_json);
        }
        let mut out: String = "{\"version\":".to_owned();
        out.append(decimal_text(self.version as u64).as_str());
        out.append(",\"allocation\":");
        out.append(quoted(self.allocation.to_string().as_str()).as_str());
        out.append(",\"generation\":");
        out.append(signed_text(self.generation).as_str());
        out.append(",\"valid_until_unix_ms\":");
        out.append(signed_text(self.valid_until_unix_ms).as_str());
        out.append(",\"ca_pem\":");
        out.append(quoted(self.ca_pem.as_str()).as_str());
        out.append(",\"guest_cert_pem\":");
        out.append(quoted(self.guest_cert_pem.as_str()).as_str());
        out.append(",\"guest_key_pem\":");
        out.append(quoted(self.guest_key_pem.as_str()).as_str());
        out.append(",\"host_pin\":");
        out.append(bytes_text(self.host_pin.as_slice()).as_str());
        out.append("}");
        out
    }

    pub fn encode_device(&self) -> (r: Result<Vec<u8>, BootstrapError>)
        ensures
            match r {
                Ok(device) => device_check(*self) == Ok::<Seq<u8>, BootstrapError>(device@) && device@.len()
                    == DEVICE_BYTES,
                Err(e) => device_check(*self) == Err::<Seq<u8>, BootstrapError>(e),
            },
    {
        match self.validate() {
            Err(e) => {
                return Err(e);
            },
            Ok(_) => {},
        }
        let text: String = self.render();
        let body: &[u8] = text.as_str().as_bytes();
        if body.len() > MAX_BODY {
            return Err(BootstrapError::TooLarge);
        }
        let n: u32 = body.len() as u32;
        let mut device: Vec<u8> = Vec::new();
        device.push(72);
        device.push(68);
        device.push(83);
        device.push(66);
        device.push(79);
        device.push(79);
        device.push(84);
        device.push(49);
        device.push(((n >> 24u32) & 0xff) as u8);
        device.push(((n >> 16u32) & 0xff) as u8);
        device.push(((n >> 8u32) & 0xff) as u8);
        device.push((n & 0xff) as u8);
        assert(device@ =~= magic() + frame_header(n));
        extend(&mut device, body);
        let ghost framed = device@;
        assert(framed.len() == 12 + body@.len());
        while device.len() < DEVICE_BYTES
            invariant
                framed.len() <= device@.len() <= DEVICE_BYTES,
                device@ == framed + Seq::new((device@.len() - framed.len()) as nat, |i: int| 0u8),
            decreases DEVICE_BYTES - device@.len(),
        {
            device.push(0);
            assert(device@ =~= framed + Seq::new((device@.len() - framed.len()) as nat, |i: int| 0u8));
        }
        assert(device@ =~= device_bytes(body@));
        Ok(device)
    }

    /// Accept `parsed`, what the body of `device` holds as the JSON of a
    /// bootstrap identity: `None` where it holds none.
    pub fn read_device(device: &[u8], parsed: Option<Bootstrap>) -> (r: Result<Self, BootstrapError>)
        ensures
            r == device_read(device@, parsed),
    {
        match device_body(device) {
            Err(e) => {
                return Err(e);
            },
            Ok(_) => {},
        }
        match parsed {
            None => Err(BootstrapError::Body),
            Some(b) => match b.validate() {
                Ok(_) => Ok(b),
                Err(e) => Err(e),
            },
        }
    }

    /// The form for a log line: which guest, never its credentials.
    pub fn debug_text(&self) -> (r: String)
        ensures
            r@ == "Bootstrap { allocation: AllocationId("@ + hyphenated(self.allocation.value) + "), generation: "@
                + signed_decimal(self.generation as int) + ", .. }"@,
    {
        let mut out: String = "Bootstrap { allocation: AllocationId(".to_owned();
        out.append(uuid_text(self.allocation.value).as_str());
        out.append("), generation: ");
        out.append(signed_text(self.generation).as_str());
        out.append(", .. }");
        out
    }
}

/// What a device was written with is what is read from it.
pub proof fn written_device_reads_back(body: Seq<u8>)
    requires
        0 < body.len() <= MAX_BODY,
    ensures
        device_bytes(body).len() == DEVICE_BYTES,
        device_body_of(device_bytes(body)) == Ok::<Seq<u8>, BootstrapError>(body),
{
    let d = device_bytes(body);
    assert(d.take(8) =~= magic());
    assert(d.subrange(8, 12) =~= frame_header(body.len() as u32));
    frame_header_reads_back(body.len() as u32);
    assert(d.subrange(12, 12 + body.len() as int) =~= body);
}

} // verus!
