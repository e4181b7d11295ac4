//! The wire format of a wrapped key.
//!
//! All integers are little-endian.
//!
//! ```text
//! offset  size  field
//! 0       1     version (1)
//! 1       1     provider_type (1 TPM2, 2 PKCS11, 3 EXTERNAL_SECRET, 4 SOFTWARE, 5 EPHEMERAL)
//! 2       2     key_id_len
//! 4       N     key_id
//! 4+N     65    ephemeral_public_key (uncompressed P-256 point)
//! 69+N    12    nonce
//! 81+N    4     ciphertext_len
//! 85+N    M     ciphertext (with its 16-byte tag)
//! ```
//!
//! The service name is not part of it: the caller supplies it each time.
use crate::bytes::{append, array_from};
use crate::error::{outcome, Error, ErrorView};
use crate::provider::{provider_tags_round_trip, ProviderType};
use vstd::prelude::*;
use vstd::slice::{slice_subrange, slice_to_vec};

verus! {

/// The only version of the format.
pub const VERSION: u8 = 1;

/// Length of an uncompressed P-256 point.
pub const UNCOMPRESSED_POINT_LEN: usize = 65;

/// Length of an AES-GCM nonce.
pub const NONCE_LEN: usize = 12;

/// A wrapped key, field by field.
#[derive(Debug)]
pub struct Payload {
    /// The provider that holds the key encryption key.
    pub provider_type: ProviderType,
    /// The provider's own name for that key; not secret.
    pub key_id: Vec<u8>,
    /// The public half of the key pair made for this one wrapping.
    pub ephemeral_public_key: [u8; UNCOMPRESSED_POINT_LEN],
    /// The nonce of this one encryption.
    pub nonce: [u8; NONCE_LEN],
    /// The ciphertext, with its tag at the end.
    pub ciphertext: Vec<u8>,
}

/// A [`Payload`] with its fields as sequences.
#[verifier::ext_equal]
pub struct PayloadView {
    pub provider_type: ProviderType,
    pub key_id: Seq<u8>,
    pub ephemeral_public_key: Seq<u8>,
    pub nonce: Seq<u8>,
    pub ciphertext: Seq<u8>,
}

impl View for Payload {
    type V = PayloadView;

    open spec fn view(&self) -> PayloadView {
        PayloadView {
            provider_type: self.provider_type,
            key_id: self.key_id@,
            ephemeral_public_key: self.ephemeral_public_key@,
            nonce: self.nonce@,
            ciphertext: self.ciphertext@,
        }
    }
}

/// The low 16 bits of `n`, least significant byte first.
pub open spec fn le16(n: nat) -> Seq<u8> {
    seq![(n % 256) as u8, (n / 256 % 256) as u8]
}

/// The low 32 bits of `n`, least significant byte first.
pub open spec fn le32(n: nat) -> Seq<u8> {
    seq![
        (n % 256) as u8,
        (n / 256 % 256) as u8,
        (n / 65536 % 256) as u8,
        (n / 16777216 % 256) as u8,
    ]
}

/// The number in the two bytes of `buf` at `at`, least significant first.
pub open spec fn le16_at(buf: Seq<u8>, at: int) -> nat {
    (buf[at] + 256 * buf[at + 1]) as nat
}

/// The number in the four bytes of `buf` at `at`, least significant first.
pub open spec fn le32_at(buf: Seq<u8>, at: int) -> nat {
    (buf[at] + 256 * buf[at + 1] + 65536 * buf[at + 2] + 16777216 * buf[at + 3]) as nat
}

impl PayloadView {
    /// The fields with a fixed length have it.
    pub open spec fn well_formed(self) -> bool {
        &&& self.ephemeral_public_key.len() == UNCOMPRESSED_POINT_LEN
        &&& self.nonce.len() == NONCE_LEN
    }

    /// The lengths of the two free fields fit the fields that announce them.
    pub open spec fn fits(self) -> bool {
        &&& self.key_id.len() < 0x1_0000
        &&& self.ciphertext.len() < 0x1_0000_0000
    }

    /// The payload on the wire.
    pub open spec fn serialize(self) -> Seq<u8> {
        seq![VERSION, self.provider_type.tag()] + le16(self.key_id.len()) + self.key_id
            + self.ephemeral_public_key + self.nonce + le32(self.ciphertext.len()) + self.ciphertext
    }

    /// The payload that `buf` holds, or why it holds none.
    pub open spec fn parse(buf: Seq<u8>) -> Result<PayloadView, ErrorView> {
        let n = le16_at(buf, 2) as int;
        let m = le32_at(buf, 81 + n) as int;
        if buf.len() < 1 {
            Err(ErrorView::Crypto("wrapped payload is truncated"@))
        } else if buf[0] != VERSION {
            Err(ErrorView::Crypto("unsupported wrapped payload version"@))
        } else if buf.len() < 2 {
            Err(ErrorView::Crypto("wrapped payload is truncated"@))
        } else if ProviderType::of_tag(buf[1]) is None {
            Err(ErrorView::Crypto("unknown provider type in wrapped payload"@))
        } else if buf.len() < 4 || buf.len() < 85 + n {
            Err(ErrorView::Crypto("wrapped payload is truncated"@))
        } else if 85 + n + m > usize::MAX {
            Err(ErrorView::Crypto("wrapped payload field length overflow"@))
        } else if buf.len() < 85 + n + m {
            Err(ErrorView::Crypto("wrapped payload is truncated"@))
        } else if buf.len() > 85 + n + m {
            Err(ErrorView::Crypto("trailing bytes after wrapped payload"@))
        } else {
            Ok(
                PayloadView {
                    provider_type: ProviderType::of_tag(buf[1])->0,
                    key_id: buf.subrange(4, 4 + n),
                    ephemeral_public_key: buf.subrange(4 + n, 69 + n),
                    nonce: buf.subrange(69 + n, 81 + n),
                    ciphertext: buf.subrange(85 + n, 85 + n + m),
                },
            )
        }
    }
}

impl Payload {
    /// Lays the payload out on the wire. A length that its field cannot hold is cut to the
    /// field's width.
    pub fn to_bytes(&self) -> (out: Vec<u8>)
        ensures
            out@ == self@.serialize(),
    {
        let mut out: Vec<u8> = Vec::new();
        out.push(VERSION);
        out.push(self.provider_type.to_u8());
        let n: usize = self.key_id.len();
        out.push((n % 256) as u8);
        out.push((n / 256 % 256) as u8);
        append(&mut out, self.key_id.as_slice());
        append(&mut out, &self.ephemeral_public_key);
        append(&mut out, &self.nonce);
        let m: usize = self.ciphertext.len();
        out.push((m % 256) as u8);
        out.push((m / 256 % 256) as u8);
        out.push((m / 65536 % 256) as u8);
        out.push((m / 16777216 % 256) as u8);
        append(&mut out, self.ciphertext.as_slice());
        assert(out@ =~= self@.serialize());
        out
    }

    /// Reads a payload off the wire. Whatever is not exactly one payload is refused.
    pub fn from_bytes(buf: &[u8]) -> (r: Result<Self, Error>)
        ensures
            outcome(r) == PayloadView::parse(buf@),
    {
        let mut cursor = Cursor { buf, pos: 0 };

        let version = cursor.take(1)?[0];
        if version != VERSION {
            return Err(Error::Crypto("unsupported wrapped payload version"));
        }
        let provider_byte = cursor.take(1)?[0];
        let provider_type = match ProviderType::from_u8(provider_byte) {
            Some(provider_type) => provider_type,
            None => return Err(Error::Crypto("unknown provider type in wrapped payload")),
        };

        let prefix = cursor.take(2)?;
        let key_id_len: usize = prefix[0] as usize + 256 * (prefix[1] as usize);
        let key_id = slice_to_vec(cursor.take(key_id_len)?);
        let ephemeral_public_key: [u8; UNCOMPRESSED_POINT_LEN] =
            array_from(cursor.take(UNCOMPRESSED_POINT_LEN)?);
        let nonce: [u8; NONCE_LEN] = array_from(cursor.take(NONCE_LEN)?);

        let prefix = cursor.take(4)?;
        let ciphertext_len: usize = (prefix[0] as u32 + 256 * (prefix[1] as u32) + 65536 * (
        prefix[2] as u32) + 16777216 * (prefix[3] as u32)) as usize;
        let ciphertext = slice_to_vec(cursor.take(ciphertext_len)?);

        if cursor.pos != cursor.buf.len() {
            return Err(Error::Crypto("trailing bytes after wrapped payload"));
        }
        Ok(Payload { provider_type, key_id, ephemeral_public_key, nonce, ciphertext })
    }
}

/// A reader that moves forward over a run of bytes.
struct Cursor<'a> {
    buf: &'a [u8],
    pos: usize,
}

impl<'a> Cursor<'a> {
    /// Reads the next `n` bytes.
    fn take(&mut self, n: usize) -> (r: Result<&'a [u8], Error>)
        requires
            old(self).pos <= old(self).buf@.len(),
        ensures
            final(self).buf == old(self).buf,
            match r {
                Ok(bytes) => {
                    &&& old(self).pos + n <= old(self).buf@.len()
                    &&& final(self).pos == old(self).pos + n
                    &&& bytes@ == old(self).buf@.subrange(old(self).pos as int, old(self).pos + n)
                },
                Err(error) => {
                    &&& final(self).pos == old(self).pos
                    &&& if old(self).pos + n > usize::MAX {
                        error@ == ErrorView::Crypto("wrapped payload field length overflow"@)
                    } else {
                        &&& error@ == ErrorView::Crypto("wrapped payload is truncated"@)
                        &&& old(self).pos + n > old(self).buf@.len()
                    }
                },
            },
    {
        let end: usize = match self.pos.checked_add(n) {
            Some(end) => end,
            None => return Err(Error::Crypto("wrapped payload field length overflow")),
        };
        if end > self.buf.len() {
            return Err(Error::Crypto("wrapped payload is truncated"));
        }
        let bytes = slice_subrange(self.buf, self.pos, end);
        self.pos = end;
        Ok(bytes)
    }
}

/// A payload survives the wire: what is read back of a written payload is that payload, as long
/// as its lengths fit their fields and the whole fits in memory.
pub proof fn payload_round_trips(payload: PayloadView)
    requires
        payload.well_formed(),
        payload.fits(),
        payload.serialize().len() <= usize::MAX,
    ensures
        PayloadView::parse(payload.serialize()) == Ok::<PayloadView, ErrorView>(payload),
{
    let buf = payload.serialize();
    let n = payload.key_id.len() as int;
    let m = payload.ciphertext.len() as int;
    assert(buf[2] == (n % 256) as u8);
    assert(buf[3] == (n / 256 % 256) as u8);
    assert(le16_at(buf, 2) == n);
    assert(buf[81 + n] == (m % 256) as u8);
    assert(buf[82 + n] == (m / 256 % 256) as u8);
    assert(buf[83 + n] == (m / 65536 % 256) as u8);
    assert(buf[84 + n] == (m / 16777216 % 256) as u8);
    assert(le32_at(buf, 81 + n) == m);
    provider_tags_round_trip(payload.provider_type, 0);
    assert(buf.subrange(4, 4 + n) =~= payload.key_id);
    assert(buf.subrange(4 + n, 69 + n) =~= payload.ephemeral_public_key);
    assert(buf.subrange(69 + n, 81 + n) =~= payload.nonce);
    assert(buf.subrange(85 + n, 85 + n + m) =~= payload.ciphertext);
}

/// The wire format has no slack: bytes that are read as a payload are exactly what that payload
/// is written as, so no two runs of bytes are read as the same payload.
pub proof fn payload_bytes_are_canonical(buf: Seq<u8>)
    requires
        PayloadView::parse(buf) is Ok,
    ensures
        PayloadView::parse(buf)->Ok_0.serialize() == buf,
        PayloadView::parse(buf)->Ok_0.well_formed(),
        PayloadView::parse(buf)->Ok_0.fits(),
{
    let payload = PayloadView::parse(buf)->Ok_0;
    provider_tags_round_trip(payload.provider_type, buf[1]);
    let n = payload.key_id.len() as int;
    let m = payload.ciphertext.len() as int;
    le16_round_trips(buf, 2);
    le32_round_trips(buf, 81 + n);
    let head = seq![VERSION, payload.provider_type.tag()];
    assert(head =~= buf.subrange(0, 2));
    assert(head + le16(payload.key_id.len()) =~= buf.subrange(0, 4));
    assert(buf.subrange(0, 4) + payload.key_id =~= buf.subrange(0, 4 + n));
    assert(buf.subrange(0, 4 + n) + payload.ephemeral_public_key =~= buf.subrange(0, 69 + n));
    assert(buf.subrange(0, 69 + n) + payload.nonce =~= buf.subrange(0, 81 + n));
    assert(buf.subrange(0, 81 + n) + le32(payload.ciphertext.len()) =~= buf.subrange(0, 85 + n));
    assert(buf.subrange(0, 85 + n) + payload.ciphertext =~= buf);
}

/// Two bytes read as a number are written as the same two bytes.
proof fn le16_round_trips(buf: Seq<u8>, at: int)
    requires
        0 <= at,
        at + 2 <= buf.len(),
    ensures
        le16(le16_at(buf, at)) == buf.subrange(at, at + 2),
        le16_at(buf, at) < 0x1_0000,
{
    assert(le16(le16_at(buf, at)) =~= buf.subrange(at, at + 2));
}

/// Four bytes read as a number are written as the same four bytes.
proof fn le32_round_trips(buf: Seq<u8>, at: int)
    requires
        0 <= at,
        at + 4 <= buf.len(),
    ensures
        le32(le32_at(buf, at)) == buf.subrange(at, at + 4),
        le32_at(buf, at) < 0x1_0000_0000,
{
    let (a, b) = (buf[at] as int, buf[at + 1] as int);
    let (c, d) = (buf[at + 2] as int, buf[at + 3] as int);
    let x = le32_at(buf, at) as int;
    assert(x == a + 256 * (b + 256 * c + 65536 * d));
    assert(x % 256 == a && x / 256 == b + 256 * (c + 256 * d));
    assert(x / 256 % 256 == b);
    assert(x == (a + 256 * b) + 65536 * (c + 256 * d));
    assert(x / 65536 == c + 256 * d);
    assert(x / 65536 % 256 == c);
    assert(x == (a + 256 * b + 65536 * c) + 16777216 * d);
    assert(x / 16777216 == d);
    assert(d % 256 == d);
    assert(le32(le32_at(buf, at)) =~= buf.subrange(at, at + 4));
}

} // verus!
