//! Project API tokens.
//!
//! A token is an opaque bearer credential carrying two parts: a nonsecret key
//! identifier used to find the right row, and a 256-bit secret that is never
//! stored. PostgreSQL holds only the SHA-256 of the secret, so a database dump
//! does not yield working credentials.
//!
//! Splitting the identifier from the secret is what lets verification be a
//! single indexed lookup followed by one constant-time comparison, rather than
//! a scan that compares against every token in the installation.
//!
//! Both halves are hex. Base64url would be shorter, but its alphabet contains
//! `_`, which is also the separator — a token whose secret happened to encode
//! with an underscore would fail to parse, intermittently and only for some
//! tokens. One encoding that cannot collide with the delimiter is worth the
//! extra characters.
//!
//! Rendering happens once, at issuance. A token cannot be recovered afterwards,
//! and its log form redacts the secret, so it cannot reach a log line by accident.
use crate::digest::{
    constant_time_eq, hex_bytes, hex_decode, hex_encode, hex_text, hex_text_decodes, hex_value,
    random_bytes, sha256, sha256_of,
};
use crate::text::{
    byte_len, byte_length, debug_quote, debug_quoted, lemma_pieces_joined, lemma_single_piece,
    lemma_underscore_byte, pieces, same_text, split, texts,
};
use vstd::prelude::*;
use vstd::string::*;
use vstd::utf8::*;

verus! {

/// Bytes of key identifier. Nonsecret; only needs to avoid collisions.
pub const KEY_ID_BYTES: usize = 8;

/// Bytes of secret: 256 bits.
pub const SECRET_BYTES: usize = 32;

/// Why a string could not be read as a project token.
#[derive(Debug, Clone, Copy, PartialEq, Eq, Structural)]
pub enum TokenParseError {
    /// Not three `_`-separated parts.
    Malformed,
    /// The leading `hsb` was missing.
    WrongPrefix,
    /// The key identifier was not the expected hex length.
    BadKeyId,
    /// The secret was not the expected hex length.
    BadSecret,
}

/// The platform's entropy source is unavailable. This must fail the request
/// rather than fall back to a weaker source.
#[derive(Debug, Clone, Copy, PartialEq, Eq, Structural)]
pub struct EntropyUnavailable;

/// The nonsecret half of a token: which credential is being presented.
///
/// Safe to log, store in plaintext, and return in audit records.
#[derive(Debug, PartialEq, Eq, PartialOrd, Ord, Hash)]
pub struct TokenKeyId(String);

impl View for TokenKeyId {
    type V = Seq<char>;

    closed spec fn view(&self) -> Seq<char> {
        self.0@
    }
}

impl Clone for TokenKeyId {
    fn clone(&self) -> (r: Self)
        ensures
            r == *self,
    {
        TokenKeyId(self.0.clone())
    }
}

impl TokenKeyId {
    /// Wrap an identifier read back from storage.
    ///
    /// Not for caller input: a key identifier presented by a client arrives
    /// inside a token and is validated by `ProjectToken::parse`.
    #[must_use]
    pub fn from_stored(value: String) -> (r: Self)
        ensures
            r@ == value@,
    {
        TokenKeyId(value)
    }

    /// The identifier as stored and looked up.
    #[must_use]
    pub fn as_str(&self) -> (r: &str)
        ensures
            r@ == self@,
    {
        self.0.as_str()
    }
}

/// The SHA-256 of a token secret, as stored in PostgreSQL.
#[derive(Clone, Copy, PartialEq, Eq)]
pub struct TokenHash {
    pub bytes: [u8; 32],
}

impl TokenHash {
    /// Read a hash back from the database.
    #[must_use]
    pub fn from_bytes(bytes: [u8; 32]) -> (r: Self)
        ensures
            r.bytes == bytes,
    {
        TokenHash { bytes }
    }

    /// The raw hash, for a `bytea` column.
    #[must_use]
    pub fn as_bytes(&self) -> (r: &[u8; 32])
        ensures
            *r == self.bytes,
    {
        &self.bytes
    }

    /// Compare in constant time.
    ///
    /// A byte-by-byte comparison leaks how much of a guess was correct, which
    /// over enough attempts recovers the hash. `==` is the wrong operator here
    /// and this method exists so it is never reached for.
    #[must_use]
    pub fn verify(&self, other: &Self) -> (r: bool)
        ensures
            r == (self.bytes@ == other.bytes@),
    {
        constant_time_eq(&self.bytes, &other.bytes)
    }

    /// The form for a log line. Hashes are not secrets, but printing one invites
    /// comparing them by eye, which is how constant-time comparison gets quietly
    /// bypassed.
    pub fn debug_text(&self) -> (r: String)
        ensures
            r@ == "TokenHash(..)"@,
    {
        "TokenHash(..)".to_owned()
    }
}

/// A key identifier of the issued shape: sixteen hexadecimal digits.
pub open spec fn key_id_shape(text: Seq<char>) -> bool {
    byte_len(text) == 16 && hex_bytes(encode_utf8(text)) is Some
}

/// What reading a token gives: its key identifier and its secret.
pub open spec fn token_reading(text: Seq<char>) -> Result<(Seq<char>, Seq<u8>), TokenParseError> {
    let parts = pieces(text, '_');
    if parts.len() != 3 {
        Err(TokenParseError::Malformed)
    } else if parts[0] != "hsb"@ {
        Err(TokenParseError::WrongPrefix)
    } else if !key_id_shape(parts[1]) {
        Err(TokenParseError::BadKeyId)
    } else if byte_len(parts[2]) != 64 || hex_bytes(encode_utf8(parts[2])) is None {
        Err(TokenParseError::BadSecret)
    } else {
        Ok((parts[1], hex_bytes(encode_utf8(parts[2]))->0))
    }
}

/// A token written with a key identifier and the digits of a secret.
pub open spec fn token_of(key_id: Seq<char>, digits: Seq<char>) -> Seq<char> {
    "hsb_"@ + key_id + "_"@ + digits
}

/// The string a caller keeps.
pub open spec fn token_text(key_id: Seq<char>, secret: Seq<u8>) -> Seq<char> {
    token_of(key_id, hex_text(secret))
}

/// The digits of a secret: sixty-four of them, of either case.
pub open spec fn secret_digits(digits: Seq<char>) -> bool {
    byte_len(digits) == 64 && hex_bytes(encode_utf8(digits)) is Some
}

/// The same byte but for the case of a letter.
pub open spec fn same_letter(a: u8, b: u8) -> bool {
    ||| a == b
    ||| 65 <= a <= 90 && b == a + 32
    ||| 65 <= b <= 90 && a == b + 32
}

/// A freshly generated or freshly parsed token, secret included.
///
/// Hold one only as long as it takes to verify or to render it once. The only
/// way to produce the string a caller sees is `render_once`, which consumes it.
pub struct ProjectToken {
    key_id: TokenKeyId,
    secret: [u8; 32],
}

impl Clone for ProjectToken {
    fn clone(&self) -> (r: Self)
        ensures
            r.key() == self.key(),
            r.secret_bytes() == self.secret_bytes(),
    {
        proof {
            use_type_invariant(self);
        }
        ProjectToken { key_id: self.key_id.clone(), secret: self.secret }
    }
}

fn to_digest(bytes: &Vec<u8>) -> (r: [u8; 32])
    requires
        bytes@.len() == 32,
    ensures
        r@ == bytes@,
{
    let mut out: [u8; 32] = [0u8; 32];
    let mut i: usize = 0;
    while i < 32
        invariant
            i <= 32,
            bytes@.len() == 32,
            forall|j: int| 0 <= j < i ==> out@[j] == bytes@[j],
        decreases 32 - i,
    {
        out[i] = bytes[i];
        i = i + 1;
    }
    assert(out@ =~= bytes@);
    out
}

/// A text of the issued shape holds no separator.
proof fn lemma_hex_has_no_underscore(text: Seq<char>)
    requires
        hex_bytes(encode_utf8(text)) is Some,
    ensures
        !text.contains('_'),
{
    if text.contains('_') {
        lemma_underscore_byte(text);
        let bytes = encode_utf8(text);
        let i = choose|i: int| 0 <= i < bytes.len() && bytes[i] == 0x5fu8;
        assert(hex_value(bytes[i]) is Some);
    }
}

/// A token written with a key identifier of the issued shape and the digits of a
/// secret reads as that identifier and the bytes of those digits: the separator
/// cannot occur inside either half.
pub proof fn written_token_is_read(key_id: Seq<char>, digits: Seq<char>)
    requires
        key_id_shape(key_id),
        secret_digits(digits),
    ensures
        token_reading(token_of(key_id, digits)) == Ok::<(Seq<char>, Seq<u8>), TokenParseError>(
            (key_id, hex_bytes(encode_utf8(digits))->0),
        ),
{
    reveal_strlit("hsb_");
    reveal_strlit("hsb");
    reveal_strlit("_");
    lemma_hex_has_no_underscore(key_id);
    lemma_hex_has_no_underscore(digits);
    assert(!"hsb"@.contains('_'));
    lemma_single_piece("hsb"@, '_');
    lemma_single_piece(key_id, '_');
    lemma_single_piece(digits, '_');
    let tail = key_id.push('_') + digits;
    assert(token_of(key_id, digits) =~= "hsb"@.push('_') + tail);
    lemma_pieces_joined("hsb"@, '_', tail);
    lemma_pieces_joined(key_id, '_', digits);
    assert(pieces(token_of(key_id, digits), '_') =~= seq!["hsb"@, key_id, digits]);
}

/// A rendered token of the issued shape reads back as it was.
pub proof fn rendered_token_reads_back(key_id: Seq<char>, secret: Seq<u8>)
    requires
        key_id_shape(key_id),
        secret.len() == SECRET_BYTES,
    ensures
        token_reading(token_text(key_id, secret)) == Ok::<(Seq<char>, Seq<u8>), TokenParseError>((key_id, secret)),
{
    hex_text_decodes(secret);
    written_token_is_read(key_id, hex_text(secret));
}

/// A token with another secret names the same credential and holds another secret,
/// so what its hash is taken of differs: two tokens read as the same secret
/// exactly where their digits have the same values, one by one.
pub proof fn secrets_are_told_apart(key_id: Seq<char>, a: Seq<char>, b: Seq<char>)
    requires
        key_id_shape(key_id),
        secret_digits(a),
        secret_digits(b),
    ensures
        token_reading(token_of(key_id, a)) matches Ok(x) && token_reading(token_of(key_id, b)) matches Ok(y) && {
            &&& x.0 == key_id
            &&& y.0 == key_id
            &&& x.1 == y.1 <==> forall|i: int|
                0 <= i < 64 ==> hex_value(#[trigger] encode_utf8(a)[i]) == hex_value(encode_utf8(b)[i])
        },
{
    written_token_is_read(key_id, a);
    written_token_is_read(key_id, b);
    let s = encode_utf8(a);
    let t = encode_utf8(b);
    let x = hex_bytes(s)->0;
    let y = hex_bytes(t)->0;
    if x == y {
        assert forall|i: int| 0 <= i < 64 implies hex_value(#[trigger] s[i]) == hex_value(t[i]) by {
            let k = i / 2;
            assert(hex_value(s[2 * k]) is Some && hex_value(t[2 * k]) is Some);
            assert(hex_value(s[2 * k + 1]) is Some && hex_value(t[2 * k + 1]) is Some);
            assert(x[k] == (hex_value(s[2 * k])->0 * 16 + hex_value(s[2 * k + 1])->0) as u8);
            assert(y[k] == (hex_value(t[2 * k])->0 * 16 + hex_value(t[2 * k + 1])->0) as u8);
            assert(i == 2 * k || i == 2 * k + 1);
        }
    }
    if forall|i: int| 0 <= i < 64 ==> hex_value(#[trigger] s[i]) == hex_value(t[i]) {
        assert forall|k: int| 0 <= k < 32 implies x[k] == y[k] by {
            assert(hex_value(s[2 * k]) == hex_value(t[2 * k]));
            assert(hex_value(s[2 * k + 1]) == hex_value(t[2 * k + 1]));
        }
        assert(x =~= y);
    }
}

/// The case of a secret's digits does not matter: the same digits in another case
/// are read as the same token.
pub proof fn case_of_secret_is_ignored(key_id: Seq<char>, a: Seq<char>, b: Seq<char>)
    requires
        key_id_shape(key_id),
        secret_digits(a),
        byte_len(b) == 64,
        forall|i: int| 0 <= i < 64 ==> same_letter(#[trigger] encode_utf8(a)[i], encode_utf8(b)[i]),
    ensures
        token_reading(token_of(key_id, a)) is Ok,
        token_reading(token_of(key_id, b)) == token_reading(token_of(key_id, a)),
{
    let s = encode_utf8(a);
    let t = encode_utf8(b);
    assert forall|i: int| 0 <= i < 64 implies hex_value(#[trigger] t[i]) is Some && hex_value(s[i]) == hex_value(t[i]) by {
        assert(hex_value(s[i]) is Some);
        assert(same_letter(s[i], t[i]));
    }
    assert(secret_digits(b));
    assert(forall|i: int| 0 <= i < 64 ==> hex_value(#[trigger] s[i]) == hex_value(t[i])) by {
        assert forall|i: int| 0 <= i < 64 implies hex_value(#[trigger] s[i]) == hex_value(t[i]) by {
            assert(hex_value(t[i]) is Some);
        }
    }
    secrets_are_told_apart(key_id, a, b);
}

impl ProjectToken {
    /// The key identifier's text.
    pub closed spec fn key(&self) -> Seq<char> {
        self.key_id@
    }

    /// The secret.
    pub closed spec fn secret_bytes(&self) -> Seq<u8> {
        self.secret@
    }

    #[verifier::type_invariant]
    closed spec fn well_formed(self) -> bool {
        key_id_shape(self.key_id@)
    }

    /// Mint a token from the operating system's randomness.
    pub fn generate() -> (r: Result<Self, EntropyUnavailable>)
        ensures
            r matches Ok(token) ==> exists|b: Seq<u8>| b.len() == KEY_ID_BYTES && token.key() == #[trigger] hex_text(b),
    {
        Self::from_entropy(random_bytes::<8>(), random_bytes::<32>())
    }

    /// The token that these bytes make. Without either half there is none: a token
    /// is never made from less.
    pub fn from_entropy(key_id: Option<[u8; 8]>, secret: Option<[u8; 32]>) -> (r: Result<Self, EntropyUnavailable>)
        ensures
            match (key_id, secret) {
                (Some(k), Some(s)) => r matches Ok(token) && token.key() == hex_text(k@) && token.secret_bytes() == s@,
                _ => r == Err::<Self, EntropyUnavailable>(EntropyUnavailable),
            },
    {
        match (key_id, secret) {
            (Some(key_id), Some(secret)) => {
                let value: String = hex_encode(key_id.as_slice());
                proof {
                    hex_text_decodes(key_id@);
                }
                Ok(ProjectToken { key_id: TokenKeyId(value), secret })
            },
            _ => Err(EntropyUnavailable),
        }
    }

    /// Read a token presented by a caller.
    ///
    /// A parse failure is a `401`, and the response says no more than that.
    pub fn parse(value: &str) -> (r: Result<Self, TokenParseError>)
        ensures
            match r {
                Ok(token) => token_reading(value@) == Ok::<(Seq<char>, Seq<u8>), TokenParseError>(
                    (token.key(), token.secret_bytes()),
                ),
                Err(e) => token_reading(value@) == Err::<(Seq<char>, Seq<u8>), TokenParseError>(e),
            },
    {
        let parts: Vec<String> = split(value, '_');
        assert(texts(parts@).len() == parts@.len());
        if parts.len() != 3 {
            return Err(TokenParseError::Malformed);
        }
        proof {
            assert(texts(parts@)[0] == parts@[0]@);
            assert(texts(parts@)[1] == parts@[1]@);
            assert(texts(parts@)[2] == parts@[2]@);
        }
        if !same_text(parts[0].as_str(), "hsb") {
            return Err(TokenParseError::WrongPrefix);
        }
        let key_id: &str = parts[1].as_str();
        if byte_length(key_id) != KEY_ID_BYTES * 2 || hex_decode(key_id).is_none() {
            return Err(TokenParseError::BadKeyId);
        }
        let secret: &str = parts[2].as_str();
        if byte_length(secret) != SECRET_BYTES * 2 {
            return Err(TokenParseError::BadSecret);
        }
        match hex_decode(secret) {
            None => Err(TokenParseError::BadSecret),
            Some(bytes) => Ok(ProjectToken { key_id: TokenKeyId(key_id.to_owned()), secret: to_digest(&bytes) }),
        }
    }

    /// Which credential this is. Safe to log.
    #[must_use]
    pub fn key_id(&self) -> (r: &TokenKeyId)
        ensures
            r@ == self.key(),
    {
        &self.key_id
    }

    /// The hash to store, or to compare against a stored one.
    #[must_use]
    pub fn hash(&self) -> (r: TokenHash)
        ensures
            r.bytes == sha256_of(self.secret_bytes()),
    {
        TokenHash { bytes: sha256(self.secret.as_slice()) }
    }

    /// Render the string a caller keeps, consuming the token.
    ///
    /// Taking `self` by value is the point: the value cannot be rendered
    /// twice, which matches the contract that a token is shown once at
    /// issuance and never recoverable afterwards.
    #[must_use]
    pub fn render_once(self) -> (r: String)
        ensures
            r@ == token_text(self.key(), self.secret_bytes()),
            token_reading(r@) == Ok::<(Seq<char>, Seq<u8>), TokenParseError>((self.key(), self.secret_bytes())),
    {
        proof {
            use_type_invariant(&self);
            rendered_token_reads_back(self.key(), self.secret_bytes());
        }
        let mut out: String = "hsb_".to_owned();
        out.append(self.key_id.as_str());
        out.append("_");
        out.append(hex_encode(self.secret.as_slice()).as_str());
        out
    }

    /// The form for a log line. The key id is safe to print and is what makes a
    /// log line useful; the secret must never appear.
    pub fn debug_text(&self) -> (r: String)
        ensures
            r@ == "ProjectToken { key_id: TokenKeyId("@ + debug_quoted(self.key())
                + "), secret: \"<redacted>\" }"@,
    {
        let mut out: String = "ProjectToken { key_id: TokenKeyId(".to_owned();
        out.append(debug_quote(self.key_id.as_str()).as_str());
        out.append("), secret: \"<redacted>\" }");
        out
    }
}

} // verus!
