//! Public resource identifiers.
//!
//! Every public identity is a short resource prefix followed by a canonical
//! lowercase UUIDv7. The prefix lets a reader tell resources apart in logs and
//! responses; the UUID, held here as its big-endian 128-bit value, is what the
//! database stores. The prefix is attached and stripped at the API boundary.
//!
//! These are opaque identifiers, never bearer credentials. A caller knowing an
//! identifier grants nothing: authorization applies to every lookup.
use crate::text::same_text;
use vstd::prelude::*;
use vstd::string::*;

verus! {

/// Why a string could not be read as a typed identifier.
///
/// The variants distinguish a wrong resource type from a malformed value so a
/// caller receives an accurate `400`, and so a log line says which it was.
#[derive(Debug, PartialEq, Eq)]
pub enum IdParseError {
    /// The value carried a different resource prefix than the one expected.
    WrongPrefix {
        /// The prefix the caller's target type requires.
        expected: &'static str,
        /// What the value actually started with, truncated at the separator.
        found: String,
    },
    /// No `_` separator, so there is no prefix to check.
    MissingSeparator,
    /// The portion after the separator is not a canonical UUID.
    MalformedUuid(String),
    /// The UUID parsed but is not version 7.
    WrongUuidVersion(usize),
}

impl Clone for IdParseError {
    fn clone(&self) -> (r: Self)
        ensures
            r == *self,
    {
        match self {
            IdParseError::WrongPrefix { expected, found } => IdParseError::WrongPrefix { expected, found: found.clone() },
            IdParseError::MissingSeparator => IdParseError::MissingSeparator,
            IdParseError::MalformedUuid(value) => IdParseError::MalformedUuid(value.clone()),
            IdParseError::WrongUuidVersion(version) => IdParseError::WrongUuidVersion(*version),
        }
    }
}

/// The `i`-th hexadecimal digit of a 128-bit value, most significant first.
pub open spec fn nibble(value: u128, i: int) -> u128 {
    (value >> ((4 * (31 - i)) as u128)) & 0xf
}

/// The lowercase hexadecimal digit of a number below sixteen.
pub open spec fn hex_digit(n: int) -> char {
    if n < 10 {
        (n + 48) as char
    } else {
        (n + 87) as char
    }
}

/// Which digit stands at position `i` of the hyphenated form.
pub open spec fn digit_at(i: int) -> int {
    if i < 8 {
        i
    } else if i < 13 {
        i - 1
    } else if i < 18 {
        i - 2
    } else if i < 23 {
        i - 3
    } else {
        i - 4
    }
}

/// The canonical lowercase 8-4-4-4-12 form of a UUID.
pub open spec fn hyphenated(value: u128) -> Seq<char> {
    Seq::new(
        36,
        |i: int|
            if i == 8 || i == 13 || i == 18 || i == 23 {
                '-'
            } else {
                hex_digit(nibble(value, digit_at(i)) as int)
            },
    )
}

/// The version field of a UUID.
pub open spec fn version_of(value: u128) -> int {
    ((value >> 76u128) & 0xf) as int
}

/// The variant field of a UUID holds the RFC layout.
pub open spec fn rfc_variant(value: u128) -> bool {
    (value >> 62u128) & 3 == 2
}

/// A version 7 UUID of the RFC layout.
pub open spec fn is_v7(value: u128) -> bool {
    version_of(value) == 7 && rfc_variant(value)
}

/// What `uuid::Uuid::try_parse` reads from a text: the big-endian value.
pub uninterp spec fn parsed_uuid(text: Seq<char>) -> Option<u128>;

/// `uuid::Uuid::try_parse`. It accepts several spellings of a UUID; of the
/// canonical hyphenated spelling of a value it gives back that value.
#[verifier::external_body]
pub(crate) fn uuid_try_parse(text: &str) -> (r: Option<u128>)
    ensures
        r == parsed_uuid(text@),
        forall|v: u128| text@ == #[trigger] hyphenated(v) ==> r == Some(v),
{
    uuid::Uuid::try_parse(text).ok().map(|u| u.as_u128())
}

/// `uuid::Uuid::hyphenated`, rendered: the lowercase 8-4-4-4-12 form.
#[verifier::external_body]
fn uuid_hyphenated(value: u128) -> (r: String)
    ensures
        r@ == hyphenated(value),
{
    uuid::Uuid::from_u128(value).hyphenated().to_string()
}

/// `uuid::Uuid::get_version_num`: the four bits of the version field.
#[verifier::external_body]
fn uuid_version(value: u128) -> (r: usize)
    ensures
        r == version_of(value),
{
    uuid::Uuid::from_u128(value).get_version_num()
}

/// `uuid::Uuid::get_variant`, as whether it is the RFC variant: the top two
/// bits of the eighth byte are one and zero.
#[verifier::external_body]
fn uuid_has_rfc_variant(value: u128) -> (r: bool)
    ensures
        r == rfc_variant(value),
{
    uuid::Uuid::from_u128(value).get_variant() == uuid::Variant::RFC4122
}

/// `uuid::Uuid::now_v7`: a fresh value with the version and variant fields of a
/// version 7 UUID. The rest comes from the clock, a counter and randomness, and the
/// call panics where the platform has none to give.
#[verifier::external_body]
fn uuid_now_v7() -> (r: u128)
    ensures
        is_v7(r),
{
    uuid::Uuid::now_v7().as_u128()
}

/// The canonical text of a UUID, without a prefix.
pub fn uuid_text(value: u128) -> (r: String)
    ensures
        r@ == hyphenated(value),
{
    uuid_hyphenated(value)
}

/// Whether the value is a version 7 UUID of the RFC layout.
pub fn valid_uuid(value: u128) -> (r: bool)
    ensures
        r == is_v7(value),
{
    uuid_version(value) == 7 && uuid_has_rfc_variant(value)
}

/// The public text of an identity: prefix, separator, canonical UUID.
pub open spec fn id_text(prefix: Seq<char>, value: u128) -> Seq<char> {
    prefix.push('_') + hyphenated(value)
}

/// The first separator stands at `i`.
pub open spec fn separated_at(text: Seq<char>, i: int) -> bool {
    0 <= i < text.len() && text[i] == '_' && forall|j: int| 0 <= j < i ==> text[j] != '_'
}

/// What reading `text` as an identity with the given prefix gives.
pub open spec fn parses(text: Seq<char>, prefix: Seq<char>, r: Result<u128, IdParseError>) -> bool {
    match r {
        Ok(v) => text == id_text(prefix, v) && version_of(v) == 7,
        Err(IdParseError::MissingSeparator) => !text.contains('_'),
        Err(IdParseError::WrongPrefix { expected, found }) => {
            &&& expected@ == prefix
            &&& found@ != prefix
            &&& separated_at(text, found@.len() as int)
            &&& found@ == text.take(found@.len() as int)
        },
        Err(IdParseError::MalformedUuid(rest)) => {
            &&& text == prefix.push('_') + rest@
            &&& forall|v: u128| rest@ != #[trigger] hyphenated(v)
        },
        Err(IdParseError::WrongUuidVersion(n)) => exists|v: u128|
            #![trigger id_text(prefix, v)]
            text == id_text(prefix, v) && n == version_of(v) && n != 7,
    }
}

/// The position of the first separator.
fn find_separator(value: &str) -> (r: Option<usize>)
    ensures
        match r {
            Some(i) => separated_at(value@, i as int),
            None => !value@.contains('_'),
        },
{
    let n: usize = value.unicode_len();
    let mut i: usize = 0;
    for c in it: value.chars()
        invariant
            it.seq() == value@,
            it.index() == i,
            n == value@.len(),
            i <= n,
            forall|j: int| 0 <= j < i ==> value@[j] != '_',
    {
        if c == '_' {
            return Some(i);
        }
        i = i + 1;
    }
    None
}

/// Parse the shared `prefix_uuid` shape, checking the prefix and UUID version.
fn parse_prefixed(value: &str, expected: &'static str) -> (r: Result<u128, IdParseError>)
    requires
        !expected@.contains('_'),
    ensures
        parses(value@, expected@, r),
{
    let i: usize = match find_separator(value) {
        Some(i) => i,
        None => return Err(IdParseError::MissingSeparator),
    };
    let prefix: &str = value.substring_char(0, i);
    if !same_text(prefix, expected) {
        return Err(IdParseError::WrongPrefix { expected, found: prefix.to_owned() });
    }
    let n: usize = value.unicode_len();
    let rest: &str = value.substring_char(i + 1, n);
    assert(value@ =~= expected@.push('_') + rest@);
    // Alternate spellings (uppercase, braces, urn:) are refused by requiring
    // the input to be the canonical rendering of what it parsed to.
    let uuid: u128 = match uuid_try_parse(rest) {
        Some(uuid) => uuid,
        None => return Err(IdParseError::MalformedUuid(rest.to_owned())),
    };
    let canonical: String = uuid_hyphenated(uuid);
    if !same_text(canonical.as_str(), rest) {
        return Err(IdParseError::MalformedUuid(rest.to_owned()));
    }
    let version: usize = uuid_version(uuid);
    if version != 7 {
        assert(value@ == id_text(expected@, uuid));
        return Err(IdParseError::WrongUuidVersion(version));
    }
    Ok(uuid)
}

/// A prefixed, typed resource identifier.
///
/// Implemented by each identity type so that a `SandboxId` cannot be passed
/// where an `OperationId` belongs.
pub trait Id: Sized {
    /// The 128-bit value of the underlying UUID.
    spec fn value(&self) -> u128;

    /// The resource prefix, without the trailing underscore.
    spec fn prefix_text() -> Seq<char>;

    /// The resource prefix, without the trailing underscore.
    fn prefix() -> (r: &'static str)
        ensures
            r@ == Self::prefix_text(),
            !r@.contains('_'),
    ;

    /// The underlying UUID, as stored in PostgreSQL.
    fn uuid(&self) -> (r: u128)
        ensures
            r == self.value(),
    ;

    /// Wrap an existing UUID without validating its version.
    ///
    /// Use this for values read back from the database, which were validated
    /// when they were generated. Use `generate` for new identities and `parse`
    /// for anything arriving from a caller.
    fn from_uuid(uuid: u128) -> (r: Self)
        ensures
            r.value() == uuid,
    ;

    /// Mint a new identity.
    fn generate() -> (r: Self)
        ensures
            is_v7(r.value()),
    {
        Self::from_uuid(uuid_now_v7())
    }

    /// The public text: the prefix, an underscore and the canonical UUID.
    fn to_string(&self) -> (r: String)
        ensures
            r@ == id_text(Self::prefix_text(), self.value()),
    {
        let mut out: String = Self::prefix().to_owned();
        out.append("_");
        out.append(uuid_hyphenated(self.uuid()).as_str());
        proof {
            reveal_strlit("_");
            assert(out@ =~= id_text(Self::prefix_text(), self.value()));
        }
        out
    }

    /// Read an identity arriving from a caller.
    fn parse(value: &str) -> (r: Result<Self, IdParseError>)
        ensures
            parses(value@, Self::prefix_text(), match r {
                Ok(id) => Ok(id.value()),
                Err(e) => Err(e),
            }),
    {
        match parse_prefixed(value, Self::prefix()) {
            Ok(uuid) => Ok(Self::from_uuid(uuid)),
            Err(e) => Err(e),
        }
    }
}

/// A tenant. The ownership boundary for every other resource.
#[derive(Debug, Clone, Copy, PartialEq, Eq, Structural, PartialOrd, Ord, Hash)]
pub struct ProjectId {
    pub value: u128,
}

impl Id for ProjectId {
    open spec fn value(&self) -> u128 {
        self.value
    }

    open spec fn prefix_text() -> Seq<char> {
        "prj"@
    }

    fn prefix() -> (r: &'static str) {
        proof {
            reveal_strlit("prj");
        }
        "prj"
    }

    fn uuid(&self) -> (r: u128) {
        self.value
    }

    fn from_uuid(uuid: u128) -> (r: Self) {
        ProjectId { value: uuid }
    }
}

impl std::str::FromStr for ProjectId {
    type Err = IdParseError;

    fn from_str(value: &str) -> (r: Result<Self, IdParseError>) {
        Self::parse(value)
    }
}

/// A sandbox. Keeps one identity across pause and resume, and is never
/// reused after destroy.
#[derive(Debug, Clone, Copy, PartialEq, Eq, Structural, PartialOrd, Ord, Hash)]
pub struct SandboxId {
    pub value: u128,
}

impl Id for SandboxId {
    open spec fn value(&self) -> u128 {
        self.value
    }

    open spec fn prefix_text() -> Seq<char> {
        "sbx"@
    }

    fn prefix() -> (r: &'static str) {
        proof {
            reveal_strlit("sbx");
        }
        "sbx"
    }

    fn uuid(&self) -> (r: u128) {
        self.value
    }

    fn from_uuid(uuid: u128) -> (r: Self) {
        SandboxId { value: uuid }
    }
}

impl std::str::FromStr for SandboxId {
    type Err = IdParseError;

    fn from_str(value: &str) -> (r: Result<Self, IdParseError>) {
        Self::parse(value)
    }
}

/// One admitted mutating request.
#[derive(Debug, Clone, Copy, PartialEq, Eq, Structural, PartialOrd, Ord, Hash)]
pub struct OperationId {
    pub value: u128,
}

impl Id for OperationId {
    open spec fn value(&self) -> u128 {
        self.value
    }

    open spec fn prefix_text() -> Seq<char> {
        "op"@
    }

    fn prefix() -> (r: &'static str) {
        proof {
            reveal_strlit("op");
        }
        "op"
    }

    fn uuid(&self) -> (r: u128) {
        self.value
    }

    fn from_uuid(uuid: u128) -> (r: Self) {
        OperationId { value: uuid }
    }
}

impl std::str::FromStr for OperationId {
    type Err = IdParseError;

    fn from_str(value: &str) -> (r: Result<Self, IdParseError>) {
        Self::parse(value)
    }
}

/// One immutable, completed save of memory, disk, and VM state.
#[derive(Debug, Clone, Copy, PartialEq, Eq, Structural, PartialOrd, Ord, Hash)]
pub struct SnapshotId {
    pub value: u128,
}

impl Id for SnapshotId {
    open spec fn value(&self) -> u128 {
        self.value
    }

    open spec fn prefix_text() -> Seq<char> {
        "snp"@
    }

    fn prefix() -> (r: &'static str) {
        proof {
            reveal_strlit("snp");
        }
        "snp"
    }

    fn uuid(&self) -> (r: u128) {
        self.value
    }

    fn from_uuid(uuid: u128) -> (r: Self) {
        SnapshotId { value: uuid }
    }
}

impl std::str::FromStr for SnapshotId {
    type Err = IdParseError;

    fn from_str(value: &str) -> (r: Result<Self, IdParseError>) {
        Self::parse(value)
    }
}

/// One sandbox incarnation's resource reservation on a compute host.
#[derive(Debug, Clone, Copy, PartialEq, Eq, Structural, PartialOrd, Ord, Hash)]
pub struct AllocationId {
    pub value: u128,
}

impl Id for AllocationId {
    open spec fn value(&self) -> u128 {
        self.value
    }

    open spec fn prefix_text() -> Seq<char> {
        "alc"@
    }

    fn prefix() -> (r: &'static str) {
        proof {
            reveal_strlit("alc");
        }
        "alc"
    }

    fn uuid(&self) -> (r: u128) {
        self.value
    }

    fn from_uuid(uuid: u128) -> (r: Self) {
        AllocationId { value: uuid }
    }
}

impl std::str::FromStr for AllocationId {
    type Err = IdParseError;

    fn from_str(value: &str) -> (r: Result<Self, IdParseError>) {
        Self::parse(value)
    }
}

/// A registered compute machine. Internal; not exposed in ordinary
/// sandbox responses.
#[derive(Debug, Clone, Copy, PartialEq, Eq, Structural, PartialOrd, Ord, Hash)]
pub struct HostId {
    pub value: u128,
}

impl Id for HostId {
    open spec fn value(&self) -> u128 {
        self.value
    }

    open spec fn prefix_text() -> Seq<char> {
        "hst"@
    }

    fn prefix() -> (r: &'static str) {
        proof {
            reveal_strlit("hst");
        }
        "hst"
    }

    fn uuid(&self) -> (r: u128) {
        self.value
    }

    fn from_uuid(uuid: u128) -> (r: Self) {
        HostId { value: uuid }
    }
}

impl std::str::FromStr for HostId {
    type Err = IdParseError;

    fn from_str(value: &str) -> (r: Result<Self, IdParseError>) {
        Self::parse(value)
    }
}

proof fn lemma_hex_digit_injective(a: u128, b: u128)
    requires
        a < 16,
        b < 16,
        hex_digit(a as int) == hex_digit(b as int),
    ensures
        a == b,
{
}

proof fn lemma_nibbles_determine(v: u128, w: u128)
    requires
        forall|i: int| 0 <= i < 32 ==> #[trigger] nibble(v, i) == nibble(w, i),
    ensures
        v == w,
{
    assert(nibble(v, 0) == nibble(w, 0));
    assert(nibble(v, 1) == nibble(w, 1));
    assert(nibble(v, 2) == nibble(w, 2));
    assert(nibble(v, 3) == nibble(w, 3));
    assert(nibble(v, 4) == nibble(w, 4));
    assert(nibble(v, 5) == nibble(w, 5));
    assert(nibble(v, 6) == nibble(w, 6));
    assert(nibble(v, 7) == nibble(w, 7));
    assert(nibble(v, 8) == nibble(w, 8));
    assert(nibble(v, 9) == nibble(w, 9));
    assert(nibble(v, 10) == nibble(w, 10));
    assert(nibble(v, 11) == nibble(w, 11));
    assert(nibble(v, 12) == nibble(w, 12));
    assert(nibble(v, 13) == nibble(w, 13));
    assert(nibble(v, 14) == nibble(w, 14));
    assert(nibble(v, 15) == nibble(w, 15));
    assert(nibble(v, 16) == nibble(w, 16));
    assert(nibble(v, 17) == nibble(w, 17));
    assert(nibble(v, 18) == nibble(w, 18));
    assert(nibble(v, 19) == nibble(w, 19));
    assert(nibble(v, 20) == nibble(w, 20));
    assert(nibble(v, 21) == nibble(w, 21));
    assert(nibble(v, 22) == nibble(w, 22));
    assert(nibble(v, 23) == nibble(w, 23));
    assert(nibble(v, 24) == nibble(w, 24));
    assert(nibble(v, 25) == nibble(w, 25));
    assert(nibble(v, 26) == nibble(w, 26));
    assert(nibble(v, 27) == nibble(w, 27));
    assert(nibble(v, 28) == nibble(w, 28));
    assert(nibble(v, 29) == nibble(w, 29));
    assert(nibble(v, 30) == nibble(w, 30));
    assert(nibble(v, 31) == nibble(w, 31));
    assert(v == w) by (bit_vector)
        requires
            (v >> 124u128) & 0xf == (w >> 124u128) & 0xf,
            (v >> 120u128) & 0xf == (w >> 120u128) & 0xf,
            (v >> 116u128) & 0xf == (w >> 116u128) & 0xf,
            (v >> 112u128) & 0xf == (w >> 112u128) & 0xf,
            (v >> 108u128) & 0xf == (w >> 108u128) & 0xf,
            (v >> 104u128) & 0xf == (w >> 104u128) & 0xf,
            (v >> 100u128) & 0xf == (w >> 100u128) & 0xf,
            (v >> 96u128) & 0xf == (w >> 96u128) & 0xf,
            (v >> 92u128) & 0xf == (w >> 92u128) & 0xf,
            (v >> 88u128) & 0xf == (w >> 88u128) & 0xf,
            (v >> 84u128) & 0xf == (w >> 84u128) & 0xf,
            (v >> 80u128) & 0xf == (w >> 80u128) & 0xf,
            (v >> 76u128) & 0xf == (w >> 76u128) & 0xf,
            (v >> 72u128) & 0xf == (w >> 72u128) & 0xf,
            (v >> 68u128) & 0xf == (w >> 68u128) & 0xf,
            (v >> 64u128) & 0xf == (w >> 64u128) & 0xf,
            (v >> 60u128) & 0xf == (w >> 60u128) & 0xf,
            (v >> 56u128) & 0xf == (w >> 56u128) & 0xf,
            (v >> 52u128) & 0xf == (w >> 52u128) & 0xf,
            (v >> 48u128) & 0xf == (w >> 48u128) & 0xf,
            (v >> 44u128) & 0xf == (w >> 44u128) & 0xf,
            (v >> 40u128) & 0xf == (w >> 40u128) & 0xf,
            (v >> 36u128) & 0xf == (w >> 36u128) & 0xf,
            (v >> 32u128) & 0xf == (w >> 32u128) & 0xf,
            (v >> 28u128) & 0xf == (w >> 28u128) & 0xf,
            (v >> 24u128) & 0xf == (w >> 24u128) & 0xf,
            (v >> 20u128) & 0xf == (w >> 20u128) & 0xf,
            (v >> 16u128) & 0xf == (w >> 16u128) & 0xf,
            (v >> 12u128) & 0xf == (w >> 12u128) & 0xf,
            (v >> 8u128) & 0xf == (w >> 8u128) & 0xf,
            (v >> 4u128) & 0xf == (w >> 4u128) & 0xf,
            (v >> 0u128) & 0xf == (w >> 0u128) & 0xf,
    ;
}

/// The canonical form determines the UUID.
pub proof fn hyphenated_is_injective(v: u128, w: u128)
    requires
        hyphenated(v) == hyphenated(w),
    ensures
        v == w,
{
    assert forall|i: int| 0 <= i < 32 implies #[trigger] nibble(v, i) == nibble(w, i) by {
        let p = if i < 8 {
            i
        } else if i < 12 {
            i + 1
        } else if i < 16 {
            i + 2
        } else if i < 20 {
            i + 3
        } else {
            i + 4
        };
        assert(digit_at(p) == i);
        assert(0 <= p < 36 && p != 8 && p != 13 && p != 18 && p != 23);
        assert(hyphenated(v)[p] == hex_digit(nibble(v, i) as int));
        assert(hyphenated(w)[p] == hex_digit(nibble(w, i) as int));
        let a = v >> ((4 * (31 - i)) as u128);
        let b = w >> ((4 * (31 - i)) as u128);
        assert(a & 0xf < 16) by (bit_vector);
        assert(b & 0xf < 16) by (bit_vector);
        lemma_hex_digit_injective(nibble(v, i), nibble(w, i));
    }
    lemma_nibbles_determine(v, w);
}

/// Rendering and reading back gives the same identity: a text that an identity
/// renders to has one reading, that identity, and is refused only for not being
/// version 7.
pub proof fn rendered_identity_reads_back(prefix: Seq<char>, v: u128, r: Result<u128, IdParseError>)
    requires
        !prefix.contains('_'),
        parses(id_text(prefix, v), prefix, r),
    ensures
        version_of(v) == 7 ==> r == Ok::<u128, IdParseError>(v),
        version_of(v) != 7 ==> (r matches Err(IdParseError::WrongUuidVersion(n)) && n == version_of(v)),
{
    let text = id_text(prefix, v);
    assert(text[prefix.len() as int] == '_');
    assert(text.contains('_'));
    assert(forall|w: u128| #[trigger] id_text(prefix, w) == text ==> w == v) by {
        assert forall|w: u128| #[trigger] id_text(prefix, w) == text implies w == v by {
            assert(text.skip(prefix.len() as int + 1) =~= hyphenated(v));
            assert(id_text(prefix, w).skip(prefix.len() as int + 1) =~= hyphenated(w));
            hyphenated_is_injective(v, w);
        }
    }
    match r {
        Err(IdParseError::WrongPrefix { expected, found }) => {
            let i = found@.len() as int;
            assert forall|j: int| 0 <= j < prefix.len() implies text[j] != '_' by {
                assert(text[j] == prefix[j]);
                assert(prefix.contains(prefix[j]));
            }
            assert(i == prefix.len());
            assert(text.take(i) =~= prefix);
        },
        Err(IdParseError::MalformedUuid(rest)) => {
            assert((prefix.push('_') + rest@).skip(prefix.len() as int + 1) =~= rest@);
            assert(text.skip(prefix.len() as int + 1) =~= hyphenated(v));
        },
        _ => {},
    }
}

/// An identity of one resource type never reads as one of another: the text of
/// an identity under one prefix is refused, with the prefix it carries, under
/// every other.
pub proof fn prefixes_keep_types_apart(
    own: Seq<char>,
    other: Seq<char>,
    v: u128,
    r: Result<u128, IdParseError>,
)
    requires
        !own.contains('_'),
        !other.contains('_'),
        own != other,
        parses(id_text(own, v), other, r),
    ensures
        r matches Err(IdParseError::WrongPrefix { expected, found }) && expected@ == other && found@ == own,
{
    let text = id_text(own, v);
    assert(text[own.len() as int] == '_');
    assert(text.contains('_'));
    assert forall|j: int| 0 <= j < own.len() implies text[j] != '_' by {
        assert(text[j] == own[j]);
        assert(own.contains(own[j]));
    }
    assert forall|rest: Seq<char>| text != #[trigger] (other.push('_') + rest) by {
        if text == other.push('_') + rest {
            let t = other.push('_') + rest;
            assert(t[other.len() as int] == '_');
            assert forall|j: int| 0 <= j < other.len() implies t[j] != '_' by {
                assert(t[j] == other[j]);
                assert(other.contains(other[j]));
            }
            assert(own.len() == other.len());
            assert(text.take(own.len() as int) =~= own);
            assert(t.take(other.len() as int) =~= other);
        }
    }
    match r {
        Err(IdParseError::WrongPrefix { expected, found }) => {
            assert(found@.len() == own.len());
            assert(text.take(own.len() as int) =~= own);
        },
        Err(IdParseError::MalformedUuid(rest)) => {
            assert(text == other.push('_') + rest@);
        },
        Ok(w) => {
            assert(text == other.push('_') + hyphenated(w));
        },
        Err(IdParseError::WrongUuidVersion(n)) => {
            let w = choose|w: u128| #![trigger id_text(other, w)] text == id_text(other, w) && n == version_of(w) && n != 7;
            assert(text == other.push('_') + hyphenated(w));
        },
        _ => {},
    }
}

/// The text is the public text of a version 7 identity with the given prefix.
pub open spec fn is_id_text(prefix: Seq<char>, text: Seq<char>) -> bool {
    exists|v: u128| text == #[trigger] id_text(prefix, v) && version_of(v) == 7
}

/// Read an identity, without the reason why a text is none.
pub fn read_id<T: Id>(value: &str) -> (r: Option<T>)
    ensures
        match r {
            Some(id) => value@ == id_text(T::prefix_text(), id.value()) && version_of(id.value()) == 7,
            None => !is_id_text(T::prefix_text(), value@),
        },
        r is Some == is_id_text(T::prefix_text(), value@),
{
    let prefix: &'static str = T::prefix();
    match T::parse(value) {
        Ok(id) => Some(id),
        Err(e) => {
            proof {
                let outcome = Err::<u128, IdParseError>(e);
                assert forall|v: u128| #[trigger] id_text(prefix@, v) == value@ implies version_of(v) != 7 by {
                    rendered_identity_reads_back(prefix@, v, outcome);
                }
            }
            None
        },
    }
}

} // verus!
