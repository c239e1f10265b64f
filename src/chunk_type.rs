use vstd::prelude::*;
use vstd::std_specs::cmp::PartialEqSpec;
use vstd::utf8::{
    decode_first_scalar, decode_utf8, is_ascii_chars, leading_bits_width_1, pop_first_scalar,
    valid_utf8,
};

verus! {

/// Why a chunk type could not be built.
#[derive(Debug, Clone, Copy, PartialEq, Eq, Structural)]
pub enum ChunkTypeError {
    /// The third byte is the reserved value `b'1'`.
    InvalidReservedByte,
    /// The text has fewer than four characters, or one of its first four
    /// characters is not a single ASCII byte.
    MalformedText,
}

/// The byte value that the third position may not hold.
pub const RESERVED_THIRD_BYTE: u8 = 49;

/// A four-byte chunk type identifier.
#[derive(Debug, Clone, Copy)]
pub struct ChunkType {
    chunks: [u8; 4],
}

impl View for ChunkType {
    type V = Seq<u8>;

    closed spec fn view(&self) -> Seq<u8> {
        self.chunks@
    }
}

/// The identifier that a byte sequence stands for, or why it is refused.
pub open spec fn parse_bytes(b: Seq<u8>) -> Result<Seq<u8>, ChunkTypeError> {
    if b[2] == RESERVED_THIRD_BYTE {
        Err(ChunkTypeError::InvalidReservedByte)
    } else {
        Ok(b)
    }
}

/// Text that can name a chunk type: at least four characters, the first
/// four of them ASCII.
pub open spec fn is_chunk_text(t: Seq<char>) -> bool {
    t.len() >= 4 && is_ascii_chars(t.take(4))
}

/// The bytes of the first four characters of a text.
pub open spec fn text_bytes(t: Seq<char>) -> Seq<u8> {
    Seq::new(4, |i: int| t[i] as u8)
}

/// The identifier that a text stands for, or why it is refused.
pub open spec fn parse_text(t: Seq<char>) -> Result<Seq<u8>, ChunkTypeError> {
    if is_chunk_text(t) {
        parse_bytes(text_bytes(t))
    } else {
        Err(ChunkTypeError::MalformedText)
    }
}

/// Bit 5 of an ASCII letter tells its case: clear for upper case, set for
/// lower case. Each byte of a chunk type carries one property in this bit.
pub const CASE_BIT: u8 = 0x20;

/// The case bit of `b` is clear.
pub open spec fn is_upper_case(b: u8) -> bool {
    b & CASE_BIT == 0
}

/// `b` with its case bit inverted.
pub open spec fn flip_case(b: u8) -> u8 {
    b ^ CASE_BIT
}

/// A chunk is critical when its first byte is upper case.
pub open spec fn critical_flag(v: Seq<u8>) -> bool {
    is_upper_case(v[0])
}

/// A chunk is public when its second byte is upper case.
pub open spec fn public_flag(v: Seq<u8>) -> bool {
    is_upper_case(v[1])
}

/// The reserved bit is valid when the third byte is upper case.
pub open spec fn reserved_bit_flag(v: Seq<u8>) -> bool {
    is_upper_case(v[2])
}

/// A chunk is safe to copy when its fourth byte is lower case.
pub open spec fn safe_to_copy_flag(v: Seq<u8>) -> bool {
    !is_upper_case(v[3])
}

/// The bytes of a construction's result, or its error.
pub open spec fn result_view(r: Result<ChunkType, ChunkTypeError>) -> Result<
    Seq<u8>,
    ChunkTypeError,
> {
    match r {
        Ok(c) => Ok(c@),
        Err(e) => Err(e),
    }
}

impl ChunkType {
    #[verifier::type_invariant]
    spec fn inv(&self) -> bool {
        self.chunks[2] != RESERVED_THIRD_BYTE
    }

    /// Builds an identifier from four raw bytes, kept exactly as given.
    pub fn try_from(values: [u8; 4]) -> (r: Result<ChunkType, ChunkTypeError>)
        ensures
            result_view(r) == parse_bytes(values@),
    {
        if values[2] == RESERVED_THIRD_BYTE {
            return Err(ChunkTypeError::InvalidReservedByte);
        }
        Ok(ChunkType { chunks: values })
    }

    /// Builds an identifier from the first four characters of a text, each
    /// taken as one ASCII byte.
    pub fn from_str(s: &str) -> (r: Result<ChunkType, ChunkTypeError>)
        ensures
            result_view(r) == parse_text(s@),
    {
        if s.unicode_len() < 4 {
            return Err(ChunkTypeError::MalformedText);
        }
        let c0 = s.get_char(0);
        let c1 = s.get_char(1);
        let c2 = s.get_char(2);
        let c3 = s.get_char(3);
        if c0 > '\u{7f}' || c1 > '\u{7f}' || c2 > '\u{7f}' || c3 > '\u{7f}' {
            proof {
                let k = choose|k: int| 0 <= k < 4 && s@[k] > '\u{7f}';
                assert(s@.take(4)[k] == s@[k]);
            }
            return Err(ChunkTypeError::MalformedText);
        }
        let values: [u8; 4] = [c0 as u8, c1 as u8, c2 as u8, c3 as u8];
        proof {
            assert(is_ascii_chars(s@.take(4)));
            assert(values@ =~= text_bytes(s@));
        }
        ChunkType::try_from(values)
    }

    /// Whether the chunk is critical: its first byte is upper case.
    pub fn is_critical(&self) -> (r: bool)
        ensures
            r == critical_flag(self@),
    {
        self.chunks[0] & CASE_BIT == 0
    }

    /// Whether the chunk is public: its second byte is upper case.
    pub fn is_public(&self) -> (r: bool)
        ensures
            r == public_flag(self@),
    {
        self.chunks[1] & CASE_BIT == 0
    }

    /// Whether the reserved bit is valid: the third byte is upper case.
    pub fn is_reserved_bit_valid(&self) -> (r: bool)
        ensures
            r == reserved_bit_flag(self@),
    {
        self.chunks[2] & CASE_BIT == 0
    }

    /// Whether the chunk type is valid; the same rule as the reserved bit.
    pub fn is_valid(&self) -> (r: bool)
        ensures
            r == reserved_bit_flag(self@),
    {
        self.is_reserved_bit_valid()
    }

    /// Whether a copier that does not know the chunk may copy it: the fourth
    /// byte is lower case.
    pub fn is_safe_to_copy(&self) -> (r: bool)
        ensures
            r == safe_to_copy_flag(self@),
    {
        self.chunks[3] & CASE_BIT != 0
    }

    /// The identifier as text. The bytes must be valid UTF-8, which four
    /// ASCII letters are.
    pub fn to_string(&self) -> (r: String)
        requires
            valid_utf8(self@),
        ensures
            r@ == decode_utf8(self@),
            (forall|i: int| 0 <= i < 4 ==> self@[i] < 128) ==> r@.len() == 4 && forall|i: int|
                0 <= i < 4 ==> #[trigger] r@[i] as u8 == self@[i],
    {
        proof {
            if forall|i: int| 0 <= i < 4 ==> self@[i] < 128 {
                lemma_ascii_bytes_decode(self@);
            }
        }
        let mut v: Vec<u8> = Vec::new();
        v.push(self.chunks[0]);
        v.push(self.chunks[1]);
        v.push(self.chunks[2]);
        v.push(self.chunks[3]);
        assert(v@ =~= self@);
        match string_from_utf8(v) {
            Some(text) => text,
            None => String::new(),
        }
    }

    /// The four bytes of the identifier.
    pub fn bytes(&self) -> (r: [u8; 4])
        ensures
            r@ == self@,
            r[2] != RESERVED_THIRD_BYTE,
    {
        proof {
            use_type_invariant(self);
        }
        self.chunks
    }
}

/// Bytes below 128 are valid UTF-8 and decode to one ASCII character each,
/// with the byte's value.
pub proof fn lemma_ascii_bytes_decode(b: Seq<u8>)
    requires
        forall|i: int| 0 <= i < b.len() ==> b[i] < 128,
    ensures
        valid_utf8(b),
        decode_utf8(b).len() == b.len(),
        is_ascii_chars(decode_utf8(b)),
        forall|i: int| 0 <= i < b.len() ==> #[trigger] decode_utf8(b)[i] as u8 == b[i],
    decreases b.len(),
{
    if b.len() > 0 {
        let b0 = b[0];
        assert(leading_bits_width_1(b0) == b0 as u32) by (bit_vector)
            requires
                b0 < 128,
        ;
        let rest = b.subrange(1, b.len() as int);
        assert(pop_first_scalar(b) =~= rest);
        lemma_ascii_bytes_decode(rest);
        let d = decode_utf8(b);
        assert(d =~= seq![decode_first_scalar(b) as char] + decode_utf8(rest));
        assert forall|i: int| 0 <= i < b.len() implies '\0' <= #[trigger] d[i] <= '\u{7f}'
            && d[i] as u8 == b[i] by {
            if i > 0 {
                assert(d[i] == decode_utf8(rest)[i - 1]);
            }
        }
    }
}

/// Construction from four bytes whose third byte is not reserved succeeds and
/// keeps the bytes, so the accessor gives them back unchanged.
pub proof fn lemma_bytes_round_trip(values: Seq<u8>)
    requires
        values.len() == 4,
        values[2] != RESERVED_THIRD_BYTE,
    ensures
        parse_bytes(values) == Ok::<Seq<u8>, ChunkTypeError>(values),
{
}

/// Construction from four bytes whose third byte is the reserved value
/// fails, and says so.
pub proof fn lemma_reserved_byte_refused(values: Seq<u8>)
    requires
        values.len() == 4,
        values[2] == RESERVED_THIRD_BYTE,
    ensures
        parse_bytes(values) == Err::<Seq<u8>, ChunkTypeError>(ChunkTypeError::InvalidReservedByte),
{
}

/// A text whose first four characters are the ASCII characters of four
/// bytes names the same chunk type as the bytes do, or fails the same way.
pub proof fn lemma_text_agrees_with_bytes(text: Seq<char>, values: Seq<u8>)
    requires
        values.len() == 4,
        text.len() >= 4,
        is_ascii_chars(text.take(4)),
        forall|i: int| 0 <= i < 4 ==> #[trigger] text[i] as u8 == values[i],
    ensures
        parse_text(text) == parse_bytes(values),
{
    assert(text_bytes(text) =~= values);
}

/// Each property reads the case of one byte alone: inverting the case of a
/// byte inverts the property that it carries and leaves the other three.
pub proof fn lemma_flags_independent(a: ChunkType, b: ChunkType, j: int)
    requires
        0 <= j < 4,
        b@ == a@.update(j, flip_case(a@[j])),
    ensures
        critical_flag(b@) == (critical_flag(a@) != (j == 0)),
        public_flag(b@) == (public_flag(a@) != (j == 1)),
        reserved_bit_flag(b@) == (reserved_bit_flag(a@) != (j == 2)),
        safe_to_copy_flag(b@) == (safe_to_copy_flag(a@) != (j == 3)),
{
    let x = a@[j];
    assert(is_upper_case(flip_case(x)) != is_upper_case(x)) by (bit_vector);
}

/// Two identifiers are equal exactly when all four bytes are: the same
/// bytes give equal identifiers, and bytes that differ everywhere do not.
pub proof fn lemma_equality_is_bytewise(a: ChunkType, b: ChunkType)
    ensures
        a.eq_spec(&b) <==> a@ == b@,
        a@ == b@ ==> a == b,
        (forall|i: int| 0 <= i < 4 ==> a@[i] != b@[i]) ==> !a.eq_spec(&b),
{
    if a@ == b@ {
        assert(a.chunks == b.chunks);
    }
    assert(a@[0] == a.chunks[0]);
}

/// Identifiers compare byte by byte, all four positions.
impl PartialEq for ChunkType {
    fn eq(&self, other: &ChunkType) -> (r: bool) {
        let same = self.chunks[0] == other.chunks[0] && self.chunks[1] == other.chunks[1]
            && self.chunks[2] == other.chunks[2] && self.chunks[3] == other.chunks[3];
        proof {
            if same {
                assert(self@ =~= other@);
            }
        }
        same
    }
}

impl vstd::std_specs::cmp::PartialEqSpecImpl for ChunkType {
    open spec fn obeys_eq_spec() -> bool {
        true
    }

    open spec fn eq_spec(&self, other: &ChunkType) -> bool {
        self@ == other@
    }
}

impl Eq for ChunkType {}

/// The same construction as `ChunkType::try_from`, through the std trait.
impl TryFrom<[u8; 4]> for ChunkType {
    type Error = ChunkTypeError;

    fn try_from(values: [u8; 4]) -> (r: Result<ChunkType, ChunkTypeError>) {
        let r = ChunkType::try_from(values);
        proof {
            if let Ok(c) = r {
                assert(c.chunks@ == values@);
                assert(c.chunks == values);
            }
        }
        r
    }
}

impl vstd::std_specs::convert::TryFromSpecImpl<[u8; 4]> for ChunkType {
    open spec fn obeys_try_from_spec() -> bool {
        true
    }

    closed spec fn try_from_spec(values: [u8; 4]) -> Result<ChunkType, ChunkTypeError> {
        if values[2] == RESERVED_THIRD_BYTE {
            Err(ChunkTypeError::InvalidReservedByte)
        } else {
            Ok(ChunkType { chunks: values })
        }
    }
}

/// The same construction as `ChunkType::from_str`, through the std trait.
impl std::str::FromStr for ChunkType {
    type Err = ChunkTypeError;

    fn from_str(s: &str) -> Result<ChunkType, ChunkTypeError> {
        ChunkType::from_str(s)
    }
}

/// Relies on `String::from_utf8`: valid UTF-8 becomes the text it encodes,
/// any other bytes are refused.
#[verifier::external_body]
fn string_from_utf8(v: Vec<u8>) -> (r: Option<String>)
    ensures
        r is Some <==> valid_utf8(v@),
        r matches Some(text) ==> text@ == decode_utf8(v@),
{
    String::from_utf8(v).ok()
}

} // verus!
