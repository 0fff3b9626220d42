use vstd::prelude::*;
use vstd::string::to_string_from_display_ensures;

verus! {

/// A hexadecimal digit, in either case.
pub open spec fn is_hex_char(c: char) -> bool {
    ('0' <= c && c <= '9') || ('a' <= c && c <= 'f') || ('A' <= c && c <= 'F')
}

/// The value of a hexadecimal digit.
pub open spec fn hex_val(c: char) -> nat {
    if '0' <= c && c <= '9' {
        (c as nat - '0' as nat) as nat
    } else if 'a' <= c && c <= 'f' {
        (c as nat - 'a' as nat + 10) as nat
    } else {
        (c as nat - 'A' as nat + 10) as nat
    }
}

/// The lower-case digit for a value below sixteen.
pub open spec fn hex_digit(n: nat) -> char {
    if n < 10 {
        (n + '0' as nat) as char
    } else {
        (n - 10 + 'a' as nat) as char
    }
}

/// The external encoding of an identifier: exactly 24 hexadecimal digits.
pub open spec fn is_object_id_hex(s: Seq<char>) -> bool {
    &&& s.len() == 24
    &&& forall|i: int| 0 <= i < 24 ==> #[trigger] is_hex_char(s[i])
}

/// The twelve bytes that a well-formed encoding stands for, two digits per
/// byte, high digit first.
pub open spec fn object_id_of(s: Seq<char>) -> Seq<u8> {
    Seq::new(12, |i: int| (hex_val(s[2 * i]) * 16 + hex_val(s[2 * i + 1])) as u8)
}

/// The lower-case hexadecimal rendering of a byte string.
pub open spec fn hex_of(b: Seq<u8>) -> Seq<char> {
    Seq::new(
        2 * b.len(),
        |i: int|
            if i % 2 == 0 {
                hex_digit((b[i / 2] / 16) as nat)
            } else {
                hex_digit((b[i / 2] % 16) as nat)
            },
    )
}

/// The identifier of a stored record: twelve bytes, rendered externally as
/// 24 hexadecimal digits.
#[derive(Clone, Copy, Debug, PartialEq, Eq)]
pub struct RecordId {
    pub bytes: [u8; 12],
}

impl View for RecordId {
    type V = Seq<u8>;

    open spec fn view(&self) -> Seq<u8> {
        self.bytes@
    }
}

/// Relies on bson's `ObjectId::parse_str`, which hex-decodes the text and
/// accepts it only when it gives exactly twelve bytes; upper- and lower-case
/// digits are both taken.
#[verifier::external_body]
fn decode_object_id(s: &str) -> (r: Result<[u8; 12], mongodb::bson::oid::Error>)
    ensures
        r is Ok <==> is_object_id_hex(s@),
        r matches Ok(b) ==> b@ == object_id_of(s@),
{
    mongodb::bson::oid::ObjectId::parse_str(s).map(|o| o.bytes())
}

/// Relies on bson's `ObjectId::to_hex`, which is `hex::encode` of the twelve
/// bytes: two lower-case digits per byte.
#[verifier::external_body]
fn encode_object_id(b: [u8; 12]) -> (r: String)
    ensures
        r@ == hex_of(b@),
{
    mongodb::bson::oid::ObjectId::from_bytes(b).to_hex()
}

/// Relies on bson's `ObjectId::new`, which builds an identifier from the
/// clock, a per-process random value and a counter: nothing is known of the
/// bytes it gives.
#[verifier::external_body]
fn generate_object_id() -> (r: [u8; 12]) {
    mongodb::bson::oid::ObjectId::new().bytes()
}

#[verifier::external_type_specification]
#[verifier::external_body]
pub struct ExOidError(mongodb::bson::oid::Error);

/// The identifier error's message: the text its `Display` writes.
pub fn describe_oid_error(e: &mongodb::bson::oid::Error) -> (r: String)
    ensures
        to_string_from_display_ensures::<mongodb::bson::oid::Error>(e, r),
{
    e.to_string()
}

/// A digit rendered from a value below sixteen is read back as that value.
pub proof fn lemma_hex_digit_val(n: nat)
    requires
        n < 16,
    ensures
        is_hex_char(hex_digit(n)),
        hex_val(hex_digit(n)) == n,
{
}

/// Rendering twelve bytes gives a well-formed encoding, and decoding it gives
/// the same bytes back.
pub proof fn lemma_hex_round_trip(b: Seq<u8>)
    requires
        b.len() == 12,
    ensures
        is_object_id_hex(hex_of(b)),
        object_id_of(hex_of(b)) == b,
{
    let h = hex_of(b);
    assert forall|i: int| 0 <= i < 24 implies #[trigger] is_hex_char(h[i]) by {
        lemma_hex_digit_val((b[i / 2] / 16) as nat);
        lemma_hex_digit_val((b[i / 2] % 16) as nat);
    }
    assert forall|i: int| 0 <= i < 12 implies #[trigger] object_id_of(h)[i] == b[i] by {
        lemma_hex_digit_val((b[i] / 16) as nat);
        lemma_hex_digit_val((b[i] % 16) as nat);
        assert(h[2 * i] == hex_digit((b[i] / 16) as nat));
        assert(h[2 * i + 1] == hex_digit((b[i] % 16) as nat));
        assert((b[i] / 16) * 16 + b[i] % 16 == b[i]);
    }
    assert(object_id_of(h) =~= b);
}

impl RecordId {
    /// A new identifier, assigned when a record is created.
    pub fn generate() -> (r: RecordId) {
        RecordId { bytes: generate_object_id() }
    }

    /// Reads the external encoding of an identifier. Only 24 hexadecimal
    /// digits are accepted; the error says what was wrong.
    pub fn parse(s: &str) -> (r: Result<RecordId, mongodb::bson::oid::Error>)
        ensures
            r is Ok <==> is_object_id_hex(s@),
            r matches Ok(id) ==> id@ == object_id_of(s@),
    {
        match decode_object_id(s) {
            Ok(b) => Ok(RecordId { bytes: b }),
            Err(e) => Err(e),
        }
    }

    /// The external encoding: 24 lower-case hexadecimal digits.
    pub fn to_hex(&self) -> (r: String)
        ensures
            r@ == hex_of(self@),
            is_object_id_hex(r@),
            object_id_of(r@) == self@,
    {
        proof {
            lemma_hex_round_trip(self@);
        }
        encode_object_id(self.bytes)
    }
}

} // verus!
