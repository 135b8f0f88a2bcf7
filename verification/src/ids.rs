//! Event identifiers: 16 bytes, and the texts that denote them.
use vstd::prelude::*;

verus! {

/// A universally unique identifier, as its 16 bytes in network order.
#[derive(Clone, Copy, Debug, PartialEq, Eq)]
pub struct EventId {
    pub bytes: [u8; 16],
}

impl View for EventId {
    type V = Seq<u8>;

    open spec fn view(&self) -> Seq<u8> {
        self.bytes@
    }
}

/// The `k`-th half byte of `bytes`, the high half of each byte first.
pub open spec fn nibble(bytes: Seq<u8>, k: int) -> int {
    if k % 2 == 0 {
        bytes[k / 2] as int / 16
    } else {
        bytes[k / 2] as int % 16
    }
}

/// What a hexadecimal digit of either case stands for.
pub open spec fn hex_value(c: char) -> Option<int> {
    if '0' <= c && c <= '9' {
        Some(c as int - '0' as int)
    } else if 'a' <= c && c <= 'f' {
        Some(c as int - 'a' as int + 10)
    } else if 'A' <= c && c <= 'F' {
        Some(c as int - 'A' as int + 10)
    } else {
        None
    }
}

/// The lower-case hexadecimal digits, in the order of their values.
pub open spec fn lower_digits() -> Seq<char> {
    seq!['0', '1', '2', '3', '4', '5', '6', '7', '8', '9', 'a', 'b', 'c', 'd', 'e', 'f']
}

/// The 32 lower-case digits of `id`, two for each byte.
pub open spec fn simple_text(id: Seq<u8>) -> Seq<char> {
    Seq::new(32, |k: int| lower_digits()[nibble(id, k)])
}

/// The digits of `id` in groups of 8, 4, 4, 4 and 12, with a hyphen between groups.
pub open spec fn hyphenated_text(id: Seq<u8>) -> Seq<char> {
    let d = simple_text(id);
    d.subrange(0, 8) + seq!['-'] + d.subrange(8, 12) + seq!['-'] + d.subrange(12, 16) + seq!['-']
        + d.subrange(16, 20) + seq!['-'] + d.subrange(20, 32)
}

/// Whether `digits` are the 32 digits of `id`, in either case.
pub open spec fn spells(digits: Seq<char>, id: Seq<u8>) -> bool {
    &&& digits.len() == 32
    &&& id.len() == 16
    &&& forall|k: int| 0 <= k < 32 ==> hex_value(#[trigger] digits[k]) == Some(nibble(id, k))
}

/// Whether `text` spells `id` in groups of 8, 4, 4, 4 and 12 digits with hyphens between.
pub open spec fn spells_hyphenated(text: Seq<char>, id: Seq<u8>) -> bool {
    &&& text.len() == 36
    &&& text[8] == '-' && text[13] == '-' && text[18] == '-' && text[23] == '-'
    &&& spells(
        text.subrange(0, 8) + text.subrange(9, 13) + text.subrange(14, 18) + text.subrange(19, 23)
            + text.subrange(24, 36),
        id,
    )
}

/// Whether `text` is `urn:uuid:`, with its letters in either case.
pub open spec fn is_urn_prefix(text: Seq<char>) -> bool {
    &&& text.len() == 9
    &&& text[0] == 'u' || text[0] == 'U'
    &&& text[1] == 'r' || text[1] == 'R'
    &&& text[2] == 'n' || text[2] == 'N'
    &&& text[3] == ':'
    &&& text[4] == 'u' || text[4] == 'U'
    &&& text[5] == 'u' || text[5] == 'U'
    &&& text[6] == 'i' || text[6] == 'I'
    &&& text[7] == 'd' || text[7] == 'D'
    &&& text[8] == ':'
}

/// Whether `text` denotes `id` in one of the four textual forms: 32 digits,
/// hyphenated groups, hyphenated groups in braces, or hyphenated groups behind
/// `urn:uuid:`.
pub open spec fn denotes(text: Seq<char>, id: Seq<u8>) -> bool {
    ||| spells(text, id)
    ||| spells_hyphenated(text, id)
    ||| {
        &&& text.len() == 38
        &&& text[0] == '{' && text[37] == '}'
        &&& spells_hyphenated(text.subrange(1, 37), id)
    }
    ||| {
        &&& text.len() == 45
        &&& is_urn_prefix(text.subrange(0, 9))
        &&& spells_hyphenated(text.subrange(9, 45), id)
    }
}

/// Whether `text` denotes some identifier.
pub open spec fn is_id_text(text: Seq<char>) -> bool {
    exists|id: Seq<u8>| denotes(text, id)
}

/// Whether `id` is marked as a random identifier: version 4, of the RFC 4122 variant.
pub open spec fn is_random_id(id: Seq<u8>) -> bool {
    &&& id.len() == 16
    &&& id[6] as int / 16 == 4
    &&& id[8] as int / 64 == 2
}

/// The error with which the `uuid` crate refuses a text.
#[verifier::external_type_specification]
#[verifier::external_body]
pub struct ExUuidError(uuid::Error);

/// `uuid::Uuid::new_v4`. The bytes come from the operating system's random
/// number generator; of every outcome it holds that the version is 4 and the
/// variant that of RFC 4122. Nothing more is claimed of the bytes, and the call
/// panics where the operating system hands out no random bytes.
#[verifier::external_body]
fn random_bytes() -> (r: [u8; 16])
    ensures
        is_random_id(r@),
{
    uuid::Uuid::new_v4().into_bytes()
}

/// The `Display` of `uuid::Uuid`, through `to_string`: 32 lower-case digits in
/// five hyphenated groups.
#[verifier::external_body]
fn format_bytes(bytes: [u8; 16]) -> (r: String)
    ensures
        r@ == hyphenated_text(bytes@),
{
    uuid::Uuid::from_bytes(bytes).to_string()
}

/// The `FromStr` of `uuid::Uuid`: accepts the texts that denote an identifier in
/// one of the four forms of `denotes`, gives that identifier's bytes, and
/// refuses every other text. Which error it refuses with is not claimed.
#[verifier::external_body]
fn parse_bytes(text: &str) -> (r: Result<[u8; 16], uuid::Error>)
    ensures
        match r {
            Ok(bytes) => denotes(text@, bytes@),
            Err(_) => !is_id_text(text@),
        },
{
    match text.parse::<uuid::Uuid>() {
        Ok(id) => Ok(id.into_bytes()),
        Err(error) => Err(error),
    }
}

impl EventId {
    /// A new random identifier.
    pub fn new_random() -> (r: EventId)
        ensures
            is_random_id(r@),
    {
        EventId { bytes: random_bytes() }
    }

    /// The hyphenated lower-case text of the identifier.
    pub fn to_text(&self) -> (r: String)
        ensures
            r@ == hyphenated_text(self@),
    {
        format_bytes(self.bytes)
    }

    /// The identifier that `text` denotes, if it denotes one.
    pub fn parse(text: &str) -> (r: Option<EventId>)
        ensures
            match r {
                Some(id) => denotes(text@, id@),
                None => !is_id_text(text@),
            },
    {
        match parse_bytes(text) {
            Ok(bytes) => Some(EventId { bytes }),
            Err(_) => None,
        }
    }
}

/// The digits of an identifier determine it.
proof fn lemma_digits_spell_one_id(digits: Seq<char>, a: Seq<u8>, b: Seq<u8>)
    requires
        spells(digits, a),
        spells(digits, b),
    ensures
        a == b,
{
    assert forall|i: int| 0 <= i < 16 implies a[i] == b[i] by {
        assert(hex_value(digits[2 * i]) == Some(nibble(a, 2 * i)));
        assert(hex_value(digits[2 * i + 1]) == Some(nibble(a, 2 * i + 1)));
    }
    assert(a =~= b);
}

/// The digits written for an identifier spell it.
proof fn lemma_simple_text_spells(id: Seq<u8>)
    requires
        id.len() == 16,
    ensures
        spells(simple_text(id), id),
{
    let d = simple_text(id);
    assert forall|k: int| 0 <= k < 32 implies hex_value(#[trigger] d[k]) == Some(nibble(id, k)) by {
        let n = nibble(id, k);
        assert(0 <= n < 16);
        assert(d[k] == lower_digits()[n]);
    }
}

/// A text denotes at most one identifier.
pub proof fn law_text_denotes_one_id(text: Seq<char>, a: Seq<u8>, b: Seq<u8>)
    requires
        denotes(text, a),
        denotes(text, b),
    ensures
        a == b,
{
    let grouped = if text.len() == 38 {
        text.subrange(1, 37)
    } else if text.len() == 45 {
        text.subrange(9, 45)
    } else {
        text
    };
    let digits = if text.len() == 32 {
        text
    } else {
        grouped.subrange(0, 8) + grouped.subrange(9, 13) + grouped.subrange(14, 18)
            + grouped.subrange(19, 23) + grouped.subrange(24, 36)
    };
    lemma_digits_spell_one_id(digits, a, b);
}

/// The text written for an identifier denotes that identifier.
pub proof fn law_written_id_reads_back(id: Seq<u8>)
    requires
        id.len() == 16,
    ensures
        denotes(hyphenated_text(id), id),
        is_id_text(hyphenated_text(id)),
{
    let d = simple_text(id);
    let t = hyphenated_text(id);
    assert(t.subrange(0, 8) + t.subrange(9, 13) + t.subrange(14, 18) + t.subrange(19, 23)
        + t.subrange(24, 36) =~= d);
    lemma_simple_text_spells(id);
    assert(denotes(t, id));
}

} // verus!
