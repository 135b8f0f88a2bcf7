//! What the plain values promise, said of the calls themselves and in terms of
//! what goes in and comes out.
use vstd::prelude::*;

use crate::ids::{
    denotes, hyphenated_text, is_id_text, law_text_denotes_one_id, law_written_id_reads_back,
    lower_digits, nibble, simple_text, spells, spells_hyphenated, EventId,
};
use crate::metadata::{entries_map, key_at, Metadata};
use crate::types::{Credentials, Duration, LinkTos, Payload};

verus! {

/// Where the digits of byte `i` begin among five groups with hyphens between them.
pub open spec fn group_place(i: int) -> int {
    2 * i + (if i < 4 { 0int } else if i < 6 { 1 } else if i < 8 { 2 } else if i < 10 { 3 } else {
        4
    })
}

/// Whether `c` is the hexadecimal digit for `n`, in lower case.
pub open spec fn is_lower_digit(c: char, n: int) -> bool {
    ||| 0 <= n < 10 && c as int == 48 + n
    ||| 10 <= n < 16 && c as int == 87 + n
}

/// Whether `c` is the hexadecimal digit for `n`, in either case.
pub open spec fn is_digit(c: char, n: int) -> bool {
    is_lower_digit(c, n) || (10 <= n < 16 && c as int == 55 + n)
}

/// Whether `text` is `bytes` written in lower case: each byte as two digits, the
/// high one first, with a hyphen after bytes 4, 6, 8 and 10.
pub open spec fn is_written_as(bytes: Seq<u8>, text: Seq<char>) -> bool {
    &&& bytes.len() == 16 && text.len() == 36
    &&& text[8] == '-' && text[13] == '-' && text[18] == '-' && text[23] == '-'
    &&& forall|i: int|
        0 <= i < 16 ==> is_lower_digit(text[group_place(i)], #[trigger] bytes[i] as int / 16)
            && is_lower_digit(text[group_place(i) + 1], bytes[i] as int % 16)
}

/// Whether the 36 characters of `text` from `start` on are `bytes` in hyphenated
/// groups.
pub open spec fn groups_show(text: Seq<char>, start: int, bytes: Seq<u8>) -> bool {
    &&& text[start + 8] == '-' && text[start + 13] == '-' && text[start + 18] == '-' && text[start
        + 23] == '-'
    &&& forall|i: int|
        0 <= i < 16 ==> is_digit(text[start + group_place(i)], #[trigger] bytes[i] as int / 16)
            && is_digit(text[start + group_place(i) + 1], bytes[i] as int % 16)
}

/// Whether `text` shows `bytes`: as 32 digits, in hyphenated groups, in groups
/// within braces, or in groups behind `urn:uuid:`, with all letters but the
/// hyphens and signs in either case.
pub open spec fn shows(text: Seq<char>, bytes: Seq<u8>) -> bool {
    &&& bytes.len() == 16
    &&& if text.len() == 32 {
        forall|i: int|
            0 <= i < 16 ==> is_digit(text[2 * i], #[trigger] bytes[i] as int / 16) && is_digit(
                text[2 * i + 1],
                bytes[i] as int % 16,
            )
    } else if text.len() == 36 {
        groups_show(text, 0, bytes)
    } else if text.len() == 38 {
        text[0] == '{' && text[37] == '}' && groups_show(text, 1, bytes)
    } else {
        &&& text.len() == 45
        &&& text[0] == 'u' || text[0] == 'U'
        &&& text[1] == 'r' || text[1] == 'R'
        &&& text[2] == 'n' || text[2] == 'N'
        &&& text[3] == ':'
        &&& text[4] == 'u' || text[4] == 'U'
        &&& text[5] == 'u' || text[5] == 'U'
        &&& text[6] == 'i' || text[6] == 'I'
        &&& text[7] == 'd' || text[7] == 'D'
        &&& text[8] == ':'
        &&& groups_show(text, 9, bytes)
    }
}

/// Digits that spell an identifier show its bytes, and the other way round.
proof fn lemma_digits(digits: Seq<char>, bytes: Seq<u8>)
    requires
        digits.len() == 32,
        bytes.len() == 16,
    ensures
        spells(digits, bytes) <==> forall|i: int|
            0 <= i < 16 ==> is_digit(digits[2 * i], #[trigger] bytes[i] as int / 16) && is_digit(
                digits[2 * i + 1],
                bytes[i] as int % 16,
            ),
{
    if spells(digits, bytes) {
        assert forall|i: int| 0 <= i < 16 implies is_digit(
            digits[2 * i],
            #[trigger] bytes[i] as int / 16,
        ) && is_digit(digits[2 * i + 1], bytes[i] as int % 16) by {
            assert(nibble(bytes, 2 * i) == bytes[i] as int / 16);
            assert(nibble(bytes, 2 * i + 1) == bytes[i] as int % 16);
        }
    }
    if forall|i: int|
        0 <= i < 16 ==> is_digit(digits[2 * i], #[trigger] bytes[i] as int / 16) && is_digit(
            digits[2 * i + 1],
            bytes[i] as int % 16,
        ) {
        assert forall|k: int| 0 <= k < 32 implies crate::ids::hex_value(#[trigger] digits[k])
            == Some(nibble(bytes, k)) by {
            let b = bytes[k / 2];
            if k % 2 == 0 {
                assert(k == 2 * (k / 2));
            } else {
                assert(k == 2 * (k / 2) + 1);
            }
        }
    }
}

/// The digits of five groups, without the hyphens.
#[verifier::opaque]
spec fn group_digits(g: Seq<char>) -> Seq<char> {
    g.subrange(0, 8) + g.subrange(9, 13) + g.subrange(14, 18) + g.subrange(19, 23) + g.subrange(
        24,
        36,
    )
}

/// Where the two digits of byte `i` stand.
proof fn lemma_group_place(g: Seq<char>, i: int)
    requires
        g.len() == 36,
        0 <= i < 16,
    ensures
        group_digits(g).len() == 32,
        group_digits(g)[2 * i] == g[group_place(i)],
        group_digits(g)[2 * i + 1] == g[group_place(i) + 1],
{
    reveal(group_digits);
}

/// What it takes to spell an identifier in groups.
proof fn lemma_group_spelling(g: Seq<char>, bytes: Seq<u8>)
    requires
        g.len() == 36,
    ensures
        spells_hyphenated(g, bytes) <==> g[8] == '-' && g[13] == '-' && g[18] == '-' && g[23] == '-'
            && spells(group_digits(g), bytes),
{
    reveal(group_digits);
}

proof fn lemma_groups(text: Seq<char>, start: int, bytes: Seq<u8>)
    requires
        0 <= start,
        start + 36 <= text.len(),
        bytes.len() == 16,
    ensures
        spells_hyphenated(text.subrange(start, start + 36), bytes) <==> groups_show(
            text,
            start,
            bytes,
        ),
{
    let g = text.subrange(start, start + 36);
    let d = group_digits(g);
    lemma_group_place(g, 0);
    lemma_digits(d, bytes);
    lemma_group_spelling(g, bytes);
    if spells(d, bytes) {
        assert forall|i: int| 0 <= i < 16 implies is_digit(
            text[start + group_place(i)],
            #[trigger] bytes[i] as int / 16,
        ) && is_digit(text[start + group_place(i) + 1], bytes[i] as int % 16) by {
            lemma_group_place(g, i);
        }
    }
    if groups_show(text, start, bytes) {
        assert forall|i: int| 0 <= i < 16 implies is_digit(
            d[2 * i],
            #[trigger] bytes[i] as int / 16,
        ) && is_digit(d[2 * i + 1], bytes[i] as int % 16) by {
            lemma_group_place(g, i);
        }
    }
}

/// The texts that denote an identifier are the texts that show its bytes.
proof fn lemma_denotes_is_shows(text: Seq<char>, bytes: Seq<u8>)
    ensures
        denotes(text, bytes) <==> shows(text, bytes),
{
    if bytes.len() == 16 {
        if text.len() == 32 {
            lemma_digits(text, bytes);
        } else if text.len() == 36 {
            lemma_groups(text, 0, bytes);
            assert(text.subrange(0, 36) =~= text);
        } else if text.len() == 38 {
            lemma_groups(text, 1, bytes);
        } else if text.len() == 45 {
            lemma_groups(text, 9, bytes);
            assert(text.subrange(0, 9).len() == 9);
        }
    }
}

/// The text of an identifier writes its bytes out in lower case, and is always
/// to be had.
pub proof fn law_text_writes_the_bytes(id: EventId, r: String)
    ensures
        call_requires(EventId::to_text, (&id,)),
        call_ensures(EventId::to_text, (&id,), r) ==> is_written_as(id.bytes@, r@),
{
    if call_ensures(EventId::to_text, (&id,), r) {
        lemma_written(id.bytes@);
    }
}

/// The hyphenated text of an identifier writes its bytes out in lower case.
pub proof fn lemma_written(bytes: Seq<u8>)
    requires
        bytes.len() == 16,
    ensures
        is_written_as(bytes, hyphenated_text(bytes)),
{
    let d = simple_text(bytes);
    let t = hyphenated_text(bytes);
    assert forall|i: int| 0 <= i < 16 implies is_lower_digit(
        t[group_place(i)],
        #[trigger] bytes[i] as int / 16,
    ) && is_lower_digit(t[group_place(i) + 1], bytes[i] as int % 16) by {
        assert(t[group_place(i)] == d[2 * i]);
        assert(t[group_place(i) + 1] == d[2 * i + 1]);
        assert(nibble(bytes, 2 * i) == bytes[i] as int / 16);
        assert(nibble(bytes, 2 * i + 1) == bytes[i] as int % 16);
        assert(d[2 * i] == lower_digits()[bytes[i] as int / 16]);
        assert(d[2 * i + 1] == lower_digits()[bytes[i] as int % 16]);
    }
}

/// A text is read exactly if it shows some bytes, and then gives those bytes.
pub proof fn law_parse_reads_what_is_shown(text: &str, r: Option<EventId>)
    ensures
        call_requires(EventId::parse, (text,)),
        call_ensures(EventId::parse, (text,), r) ==> match r {
            Some(id) => shows(text@, id.bytes@) && forall|bytes: Seq<u8>|
                #[trigger] shows(text@, bytes) ==> bytes == id.bytes@,
            None => forall|bytes: Seq<u8>| !#[trigger] shows(text@, bytes),
        },
{
    if call_ensures(EventId::parse, (text,), r) {
        match r {
            Some(id) => {
                lemma_denotes_is_shows(text@, id.bytes@);
                assert forall|bytes: Seq<u8>| #[trigger] shows(text@, bytes) implies bytes
                    == id.bytes@ by {
                    lemma_denotes_is_shows(text@, bytes);
                    law_text_denotes_one_id(text@, bytes, id.bytes@);
                }
            },
            None => {
                assert forall|bytes: Seq<u8>| !#[trigger] shows(text@, bytes) by {
                    lemma_denotes_is_shows(text@, bytes);
                    if denotes(text@, bytes) {
                        assert(is_id_text(text@));
                    }
                }
            },
        }
    }
}

/// A text that denotes an identifier shows its bytes.
pub proof fn lemma_denoted_is_shown(text: Seq<char>, bytes: Seq<u8>)
    requires
        denotes(text, bytes),
    ensures
        shows(text, bytes),
{
    lemma_denotes_is_shows(text, bytes);
}

/// Whether a text denotes any identifier is whether it shows any bytes.
pub proof fn lemma_id_text_is_shown(text: Seq<char>)
    ensures
        is_id_text(text) <==> exists|bytes: Seq<u8>| shows(text, bytes),
{
    if is_id_text(text) {
        let bytes = choose|bytes: Seq<u8>| denotes(text, bytes);
        lemma_denotes_is_shows(text, bytes);
    }
    if exists|bytes: Seq<u8>| shows(text, bytes) {
        let bytes = choose|bytes: Seq<u8>| shows(text, bytes);
        lemma_denotes_is_shows(text, bytes);
        assert(denotes(text, bytes));
    }
}

/// Reading the text of an identifier gives that identifier back.
pub proof fn law_text_parses_back(id: EventId, text: String, same: &str, r: Option<EventId>)
    requires
        call_ensures(EventId::to_text, (&id,), text),
        same@ == text@,
        call_ensures(EventId::parse, (same,), r),
    ensures
        r matches Some(back) && back.bytes@ == id.bytes@,
{
    law_written_id_reads_back(id@);
    if let Some(back) = r {
        law_text_denotes_one_id(same@, back@, id@);
    }
}

/// Two identifiers with the same text are the same.
pub proof fn law_texts_stay_apart(a: EventId, b: EventId, s: String, t: String)
    requires
        call_ensures(EventId::to_text, (&a,), s),
        call_ensures(EventId::to_text, (&b,), t),
        s@ == t@,
    ensures
        a.bytes@ == b.bytes@,
{
    law_written_id_reads_back(a@);
    law_written_id_reads_back(b@);
    law_text_denotes_one_id(s@, a@, b@);
}

/// Every drawn identifier says that it is random: version 4, variant 2.
pub proof fn law_random_ids_are_marked(r: EventId)
    ensures
        call_requires(EventId::new_random, ()),
        call_ensures(EventId::new_random, (), r) ==> 0x40 <= r.bytes@[6] <= 0x4f && 0x80
            <= r.bytes@[8] <= 0xbf,
{
}

/// New metadata holds nothing.
pub proof fn law_new_metadata_is_empty(m: Metadata, key: &str, r: Option<&String>)
    requires
        call_ensures(Metadata::new, (), m),
        call_ensures(Metadata::get, (&m, key), r),
    ensures
        r is None,
{
}

/// What is inserted is what a lookup of its key gives, and every other lookup
/// gives what it gave before.
pub proof fn law_insert_then_get()
    ensures
        forall|m: &mut Metadata, key: String, value: String|
            call_requires(Metadata::insert, (m, key, value)),
        forall|
            m: &mut Metadata,
            key: String,
            value: String,
            k: &str,
            before: Option<&String>,
            after: Option<&String>,
        |
            #![trigger
                call_ensures(Metadata::insert, (m, key, value), ()),
                call_ensures(Metadata::get, (&*m, k), before),
                call_ensures(Metadata::get, (&*final(m), k), after)]
            call_ensures(Metadata::insert, (m, key, value), ()) && call_ensures(
                Metadata::get,
                (&*m, k),
                before,
            ) && call_ensures(Metadata::get, (&*final(m), k), after) ==> {
                &&& k@ == key@ ==> (after matches Some(v) && v@ == value@)
                &&& k@ != key@ ==> match (before, after) {
                    (Some(v), Some(w)) => v@ == w@,
                    (None, None) => true,
                    _ => false,
                }
            },
{
}

/// A removal gives what a lookup gave; afterwards the key is gone, and every
/// other lookup gives what it gave before.
pub proof fn law_remove_then_get()
    ensures
        forall|m: &mut Metadata, key: &str| call_requires(Metadata::remove, (m, key)),
        forall|
            m: &mut Metadata,
            key: &str,
            gone: Option<String>,
            k: &str,
            before: Option<&String>,
            after: Option<&String>,
        |
            #![trigger
                call_ensures(Metadata::remove, (m, key), gone),
                call_ensures(Metadata::get, (&*m, k), before),
                call_ensures(Metadata::get, (&*final(m), k), after)]
            call_ensures(Metadata::remove, (m, key), gone) && call_ensures(
                Metadata::get,
                (&*m, k),
                before,
            ) && call_ensures(Metadata::get, (&*final(m), k), after) ==> {
                &&& k@ == key@ ==> after is None && match (before, gone) {
                    (Some(v), Some(w)) => v@ == w@,
                    (None, None) => true,
                    _ => false,
                }
                &&& k@ != key@ ==> match (before, after) {
                    (Some(v), Some(w)) => v@ == w@,
                    (None, None) => true,
                    _ => false,
                }
            },
{
}

/// The entries of metadata are its lookups: each key stands there once, with
/// what a lookup gives for it, and a key that is not there is not found.
pub proof fn law_entries_are_the_lookups(
    m: Metadata,
    entries: Vec<(String, String)>,
    key: &str,
    found: Option<&String>,
)
    requires
        call_ensures(Metadata::into_entries, (m,), entries),
        call_ensures(Metadata::get, (&m, key), found),
    ensures
        forall|i: int, j: int|
            0 <= i < j < entries@.len() ==> (#[trigger] entries@[i]).0@ != (
            #[trigger] entries@[j]).0@,
        match found {
            Some(value) => exists|i: int|
                0 <= i < entries@.len() && (#[trigger] entries@[i]).0@ == key@ && entries@[i].1@
                    == value@,
            None => forall|i: int|
                0 <= i < entries@.len() ==> (#[trigger] entries@[i]).0@ != key@,
        },
{
    let e = entries@;
    assert(m@ == entries_map(e));
    match found {
        Some(value) => {
            let i = choose|i: int| key_at(e, key@, i);
            assert(key_at(e, key@, i));
            assert(e[i].0@ == key@);
        },
        None => {
            assert forall|i: int| 0 <= i < e.len() implies (#[trigger] e[i]).0@ != key@ by {
                if e[i].0@ == key@ {
                    assert(key_at(e, key@, i));
                    assert(m@.contains_key(key@));
                }
            }
        },
    }
}

/// The contents of metadata are its entries.
pub proof fn law_entries_are_the_contents(m: Metadata, entries: Vec<(String, String)>)
    requires
        call_ensures(Metadata::into_entries, (m,), entries),
    ensures
        forall|i: int|
            0 <= i < entries@.len() ==> m@.contains_key((#[trigger] entries@[i]).0@)
                && m@[entries@[i].0@] == entries@[i].1@,
        forall|key: Seq<char>| #[trigger]
            m@.contains_key(key) ==> exists|i: int|
                0 <= i < entries@.len() && (#[trigger] entries@[i]).0@ == key,
{
    let e = entries@;
    assert forall|i: int| 0 <= i < e.len() implies m@.contains_key((#[trigger] e[i]).0@)
        && m@[e[i].0@] == e[i].1@ by {
        assert(key_at(e, e[i].0@, i));
        let j = choose|j: int| key_at(e, e[i].0@, j);
        assert(key_at(e, e[i].0@, j));
        assert(e[j].0@ == e[i].0@);
    }
    assert forall|key: Seq<char>| #[trigger] m@.contains_key(key) implies exists|i: int|
        0 <= i < e.len() && (#[trigger] e[i]).0@ == key by {
        let i = choose|i: int| key_at(e, key, i);
        assert(key_at(e, key, i));
        assert(e[i].0@ == key);
    }
}

/// Links are resolved exactly if that is asked for.
pub proof fn law_links_are_resolved_on_demand(tos: LinkTos, r: bool)
    ensures
        call_requires(LinkTos::raw_resolve_lnk_tos, (tos,)),
        call_ensures(LinkTos::raw_resolve_lnk_tos, (tos,), r) ==> r == (tos
            == LinkTos::ResolveLink),
{
}

/// A payload keeps its bytes and its form.
pub proof fn law_payload_keeps_bytes_and_form(bytes: Vec<u8>, is_json: bool, inner: Vec<u8>)
    ensures
        call_requires(Payload::is_json, (&Payload::Json(bytes),)),
        call_requires(Payload::is_json, (&Payload::Binary(bytes),)),
        call_requires(Payload::into_inner, (Payload::Json(bytes),)),
        call_requires(Payload::into_inner, (Payload::Binary(bytes),)),
        call_ensures(Payload::is_json, (&Payload::Json(bytes),), is_json) ==> is_json,
        call_ensures(Payload::is_json, (&Payload::Binary(bytes),), is_json) ==> !is_json,
        call_ensures(Payload::into_inner, (Payload::Json(bytes),), inner) ==> inner@ == bytes@,
        call_ensures(Payload::into_inner, (Payload::Binary(bytes),), inner) ==> inner@ == bytes@,
{
}

/// A span has a thousand milliseconds for each second, and those of its
/// nanoseconds that are whole.
pub proof fn law_span_counts_whole_millis(span: Duration, r: u128)
    ensures
        call_requires(Duration::as_millis, (&span,)),
        call_ensures(Duration::as_millis, (&span,), r) ==> {
            &&& r * 1_000_000 <= span.secs * 1_000_000_000 + span.nanos
            &&& span.secs * 1_000_000_000 + span.nanos < (r + 1) * 1_000_000
        },
{
}

/// A span of whole seconds has those seconds and nothing more.
pub proof fn law_span_of_seconds(secs: u64, r: Duration)
    ensures
        call_requires(Duration::from_secs, (secs,)),
        call_ensures(Duration::from_secs, (secs,), r) ==> r.secs == secs && r.nanos == 0,
{
}

/// A copy of credentials has their login and their password.
pub proof fn law_copied_credentials_are_the_same(creds: Credentials, r: Credentials)
    requires
        call_ensures(Credentials::clone, (&creds,), r),
    ensures
        r.login@ == creds.login@,
        r.password@ == creds.password@,
{
}

} // verus!
