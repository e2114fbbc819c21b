use vstd::prelude::*;
use vstd::string::StringExecFns;

use crate::events::Metadata;
use crate::planet_events::PlanetEventData;

verus! {

/// The decimal digit character for `d`.
pub open spec fn sp_digit_char(d: int) -> char {
    if d == 0 {
        '0'
    } else if d == 1 {
        '1'
    } else if d == 2 {
        '2'
    } else if d == 3 {
        '3'
    } else if d == 4 {
        '4'
    } else if d == 5 {
        '5'
    } else if d == 6 {
        '6'
    } else if d == 7 {
        '7'
    } else if d == 8 {
        '8'
    } else {
        '9'
    }
}

/// The decimal digits of `n`, most significant first, without leading
/// zeroes (a single `'0'` for zero).
pub open spec fn sp_dec_u64(n: nat) -> Seq<char>
    decreases n,
{
    if n < 10 {
        seq![sp_digit_char(n as int)]
    } else {
        sp_dec_u64(n / 10) + seq![sp_digit_char((n % 10) as int)]
    }
}

fn digit_str(d: u64) -> (s: &'static str)
    requires
        d < 10,
    ensures
        s@ == seq![sp_digit_char(d as int)],
{
    proof {
        reveal_strlit("0");
        reveal_strlit("1");
        reveal_strlit("2");
        reveal_strlit("3");
        reveal_strlit("4");
        reveal_strlit("5");
        reveal_strlit("6");
        reveal_strlit("7");
        reveal_strlit("8");
        reveal_strlit("9");
    }
    let s: &'static str = match d {
        0 => "0",
        1 => "1",
        2 => "2",
        3 => "3",
        4 => "4",
        5 => "5",
        6 => "6",
        7 => "7",
        8 => "8",
        _ => "9",
    };
    proof {
        assert(s@ =~= seq![sp_digit_char(d as int)]);
    }
    s
}

/// Render `n` in decimal.
pub fn u64_to_dec(n: u64) -> (s: String)
    ensures
        s@ == sp_dec_u64(n as nat),
    decreases n,
{
    if n < 10 {
        digit_str(n).to_owned()
    } else {
        let mut s = u64_to_dec(n / 10);
        s.append(digit_str(n % 10));
        proof {
            assert(s@ =~= sp_dec_u64(n as nat));
        }
        s
    }
}

/// The lowercase hexadecimal digit character for `d`.
pub open spec fn sp_hex_digit_char(d: int) -> char {
    if d < 10 {
        sp_digit_char(d)
    } else if d == 10 {
        'a'
    } else if d == 11 {
        'b'
    } else if d == 12 {
        'c'
    } else if d == 13 {
        'd'
    } else if d == 14 {
        'e'
    } else {
        'f'
    }
}

/// The hexadecimal digit of `v` at position `k` (0 = least significant).
pub open spec fn sp_nibble(v: u128, k: int) -> int {
    ((v >> ((4 * k) as u128)) & 0xf) as int
}

/// The 32 lowercase hexadecimal digits of `v`, most significant first.
pub open spec fn sp_hex32(v: u128) -> Seq<char> {
    Seq::new(32, |i: int| sp_hex_digit_char(sp_nibble(v, 31 - i)))
}

/// The hyphenated text form of the identifier `id`: its 32 lowercase
/// hexadecimal digits in 8-4-4-4-12 groups.
pub open spec fn uuid_str_of(id: u128) -> Seq<char> {
    sp_hex32(id).subrange(0, 8) + seq!['-'] + sp_hex32(id).subrange(8, 12) + seq!['-']
        + sp_hex32(id).subrange(12, 16) + seq!['-'] + sp_hex32(id).subrange(16, 20) + seq!['-']
        + sp_hex32(id).subrange(20, 32)
}

/// The text form is always 36 characters long.
pub proof fn lemma_uuid_str_len(id: u128)
    ensures
        uuid_str_of(id).len() == 36,
{
}

/// The position inside the hyphenated text of hexadecimal digit `i`.
pub open spec fn uuid_char_position(i: int) -> int {
    if i < 8 {
        i
    } else if i < 12 {
        i + 1
    } else if i < 16 {
        i + 2
    } else if i < 20 {
        i + 3
    } else {
        i + 4
    }
}

proof fn lemma_uuid_char_position(v: u128, i: int)
    requires
        0 <= i < 32,
    ensures
        uuid_str_of(v)[uuid_char_position(i)] == sp_hex32(v)[i],
{
    let h = sp_hex32(v);
    if i < 8 {
        assert(uuid_str_of(v)[i] == h.subrange(0, 8)[i]);
    } else if i < 12 {
        assert(uuid_str_of(v)[i + 1] == h.subrange(8, 12)[i - 8]);
    } else if i < 16 {
        assert(uuid_str_of(v)[i + 2] == h.subrange(12, 16)[i - 12]);
    } else if i < 20 {
        assert(uuid_str_of(v)[i + 3] == h.subrange(16, 20)[i - 16]);
    } else {
        assert(uuid_str_of(v)[i + 4] == h.subrange(20, 32)[i - 20]);
    }
}

proof fn lemma_nibble_range(v: u128, s: u128)
    ensures
        (v >> s) & 0xf < 16,
{
    assert((v >> s) & 0xf < 16) by (bit_vector);
}

proof fn lemma_hex_digit_char_injective(d1: int, d2: int)
    requires
        0 <= d1 < 16,
        0 <= d2 < 16,
        sp_hex_digit_char(d1) == sp_hex_digit_char(d2),
    ensures
        d1 == d2,
{
}

/// Distinct identifiers have distinct text forms.
pub proof fn lemma_uuid_str_of_injective(a: u128, b: u128)
    requires
        uuid_str_of(a) == uuid_str_of(b),
    ensures
        a == b,
{
    assert forall|i: int| 0 <= i < 32 implies sp_hex32(a)[i] == sp_hex32(b)[i] by {
        lemma_uuid_char_position(a, i);
        lemma_uuid_char_position(b, i);
    }
    assert forall|k: int| 0 <= k < 32 implies sp_nibble(a, k) == sp_nibble(b, k) by {
        assert(sp_hex32(a)[31 - k] == sp_hex32(b)[31 - k]);
        lemma_nibble_range(a, (4 * k) as u128);
        lemma_nibble_range(b, (4 * k) as u128);
        lemma_hex_digit_char_injective(sp_nibble(a, k), sp_nibble(b, k));
    }
    assert(sp_nibble(a, 0) == sp_nibble(b, 0));
    assert(sp_nibble(a, 1) == sp_nibble(b, 1));
    assert(sp_nibble(a, 2) == sp_nibble(b, 2));
    assert(sp_nibble(a, 3) == sp_nibble(b, 3));
    assert(sp_nibble(a, 4) == sp_nibble(b, 4));
    assert(sp_nibble(a, 5) == sp_nibble(b, 5));
    assert(sp_nibble(a, 6) == sp_nibble(b, 6));
    assert(sp_nibble(a, 7) == sp_nibble(b, 7));
    assert(sp_nibble(a, 8) == sp_nibble(b, 8));
    assert(sp_nibble(a, 9) == sp_nibble(b, 9));
    assert(sp_nibble(a, 10) == sp_nibble(b, 10));
    assert(sp_nibble(a, 11) == sp_nibble(b, 11));
    assert(sp_nibble(a, 12) == sp_nibble(b, 12));
    assert(sp_nibble(a, 13) == sp_nibble(b, 13));
    assert(sp_nibble(a, 14) == sp_nibble(b, 14));
    assert(sp_nibble(a, 15) == sp_nibble(b, 15));
    assert(sp_nibble(a, 16) == sp_nibble(b, 16));
    assert(sp_nibble(a, 17) == sp_nibble(b, 17));
    assert(sp_nibble(a, 18) == sp_nibble(b, 18));
    assert(sp_nibble(a, 19) == sp_nibble(b, 19));
    assert(sp_nibble(a, 20) == sp_nibble(b, 20));
    assert(sp_nibble(a, 21) == sp_nibble(b, 21));
    assert(sp_nibble(a, 22) == sp_nibble(b, 22));
    assert(sp_nibble(a, 23) == sp_nibble(b, 23));
    assert(sp_nibble(a, 24) == sp_nibble(b, 24));
    assert(sp_nibble(a, 25) == sp_nibble(b, 25));
    assert(sp_nibble(a, 26) == sp_nibble(b, 26));
    assert(sp_nibble(a, 27) == sp_nibble(b, 27));
    assert(sp_nibble(a, 28) == sp_nibble(b, 28));
    assert(sp_nibble(a, 29) == sp_nibble(b, 29));
    assert(sp_nibble(a, 30) == sp_nibble(b, 30));
    assert(sp_nibble(a, 31) == sp_nibble(b, 31));
    assert(a == b) by (bit_vector)
        requires
            (a >> 0) & 0xf == (b >> 0) & 0xf,
            (a >> 4) & 0xf == (b >> 4) & 0xf,
            (a >> 8) & 0xf == (b >> 8) & 0xf,
            (a >> 12) & 0xf == (b >> 12) & 0xf,
            (a >> 16) & 0xf == (b >> 16) & 0xf,
            (a >> 20) & 0xf == (b >> 20) & 0xf,
            (a >> 24) & 0xf == (b >> 24) & 0xf,
            (a >> 28) & 0xf == (b >> 28) & 0xf,
            (a >> 32) & 0xf == (b >> 32) & 0xf,
            (a >> 36) & 0xf == (b >> 36) & 0xf,
            (a >> 40) & 0xf == (b >> 40) & 0xf,
            (a >> 44) & 0xf == (b >> 44) & 0xf,
            (a >> 48) & 0xf == (b >> 48) & 0xf,
            (a >> 52) & 0xf == (b >> 52) & 0xf,
            (a >> 56) & 0xf == (b >> 56) & 0xf,
            (a >> 60) & 0xf == (b >> 60) & 0xf,
            (a >> 64) & 0xf == (b >> 64) & 0xf,
            (a >> 68) & 0xf == (b >> 68) & 0xf,
            (a >> 72) & 0xf == (b >> 72) & 0xf,
            (a >> 76) & 0xf == (b >> 76) & 0xf,
            (a >> 80) & 0xf == (b >> 80) & 0xf,
            (a >> 84) & 0xf == (b >> 84) & 0xf,
            (a >> 88) & 0xf == (b >> 88) & 0xf,
            (a >> 92) & 0xf == (b >> 92) & 0xf,
            (a >> 96) & 0xf == (b >> 96) & 0xf,
            (a >> 100) & 0xf == (b >> 100) & 0xf,
            (a >> 104) & 0xf == (b >> 104) & 0xf,
            (a >> 108) & 0xf == (b >> 108) & 0xf,
            (a >> 112) & 0xf == (b >> 112) & 0xf,
            (a >> 116) & 0xf == (b >> 116) & 0xf,
            (a >> 120) & 0xf == (b >> 120) & 0xf,
            (a >> 124) & 0xf == (b >> 124) & 0xf,
    ;
}

/// Distinct entities get distinct stream names under one prefix.
pub proof fn lemma_stream_name_injective(prefix: Seq<char>, a: u128, b: u128)
    requires
        prefix + uuid_str_of(a) == prefix + uuid_str_of(b),
    ensures
        a == b,
{
    lemma_uuid_str_len(a);
    lemma_uuid_str_len(b);
    assert(uuid_str_of(a) =~= uuid_str_of(b)) by {
        assert(forall|j: int|
            0 <= j < 36 ==> (prefix + uuid_str_of(a))[prefix.len() + j] == uuid_str_of(a)[j]);
        assert(forall|j: int|
            0 <= j < 36 ==> (prefix + uuid_str_of(b))[prefix.len() + j] == uuid_str_of(b)[j]);
    }
    lemma_uuid_str_of_injective(a, b);
}

/// Relies on uuid::Uuid::from_u128 and the Display of its hyphenated form,
/// which renders the value's 32 lowercase hexadecimal digits in 8-4-4-4-12
/// groups: exactly `uuid_str_of`, a pure function of the argument.
#[verifier::external_body]
pub(crate) fn uuid_hyphenated(id: u128) -> (s: String)
    ensures
        s@ == uuid_str_of(id),
{
    uuid::Uuid::from_u128(id).hyphenated().to_string()
}

/// The name of the log stream that holds one entity's events: a fixed
/// prefix followed by the entity identifier in UUID text form.
pub fn stream_name(prefix: &str, aggregate_id: u128) -> (s: String)
    ensures
        s@ == prefix@ + uuid_str_of(aggregate_id),
{
    let mut s = prefix.to_owned();
    let id = uuid_hyphenated(aggregate_id);
    s.append(id.as_str());
    s
}

/// The JSON text of one event payload, as the wire contract records it:
/// the variant name tagging an object with the decimal population field.
pub open spec fn sp_payload_json(p: PlanetEventData) -> Seq<char> {
    match p {
        PlanetEventData::PopulationCreate { pop } => "{\"PopulationCreate\":{\"pop\":"@
            + sp_dec_u64(pop as nat) + "}}"@,
        PlanetEventData::PopulationIncrease { pop } => "{\"PopulationIncrease\":{\"pop\":"@
            + sp_dec_u64(pop as nat) + "}}"@,
        PlanetEventData::PopulationDecrease { pop } => "{\"PopulationDecrease\":{\"pop\":"@
            + sp_dec_u64(pop as nat) + "}}"@,
    }
}

/// Render one event payload as JSON.
pub fn payload_to_json(p: &PlanetEventData) -> (s: String)
    ensures
        s@ == sp_payload_json(*p),
{
    match p {
        PlanetEventData::PopulationCreate { pop } => {
            let mut s = "{\"PopulationCreate\":{\"pop\":".to_owned();
            let digits = u64_to_dec(*pop);
            s.append(digits.as_str());
            s.append("}}");
            proof {
                assert(s@ =~= sp_payload_json(*p));
            }
            s
        },
        PlanetEventData::PopulationIncrease { pop } => {
            let mut s = "{\"PopulationIncrease\":{\"pop\":".to_owned();
            let digits = u64_to_dec(*pop);
            s.append(digits.as_str());
            s.append("}}");
            proof {
                assert(s@ =~= sp_payload_json(*p));
            }
            s
        },
        PlanetEventData::PopulationDecrease { pop } => {
            let mut s = "{\"PopulationDecrease\":{\"pop\":".to_owned();
            let digits = u64_to_dec(*pop);
            s.append(digits.as_str());
            s.append("}}");
            proof {
                assert(s@ =~= sp_payload_json(*p));
            }
            s
        },
    }
}

/// The JSON text of one Metadata value, as the wire contract records it:
/// the four identifiers in UUID text form.
pub open spec fn sp_metadata_json(m: Metadata) -> Seq<char> {
    "{\"id\":\""@ + uuid_str_of(m.id) + "\",\"aggregate_id\":\""@ + uuid_str_of(m.aggregate_id)
        + "\",\"correlation_id\":\""@ + uuid_str_of(m.correlation_id) + "\",\"causality_id\":\""@
        + uuid_str_of(m.causality_id) + "\"}"@
}

/// Render one Metadata value as JSON.
pub fn metadata_to_json(m: &Metadata) -> (s: String)
    ensures
        s@ == sp_metadata_json(*m),
{
    let mut s = "{\"id\":\"".to_owned();
    let id = uuid_hyphenated(m.id);
    s.append(id.as_str());
    s.append("\",\"aggregate_id\":\"");
    let aggregate = uuid_hyphenated(m.aggregate_id);
    s.append(aggregate.as_str());
    s.append("\",\"correlation_id\":\"");
    let correlation = uuid_hyphenated(m.correlation_id);
    s.append(correlation.as_str());
    s.append("\",\"causality_id\":\"");
    let causality = uuid_hyphenated(m.causality_id);
    s.append(causality.as_str());
    s.append("\"}");
    proof {
        assert(s@ =~= sp_metadata_json(*m));
    }
    s
}

} // verus!
