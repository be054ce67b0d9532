//! Identifiers and their text form.
//!
//! Every identifier of the API is a UUID, held here as the `u128` whose
//! big-endian bytes are the UUID's bytes.
use vstd::prelude::*;

verus! {

/// The lowercase hexadecimal digit of a value below 16.
pub open spec fn hex_digit(n: int) -> char {
    if n < 10 {
        (n + 48) as char
    } else {
        (n + 87) as char
    }
}

/// The `i`-th hexadecimal digit of `id`, counting from the most significant one.
pub open spec fn nibble(id: u128, i: int) -> int {
    ((id >> ((4 * (31 - i)) as u128)) & 0xf) as int
}

/// The 32 lowercase hexadecimal digits of `id`, most significant first.
pub open spec fn uuid_hex(id: u128) -> Seq<char> {
    Seq::new(32, |i: int| hex_digit(nibble(id, i)))
}

/// The hyphenated lowercase text of a UUID: 8-4-4-4-12 hexadecimal digits.
pub open spec fn uuid_text(id: u128) -> Seq<char> {
    let h = uuid_hex(id);
    h.subrange(0, 8) + "-"@ + h.subrange(8, 12) + "-"@ + h.subrange(12, 16) + "-"@ + h.subrange(
        16,
        20,
    ) + "-"@ + h.subrange(20, 32)
}

/// A character that a UUID's text may hold: a lowercase hexadecimal digit or a hyphen.
pub open spec fn is_uuid_char(c: char) -> bool {
    ('0' <= c <= '9') || ('a' <= c <= 'f') || c == '-'
}

/// `uuid::Uuid::from_u128(id).to_string()`: the uuid crate writes a UUID's
/// `Display` as its hyphenated lowercase form (8-4-4-4-12 hexadecimal digits of
/// its big-endian bytes). The claim is that the text equals `uuid_text(id)`.
#[verifier::external_body]
pub(crate) fn uuid_string(id: u128) -> (s: String)
    ensures
        s@ == uuid_text(id),
{
    uuid::Uuid::from_u128(id).to_string()
}

/// What `uuid::Uuid::parse_str` gives for a text: the UUID's 128-bit value,
/// or the message of the parse error.
pub uninterp spec fn uuid_parse(text: Seq<char>) -> Result<u128, Seq<char>>;

/// The mathematical model of a parse result.
pub open spec fn parsed_view(r: Result<u128, String>) -> Result<u128, Seq<char>> {
    match r {
        Ok(v) => Ok(v),
        Err(e) => Err(e@),
    }
}

/// `uuid::Uuid::parse_str` (uuid 1.x), the UUID taken as its `u128` value and the
/// error written with `to_string`. The claim is that the outcome is `uuid_parse(text)`.
#[verifier::external_body]
pub(crate) fn parse_uuid(text: &str) -> (r: Result<u128, String>)
    ensures
        parsed_view(r) == uuid_parse(text@),
{
    match uuid::Uuid::parse_str(text) {
        Ok(u) => Ok(u.as_u128()),
        Err(e) => Err(e.to_string()),
    }
}

/// The text of a UUID is 36 characters long and holds only hexadecimal digits and hyphens.
pub proof fn lemma_uuid_text_shape(id: u128)
    ensures
        uuid_text(id).len() == 36,
        forall|i: int| 0 <= i < 36 ==> is_uuid_char(#[trigger] uuid_text(id)[i]),
{
    reveal_strlit("-");
    let h = uuid_hex(id);
    assert forall|i: int| 0 <= i < 32 implies is_uuid_char(#[trigger] h[i]) by {
        let n = nibble(id, i);
        assert(0 <= n < 16) by {
            let sh = (4 * (31 - i)) as u128;
            assert((id >> sh) & 0xf <= 0xf) by (bit_vector);
        }
    }
    let t = uuid_text(id);
    assert forall|i: int| 0 <= i < 36 implies is_uuid_char(#[trigger] t[i]) by {
        if i < 8 {
            assert(t[i] == h[i]);
        } else if i == 8 {
        } else if i < 13 {
            assert(t[i] == h[i - 1]);
        } else if i == 13 {
        } else if i < 18 {
            assert(t[i] == h[i - 2]);
        } else if i == 18 {
        } else if i < 23 {
            assert(t[i] == h[i - 3]);
        } else if i == 23 {
        } else {
            assert(t[i] == h[i - 4]);
        }
    }
}

/// The identifiers of `ids` other than `user`, in order: those told of what
/// `user` did (rung for a call, notified of a mention, sent an unread count).
pub open spec fn others(ids: Seq<u128>, user: u128) -> Seq<u128> {
    ids.filter(|p: u128| p != user)
}

/// The identifiers of `ids` other than `user`, in order.
pub fn others_than(ids: &Vec<u128>, user: u128) -> (v: Vec<u128>)
    ensures
        v@ == others(ids@, user),
{
    let mut v: Vec<u128> = Vec::new();
    let mut i: usize = 0;
    while i < ids.len()
        invariant
            i <= ids.len(),
            v@ == others(ids@.take(i as int), user),
        decreases ids.len() - i,
    {
        proof {
            reveal(Seq::filter);
            assert(ids@.take(i + 1).drop_last() == ids@.take(i as int));
        }
        if ids[i] != user {
            v.push(ids[i]);
        }
        i = i + 1;
    }
    proof {
        assert(ids@.take(ids@.len() as int) == ids@);
    }
    v
}

/// An identifier is among `others(ids, user)` exactly when it is in `ids` and is not `user`.
pub proof fn lemma_others_contains(ids: Seq<u128>, user: u128, x: u128)
    ensures
        others(ids, user).contains(x) <==> (ids.contains(x) && x != user),
    decreases ids.len(),
{
    reveal(Seq::filter);
    if ids.len() > 0 {
        let init = ids.drop_last();
        let last = ids.last();
        lemma_others_contains(init, user, x);
        let o = others(init, user);
        if ids.contains(x) && x != user {
            let i = choose|i: int| 0 <= i < ids.len() && ids[i] == x;
            if i < ids.len() - 1 {
                assert(init[i] == x);
                let j = choose|j: int| 0 <= j < o.len() && o[j] == x;
                if last != user {
                    assert(o.push(last)[j] == x);
                }
            } else {
                assert(o.push(last)[o.len() as int] == x);
            }
        }
        if others(ids, user).contains(x) {
            let j = choose|j: int|
                0 <= j < others(ids, user).len() && others(ids, user)[j] == x;
            if last != user && j == o.len() {
                assert(ids[ids.len() - 1] == x);
            } else {
                assert(o[j] == x);
                let i = choose|i: int| 0 <= i < init.len() && init[i] == x;
                assert(ids[i] == x);
            }
        }
    }
}

proof fn lemma_hex_digit_injective(n: int, m: int)
    requires
        0 <= n < 16,
        0 <= m < 16,
        hex_digit(n) == hex_digit(m),
    ensures
        n == m,
{
    assert((hex_digit(n) as int) == (if n < 10 { n + 48 } else { n + 87 }));
    assert((hex_digit(m) as int) == (if m < 10 { m + 48 } else { m + 87 }));
}

proof fn lemma_nibble_range(id: u128, i: int)
    requires
        0 <= i < 32,
    ensures
        0 <= nibble(id, i) < 16,
{
    let sh = (4 * (31 - i)) as u128;
    assert((id >> sh) & 0xf <= 0xf) by (bit_vector);
}

proof fn lemma_same_nibbles(a: u128, b: u128)
    requires
        forall|i: int| 0 <= i < 32 ==> nibble(a, i) == nibble(b, i),
    ensures
        a == b,
{
    assert(nibble(a, 0) == nibble(b, 0));
    assert(nibble(a, 1) == nibble(b, 1));
    assert(nibble(a, 2) == nibble(b, 2));
    assert(nibble(a, 3) == nibble(b, 3));
    assert(nibble(a, 4) == nibble(b, 4));
    assert(nibble(a, 5) == nibble(b, 5));
    assert(nibble(a, 6) == nibble(b, 6));
    assert(nibble(a, 7) == nibble(b, 7));
    assert(nibble(a, 8) == nibble(b, 8));
    assert(nibble(a, 9) == nibble(b, 9));
    assert(nibble(a, 10) == nibble(b, 10));
    assert(nibble(a, 11) == nibble(b, 11));
    assert(nibble(a, 12) == nibble(b, 12));
    assert(nibble(a, 13) == nibble(b, 13));
    assert(nibble(a, 14) == nibble(b, 14));
    assert(nibble(a, 15) == nibble(b, 15));
    assert(nibble(a, 16) == nibble(b, 16));
    assert(nibble(a, 17) == nibble(b, 17));
    assert(nibble(a, 18) == nibble(b, 18));
    assert(nibble(a, 19) == nibble(b, 19));
    assert(nibble(a, 20) == nibble(b, 20));
    assert(nibble(a, 21) == nibble(b, 21));
    assert(nibble(a, 22) == nibble(b, 22));
    assert(nibble(a, 23) == nibble(b, 23));
    assert(nibble(a, 24) == nibble(b, 24));
    assert(nibble(a, 25) == nibble(b, 25));
    assert(nibble(a, 26) == nibble(b, 26));
    assert(nibble(a, 27) == nibble(b, 27));
    assert(nibble(a, 28) == nibble(b, 28));
    assert(nibble(a, 29) == nibble(b, 29));
    assert(nibble(a, 30) == nibble(b, 30));
    assert(nibble(a, 31) == nibble(b, 31));
    assert(a == b) by (bit_vector)
        requires
            (a >> 124u128) & 0xf == (b >> 124u128) & 0xf,
            (a >> 120u128) & 0xf == (b >> 120u128) & 0xf,
            (a >> 116u128) & 0xf == (b >> 116u128) & 0xf,
            (a >> 112u128) & 0xf == (b >> 112u128) & 0xf,
            (a >> 108u128) & 0xf == (b >> 108u128) & 0xf,
            (a >> 104u128) & 0xf == (b >> 104u128) & 0xf,
            (a >> 100u128) & 0xf == (b >> 100u128) & 0xf,
            (a >> 96u128) & 0xf == (b >> 96u128) & 0xf,
            (a >> 92u128) & 0xf == (b >> 92u128) & 0xf,
            (a >> 88u128) & 0xf == (b >> 88u128) & 0xf,
            (a >> 84u128) & 0xf == (b >> 84u128) & 0xf,
            (a >> 80u128) & 0xf == (b >> 80u128) & 0xf,
            (a >> 76u128) & 0xf == (b >> 76u128) & 0xf,
            (a >> 72u128) & 0xf == (b >> 72u128) & 0xf,
            (a >> 68u128) & 0xf == (b >> 68u128) & 0xf,
            (a >> 64u128) & 0xf == (b >> 64u128) & 0xf,
            (a >> 60u128) & 0xf == (b >> 60u128) & 0xf,
            (a >> 56u128) & 0xf == (b >> 56u128) & 0xf,
            (a >> 52u128) & 0xf == (b >> 52u128) & 0xf,
            (a >> 48u128) & 0xf == (b >> 48u128) & 0xf,
            (a >> 44u128) & 0xf == (b >> 44u128) & 0xf,
            (a >> 40u128) & 0xf == (b >> 40u128) & 0xf,
            (a >> 36u128) & 0xf == (b >> 36u128) & 0xf,
            (a >> 32u128) & 0xf == (b >> 32u128) & 0xf,
            (a >> 28u128) & 0xf == (b >> 28u128) & 0xf,
            (a >> 24u128) & 0xf == (b >> 24u128) & 0xf,
            (a >> 20u128) & 0xf == (b >> 20u128) & 0xf,
            (a >> 16u128) & 0xf == (b >> 16u128) & 0xf,
            (a >> 12u128) & 0xf == (b >> 12u128) & 0xf,
            (a >> 8u128) & 0xf == (b >> 8u128) & 0xf,
            (a >> 4u128) & 0xf == (b >> 4u128) & 0xf,
            (a >> 0u128) & 0xf == (b >> 0u128) & 0xf,
    ;
}

/// Different identifiers have different texts.
pub proof fn lemma_uuid_text_injective(a: u128, b: u128)
    requires
        uuid_text(a) == uuid_text(b),
    ensures
        a == b,
{
    reveal_strlit("-");
    let ha = uuid_hex(a);
    let hb = uuid_hex(b);
    let ta = uuid_text(a);
    let tb = uuid_text(b);
    assert forall|i: int| 0 <= i < 32 implies ha[i] == hb[i] by {
        if i < 8 {
            assert(ta[i] == ha[i] && tb[i] == hb[i]);
        } else if i < 12 {
            assert(ta[i + 1] == ha[i] && tb[i + 1] == hb[i]);
        } else if i < 16 {
            assert(ta[i + 2] == ha[i] && tb[i + 2] == hb[i]);
        } else if i < 20 {
            assert(ta[i + 3] == ha[i] && tb[i + 3] == hb[i]);
        } else {
            assert(ta[i + 4] == ha[i] && tb[i + 4] == hb[i]);
        }
    }
    assert forall|i: int| 0 <= i < 32 implies nibble(a, i) == nibble(b, i) by {
        assert(ha[i] == hb[i]);
        lemma_nibble_range(a, i);
        lemma_nibble_range(b, i);
        lemma_hex_digit_injective(nibble(a, i), nibble(b, i));
    }
    lemma_same_nibbles(a, b);
}

} // verus!
