use vstd::prelude::*;
use crate::hex::lower_hex_digit;

verus! {

/// The longest identity text the device reads back from its store.
pub const MAX_STR_LEN: usize = 128;

/// The last `n` lowercase hexadecimal digits of `v`, most significant first.
pub open spec fn lower_hex_digits(v: nat, n: nat) -> Seq<char>
    decreases n,
{
    if n == 0 {
        Seq::empty()
    } else {
        lower_hex_digits(v / 16, (n - 1) as nat).push(lower_hex_digit((v % 16) as int))
    }
}

/// The hyphenated lowercase text of the UUID whose big-endian value is
/// `id`: 32 hexadecimal digits grouped 8-4-4-4-12.
pub open spec fn uuid_text_spec(id: u128) -> Seq<char> {
    let h = lower_hex_digits(id as nat, 32);
    h.subrange(0, 8) + seq!['-'] + h.subrange(8, 12) + seq!['-'] + h.subrange(12, 16) + seq!['-']
        + h.subrange(16, 20) + seq!['-'] + h.subrange(20, 32)
}

/// What `uuid::Uuid::parse_str` makes of a text: the UUID's big-endian value,
/// or nothing where it fails.
pub uninterp spec fn uuid_parse(text: Seq<char>) -> Option<u128>;

/// `uuid::Uuid::parse_str`, the result given as its `as_u128` value.  The
/// result is named by `uuid_parse`.  Stated besides, from the crate's
/// documentation ("any of the formats generated by this module ... are
/// supported"): the hyphenated text that `Display` writes for a UUID parses
/// back to that UUID.  The other formats it accepts are not stated.
#[verifier::external_body]
pub(crate) fn parse_uuid(text: &str) -> (r: Option<u128>)
    ensures
        r == uuid_parse(text@),
        forall|id: u128| #[trigger] uuid_text_spec(id) == text@ ==> r == Some(id),
{
    match uuid::Uuid::parse_str(text) {
        Ok(u) => Some(u.as_u128()),
        Err(_) => None,
    }
}

/// `Uuid::from_u128(id).to_string()`: `Display` of a UUID writes the
/// hyphenated lowercase form (`format_hyphenated` with lowercase digits over
/// the big-endian bytes); the contract states exactly that.
#[verifier::external_body]
pub(crate) fn uuid_text(id: u128) -> (r: String)
    ensures
        r@ == uuid_text_spec(id),
{
    uuid::Uuid::from_u128(id).to_string()
}

/// `Uuid::new_v4().as_u128()`: a random UUID.  The `uuid` crate masks a random
/// value so that the version nibble is 4 and the variant bits are `10`; the
/// contract states only those bits, the rest is chance.
#[verifier::external_body]
pub(crate) fn new_uuid() -> (r: u128)
    ensures
        (r >> 76u128) & 0xfu128 == 4,
        (r >> 62u128) & 0x3u128 == 2,
{
    uuid::Uuid::new_v4().as_u128()
}

/// How long the stored identity text is, from what the store reports:
/// `None` where the store could not be asked, `Some(None)` where it holds no
/// text.  A missing text, or one of `MAX_STR_LEN` bytes or more, counts as
/// length 0, so that a new identity is made.
pub open spec fn stored_len_spec(lookup: Option<Option<usize>>) -> usize {
    match lookup {
        None => 0,
        Some(None) => 0,
        Some(Some(v)) => if v >= MAX_STR_LEN {
            0
        } else {
            v
        },
    }
}

/// The length of the stored identity text that the device will read.
pub fn stored_uuid_len(lookup: Option<Option<usize>>) -> (r: usize)
    ensures
        r == stored_len_spec(lookup),
        r < MAX_STR_LEN,
        match lookup {
            Some(Some(v)) => (v < 128 ==> r == v) && (v >= 128 ==> r == 0),
            _ => r == 0,
        },
{
    match lookup {
        None => 0,
        Some(v) => {
            let vv = match v {
                Some(n) => n,
                None => 0,
            };
            if vv >= MAX_STR_LEN {
                0
            } else {
                vv
            }
        },
    }
}

/// A new random identity and the text under which it is stored.
pub fn fresh_identity() -> (r: (u128, String))
    ensures
        r.1@ == uuid_text_spec(r.0),
        (r.0 >> 76u128) & 0xfu128 == 4,
        (r.0 >> 62u128) & 0x3u128 == 2,
{
    let id = new_uuid();
    let text = uuid_text(id);
    (id, text)
}

/// The identity stored under `text`, where it is a UUID, with the text the
/// device goes by from then on (the hyphenated lowercase form).
pub fn restore_identity(text: &str) -> (r: Option<(u128, String)>)
    ensures
        match r {
            Some((id, t)) => uuid_parse(text@) == Some(id) && t@ == uuid_text_spec(id),
            None => uuid_parse(text@) is None,
        },
        forall|id: u128| #[trigger] uuid_text_spec(id) == text@ ==> (r matches Some((i, _)) && i == id),
{
    match parse_uuid(text) {
        Some(id) => Some((id, uuid_text(id))),
        None => None,
    }
}

/// The digits part is as long as asked.
pub proof fn lemma_hex_digits_len(v: nat, n: nat)
    ensures
        lower_hex_digits(v, n).len() == n,
    decreases n,
{
    if n > 0 {
        lemma_hex_digits_len(v / 16, (n - 1) as nat);
    }
}

/// Every identity text is 36 characters long, so it is always short enough
/// to be read back from the store.
pub proof fn lemma_identity_text_fits(id: u128)
    ensures
        uuid_text_spec(id).len() == 36,
        uuid_text_spec(id).len() < MAX_STR_LEN,
{
    lemma_hex_digits_len(id as nat, 32);
}

} // verus!
