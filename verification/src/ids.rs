//! Identifiers: the textual form of a UUID and its parsing, as the `uuid` crate
//! defines them, over the sixteen bytes of the identifier.
use vstd::prelude::*;

verus! {

/// The sixteen bytes of a UUID, most significant first (as `uuid::Uuid::as_bytes`).
pub type UuidBytes = [u8; 16];

/// Lower-case hexadecimal digit of a nibble `n < 16`.
pub open spec fn hex_digit(n: int) -> char {
    if n < 10 {
        (48 + n) as char
    } else {
        (87 + n) as char
    }
}

/// Positions of the four hyphens of the hyphenated form (8-4-4-4-12 digits).
pub open spec fn is_hyphen_position(i: int) -> bool {
    i == 8 || i == 13 || i == 18 || i == 23
}

/// How many hyphens precede position `i` of the hyphenated form.
pub open spec fn hyphens_before(i: int) -> int {
    if i < 8 {
        0
    } else if i < 13 {
        1
    } else if i < 18 {
        2
    } else if i < 23 {
        3
    } else {
        4
    }
}

/// Character `i` (`0 <= i < 36`) of the hyphenated form of `b`.
pub open spec fn uuid_char(b: Seq<u8>, i: int) -> char {
    if is_hyphen_position(i) {
        '-'
    } else {
        let j = i - hyphens_before(i);
        let byte = b[j / 2];
        if j % 2 == 0 {
            hex_digit(byte as int / 16)
        } else {
            hex_digit(byte as int % 16)
        }
    }
}

/// The hyphenated lower-case form of a UUID, such as
/// `67e55044-10b1-426f-9247-bb680e5fe0c8`: what `Uuid`'s `Display` writes.
pub open spec fn uuid_text(b: Seq<u8>) -> Seq<char> {
    Seq::new(36, |i: int| uuid_char(b, i))
}

/// Position in the hyphenated form of the high digit of byte `k`.
pub open spec fn digit_position(k: int) -> int {
    let hyphens: int = if k < 4 {
        0
    } else if k < 6 {
        1
    } else if k < 8 {
        2
    } else if k < 10 {
        3
    } else {
        4
    };
    2 * k + hyphens
}

proof fn lemma_hex_digit_injective(x: int, y: int)
    requires
        0 <= x < 16,
        0 <= y < 16,
        hex_digit(x) == hex_digit(y),
    ensures
        x == y,
{
    assert(hex_digit(x) as int == if x < 10 { 48 + x } else { 87 + x });
    assert(hex_digit(y) as int == if y < 10 { 48 + y } else { 87 + y });
}

/// Two identifiers with the same hyphenated form are the same identifier.
pub proof fn lemma_uuid_text_injective(a: Seq<u8>, b: Seq<u8>)
    requires
        a.len() == 16,
        b.len() == 16,
        uuid_text(a) == uuid_text(b),
    ensures
        a == b,
{
    assert forall|k: int| 0 <= k < 16 implies a[k] == b[k] by {
        let p = digit_position(k);
        assert(uuid_text(a)[p] == uuid_char(a, p) && uuid_text(b)[p] == uuid_char(b, p));
        assert(uuid_text(a)[p + 1] == uuid_char(a, p + 1) && uuid_text(b)[p + 1] == uuid_char(b, p + 1));
        assert(uuid_char(a, p) == hex_digit(a[k] as int / 16));
        assert(uuid_char(b, p) == hex_digit(b[k] as int / 16));
        assert(uuid_char(a, p + 1) == hex_digit(a[k] as int % 16));
        assert(uuid_char(b, p + 1) == hex_digit(b[k] as int % 16));
        lemma_hex_digit_injective(a[k] as int / 16, b[k] as int / 16);
        lemma_hex_digit_injective(a[k] as int % 16, b[k] as int % 16);
    }
    assert(a =~= b);
}

/// What `Uuid::parse_str` gives for inputs other than a lower-case hyphenated
/// form (upper-case digits, the simple, braced and URN forms, and rejections).
pub uninterp spec fn uuid_parse_other(s: Seq<char>) -> Option<Seq<u8>>;

/// What `Uuid::parse_str` (and `Uuid::from_str`) gives for `s`: on a lower-case
/// hyphenated form, the identifier it writes.
pub open spec fn uuid_parse(s: Seq<char>) -> Option<Seq<u8>> {
    if exists|b: Seq<u8>| b.len() == 16 && uuid_text(b) == s {
        Some(choose|b: Seq<u8>| b.len() == 16 && uuid_text(b) == s)
    } else {
        uuid_parse_other(s)
    }
}

/// Parsing the hyphenated form of an identifier gives the identifier back.
pub proof fn lemma_uuid_parse_text(b: Seq<u8>)
    requires
        b.len() == 16,
    ensures
        uuid_parse(uuid_text(b)) == Some(b),
{
    let s = uuid_text(b);
    assert(b.len() == 16 && uuid_text(b) == s);
    let c = choose|c: Seq<u8>| c.len() == 16 && uuid_text(c) == s;
    lemma_uuid_text_injective(b, c);
}

/// `uuid::Uuid::to_string`: the hyphenated lower-case form of the identifier
/// (`Display` delegates to `LowerHex`, which writes `as_hyphenated`).
#[verifier::external_body]
pub(crate) fn uuid_to_text(id: UuidBytes) -> (res: String)
    ensures
        res@ == uuid_text(id@),
{
    uuid::Uuid::from_bytes(id).to_string()
}

/// `uuid::Uuid::parse_str` (what `Uuid::from_str` calls): on the lower-case
/// hyphenated form of an identifier it gives that identifier; on other inputs
/// its result is named by `uuid_parse_other`.
#[verifier::external_body]
pub(crate) fn uuid_from_text(s: &str) -> (res: Option<UuidBytes>)
    ensures
        match res {
            Some(r) => (exists|b: Seq<u8>| b.len() == 16 && uuid_text(b) == s@) ==> r@ == (choose|b: Seq<u8>|
                b.len() == 16 && uuid_text(b) == s@),
            None => !(exists|b: Seq<u8>| b.len() == 16 && uuid_text(b) == s@),
        },
        !(exists|b: Seq<u8>| b.len() == 16 && uuid_text(b) == s@) ==> match res {
            Some(b) => uuid_parse_other(s@) == Some(b@),
            None => uuid_parse_other(s@) is None,
        },
{
    match uuid::Uuid::parse_str(s) {
        Ok(id) => Some(*id.as_bytes()),
        Err(_) => None,
    }
}

/// Decimal form of a natural number, as `Display` writes it.
pub open spec fn decimal(n: nat) -> Seq<char>
    decreases n,
{
    if n < 10 {
        seq![(48 + n) as char]
    } else {
        decimal(n / 10).push((48 + n % 10) as char)
    }
}

/// Message of the error that `Uuid::from_slice` gives for a slice of `len` bytes.
pub open spec fn uuid_length_error(len: nat) -> Seq<char> {
    "invalid length: expected 16 bytes, found "@ + decimal(len)
}

/// `uuid::Uuid::from_slice` (what `Uuid::try_from(Vec<u8>)` calls): a slice of
/// exactly sixteen bytes is the identifier with those bytes; any other length
/// is refused with the message `uuid_length_error(len)`.
#[verifier::external_body]
pub(crate) fn uuid_from_slice(v: &[u8]) -> (res: Result<UuidBytes, String>)
    ensures
        match res {
            Ok(b) => v@.len() == 16 && b@ == v@,
            Err(m) => v@.len() != 16 && m@ == uuid_length_error(v@.len()),
        },
{
    match uuid::Uuid::from_slice(v) {
        Ok(id) => Ok(*id.as_bytes()),
        Err(e) => Err(e.to_string()),
    }
}

/// Symbol of the base64url alphabet for a sextet `v < 64`.
pub open spec fn base64url_symbol(v: int) -> char {
    if v < 26 {
        (65 + v) as char
    } else if v < 52 {
        (71 + v) as char
    } else if v < 62 {
        (v - 4) as char
    } else if v == 62 {
        '-'
    } else {
        '_'
    }
}

/// Padded base64url encoding (RFC 4648, section 5) of a byte sequence.
pub open spec fn base64url(s: Seq<u8>) -> Seq<char>
    decreases s.len(),
{
    if s.len() == 0 {
        seq![]
    } else if s.len() == 1 {
        let a = s[0] as int;
        seq![base64url_symbol(a / 4), base64url_symbol((a % 4) * 16), '=', '=']
    } else if s.len() == 2 {
        let a = s[0] as int;
        let b = s[1] as int;
        seq![
            base64url_symbol(a / 4),
            base64url_symbol((a % 4) * 16 + b / 16),
            base64url_symbol((b % 16) * 4),
            '=',
        ]
    } else {
        let a = s[0] as int;
        let b = s[1] as int;
        let c = s[2] as int;
        seq![
            base64url_symbol(a / 4),
            base64url_symbol((a % 4) * 16 + b / 16),
            base64url_symbol((b % 16) * 4 + c / 64),
            base64url_symbol(c % 64),
        ] + base64url(s.subrange(3, s.len() as int))
    }
}

/// What `data_encoding::BASE64URL.decode` gives for the bytes of `s`: the
/// decoded bytes, or the `Display` text of the `DecodeError`.
pub uninterp spec fn base64url_decode(s: Seq<char>) -> Result<Seq<u8>, Seq<char>>;

/// `data_encoding::BASE64URL.encode`: the padded base64url encoding of the bytes.
#[verifier::external_body]
pub(crate) fn base64url_encode(bytes: &[u8]) -> (res: String)
    ensures
        res@ == base64url(bytes@),
{
    data_encoding::BASE64URL.encode(bytes)
}

/// `data_encoding::BASE64URL.decode` on the bytes of `s`: its result is named by
/// `base64url_decode`; the encoding of any byte sequence decodes to that sequence
/// (the encoding conforms to RFC 4648 and checks trailing bits and padding).
#[verifier::external_body]
pub(crate) fn base64url_decode_text(s: &str) -> (res: Result<Vec<u8>, String>)
    ensures
        match res {
            Ok(v) => base64url_decode(s@) == Ok::<Seq<u8>, Seq<char>>(v@),
            Err(m) => base64url_decode(s@) == Err::<Seq<u8>, Seq<char>>(m@),
        },
        forall|b: Seq<u8>| s@ == base64url(b) ==> res is Ok && res->Ok_0@ == b,
{
    match data_encoding::BASE64URL.decode(s.as_bytes()) {
        Ok(v) => Ok(v),
        Err(e) => Err(e.to_string()),
    }
}

} // verus!
