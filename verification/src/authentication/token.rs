//! Secret tokens: 32 random bytes, encoded as URL-safe base64 without padding.
use base64::prelude::BASE64_URL_SAFE_NO_PAD;
use base64::Engine;
use rand::RngCore;
use vstd::prelude::*;

verus! {

/// The number of random bytes in a token.
pub const TOKEN_BYTES: usize = 32;

/// The length of a token's text: 32 bytes take 43 characters of base64 without
/// padding.
pub const TOKEN_LENGTH: usize = 43;

/// The character of the URL-safe base64 alphabet (RFC 4648, section 5) that
/// stands for the 6-bit value `n`: `A`-`Z`, `a`-`z`, `0`-`9`, `-`, `_`.
pub open spec fn url_safe_base64_digit(n: int) -> char {
    if n < 26 {
        (65 + n) as char
    } else if n < 52 {
        (71 + n) as char
    } else if n < 62 {
        (n - 4) as char
    } else if n == 62 {
        '-'
    } else {
        '_'
    }
}

/// The URL-safe base64 text of `bytes` without padding: each group of three
/// bytes, read as 24 bits, gives four digits of six bits each; a last group of
/// one or two bytes gives two or three digits, its missing bits taken as zero.
pub open spec fn base64_url_safe_no_pad(bytes: Seq<u8>) -> Seq<char>
    decreases bytes.len(),
{
    if bytes.len() == 0 {
        seq![]
    } else if bytes.len() == 1 {
        seq![url_safe_base64_digit((bytes[0] as int) / 4), url_safe_base64_digit(((bytes[0] as int) % 4) * 16)]
    } else if bytes.len() == 2 {
        seq![
            url_safe_base64_digit((bytes[0] as int) / 4),
            url_safe_base64_digit(((bytes[0] as int) % 4) * 16 + (bytes[1] as int) / 16),
            url_safe_base64_digit(((bytes[1] as int) % 16) * 4),
        ]
    } else {
        seq![
            url_safe_base64_digit((bytes[0] as int) / 4),
            url_safe_base64_digit(((bytes[0] as int) % 4) * 16 + (bytes[1] as int) / 16),
            url_safe_base64_digit(((bytes[1] as int) % 16) * 4 + (bytes[2] as int) / 64),
            url_safe_base64_digit((bytes[2] as int) % 64),
        ] + base64_url_safe_no_pad(bytes.skip(3))
    }
}

/// The length of the unpadded base64 text of `n` bytes: four characters for
/// each whole group of three bytes, and two or three for a last partial group.
pub open spec fn unpadded_base64_len(n: nat) -> nat {
    (n / 3) * 4 + if n % 3 == 0 {
        0nat
    } else if n % 3 == 1 {
        2nat
    } else {
        3nat
    }
}

/// A character of the URL-safe base64 alphabet.
pub open spec fn is_url_safe_base64_char(c: char) -> bool {
    ('A' <= c && c <= 'Z') || ('a' <= c && c <= 'z') || ('0' <= c && c <= '9') || c == '-' || c == '_'
}

proof fn lemma_digit_is_url_safe(n: int)
    requires
        0 <= n < 64,
    ensures
        is_url_safe_base64_char(url_safe_base64_digit(n)),
{
}

/// The unpadded base64 text of `n` bytes has `unpadded_base64_len(n)`
/// characters, all of the URL-safe alphabet.
pub proof fn lemma_base64_shape(bytes: Seq<u8>)
    ensures
        base64_url_safe_no_pad(bytes).len() == unpadded_base64_len(bytes.len()),
        forall|i: int| 0 <= i < base64_url_safe_no_pad(bytes).len() ==> is_url_safe_base64_char(
            #[trigger] base64_url_safe_no_pad(bytes)[i],
        ),
    decreases bytes.len(),
{
    let text = base64_url_safe_no_pad(bytes);
    if bytes.len() == 0 {
    } else if bytes.len() == 1 {
        lemma_digit_is_url_safe((bytes[0] as int) / 4);
        lemma_digit_is_url_safe(((bytes[0] as int) % 4) * 16);
    } else if bytes.len() == 2 {
        lemma_digit_is_url_safe((bytes[0] as int) / 4);
        lemma_digit_is_url_safe(((bytes[0] as int) % 4) * 16 + (bytes[1] as int) / 16);
        lemma_digit_is_url_safe(((bytes[1] as int) % 16) * 4);
    } else {
        let rest = bytes.skip(3);
        lemma_base64_shape(rest);
        lemma_digit_is_url_safe((bytes[0] as int) / 4);
        lemma_digit_is_url_safe(((bytes[0] as int) % 4) * 16 + (bytes[1] as int) / 16);
        lemma_digit_is_url_safe(((bytes[1] as int) % 16) * 4 + (bytes[2] as int) / 64);
        lemma_digit_is_url_safe((bytes[2] as int) % 64);
        let head = seq![
            url_safe_base64_digit((bytes[0] as int) / 4),
            url_safe_base64_digit(((bytes[0] as int) % 4) * 16 + (bytes[1] as int) / 16),
            url_safe_base64_digit(((bytes[1] as int) % 16) * 4 + (bytes[2] as int) / 64),
            url_safe_base64_digit((bytes[2] as int) % 64),
        ];
        assert(text == head + base64_url_safe_no_pad(rest));
        assert forall|i: int| 0 <= i < text.len() implies is_url_safe_base64_char(#[trigger] text[i]) by {
            if i >= 4 {
                assert(text[i] == base64_url_safe_no_pad(rest)[i - 4]);
            }
        }
    }
}

/// Encodes `bytes` with `BASE64_URL_SAFE_NO_PAD.encode` (crate `base64`).
/// Claimed: the text is the URL-safe base64 encoding of the bytes without
/// padding, as RFC 4648 defines it and as the engine is configured
/// (`alphabet::URL_SAFE`, `encode_padding` off). `encode` panics when the
/// encoded length overflows `usize`, which the bound on the input rules out.
#[verifier::external_body]
fn encode_url_safe_no_pad(bytes: &[u8]) -> (text: String)
    requires
        bytes@.len() <= usize::MAX / 2,
    ensures
        text@ == base64_url_safe_no_pad(bytes@),
{
    BASE64_URL_SAFE_NO_PAD.encode(bytes)
}

/// Fills 32 bytes from the thread-local generator of `rand` (`rand::rng()` and
/// `RngCore::fill_bytes`). Nothing is stated of them: they are random.
#[verifier::external_body]
fn random_token_bytes() -> (bytes: [u8; 32]) {
    let mut bytes = [0u8; 32];
    rand::rng().fill_bytes(&mut bytes);
    bytes
}

/// Whether `text` is the text of a token: the encoding of 32 bytes.
pub open spec fn is_token_text(text: Seq<char>) -> bool {
    &&& exists|bytes: Seq<u8>| bytes.len() == TOKEN_BYTES && text == #[trigger] base64_url_safe_no_pad(bytes)
    &&& text.len() == TOKEN_LENGTH
    &&& forall|i: int| 0 <= i < text.len() ==> is_url_safe_base64_char(#[trigger] text[i])
}

/// A secret token.
#[derive(Debug, Clone)]
pub struct Token {
    value: String,
}

impl View for Token {
    type V = Seq<char>;

    closed spec fn view(&self) -> Seq<char> {
        self.value@
    }
}

impl Token {
    /// A fresh token: 32 random bytes, encoded as URL-safe base64 without
    /// padding (43 characters).
    pub fn new() -> (token: Self)
        ensures
            is_token_text(token@),
    {
        let bytes = random_token_bytes();
        Token::from_random_bytes(&bytes)
    }

    /// The token made of 32 given bytes: their URL-safe base64 text without
    /// padding.
    pub fn from_random_bytes(bytes: &[u8; 32]) -> (token: Self)
        ensures
            token@ == base64_url_safe_no_pad(bytes@),
            is_token_text(token@),
    {
        let value = encode_url_safe_no_pad(bytes);
        proof {
            lemma_base64_shape(bytes@);
        }
        assert(bytes@.len() == TOKEN_BYTES);
        Self { value }
    }

    /// A token with the given text, as read back from storage.
    pub fn from_string(value: String) -> (token: Self)
        ensures
            token@ == value@,
    {
        Self { value }
    }

    /// The text of the token.
    pub fn to_string(&self) -> (text: String)
        ensures
            text@ == self@,
    {
        self.value.clone()
    }

    /// The text of the token, giving up the token.
    pub fn into_string(self) -> (text: String)
        ensures
            text@ == self@,
    {
        self.value
    }
}

/// The text of a token never needs escaping in a URL or a header: it is made
/// of letters, digits, `-` and `_` only, and it always has the same length.
pub proof fn lemma_token_text_is_url_safe(text: Seq<char>)
    requires
        is_token_text(text),
    ensures
        text.len() == 43,
        forall|i: int| 0 <= i < text.len() ==> #[trigger] text[i] != '/' && text[i] != '+' && text[i] != '='
            && text[i] != ' ',
{
    assert forall|i: int| 0 <= i < text.len() implies #[trigger] text[i] != '/' && text[i] != '+' && text[i]
        != '=' && text[i] != ' ' by {
        assert(is_url_safe_base64_char(text[i]));
    }
}

} // verus!
