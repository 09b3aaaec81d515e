use vstd::prelude::*;
use vstd::utf8::{decode_utf8, valid_utf8};
use vstd::string::StringSliceAdditionalSpecFns;
use base64::DecodeError;
use std::str::Utf8Error;

verus! {

#[verifier::external_type_specification]
#[verifier::external_body]
pub struct ExDecodeError(base64::DecodeError);

#[verifier::external_type_specification]
#[verifier::external_body]
pub struct ExUtf8Error(std::str::Utf8Error);

/// A field that could not be decoded.
#[derive(Clone, Debug, PartialEq, Eq)]
pub enum ValueError {
    /// The field with this index is required and absent.
    NoValue(String),
    /// The field with this index holds a value that does not parse, for
    /// this cause.
    Parse(String, String, IntErrorKind),
}

/// A decoding error, with its texts as sequences of characters.
pub enum ValueErrorView {
    NoValue(Seq<char>),
    Parse(Seq<char>, Seq<char>, IntErrorKind),
}

impl View for ValueError {
    type V = ValueErrorView;

    open spec fn view(&self) -> ValueErrorView {
        match self {
            ValueError::NoValue(i) => ValueErrorView::NoValue(i@),
            ValueError::Parse(i, v, k) => ValueErrorView::Parse(i@, v@, *k),
        }
    }
}

/// The bytes that URL-safe base64 decodes the text to (padding may be
/// present or left out), or `None` where the text is no such encoding.
pub uninterp spec fn url_safe_base64_decoded(s: Seq<char>) -> Option<Seq<u8>>;

/// The text that percent-decoding the text and reading the bytes as UTF-8
/// gives, or `None` where those bytes are no UTF-8.
pub uninterp spec fn percent_decoded(s: Seq<char>) -> Option<Seq<char>>;

/// The text that reading bytes as UTF-8, replacing each invalid sequence by
/// U+FFFD, gives.
pub uninterp spec fn utf8_lossy(b: Seq<u8>) -> Seq<char>;

/// Relies on base64::decode_config with the URL_SAFE configuration: the
/// decoded bytes, or the decode error. It panics only where its length
/// arithmetic overflows: the input length plus 3, and plus 7 for the chunk
/// count (six bytes per chunk of eight then stays in range).
#[verifier::external_body]
fn decode_url_safe(encoded: &str) -> (r: Result<Vec<u8>, DecodeError>)
    requires
        encoded.spec_bytes().len() + 7 <= usize::MAX,
    ensures
        match r {
            Ok(b) => url_safe_base64_decoded(encoded@) == Some(b@),
            Err(_) => url_safe_base64_decoded(encoded@) is None,
        },
{
    base64::decode_config(encoded, base64::URL_SAFE)
}

/// Relies on percent_encoding::percent_decode followed by
/// PercentDecode::decode_utf8: the decoded text, or the UTF-8 error.
#[verifier::external_body]
fn percent_decode_utf8(encoded: &str) -> (r: Result<String, Utf8Error>)
    ensures
        match r {
            Ok(s) => percent_decoded(encoded@) == Some(s@),
            Err(_) => percent_decoded(encoded@) is None,
        },
{
    percent_encoding::percent_decode(encoded.as_bytes()).decode_utf8().map(|c| c.into_owned())
}

/// Relies on String::from_utf8_lossy: valid UTF-8 is decoded as it is.
#[verifier::external_body]
fn from_utf8_lossy(bytes: &Vec<u8>) -> (r: String)
    ensures
        r@ == utf8_lossy(bytes@),
        valid_utf8(bytes@) ==> r@ == decode_utf8(bytes@),
{
    String::from_utf8_lossy(bytes.as_slice()).into_owned()
}

/// The characters of the text, in order.
pub(crate) fn chars_of(s: &str) -> (r: Vec<char>)
    ensures
        r@ == s@,
{
    let mut out: Vec<char> = Vec::new();
    for c in it: s.chars()
        invariant
            out@ == it.history@,
    {
        out.push(c);
    }
    out
}

/// Relies on String's FromIterator<char>: the text of the characters.
#[verifier::external_body]
pub(crate) fn string_of(chars: &Vec<char>) -> (r: String)
    ensures
        r@ == chars@,
{
    chars.iter().collect()
}

/// Maps a value equal to the default (zero) to `None`.
pub fn default_to_none(value: u64) -> (r: Option<u64>)
    ensures
        r == (if value == 0 { None } else { Some(value) }),
{
    if value == 0 {
        None
    } else {
        Some(value)
    }
}

pub fn into_option<T>(value: T) -> (r: Option<T>)
    ensures
        r == Some(value),
{
    Some(value)
}

/// Percent-decodes a URL component and reads the result as UTF-8.
pub fn decode_url(encoded: &str) -> (r: Result<String, Utf8Error>)
    ensures
        match r {
            Ok(s) => percent_decoded(encoded@) == Some(s@),
            Err(_) => percent_decoded(encoded@) is None,
        },
{
    percent_decode_utf8(encoded)
}

/// Decodes URL-safe base64 to bytes.
pub fn b64_decode_bytes(encoded: &str) -> (r: Result<Vec<u8>, DecodeError>)
    requires
        encoded.spec_bytes().len() + 7 <= usize::MAX,
    ensures
        match r {
            Ok(b) => url_safe_base64_decoded(encoded@) == Some(b@),
            Err(_) => url_safe_base64_decoded(encoded@) is None,
        },
{
    decode_url_safe(encoded)
}

/// Decodes URL-safe base64 and reads the bytes as UTF-8, replacing what is
/// no UTF-8.
pub fn b64_decode_string(encoded: &str) -> (r: Result<String, DecodeError>)
    requires
        encoded.spec_bytes().len() + 7 <= usize::MAX,
    ensures
        match r {
            Ok(s) => url_safe_base64_decoded(encoded@) is Some && s@ == utf8_lossy(
                url_safe_base64_decoded(encoded@)->0,
            ),
            Err(_) => url_safe_base64_decoded(encoded@) is None,
        },
{
    match b64_decode_bytes(encoded) {
        Ok(bytes) => Ok(from_utf8_lossy(&bytes)),
        Err(e) => Err(e),
    }
}

/// The XOR of each byte of `encrypted` with the key's bytes repeated, each
/// result taken as a character; nothing where the key is empty.
pub open spec fn xor_spec(encrypted: Seq<u8>, key: Seq<u8>) -> Seq<char> {
    if key.len() == 0 {
        Seq::empty()
    } else {
        Seq::new(encrypted.len(), |i: int| (encrypted[i] ^ key[i % (key.len() as int)]) as char)
    }
}

/// XOR en-/decryption of `encrypted` with the repeated `key`, byte by byte.
pub fn xor_decrypt(encrypted: &str, key: &str) -> (r: String)
    ensures
        r@ == xor_spec(encrypted.spec_bytes(), key.spec_bytes()),
{
    let enc = encrypted.as_bytes();
    let k = key.as_bytes();
    let mut out: Vec<char> = Vec::new();
    if k.len() == 0 {
        return string_of(&out);
    }
    let mut i: usize = 0;
    while i < enc.len()
        invariant
            k@.len() > 0,
            i <= enc@.len(),
            out@ == Seq::new(i as nat, |n: int| (enc@[n] ^ k@[n % (k@.len() as int)]) as char),
        decreases enc@.len() - i,
    {
        out.push((enc[i] ^ k[i % k.len()]) as char);
        proof {
            assert(out@ =~= Seq::new((i + 1) as nat, |n: int| (enc@[n] ^ k@[n % (k@.len() as int)]) as char));
        }
        i = i + 1;
    }
    assert(out@ =~= xor_spec(enc@, k@));
    string_of(&out)
}

/// Whether the character is a decimal digit.
pub open spec fn is_digit(c: char) -> bool {
    '0' <= c && c <= '9'
}

/// The value of a string of decimal digits.
pub open spec fn digits_value(s: Seq<char>) -> int
    decreases s.len(),
{
    if s.len() == 0 {
        0
    } else {
        digits_value(s.drop_last()) * 10 + (s.last() as int - '0' as int)
    }
}

/// The text without one leading `+`.
pub open spec fn unsigned_part(s: Seq<char>) -> Seq<char> {
    if s.len() > 0 && s[0] == '+' {
        s.drop_first()
    } else {
        s
    }
}

/// The unsigned integer that the text writes in decimal, with an optional
/// leading `+`; `None` where it writes none, or one that does not fit.
pub open spec fn parse_u64_spec(s: Seq<char>) -> Option<u64> {
    let d = unsigned_part(s);
    if d.len() > 0 && (forall|i: int| 0 <= i < d.len() ==> is_digit(d[i])) && digits_value(d)
        <= u64::MAX {
        Some(digits_value(d) as u64)
    } else {
        None
    }
}

proof fn lemma_digits_value_grows(s: Seq<char>, k: int)
    requires
        0 <= k <= s.len(),
        forall|i: int| 0 <= i < s.len() ==> is_digit(s[i]),
    ensures
        0 <= digits_value(s.subrange(0, k)) <= digits_value(s),
    decreases s.len(),
{
    if s.len() > 0 {
        let t = s.drop_last();
        if k == s.len() {
            assert(s.subrange(0, k) == s);
            lemma_digits_value_grows(t, 0);
        } else {
            lemma_digits_value_grows(t, k);
            assert(t.subrange(0, k) == s.subrange(0, k));
        }
        lemma_digits_value_grows(t, t.len() as int);
        assert(t.subrange(0, t.len() as int) == t);
    } else {
        assert(s.subrange(0, k) == s);
    }
}

/// Why a text is no decimal integer that fits.
#[derive(Clone, Copy, Debug, PartialEq, Eq, Structural)]
pub enum IntErrorKind {
    /// The text is empty.
    Empty,
    /// A character that is no digit comes first (or the sign stands alone).
    InvalidDigit,
    /// The digits read so far already exceed the largest value.
    PosOverflow,
}

/// Reading the digits `d` from index `k` on: what fails first.
pub open spec fn scan_failure(d: Seq<char>, k: int) -> IntErrorKind
    decreases d.len() - k,
{
    if k < 0 || k >= d.len() {
        IntErrorKind::InvalidDigit
    } else if !is_digit(d[k]) {
        IntErrorKind::InvalidDigit
    } else if digits_value(d.subrange(0, k + 1)) > u64::MAX {
        IntErrorKind::PosOverflow
    } else {
        scan_failure(d, k + 1)
    }
}

/// Why a text that `parse_u64_spec` refuses is refused: the first failure
/// met reading it from the left.
pub open spec fn parse_failure(s: Seq<char>) -> IntErrorKind {
    if s.len() == 0 {
        IntErrorKind::Empty
    } else {
        scan_failure(unsigned_part(s), 0)
    }
}

/// Parses an unsigned decimal integer, with an optional leading `+`.
pub fn parse_u64(value: &str) -> (r: Result<u64, IntErrorKind>)
    ensures
        match r {
            Ok(n) => parse_u64_spec(value@) == Some(n),
            Err(k) => parse_u64_spec(value@) is None && k == parse_failure(value@),
        },
{
    let chars = chars_of(value);
    parse_u64_chars(&chars)
}

/// Parses an unsigned decimal integer written with these characters.
pub fn parse_u64_chars(chars: &Vec<char>) -> (r: Result<u64, IntErrorKind>)
    ensures
        match r {
            Ok(n) => parse_u64_spec(chars@) == Some(n),
            Err(k) => parse_u64_spec(chars@) is None && k == parse_failure(chars@),
        },
{
    let ghost value = chars@;
    let start: usize = if chars.len() > 0 && chars[0] == '+' { 1 } else { 0 };
    let ghost d = unsigned_part(chars@);
    assert(d == chars@.subrange(start as int, chars@.len() as int));
    if chars.len() == 0 {
        return Err(IntErrorKind::Empty);
    }
    if start == chars.len() {
        return Err(IntErrorKind::InvalidDigit);
    }
    let mut acc: u64 = 0;
    let mut i: usize = start;
    while i < chars.len()
        invariant
            start <= i <= chars@.len(),
            chars@ == value,
            d == unsigned_part(value),
            d == chars@.subrange(start as int, chars@.len() as int),
            forall|j: int| start <= j < i ==> is_digit(chars@[j]),
            acc == digits_value(chars@.subrange(start as int, i as int)),
            value.len() > 0,
            parse_failure(value) == scan_failure(d, i - start),
        decreases chars@.len() - i,
    {
        let c = chars[i];
        if !('0' <= c && c <= '9') {
            assert(!is_digit(d[i - start]));
            return Err(IntErrorKind::InvalidDigit);
        }
        let ghost prefix = chars@.subrange(start as int, i + 1);
        assert(prefix.drop_last() == chars@.subrange(start as int, i as int));
        let digit: u64 = (c as u32 - '0' as u32) as u64;
        let next = match acc.checked_mul(10) {
            Some(m) => m.checked_add(digit),
            None => None,
        };
        match next {
            Some(n) => {
                assert(d.subrange(0, i + 1 - start) == prefix);
                acc = n;
            },
            None => {
                proof {
                    assert(d.subrange(0, i + 1 - start) == prefix);
                    assert(digits_value(prefix) > u64::MAX);
                    if forall|j: int| 0 <= j < d.len() ==> is_digit(d[j]) {
                        lemma_digits_value_grows(d, i + 1 - start);
                    }
                }
                return Err(IntErrorKind::PosOverflow);
            },
        }
        i = i + 1;
    }
    assert(chars@.subrange(start as int, i as int) == d);
    Ok(acc)
}

/// Parses the value of the field at `idx`: `None` for an empty value, the
/// integer it writes, or an error naming the field and the value.
pub fn parse(idx: &str, value: &str) -> (r: Result<Option<u64>, ValueError>)
    ensures
        value@.len() == 0 ==> r == Ok::<Option<u64>, ValueError>(None),
        value@.len() != 0 ==> match parse_u64_spec(value@) {
            Some(n) => r == Ok::<Option<u64>, ValueError>(Some(n)),
            None => r matches Err(ValueError::Parse(i, v, k)) && i@ == idx@ && v@ == value@ && k
                == parse_failure(value@),
        },
{
    if value.is_empty() {
        return Ok(None);
    }
    match parse_u64(value) {
        Ok(n) => Ok(Some(n)),
        Err(k) => Err(ValueError::Parse(idx.to_owned(), value.to_owned(), k)),
    }
}

/// Hands out the items of a sequence two at a time.
pub struct SelfZip<T> {
    iter: Vec<T>,
}

impl<T> View for SelfZip<T> {
    type V = Seq<T>;

    closed spec fn view(&self) -> Seq<T> {
        self.iter@
    }
}

impl<T> SelfZip<T> {
    pub fn new(items: Vec<T>) -> (r: Self)
        ensures
            r@ == items@,
    {
        SelfZip { iter: items }
    }

    /// The next two items as a pair; `None` where fewer than two are left,
    /// in which case the one left, if any, is dropped.
    pub fn next(&mut self) -> (r: Option<(T, T)>)
        ensures
            old(self)@.len() >= 2 ==> r == Some((old(self)@[0], old(self)@[1])) && final(self)@
                == old(self)@.subrange(2, old(self)@.len() as int),
            old(self)@.len() < 2 ==> r is None && final(self)@.len() == 0,
    {
        if self.iter.len() >= 2 {
            let a = self.iter.remove(0);
            let b = self.iter.remove(0);
            assert(self.iter@ =~= old(self)@.subrange(2, old(self)@.len() as int));
            Some((a, b))
        } else {
            if self.iter.len() == 1 {
                self.iter.remove(0);
            }
            None
        }
    }
}

pub trait SelfZipExt<T>: Sized {
    fn self_zip(self) -> SelfZip<T>;
}

impl<T> SelfZipExt<T> for Vec<T> {
    fn self_zip(self) -> SelfZip<T> {
        SelfZip::new(self)
    }
}

} // verus!
