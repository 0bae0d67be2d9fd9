//! The written form of identifiers: a word for the kind of entity, a hyphen,
//! and the number in decimal, as in `connection-7`.

use vstd::prelude::*;
use crate::error::ValidationError;
use crate::ids::{ChannelId, ClientId, ConnectionId, PortId};

verus! {

/// The longest written identifier, in bytes.
pub const MAX_IDENTIFIER_LEN: usize = 64;

/// `client-`
pub open spec fn client_word() -> Seq<u8> {
    seq![99u8, 108u8, 105u8, 101u8, 110u8, 116u8, 45u8]
}

/// `connection-`
pub open spec fn connection_word() -> Seq<u8> {
    seq![99u8, 111u8, 110u8, 110u8, 101u8, 99u8, 116u8, 105u8, 111u8, 110u8, 45u8]
}

/// `channel-`
pub open spec fn channel_word() -> Seq<u8> {
    seq![99u8, 104u8, 97u8, 110u8, 110u8, 101u8, 108u8, 45u8]
}

/// `port-`
pub open spec fn port_word() -> Seq<u8> {
    seq![112u8, 111u8, 114u8, 116u8, 45u8]
}

pub open spec fn is_digit(b: u8) -> bool {
    48 <= b <= 57
}

/// The number that a string of decimal digits writes.
pub open spec fn decimal_value(digits: Seq<u8>) -> nat
    decreases digits.len(),
{
    if digits.len() == 0 {
        0
    } else {
        decimal_value(digits.drop_last()) * 10 + (digits.last() - 48) as nat
    }
}

/// The decimal digits of a number, without leading zeros.
pub open spec fn decimal_digits(n: nat) -> Seq<u8>
    decreases n,
{
    if n < 10 {
        seq![(48 + n) as u8]
    } else {
        decimal_digits(n / 10).push((48 + n % 10) as u8)
    }
}

/// The position of the first byte from `from` on that is no digit, or the
/// length of the text if there is none.
pub open spec fn first_non_digit(text: Seq<u8>, from: int) -> int
    decreases text.len() - from,
{
    if from >= text.len() || !is_digit(text[from]) {
        from
    } else {
        first_non_digit(text, from + 1)
    }
}

/// The number that a written identifier names, or why the text is no
/// identifier of the kind that starts with `word`.
pub open spec fn parsed(word: Seq<u8>, text: Seq<u8>) -> Result<u64, ValidationError> {
    if text.len() == 0 {
        Err(ValidationError::Empty)
    } else if text.len() <= word.len() || text.len() > MAX_IDENTIFIER_LEN {
        Err(ValidationError::InvalidLength { length: text.len() as usize })
    } else if text.subrange(0, word.len() as int) != word {
        Err(ValidationError::InvalidPrefix)
    } else if first_non_digit(text, word.len() as int) < text.len() {
        Err(
            ValidationError::InvalidCharacter {
                position: first_non_digit(text, word.len() as int) as usize,
            },
        )
    } else if text[word.len() as int] == 48 && text.len() > word.len() + 1 {
        Err(ValidationError::LeadingZero)
    } else if decimal_value(text.subrange(word.len() as int, text.len() as int)) > u64::MAX {
        Err(ValidationError::NumberTooLarge)
    } else {
        Ok(decimal_value(text.subrange(word.len() as int, text.len() as int)) as u64)
    }
}

/// The written form of the identifier with number `n`.
pub open spec fn written(word: Seq<u8>, n: u64) -> Seq<u8> {
    word + decimal_digits(n as nat)
}

proof fn lemma_value_grows(digits: Seq<u8>, k: int)
    requires
        0 <= k <= digits.len(),
        forall|i: int| 0 <= i < digits.len() ==> is_digit(digits[i]),
    ensures
        decimal_value(digits.take(k)) <= decimal_value(digits),
    decreases digits.len() - k,
{
    if k < digits.len() {
        lemma_value_grows(digits, k + 1);
        assert(digits.take(k + 1).drop_last() =~= digits.take(k));
        assert(digits.take(k + 1).last() == digits[k]);
    } else {
        assert(digits.take(k) =~= digits);
    }
}

proof fn lemma_first_non_digit(text: Seq<u8>, from: int, at: int)
    requires
        0 <= from <= at <= text.len(),
        forall|i: int| from <= i < at ==> is_digit(text[i]),
        at == text.len() || !is_digit(text[at]),
    ensures
        first_non_digit(text, from) == at,
    decreases at - from,
{
    if from < at {
        lemma_first_non_digit(text, from + 1, at);
    }
}

/// The digits of a number are digits, start with a zero only for zero, are
/// at most twenty for a number of 64 bits, and write the number.
pub proof fn lemma_decimal_digits(n: nat)
    ensures
        decimal_digits(n).len() >= 1,
        forall|i: int| 0 <= i < decimal_digits(n).len() ==> is_digit(#[trigger] decimal_digits(n)[i]),
        decimal_digits(n)[0] == 48 ==> n == 0,
        n == 0 ==> decimal_digits(n) == seq![48u8],
        decimal_value(decimal_digits(n)) == n,
    decreases n,
{
    let d = decimal_digits(n);
    if n < 10 {
        assert(d.drop_last() =~= Seq::<u8>::empty());
        assert(decimal_value(d.drop_last()) == 0);
    } else {
        lemma_decimal_digits(n / 10);
        let init = decimal_digits(n / 10);
        assert(d.drop_last() =~= init);
        assert(d.last() == (48 + n % 10) as u8);
        assert(d[0] == init[0]);
        assert forall|i: int| 0 <= i < d.len() implies is_digit(#[trigger] d[i]) by {
            if i < init.len() {
                assert(d[i] == init[i]);
            }
        }
    }
}

proof fn lemma_digits_short(n: nat, bound: nat, len: nat)
    requires
        n < bound,
        bound == pow10(len),
        len >= 1,
    ensures
        decimal_digits(n).len() <= len,
    decreases len,
{
    if n >= 10 {
        assert(len >= 2) by {
            if len == 1 {
                assert(pow10(1) == 10 * pow10(0));
            }
        }
        assert(pow10(len) == 10 * pow10((len - 1) as nat));
        lemma_digits_short(n / 10, pow10((len - 1) as nat), (len - 1) as nat);
    }
}

/// Ten to the power of `e`.
pub open spec fn pow10(e: nat) -> nat
    decreases e,
{
    if e == 0 {
        1
    } else {
        10 * pow10((e - 1) as nat)
    }
}

/// Reads a written identifier of the kind that starts with `word`.
#[verifier::loop_isolation(false)]
pub fn parse_identifier(word: &[u8], text: &[u8]) -> (r: Result<u64, ValidationError>)
    ensures
        r == parsed(word@, text@),
{
    let n = text.len();
    let w = word.len();
    if n == 0 {
        return Err(ValidationError::Empty);
    }
    if n <= w || n > MAX_IDENTIFIER_LEN {
        return Err(ValidationError::InvalidLength { length: n });
    }
    let mut i: usize = 0;
    while i < w
        invariant
            i <= w < n,
            n == text@.len(),
            w == word@.len(),
            forall|j: int| 0 <= j < i ==> text@[j] == word@[j],
        decreases w - i,
    {
        if text[i] != word[i] {
            assert(text@.subrange(0, w as int)[i as int] != word@[i as int]);
            return Err(ValidationError::InvalidPrefix);
        }
        i += 1;
    }
    assert(text@.subrange(0, w as int) =~= word@);
    let mut k: usize = w;
    while k < n
        invariant
            w <= k <= n,
            n == text@.len(),
            forall|j: int| w <= j < k ==> is_digit(text@[j]),
        decreases n - k,
    {
        let b = text[k];
        if b < 48 || b > 57 {
            proof {
                lemma_first_non_digit(text@, w as int, k as int);
            }
            return Err(ValidationError::InvalidCharacter { position: k });
        }
        k += 1;
    }
    proof {
        lemma_first_non_digit(text@, w as int, n as int);
    }
    if text[w] == 48 && n > w + 1 {
        return Err(ValidationError::LeadingZero);
    }
    let ghost digits = text@.subrange(w as int, n as int);
    let mut value: u64 = 0;
    let mut p: usize = w;
    assert(digits.take(0) =~= Seq::<u8>::empty());
    while p < n
        invariant
            w <= p <= n,
            n == text@.len(),
            digits == text@.subrange(w as int, n as int),
            forall|j: int| 0 <= j < digits.len() ==> is_digit(digits[j]),
            value == decimal_value(digits.take(p - w)),
        decreases n - p,
    {
        assert(is_digit(text@[p as int]));
        let d: u64 = (text[p] - 48) as u64;
        assert(digits.take(p - w + 1).drop_last() =~= digits.take(p - w));
        assert(digits.take(p - w + 1).last() == text@[p as int]);
        if value > (u64::MAX - d) / 10 {
            proof {
                lemma_value_grows(digits, p - w + 1);
            }
            return Err(ValidationError::NumberTooLarge);
        }
        value = value * 10 + d;
        p += 1;
    }
    assert(digits.take(n - w) =~= digits);
    Ok(value)
}

/// Appends the decimal digits of a number.
pub fn append_decimal(buf: &mut Vec<u8>, n: u64)
    ensures
        final(buf)@ == old(buf)@ + decimal_digits(n as nat),
    decreases n,
{
    if n >= 10 {
        append_decimal(buf, n / 10);
    }
    buf.push(48u8 + (n % 10) as u8);
    assert(buf@ =~= old(buf)@ + decimal_digits(n as nat));
}

/// Writes the identifier with number `n` of the kind that starts with
/// `word`.
pub fn write_identifier(word: &[u8], n: u64) -> (text: Vec<u8>)
    ensures
        text@ == written(word@, n),
{
    let mut text: Vec<u8> = Vec::new();
    let mut i: usize = 0;
    while i < word.len()
        invariant
            i <= word.len(),
            text@ == word@.take(i as int),
        decreases word.len() - i,
    {
        text.push(word[i]);
        assert(text@ =~= word@.take(i + 1));
        i += 1;
    }
    assert(word@.take(word.len() as int) =~= word@);
    append_decimal(&mut text, n);
    text
}

/// What was written is read back as the same number, if the word leaves
/// room for twenty digits.
pub proof fn lemma_written_is_parsed(word: Seq<u8>, n: u64)
    requires
        word.len() + 20 <= MAX_IDENTIFIER_LEN,
    ensures
        parsed(word, written(word, n)) == Ok::<u64, ValidationError>(n),
{
    let digits = decimal_digits(n as nat);
    let text = written(word, n);
    lemma_decimal_digits(n as nat);
    assert(pow10(20) == 100000000000000000000) by {
        reveal_with_fuel(pow10, 21);
    }
    lemma_digits_short(n as nat, pow10(20), 20);
    assert(text.subrange(0, word.len() as int) =~= word);
    assert(text.subrange(word.len() as int, text.len() as int) =~= digits);
    assert forall|i: int| word.len() <= i < text.len() implies is_digit(text[i]) by {
        assert(text[i] == digits[i - word.len()]);
    }
    lemma_first_non_digit(text, word.len() as int, text.len() as int);
    assert(text[word.len() as int] == digits[0]);
    if digits[0] == 48 {
        assert(digits =~= seq![48u8]);
    }
}

fn word_of_client() -> (w: Vec<u8>)
    ensures
        w@ == client_word(),
{
    let w = vec![99u8, 108u8, 105u8, 101u8, 110u8, 116u8, 45u8];
    assert(w@ =~= client_word());
    w
}

fn word_of_connection() -> (w: Vec<u8>)
    ensures
        w@ == connection_word(),
{
    let w = vec![99u8, 111u8, 110u8, 110u8, 101u8, 99u8, 116u8, 105u8, 111u8, 110u8, 45u8];
    assert(w@ =~= connection_word());
    w
}

fn word_of_channel() -> (w: Vec<u8>)
    ensures
        w@ == channel_word(),
{
    let w = vec![99u8, 104u8, 97u8, 110u8, 110u8, 101u8, 108u8, 45u8];
    assert(w@ =~= channel_word());
    w
}

fn word_of_port() -> (w: Vec<u8>)
    ensures
        w@ == port_word(),
{
    let w = vec![112u8, 111u8, 114u8, 116u8, 45u8];
    assert(w@ =~= port_word());
    w
}

impl ClientId {
    /// Reads an identifier written as `client-` and a number.
    pub fn from_text(text: &[u8]) -> (r: Result<ClientId, ValidationError>)
        ensures
            r == match parsed(client_word(), text@) {
                Ok(index) => Ok(ClientId { index }),
                Err(e) => Err(e),
            },
    {
        let word = word_of_client();
        match parse_identifier(word.as_slice(), text) {
            Ok(index) => Ok(ClientId { index }),
            Err(e) => Err(e),
        }
    }

    pub fn to_text(&self) -> (text: Vec<u8>)
        ensures
            text@ == written(client_word(), self.index),
    {
        let word = word_of_client();
        write_identifier(word.as_slice(), self.index)
    }
}

impl ConnectionId {
    /// Reads an identifier written as `connection-` and a number.
    pub fn from_text(text: &[u8]) -> (r: Result<ConnectionId, ValidationError>)
        ensures
            r == match parsed(connection_word(), text@) {
                Ok(index) => Ok(ConnectionId { index }),
                Err(e) => Err(e),
            },
    {
        let word = word_of_connection();
        match parse_identifier(word.as_slice(), text) {
            Ok(index) => Ok(ConnectionId { index }),
            Err(e) => Err(e),
        }
    }

    pub fn to_text(&self) -> (text: Vec<u8>)
        ensures
            text@ == written(connection_word(), self.index),
    {
        let word = word_of_connection();
        write_identifier(word.as_slice(), self.index)
    }
}

impl ChannelId {
    /// Reads an identifier written as `channel-` and a number.
    pub fn from_text(text: &[u8]) -> (r: Result<ChannelId, ValidationError>)
        ensures
            r == match parsed(channel_word(), text@) {
                Ok(index) => Ok(ChannelId { index }),
                Err(e) => Err(e),
            },
    {
        let word = word_of_channel();
        match parse_identifier(word.as_slice(), text) {
            Ok(index) => Ok(ChannelId { index }),
            Err(e) => Err(e),
        }
    }

    pub fn to_text(&self) -> (text: Vec<u8>)
        ensures
            text@ == written(channel_word(), self.index),
    {
        let word = word_of_channel();
        write_identifier(word.as_slice(), self.index)
    }
}

impl PortId {
    /// Reads an identifier written as `port-` and a number.
    pub fn from_text(text: &[u8]) -> (r: Result<PortId, ValidationError>)
        ensures
            r == match parsed(port_word(), text@) {
                Ok(index) => Ok(PortId { index }),
                Err(e) => Err(e),
            },
    {
        let word = word_of_port();
        match parse_identifier(word.as_slice(), text) {
            Ok(index) => Ok(PortId { index }),
            Err(e) => Err(e),
        }
    }

    pub fn to_text(&self) -> (text: Vec<u8>)
        ensures
            text@ == written(port_word(), self.index),
    {
        let word = word_of_port();
        write_identifier(word.as_slice(), self.index)
    }
}

} // verus!
