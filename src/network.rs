use crate::callbacks::CallbackTable;
use crate::response::Response;
use vstd::prelude::*;
use vstd::string::StringExecFns;
use vstd::utf8::{char_is_scalar, char_u32_cast, encode_scalar, encode_utf8, has_width_1_encoding, is_scalar};

verus! {

/// A bound delivery capability, known by the opaque handle that the boundary
/// gave for it. The library never reaches through the handle: the boundary
/// side performs the send.
pub struct Network {
    pub handle: usize,
}

/// How a send request was settled before anything went out. `Registered`
/// carries the correlation id under which the continuation now waits, and the
/// boundary side passes that id along with the message. `Rejected` hands the
/// continuation back with the error text for the caller to run at once.
pub enum SendPlan<C> {
    Registered(u64),
    Rejected(String, C),
}

/// The digits of `n` in base ten, most significant first.
pub open spec fn decimal_digits(n: nat) -> Seq<char>
    decreases n,
{
    let d = (('0' as u8) + (n % 10) as u8) as char;
    if n < 10 {
        seq![d]
    } else {
        decimal_digits(n / 10).push(d)
    }
}

/// How an integer prints: a minus sign before the digits of a negative one.
pub open spec fn decimal_text(v: int) -> Seq<char> {
    if v < 0 {
        seq!['-'] + decimal_digits((-v) as nat)
    } else {
        decimal_digits(v as nat)
    }
}

/// The error text for a failed delivery that carries no message of its own.
pub open spec fn code_error_text(code: i32) -> Seq<char> {
    "Network error with code: "@ + decimal_text(code as int)
}

/// Relies on `i128`'s `Display` (through `to_string`): the decimal form of the
/// value, with a leading `-` when it is negative.
#[verifier::external_body]
pub(crate) fn int_to_text(v: i128) -> (r: String)
    ensures
        r@ == decimal_text(v as int),
{
    v.to_string()
}

proof fn lemma_high_bits_nonzero(x: u8)
    by (bit_vector)
    ensures
        (0x80u8 | x) != 0,
        (0xC0u8 | x) != 0,
        (0xE0u8 | x) != 0,
        (0xF0u8 | x) != 0,
{
}

/// The encoding of a scalar holds a zero byte exactly when the scalar is 0.
proof fn lemma_scalar_zero_byte(c: u32)
    requires
        is_scalar(c),
    ensures
        encode_scalar(c).contains(0u8) <==> c == 0,
{
    let e = encode_scalar(c);
    if has_width_1_encoding(c) {
        assert(((c & 0x7F) as u8 == 0) <==> c == 0) by (bit_vector)
            requires
                c <= 0x7F,
        ;
        assert(e.len() == 1 && e[0] == (c & 0x7F) as u8);
        if c == 0 {
            assert(e[0] == 0u8);
        }
    } else {
        lemma_high_bits_nonzero(((c >> 6) & 0x1F) as u8);
        lemma_high_bits_nonzero(((c >> 12) & 0x0F) as u8);
        lemma_high_bits_nonzero(((c >> 18) & 0x7) as u8);
        lemma_high_bits_nonzero((c & 0x3F) as u8);
        lemma_high_bits_nonzero(((c >> 6) & 0x3F) as u8);
        lemma_high_bits_nonzero(((c >> 12) & 0x3F) as u8);
        assert(forall|i: int| 0 <= i < e.len() ==> e[i] != 0u8);
        assert(c != 0);
    }
}

/// The UTF-8 encoding of a text holds a zero byte exactly when the text holds
/// a NUL character.
proof fn lemma_nul_byte(chars: Seq<char>)
    ensures
        encode_utf8(chars).contains(0u8) <==> chars.contains('\0'),
    decreases chars.len(),
{
    if chars.len() == 0 {
        assert(!encode_utf8(chars).contains(0u8));
    } else {
        let rest = chars.drop_first();
        lemma_nul_byte(rest);
        char_is_scalar(chars[0]);
        let head = encode_scalar(chars[0] as u32);
        lemma_scalar_zero_byte(chars[0] as u32);
        let e = encode_utf8(chars);
        assert(e == head + encode_utf8(rest));
        char_u32_cast(chars[0], chars[0] as u32);
        assert(chars[0] == '\0' <==> (chars[0] as u32) == 0) by {
            if (chars[0] as u32) == 0 {
                assert((0u32 as char) == '\0');
            }
        }
        if chars.contains('\0') {
            if chars[0] == '\0' {
                let i = choose|i: int| 0 <= i < head.len() && head[i] == 0u8;
                assert(e[i] == 0u8);
            } else {
                let j = choose|j: int| 0 <= j < chars.len() && chars[j] == '\0';
                assert(rest[j - 1] == '\0');
                let k = choose|k: int|
                    0 <= k < encode_utf8(rest).len() && encode_utf8(rest)[k] == 0u8;
                assert(e[head.len() + k] == 0u8);
            }
        } else {
            assert(!rest.contains('\0')) by {
                if rest.contains('\0') {
                    let j = choose|j: int| 0 <= j < rest.len() && rest[j] == '\0';
                    assert(chars[j + 1] == '\0');
                }
            }
            assert forall|i: int| 0 <= i < e.len() implies e[i] != 0u8 by {
                if i < head.len() {
                    assert(e[i] == head[i]);
                } else {
                    assert(e[i] == encode_utf8(rest)[i - head.len()]);
                }
            }
        }
    }
}

/// Whether `message` holds a NUL character, which no C string can carry.
pub fn has_nul(message: &str) -> (r: bool)
    ensures
        r == message@.contains('\0'),
{
    let bytes = message.as_bytes();
    proof {
        lemma_nul_byte(message@);
    }
    let mut i: usize = 0;
    while i < bytes.len()
        invariant
            bytes@ == encode_utf8(message@),
            encode_utf8(message@).contains(0u8) <==> message@.contains('\0'),
            i <= bytes@.len(),
            forall|j: int| 0 <= j < i ==> bytes@[j] != 0u8,
        decreases bytes@.len() - i,
    {
        if bytes[i] == 0 {
            assert(bytes@[i as int] == 0u8);
            return true;
        }
        i = i + 1;
    }
    false
}

impl Network {
    /// Prepares an asynchronous send of `message`. An empty message, or one
    /// that holds a NUL and so cannot become a C string, is rejected at once
    /// and the table is left alone.
    /// Otherwise the continuation is registered under a fresh correlation id;
    /// if no id is left, the request is rejected too.
    pub fn send<C>(
        &self,
        message: &str,
        table: &mut CallbackTable<C>,
        callback: C,
    ) -> (r: SendPlan<C>)
        requires
            old(table).wf(),
        ensures
            final(table).wf(),
            message@.len() == 0 ==> {
                &&& *final(table) == *old(table)
                &&& r matches SendPlan::Rejected(e, c) && e@ == "Empty message"@ && c == callback
            },
            message@.len() > 0 && message@.contains('\0') ==> {
                &&& *final(table) == *old(table)
                &&& r matches SendPlan::Rejected(e, c) && e@
                    == "Failed to convert message to C string"@ && c == callback
            },
            message@.len() > 0 && !message@.contains('\0') && old(table).next_id() == u64::MAX ==> {
                &&& final(table).entries() == old(table).entries()
                &&& final(table).next_id() == old(table).next_id()
                &&& r matches SendPlan::Rejected(e, c) && e@ == "No correlation id left"@ && c
                    == callback
            },
            message@.len() > 0 && !message@.contains('\0') && old(table).next_id() < u64::MAX ==> {
                &&& r == SendPlan::<C>::Registered(old(table).next_id())
                &&& final(table).next_id() == old(table).next_id() + 1
                &&& final(table).entries() == old(table).entries().insert(
                    old(table).next_id(),
                    callback,
                )
            },
    {
        if message.is_empty() {
            return SendPlan::Rejected("Empty message".to_owned(), callback);
        }
        if has_nul(message) {
            return SendPlan::Rejected("Failed to convert message to C string".to_owned(), callback);
        }
        match table.register(callback) {
            Ok(id) => SendPlan::Registered(id),
            Err(c) => SendPlan::Rejected("No correlation id left".to_owned(), c),
        }
    }
}

/// What a continuation receives for a completed delivery: the envelope itself
/// when it reports success; otherwise its message as the error, or, when it
/// carries none, an error text built from its code.
pub fn outcome_of(response: Response) -> (r: Result<Response, String>)
    ensures
        response.success ==> r == Ok::<Response, String>(response),
        !response.success && response.message is Some ==> (r matches Err(e) && e
            == response.message.unwrap()),
        !response.success && response.message is None ==> (r matches Err(e) && e@
            == code_error_text(response.response_code)),
{
    if response.success {
        return Ok(response);
    }
    match response.message {
        Some(text) => Err(text),
        None => {
            let code = int_to_text(response.response_code as i128);
            let mut text = "Network error with code: ".to_owned();
            text.append(code.as_str());
            Err(text)
        },
    }
}

} // verus!
