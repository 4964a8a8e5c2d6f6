//! Validation of the protocol form fields.
//!
//! SMPP carries its textual fields as C-octet strings: ASCII bytes without
//! an interior nul, within a field-specific length cap. The numeric fields
//! are plain decimal integers. Each validator states exactly which strings
//! it accepts.

use vstd::prelude::*;

use crate::result::AppUiError;

verus! {

/// Whether the text fits a C-octet string field of at most `max_len`
/// characters: ASCII only, no nul, not longer than the cap.
pub open spec fn c_octet_ok(s: Seq<char>, max_len: nat) -> bool {
    s.len() <= max_len && (forall|i: int|
        0 <= i < s.len() ==> (((#[trigger] s[i]) as u32) > 0 && ((s[i] as u32) < 128)))
}

/// Checks a C-octet string field of at most `max_len` characters.
pub fn is_c_octet(s: &str, max_len: usize) -> (r: bool)
    ensures
        r == c_octet_ok(s@, max_len as nat),
{
    let n = s.unicode_len();
    if n > max_len {
        return false;
    }
    let mut i: usize = 0;
    while i < n
        invariant
            n == s@.len(),
            n <= max_len,
            i <= n,
            forall|j: int|
                0 <= j < i ==> (((#[trigger] s@[j]) as u32) > 0 && ((s@[j] as u32) < 128)),
        decreases n - i,
    {
        let c = s.get_char(i);
        let u = c as u32;
        if u == 0 || u >= 128 {
            return false;
        }
        i = i + 1;
    }
    true
}

/// Whether the character is a decimal digit.
pub open spec fn is_digit(c: char) -> bool {
    48 <= c as u32 <= 57
}

/// Whether the text is one or more decimal digits and nothing else.
pub open spec fn all_digits(s: Seq<char>) -> bool {
    s.len() > 0 && (forall|i: int| 0 <= i < s.len() ==> is_digit(#[trigger] s[i]))
}

/// The number the digit string denotes.
pub open spec fn digits_value(s: Seq<char>) -> int
    decreases s.len(),
{
    if s.len() == 0 {
        0
    } else {
        digits_value(s.drop_last()) * 10 + (s.last() as u32 - 48)
    }
}

/// A digit string's value never shrinks as more digits are read.
proof fn lemma_digits_prefix_le(s: Seq<char>, i: int)
    requires
        0 <= i <= s.len(),
        all_digits(s),
    ensures
        0 <= digits_value(s.take(i)) <= digits_value(s),
    decreases s.len(),
{
    if s.len() == 0 {
    } else {
        let prev = s.drop_last();
        if prev.len() > 0 {
            assert(all_digits(prev)) by {
                assert(forall|j: int| 0 <= j < prev.len() ==> prev[j] == s[j]);
            }
        }
        if i < s.len() {
            assert(s.take(i) =~= prev.take(i));
            if prev.len() > 0 {
                lemma_digits_prefix_le(prev, i);
                lemma_digits_prefix_le(prev, prev.len() as int);
                assert(prev.take(prev.len() as int) =~= prev);
            }
            assert(is_digit(s.last()));
            assert(digits_value(s) == digits_value(prev) * 10 + (s.last() as u32 - 48));
            assert(digits_value(prev) * 10 >= digits_value(prev)) by (nonlinear_arith)
                requires
                    digits_value(prev) >= 0,
            ;
        } else {
            assert(s.take(i) =~= s);
            if prev.len() > 0 {
                lemma_digits_prefix_le(prev, prev.len() as int);
                assert(prev.take(prev.len() as int) =~= prev);
            }
            assert(digits_value(prev) * 10 >= 0) by (nonlinear_arith)
                requires
                    digits_value(prev) >= 0,
            ;
        }
    }
}

/// Reading one more digit multiplies the value by ten and adds the digit.
proof fn lemma_digits_step(s: Seq<char>, i: int)
    requires
        0 <= i < s.len(),
    ensures
        digits_value(s.take(i + 1)) == digits_value(s.take(i)) * 10 + (s[i] as u32 - 48),
{
    assert(s.take(i + 1).drop_last() =~= s.take(i));
    assert(s.take(i + 1).last() == s[i]);
}

/// Parses an unsigned decimal integer that must fit in a `u8`.
pub fn parse_u8_field(s: &str) -> (r: Option<u8>)
    ensures
        match r {
            Some(v) => all_digits(s@) && digits_value(s@) == v as int,
            None => !(all_digits(s@) && digits_value(s@) <= 255),
        },
{
    let n = s.unicode_len();
    if n == 0 {
        return None;
    }
    let mut acc: u32 = 0;
    let mut i: usize = 0;
    while i < n
        invariant
            n == s@.len(),
            0 < n,
            i <= n,
            forall|j: int| 0 <= j < i ==> is_digit(#[trigger] s@[j]),
            acc <= 255,
            acc as int == digits_value(s@.take(i as int)),
        decreases n - i,
    {
        let c = s.get_char(i);
        let u = c as u32;
        if u < 48 || u > 57 {
            return None;
        }
        proof {
            lemma_digits_step(s@, i as int);
        }
        let next = acc * 10 + (u - 48);
        if next > 255 {
            proof {
                if all_digits(s@) {
                    lemma_digits_prefix_le(s@, i as int + 1);
                }
            }
            return None;
        }
        acc = next;
        i = i + 1;
    }
    proof {
        assert(s@.take(n as int) =~= s@);
    }
    Some(acc as u8)
}

/// Parses an unsigned decimal integer that must fit in a `u64`.
pub fn parse_u64_field(s: &str) -> (r: Option<u64>)
    ensures
        match r {
            Some(v) => all_digits(s@) && digits_value(s@) == v as int,
            None => !(all_digits(s@) && digits_value(s@) <= u64::MAX),
        },
{
    let n = s.unicode_len();
    if n == 0 {
        return None;
    }
    let mut acc: u128 = 0;
    let mut i: usize = 0;
    while i < n
        invariant
            n == s@.len(),
            0 < n,
            i <= n,
            forall|j: int| 0 <= j < i ==> is_digit(#[trigger] s@[j]),
            acc <= u64::MAX,
            acc as int == digits_value(s@.take(i as int)),
        decreases n - i,
    {
        let c = s.get_char(i);
        let u = c as u32;
        if u < 48 || u > 57 {
            return None;
        }
        proof {
            lemma_digits_step(s@, i as int);
        }
        let next = acc * 10 + ((u - 48) as u128);
        if next > u64::MAX as u128 {
            proof {
                if all_digits(s@) {
                    lemma_digits_prefix_le(s@, i as int + 1);
                }
            }
            return None;
        }
        acc = next;
        i = i + 1;
    }
    proof {
        assert(s@.take(n as int) =~= s@);
    }
    Some(acc as u64)
}

/// The text with every non-ASCII character removed.
pub open spec fn ascii_only(s: Seq<char>) -> Seq<char> {
    s.filter(|c: char| (c as u32) < 128)
}

/// The text with everything but decimal digits removed.
pub open spec fn digits_only(s: Seq<char>) -> Seq<char> {
    s.filter(|c: char| is_digit(c))
}

/// Drops every non-ASCII character, the way the text fields sanitize each
/// keystroke.
pub fn retain_ascii(s: &str) -> (r: String)
    ensures
        r@ == ascii_only(s@),
{
    let n = s.unicode_len();
    let mut out = String::new();
    let mut i: usize = 0;
    proof {
        reveal(Seq::filter);
    }
    while i < n
        invariant
            n == s@.len(),
            i <= n,
            out@ == ascii_only(s@.take(i as int)),
        decreases n - i,
    {
        let c = s.get_char(i);
        proof {
            reveal(Seq::filter);
            assert(s@.take(i as int + 1).drop_last() =~= s@.take(i as int));
            assert(s@.take(i as int + 1).last() == s@[i as int]);
        }
        if (c as u32) < 128 {
            let piece = s.substring_char(i, i + 1);
            out.append(piece);
            proof {
                reveal(Seq::filter);
                assert(piece@ =~= seq![c]);
                assert(ascii_only(s@.take(i as int + 1)) == ascii_only(s@.take(i as int)).push(c));
                assert(ascii_only(s@.take(i as int)) + seq![c] =~= ascii_only(
                    s@.take(i as int),
                ).push(c));
            }
        } else {
            proof {
                reveal(Seq::filter);
                assert(ascii_only(s@.take(i as int + 1)) == ascii_only(s@.take(i as int)));
            }
        }
        i = i + 1;
    }
    proof {
        assert(s@.take(n as int) =~= s@);
    }
    out
}

/// Drops everything but decimal digits, the way the numeric fields
/// sanitize each keystroke.
pub fn retain_digits(s: &str) -> (r: String)
    ensures
        r@ == digits_only(s@),
{
    let n = s.unicode_len();
    let mut out = String::new();
    let mut i: usize = 0;
    proof {
        reveal(Seq::filter);
    }
    while i < n
        invariant
            n == s@.len(),
            i <= n,
            out@ == digits_only(s@.take(i as int)),
        decreases n - i,
    {
        let c = s.get_char(i);
        let u = c as u32;
        proof {
            reveal(Seq::filter);
            assert(s@.take(i as int + 1).drop_last() =~= s@.take(i as int));
            assert(s@.take(i as int + 1).last() == s@[i as int]);
        }
        if 48 <= u && u <= 57 {
            let piece = s.substring_char(i, i + 1);
            out.append(piece);
            proof {
                reveal(Seq::filter);
                assert(piece@ =~= seq![c]);
                assert(digits_only(s@.take(i as int + 1)) == digits_only(s@.take(i as int)).push(c));
                assert(digits_only(s@.take(i as int)) + seq![c] =~= digits_only(
                    s@.take(i as int),
                ).push(c));
            }
        } else {
            proof {
                reveal(Seq::filter);
                assert(digits_only(s@.take(i as int + 1)) == digits_only(s@.take(i as int)));
            }
        }
        i = i + 1;
    }
    proof {
        assert(s@.take(n as int) =~= s@);
    }
    out
}

/// Validates the system id of a bind: at most 15 ASCII octets.
pub fn validate_system_id(s: &str) -> (r: Result<(), AppUiError>)
    ensures
        r is Ok <==> c_octet_ok(s@, 15),
        r is Err ==> r->Err_0 == AppUiError::Field(crate::result::SmppFieldError::SystemId),
{
    if is_c_octet(s, 15) {
        Ok(())
    } else {
        Err(AppUiError::invalid_system_id())
    }
}

/// Validates the password of a bind: at most 8 ASCII octets.
pub fn validate_password(s: &str) -> (r: Result<(), AppUiError>)
    ensures
        r is Ok <==> c_octet_ok(s@, 8),
        r is Err ==> r->Err_0 == AppUiError::Field(crate::result::SmppFieldError::Password),
{
    if is_c_octet(s, 8) {
        Ok(())
    } else {
        Err(AppUiError::invalid_password())
    }
}

/// Validates the system type of a bind: at most 12 ASCII octets.
pub fn validate_system_type(s: &str) -> (r: Result<(), AppUiError>)
    ensures
        r is Ok <==> c_octet_ok(s@, 12),
        r is Err ==> r->Err_0 == AppUiError::Field(crate::result::SmppFieldError::SystemType),
{
    if is_c_octet(s, 12) {
        Ok(())
    } else {
        Err(AppUiError::invalid_system_type())
    }
}

/// Validates the service type of a submit: at most 5 ASCII octets.
pub fn validate_service_type(s: &str) -> (r: Result<(), AppUiError>)
    ensures
        r is Ok <==> c_octet_ok(s@, 5),
        r is Err ==> r->Err_0 == AppUiError::Field(crate::result::SmppFieldError::ServiceType),
{
    if is_c_octet(s, 5) {
        Ok(())
    } else {
        Err(AppUiError::invalid_service_type())
    }
}

/// Validates a source address: at most 20 ASCII octets.
pub fn validate_source_addr(s: &str) -> (r: Result<(), AppUiError>)
    ensures
        r is Ok <==> c_octet_ok(s@, 20),
        r is Err ==> r->Err_0 == AppUiError::Field(crate::result::SmppFieldError::SourceAddr),
{
    if is_c_octet(s, 20) {
        Ok(())
    } else {
        Err(AppUiError::invalid_source_addr())
    }
}

/// Validates a destination address: at most 20 ASCII octets.
pub fn validate_destination_addr(s: &str) -> (r: Result<(), AppUiError>)
    ensures
        r is Ok <==> c_octet_ok(s@, 20),
        r is Err ==> r->Err_0 == AppUiError::Field(crate::result::SmppFieldError::DestinationAddr),
{
    if is_c_octet(s, 20) {
        Ok(())
    } else {
        Err(AppUiError::invalid_destination_addr())
    }
}

/// Parses the protocol id field.
pub fn parse_protocol_id(s: &str) -> (r: Result<u8, AppUiError>)
    ensures
        r is Ok <==> all_digits(s@) && digits_value(s@) <= 255,
        r is Ok ==> digits_value(s@) == r->Ok_0 as int,
        r is Err ==> r->Err_0 == AppUiError::Field(crate::result::SmppFieldError::ProtocolId),
{
    match parse_u8_field(s) {
        Some(v) => Ok(v),
        None => Err(AppUiError::invalid_protocol_id()),
    }
}

/// Parses the SM default message id field.
pub fn parse_sm_default_msg_id(s: &str) -> (r: Result<u8, AppUiError>)
    ensures
        r is Ok <==> all_digits(s@) && digits_value(s@) <= 255,
        r is Ok ==> digits_value(s@) == r->Ok_0 as int,
        r is Err ==> r->Err_0 == AppUiError::Field(crate::result::SmppFieldError::SmDefaultMsgId),
{
    match parse_u8_field(s) {
        Some(v) => Ok(v),
        None => Err(AppUiError::invalid_sm_default_msg_id()),
    }
}

/// Parses the priority flag field.
pub fn parse_priority_flag(s: &str) -> (r: Result<u8, AppUiError>)
    ensures
        r is Ok <==> all_digits(s@) && digits_value(s@) <= 255,
        r is Ok ==> digits_value(s@) == r->Ok_0 as int,
        r is Err ==> r->Err_0 == AppUiError::Field(crate::result::SmppFieldError::PriorityFlag),
{
    match parse_u8_field(s) {
        Some(v) => Ok(v),
        None => Err(AppUiError::invalid_priority_flag()),
    }
}

/// Parses the enquire-link interval field, in seconds.
pub fn parse_enquire_link_interval(s: &str) -> (r: Result<u64, AppUiError>)
    ensures
        r is Ok <==> all_digits(s@) && digits_value(s@) <= u64::MAX,
        r is Ok ==> digits_value(s@) == r->Ok_0 as int,
        r is Err ==> r->Err_0 == AppUiError::Field(
            crate::result::SmppFieldError::EnquireLinkInterval,
        ),
{
    match parse_u64_field(s) {
        Some(v) => Ok(v),
        None => Err(AppUiError::invalid_enquire_link_interval()),
    }
}

} // verus!
