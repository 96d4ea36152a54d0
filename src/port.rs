use vstd::prelude::*;

verus! {

#[verifier::external_type_specification]
#[verifier::external_body]
pub struct ExParseIntError(std::num::ParseIntError);

/// Whether `c` is an ASCII decimal digit.
pub open spec fn is_digit(c: char) -> bool {
    '0' <= c && c <= '9'
}

/// The digits of an unsigned decimal numeral: the text after one optional
/// leading `+`.
pub open spec fn numeral_digits(s: Seq<char>) -> Seq<char> {
    if s.len() > 0 && s[0] == '+' {
        s.drop_first()
    } else {
        s
    }
}

/// The value of a string of decimal digits, most significant first.
pub open spec fn decimal_value(d: Seq<char>) -> nat
    decreases d.len(),
{
    if d.len() == 0 {
        0
    } else {
        decimal_value(d.drop_last()) * 10 + (d.last() as nat - '0' as nat) as nat
    }
}

/// Whether `s` spells a non-empty run of decimal digits, with an optional
/// leading `+`.
pub open spec fn is_numeral(s: Seq<char>) -> bool {
    let d = numeral_digits(s);
    &&& d.len() > 0
    &&& forall|i: int| 0 <= i < d.len() ==> is_digit(#[trigger] d[i])
}

/// Whether `s` is a valid port: a decimal numeral whose value fits in 16 bits.
pub open spec fn is_port_text(s: Seq<char>) -> bool {
    is_numeral(s) && decimal_value(numeral_digits(s)) <= 65535
}

/// Relies on `<u16 as FromStr>::from_str` (through `str::parse`): it accepts
/// exactly an optional `+` followed by one or more ASCII digits whose value
/// fits in a `u16`, and returns that value.
#[verifier::external_body]
pub(crate) fn parse_u16(s: &str) -> (r: Result<u16, std::num::ParseIntError>)
    ensures
        r is Ok <==> is_port_text(s@),
        r is Ok ==> r->Ok_0 as nat == decimal_value(numeral_digits(s@)),
{
    s.parse::<u16>()
}

} // verus!
