//! The names of specializations.

use crate::ast::{Param, Type};
use crate::show::{show_ty, ty_text};
use crate::text::{
    byte_len, byte_offset, cat2, cat4, cat5, decimal, show_i64, show_u64, show_usize,
    signed_decimal,
};
use crate::types::{CtValue, CtValueView, ct_value_list_view, unfold_ct_value};
use vstd::prelude::*;

verus! {

/// A hexadecimal digit.
pub open spec fn hex_digit(d: nat) -> char {
    if d == 0 { '0' } else if d == 1 { '1' } else if d == 2 { '2' } else if d == 3 { '3' }
    else if d == 4 { '4' } else if d == 5 { '5' } else if d == 6 { '6' } else if d == 7 { '7' }
    else if d == 8 { '8' } else if d == 9 { '9' } else if d == 10 { 'a' } else if d == 11 { 'b' }
    else if d == 12 { 'c' } else if d == 13 { 'd' } else if d == 14 { 'e' } else { 'f' }
}

/// The last digits of a number in hexadecimal, as many as asked for.
pub open spec fn hex(n: nat, digits: nat) -> Seq<char>
    decreases digits,
{
    if digits == 0 {
        Seq::empty()
    } else {
        hex(n / 16, (digits - 1) as nat).push(hex_digit(n % 16))
    }
}

fn show_hex_digit(d: u64) -> (r: char)
    ensures
        r == hex_digit(d as nat),
{
    if d == 0 { '0' } else if d == 1 { '1' } else if d == 2 { '2' } else if d == 3 { '3' }
    else if d == 4 { '4' } else if d == 5 { '5' } else if d == 6 { '6' } else if d == 7 { '7' }
    else if d == 8 { '8' } else if d == 9 { '9' } else if d == 10 { 'a' } else if d == 11 { 'b' }
    else if d == 12 { 'c' } else if d == 13 { 'd' } else if d == 14 { 'e' } else { 'f' }
}

/// See [`hex`].
pub fn show_hex(n: u64, digits: u32) -> (r: String)
    ensures
        r@ == hex(n as nat, digits as nat),
    decreases digits,
{
    if digits == 0 {
        proof {
            reveal_strlit("");
        }
        let r = "".to_owned();
        assert(r@ =~= Seq::<char>::empty());
        r
    } else {
        let mut r = show_hex(n / 16, digits - 1);
        r.push(show_hex_digit(n % 16));
        r
    }
}


/// The text of a value in the name of a specialization, behind what is there. Each
/// kind of value has a letter of its own, and says where it ends.
pub open spec fn encoded(value: CtValueView, out: Seq<char>) -> Seq<char>
    decreases value, 0nat,
{
    match value {
        CtValueView::Int(n) => out + "i"@ + signed_decimal(n as int) + ";"@,
        CtValueView::UInt(n) => out + "u"@ + decimal(n as nat) + ";"@,
        CtValueView::Float(bits) => out + "f"@ + hex(bits as nat, 16 as nat) + ";"@,
        CtValueView::Bool(b) => if b {
            out + "b1;"@
        } else {
            out + "b0;"@
        },
        CtValueView::Str(text) => out + "s"@ + decimal(byte_offset(text, text.len()) as nat) + ":"@ + text,
        CtValueView::Tuple(values) => {
            let values_text = encoded_all(values, 0, out + "t"@ + decimal(values.len() as usize as nat) + "["@);
            values_text + "]"@
        },
        CtValueView::List(values) => {
            let values_text = encoded_all(values, 0, out + "l"@ + decimal(values.len() as usize as nat) + "["@);
            values_text + "]"@
        },
        CtValueView::Type(ty) => {
            let text = ty_text(*ty);
            out + "y"@ + decimal(byte_offset(text, text.len()) as nat) + ":"@ + text
        },
        CtValueView::Reflected(ty) => {
            let text = ty_text(*ty);
            out + "r"@ + decimal(byte_offset(text, text.len()) as nat) + ":"@ + text
        },
        CtValueView::Param(name) => out + "p"@ + decimal(byte_offset(name, name.len()) as nat) + ":"@ + name,
    }
}

/// See [`encoded`].
pub fn encode_specialization_value(value: &CtValue, out: String) -> (r: String)
    ensures
        r@ == encoded(value@, out@),
    decreases value, 0nat,
{
    proof { unfold_ct_value(*value); }
    match value {
        CtValue::Int(n) => cat4(out.as_str(), "i", show_i64(*n).as_str(), ";"),
        CtValue::UInt(n) => cat4(out.as_str(), "u", show_u64(*n).as_str(), ";"),
        CtValue::Float(bits) => cat4(out.as_str(), "f", show_hex(*bits, 16).as_str(), ";"),
        CtValue::Bool(b) => {
            if *b {
                cat2(out.as_str(), "b1;")
            } else {
                cat2(out.as_str(), "b0;")
            }
        },
        CtValue::Str(text) => cat5(out.as_str(), "s", show_usize(byte_len(text)).as_str(), ":", text.as_str()),
        CtValue::Tuple(values) => {
            let values_text = encode_all(values, cat4(out.as_str(), "t", show_usize(values.len()).as_str(), "["));
            cat2(values_text.as_str(), "]")
        },
        CtValue::List(values) => {
            let values_text = encode_all(values, cat4(out.as_str(), "l", show_usize(values.len()).as_str(), "["));
            cat2(values_text.as_str(), "]")
        },
        CtValue::Type(ty) => {
            let text = show_ty(&**ty);
            cat5(out.as_str(), "y", show_usize(byte_len(&text)).as_str(), ":", text.as_str())
        },
        CtValue::Reflected(ty) => {
            let text = show_ty(&**ty);
            cat5(out.as_str(), "r", show_usize(byte_len(&text)).as_str(), ":", text.as_str())
        },
        CtValue::Param(name) => cat5(out.as_str(), "p", show_usize(byte_len(name)).as_str(), ":", name.as_str()),
    }
}

pub open spec fn encoded_all(values: Seq<CtValueView>, i: nat, out: Seq<char>) -> Seq<char>
    decreases values, (values.len() - i) as nat,
{
    if i >= values.len() {
        out
    } else {
        let value = values[i as int];
        let out = encoded(value, out);
        encoded_all(values, i + 1, out)
    }
}

/// See [`encoded_all`].
pub fn encode_all(values: &Vec<CtValue>, start: String) -> (r: String)
    ensures
        r@ == encoded_all(ct_value_list_view(values@), 0, start@),
    decreases values@, 0nat,
{
    let mut out: String = start;
    let ghost goal = encoded_all(ct_value_list_view(values@), 0, start@);
    let mut i: usize = 0;
    while i < values.len()
        invariant
            i <= values@.len(),
            ct_value_list_view(values@).len() == values@.len(),
            encoded_all(ct_value_list_view(values@), i as nat, out@) == goal,
            goal == encoded_all(ct_value_list_view(values@), 0, start@),
        decreases values@.len() - i,
    {
        let value = &values[i];
        assert(ct_value_list_view(values@)[i as int] == value@);
        out = encode_specialization_value(value, out);
        i = i + 1;
    }
    out
}

/// The text of an argument in the name of a specialization: an integer stands for itself.
#[verifier::opaque]
pub open spec fn in_name(value: CtValueView, out: Seq<char>) -> Seq<char> {
    match value {
        CtValueView::Int(n) => out + signed_decimal(n as int),
        _ => encoded(value, out),
    }
}

/// See [`in_name`].
pub fn encode_argument(value: &CtValue, out: String) -> (r: String)
    ensures
        r@ == in_name(value@, out@),
{
    proof { reveal(in_name); }
    proof { unfold_ct_value(*value); }
    match value {
        CtValue::Int(n) => cat2(out.as_str(), show_i64(*n).as_str()),
        _ => {
            assert(!(value@ is Int));
            encode_specialization_value(value, out)
        },
    }
}

/// The name of a specialization, as `f$0` for `f` and 0. No source name holds a `$`, so it
/// is none.
pub open spec fn mangled(values: Seq<CtValueView>, i: nat, out: Seq<char>) -> Seq<char>
    decreases values, (values.len() - i) as nat,
{
    if i >= values.len() {
        out
    } else {
        let value = values[i as int];
        let out = in_name(value, out + "$"@);
        mangled(values, i + 1, out)
    }
}

/// See [`mangled`].
pub fn mangle(values: &Vec<CtValue>, name: String) -> (r: String)
    ensures
        r@ == mangled(ct_value_list_view(values@), 0, name@),
    decreases values@, 0nat,
{
    let mut out: String = name;
    let ghost goal = mangled(ct_value_list_view(values@), 0, name@);
    let mut i: usize = 0;
    while i < values.len()
        invariant
            i <= values@.len(),
            ct_value_list_view(values@).len() == values@.len(),
            mangled(ct_value_list_view(values@), i as nat, out@) == goal,
            goal == mangled(ct_value_list_view(values@), 0, name@),
        decreases values@.len() - i,
    {
        let value = &values[i];
        assert(ct_value_list_view(values@)[i as int] == value@);
        out = encode_argument(value, cat2(out.as_str(), "$"));
        i = i + 1;
    }
    out
}

} // verus!
