//! Different values give specializations different names.

use crate::mangle::{encoded, encoded_all, hex, hex_digit, in_name, mangled};
use crate::text::{byte_offset, byte_offset_monotone, decimal, digit_char, signed_decimal};
use crate::types::CtValueView;
use vstd::prelude::*;

verus! {

/// Whether a value is made of literals: it holds no type.
pub open spec fn untyped(v: CtValueView) -> bool
    decreases v,
{
    match v {
        CtValueView::Tuple(vs) => forall|k: int| 0 <= k < vs.len() ==> untyped(#[trigger] vs[k]),
        CtValueView::List(vs) => forall|k: int| 0 <= k < vs.len() ==> untyped(#[trigger] vs[k]),
        CtValueView::Type(_) => false,
        CtValueView::Reflected(_) => false,
        _ => true,
    }
}

/// Whether a character is neither a letter nor one that ends a number.
pub open spec fn in_number(c: char) -> bool {
    c != ';' && c != ':' && c != '[' && c != '$' && !('a' <= c && c <= 'z')
}

proof fn decimal_in_number(n: nat)
    ensures
        decimal(n).len() > 0,
        forall|k: int| 0 <= k < decimal(n).len() ==> in_number(#[trigger] decimal(n)[k]),
        forall|k: int| 0 <= k < decimal(n).len() ==> #[trigger] decimal(n)[k] != '-',
    decreases n,
{
    if n >= 10 {
        decimal_in_number(n / 10);
    }
}

proof fn digits_differ(a: nat, b: nat)
    requires
        a < 10,
        b < 10,
        digit_char(a) == digit_char(b),
    ensures
        a == b,
{
}

proof fn decimal_is_unique(n: nat, m: nat)
    requires
        decimal(n) == decimal(m),
    ensures
        n == m,
    decreases n,
{
    decimal_in_number(n / 10);
    decimal_in_number(m / 10);
    if n < 10 && m < 10 {
        assert(decimal(n)[0] == digit_char(n));
        assert(decimal(m)[0] == digit_char(m));
        digits_differ(n, m);
    } else if n < 10 {
        assert(decimal(n).len() == 1);
        assert(decimal(m).len() == decimal(m / 10).len() + 1);
    } else if m < 10 {
        assert(decimal(m).len() == 1);
        assert(decimal(n).len() == decimal(n / 10).len() + 1);
    } else {
        let a = decimal(n / 10);
        let b = decimal(m / 10);
        assert(decimal(n).drop_last() =~= a);
        assert(decimal(m).drop_last() =~= b);
        assert(decimal(n).last() == digit_char(n % 10));
        assert(decimal(m).last() == digit_char(m % 10));
        digits_differ(n % 10, m % 10);
        decimal_is_unique(n / 10, m / 10);
    }
}

proof fn signed_in_number(n: int)
    ensures
        signed_decimal(n).len() > 0,
        forall|k: int|
            0 <= k < signed_decimal(n).len() ==> in_number(#[trigger] signed_decimal(n)[k]),
{
    reveal_strlit("-");
    if n < 0 {
        decimal_in_number((-n) as nat);
        assert forall|k: int| 0 <= k < signed_decimal(n).len() implies in_number(
            #[trigger] signed_decimal(n)[k],
        ) by {
            if k > 0 {
                assert(signed_decimal(n)[k] == decimal((-n) as nat)[k - 1]);
            }
        }
    } else {
        decimal_in_number(n as nat);
    }
}

proof fn signed_is_unique(n: int, m: int)
    requires
        signed_decimal(n) == signed_decimal(m),
    ensures
        n == m,
{
    reveal_strlit("-");
    decimal_in_number(n as nat);
    decimal_in_number(m as nat);
    decimal_in_number((-n) as nat);
    decimal_in_number((-m) as nat);
    if n < 0 && m < 0 {
        assert(signed_decimal(n).skip(1) =~= decimal((-n) as nat));
        assert(signed_decimal(m).skip(1) =~= decimal((-m) as nat));
        decimal_is_unique((-n) as nat, (-m) as nat);
    } else if n < 0 {
        assert(signed_decimal(n)[0] == '-');
        assert(signed_decimal(m)[0] == decimal(m as nat)[0]);
    } else if m < 0 {
        assert(signed_decimal(m)[0] == '-');
        assert(signed_decimal(n)[0] == decimal(n as nat)[0]);
    } else {
        decimal_is_unique(n as nat, m as nat);
    }
}

/// A text up to the first mark is settled by the whole.
proof fn split_at_mark(a: Seq<char>, b: Seq<char>, mark: char, r: Seq<char>, s: Seq<char>)
    requires
        forall|k: int| 0 <= k < a.len() ==> #[trigger] a[k] != mark,
        forall|k: int| 0 <= k < b.len() ==> #[trigger] b[k] != mark,
        a + seq![mark] + r == b + seq![mark] + s,
    ensures
        a == b,
        r == s,
{
    let x = a + seq![mark] + r;
    let y = b + seq![mark] + s;
    assert(x[a.len() as int] == mark);
    assert(y[b.len() as int] == mark);
    if a.len() < b.len() {
        assert(y[a.len() as int] == b[a.len() as int]);
    } else if b.len() < a.len() {
        assert(x[b.len() as int] == a[b.len() as int]);
    }
    assert(a =~= x.take(a.len() as int));
    assert(b =~= y.take(b.len() as int));
    assert(r =~= x.skip(a.len() + 1int));
    assert(s =~= y.skip(b.len() + 1int));
}

/// Equal texts of which the parts in front are equally long have equal parts.
proof fn split_at_length(a: Seq<char>, b: Seq<char>, r: Seq<char>, s: Seq<char>)
    requires
        a.len() == b.len(),
        a + r == b + s,
    ensures
        a == b,
        r == s,
{
    assert(a =~= (a + r).take(a.len() as int));
    assert(b =~= (b + s).take(b.len() as int));
    assert(r =~= (a + r).skip(a.len() as int));
    assert(s =~= (b + s).skip(b.len() as int));
}

proof fn offset_of_front(all: Seq<char>, front: Seq<char>, n: nat)
    requires
        n <= front.len() <= all.len(),
        front == all.take(front.len() as int),
    ensures
        byte_offset(front, n) == byte_offset(all, n),
    decreases n,
{
    if n > 0 {
        offset_of_front(all, front, (n - 1) as nat);
        assert(front[n - 1] == all[n - 1]);
    }
}

/// Texts of which the parts in front take as many bytes have equal parts.
proof fn split_at_bytes(a: Seq<char>, b: Seq<char>, r: Seq<char>, s: Seq<char>)
    requires
        byte_offset(a, a.len()) == byte_offset(b, b.len()),
        a + r == b + s,
    ensures
        a == b,
        r == s,
{
    let all = a + r;
    assert(a =~= all.take(a.len() as int));
    assert(b =~= all.take(b.len() as int)) by {
        assert(all == b + s);
    }
    offset_of_front(all, a, a.len());
    offset_of_front(all, b, b.len());
    if a.len() < b.len() {
        byte_offset_monotone(all, a.len(), b.len());
    } else if b.len() < a.len() {
        byte_offset_monotone(all, b.len(), a.len());
    }
    split_at_length(a, b, r, s);
}

proof fn hex_len(n: nat, digits: nat)
    ensures
        hex(n, digits).len() == digits,
    decreases digits,
{
    if digits > 0 {
        hex_len(n / 16, (digits - 1) as nat);
    }
}

proof fn hex_digits_differ(a: nat, b: nat)
    requires
        a < 16,
        b < 16,
        hex_digit(a) == hex_digit(b),
    ensures
        a == b,
{
}

/// The numbers below a power of sixteen.
pub open spec fn sixteens(digits: nat) -> nat
    decreases digits,
{
    if digits == 0 {
        1
    } else {
        16 * sixteens((digits - 1) as nat)
    }
}

proof fn hex_is_unique(n: nat, m: nat, digits: nat)
    requires
        n < sixteens(digits),
        m < sixteens(digits),
        hex(n, digits) == hex(m, digits),
    ensures
        n == m,
    decreases digits,
{
    if digits > 0 {
        let less = (digits - 1) as nat;
        assert(hex(n, digits).drop_last() =~= hex(n / 16, less));
        assert(hex(m, digits).drop_last() =~= hex(m / 16, less));
        assert(hex(n, digits).last() == hex_digit(n % 16));
        assert(hex(m, digits).last() == hex_digit(m % 16));
        hex_digits_differ(n % 16, m % 16);
        assert(n / 16 < sixteens(less));
        assert(m / 16 < sixteens(less));
        hex_is_unique(n / 16, m / 16, less);
    }
}

proof fn bits_fit(n: u64)
    ensures
        n < sixteens(16),
{
    assert(sixteens(16) == 0x1_0000_0000_0000_0000) by {
        reveal_with_fuel(sixteens, 17);
    }
}

/// What is written behind a text does not depend on it.
proof fn encoded_behind(v: CtValueView, out: Seq<char>)
    ensures
        encoded(v, out) == out + encoded(v, Seq::empty()),
    decreases v, 0nat,
{
    let none = Seq::<char>::empty();
    match v {
        CtValueView::Tuple(vs) => {
            let head = "t"@ + decimal(vs.len() as usize as nat) + "["@;
            encoded_all_behind(vs, 0, out + "t"@ + decimal(vs.len() as usize as nat) + "["@);
            encoded_all_behind(vs, 0, none + "t"@ + decimal(vs.len() as usize as nat) + "["@);
            assert(out + "t"@ + decimal(vs.len() as usize as nat) + "["@ =~= out + head);
            assert(none + "t"@ + decimal(vs.len() as usize as nat) + "["@ =~= head);
        },
        CtValueView::List(vs) => {
            let head = "l"@ + decimal(vs.len() as usize as nat) + "["@;
            encoded_all_behind(vs, 0, out + "l"@ + decimal(vs.len() as usize as nat) + "["@);
            encoded_all_behind(vs, 0, none + "l"@ + decimal(vs.len() as usize as nat) + "["@);
            assert(out + "l"@ + decimal(vs.len() as usize as nat) + "["@ =~= out + head);
            assert(none + "l"@ + decimal(vs.len() as usize as nat) + "["@ =~= head);
        },
        _ => {},
    }
    assert(encoded(v, out) =~= out + encoded(v, none));
}

proof fn encoded_all_behind(vs: Seq<CtValueView>, i: nat, out: Seq<char>)
    ensures
        encoded_all(vs, i, out) == out + encoded_all(vs, i, Seq::empty()),
    decreases vs, (vs.len() - i) as nat,
{
    let none = Seq::<char>::empty();
    if i < vs.len() {
        let v = vs[i as int];
        encoded_behind(v, out);
        encoded_all_behind(vs, i + 1, encoded(v, out));
        encoded_all_behind(vs, i + 1, encoded(v, none));
        assert(encoded_all(vs, i, out) =~= out + encoded_all(vs, i, none));
    } else {
        assert(out + none =~= out);
    }
}

/// The letter that a value starts with.
pub open spec fn letter(v: CtValueView) -> char {
    match v {
        CtValueView::Int(_) => 'i',
        CtValueView::UInt(_) => 'u',
        CtValueView::Float(_) => 'f',
        CtValueView::Bool(_) => 'b',
        CtValueView::Str(_) => 's',
        CtValueView::Tuple(_) => 't',
        CtValueView::List(_) => 'l',
        CtValueView::Type(_) => 'y',
        CtValueView::Reflected(_) => 'r',
        CtValueView::Param(_) => 'p',
    }
}

/// What a value has behind its letter.
pub open spec fn rest_of(v: CtValueView) -> Seq<char> {
    match v {
        CtValueView::Int(n) => signed_decimal(n as int) + seq![';'],
        CtValueView::UInt(n) => decimal(n as nat) + seq![';'],
        CtValueView::Float(bits) => hex(bits as nat, 16) + seq![';'],
        CtValueView::Bool(b) => if b { seq!['1', ';'] } else { seq!['0', ';'] },
        CtValueView::Str(text) => decimal(byte_offset(text, text.len())) + seq![':'] + text,
        CtValueView::Tuple(vs) => decimal(vs.len() as usize as nat) + seq!['['] + encoded_all(
            vs,
            0,
            Seq::empty(),
        ) + seq![']'],
        CtValueView::List(vs) => decimal(vs.len() as usize as nat) + seq!['['] + encoded_all(
            vs,
            0,
            Seq::empty(),
        ) + seq![']'],
        CtValueView::Type(ty) => {
            let text = crate::show::ty_text(*ty);
            decimal(byte_offset(text, text.len())) + seq![':'] + text
        },
        CtValueView::Reflected(ty) => {
            let text = crate::show::ty_text(*ty);
            decimal(byte_offset(text, text.len())) + seq![':'] + text
        },
        CtValueView::Param(name) => decimal(byte_offset(name, name.len())) + seq![':'] + name,
    }
}

proof fn encoded_by_letter(v: CtValueView)
    ensures
        encoded(v, Seq::empty()) == seq![letter(v)] + rest_of(v),
{
    reveal_strlit("i");
    reveal_strlit("u");
    reveal_strlit("f");
    reveal_strlit("b1;");
    reveal_strlit("b0;");
    reveal_strlit("s");
    reveal_strlit("t");
    reveal_strlit("l");
    reveal_strlit("y");
    reveal_strlit("r");
    reveal_strlit("p");
    reveal_strlit(";");
    reveal_strlit(":");
    reveal_strlit("[");
    reveal_strlit("]");
    let none = Seq::<char>::empty();
    match v {
        CtValueView::Tuple(vs) => {
            encoded_all_behind(vs, 0, none + "t"@ + decimal(vs.len() as usize as nat) + "["@);
        },
        CtValueView::List(vs) => {
            encoded_all_behind(vs, 0, none + "l"@ + decimal(vs.len() as usize as nat) + "["@);
        },
        _ => {},
    }
    assert(encoded(v, none) =~= seq![letter(v)] + rest_of(v));
}

/// A numbered text: two of them that are equal with what follows are equal.
proof fn numbered_is_unique(a: Seq<char>, b: Seq<char>, r: Seq<char>, s: Seq<char>)
    requires
        decimal(byte_offset(a, a.len())) + seq![':'] + a + r == decimal(byte_offset(b, b.len()))
            + seq![':'] + b + s,
    ensures
        a == b,
        r == s,
{
    let m = decimal(byte_offset(a, a.len()));
    let n = decimal(byte_offset(b, b.len()));
    decimal_in_number(byte_offset(a, a.len()));
    decimal_in_number(byte_offset(b, b.len()));
    assert(m + seq![':'] + a + r =~= m + seq![':'] + (a + r));
    assert(n + seq![':'] + b + s =~= n + seq![':'] + (b + s));
    split_at_mark(m, n, ':', a + r, b + s);
    decimal_is_unique(byte_offset(a, a.len()), byte_offset(b, b.len()));
    split_at_bytes(a, b, r, s);
}

/// A value can be told from what follows it: where two values without types are
/// written the same with what follows, they are the same, and so is what follows.
pub proof fn encoding_is_unique(v: CtValueView, w: CtValueView, r: Seq<char>, s: Seq<char>)
    requires
        untyped(v),
        untyped(w),
        encoded(v, Seq::empty()) + r == encoded(w, Seq::empty()) + s,
    ensures
        v == w,
        r == s,
    decreases v, 0nat,
{
    encoded_by_letter(v);
    encoded_by_letter(w);
    let x = rest_of(v);
    let y = rest_of(w);
    assert((encoded(v, Seq::empty()) + r)[0] == letter(v));
    assert((encoded(w, Seq::empty()) + s)[0] == letter(w));
    assert((encoded(v, Seq::empty()) + r).skip(1) =~= x + r);
    assert((encoded(w, Seq::empty()) + s).skip(1) =~= y + s);
    match v {
        CtValueView::Int(a) => {
            if let CtValueView::Int(b) = w {
                signed_in_number(a as int);
                signed_in_number(b as int);
                assert(signed_decimal(a as int) + seq![';'] + r == signed_decimal(b as int) + seq![';'] + s);
                split_at_mark(signed_decimal(a as int), signed_decimal(b as int), ';', r, s);
                signed_is_unique(a as int, b as int);
            }
        },
        CtValueView::UInt(a) => {
            if let CtValueView::UInt(b) = w {
                decimal_in_number(a as nat);
                decimal_in_number(b as nat);
                split_at_mark(decimal(a as nat), decimal(b as nat), ';', r, s);
                decimal_is_unique(a as nat, b as nat);
            }
        },
        CtValueView::Float(a) => {
            if let CtValueView::Float(b) = w {
                hex_len(a as nat, 16);
                hex_len(b as nat, 16);
                split_at_length(x, y, r, s);
                split_at_length(hex(a as nat, 16), hex(b as nat, 16), seq![';'], seq![';']);
                bits_fit(a);
                bits_fit(b);
                hex_is_unique(a as nat, b as nat, 16);
            }
        },
        CtValueView::Bool(a) => {
            if let CtValueView::Bool(b) = w {
                split_at_length(x, y, r, s);
                assert(x[0] == y[0]);
            }
        },
        CtValueView::Str(a) => {
            if let CtValueView::Str(b) = w {
                numbered_is_unique(a, b, r, s);
            }
        },
        CtValueView::Param(a) => {
            if let CtValueView::Param(b) = w {
                numbered_is_unique(a, b, r, s);
            }
        },
        CtValueView::Tuple(vs) => {
            if let CtValueView::Tuple(ws) = w {
                lists_are_unique(vs, ws, r, s);
            }
        },
        CtValueView::List(vs) => {
            if let CtValueView::List(ws) = w {
                lists_are_unique(vs, ws, r, s);
            }
        },
        _ => {},
    }
}

proof fn lists_are_unique(vs: Seq<CtValueView>, ws: Seq<CtValueView>, r: Seq<char>, s: Seq<char>)
    requires
        forall|k: int| 0 <= k < vs.len() ==> untyped(#[trigger] vs[k]),
        forall|k: int| 0 <= k < ws.len() ==> untyped(#[trigger] ws[k]),
        decimal(vs.len() as usize as nat) + seq!['['] + encoded_all(vs, 0, Seq::empty()) + seq![']']
            + r == decimal(ws.len() as usize as nat) + seq!['['] + encoded_all(ws, 0, Seq::empty())
            + seq![']'] + s,
    ensures
        vs == ws,
        r == s,
    decreases vs, vs.len() + 1,
{
    let m = decimal(vs.len() as usize as nat);
    let n = decimal(ws.len() as usize as nat);
    let a = encoded_all(vs, 0, Seq::empty());
    let b = encoded_all(ws, 0, Seq::empty());
    decimal_in_number(vs.len() as usize as nat);
    decimal_in_number(ws.len() as usize as nat);
    assert(m + seq!['['] + a + seq![']'] + r =~= m + seq!['['] + (a + seq![']'] + r));
    assert(n + seq!['['] + b + seq![']'] + s =~= n + seq!['['] + (b + seq![']'] + s));
    split_at_mark(m, n, '[', a + seq![']'] + r, b + seq![']'] + s);
    elements_are_unique(vs, ws, 0, r, s);
    assert(vs.skip(0) =~= vs);
    assert(ws.skip(0) =~= ws);
}

proof fn elements_are_unique(
    vs: Seq<CtValueView>,
    ws: Seq<CtValueView>,
    i: nat,
    r: Seq<char>,
    s: Seq<char>,
)
    requires
        i <= vs.len(),
        forall|k: int| 0 <= k < vs.len() ==> untyped(#[trigger] vs[k]),
        forall|k: int| 0 <= k < ws.len() ==> untyped(#[trigger] ws[k]),
        i <= ws.len(),
        encoded_all(vs, i, Seq::empty()) + seq![']'] + r == encoded_all(ws, i, Seq::empty())
            + seq![']'] + s,
    ensures
        vs.skip(i as int) == ws.skip(i as int),
        r == s,
    decreases vs, (vs.len() - i) as nat,
{
    let none = Seq::<char>::empty();
    let a = encoded_all(vs, i, none) + seq![']'] + r;
    let b = encoded_all(ws, i, none) + seq![']'] + s;
    if i < vs.len() {
        encoded_by_letter(vs[i as int]);
        encoded_all_behind(vs, i + 1, encoded(vs[i as int], none));
    }
    if i < ws.len() {
        encoded_by_letter(ws[i as int]);
        encoded_all_behind(ws, i + 1, encoded(ws[i as int], none));
    }
    if i < vs.len() && i < ws.len() {
        let v = vs[i as int];
        let w = ws[i as int];
        let more = encoded_all(vs, i + 1, none) + seq![']'] + r;
        let also = encoded_all(ws, i + 1, none) + seq![']'] + s;
        assert(a =~= encoded(v, none) + more);
        assert(b =~= encoded(w, none) + also);
        encoding_is_unique(v, w, more, also);
        elements_are_unique(vs, ws, i + 1, r, s);
        assert(vs.skip(i as int) =~= seq![v] + vs.skip(i + 1int));
        assert(ws.skip(i as int) =~= seq![w] + ws.skip(i + 1int));
    } else if i < vs.len() {
        assert(a[0] == letter(vs[i as int]));
        assert(b[0] == ']');
    } else if i < ws.len() {
        assert(b[0] == letter(ws[i as int]));
        assert(a[0] == ']');
    } else {
        assert(a.skip(1) =~= r);
        assert(b.skip(1) =~= s);
        assert(vs.skip(i as int) =~= ws.skip(i as int));
    }
}

proof fn in_name_behind(v: CtValueView, out: Seq<char>)
    ensures
        in_name(v, out) == out + in_name(v, Seq::empty()),
{
    reveal(in_name);
    encoded_behind(v, out);
    assert(in_name(v, out) =~= out + in_name(v, Seq::empty()));
}

/// What follows an argument in a name is nothing or starts with a `$`.
pub open spec fn follows(text: Seq<char>) -> bool {
    text.len() > 0 ==> text[0] == '$'
}

proof fn later_arguments(vs: Seq<CtValueView>, i: nat)
    ensures
        follows(mangled(vs, i, Seq::empty())),
{
    reveal_strlit("$");
    if i < vs.len() {
        let mark = Seq::<char>::empty() + "$"@;
        in_name_behind(vs[i as int], mark);
        mangled_behind(vs, i + 1, in_name(vs[i as int], mark));
    }
}

proof fn integers_are_unique(a: int, b: int, r: Seq<char>, s: Seq<char>)
    requires
        follows(r),
        follows(s),
        signed_decimal(a) + r == signed_decimal(b) + s,
    ensures
        a == b,
        r == s,
{
    let x = r + seq!['$'];
    let y = s + seq!['$'];
    signed_in_number(a);
    signed_in_number(b);
    assert(x =~= seq!['$'] + x.skip(1));
    assert(y =~= seq!['$'] + y.skip(1));
    assert(signed_decimal(a) + seq!['$'] + x.skip(1) =~= signed_decimal(a) + r + seq!['$']);
    assert(signed_decimal(b) + seq!['$'] + y.skip(1) =~= signed_decimal(b) + s + seq!['$']);
    split_at_mark(signed_decimal(a), signed_decimal(b), '$', x.skip(1), y.skip(1));
    signed_is_unique(a, b);
    split_at_length(signed_decimal(a), signed_decimal(b), r, s);
}

/// An argument can be told from what follows it.
proof fn arguments_are_unique(v: CtValueView, w: CtValueView, r: Seq<char>, s: Seq<char>)
    requires
        untyped(v),
        untyped(w),
        follows(r),
        follows(s),
        in_name(v, Seq::empty()) + r == in_name(w, Seq::empty()) + s,
    ensures
        v == w,
        r == s,
{
    reveal(in_name);
    let none = Seq::<char>::empty();
    encoded_by_letter(v);
    encoded_by_letter(w);
    match (v, w) {
        (CtValueView::Int(a), CtValueView::Int(b)) => {
            assert(none + signed_decimal(a as int) =~= signed_decimal(a as int));
            assert(none + signed_decimal(b as int) =~= signed_decimal(b as int));
            integers_are_unique(a as int, b as int, r, s);
        },
        (CtValueView::Int(a), _) => {
            signed_in_number(a as int);
            assert((none + signed_decimal(a as int) + r)[0] == signed_decimal(a as int)[0]);
            assert((encoded(w, none) + s)[0] == letter(w));
        },
        (_, CtValueView::Int(b)) => {
            signed_in_number(b as int);
            assert((none + signed_decimal(b as int) + s)[0] == signed_decimal(b as int)[0]);
            assert((encoded(v, none) + r)[0] == letter(v));
        },
        _ => {
            encoding_is_unique(v, w, r, s);
        },
    }
}

proof fn mangled_behind(vs: Seq<CtValueView>, i: nat, out: Seq<char>)
    ensures
        mangled(vs, i, out) == out + mangled(vs, i, Seq::empty()),
    decreases vs.len() - i,
{
    let none = Seq::<char>::empty();
    if i < vs.len() {
        let v = vs[i as int];
        in_name_behind(v, out + "$"@);
        in_name_behind(v, none + "$"@);
        mangled_behind(vs, i + 1, in_name(v, out + "$"@));
        mangled_behind(vs, i + 1, in_name(v, none + "$"@));
        assert(mangled(vs, i, out) =~= out + mangled(vs, i, none));
    } else {
        assert(out + none =~= out);
    }
}

proof fn suffixes_are_unique(vs: Seq<CtValueView>, ws: Seq<CtValueView>, i: nat)
    requires
        i <= vs.len(),
        i <= ws.len(),
        forall|k: int| 0 <= k < vs.len() ==> untyped(#[trigger] vs[k]),
        forall|k: int| 0 <= k < ws.len() ==> untyped(#[trigger] ws[k]),
        mangled(vs, i, Seq::empty()) == mangled(ws, i, Seq::empty()),
    ensures
        vs.skip(i as int) == ws.skip(i as int),
    decreases vs.len() - i,
{
    reveal_strlit("$");
    let none = Seq::<char>::empty();
    let mark = none + "$"@;
    if i < vs.len() {
        in_name_behind(vs[i as int], mark);
        mangled_behind(vs, i + 1, in_name(vs[i as int], mark));
    }
    if i < ws.len() {
        in_name_behind(ws[i as int], mark);
        mangled_behind(ws, i + 1, in_name(ws[i as int], mark));
    }
    if i < vs.len() && i < ws.len() {
        let v = vs[i as int];
        let w = ws[i as int];
        let more = mangled(vs, i + 1, none);
        let also = mangled(ws, i + 1, none);
        assert(mangled(vs, i, none) =~= mark + (in_name(v, none) + more));
        assert(mangled(ws, i, none) =~= mark + (in_name(w, none) + also));
        split_at_length(mark, mark, in_name(v, none) + more, in_name(w, none) + also);
        later_arguments(vs, i + 1);
        later_arguments(ws, i + 1);
        arguments_are_unique(v, w, more, also);
        suffixes_are_unique(vs, ws, i + 1);
        assert(vs.skip(i as int) =~= seq![v] + vs.skip(i + 1int));
        assert(ws.skip(i as int) =~= seq![w] + ws.skip(i + 1int));
    } else if i < vs.len() {
        assert(mangled(vs, i, none)[0] == '$');
        assert(mangled(ws, i, none).len() == 0);
    } else if i < ws.len() {
        assert(mangled(ws, i, none)[0] == '$');
        assert(mangled(vs, i, none).len() == 0);
    } else {
        assert(vs.skip(i as int) =~= ws.skip(i as int));
    }
}

/// Two specializations of a template for values without types have the same name
/// only when the values are the same.
pub proof fn names_tell_values_apart(
    name: Seq<char>,
    vs: Seq<CtValueView>,
    ws: Seq<CtValueView>,
)
    requires
        forall|k: int| 0 <= k < vs.len() ==> untyped(#[trigger] vs[k]),
        forall|k: int| 0 <= k < ws.len() ==> untyped(#[trigger] ws[k]),
        mangled(vs, 0, name) == mangled(ws, 0, name),
    ensures
        vs == ws,
{
    mangled_behind(vs, 0, name);
    mangled_behind(ws, 0, name);
    split_at_length(name, name, mangled(vs, 0, Seq::empty()), mangled(ws, 0, Seq::empty()));
    suffixes_are_unique(vs, ws, 0);
    assert(vs.skip(0) =~= vs);
    assert(ws.skip(0) =~= ws);
}

/// The name of a specialization starts with the name of its template and then a `$`, so no
/// name without a `$` is one.
pub proof fn names_are_marked(name: Seq<char>, vs: Seq<CtValueView>)
    requires
        vs.len() > 0,
    ensures
        name.push('$').is_prefix_of(mangled(vs, 0, name)),
        mangled(vs, 0, name).contains('$'),
{
    reveal_strlit("$");
    let none = Seq::<char>::empty();
    mangled_behind(vs, 0, name);
    in_name_behind(vs[0], none + "$"@);
    mangled_behind(vs, 1, in_name(vs[0], none + "$"@));
    assert(mangled(vs, 0, none)[0] == '$');
    let all = mangled(vs, 0, name);
    assert(all == name + mangled(vs, 0, none));
    assert(all[name.len() as int] == '$');
    assert(name.push('$') =~= all.subrange(0, name.len() + 1int));
}

} // verus!
