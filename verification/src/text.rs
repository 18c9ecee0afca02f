//! Text helpers: comparison, concatenation, decimal numerals and UTF-8 widths.

use vstd::prelude::*;

verus! {

/// `String::push` appends one character to the end of the string.
pub assume_specification[ std::string::String::push ](s: &mut std::string::String, c: char)
    ensures
        final(s)@ == old(s)@.push(c),
;

/// `char::from_u32` gives the character of a Unicode scalar value, and nothing
/// for a surrogate or a number past the last code point.
pub assume_specification[ char::from_u32 ](code: u32) -> (r: Option<char>)
    ensures
        r == (if is_scalar(code) {
            Some(code as char)
        } else {
            None::<char>
        }),
;

/// Whether `code` is a Unicode scalar value.
pub open spec fn is_scalar(code: u32) -> bool {
    code <= 0xD7FF || 0xE000 <= code <= 0x10FFFF
}

/// The views of the elements of a sequence.
pub open spec fn views<T: View>(s: Seq<T>) -> Seq<T::V> {
    Seq::new(s.len(), |i: int| s[i]@)
}

/// The view of an optional value.
pub open spec fn opt_view<T: View>(o: Option<T>) -> Option<T::V> {
    match o {
        Some(x) => Some(x@),
        None => None,
    }
}

/// Whether two texts hold the same characters.
pub fn same_text(a: &str, b: &str) -> (r: bool)
    ensures
        r == (a@ == b@),
{
    a.to_owned() == b.to_owned()
}

/// A copy of a vector of plain values.
pub fn copy_vec<T: Copy>(v: &Vec<T>) -> (r: Vec<T>)
    ensures
        r@ == v@,
{
    let mut r: Vec<T> = Vec::new();
    for i in 0..v.len()
        invariant
            r@ == v@.take(i as int),
    {
        assert(v@.take(i + 1) =~= v@.take(i as int).push(v@[i as int]));
        r.push(v[i]);
    }
    assert(v@.take(v@.len() as int) =~= v@);
    r
}

/// The texts of a sequence of strings.
pub open spec fn string_list_view(s: Seq<String>) -> Seq<Seq<char>> {
    Seq::new(s.len(), |i: int| s[i]@)
}

pub fn clone_string_list(v: &Vec<String>) -> (r: Vec<String>)
    ensures
        r@ == v@,
{
    let mut r: Vec<String> = Vec::new();
    for i in 0..v.len()
        invariant
            r@ == v@.take(i as int),
    {
        assert(v@.take(i + 1) =~= v@.take(i as int).push(v@[i as int]));
        r.push(v[i].clone());
    }
    assert(v@.take(v@.len() as int) =~= v@);
    r
}

/// Whether two strings hold the same characters.
pub fn same_string(a: &String, b: &String) -> (r: bool)
    ensures
        r == (a@ == b@),
{
    *a == *b
}

pub fn clone_opt_string(o: &Option<String>) -> (r: Option<String>)
    ensures
        r == *o,
{
    match o {
        Some(s) => Some(s.clone()),
        None => None,
    }
}

pub fn cat2(a: &str, b: &str) -> (r: String)
    ensures
        r@ == a@ + b@,
{
    let mut s = a.to_owned();
    s.append(b);
    s
}

pub fn cat3(a: &str, b: &str, c: &str) -> (r: String)
    ensures
        r@ == a@ + b@ + c@,
{
    let mut s = a.to_owned();
    s.append(b);
    s.append(c);
    s
}

pub fn cat4(a: &str, b: &str, c: &str, d: &str) -> (r: String)
    ensures
        r@ == a@ + b@ + c@ + d@,
{
    let mut s = cat3(a, b, c);
    s.append(d);
    s
}

pub fn cat5(a: &str, b: &str, c: &str, d: &str, e: &str) -> (r: String)
    ensures
        r@ == a@ + b@ + c@ + d@ + e@,
{
    let mut s = cat3(a, b, c);
    s.append(d);
    s.append(e);
    s
}

pub fn cat6(a: &str, b: &str, c: &str, d: &str, e: &str, f: &str) -> (r: String)
    ensures
        r@ == a@ + b@ + c@ + d@ + e@ + f@,
{
    let mut s = cat5(a, b, c, d, e);
    s.append(f);
    s
}

pub fn cat7(a: &str, b: &str, c: &str, d: &str, e: &str, f: &str, g: &str) -> (r: String)
    ensures
        r@ == a@ + b@ + c@ + d@ + e@ + f@ + g@,
{
    let mut s = cat5(a, b, c, d, e);
    s.append(f);
    s.append(g);
    s
}

/// The decimal digit for a number below ten.
pub open spec fn digit_char(d: nat) -> char {
    if d == 0 {
        '0'
    } else if d == 1 {
        '1'
    } else if d == 2 {
        '2'
    } else if d == 3 {
        '3'
    } else if d == 4 {
        '4'
    } else if d == 5 {
        '5'
    } else if d == 6 {
        '6'
    } else if d == 7 {
        '7'
    } else if d == 8 {
        '8'
    } else {
        '9'
    }
}

/// The decimal numeral of a natural number, without leading zeros.
pub open spec fn decimal(n: nat) -> Seq<char>
    decreases n,
{
    if n < 10 {
        seq![digit_char(n)]
    } else {
        decimal(n / 10).push(digit_char(n % 10))
    }
}

/// The decimal numeral of an integer, with a minus sign when it is negative.
pub open spec fn signed_decimal(n: int) -> Seq<char> {
    if n < 0 {
        "-"@ + decimal((-n) as nat)
    } else {
        decimal(n as nat)
    }
}

fn digit_of(d: u64) -> (c: char)
    requires
        d < 10,
    ensures
        c == digit_char(d as nat),
{
    if d == 0 {
        '0'
    } else if d == 1 {
        '1'
    } else if d == 2 {
        '2'
    } else if d == 3 {
        '3'
    } else if d == 4 {
        '4'
    } else if d == 5 {
        '5'
    } else if d == 6 {
        '6'
    } else if d == 7 {
        '7'
    } else if d == 8 {
        '8'
    } else {
        '9'
    }
}

/// Write a natural number in decimal.
pub fn show_u64(n: u64) -> (r: String)
    ensures
        r@ == decimal(n as nat),
    decreases n,
{
    if n < 10 {
        let mut s = String::new();
        s.push(digit_of(n));
        assert(s@ =~= seq![digit_char(n as nat)]);
        s
    } else {
        let mut s = show_u64(n / 10);
        s.push(digit_of(n % 10));
        s
    }
}

/// Write a machine index in decimal.
pub fn show_usize(n: usize) -> (r: String)
    ensures
        r@ == decimal(n as nat),
{
    show_u64(n as u64)
}

/// Write the number after a machine index in decimal.
pub fn show_next(n: usize) -> (r: String)
    ensures
        r@ == decimal(n as nat + 1),
{
    if n < 9 {
        show_usize(n + 1)
    } else if n % 10 == 9 {
        let mut s = show_usize(n / 10 + 1);
        s.push('0');
        s
    } else {
        let mut s = show_usize(n / 10);
        s.push(digit_of((n % 10 + 1) as u64));
        s
    }
}

/// Write an integer in decimal.
pub fn show_i64(n: i64) -> (r: String)
    ensures
        r@ == signed_decimal(n as int),
{
    if n < 0 {
        let magnitude: u64 = (0 - (n as i128)) as u64;
        let digits = show_u64(magnitude);
        cat2("-", digits.as_str())
    } else {
        show_u64(n as u64)
    }
}

/// The number of bytes of a character in UTF-8.
pub open spec fn char_width(c: char) -> nat {
    if (c as u32) < 0x80 {
        1
    } else if (c as u32) < 0x800 {
        2
    } else if (c as u32) < 0x10000 {
        3
    } else {
        4
    }
}

/// The byte offset of the character at index `n`.
pub open spec fn byte_offset(chars: Seq<char>, n: nat) -> nat
    decreases n,
{
    if n == 0 || n > chars.len() {
        0
    } else {
        byte_offset(chars, (n - 1) as nat) + char_width(chars[n - 1])
    }
}

pub fn width(c: char) -> (r: usize)
    ensures
        r == char_width(c),
{
    let code: u32 = c as u32;
    if code < 0x80 {
        1
    } else if code < 0x800 {
        2
    } else if code < 0x10000 {
        3
    } else {
        4
    }
}

/// Byte offsets grow with the index.
pub proof fn byte_offset_monotone(chars: Seq<char>, i: nat, j: nat)
    requires
        i <= j <= chars.len(),
    ensures
        byte_offset(chars, i) + (j - i) <= byte_offset(chars, j),
    decreases j,
{
    if i < j {
        byte_offset_monotone(chars, i, (j - 1) as nat);
    }
}

/// A text spends exactly its byte offset at the end on its UTF-8 encoding.
pub proof fn byte_offset_is_encoding_length(chars: Seq<char>)
    ensures
        byte_offset(chars, chars.len()) == vstd::utf8::encode_utf8(chars).len(),
    decreases chars.len(),
{
    if chars.len() > 0 {
        let rest = chars.drop_first();
        byte_offset_is_encoding_length(rest);
        byte_offset_shift(chars, rest.len());
        vstd::utf8::char_is_scalar(chars[0]);
        assert(vstd::utf8::encode_scalar(chars[0] as u32).len() == char_width(chars[0]));
        assert(vstd::utf8::encode_utf8(chars) == vstd::utf8::encode_scalar(chars[0] as u32)
            + vstd::utf8::encode_utf8(rest));
    }
}

proof fn byte_offset_shift(chars: Seq<char>, n: nat)
    requires
        chars.len() > 0,
        n <= chars.drop_first().len(),
    ensures
        byte_offset(chars, n + 1) == char_width(chars[0]) + byte_offset(chars.drop_first(), n),
    decreases n,
{
    if n > 0 {
        byte_offset_shift(chars, (n - 1) as nat);
        assert(chars.drop_first()[n - 1] == chars[n as int]);
    } else {
        assert(byte_offset(chars, 0) == 0);
    }
}

/// The characters of a text, in order.
pub fn chars_of(s: &str) -> (r: Vec<char>)
    ensures
        r@ == s@,
{
    let mut v: Vec<char> = Vec::new();
    for c in it: s.chars()
        invariant
            v@ == it.seq().take(it.index() as int),
            it.seq() == s@,
    {
        assert(it.seq().take(it.index() as int + 1) =~= it.seq().take(it.index() as int).push(c));
        v.push(c);
    }
    assert(s@.take(s@.len() as int) =~= s@);
    v
}

/// -1, 0 or 1 as `a` is below, equal to or above `b`.
pub open spec fn order_int(a: int, b: int) -> int {
    if a < b {
        -1
    } else if a > b {
        1
    } else {
        0
    }
}

/// Texts in lexicographic order of their characters, compared from index `i` on.
pub open spec fn order_text(a: Seq<char>, b: Seq<char>, i: nat) -> int
    decreases a.len() - i,
{
    if i >= a.len() {
        if i >= b.len() {
            0
        } else {
            -1
        }
    } else if i >= b.len() {
        1
    } else if a[i as int] != b[i as int] {
        order_int(a[i as int] as int, b[i as int] as int)
    } else {
        order_text(a, b, i + 1)
    }
}

pub proof fn order_text_laws(a: Seq<char>, b: Seq<char>, i: nat)
    requires
        i <= a.len(),
        i <= b.len(),
        forall|k: int| 0 <= k < i ==> a[k] == b[k],
    ensures
        order_text(b, a, i) == -order_text(a, b, i),
        order_text(a, b, i) == 0 <==> a == b,
    decreases a.len() - i,
{
    if i < a.len() && i < b.len() {
        if a[i as int] == b[i as int] {
            order_text_laws(a, b, i + 1);
        }
    } else if a.len() == b.len() {
        assert(a =~= b);
    }
}

pub proof fn order_text_transitive(a: Seq<char>, b: Seq<char>, c: Seq<char>, i: nat)
    requires
        order_text(a, b, i) <= 0,
        order_text(b, c, i) <= 0,
    ensures
        order_text(a, c, i) <= 0,
    decreases a.len() - i,
{
    if i < a.len() && i < b.len() && i < c.len() {
        if a[i as int] == b[i as int] && b[i as int] == c[i as int] {
            order_text_transitive(a, b, c, i + 1);
        }
    }
}

/// Compare two texts in lexicographic order of their characters, which is also
/// the order of their UTF-8 bytes.
pub fn compare_text(a: &str, b: &str) -> (r: i32)
    ensures
        r == order_text(a@, b@, 0),
{
    let x = chars_of(a);
    let y = chars_of(b);
    let mut i: usize = 0;
    while i < x.len() && i < y.len()
        invariant
            i <= x.len(),
            i <= y.len(),
            x@ == a@,
            y@ == b@,
            order_text(x@, y@, i as nat) == order_text(x@, y@, 0),
        decreases x.len() - i,
    {
        if x[i] < y[i] {
            return -1;
        }
        if x[i] > y[i] {
            return 1;
        }
        i = i + 1;
    }
    if i < x.len() {
        1
    } else if i < y.len() {
        -1
    } else {
        0
    }
}

/// Whether a list of names holds `name`.
pub fn contains_name(names: &Vec<String>, name: &String) -> (r: bool)
    ensures
        r == string_list_view(names@).contains(name@),
{
    let ghost all = string_list_view(names@);
    for i in 0..names.len()
        invariant
            all == string_list_view(names@),
            forall|k: int| 0 <= k < i ==> all[k] != name@,
    {
        if same_string(&names[i], name) {
            assert(all[i as int] == name@);
            return true;
        }
    }
    assert(!all.contains(name@));
    false
}

/// Where `name` belongs among names in increasing order: after the names that
/// come before it.
pub open spec fn rank_of(names: Seq<Seq<char>>, name: Seq<char>, i: nat) -> nat
    decreases names.len() - i,
{
    if i < names.len() && order_text(names[i as int], name, 0) < 0 {
        rank_of(names, name, i + 1)
    } else {
        i
    }
}

/// The names with one more in its place, unless it is there already.
pub open spec fn insert_name(names: Seq<Seq<char>>, name: Seq<char>) -> Seq<Seq<char>> {
    let i = rank_of(names, name, 0);
    if i < names.len() && names[i as int] == name {
        names
    } else {
        names.insert(i as int, name)
    }
}

/// Whether names are in strictly increasing order.
pub open spec fn sorted_names(names: Seq<Seq<char>>) -> bool {
    forall|i: int, j: int|
        0 <= i < j < names.len() ==> order_text(#[trigger] names[i], #[trigger] names[j], 0) < 0
}

/// Insert a name into a sorted list.
pub fn add_name(names: Vec<String>, name: String) -> (r: Vec<String>)
    ensures
        string_list_view(r@) == insert_name(string_list_view(names@), name@),
{
    let ghost all = string_list_view(names@);
    let mut r = names;
    let mut i: usize = 0;
    while i < r.len() && compare_text(r[i].as_str(), name.as_str()) < 0
        invariant
            i <= r@.len(),
            r@ == names@,
            all == string_list_view(names@),
            rank_of(all, name@, i as nat) == rank_of(all, name@, 0),
        decreases r@.len() - i,
    {
        i = i + 1;
    }
    assert(i < all.len() ==> all[i as int] == r@[i as int]@);
    assert(rank_of(all, name@, 0) == i);
    if i < r.len() && same_string(&r[i], &name) {
        return r;
    }
    let ghost added = name@;
    r.insert(i, name);
    assert(string_list_view(r@) =~= all.insert(i as int, added));
    r
}

proof fn rank_bounds(names: Seq<Seq<char>>, name: Seq<char>, i: nat)
    requires
        i <= names.len(),
    ensures
        i <= rank_of(names, name, i) <= names.len(),
        forall|k: int|
            i <= k < rank_of(names, name, i) ==> order_text(#[trigger] names[k], name, 0) < 0,
        rank_of(names, name, i) < names.len() ==> order_text(
            names[rank_of(names, name, i) as int],
            name,
            0,
        ) >= 0,
    decreases names.len() - i,
{
    if i < names.len() && order_text(names[i as int], name, 0) < 0 {
        rank_bounds(names, name, i + 1);
    }
}

/// Inserting a name keeps the order, adds that name and loses none.
pub proof fn insert_name_keeps_order(names: Seq<Seq<char>>, name: Seq<char>)
    requires
        sorted_names(names),
    ensures
        sorted_names(insert_name(names, name)),
        forall|n: Seq<char>|
            #[trigger] insert_name(names, name).contains(n) <==> (n == name || names.contains(n)),
{
    let i = rank_of(names, name, 0) as int;
    rank_bounds(names, name, 0);
    if i < names.len() && names[i] == name {
        assert(names.contains(names[i]));
    } else {
        let r = names.insert(i, name);
        if i < names.len() {
            order_text_laws(names[i], name, 0);
        }
        assert forall|a: int, b: int| 0 <= a < b < r.len() implies order_text(
            #[trigger] r[a],
            #[trigger] r[b],
            0,
        ) < 0 by {
            if b < i {
            } else if b == i {
                assert(r[a] == names[a]);
            } else if a == i {
                order_text_laws(name, names[b - 1], 0);
                order_text_laws(names[i], name, 0);
                order_text_laws(name, names[i], 0);
                if b - 1 > i {
                    assert(order_text(names[i], names[b - 1], 0) < 0);
                    order_text_transitive(name, names[i], names[b - 1], 0);
                }
            } else if a < i {
                assert(order_text(names[a], names[b - 1], 0) < 0);
            } else {
                assert(order_text(names[a - 1], names[b - 1], 0) < 0);
            }
        }
        assert forall|n: Seq<char>| #[trigger] r.contains(n) <==> (n == name || names.contains(
            n,
        )) by {
            if n == name {
                assert(r[i] == name);
            }
            if names.contains(n) {
                let k = choose|k: int| 0 <= k < names.len() && names[k] == n;
                if k < i {
                    assert(r[k] == n);
                } else {
                    assert(r[k + 1] == n);
                }
            }
            if r.contains(n) {
                let k = choose|k: int| 0 <= k < r.len() && r[k] == n;
                if k < i {
                    assert(names[k] == n);
                } else if k > i {
                    assert(names[k - 1] == n);
                }
            }
        }
    }
}

/// Whether `pattern` stands at index `i`.
pub open spec fn stands_at(text: Seq<char>, pattern: Seq<char>, i: nat) -> bool {
    i + pattern.len() <= text.len() && text.subrange(i as int, i as int + pattern.len()) == pattern
}

/// The text before the first occurrence of `pattern` from index `i` on, or all
/// of it.
pub open spec fn text_before(text: Seq<char>, pattern: Seq<char>, i: nat) -> Seq<char>
    decreases text.len() - i,
{
    if i >= text.len() {
        text
    } else if stands_at(text, pattern, i) {
        text.take(i as int)
    } else {
        text_before(text, pattern, i + 1)
    }
}

/// See [`stands_at`].
pub fn pattern_at(text: &Vec<char>, pattern: &Vec<char>, i: usize) -> (r: bool)
    requires
        i <= text@.len(),
    ensures
        r == stands_at(text@, pattern@, i as nat),
{
    if pattern.len() > text.len() - i {
        return false;
    }
    let mut k: usize = 0;
    let size: usize = text.len();
    while k < pattern.len()
        invariant
            i + pattern@.len() <= text@.len(),
            text@.len() == size,
            k <= pattern@.len(),
            forall|j: int| 0 <= j < k ==> text@[i + j] == #[trigger] pattern@[j],
        decreases pattern@.len() - k,
    {
        if text[i + k] != pattern[k] {
            proof {
                let part = text@.subrange(i as int, i as int + pattern@.len());
                assert(part[k as int] == text@[i + k]);
                assert(part != pattern@);
            }
            return false;
        }
        k = k + 1;
    }
    assert(text@.subrange(i as int, i as int + pattern@.len()) =~= pattern@);
    true
}

/// The text before the first occurrence of a pattern, or all of it.
pub fn before_text(text: &str, pattern: &str) -> (r: String)
    ensures
        r@ == text_before(text@, pattern@, 0),
{
    let chars = chars_of(text);
    let mark = chars_of(pattern);
    let mut r = "".to_owned();
    proof {
        reveal_strlit("");
    }
    assert(r@ =~= chars@.take(0));
    let mut i: usize = 0;
    while i < chars.len()
        invariant
            i <= chars@.len(),
            r@ == chars@.take(i as int),
            chars@ == text@,
            mark@ == pattern@,
            text_before(text@, pattern@, i as nat) == text_before(text@, pattern@, 0),
        decreases chars@.len() - i,
    {
        if pattern_at(&chars, &mark, i) {
            return r;
        }
        r.push(chars[i]);
        assert(chars@.take(i + 1) =~= chars@.take(i as int).push(chars@[i as int]));
        i = i + 1;
    }
    assert(chars@.take(chars@.len() as int) =~= chars@);
    r
}

/// The characters from `from` to `to` as a string.
pub fn text_of(chars: &Vec<char>, from: usize, to: usize) -> (r: String)
    requires
        from <= to <= chars.len(),
    ensures
        r@ == chars@.subrange(from as int, to as int),
{
    let mut s = String::new();
    let mut j: usize = from;
    while j < to
        invariant
            from <= j <= to <= chars.len(),
            s@ == chars@.subrange(from as int, j as int),
        decreases to - j,
    {
        s.push(chars[j]);
        j = j + 1;
        assert(chars@.subrange(from as int, j as int) =~= chars@.subrange(
            from as int,
            j - 1,
        ).push(chars@[j - 1]));
    }
    s
}

/// What debug printing shows of a text: the text in double quotes, with its
/// quotes, backslashes and unprintable characters escaped.
pub uninterp spec fn quoted_form(text: Seq<char>) -> Seq<char>;

/// The text as std's `Debug` for `str` prints it. Trusted: what is printed
/// depends on the text alone.
#[verifier::external_body]
pub(crate) fn quote(text: &String) -> (r: String)
    ensures
        r@ == quoted_form(text@),
{
    format!("{text:?}")
}

/// How many bytes a text takes.
pub fn byte_len(text: &String) -> (r: usize)
    ensures
        r == byte_offset(text@, text@.len()),
{
    proof {
        byte_offset_is_encoding_length(text@);
    }
    let bytes = text.as_str().as_bytes();
    bytes.len()
}

} // verus!
