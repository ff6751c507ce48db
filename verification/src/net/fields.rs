//! Typed reading of JSON records.
//!
//! A record arrives as an object with named members, or as an array with the
//! members in their declared order. Members that the reader does not know are
//! ignored in an object; an array may not hold more than the declared ones.
use vstd::prelude::*;

use crate::json::{Json, JsonView};
use crate::keyed::lookup;
use crate::text::{
    chars_of, decimal, digit, has_prefix, i64_text, same, signed_decimal, strip_prefix,
};

verus! {

/// The member of a record, by its name in an object or its place in an array.
pub open spec fn slot(v: JsonView, k: Seq<char>, i: int) -> Option<JsonView> {
    match v {
        JsonView::Object(fs) => lookup(fs, k),
        JsonView::Array(a) => if i < a.len() {
            Some(a[i])
        } else {
            None
        },
        _ => None,
    }
}

/// Whether `v` has the shape of a record of `n` members.
pub open spec fn is_record(v: JsonView, n: int) -> bool {
    match v {
        JsonView::Object(_) => true,
        JsonView::Array(a) => a.len() <= n,
        _ => false,
    }
}

/// A string that must be there.
pub open spec fn required_text(v: JsonView, k: Seq<char>, i: int) -> Option<Seq<char>> {
    match slot(v, k, i) {
        Some(JsonView::Str(s)) => Some(s),
        _ => None,
    }
}

/// A string that may be missing or `null`. In an array only a `lenient`
/// member may be missing.
pub open spec fn optional_text(v: JsonView, k: Seq<char>, i: int, lenient: bool) -> Option<
    Option<Seq<char>>,
> {
    match slot(v, k, i) {
        None => if v is Object || lenient {
            Some(None)
        } else {
            None
        },
        Some(JsonView::Null) => Some(None),
        Some(JsonView::Str(s)) => Some(Some(s)),
        _ => None,
    }
}

/// An integer that may be missing or `null`. In an array only a `lenient`
/// member may be missing.
pub open spec fn optional_int(v: JsonView, k: Seq<char>, i: int, lenient: bool) -> Option<
    Option<i64>,
> {
    match slot(v, k, i) {
        None => if v is Object || lenient {
            Some(None)
        } else {
            None
        },
        Some(JsonView::Null) => Some(None),
        Some(JsonView::Int(n)) => Some(Some(n)),
        _ => None,
    }
}

/// A flag that is `false` when missing.
pub open spec fn flag_or_false(v: JsonView, k: Seq<char>, i: int) -> Option<bool> {
    match slot(v, k, i) {
        None => Some(false),
        Some(JsonView::Bool(b)) => Some(b),
        _ => None,
    }
}

/// An integer that is 0 when missing.
pub open spec fn int_or_zero(v: JsonView, k: Seq<char>, i: int) -> Option<i64> {
    match slot(v, k, i) {
        None => Some(0),
        Some(JsonView::Int(n)) => Some(n),
        _ => None,
    }
}

/// The text of any number.
pub open spec fn number_text(v: JsonView) -> Option<Seq<char>> {
    match v {
        JsonView::Int(n) => Some(signed_decimal(n as int)),
        JsonView::Num(t) => Some(t),
        _ => None,
    }
}

/// The text of any number, `0` when missing.
pub open spec fn number_or_zero(v: JsonView, k: Seq<char>, i: int) -> Option<Seq<char>> {
    match slot(v, k, i) {
        None => Some("0"@),
        Some(n) => number_text(n),
    }
}

/// A member that is a record, may be missing, and may be `null`. `None` when
/// it has another shape.
pub open spec fn nested(v: JsonView, k: Seq<char>) -> Option<Option<JsonView>> {
    if !is_record(v, 1) {
        None
    } else {
        match slot(v, k, 0) {
            None => Some(None),
            Some(JsonView::Null) => Some(None),
            Some(x) => Some(Some(x)),
        }
    }
}

/// Every element of `a` read by `f`; `None` when `f` refuses one.
pub open spec fn read_all<T>(a: Seq<JsonView>, f: spec_fn(JsonView) -> Option<T>) -> Option<
    Seq<T>,
> {
    if forall|i: int| 0 <= i < a.len() ==> (#[trigger] f(a[i])) is Some {
        Some(Seq::new(a.len(), |i: int| f(a[i])->Some_0))
    } else {
        None
    }
}

/// A list of strings.
pub open spec fn text_list(v: JsonView) -> Option<Seq<Seq<char>>> {
    match v {
        JsonView::Array(a) => read_all(a, |x: JsonView| x.as_text()),
        _ => None,
    }
}

pub fn get_slot<'a>(v: &'a Json, k: &str, i: usize) -> (r: Option<&'a Json>)
    ensures
        r.deep_view() == slot(v.deep_view(), k@, i as int),
{
    match v {
        Json::Object(_) => v.get(k),
        Json::Array(a) => {
            proof {
                crate::json::array_tree(*a);
            }
            if i < a.len() {
                assert(a.deep_view()[i as int] == a@[i as int].deep_view());
                Some(&a[i])
            } else {
                None
            }
        },
        _ => None,
    }
}

pub fn record_shape(v: &Json, n: usize) -> (r: bool)
    ensures
        r == is_record(v.deep_view(), n as int),
{
    match v {
        Json::Object(_) => true,
        Json::Array(a) => {
            proof {
                crate::json::array_tree(*a);
            }
            a.len() <= n
        },
        _ => false,
    }
}

fn is_object(v: &Json) -> (r: bool)
    ensures
        r == (v.deep_view() is Object),
{
    match v {
        Json::Object(_) => true,
        _ => false,
    }
}

pub fn get_text(v: &Json, k: &str, i: usize) -> (r: Option<String>)
    ensures
        r.deep_view() == required_text(v.deep_view(), k@, i as int),
{
    match get_slot(v, k, i) {
        Some(Json::Str(s)) => Some(s.clone()),
        _ => None,
    }
}

pub fn get_optional_text(v: &Json, k: &str, i: usize, lenient: bool) -> (r: Option<
    Option<String>,
>)
    ensures
        r.deep_view() == optional_text(v.deep_view(), k@, i as int, lenient),
{
    match get_slot(v, k, i) {
        None => if is_object(v) || lenient {
            Some(None)
        } else {
            None
        },
        Some(Json::Null) => Some(None),
        Some(Json::Str(s)) => Some(Some(s.clone())),
        _ => None,
    }
}

pub fn get_optional_int(v: &Json, k: &str, i: usize, lenient: bool) -> (r: Option<Option<i64>>)
    ensures
        r == optional_int(v.deep_view(), k@, i as int, lenient),
{
    match get_slot(v, k, i) {
        None => if is_object(v) || lenient {
            Some(None)
        } else {
            None
        },
        Some(Json::Null) => Some(None),
        Some(Json::Int(n)) => Some(Some(*n)),
        _ => None,
    }
}

pub fn get_flag(v: &Json, k: &str, i: usize) -> (r: Option<bool>)
    ensures
        r == flag_or_false(v.deep_view(), k@, i as int),
{
    match get_slot(v, k, i) {
        None => Some(false),
        Some(Json::Bool(b)) => Some(*b),
        _ => None,
    }
}

pub fn get_int(v: &Json, k: &str, i: usize) -> (r: Option<i64>)
    ensures
        r == int_or_zero(v.deep_view(), k@, i as int),
{
    match get_slot(v, k, i) {
        None => Some(0),
        Some(Json::Int(n)) => Some(*n),
        _ => None,
    }
}

pub fn get_number_text(v: &Json) -> (r: Option<String>)
    ensures
        r.deep_view() == number_text(v.deep_view()),
{
    match v {
        Json::Int(n) => Some(i64_text(*n)),
        Json::Num(t) => Some(t.clone()),
        _ => None,
    }
}

pub fn get_number(v: &Json, k: &str, i: usize) -> (r: Option<String>)
    ensures
        r.deep_view() == number_or_zero(v.deep_view(), k@, i as int),
{
    match get_slot(v, k, i) {
        None => Some("0".to_owned()),
        Some(n) => get_number_text(n),
    }
}

pub fn get_text_list(v: &Json) -> (r: Option<Vec<String>>)
    ensures
        r.deep_view() == text_list(v.deep_view()),
{
    match v {
        Json::Array(a) => {
            proof {
                crate::json::array_tree(*a);
            }
            let ghost f = |x: JsonView| x.as_text();
            let ghost all = a.deep_view();
            let mut out: Vec<String> = Vec::new();
            let mut i: usize = 0;
            while i < a.len()
                invariant
                    i <= a@.len(),
                    all == a.deep_view(),
                    f == (|x: JsonView| x.as_text()),
                    v.deep_view() == JsonView::Array(all),
                    out@.len() == i,
                    forall|j: int|
                        0 <= j < i ==> (#[trigger] f(all[j])) == Some(out@[j]@),
                decreases a@.len() - i,
            {
                assert(all[i as int] == a@[i as int].deep_view());
                match &a[i] {
                    Json::Str(s) => {
                        out.push(s.clone());
                    },
                    _ => {
                        assert(f(all[i as int]) is None);
                        return None;
                    },
                }
                i = i + 1;
            }
            assert(out.deep_view() =~= read_all(all, f)->Some_0);
            Some(out)
        },
        _ => None,
    }
}

pub fn read_nested<'a>(v: &'a Json, k: &str) -> (r: Option<Option<&'a Json>>)
    ensures
        r.deep_view() == nested(v.deep_view(), k@),
{
    if !record_shape(v, 1) {
        return None;
    }
    match get_slot(v, k, 0) {
        None => Some(None),
        Some(Json::Null) => Some(None),
        Some(x) => Some(Some(x)),
    }
}

/// The number that a run of decimal digits stands for.
pub open spec fn digits_value(s: Seq<char>) -> nat
    decreases s.len(),
{
    if s.len() == 0 {
        0
    } else {
        10 * digits_value(s.drop_last()) + (s.last() as nat - '0' as nat) as nat
    }
}

/// Whether `s` is made of decimal digits.
pub open spec fn all_digits(s: Seq<char>) -> bool {
    forall|i: int| 0 <= i < s.len() ==> '0' <= #[trigger] s[i] <= '9'
}

/// A whole number from 0 on, within 64 bits.
pub open spec fn count_of(o: Option<JsonView>) -> Option<u64> {
    match o {
        Some(JsonView::Int(n)) => if n >= 0 {
            Some(n as u64)
        } else {
            None
        },
        Some(JsonView::Num(t)) => if t.len() > 0 && all_digits(t) && digits_value(t) <= u64::MAX {
            Some(digits_value(t) as u64)
        } else {
            None
        },
        _ => None,
    }
}

proof fn digits_value_grows(s: Seq<char>, n: int)
    requires
        0 <= n <= s.len(),
    ensures
        digits_value(s.take(n)) <= digits_value(s),
    decreases s.len() - n,
{
    if n < s.len() {
        digits_value_grows(s, n + 1);
        assert(s.take(n + 1).drop_last() =~= s.take(n));
    } else {
        assert(s.take(n) =~= s);
    }
}

fn digits_of(s: &str) -> (r: Option<u64>)
    ensures
        r == (if s@.len() > 0 && all_digits(s@) && digits_value(s@) <= u64::MAX {
            Some(digits_value(s@) as u64)
        } else {
            None
        }),
{
    let chars = chars_of(s);
    if chars.len() == 0 {
        return None;
    }
    let mut value: u64 = 0;
    let mut i: usize = 0;
    assert(s@.take(0).len() == 0);
    while i < chars.len()
        invariant
            chars@ == s@,
            i <= chars@.len(),
            s@.len() > 0,
            value == digits_value(s@.take(i as int)),
            forall|k: int| 0 <= k < i ==> '0' <= #[trigger] s@[k] <= '9',
        decreases chars@.len() - i,
    {
        let c = chars[i];
        if !('0' <= c && c <= '9') {
            assert(!all_digits(s@)) by {
                assert(s@[i as int] == c);
            }
            return None;
        }
        let d: u64 = c as u64 - 48;
        proof {
            let t = s@.take(i + 1);
            assert(t.drop_last() =~= s@.take(i as int));
            assert(t.last() == c);
            assert(digits_value(t) == 10 * value + d);
            digits_value_grows(s@, i + 1);
        }
        if value > (u64::MAX - d) / 10 {
            return None;
        }
        value = 10 * value + d;
        i = i + 1;
    }
    assert(s@.take(i as int) =~= s@);
    Some(value)
}

/// Reads a whole number from 0 on.
pub fn read_count(o: Option<&Json>) -> (r: Option<u64>)
    ensures
        r == count_of(o.deep_view()),
{
    match o {
        Some(Json::Int(n)) => if *n >= 0 {
            Some(*n as u64)
        } else {
            None
        },
        Some(Json::Num(t)) => digits_of(t.as_str()),
        _ => None,
    }
}

/// The value of a number's text: a whole number within 64 bits that is written
/// in the one usual way is held as such, any other by its text.
pub open spec fn number_json(t: Seq<char>) -> JsonView {
    if exists|n: i64| #[trigger] signed_decimal(n as int) == t {
        JsonView::Int(choose|n: i64| #[trigger] signed_decimal(n as int) == t)
    } else {
        JsonView::Num(t)
    }
}

/// A number's value keeps its text.
pub proof fn number_json_keeps_text(t: Seq<char>)
    ensures
        number_text(number_json(t)) == Some(t),
{
}

proof fn decimal_is_digits(n: nat)
    ensures
        decimal(n).len() > 0,
        all_digits(decimal(n)),
        digits_value(decimal(n)) == n,
    decreases n,
{
    let d = (n % 10) as int;
    let s = decimal(n);
    assert(digit(d) as int == 48 + d);
    assert('0' as int == 48 && '9' as int == 57);
    assert(s.last() == digit(d));
    if n < 10 {
        assert(s.drop_last().len() == 0);
        assert(digits_value(s.drop_last()) == 0);
    } else {
        decimal_is_digits(n / 10);
        assert(s.drop_last() =~= decimal(n / 10));
        assert forall|i: int| 0 <= i < s.len() implies '0' <= #[trigger] s[i] <= '9' by {
            if i < s.len() - 1 {
                assert(s[i] == decimal(n / 10)[i]);
            }
        }
    }
}

proof fn signed_decimal_injective(a: int, b: int)
    requires
        signed_decimal(a) == signed_decimal(b),
    ensures
        a == b,
{
    let s = signed_decimal(a);
    if a < 0 {
        decimal_is_digits((-a) as nat);
        assert(s[0] == '-');
        assert(s.skip(1) =~= decimal((-a) as nat));
    } else {
        decimal_is_digits(a as nat);
        assert('0' <= s[0] <= '9');
    }
    if b < 0 {
        decimal_is_digits((-b) as nat);
        assert(signed_decimal(b)[0] == '-');
        assert(signed_decimal(b).skip(1) =~= decimal((-b) as nat));
    } else {
        decimal_is_digits(b as nat);
        assert('0' <= signed_decimal(b)[0] <= '9');
    }
}

/// The value of a number's text.
pub fn number_value(t: &str) -> (r: Json)
    ensures
        r.deep_view() == number_json(t@),
{
    let found = match strip_prefix(t, "-") {
        Some(rest) => match digits_of(rest.as_str()) {
            Some(v) => if v < 0x8000_0000_0000_0000 {
                Some(-(v as i64))
            } else if v == 0x8000_0000_0000_0000 {
                Some(i64::MIN)
            } else {
                None
            },
            None => None,
        },
        None => match digits_of(t) {
            Some(v) => if v < 0x8000_0000_0000_0000 {
                Some(v as i64)
            } else {
                None
            },
            None => None,
        },
    };
    proof {
        reveal_strlit("-");
        assert("-"@ =~= seq!['-']);
        assert forall|n: i64| #[trigger] signed_decimal(n as int) == t@ implies found == Some(n) by {
            if n < 0 {
                decimal_is_digits((-n) as nat);
                assert(t@.subrange(0, 1) =~= "-"@);
                assert(has_prefix(t@, "-"@));
                assert(t@.skip(1) =~= decimal((-n) as nat));
            } else {
                decimal_is_digits(n as nat);
                assert('0' <= t@[0] <= '9');
                if has_prefix(t@, "-"@) {
                    assert(t@.subrange(0, 1)[0] == t@[0]);
                    assert("-"@[0] == '-');
                }
            }
        }
    }
    if let Some(n) = found {
        if same(i64_text(n).as_str(), t) {
            proof {
                let m = choose|m: i64| #[trigger] signed_decimal(m as int) == t@;
                signed_decimal_injective(n as int, m as int);
            }
            return Json::Int(n);
        }
    }
    Json::Num(t.to_owned())
}

} // verus!
