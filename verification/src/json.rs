//! A JSON tree and the numeric text conversions the decoders rely on.
//!
//! The transport hands response bodies to the library as values of [`Json`];
//! the decoders in the sibling modules turn such trees into typed entities
//! under exact contracts. Numbers are carried as their decimal text, so the
//! tree itself holds plain values only.
use vstd::prelude::*;

verus! {

/// A JSON value. Object members keep their order; a lookup takes the first
/// member with a matching key. Numbers keep their decimal source text.
#[derive(Debug)]
pub enum Json {
    Null,
    Bool(bool),
    Num(String),
    Str(String),
    Arr(Vec<Json>),
    Obj(Vec<(String, Json)>),
}

/// The first value bound to `key` among `fields`, if any.
pub open spec fn obj_lookup(fields: Seq<(String, Json)>, key: Seq<char>) -> Option<Json>
    decreases fields.len(),
{
    if fields.len() == 0 {
        None
    } else if fields[0].0@ == key {
        Some(fields[0].1)
    } else {
        obj_lookup(fields.drop_first(), key)
    }
}

/// The member of an object named `key`: `None` when `j` is not an object or
/// has no such member.
pub open spec fn json_member(j: Json, key: Seq<char>) -> Option<Json> {
    match j {
        Json::Obj(fields) => obj_lookup(fields@, key),
        _ => None,
    }
}

impl Json {
    /// Looks `key` up in an object, first match wins.
    pub fn get<'a>(&'a self, key: &String) -> (r: Option<&'a Json>)
        ensures
            match r {
                Some(v) => json_member(*self, key@) == Some(*v),
                None => json_member(*self, key@) is None,
            },
    {
        match self {
            Json::Obj(fields) => {
                let n = fields.len();
                let mut i: usize = 0;
                assert(fields@.skip(0) =~= fields@);
                assert(json_member(*self, key@) == obj_lookup(fields@, key@));
                while i < n
                    invariant
                        i <= n,
                        n == fields@.len(),
                        json_member(*self, key@) == obj_lookup(fields@, key@),
                        obj_lookup(fields@, key@) == obj_lookup(fields@.skip(i as int), key@),
                    decreases n - i,
                {
                    assert(fields@.skip(i as int)[0] == fields@[i as int]);
                    if fields[i].0 == *key {
                        assert(obj_lookup(fields@.skip(i as int), key@)
                            == Some(fields@[i as int].1));
                        return Some(&fields[i].1);
                    }
                    assert(fields@.skip(i as int).drop_first() =~= fields@.skip(i + 1));
                    i += 1;
                }
                assert(fields@.skip(n as int) =~= Seq::<(String, Json)>::empty());
                None
            },
            _ => None,
        }
    }
}

/// The character for one decimal digit.
pub open spec fn dec_digit(d: int) -> char {
    if d == 0 { '0' }
    else if d == 1 { '1' }
    else if d == 2 { '2' }
    else if d == 3 { '3' }
    else if d == 4 { '4' }
    else if d == 5 { '5' }
    else if d == 6 { '6' }
    else if d == 7 { '7' }
    else if d == 8 { '8' }
    else { '9' }
}

/// The decimal text of a nonnegative integer, no sign and no leading zeros.
pub open spec fn dec_text(n: int) -> Seq<char>
    decreases n,
{
    if n < 10 {
        seq![dec_digit(n)]
    } else {
        dec_text(n / 10) + seq![dec_digit(n % 10)]
    }
}

fn digit_str(d: u32) -> (r: &'static str)
    requires
        d < 10,
    ensures
        r@ == seq![dec_digit(d as int)],
{
    proof {
        reveal_strlit("0");
        reveal_strlit("1");
        reveal_strlit("2");
        reveal_strlit("3");
        reveal_strlit("4");
        reveal_strlit("5");
        reveal_strlit("6");
        reveal_strlit("7");
        reveal_strlit("8");
        reveal_strlit("9");
    }
    let r: &'static str = if d == 0 { "0" }
    else if d == 1 { "1" }
    else if d == 2 { "2" }
    else if d == 3 { "3" }
    else if d == 4 { "4" }
    else if d == 5 { "5" }
    else if d == 6 { "6" }
    else if d == 7 { "7" }
    else if d == 8 { "8" }
    else { "9" };
    proof {
        assert(r@ =~= seq![dec_digit(d as int)]);
    }
    r
}

/// Renders `n` in decimal.
pub fn dec_string(n: u32) -> (r: String)
    ensures
        r@ == dec_text(n as int),
    decreases n,
{
    if n < 10 {
        digit_str(n).to_owned()
    } else {
        let mut s = dec_string(n / 10);
        s.append(digit_str(n % 10));
        s
    }
}

/// `t` is a nonempty run of decimal digits.
pub open spec fn is_digits(t: Seq<char>) -> bool {
    t.len() > 0 && forall|i: int| 0 <= i < t.len() ==> '0' <= #[trigger] t[i] <= '9'
}

/// The numeric value of one digit character.
pub open spec fn digit_val(c: char) -> int {
    c as int - '0' as int
}

/// The value of a run of decimal digits.
pub open spec fn dec_val(t: Seq<char>) -> int
    decreases t.len(),
{
    if t.len() == 0 {
        0
    } else {
        dec_val(t.drop_last()) * 10 + digit_val(t.last())
    }
}

proof fn lemma_dec_val_nonneg(t: Seq<char>)
    requires
        forall|i: int| 0 <= i < t.len() ==> '0' <= #[trigger] t[i] <= '9',
    ensures
        dec_val(t) >= 0,
    decreases t.len(),
{
    if t.len() > 0 {
        lemma_dec_val_nonneg(t.drop_last());
    }
}

proof fn lemma_dec_val_prefix(t: Seq<char>, i: int)
    requires
        0 <= i <= t.len(),
        forall|k: int| 0 <= k < t.len() ==> '0' <= #[trigger] t[k] <= '9',
    ensures
        dec_val(t) >= dec_val(t.take(i)),
    decreases t.len() - i,
{
    if i < t.len() {
        lemma_dec_val_prefix(t, i + 1);
        assert(t.take(i + 1).drop_last() =~= t.take(i));
        assert(t.take(i + 1).last() == t[i]);
        lemma_dec_val_nonneg(t.take(i));
    } else {
        assert(t.take(i) =~= t);
    }
}

/// Parses a run of decimal digits as an integer no greater than `max`.
/// Returns the value exactly when `t` is all digits and its value fits.
fn parse_dec_bounded(t: &String, max: u64) -> (r: Option<u64>)
    requires
        max <= 0xffff_ffffu64,
    ensures
        r is Some <==> is_digits(t@) && dec_val(t@) <= max,
        r matches Some(v) ==> v == dec_val(t@),
{
    let s = t.as_str();
    let n = s.unicode_len();
    if n == 0 {
        return None;
    }
    let mut acc: u64 = 0;
    let mut i: usize = 0;
    while i < n
        invariant
            0 <= i <= n,
            n == s@.len(),
            s@ == t@,
            max <= 0xffff_ffffu64,
            acc == dec_val(s@.take(i as int)),
            acc <= max,
            forall|k: int| 0 <= k < i ==> '0' <= #[trigger] s@[k] <= '9',
        decreases n - i,
    {
        let c = s.get_char(i);
        if c < '0' || c > '9' {
            return None;
        }
        let d: u64 = (c as u32 as u64) - ('0' as u32 as u64);
        assert(d == digit_val(s@[i as int]));
        assert(s@.take(i + 1).drop_last() =~= s@.take(i as int));
        assert(s@.take(i + 1).last() == s@[i as int]);
        let next = acc * 10 + d;
        if next > max {
            proof {
                if is_digits(s@) {
                    lemma_dec_val_prefix(s@, i + 1);
                }
            }
            return None;
        }
        acc = next;
        i += 1;
    }
    assert(s@.take(n as int) =~= s@);
    Some(acc)
}

/// Parses decimal text as a `u32`; exact about when parsing succeeds.
pub fn parse_u32(t: &String) -> (r: Option<u32>)
    ensures
        r is Some <==> is_digits(t@) && dec_val(t@) <= u32::MAX,
        r matches Some(v) ==> v == dec_val(t@),
{
    match parse_dec_bounded(t, 0xffff_ffffu64) {
        Some(v) => Some(v as u32),
        None => None,
    }
}

/// Parses decimal text as a `u8`; exact about when parsing succeeds.
pub fn parse_u8(t: &String) -> (r: Option<u8>)
    ensures
        r is Some <==> is_digits(t@) && dec_val(t@) <= u8::MAX,
        r matches Some(v) ==> v == dec_val(t@),
{
    match parse_dec_bounded(t, 0xffu64) {
        Some(v) => Some(v as u8),
        None => None,
    }
}

/// The value of optionally `-`-signed decimal text, when well formed.
pub open spec fn signed_dec_val(t: Seq<char>) -> Option<int> {
    if t.len() > 0 && t[0] == '-' {
        if is_digits(t.drop_first()) {
            Some(-dec_val(t.drop_first()))
        } else {
            None
        }
    } else if is_digits(t) {
        Some(dec_val(t))
    } else {
        None
    }
}

/// Parses optionally signed decimal text as an `i16`; exact about success.
pub fn parse_i16(t: &String) -> (r: Option<i16>)
    ensures
        r is Some <==> (signed_dec_val(t@) matches Some(v) && i16::MIN <= v <= i16::MAX),
        r matches Some(v) ==> Some(v as int) == signed_dec_val(t@),
{
    let s = t.as_str();
    let n = s.unicode_len();
    if n > 0 && s.get_char(0) == '-' {
        let rest = s.substring_char(1, n).to_owned();
        proof {
            assert(rest@ =~= t@.drop_first());
        }
        match parse_dec_bounded(&rest, 0x8000u64) {
            Some(v) => {
                if v == 0x8000u64 {
                    Some(i16::MIN)
                } else {
                    Some(-(v as i16))
                }
            },
            None => None,
        }
    } else {
        proof {
            if is_digits(t@) {
                lemma_dec_val_nonneg(t@);
            }
        }
        match parse_dec_bounded(t, 0x7fffu64) {
            Some(v) => Some(v as i16),
            None => None,
        }
    }
}

} // verus!
