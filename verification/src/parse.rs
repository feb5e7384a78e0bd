//! The primitive field types the generated constructor can populate, and the
//! textual parsing the generated code applies to environment values.

use vstd::prelude::*;
use vstd::string::StrSliceExecFns;
use vstd::string::StringExecFns;

verus! {

/// The primitive types a field can be parsed into. An unsigned integer
/// carries the largest value its declared width admits (`usize` takes the
/// width of the platform the model runs on). Other declared types — signed
/// integers, or any further type with a standard textual parse — are not
/// modeled here: `binding_for` yields no binding for them, while generation
/// and the emitted code support them unchanged.
#[derive(Debug, Clone, Copy, PartialEq, Eq, Structural)]
pub enum PrimType {
    Uint { max: u64 },
    Bool,
    Text,
}

/// A parsed field value.
#[derive(Debug, Clone, PartialEq, Eq)]
pub enum PrimValue {
    Uint(u64),
    Bool(bool),
    Text(String),
}

/// The mathematical value of a parsed field, with text as a character
/// sequence.
pub enum PrimValueModel {
    Uint(u64),
    Bool(bool),
    Text(Seq<char>),
}

/// The model of a parsed field value.
pub open spec fn prim_value_model(v: PrimValue) -> PrimValueModel {
    match v {
        PrimValue::Uint(n) => PrimValueModel::Uint(n),
        PrimValue::Bool(b) => PrimValueModel::Bool(b),
        PrimValue::Text(s) => PrimValueModel::Text(s@),
    }
}

/// The model of an optional parsed field value.
pub open spec fn opt_prim_model(r: Option<PrimValue>) -> Option<PrimValueModel> {
    match r {
        Some(v) => Some(prim_value_model(v)),
        None => None,
    }
}

/// Whether `c` is a decimal digit.
pub open spec fn is_dec_digit(c: char) -> bool {
    48 <= c as u32 <= 57
}

/// The numeric value of a decimal digit.
pub open spec fn digit_of(c: char) -> int {
    c as u32 - 48
}

/// Whether every character of `s` is a decimal digit.
pub open spec fn all_digits(s: Seq<char>) -> bool {
    forall|i: int| 0 <= i < s.len() ==> is_dec_digit(#[trigger] s[i])
}

/// The value of a sequence of decimal digits, most significant first.
pub open spec fn dec_val(s: Seq<char>) -> int
    decreases s.len(),
{
    if s.len() == 0 {
        0
    } else {
        dec_val(s.drop_last()) * 10 + digit_of(s.last())
    }
}

/// The digits of an unsigned decimal literal: the whole text, or the text
/// after a single leading `+` sign.
pub open spec fn uint_digits(s: Seq<char>) -> Seq<char> {
    if s.len() > 0 && s[0] == '+' {
        s.skip(1)
    } else {
        s
    }
}

/// Whether `s` parses as an unsigned 64-bit integer: an optional leading
/// `+`, then at least one decimal digit, with a value that fits in 64 bits.
pub open spec fn uint_parse_ok(s: Seq<char>) -> bool {
    uint_digits(s).len() > 0 && all_digits(uint_digits(s)) && dec_val(uint_digits(s))
        <= u64::MAX
}

/// The integer value `s` parses to.
pub open spec fn uint_parse_val(s: Seq<char>) -> int {
    dec_val(uint_digits(s))
}

/// Whether `s` parses as a boolean, and to which one: exactly the texts
/// `true` and `false` parse.
pub open spec fn bool_parse_spec(s: Seq<char>) -> Option<bool> {
    if s == "true"@ {
        Some(true)
    } else if s == "false"@ {
        Some(false)
    } else {
        None
    }
}

/// What a text parses to at a given primitive type: an integer must also fit
/// the declared width; text fields take the value verbatim.
pub open spec fn prim_parse_spec(t: PrimType, s: Seq<char>) -> Option<PrimValueModel> {
    match t {
        PrimType::Uint { max } => if uint_parse_ok(s) && uint_parse_val(s) <= max {
            Some(PrimValueModel::Uint(uint_parse_val(s) as u64))
        } else {
            None
        },
        PrimType::Bool => match bool_parse_spec(s) {
            Some(b) => Some(PrimValueModel::Bool(b)),
            None => None,
        },
        PrimType::Text => Some(PrimValueModel::Text(s)),
    }
}

proof fn lemma_dec_val_nonneg(s: Seq<char>)
    requires
        all_digits(s),
    ensures
        dec_val(s) >= 0,
    decreases s.len(),
{
    if s.len() > 0 {
        assert forall|i: int| 0 <= i < s.drop_last().len() implies is_dec_digit(
            #[trigger] s.drop_last()[i],
        ) by {
            assert(s.drop_last()[i] == s[i]);
        }
        lemma_dec_val_nonneg(s.drop_last());
    }
}

proof fn lemma_dec_val_prefix_le(s: Seq<char>, i: int)
    requires
        all_digits(s),
        0 <= i <= s.len(),
    ensures
        dec_val(s.subrange(0, i)) <= dec_val(s),
    decreases s.len() - i,
{
    if i == s.len() {
        assert(s.subrange(0, i) =~= s);
    } else {
        let shorter = s.subrange(0, i);
        let longer = s.subrange(0, i + 1);
        assert(longer.drop_last() =~= shorter);
        assert(longer.last() == s[i]);
        assert forall|j: int| 0 <= j < shorter.len() implies is_dec_digit(
            #[trigger] shorter[j],
        ) by {
            assert(shorter[j] == s[j]);
        }
        lemma_dec_val_nonneg(shorter);
        assert(dec_val(longer) == dec_val(shorter) * 10 + digit_of(s[i]));
        assert(dec_val(shorter) * 10 >= dec_val(shorter));
        lemma_dec_val_prefix_le(s, i + 1);
    }
}

/// Parse an unsigned 64-bit integer from decimal text: an optional leading
/// `+` sign, then one or more digits; anything else, or a value over
/// `u64::MAX`, is rejected.
pub fn parse_uint(s: &str) -> (r: Option<u64>)
    ensures
        (r is Some) == uint_parse_ok(s@),
        r matches Some(n) ==> n == uint_parse_val(s@),
{
    let len: usize = s.unicode_len();
    let start: usize = if len > 0 && s.get_char(0) == '+' {
        1
    } else {
        0
    };
    proof {
        assert(uint_digits(s@) =~= s@.subrange(start as int, len as int));
    }
    if start == len {
        return None;
    }
    let mut acc: u64 = 0;
    let mut i: usize = start;
    proof {
        assert(s@.subrange(start as int, start as int) =~= Seq::<char>::empty());
    }
    while i < len
        invariant
            start <= i <= len,
            start < len,
            len == s@.len(),
            uint_digits(s@) =~= s@.subrange(start as int, len as int),
            all_digits(s@.subrange(start as int, i as int)),
            acc == dec_val(s@.subrange(start as int, i as int)),
        decreases len - i,
    {
        let c: char = s.get_char(i);
        let u: u32 = c as u32;
        let ghost digits = uint_digits(s@);
        if u < 48 || u > 57 {
            proof {
                assert(digits[i - start as int] == s@[i as int]);
                assert(!is_dec_digit(digits[i - start as int]));
            }
            return None;
        }
        let d: u32 = u - 48;
        let wide: u128 = acc as u128 * 10 + d as u128;
        proof {
            let prev = s@.subrange(start as int, i as int);
            let ext = s@.subrange(start as int, i as int + 1);
            assert(ext.drop_last() =~= prev);
            assert(ext.last() == s@[i as int]);
            assert(dec_val(ext) == acc * 10 + d);
        }
        if wide > u64::MAX as u128 {
            proof {
                if all_digits(digits) {
                    let ext = s@.subrange(start as int, i as int + 1);
                    assert(ext =~= digits.subrange(0, i - start as int + 1));
                    lemma_dec_val_prefix_le(digits, i - start as int + 1);
                    assert(dec_val(digits) > u64::MAX);
                }
            }
            return None;
        }
        proof {
            assert forall|j: int| 0 <= j < s@.subrange(start as int, i as int + 1).len()
                implies is_dec_digit(#[trigger] s@.subrange(start as int, i as int + 1)[j]) by {
                let prev = s@.subrange(start as int, i as int);
                if j < prev.len() {
                    assert(s@.subrange(start as int, i as int + 1)[j] == prev[j]);
                } else {
                    assert(s@.subrange(start as int, i as int + 1)[j] == s@[i as int]);
                }
            }
        }
        acc = wide as u64;
        i = i + 1;
    }
    proof {
        assert(s@.subrange(start as int, i as int) =~= uint_digits(s@));
    }
    Some(acc)
}

/// Parse a boolean: exactly the texts `true` and `false` are accepted.
pub fn parse_bool(s: &str) -> (r: Option<bool>)
    ensures
        r == bool_parse_spec(s@),
{
    let owned: String = s.to_owned();
    if owned == String::from_str("true") {
        Some(true)
    } else if owned == String::from_str("false") {
        Some(false)
    } else {
        None
    }
}

/// Parse a text at a primitive type, as the generated constructor does with
/// the value of an environment variable.
pub fn parse_prim(t: PrimType, s: &String) -> (r: Option<PrimValue>)
    ensures
        opt_prim_model(r) == prim_parse_spec(t, s@),
{
    match t {
        PrimType::Uint { max } => match parse_uint(s.as_str()) {
            Some(n) => if n <= max {
                Some(PrimValue::Uint(n))
            } else {
                None
            },
            None => None,
        },
        PrimType::Bool => match parse_bool(s.as_str()) {
            Some(b) => Some(PrimValue::Bool(b)),
            None => None,
        },
        PrimType::Text => Some(PrimValue::Text(s.clone())),
    }
}

/// The name a primitive type carries in source text, as a declared field
/// type or as the argument of an `Option` wrapper; an unsigned integer type
/// brings the largest value of its width.
pub open spec fn prim_type_of_spec(name: Seq<char>) -> Option<PrimType> {
    if name == "u8"@ {
        Some(PrimType::Uint { max: u8::MAX as u64 })
    } else if name == "u16"@ {
        Some(PrimType::Uint { max: u16::MAX as u64 })
    } else if name == "u32"@ {
        Some(PrimType::Uint { max: u32::MAX as u64 })
    } else if name == "u64"@ {
        Some(PrimType::Uint { max: u64::MAX })
    } else if name == "usize"@ {
        Some(PrimType::Uint { max: usize::MAX as u64 })
    } else if name == "bool"@ {
        Some(PrimType::Bool)
    } else if name == "String"@ {
        Some(PrimType::Text)
    } else {
        None
    }
}

/// The primitive type named by `name`, if it is one the constructor models.
pub fn prim_type_of(name: &String) -> (r: Option<PrimType>)
    ensures
        r == prim_type_of_spec(name@),
{
    if *name == String::from_str("u8") {
        Some(PrimType::Uint { max: u8::MAX as u64 })
    } else if *name == String::from_str("u16") {
        Some(PrimType::Uint { max: u16::MAX as u64 })
    } else if *name == String::from_str("u32") {
        Some(PrimType::Uint { max: u32::MAX as u64 })
    } else if *name == String::from_str("u64") {
        Some(PrimType::Uint { max: u64::MAX })
    } else if *name == String::from_str("usize") {
        Some(PrimType::Uint { max: usize::MAX as u64 })
    } else if *name == String::from_str("bool") {
        Some(PrimType::Bool)
    } else if *name == String::from_str("String") {
        Some(PrimType::Text)
    } else {
        None
    }
}

} // verus!
