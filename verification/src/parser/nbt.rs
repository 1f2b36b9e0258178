//! The integer arrays of structured NBT literals (`[B; ...]`, `[I; ...]`,
//! `[L; ...]`): which element suffixes each accepts, the range of each
//! element, and the range check of a signed element.

use vstd::prelude::*;

verus! {

broadcast use vstd::string::group_string_axioms;

/// The three integer array kinds of SNBT.
#[derive(Clone, Copy, PartialEq, Eq, Structural, Debug)]
pub enum ArrayKind {
    Byte,
    Int,
    Long,
}

/// Element suffixes an array accepts: a byte array bytes only, an int array
/// bytes and shorts as well, a long array ints too; `i` stands for an
/// unsuffixed integer.
pub open spec fn allows_spec(kind: ArrayKind, suffix: char) -> bool {
    match kind {
        ArrayKind::Byte => suffix == 'b' || suffix == 'i',
        ArrayKind::Int => suffix == 'b' || suffix == 's' || suffix == 'i',
        ArrayKind::Long => suffix == 'b' || suffix == 's' || suffix == 'i' || suffix == 'l',
    }
}

/// The bounds an element with `suffix` must lie in; an unsuffixed element
/// takes the array's own element type.
pub open spec fn element_range_spec(kind: ArrayKind, suffix: char) -> (int, int) {
    if suffix == 'b' {
        (-128, 127)
    } else if suffix == 's' {
        (-32768, 32767)
    } else if suffix == 'l' {
        (i64::MIN as int, i64::MAX as int)
    } else {
        match kind {
            ArrayKind::Byte => (-128, 127),
            ArrayKind::Int => (i32::MIN as int, i32::MAX as int),
            ArrayKind::Long => (i64::MIN as int, i64::MAX as int),
        }
    }
}

impl ArrayKind {
    /// Whether an element with `suffix` may stand in this array.
    pub fn allows(self, suffix: char) -> (r: bool)
        ensures
            r == allows_spec(self, suffix),
    {
        match self {
            ArrayKind::Byte => suffix == 'b' || suffix == 'i',
            ArrayKind::Int => suffix == 'b' || suffix == 's' || suffix == 'i',
            ArrayKind::Long => suffix == 'b' || suffix == 's' || suffix == 'i' || suffix == 'l',
        }
    }

    /// The array's name in diagnostics.
    pub fn label(self) -> (r: &'static str)
        ensures
            r@ == match self {
                ArrayKind::Byte => "字节数组"@,
                ArrayKind::Int => "整数数组"@,
                ArrayKind::Long => "长整数数组"@,
            },
    {
        match self {
            ArrayKind::Byte => "字节数组",
            ArrayKind::Int => "整数数组",
            ArrayKind::Long => "长整数数组",
        }
    }

    /// The array's SNBT prefix letter.
    pub fn prefix(self) -> (r: &'static str)
        ensures
            r@ == match self {
                ArrayKind::Byte => "B"@,
                ArrayKind::Int => "I"@,
                ArrayKind::Long => "L"@,
            },
    {
        match self {
            ArrayKind::Byte => "B",
            ArrayKind::Int => "I",
            ArrayKind::Long => "L",
        }
    }

    /// The bounds of an element and the element's name in diagnostics.
    pub fn element_range(self, suffix: char) -> (r: (i64, i64, &'static str))
        ensures
            (r.0 as int, r.1 as int) == element_range_spec(self, suffix),
            r.2@ == (if suffix == 'b' {
                "字节元素"@
            } else if suffix == 's' {
                "短整数元素"@
            } else if suffix == 'l' {
                "长整数元素"@
            } else {
                match self {
                    ArrayKind::Byte => "字节元素"@,
                    ArrayKind::Int => "整数元素"@,
                    ArrayKind::Long => "长整数元素"@,
                }
            }),
    {
        if suffix == 'b' {
            (-128, 127, "字节元素")
        } else if suffix == 's' {
            (-32768, 32767, "短整数元素")
        } else if suffix == 'l' {
            (i64::MIN, i64::MAX, "长整数元素")
        } else {
            match self {
                ArrayKind::Byte => (-128, 127, "字节元素"),
                ArrayKind::Int => (-2147483648, 2147483647, "整数元素"),
                ArrayKind::Long => (i64::MIN, i64::MAX, "长整数元素"),
            }
        }
    }
}

/// The decimal digits of `n`.
pub open spec fn decimal_digits(n: nat) -> Seq<char>
    decreases n,
{
    if n < 10 {
        seq![(n + 48) as char]
    } else {
        decimal_digits(n / 10).push(((n % 10) + 48) as char)
    }
}

/// The decimal spelling of `n`, with `-` before a negative number.
pub open spec fn signed_decimal(n: int) -> Seq<char> {
    if n < 0 {
        seq!['-'] + decimal_digits((-n) as nat)
    } else {
        decimal_digits(n as nat)
    }
}

fn unsigned_text(n: u64) -> (r: String)
    ensures
        r@ == decimal_digits(n as nat),
    decreases n,
{
    let d = (n % 10) as u8;
    let c = (48u8 + d) as char;
    if n < 10 {
        let mut r = String::new();
        crate::chars::push_char(&mut r, c);
        assert(r@ =~= decimal_digits(n as nat));
        r
    } else {
        let mut r = unsigned_text(n / 10);
        crate::chars::push_char(&mut r, c);
        r
    }
}

/// The decimal spelling of a signed integer, as `Display` writes it.
pub fn signed_text(n: i64) -> (r: String)
    ensures
        r@ == signed_decimal(n as int),
{
    if n < 0 {
        let magnitude: u64 = if n == i64::MIN {
            9223372036854775808u64
        } else {
            (-n) as u64
        };
        let mut r = "-".to_owned();
        let digits = unsigned_text(magnitude);
        r.append(digits.as_str());
        proof {
            reveal_strlit("-");
        }
        r
    } else {
        unsigned_text(n as u64)
    }
}

/// The message for an element outside its bounds.
pub open spec fn out_of_range_message(label: Seq<char>, minimum: int, maximum: int) -> Seq<char> {
    label + "超出 "@ + signed_decimal(minimum) + " 到 "@ + signed_decimal(maximum) + " 的范围"@
}

/// Applies the sign to an unsigned literal value and checks the bounds.
pub fn signed_integer(value: i64, negative: bool, minimum: i64, maximum: i64, label: &str) -> (r: Result<
    i64,
    String,
>)
    requires
        negative ==> value > i64::MIN,
    ensures
        ({
            let signed = if negative {
                -value
            } else {
                value as int
            };
            match r {
                Ok(v) => minimum <= signed <= maximum && v == signed,
                Err(message) => (signed < minimum || signed > maximum) && message@ == out_of_range_message(
                    label@,
                    minimum as int,
                    maximum as int,
                ),
            }
        }),
{
    let signed = if negative {
        -value
    } else {
        value
    };
    if signed < minimum || signed > maximum {
        let mut message = label.to_owned();
        message.append("超出 ");
        message.append(signed_text(minimum).as_str());
        message.append(" 到 ");
        message.append(signed_text(maximum).as_str());
        message.append(" 的范围");
        return Err(message);
    }
    Ok(signed)
}

} // verus!
