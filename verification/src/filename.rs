//! Names of record files: five decimal digits, a dot and the record extension.

use vstd::prelude::*;
use vstd::string::*;

verus! {

/// Number of digits that open the name of a record file.
pub const ID_DIGITS: usize = 5;

/// Whether `c` is one of the ASCII digits `0` to `9`.
pub open spec fn is_decimal_digit(c: char) -> bool {
    '0' <= c && c <= '9'
}

/// The number that the ASCII digit `c` stands for.
pub open spec fn digit_value(c: char) -> nat
    recommends
        is_decimal_digit(c),
{
    (c as int - '0' as int) as nat
}

/// The number written by `digits`, most significant digit first.
pub open spec fn decimal_value(digits: Seq<char>) -> nat
    decreases digits.len(),
{
    if digits.len() == 0 {
        0
    } else {
        decimal_value(digits.drop_last()) * 10 + digit_value(digits.last())
    }
}

/// The extension of record files, without its dot.
pub open spec fn record_extension() -> Seq<char> {
    seq!['t', 'o', 'm', 'l']
}

/// Whether `name` is exactly five decimal digits, a dot and `extension`.
pub open spec fn is_record_name_with(name: Seq<char>, extension: Seq<char>) -> bool {
    &&& name.len() == ID_DIGITS + 1 + extension.len()
    &&& forall|i: int| 0 <= i < ID_DIGITS ==> is_decimal_digit(#[trigger] name[i])
    &&& name[ID_DIGITS as int] == '.'
    &&& name.subrange(ID_DIGITS + 1, name.len() as int) == extension
}

/// Whether `name` names a record file: five decimal digits and `.toml`.
pub open spec fn is_record_name(name: Seq<char>) -> bool {
    is_record_name_with(name, record_extension())
}

/// The identifier that a record file's name carries: the number written by
/// its five leading digits.
pub open spec fn identifier_of(name: Seq<char>) -> nat
    recommends
        name.len() >= ID_DIGITS,
{
    digit_value(name[0]) * 10000 + digit_value(name[1]) * 1000 + digit_value(name[2]) * 100
        + digit_value(name[3]) * 10 + digit_value(name[4])
}

/// The identifier is the decimal value of the name's first five characters.
pub proof fn lemma_identifier_is_decimal_value(name: Seq<char>)
    requires
        name.len() >= ID_DIGITS,
    ensures
        identifier_of(name) == decimal_value(name.subrange(0, ID_DIGITS as int)),
{
    let d5 = name.subrange(0, 5);
    let d4 = name.subrange(0, 4);
    let d3 = name.subrange(0, 3);
    let d2 = name.subrange(0, 2);
    let d1 = name.subrange(0, 1);
    let d0 = name.subrange(0, 0);
    assert(d5.drop_last() == d4 && d5.last() == name[4]);
    assert(d4.drop_last() == d3 && d4.last() == name[3]);
    assert(d3.drop_last() == d2 && d3.last() == name[2]);
    assert(d2.drop_last() == d1 && d2.last() == name[1]);
    assert(d1.drop_last() == d0 && d1.last() == name[0]);
    reveal_with_fuel(decimal_value, 6);
}

/// Ten to the power `n`.
pub open spec fn power_of_ten(n: nat) -> nat
    decreases n,
{
    if n == 0 {
        1
    } else {
        10 * power_of_ten((n - 1) as nat)
    }
}

/// A number written with `n` decimal digits is below ten to the power `n`.
pub proof fn lemma_decimal_value_bound(digits: Seq<char>)
    requires
        forall|i: int| 0 <= i < digits.len() ==> is_decimal_digit(#[trigger] digits[i]),
    ensures
        decimal_value(digits) < power_of_ten(digits.len()),
    decreases digits.len(),
{
    if digits.len() > 0 {
        lemma_decimal_value_bound(digits.drop_last());
    }
}

/// Every record name carries an identifier below 100000.
pub proof fn lemma_identifier_bound(name: Seq<char>, extension: Seq<char>)
    requires
        is_record_name_with(name, extension),
    ensures
        identifier_of(name) <= 99999,
{
    assert(is_decimal_digit(name[0]) && is_decimal_digit(name[1]) && is_decimal_digit(name[2])
        && is_decimal_digit(name[3]) && is_decimal_digit(name[4]));
}

/// Decides whether `name` is a record name for the given extension, and if so
/// yields the identifier written by its five digits (leading zeros allowed).
/// Any other name is answered with `None`.
pub fn parse_record_name(name: &str, extension: &str) -> (r: Option<u32>)
    ensures
        r.is_some() == is_record_name_with(name@, extension@),
        r matches Some(id) ==> id as nat == identifier_of(name@),
{
    let name_len: usize = name.unicode_len();
    let ext_len: usize = extension.unicode_len();
    if name_len < ID_DIGITS + 1 || name_len - (ID_DIGITS + 1) != ext_len {
        return None;
    }
    let mut id: u32 = 0;
    let mut i: usize = 0;
    while i < ID_DIGITS
        invariant
            i <= ID_DIGITS,
            name_len == name@.len(),
            name_len >= ID_DIGITS + 1,
            forall|k: int| 0 <= k < i ==> is_decimal_digit(#[trigger] name@[k]),
            id as nat == decimal_value(name@.subrange(0, i as int)),
            id as nat <= 99999,
        decreases ID_DIGITS - i,
    {
        let c: char = name.get_char(i);
        if !(c >= '0' && c <= '9') {
            return None;
        }
        let d: u32 = c as u32 - '0' as u32;
        proof {
            let prefix = name@.subrange(0, i as int + 1);
            assert(prefix.drop_last() == name@.subrange(0, i as int));
            assert(prefix.last() == c);
            assert forall|k: int| 0 <= k < prefix.len() implies is_decimal_digit(
                #[trigger] prefix[k],
            ) by {
                assert(prefix[k] == name@[k]);
            }
            lemma_decimal_value_bound(prefix);
            reveal_with_fuel(power_of_ten, 6);
        }
        id = id * 10 + d;
        i = i + 1;
    }
    if name.get_char(ID_DIGITS) != '.' {
        return None;
    }
    let mut j: usize = 0;
    while j < ext_len
        invariant
            j <= ext_len,
            ext_len == extension@.len(),
            name_len == name@.len(),
            name_len == ID_DIGITS + 1 + ext_len,
            forall|k: int| 0 <= k < j ==> name@[ID_DIGITS + 1 + k] == #[trigger] extension@[k],
        decreases ext_len - j,
    {
        if name.get_char(ID_DIGITS + 1 + j) != extension.get_char(j) {
            proof {
                let tail = name@.subrange(ID_DIGITS + 1, name@.len() as int);
                assert(tail[j as int] == name@[ID_DIGITS + 1 + j]);
            }
            return None;
        }
        j = j + 1;
    }
    proof {
        assert(name@.subrange(ID_DIGITS + 1, name@.len() as int) =~= extension@);
        lemma_identifier_is_decimal_value(name@);
    }
    Some(id)
}

/// Decides whether `name` names a record file (`NNNNN.toml`) and yields its
/// identifier; `00042.toml` carries 42. Other names are no records and are
/// answered with `None`.
pub fn record_identifier(name: &str) -> (r: Option<u32>)
    ensures
        r.is_some() == is_record_name(name@),
        r matches Some(id) ==> id as nat == identifier_of(name@) && id <= 99999,
{
    proof {
        reveal_strlit("toml");
        assert("toml"@ =~= record_extension());
    }
    let r = parse_record_name(name, "toml");
    proof {
        if r.is_some() {
            lemma_identifier_bound(name@, record_extension());
        }
    }
    r
}

} // verus!
