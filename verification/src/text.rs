//! Small text primitives that the MoonBit renderers are built from:
//! decimal and hexadecimal numerals, UTF-8 byte lengths and the
//! identifier casing used for generated vector view names.
use vstd::prelude::*;
use vstd::utf8::encode_utf8;

verus! {

/// The character of a decimal digit.
pub open spec fn digit_char(d: nat) -> char {
    (d + 48) as char
}

/// `n` written in base ten without sign or leading zeros, as `{}` formats it.
pub open spec fn decimal(n: nat) -> Seq<char>
    decreases n,
{
    if n < 10 {
        seq![digit_char(n)]
    } else {
        decimal(n / 10).push(digit_char(n % 10))
    }
}

/// The lowercase character of a hexadecimal digit.
pub open spec fn hex_char(d: nat) -> char {
    if d < 10 {
        (d + 48) as char
    } else {
        (d + 87) as char
    }
}

/// A byte as exactly two lowercase hexadecimal digits, as `{:02x}` formats it.
pub open spec fn hex_byte(b: u8) -> Seq<char> {
    seq![hex_char(b as nat / 16), hex_char(b as nat % 16)]
}

/// The length in bytes of the UTF-8 encoding of `s`, which is what
/// `str::len` measures.
pub open spec fn byte_len(s: Seq<char>) -> nat {
    encode_utf8(s).len()
}

/// The uppercase mapping of a character as the standard library computes it
/// (one or more characters).
pub uninterp spec fn uppercase_mapping(c: char) -> Seq<char>;

/// The text that `{:?}` writes for a string as the standard library
/// formats it: the string in double quotes, with quotes, backslashes and
/// other characters escaped.
pub uninterp spec fn str_debug(s: Seq<char>) -> Seq<char>;

/// An ASCII letter, digit or underscore: a character that `{:?}` writes
/// unescaped inside a string.
pub open spec fn is_ascii_word_char(c: char) -> bool {
    ||| 48 <= (c as u32) <= 57
    ||| 65 <= (c as u32) <= 90
    ||| 97 <= (c as u32) <= 122
    ||| c == '_'
}

/// The ASCII lowercase of a character: ASCII capitals become lowercase
/// letters, every other character stays.
pub open spec fn ascii_lower(c: char) -> char {
    if 65 <= (c as u32) <= 90 {
        ((c as u32) + 32) as char
    } else {
        c
    }
}

/// `s` with every ASCII capital made lowercase.
pub open spec fn ascii_lowercase(s: Seq<char>) -> Seq<char> {
    s.map_values(|c: char| ascii_lower(c))
}

/// An ASCII lowercase letter.
pub open spec fn is_ascii_lowercase(c: char) -> bool {
    97 <= (c as u32) <= 122
}

/// The parts of `s` separated by underscores, empty parts dropped, each with
/// its first character replaced by its uppercase mapping, joined together.
/// `at_start` says whether the next non-underscore character begins a part.
pub open spec fn capitalized_parts(s: Seq<char>, at_start: bool) -> Seq<char>
    decreases s.len(),
{
    if s.len() == 0 {
        Seq::empty()
    } else if s[0] == '_' {
        capitalized_parts(s.drop_first(), true)
    } else if at_start {
        uppercase_mapping(s[0]) + capitalized_parts(s.drop_first(), false)
    } else {
        seq![s[0]] + capitalized_parts(s.drop_first(), false)
    }
}

/// The ASCII uppercase of a character: ASCII lowercase letters become
/// capitals, every other character stays.
pub open spec fn ascii_upper(c: char) -> char {
    if is_ascii_lowercase(c) {
        ((c as u32) - 32) as char
    } else {
        c
    }
}

/// Every character of `s` is ASCII.
pub open spec fn is_ascii_text(s: Seq<char>) -> bool {
    forall|i: int| 0 <= i < s.len() ==> (#[trigger] s[i] as u32) < 128
}

/// `capitalized_parts` for an ASCII text, where the uppercase mapping is
/// the ASCII one.
pub open spec fn ascii_capitalized_parts(s: Seq<char>, at_start: bool) -> Seq<char>
    decreases s.len(),
{
    if s.len() == 0 {
        Seq::empty()
    } else if s[0] == '_' {
        ascii_capitalized_parts(s.drop_first(), true)
    } else if at_start {
        seq![ascii_upper(s[0])] + ascii_capitalized_parts(s.drop_first(), false)
    } else {
        seq![s[0]] + ascii_capitalized_parts(s.drop_first(), false)
    }
}

/// The four characters of the suffix `View`.
pub open spec fn view_suffix() -> Seq<char> {
    seq!['V', 'i', 'e', 'w']
}

/// `s` without one trailing `View`, or `s` itself when it does not end so.
pub open spec fn strip_view_suffix(s: Seq<char>) -> Seq<char> {
    if s.len() >= 4 && s.subrange(s.len() - 4, s.len() as int) == view_suffix() {
        s.subrange(0, s.len() - 4)
    } else {
        s
    }
}

/// The name of the view generated for the vector field `field` of the view
/// `parent_view`: the parent's name without `View`, the field in upper camel
/// case, then `View`.
pub open spec fn vec_view_name_text(parent_view: Seq<char>, field: Seq<char>) -> Seq<char> {
    strip_view_suffix(parent_view) + capitalized_parts(field, true) + view_suffix()
}

/// The value of a decimal digit character.
pub open spec fn digit_value(c: char) -> int {
    (c as u32) - 48
}

/// The number that a text of decimal digits denotes.
pub open spec fn decimal_value(s: Seq<char>) -> int
    decreases s.len(),
{
    if s.len() == 0 {
        0
    } else {
        decimal_value(s.drop_last()) * 10 + digit_value(s.last())
    }
}

/// The value of a lowercase hexadecimal digit character.
pub open spec fn hex_digit_value(c: char) -> int {
    if (c as u32) < 58 {
        (c as u32) - 48
    } else {
        (c as u32) - 87
    }
}

/// The decimal text of a number denotes that number, and consists of ASCII
/// digits only.
pub proof fn law_decimal_round_trip(n: nat)
    ensures
        decimal_value(decimal(n)) == n,
        decimal(n).len() > 0,
        forall|i: int| 0 <= i < decimal(n).len() ==> 48 <= #[trigger] (decimal(n)[i] as u32) <= 57,
    decreases n,
{
    if n >= 10 {
        law_decimal_round_trip(n / 10);
        assert(decimal(n).drop_last() =~= decimal(n / 10));
        assert(decimal(n).last() == digit_char(n % 10));
        assert(digit_value(digit_char(n % 10)) == n % 10);
        assert(decimal_value(decimal(n)) == decimal_value(decimal(n / 10)) * 10 + (n % 10) as int);
    } else {
        assert(decimal(n).drop_last() =~= Seq::<char>::empty());
        assert(decimal_value(Seq::<char>::empty()) == 0);
        assert(digit_value(digit_char(n)) == n);
    }
}

/// The two hexadecimal digits of a byte denote that byte.
pub proof fn law_hex_byte_round_trip(b: u8)
    ensures
        hex_byte(b).len() == 2,
        hex_digit_value(hex_byte(b)[0]) * 16 + hex_digit_value(hex_byte(b)[1]) == b,
{
}

/// The view name of a vector field of the view of `name` is `name`, the field
/// in upper camel case, then `View`: exactly one `View` suffix is replaced.
pub proof fn law_vec_view_name_of_view(name: Seq<char>, field: Seq<char>)
    ensures
        vec_view_name_text(name + view_suffix(), field) == name + capitalized_parts(field, true)
            + view_suffix(),
{
    let s = name + view_suffix();
    assert(s.subrange(s.len() - 4, s.len() as int) =~= view_suffix());
    assert(s.subrange(0, s.len() - 4) =~= name);
}

/// Calls `char::to_uppercase` and collects the characters it yields. The
/// standard library documents that a character without an uppercase mapping
/// maps to itself, and ASCII lowercase letters map to their ASCII capitals;
/// the mapping of other characters is left to the named result.
#[verifier::external_body]
fn char_uppercase(c: char) -> (r: String)
    ensures
        r@ == uppercase_mapping(c),
        is_ascii_lowercase(c) ==> r@ == seq![((c as u32) - 32) as char],
        (c as u32) < 128 && !is_ascii_lowercase(c) ==> r@ == seq![c],
{
    c.to_uppercase().collect()
}

/// Formats `s` with `{:?}`, the `Debug` implementation of `str`. Its
/// result is the named `str_debug` of the string; a string made only of
/// ASCII letters, digits and underscores, which `char::escape_debug` leaves
/// as they are, is written between double quotes unchanged.
#[verifier::external_body]
pub(crate) fn string_debug(s: &str) -> (r: String)
    ensures
        r@ == str_debug(s@),
        (forall|i: int| 0 <= i < s@.len() ==> is_ascii_word_char(#[trigger] s@[i])) ==> r@
            == seq!['"'] + s@ + seq!['"'],
{
    format!("{:?}", s)
}

/// The text of one decimal digit.
fn digit_text(d: usize) -> (r: &'static str)
    requires
        d < 10,
    ensures
        r@ == seq![digit_char(d as nat)],
{
    match d {
        0 => {
            proof {
                reveal_strlit("0");
            }
            "0"
        },
        1 => {
            proof {
                reveal_strlit("1");
            }
            "1"
        },
        2 => {
            proof {
                reveal_strlit("2");
            }
            "2"
        },
        3 => {
            proof {
                reveal_strlit("3");
            }
            "3"
        },
        4 => {
            proof {
                reveal_strlit("4");
            }
            "4"
        },
        5 => {
            proof {
                reveal_strlit("5");
            }
            "5"
        },
        6 => {
            proof {
                reveal_strlit("6");
            }
            "6"
        },
        7 => {
            proof {
                reveal_strlit("7");
            }
            "7"
        },
        8 => {
            proof {
                reveal_strlit("8");
            }
            "8"
        },
        _ => {
            proof {
                reveal_strlit("9");
            }
            "9"
        },
    }
}

/// The text of one lowercase hexadecimal digit.
fn hex_digit_text(d: u8) -> (r: &'static str)
    requires
        d < 16,
    ensures
        r@ == seq![hex_char(d as nat)],
{
    if d < 10 {
        digit_text(d as usize)
    } else {
        match d {
            10 => {
                proof {
                    reveal_strlit("a");
                }
                "a"
            },
            11 => {
                proof {
                    reveal_strlit("b");
                }
                "b"
            },
            12 => {
                proof {
                    reveal_strlit("c");
                }
                "c"
            },
            13 => {
                proof {
                    reveal_strlit("d");
                }
                "d"
            },
            14 => {
                proof {
                    reveal_strlit("e");
                }
                "e"
            },
            _ => {
                proof {
                    reveal_strlit("f");
                }
                "f"
            },
        }
    }
}

/// Appends `n` in decimal to `output`.
pub fn push_decimal(output: &mut String, n: usize)
    ensures
        final(output)@ == old(output)@ + decimal(n as nat),
    decreases n,
{
    let ghost before = output@;
    if n >= 10 {
        push_decimal(output, n / 10);
        output.append(digit_text(n % 10));
        assert(output@ =~= before + decimal(n as nat));
    } else {
        output.append(digit_text(n));
    }
}

/// Appends `b` as two lowercase hexadecimal digits to `output`.
pub fn push_hex_byte(output: &mut String, b: u8)
    ensures
        final(output)@ == old(output)@ + hex_byte(b),
{
    let ghost before = output@;
    output.append(hex_digit_text(b / 16));
    output.append(hex_digit_text(b % 16));
    assert(output@ =~= before + hex_byte(b));
}

/// The UTF-8 byte length of `s`.
pub fn text_byte_len(s: &String) -> (r: usize)
    ensures
        r == byte_len(s@),
{
    s.as_str().as_bytes().len()
}

/// Whether `s` ends with `View`.
fn ends_with_view(s: &str) -> (r: bool)
    ensures
        r == (s@.len() >= 4 && s@.subrange(s@.len() - 4, s@.len() as int) == view_suffix()),
{
    let n = s.unicode_len();
    if n < 4 {
        return false;
    }
    let r = s.get_char(n - 4) == 'V' && s.get_char(n - 3) == 'i' && s.get_char(n - 2) == 'e'
        && s.get_char(n - 1) == 'w';
    assert(r ==> s@.subrange(n - 4, n as int) =~= view_suffix());
    r
}

/// Lemma: one step of `capitalized_parts` from position `i`.
proof fn lemma_capitalized_step(s: Seq<char>, i: int, at_start: bool)
    requires
        0 <= i < s.len(),
    ensures
        capitalized_parts(s.skip(i), at_start) == (if s[i] == '_' {
            capitalized_parts(s.skip(i + 1), true)
        } else if at_start {
            uppercase_mapping(s[i]) + capitalized_parts(s.skip(i + 1), false)
        } else {
            seq![s[i]] + capitalized_parts(s.skip(i + 1), false)
        }),
{
    assert(s.skip(i).drop_first() =~= s.skip(i + 1));
}

/// Lemma: one step of `ascii_capitalized_parts` from position `i`.
proof fn lemma_ascii_capitalized_step(s: Seq<char>, i: int, at_start: bool)
    requires
        0 <= i < s.len(),
    ensures
        ascii_capitalized_parts(s.skip(i), at_start) == (if s[i] == '_' {
            ascii_capitalized_parts(s.skip(i + 1), true)
        } else if at_start {
            seq![ascii_upper(s[i])] + ascii_capitalized_parts(s.skip(i + 1), false)
        } else {
            seq![s[i]] + ascii_capitalized_parts(s.skip(i + 1), false)
        }),
{
    assert(s.skip(i).drop_first() =~= s.skip(i + 1));
}

/// The name of the view generated for the vector field `field` of the
/// view `parent_view`.
pub fn vec_view_name(parent_view: &str, field: &str) -> (r: String)
    ensures
        r@ == vec_view_name_text(parent_view@, field@),
        is_ascii_text(field@) ==> r@ == strip_view_suffix(parent_view@) + ascii_capitalized_parts(
            field@,
            true,
        ) + view_suffix(),
{
    let mut name = String::new();
    let n = parent_view.unicode_len();
    if ends_with_view(parent_view) {
        name.append(parent_view.substring_char(0, n - 4));
    } else {
        name.append(parent_view);
    }
    assert(name@ =~= strip_view_suffix(parent_view@));
    let ghost prefix = name@;
    let len = field.unicode_len();
    let mut at_start = true;
    let mut i: usize = 0;
    assert(field@.skip(0) =~= field@);
    while i < len
        invariant
            i <= len,
            len == field@.len(),
            prefix + capitalized_parts(field@, true) == name@ + capitalized_parts(
                field@.skip(i as int),
                at_start,
            ),
            is_ascii_text(field@) ==> prefix + ascii_capitalized_parts(field@, true) == name@
                + ascii_capitalized_parts(field@.skip(i as int), at_start),
        decreases len - i,
    {
        let c = field.get_char(i);
        let ghost old_name = name@;
        proof {
            lemma_capitalized_step(field@, i as int, at_start);
            lemma_ascii_capitalized_step(field@, i as int, at_start);
        }
        if c == '_' {
            at_start = true;
        } else if at_start {
            let upper = char_uppercase(c);
            name.append(upper.as_str());
            at_start = false;
            assert(old_name + (upper@ + capitalized_parts(field@.skip(i + 1), false)) =~= name@
                + capitalized_parts(field@.skip(i + 1), false));
            assert(is_ascii_text(field@) ==> (field@[i as int] as u32) < 128);
            assert(is_ascii_text(field@) ==> upper@ == seq![ascii_upper(c)]);
            assert(old_name + (seq![ascii_upper(c)] + ascii_capitalized_parts(
                field@.skip(i + 1),
                false,
            )) =~= old_name + seq![ascii_upper(c)] + ascii_capitalized_parts(
                field@.skip(i + 1),
                false,
            ));
        } else {
            name.append(field.substring_char(i, i + 1));
            assert(old_name + (seq![c] + capitalized_parts(field@.skip(i + 1), false)) =~= name@
                + capitalized_parts(field@.skip(i + 1), false));
            assert(old_name + (seq![c] + ascii_capitalized_parts(field@.skip(i + 1), false)) =~= name@
                + ascii_capitalized_parts(field@.skip(i + 1), false));
        }
        i = i + 1;
    }
    assert(field@.skip(len as int) =~= Seq::<char>::empty());
    assert(name@ =~= prefix + capitalized_parts(field@, true));
    assert(is_ascii_text(field@) ==> name@ =~= prefix + ascii_capitalized_parts(field@, true));
    name.append("View");
    proof {
        reveal_strlit("View");
    }
    assert("View"@ =~= view_suffix());
    name
}

} // verus!
