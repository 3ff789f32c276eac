//! Identifiers of threads, requests, checkpoints and jobs: UUIDs, held as 128-bit numbers.

use uuid::Uuid;
use vstd::prelude::*;

verus! {

/// The lower-case hexadecimal digit of a number below sixteen.
pub open spec fn hex_digit(d: nat) -> char {
    if d < 10 {
        ('0' as u32 + d) as char
    } else {
        ('a' as u32 + d - 10) as char
    }
}

/// The last `width` hexadecimal digits of a number, leading zeros included.
pub open spec fn hex(n: nat, width: nat) -> Seq<char>
    decreases width,
{
    if width == 0 {
        seq![]
    } else {
        hex(n / 16, (width - 1) as nat).push(hex_digit(n % 16))
    }
}

/// The hyphenated form of an identifier.
pub open spec fn id_text(id: u128) -> Seq<char> {
    let h = hex(id as nat, 32);
    h.subrange(0, 8) + "-"@ + h.subrange(8, 12) + "-"@ + h.subrange(12, 16) + "-"@ + h.subrange(
        16,
        20,
    ) + "-"@ + h.subrange(20, 32)
}

/// The identifier that `Uuid::parse_str` reads from a text; `None` for a text that it
/// rejects.
pub uninterp spec fn parsed_id(text: Seq<char>) -> Option<u128>;

/// `Uuid::new_v4`: an identifier drawn at random. Nothing is claimed of it.
#[verifier::external_body]
pub(crate) fn new_id() -> u128 {
    Uuid::new_v4().as_u128()
}

/// `Uuid::to_string`: the hyphenated form, in lower case.
#[verifier::external_body]
pub(crate) fn to_text(id: u128) -> (r: String)
    ensures
        r@ == id_text(id),
{
    Uuid::from_u128(id).to_string()
}

/// `Uuid::parse_str`: the identifier that a text spells, and `None` for a text that is
/// rejected. The hyphenated form of an identifier is read back as that identifier.
#[verifier::external_body]
pub(crate) fn parse(text: &str) -> (r: Option<u128>)
    ensures
        r == parsed_id(text@),
        forall|id: u128| text@ == #[trigger] id_text(id) ==> r == Some(id),
{
    Uuid::parse_str(text).ok().map(|u| u.as_u128())
}

proof fn hex_length(n: nat, width: nat)
    ensures
        hex(n, width).len() == width,
    decreases width,
{
    if width > 0 {
        hex_length(n / 16, (width - 1) as nat);
    }
}

/// The numbers of so many hexadecimal digits.
spec fn numbers_of(width: nat) -> nat
    decreases width,
{
    if width == 0 {
        1
    } else {
        16 * numbers_of((width - 1) as nat)
    }
}

proof fn hex_tells_apart(a: nat, b: nat, width: nat)
    requires
        a < numbers_of(width),
        b < numbers_of(width),
        hex(a, width) == hex(b, width),
    ensures
        a == b,
    decreases width,
{
    if width > 0 {
        let w = (width - 1) as nat;
        hex_length(a / 16, w);
        hex_length(b / 16, w);
        assert(hex(a, width).drop_last() =~= hex(a / 16, w));
        assert(hex(b, width).drop_last() =~= hex(b / 16, w));
        assert(hex(a, width).last() == hex_digit(a % 16));
        assert(hex(b, width).last() == hex_digit(b % 16));
        hex_tells_apart(a / 16, b / 16, w);
    }
}

/// The hyphenated form of an identifier has 36 characters.
pub proof fn id_text_length(id: u128)
    ensures
        id_text(id).len() == 36,
{
    hex_length(id as nat, 32);
    reveal_strlit("-");
}

/// Different identifiers have different hyphenated forms.
pub proof fn id_text_tells_apart(a: u128, b: u128)
    requires
        id_text(a) == id_text(b),
    ensures
        a == b,
{
    hex_length(a as nat, 32);
    hex_length(b as nat, 32);
    reveal_strlit("-");
    let x = hex(a as nat, 32);
    let y = hex(b as nat, 32);
    assert forall|i: int| 0 <= i < 32 implies x[i] == y[i] by {
        let shift: int = if i < 8 {
            0
        } else if i < 12 {
            1
        } else if i < 16 {
            2
        } else if i < 20 {
            3
        } else {
            4
        };
        assert(id_text(a)[i + shift] == x[i]);
        assert(id_text(b)[i + shift] == y[i]);
    }
    assert(x =~= y);
    assert(numbers_of(32) == 0x1_0000_0000_0000_0000_0000_0000_0000_0000) by {
        reveal_with_fuel(numbers_of, 33);
    }
    hex_tells_apart(a as nat, b as nat, 32);
}

/// The number that lower-case hexadecimal digits spell.
pub open spec fn hex_spelled(s: Seq<char>) -> int
    decreases s.len(),
{
    if s.len() == 0 {
        0
    } else {
        16 * hex_spelled(s.drop_last()) + if '0' <= s.last() <= '9' {
            s.last() as int - '0' as int
        } else {
            s.last() as int - 'a' as int + 10
        }
    }
}

proof fn hex_reads_back(n: nat, width: nat)
    requires
        n < numbers_of(width),
    ensures
        hex_spelled(hex(n, width)) == n,
        forall|i: int|
            0 <= i < hex(n, width).len() ==> '0' <= #[trigger] hex(n, width)[i] <= '9' || 'a'
                <= hex(n, width)[i] <= 'f',
    decreases width,
{
    if width > 0 {
        let w = (width - 1) as nat;
        hex_length(n / 16, w);
        hex_reads_back(n / 16, w);
        assert(hex(n, width).drop_last() =~= hex(n / 16, w));
        let d = n % 16;
        if d < 10 {
            assert(hex_digit(d) as int == 48 + d);
        } else {
            assert(hex_digit(d) as int == 87 + d);
        }
    }
}

/// The hyphenated form of an identifier spells it in lower-case hexadecimal digits, with
/// hyphens after eight, twelve, sixteen and twenty of them.
pub proof fn id_text_spells_the_id(id: u128)
    ensures
        ({
            let t = id_text(id);
            &&& t.len() == 36
            &&& t[8] == '-' && t[13] == '-' && t[18] == '-' && t[23] == '-'
            &&& hex_spelled(
                t.subrange(0, 8) + t.subrange(9, 13) + t.subrange(14, 18) + t.subrange(19, 23)
                    + t.subrange(24, 36),
            ) == id
        }),
{
    id_text_length(id);
    hex_length(id as nat, 32);
    reveal_strlit("-");
    assert(numbers_of(32) == 0x1_0000_0000_0000_0000_0000_0000_0000_0000) by {
        reveal_with_fuel(numbers_of, 33);
    }
    hex_reads_back(id as nat, 32);
    let t = id_text(id);
    assert(t.subrange(0, 8) + t.subrange(9, 13) + t.subrange(14, 18) + t.subrange(19, 23)
        + t.subrange(24, 36) =~= hex(id as nat, 32));
}

} // verus!
