//! Identifiers of suspension requests.

use vstd::arithmetic::div_mod::lemma_div_denominator;
use vstd::arithmetic::power::{lemma_pow0, lemma_pow_positive, pow};
use vstd::prelude::*;

verus! {

/// The hexadecimal digit of `bits` at `place`, counted from the most significant one.
pub open spec fn digit(bits: u128, place: int) -> int {
    (bits as int / pow(16, (31 - place) as nat)) % 16
}

/// The character for a hexadecimal digit, in lower case.
pub open spec fn digit_char(value: int) -> char {
    if value < 10 {
        ('0' as int + value) as char
    } else {
        ('a' as int + value - 10) as char
    }
}

/// How many hyphens stand before position `i` of the text form.
pub open spec fn hyphens_before(i: int) -> int {
    if i <= 8 {
        0
    } else if i <= 13 {
        1
    } else if i <= 18 {
        2
    } else if i <= 23 {
        3
    } else {
        4
    }
}

/// The text form: groups of 8, 4, 4, 4 and 12 digits, with hyphens between them.
pub open spec fn hyphenated(bits: u128) -> Seq<char> {
    Seq::new(
        36,
        |i: int|
            if i == 8 || i == 13 || i == 18 || i == 23 {
                '-'
            } else {
                digit_char(digit(bits, i - hyphens_before(i)))
            },
    )
}

/// Whether `bits` form a random UUID: version 4, variant of RFC 9562.
pub open spec fn is_random_uuid(bits: u128) -> bool {
    &&& digit(bits, 12) == 4
    &&& 8 <= digit(bits, 16) < 12
}

/// Identifies one suspension request.
#[derive(Clone, Copy, Debug, PartialEq, Eq, Structural)]
pub struct RequestId {
    /// The identifier as a number, most significant byte first.
    pub bits: u128,
}

impl RequestId {
    /// A fresh random identifier.
    pub fn new_v4() -> (id: RequestId)
        ensures
            is_random_uuid(id.bits),
    {
        RequestId { bits: uuid_new_v4() }
    }

    /// The text form of the identifier.
    pub fn to_text(&self) -> (text: String)
        ensures
            text@ == hyphenated(self.bits),
            text@.len() == 36,
            read_digits(text@) == self.bits,
    {
        proof {
            law_text_reads_back(self.bits);
        }
        uuid_to_string(self.bits)
    }
}

/// Calls `uuid::Uuid::new_v4`, which draws from the operating system's random numbers.
///
/// Claimed: whatever is drawn, the version digit is 4 and the variant digit is one of
/// 8 to 11. Nothing is claimed of the other digits. Where the operating system has no
/// random numbers to give, the call panics.
#[verifier::external_body]
fn uuid_new_v4() -> (bits: u128)
    ensures
        is_random_uuid(bits),
{
    uuid::Uuid::new_v4().as_u128()
}

/// Calls `to_string` on a `uuid::Uuid`, that is its `Display`.
///
/// Claimed: the text is the hyphenated form in lower case.
#[verifier::external_body]
fn uuid_to_string(bits: u128) -> (text: String)
    ensures
        text@ == hyphenated(bits),
{
    uuid::Uuid::from_u128(bits).to_string()
}

/// Different identifiers have different text forms.
pub proof fn law_text_determines_id(a: u128, b: u128)
    requires
        hyphenated(a) == hyphenated(b),
    ensures
        a == b,
{
    assert forall|place: int| 0 <= place < 32 implies digit(a, place) == digit(b, place) by {
        let i: int = if place < 8 {
            place
        } else if place < 12 {
            place + 1
        } else if place < 16 {
            place + 2
        } else if place < 20 {
            place + 3
        } else {
            place + 4
        };
        assert(i - hyphens_before(i) == place);
        assert(hyphenated(a)[i] == digit_char(digit(a, place)));
        assert(hyphenated(b)[i] == digit_char(digit(b, place)));
        lemma_digit_char_injective(digit(a, place), digit(b, place));
    }
    lemma_leading_digits(a, b, 32);
    lemma_pow0(16);
}

/// Every text form has 36 characters with the hyphens in their places; the random ones show
/// their version and variant.
pub proof fn law_text_shape(bits: u128)
    ensures
        hyphenated(bits).len() == 36,
        forall|i: int|
            0 <= i < 36 ==> (#[trigger] hyphenated(bits)[i] == '-' <==> i == 8 || i == 13 || i == 18
                || i == 23),
        is_random_uuid(bits) ==> hyphenated(bits)[14] == '4',
        is_random_uuid(bits) <==> hyphenated(bits)[14] == '4' && (hyphenated(bits)[19] == '8'
            || hyphenated(bits)[19] == '9' || hyphenated(bits)[19] == 'a' || hyphenated(bits)[19]
            == 'b'),
{
    assert(hyphenated(bits)[14] == digit_char(digit(bits, 12)));
    assert(hyphenated(bits)[19] == digit_char(digit(bits, 16)));
    assert(0 <= digit(bits, 12) < 16);
    assert(0 <= digit(bits, 16) < 16);
    assert forall|i: int| 0 <= i < 36 implies (#[trigger] hyphenated(bits)[i] == '-' <==> i == 8
        || i == 13 || i == 18 || i == 23) by {
        assert(0 <= digit(bits, i - hyphens_before(i)) < 16);
    }
}

/// What a hexadecimal digit is worth.
pub open spec fn digit_value(c: char) -> int {
    if '0' <= c <= '9' {
        c as int - '0' as int
    } else {
        c as int - 'a' as int + 10
    }
}

/// The number that hexadecimal digits stand for, with hyphens passed over.
pub open spec fn read_digits(text: Seq<char>) -> int
    decreases text.len(),
{
    if text.len() == 0 {
        0
    } else if text.last() == '-' {
        read_digits(text.drop_last())
    } else {
        16 * read_digits(text.drop_last()) + digit_value(text.last())
    }
}

/// Reading a text form gives back the identifier.
pub proof fn law_text_reads_back(bits: u128)
    ensures
        read_digits(hyphenated(bits)) == bits,
{
    lemma_reads_back(bits, 36);
    assert(hyphenated(bits).take(36) == hyphenated(bits));
    lemma_pow0(16);
}

/// Reading the first `i` characters gives the identifier without the digits that follow.
proof fn lemma_reads_back(bits: u128, i: int)
    requires
        0 <= i <= 36,
    ensures
        read_digits(hyphenated(bits).take(i)) == bits as int / pow(
            16,
            (32 - (i - hyphens_before(i))) as nat,
        ),
    decreases i,
{
    let text = hyphenated(bits).take(i);
    if i == 0 {
        lemma_pow_16_32();
    } else {
        let p = i - 1;
        let place = p - hyphens_before(p);
        lemma_reads_back(bits, p);
        assert(text.drop_last() == hyphenated(bits).take(p));
        assert(text.last() == hyphenated(bits)[p]);
        if !(p == 8 || p == 13 || p == 18 || p == 23) {
            assert(0 <= digit(bits, place) < 16);
            assert(text.last() == digit_char(digit(bits, place)));
            assert(digit_value(text.last()) == digit(bits, place));
            lemma_cut_one_digit(bits, (31 - place) as nat);
        }
    }
}

proof fn lemma_pow_16_32()
    ensures
        pow(16, 32) == 0x1_0000_0000_0000_0000_0000_0000_0000_0000,
{
    reveal(pow);
    reveal_with_fuel(pow, 33);
}

proof fn lemma_digit_char_injective(x: int, y: int)
    requires
        0 <= x < 16,
        0 <= y < 16,
        digit_char(x) == digit_char(y),
    ensures
        x == y,
{
}

/// Numbers that agree in their first `n` digits agree once the others are cut off.
proof fn lemma_leading_digits(a: u128, b: u128, n: nat)
    requires
        n <= 32,
        forall|place: int| 0 <= place < 32 ==> digit(a, place) == digit(b, place),
    ensures
        a as int / pow(16, (32 - n) as nat) == b as int / pow(16, (32 - n) as nat),
    decreases n,
{
    if n == 0 {
        lemma_pow_16_32();
    } else {
        lemma_leading_digits(a, b, (n - 1) as nat);
        let place: int = n - 1;
        let low: nat = (32 - n) as nat;
        assert(digit(a, place) == digit(b, place));
        lemma_cut_one_digit(a, low);
        lemma_cut_one_digit(b, low);
    }
}

/// Cutting off one digit more is dividing by sixteen.
proof fn lemma_cut_one_digit(x: u128, low: nat)
    ensures
        x as int / pow(16, low + 1) == (x as int / pow(16, low)) / 16,
{
    reveal(pow);
    lemma_pow_positive(16, low);
    lemma_div_denominator(x as int, pow(16, low), 16);
    assert(pow(16, low + 1) == pow(16, low) * 16) by (nonlinear_arith)
        requires
            pow(16, low + 1) == 16 * pow(16, low),
    ;
}

} // verus!
