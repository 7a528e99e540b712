//! Session identifiers: 128 bits of entropy rendered as 32 lowercase
//! hexadecimal digits, so that an identifier is safe both as a registry key
//! and unescaped in a URL query string.

use vstd::prelude::*;
use vstd::arithmetic::div_mod::{lemma_fundamental_div_mod, lemma_fundamental_div_mod_converse};

verus! {

/// The byte of the lowercase hexadecimal digit for `d`.
pub open spec fn hex_digit(d: nat) -> u8
    recommends
        d < 16,
{
    if d < 10 {
        (48 + d) as u8
    } else {
        (87 + d) as u8
    }
}

/// Whether `b` is the byte of a lowercase hexadecimal digit.
pub open spec fn is_hex_digit(b: u8) -> bool {
    (48 <= b && b <= 57) || (97 <= b && b <= 102)
}

/// The numeric value of the hexadecimal digit byte `b`.
pub open spec fn digit_value(b: u8) -> nat
    recommends
        is_hex_digit(b),
{
    if 48 <= b && b <= 57 {
        (b - 48) as nat
    } else {
        (b - 87) as nat
    }
}

pub open spec fn all_hex_digits(t: Seq<u8>) -> bool {
    forall|i: int| 0 <= i < t.len() ==> is_hex_digit(t[i])
}

/// `n` rendered as `width` lowercase hexadecimal digits, most significant
/// digit first.
pub open spec fn hex_render(n: nat, width: nat) -> Seq<u8>
    decreases width,
{
    if width == 0 {
        Seq::empty()
    } else {
        hex_render(n / 16, (width - 1) as nat).push(hex_digit(n % 16))
    }
}

/// The numeric value of a big-endian string of hexadecimal digit bytes.
pub open spec fn hex_value(t: Seq<u8>) -> nat
    decreases t.len(),
{
    if t.len() == 0 {
        0
    } else {
        hex_value(t.drop_last()) * 16 + digit_value(t.last())
    }
}

pub open spec fn pow16(w: nat) -> nat
    decreases w,
{
    if w == 0 {
        1
    } else {
        16 * pow16((w - 1) as nat)
    }
}

/// The canonical 32-digit text of a session identifier.
pub open spec fn id_text(bits: u128) -> Seq<u8> {
    hex_render(bits as nat, 32)
}

proof fn lemma_hex_digit_value(d: nat)
    requires
        d < 16,
    ensures
        is_hex_digit(hex_digit(d)),
        digit_value(hex_digit(d)) == d,
{
}

proof fn lemma_digit_render(b: u8)
    requires
        is_hex_digit(b),
    ensures
        digit_value(b) < 16,
        hex_digit(digit_value(b)) == b,
{
}

proof fn lemma_pow16_pos(w: nat)
    ensures
        pow16(w) >= 1,
    decreases w,
{
    if w > 0 {
        lemma_pow16_pos((w - 1) as nat);
    }
}

proof fn lemma_pow16_increases(w1: nat, w2: nat)
    requires
        w1 <= w2,
    ensures
        pow16(w1) <= pow16(w2),
    decreases w2,
{
    if w1 < w2 {
        lemma_pow16_increases(w1, (w2 - 1) as nat);
        lemma_pow16_pos((w2 - 1) as nat);
    }
}

proof fn lemma_pow16_add(a: nat, b: nat)
    ensures
        pow16(a + b) == pow16(a) * pow16(b),
    decreases b,
{
    if b == 0 {
        assert(pow16(b) == 1);
        assert(pow16(a) * pow16(b) == pow16(a)) by (nonlinear_arith)
            requires
                pow16(b) == 1,
        ;
    } else {
        let b1 = (b - 1) as nat;
        lemma_pow16_add(a, b1);
        assert(pow16(a + b) == 16 * (pow16(a) * pow16(b1)));
        assert(pow16(b) == 16 * pow16(b1));
        assert(pow16(a + b) == pow16(a) * pow16(b)) by (nonlinear_arith)
            requires
                pow16(a + b) == 16 * (pow16(a) * pow16(b1)),
                pow16(b) == 16 * pow16(b1),
        ;
    }
}

proof fn lemma_u128_below_pow16_32()
    ensures
        pow16(32) == 0x100000000000000000000000000000000,
{
    assert(pow16(0) == 1);
    assert(pow16(1) == 16);
    assert(pow16(2) == 256) by {
        lemma_pow16_add(1, 1);
    }
    assert(pow16(4) == 0x10000) by {
        lemma_pow16_add(2, 2);
    }
    assert(pow16(8) == 0x100000000) by {
        lemma_pow16_add(4, 4);
    }
    assert(pow16(16) == 0x10000000000000000) by {
        lemma_pow16_add(8, 8);
    }
    assert(pow16(32) == 0x100000000000000000000000000000000) by {
        lemma_pow16_add(16, 16);
    }
}

/// Rendering `width` digits of a value below `16^width` yields `width`
/// hexadecimal digits whose value is that value again.
pub proof fn lemma_hex_render_value(n: nat, width: nat)
    requires
        n < pow16(width),
    ensures
        hex_render(n, width).len() == width,
        all_hex_digits(hex_render(n, width)),
        hex_value(hex_render(n, width)) == n,
    decreases width,
{
    if width > 0 {
        let w1 = (width - 1) as nat;
        lemma_fundamental_div_mod(n as int, 16);
        assert(n / 16 < pow16(w1)) by {
            if n / 16 >= pow16(w1) {
                assert(16 * (n / 16) >= 16 * pow16(w1)) by (nonlinear_arith)
                    requires
                        n / 16 >= pow16(w1),
                ;
            }
        }
        lemma_hex_render_value(n / 16, w1);
        let s = hex_render(n / 16, w1);
        let t = hex_render(n, width);
        lemma_hex_digit_value(n % 16);
        assert(t.drop_last() =~= s);
        assert(forall|i: int| 0 <= i < t.len() ==> is_hex_digit(#[trigger] t[i])) by {
            assert(forall|i: int| 0 <= i < s.len() ==> is_hex_digit(#[trigger] s[i]));
        }
    }
}

/// A string of hexadecimal digits is rendered back, digit for digit, by its
/// own value.
pub proof fn lemma_hex_value_render(t: Seq<u8>)
    requires
        all_hex_digits(t),
    ensures
        hex_value(t) < pow16(t.len()),
        hex_render(hex_value(t), t.len()) == t,
    decreases t.len(),
{
    if t.len() == 0 {
        assert(hex_render(0, 0) =~= t);
    } else {
        let s = t.drop_last();
        assert(all_hex_digits(s));
        lemma_hex_value_render(s);
        lemma_digit_render(t.last());
        let d = digit_value(t.last());
        let v = hex_value(t);
        assert(v == hex_value(s) * 16 + d);
        assert(v < 16 * pow16(s.len())) by (nonlinear_arith)
            requires
                v == hex_value(s) * 16 + d,
                hex_value(s) < pow16(s.len()),
                d < 16,
        ;
        lemma_fundamental_div_mod_converse(v as int, 16, hex_value(s) as int, d as int);
        assert(hex_render(v, t.len()) == hex_render(hex_value(s), s.len()).push(hex_digit(d)));
        assert(s.push(t.last()) =~= t);
    }
}

/// Distinct identifier values always render to distinct identifier texts, so
/// two live sessions can never share an identifier text unless they share the
/// underlying bits.
pub proof fn lemma_id_text_injective(a: u128, b: u128)
    requires
        a != b,
    ensures
        id_text(a) != id_text(b),
{
    lemma_u128_below_pow16_32();
    lemma_hex_render_value(a as nat, 32);
    lemma_hex_render_value(b as nat, 32);
}

/// Every identifier text has exactly 32 digits, all lowercase hexadecimal,
/// and its value is the identifier's bits again.
pub proof fn lemma_id_text_wf(bits: u128)
    ensures
        id_text(bits).len() == 32,
        all_hex_digits(id_text(bits)),
        hex_value(id_text(bits)) == bits as nat,
{
    lemma_u128_below_pow16_32();
    lemma_hex_render_value(bits as nat, 32);
}

/// An opaque session identifier, generated with 128 bits of entropy.
#[derive(Clone, Copy, PartialEq, Eq, Structural, Debug, Hash)]
pub struct SessionId {
    pub bits: u128,
}

/// Relies on rand::random to draw 128 bits of entropy; the value depends on
/// the generator's state, so nothing is promised of it, and distinct calls
/// may return anything.
#[verifier::external_body]
fn random_bits() -> u128 {
    rand::random::<u128>()
}

/// Generates a fresh session identifier from 128 bits of randomness.
pub fn session_id() -> SessionId {
    SessionId { bits: random_bits() }
}

fn hex_digit_byte(d: u8) -> (r: u8)
    requires
        d < 16,
    ensures
        r == hex_digit(d as nat),
{
    if d < 10 {
        48 + d
    } else {
        87 + d
    }
}

fn hex_render_exec(n: u128, width: usize) -> (r: Vec<u8>)
    ensures
        r@ == hex_render(n as nat, width as nat),
    decreases width,
{
    if width == 0 {
        let v: Vec<u8> = Vec::new();
        proof {
            assert(v@ =~= hex_render(n as nat, 0));
        }
        v
    } else {
        let mut v = hex_render_exec(n / 16, width - 1);
        v.push(hex_digit_byte((n % 16) as u8));
        v
    }
}

impl SessionId {
    /// The identifier's canonical text: exactly 32 lowercase hex digits.
    pub fn text(&self) -> (r: Vec<u8>)
        ensures
            r@ == id_text(self.bits),
    {
        hex_render_exec(self.bits, 32)
    }
}

/// Parses a session identifier text: succeeds exactly on the canonical
/// 32-digit lowercase hexadecimal rendering of some identifier.
pub fn parse_id(t: &Vec<u8>) -> (r: Option<SessionId>)
    ensures
        r matches Some(id) ==> t@ == id_text(id.bits),
        r is None ==> forall|bits: u128| t@ != id_text(bits),
{
    if t.len() != 32 {
        proof {
            assert forall|bits: u128| t@ != id_text(bits) by {
                lemma_u128_below_pow16_32();
                lemma_hex_render_value(bits as nat, 32);
            }
        }
        return None;
    }
    let mut acc: u128 = 0;
    let mut i: usize = 0;
    while i < 32
        invariant
            t@.len() == 32,
            i <= 32,
            all_hex_digits(t@.take(i as int)),
            acc == hex_value(t@.take(i as int)),
            acc < pow16(i as nat),
        decreases 32 - i,
    {
        let b = t[i];
        let d: u8;
        if 48 <= b && b <= 57 {
            d = b - 48;
        } else if 97 <= b && b <= 102 {
            d = b - 87;
        } else {
            proof {
                assert forall|bits: u128| t@ != id_text(bits) by {
                    lemma_u128_below_pow16_32();
                    lemma_hex_render_value(bits as nat, 32);
                    if t@ == id_text(bits) {
                        assert(is_hex_digit(id_text(bits)[i as int]));
                    }
                }
            }
            return None;
        }
        proof {
            let prefix = t@.take(i as int);
            let next = t@.take(i + 1);
            assert(next.drop_last() =~= prefix);
            assert(next.last() == b);
            assert(is_hex_digit(b) && digit_value(b) == d as nat);
            assert(hex_value(next) == acc * 16 + d);
            lemma_pow16_increases((i + 1) as nat, 32);
            lemma_u128_below_pow16_32();
            assert(acc * 16 + d < pow16((i + 1) as nat)) by (nonlinear_arith)
                requires
                    acc < pow16(i as nat),
                    d < 16,
                    pow16((i + 1) as nat) == 16 * pow16(i as nat),
            ;
            assert(forall|j: int| 0 <= j < next.len() ==> is_hex_digit(#[trigger] next[j]));
        }
        acc = acc * 16 + (d as u128);
        i += 1;
    }
    proof {
        assert(t@.take(32) =~= t@);
        lemma_hex_value_render(t@);
    }
    Some(SessionId { bits: acc })
}

} // verus!
