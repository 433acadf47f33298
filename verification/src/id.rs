//! Identifier generation. Every entity id is a fixed-length digit
//! string carrying a strictly growing counter, so an identifier is
//! never issued twice by the same generator.

use vstd::prelude::*;

verus! {

/// Length of every generated identifier.
pub const ID_LEN: usize = 30;

/// `c` is a decimal digit.
pub open spec fn is_digit(c: char) -> bool {
    c == '0' || c == '1' || c == '2' || c == '3' || c == '4' || c == '5' || c == '6' || c == '7'
        || c == '8' || c == '9'
}

/// Numeric value of a digit (zero on non-digits).
pub open spec fn digit_val(c: char) -> nat {
    if c == '1' {
        1
    } else if c == '2' {
        2
    } else if c == '3' {
        3
    } else if c == '4' {
        4
    } else if c == '5' {
        5
    } else if c == '6' {
        6
    } else if c == '7' {
        7
    } else if c == '8' {
        8
    } else if c == '9' {
        9
    } else {
        0
    }
}

/// Numeric value of a digit string, most significant digit first.
pub open spec fn parse_digits(s: Seq<char>) -> nat
    decreases s.len(),
{
    if s.len() == 0 {
        0
    } else {
        parse_digits(s.drop_last()) * 10 + digit_val(s.last())
    }
}

/// Ten to the `w`.
pub open spec fn pow10(w: nat) -> nat
    decreases w,
{
    if w == 0 {
        1
    } else {
        10 * pow10((w - 1) as nat)
    }
}

/// The digit whose value is `d`.
fn digit_str(d: u64) -> (r: &'static str)
    requires
        d < 10,
    ensures
        r@.len() == 1,
        is_digit(r@[0]),
        digit_val(r@[0]) == d,
{
    let r = match d {
        0 => "0",
        1 => "1",
        2 => "2",
        3 => "3",
        4 => "4",
        5 => "5",
        6 => "6",
        7 => "7",
        8 => "8",
        _ => "9",
    };
    proof {
        reveal_strlit("0");
        reveal_strlit("1");
        reveal_strlit("2");
        reveal_strlit("3");
        reveal_strlit("4");
        reveal_strlit("5");
        reveal_strlit("6");
        reveal_strlit("7");
        reveal_strlit("8");
        reveal_strlit("9");
    }
    r
}

/// Render `n` as exactly `width` digits, most significant first.
fn render_fixed(n: u64, width: usize) -> (r: String)
    requires
        (n as nat) < pow10(width as nat),
    ensures
        r@.len() == width,
        parse_digits(r@) == n as nat,
        forall|j: int| 0 <= j < r@.len() ==> is_digit(r@[j]),
    decreases width,
{
    if width == 0 {
        String::new()
    } else {
        let d = n % 10;
        let q = n / 10;
        proof {
            assert(pow10(width as nat) == 10 * pow10((width - 1) as nat));
            assert(n == 10 * q + d) by (nonlinear_arith)
                requires
                    q == n / 10,
                    d == n % 10,
            {
            }
            assert((q as nat) < pow10((width - 1) as nat));
        }
        let mut s = render_fixed(q, width - 1);
        let ghost prev = s@;
        s.append(digit_str(d));
        proof {
            assert(s@.drop_last() =~= prev);
        }
        s
    }
}

/// Every `u64` is renderable in `ID_LEN` digits.
proof fn lemma_u64_below_pow10_id_len()
    ensures
        (u64::MAX as nat) < pow10(ID_LEN as nat),
{
    reveal_with_fuel(pow10, 31);
    assert(pow10(20) == 100000000000000000000nat);
    assert(pow10(30) == 1000000000000000000000000000000nat);
}

/// Issues fixed-length identifiers that never repeat: each identifier
/// carries the counter's value at the moment it was issued, and the
/// counter only grows.
pub struct IdGen {
    pub counter: u64,
    pub issued: Ghost<Set<Seq<char>>>,
}

impl IdGen {
    /// Every identifier issued so far parses below the counter.
    pub open spec fn wf(self) -> bool {
        forall|s: Seq<char>| self.issued@.contains(s) ==> parse_digits(s) < self.counter as nat
    }

    pub fn new() -> (r: Self)
        ensures
            r.wf(),
            r.counter == 0,
            r.issued@ == Set::<Seq<char>>::empty(),
    {
        IdGen { counter: 0, issued: Ghost(Set::empty()) }
    }

    /// A generator whose counter starts at `seed`. A deployment may
    /// seed it (from a clock or another entropy source) so that id
    /// sequences do not restart at zero in every process.
    pub fn starting_at(seed: u64) -> (r: Self)
        ensures
            r.wf(),
            r.counter == seed,
            r.issued@ == Set::<Seq<char>>::empty(),
    {
        IdGen { counter: seed, issued: Ghost(Set::empty()) }
    }

    /// A fresh identifier, distinct from every identifier this
    /// generator issued before.
    pub fn fresh_id(&mut self) -> (r: String)
        requires
            old(self).wf(),
            old(self).counter < u64::MAX,
        ensures
            final(self).wf(),
            r@.len() == ID_LEN,
            forall|j: int| 0 <= j < r@.len() ==> is_digit(r@[j]),
            parse_digits(r@) == old(self).counter as nat,
            !old(self).issued@.contains(r@),
            final(self).issued@ == old(self).issued@.insert(r@),
            final(self).counter == old(self).counter + 1,
    {
        proof {
            lemma_u64_below_pow10_id_len();
        }
        let r = render_fixed(self.counter, ID_LEN);
        self.counter = self.counter + 1;
        proof {
            self.issued@ = self.issued@.insert(r@);
        }
        r
    }
}

} // verus!
