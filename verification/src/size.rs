use vstd::prelude::*;
use crate::text::{digit_char, int_text, nat_text, push_char, push_nat};

verus! {

/// 2^53: below it every integer is an `f64`.
pub open spec fn exact_limit() -> nat {
    0x20_0000_0000_0000
}

/// Spacing of the `f64` values near `m`, looking upward from the power of
/// two `p`: the first power of two `p` with `m < 2^53 * p`.
pub open spec fn spacing_from(m: nat, p: nat) -> nat
    decreases m - p,
    when p > 0 && (m >= exact_limit() * p ==> m - 2 * p >= 0)
{
    if m < exact_limit() * p {
        p
    } else {
        spacing_from(m, 2 * p)
    }
}

/// Round `a / d` to the nearest integer, ties to the even one.
pub open spec fn div_round_even(a: nat, d: nat) -> nat {
    let q = a / d;
    let r = a % d;
    if 2 * r > d || (2 * r == d && q % 2 == 1) {
        q + 1
    } else {
        q
    }
}

/// The value that `m as f64` holds: `m` rounded to the nearest multiple of
/// the local spacing, ties to an even multiple.
pub open spec fn nat_as_f64(m: nat) -> nat {
    let p = spacing_from(m, 1);
    div_round_even(m, p) * p
}

/// The value that `n as f64` holds, for an integer `n`.
pub open spec fn int_as_f64(n: int) -> int {
    if n < 0 {
        -(nat_as_f64((-n) as nat) as int)
    } else {
        nat_as_f64(n as nat) as int
    }
}

pub open spec fn unit_divisor(k: int) -> nat {
    if k == 1 {
        1024
    } else if k == 2 {
        1024 * 1024
    } else {
        1024 * 1024 * 1024
    }
}

pub open spec fn unit_letter(k: int) -> char {
    if k == 1 {
        'K'
    } else if k == 2 {
        'M'
    } else {
        'G'
    }
}

/// The text that `format_file_size` gives for `bytes`: the `f64` value of
/// `bytes` divided by 1024 at most three times while it is at least 1024;
/// bytes are written whole, other units whole from 20 up and with one decimal
/// below 20, rounded half to even as Rust's float formatting does.
pub open spec fn file_size_text(bytes: int) -> Seq<char> {
    let x = int_as_f64(bytes);
    if x < 1024 {
        int_text(x) + seq!['B']
    } else {
        let k = if x < 1024 * 1024 {
            1int
        } else if x < 1024 * 1024 * 1024 {
            2int
        } else {
            3int
        };
        let d = unit_divisor(k);
        if x >= 20 * d {
            nat_text(div_round_even(x as nat, d)) + seq![unit_letter(k)]
        } else {
            let t = div_round_even((10 * x) as nat, d);
            nat_text(t / 10) + seq!['.', digit_char((t % 10) as int), unit_letter(k)]
        }
    }
}

fn round_even(a: u128, d: u128) -> (q: u128)
    requires
        d > 0,
        d <= 0x1_0000_0000_0000_0000,
        a < 0x1_0000_0000_0000_0000_0000,
    ensures
        q == div_round_even(a as nat, d as nat),
{
    let q = a / d;
    let r = a % d;
    if 2 * r > d || (2 * r == d && q % 2 == 1) {
        q + 1
    } else {
        q
    }
}

proof fn lemma_quotient_bound(m: nat, p: nat)
    by (nonlinear_arith)
    requires
        p > 0,
        m < 0x20_0000_0000_0000 * p,
    ensures
        m / p < 0x20_0000_0000_0000,
{
}

proof fn lemma_rounded_bound(m: nat, p: nat, q: nat)
    requires
        p == 1 || p == 2 || p == 4 || p == 8 || p == 16 || p == 32 || p == 64 || p == 128 || p
            == 256 || p == 512 || p == 1024 || p == 2048,
        m <= 0x8000_0000_0000_0000,
        q == div_round_even(m, p),
    ensures
        q * p <= 0x8000_0000_0000_0000,
{
    let b: nat = 0x8000_0000_0000_0000;
    assert(b % p == 0);
    assert(m / p <= b / p) by (nonlinear_arith)
        requires m <= b, p > 0;
    assert((b / p) * p == b) by (nonlinear_arith)
        requires b % p == 0, p > 0;
    if q == m / p + 1 {
        assert(m % p > 0);
        assert(m == (m / p) * p + m % p) by (nonlinear_arith)
            requires p > 0;
        assert(m / p < b / p) by (nonlinear_arith)
            requires m == (m / p) * p + m % p, m % p > 0, m <= b, (b / p) * p == b, p > 0,
                m / p <= b / p;
    }
    assert(q * p <= (b / p) * p) by (nonlinear_arith)
        requires q <= b / p;
}

/// `m as f64`, as an integer, for `m <= 2^63`.
fn magnitude_as_f64(m: u64) -> (x: u128)
    requires
        m <= 0x8000_0000_0000_0000,
    ensures
        x == nat_as_f64(m as nat),
        x <= 0x8000_0000_0000_0000,
        m < exact_limit() ==> x == m,
        m > 0 ==> x > 0,
{
    let mut p: u128 = 1;
    while (m as u128) >= 0x20_0000_0000_0000 * p
        invariant
            p == 1 || p == 2 || p == 4 || p == 8 || p == 16 || p == 32 || p == 64 || p == 128
                || p == 256 || p == 512 || p == 1024 || p == 2048,
            p == 1 || m >= 0x10_0000_0000_0000 * p,
            spacing_from(m as nat, p as nat) == spacing_from(m as nat, 1),
            m <= 0x8000_0000_0000_0000,
        decreases 4096 - p,
    {
        p = p * 2;
    }
    let q = round_even(m as u128, p);
    proof {
        lemma_quotient_bound(m as nat, p as nat);
        assert(q <= 0x20_0000_0000_0000);
        assert(q * p <= 0x20_0000_0000_0000 * 2048) by (nonlinear_arith)
            requires q <= 0x20_0000_0000_0000, p <= 2048;
    }
    let x = q * p;
    proof {
        lemma_rounded_bound(m as nat, p as nat, q as nat);
        if p > 1 {
            assert(m as nat / p as nat >= 1) by (nonlinear_arith)
                requires m >= 0x10_0000_0000_0000 * p, p > 1;
            assert(q >= 1);
            assert(q * p >= 1) by (nonlinear_arith)
                requires q >= 1, p >= 1;
        }
    }
    x
}


/// Formats a file size given in bytes for display: `0B`, `512B`, `1.5K`,
/// `10.0K`, `302G`.
pub fn format_file_size(bytes: i64) -> (r: String)
    ensures
        r@ == file_size_text(bytes as int),
{
    let negative = bytes < 0;
    let m: u64 = if bytes == i64::MIN {
        0x8000_0000_0000_0000u64
    } else if negative {
        (-bytes) as u64
    } else {
        bytes as u64
    };
    let x = magnitude_as_f64(m);
    let mut r = String::new();
    if negative || x < 1024 {
        if negative {
            push_char(&mut r, '-');
        }
        push_nat(&mut r, x as u64);
        push_char(&mut r, 'B');
        proof {
            if negative {
                assert(int_as_f64(bytes as int) == -(x as int));
                if x == 0 {
                    assert(nat_as_f64(m as nat) == 0);
                }
                assert(r@ =~= file_size_text(bytes as int));
            } else {
                assert(r@ =~= file_size_text(bytes as int));
            }
        }
        return r;
    }
    let (d, letter): (u128, char) = if x < 1024 * 1024 {
        (1024, 'K')
    } else if x < 1024 * 1024 * 1024 {
        (1024 * 1024, 'M')
    } else {
        (1024 * 1024 * 1024, 'G')
    };
    if x >= 20 * d {
        let q = round_even(x, d);
        push_nat(&mut r, q as u64);
        push_char(&mut r, letter);
    } else {
        let t = round_even(10 * x, d);
        assert(t <= 201) by (nonlinear_arith)
            requires t == div_round_even((10 * x) as nat, d as nat), 10 * x < 200 * d, d > 0;
        push_nat(&mut r, (t / 10) as u64);
        push_char(&mut r, '.');
        push_char(&mut r, crate::text::digit_of((t % 10) as u64));
        push_char(&mut r, letter);
    }
    assert(r@ =~= file_size_text(bytes as int));
    r
}

} // verus!
