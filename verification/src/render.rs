//! Rendering of status text as ASCII bytes: decimal numbers, the fixed-point
//! temperature, and helpers for assembling byte payloads.
//!
//! Everything here is specified against `Seq<u8>`; the payloads go out over
//! the radio notify characteristic and the status pages, which both take raw
//! bytes.
use vstd::prelude::*;
use vstd::string::*;

verus! {

/// The decimal digits of `n`, most significant first, as ASCII bytes.
pub open spec fn dec_bytes(n: nat) -> Seq<u8>
    decreases n,
{
    if n < 10 {
        seq![(48 + n) as u8]
    } else {
        dec_bytes(n / 10) + seq![(48 + n % 10) as u8]
    }
}

/// A value below 100 as exactly two ASCII digits.
pub open spec fn frac2_bytes(f: nat) -> Seq<u8> {
    seq![(48 + f / 10) as u8, (48 + f % 10) as u8]
}

/// A temperature in hundredths of a degree as ASCII text: an optional minus
/// sign, the whole degrees, a dot, and exactly two fractional digits.
pub open spec fn centi_bytes(t: int) -> Seq<u8> {
    if t < 0 {
        seq![45u8] + centi_abs_bytes((-t) as nat)
    } else {
        centi_abs_bytes(t as nat)
    }
}

pub open spec fn centi_abs_bytes(m: nat) -> Seq<u8> {
    dec_bytes(m / 100) + seq![46u8] + frac2_bytes(m % 100)
}

/// Render an unsigned number in decimal.
pub fn u64_dec(n: u64) -> (r: Vec<u8>)
    ensures
        r@ == dec_bytes(n as nat),
    decreases n,
{
    if n < 10 {
        let mut v: Vec<u8> = Vec::new();
        v.push(48 + (n as u8));
        proof {
            assert(v@ =~= dec_bytes(n as nat));
        }
        v
    } else {
        let mut v = u64_dec(n / 10);
        v.push(48 + ((n % 10) as u8));
        proof {
            assert(v@ =~= dec_bytes(n as nat));
        }
        v
    }
}

/// Render a temperature in hundredths of a degree, e.g. `2550` as `25.50`
/// and `-35` as `-0.35`.
pub fn centi_dec(t: i32) -> (r: Vec<u8>)
    ensures
        r@ == centi_bytes(t as int),
{
    let mut v: Vec<u8> = Vec::new();
    let m: u64 = if t < 0 {
        v.push(45);
        (-(t as i64)) as u64
    } else {
        t as u64
    };
    let mut whole = u64_dec(m / 100);
    v.append(&mut whole);
    v.push(46);
    let f: u64 = m % 100;
    v.push(48 + ((f / 10) as u8));
    v.push(48 + ((f % 10) as u8));
    proof {
        if t < 0 {
            assert(v@ =~= seq![45u8] + centi_abs_bytes(m as nat));
        } else {
            assert(v@ =~= centi_abs_bytes(m as nat));
        }
    }
    v
}

/// Append the bytes of a text fragment to a payload under assembly.
pub fn append_str_bytes(v: &mut Vec<u8>, s: &str)
    ensures
        final(v)@ == old(v)@ + s.spec_bytes(),
{
    let b = s.as_bytes();
    v.extend_from_slice(b);
    proof {
        assert(final(v)@ =~= old(v)@ + s.spec_bytes());
    }
}

/// Whether two byte strings hold identical content.
pub fn bytes_eq(a: &[u8], b: &[u8]) -> (r: bool)
    ensures
        r <==> a@ == b@,
{
    if a.len() != b.len() {
        proof {
            assert(a@.len() != b@.len());
        }
        return false;
    }
    let mut i: usize = 0;
    while i < a.len()
        invariant
            i <= a@.len(),
            a@.len() == b@.len(),
            forall|j: int| 0 <= j < i ==> a@[j] == b@[j],
        decreases a@.len() - i,
    {
        if a[i] != b[i] {
            return false;
        }
        i += 1;
    }
    proof {
        assert(a@ =~= b@);
    }
    true
}

} // verus!
