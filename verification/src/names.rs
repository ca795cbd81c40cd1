//! Interface-name conventions and the byte-string helpers the handshake
//! and configuration logic build on: decimal rendering, zero padding, and
//! the scan for a name field's terminating zero byte.

use vstd::prelude::*;

verus! {

/// The decimal digits of `n`, most significant first, as ASCII bytes.
pub open spec fn dec_spec(n: nat) -> Seq<u8>
    decreases n,
{
    if n < 10 {
        seq![(48 + n) as u8]
    } else {
        dec_spec(n / 10).push((48 + n % 10) as u8)
    }
}

/// The name requested from the tun driver for index `n`: "tun<n>".
pub open spec fn tun_name_spec(n: nat) -> Seq<u8> {
    seq![116u8, 117u8, 110u8] + dec_spec(n)
}

/// The conventional control-socket interface name for index `n`: "utun<n>".
pub open spec fn utun_name_spec(n: nat) -> Seq<u8> {
    seq![117u8, 116u8, 117u8, 110u8] + dec_spec(n)
}

/// `s` zero-padded on the right to length `n`.
pub open spec fn pad_spec(s: Seq<u8>, n: int) -> Seq<u8>
    recommends
        s.len() <= n,
{
    s + Seq::new((n - s.len()) as nat, |i: int| 0u8)
}

/// The index of the first zero byte of `s`, or `s.len()` if every byte is
/// nonzero.
pub open spec fn zero_pos(s: Seq<u8>) -> int
    decreases s.len(),
{
    if s.len() == 0 {
        0
    } else if s[0] == 0 {
        0
    } else {
        1 + zero_pos(s.subrange(1, s.len() as int))
    }
}

pub proof fn lemma_zero_pos(s: Seq<u8>)
    ensures
        0 <= zero_pos(s) <= s.len(),
        forall|j: int| 0 <= j < zero_pos(s) ==> s[j] != 0,
        zero_pos(s) < s.len() ==> s[zero_pos(s)] == 0,
    decreases s.len(),
{
    if s.len() > 0 && s[0] != 0 {
        let t = s.subrange(1, s.len() as int);
        lemma_zero_pos(t);
        assert forall|j: int| 0 <= j < zero_pos(s) implies s[j] != 0 by {
            if j > 0 {
                assert(t[j - 1] != 0);
            }
        }
        if zero_pos(s) < s.len() {
            assert(t[zero_pos(s) - 1] == 0);
        }
    }
}

/// The digits of `dec_spec` are ASCII `'0'` to `'9'`, and a value below
/// 1000 renders in at most three of them.
pub proof fn lemma_dec_digits_ascii(n: nat)
    ensures
        1 <= dec_spec(n).len(),
        forall|j: int| 0 <= j < dec_spec(n).len() ==> 48 <= #[trigger] dec_spec(n)[j] <= 57,
        n < 10 ==> dec_spec(n).len() == 1,
        n < 100 ==> dec_spec(n).len() <= 2,
        n < 1000 ==> dec_spec(n).len() <= 3,
    decreases n,
{
    if n >= 10 {
        lemma_dec_digits_ascii(n / 10);
        let d = dec_spec(n / 10);
        assert(dec_spec(n) == d.push((48 + n % 10) as u8));
        assert forall|j: int| 0 <= j < dec_spec(n).len() implies 48 <= #[trigger] dec_spec(
            n,
        )[j] <= 57 by {
            if j < d.len() {
                assert(dec_spec(n)[j] == d[j]);
            } else {
                assert(dec_spec(n)[j] == (48 + n % 10) as u8);
            }
        }
    }
}

/// ASCII decimal rendering of `n`: 0 renders as "0", 37 as "37", 255 as
/// "255".
pub fn dec_digits(n: u8) -> (r: Vec<u8>)
    ensures
        r@ == dec_spec(n as nat),
{
    let mut v: Vec<u8> = Vec::new();
    let m: u8 = n / 10;
    let mm: u8 = m / 10;
    if mm != 0 {
        v.push(48 + mm % 10);
    }
    if m != 0 {
        v.push(48 + m % 10);
    }
    v.push(48 + n % 10);
    proof {
        if m == 0 {
            assert(v@ =~= dec_spec(n as nat));
        } else if mm == 0 {
            assert(dec_spec(m as nat) == seq![(48 + (m as nat) % 10) as u8]);
            assert(v@ =~= dec_spec(n as nat));
        } else {
            assert(mm < 10) by {
                assert(n / 10 / 10 < 10) by (bit_vector);
            }
            assert(dec_spec(mm as nat) == seq![(48 + (mm as nat) % 10) as u8]);
            assert(dec_spec(m as nat) == dec_spec(mm as nat).push((48 + (m as nat) % 10) as u8));
            assert(v@ =~= dec_spec(n as nat));
        }
    }
    v
}

/// Appends a copy of every byte of `src` to `dst`.
pub fn push_all(dst: &mut Vec<u8>, src: &Vec<u8>)
    ensures
        final(dst)@ == old(dst)@ + src@,
{
    let ghost base = dst@;
    let mut i: usize = 0;
    while i < src.len()
        invariant
            i <= src@.len(),
            dst@ == base + src@.take(i as int),
        decreases src@.len() - i,
    {
        let b = src[i];
        dst.push(b);
        i = i + 1;
        proof {
            assert(dst@ =~= base + src@.take(i as int));
        }
    }
    proof {
        assert(base + src@.take(src@.len() as int) =~= base + src@);
    }
}

/// A fresh byte-for-byte copy of `src`.
pub fn copy_bytes(src: &Vec<u8>) -> (r: Vec<u8>)
    ensures
        r@ == src@,
{
    let mut v: Vec<u8> = Vec::new();
    push_all(&mut v, src);
    proof {
        assert(Seq::<u8>::empty() + src@ =~= src@);
    }
    v
}

/// A fresh copy of the first `n` bytes of `src`.
pub fn copy_prefix(src: &Vec<u8>, n: usize) -> (r: Vec<u8>)
    requires
        n <= src@.len(),
    ensures
        r@ == src@.take(n as int),
{
    let mut v: Vec<u8> = Vec::new();
    let mut i: usize = 0;
    while i < n
        invariant
            i <= n <= src@.len(),
            v@ == src@.take(i as int),
        decreases n - i,
    {
        let b = src[i];
        v.push(b);
        i = i + 1;
        proof {
            assert(v@ =~= src@.take(i as int));
        }
    }
    v
}

/// Pushes zero bytes until `v` reaches length `n`.
pub fn pad_zeros(v: &mut Vec<u8>, n: usize)
    requires
        old(v)@.len() <= n,
    ensures
        final(v)@ == pad_spec(old(v)@, n as int),
        final(v)@.len() == n,
{
    let ghost base = v@;
    while v.len() < n
        invariant
            base.len() <= v@.len() <= n,
            v@ == pad_spec(base, v@.len() as int),
        decreases n - v@.len(),
    {
        v.push(0);
        proof {
            assert(v@ =~= pad_spec(base, v@.len() as int));
        }
    }
}

/// The index of the first zero byte of `s`, scanned left to right; `None`
/// if every byte is nonzero.
pub fn find_zero(s: &Vec<u8>) -> (r: Option<usize>)
    ensures
        r matches Some(i) ==> i as int == zero_pos(s@) && i < s@.len(),
        r is None ==> zero_pos(s@) == s@.len(),
{
    let mut i: usize = 0;
    while i < s.len()
        invariant
            i <= s@.len(),
            forall|j: int| 0 <= j < i ==> s@[j] != 0,
        decreases s@.len() - i,
    {
        if s[i] == 0 {
            proof {
                lemma_zero_pos(s@);
                assert(zero_pos(s@) == i) by {
                    if zero_pos(s@) < i as int {
                        assert(s@[zero_pos(s@)] == 0);
                    }
                    if zero_pos(s@) > i as int {
                        assert(s@[i as int] != 0);
                    }
                }
            }
            return Some(i);
        }
        i = i + 1;
    }
    proof {
        lemma_zero_pos(s@);
        if zero_pos(s@) < s@.len() {
            assert(s@[zero_pos(s@)] == 0);
        }
    }
    None
}

/// Naming law: the request buffer for index `i` -- "tun<i>" zero-padded to
/// the 16-byte name field -- scans back, the way a kernel reply is
/// scanned, to exactly "tun<i>". A kernel that echoes the requested name
/// therefore resolves to the conventional name.
pub proof fn lemma_requested_name_resolves(i: u8)
    ensures
        zero_pos(pad_spec(tun_name_spec(i as nat), 16)) == tun_name_spec(i as nat).len(),
        pad_spec(tun_name_spec(i as nat), 16).take(tun_name_spec(i as nat).len() as int)
            == tun_name_spec(i as nat),
{
    let s = tun_name_spec(i as nat);
    let p = pad_spec(s, 16);
    lemma_dec_digits_ascii(i as nat);
    assert(s.len() <= 6);
    assert(p.len() == 16);
    assert forall|j: int| 0 <= j < s.len() implies p[j] != 0 by {
        assert(p[j] == s[j]);
        if j >= 3 {
            assert(s[j] == dec_spec(i as nat)[j - 3]);
            assert(48 <= dec_spec(i as nat)[j - 3] <= 57);
        }
    }
    assert(p[s.len() as int] == 0);
    lemma_zero_pos(p);
    assert(zero_pos(p) == s.len()) by {
        if zero_pos(p) < s.len() {
            assert(p[zero_pos(p)] == 0);
        }
        if zero_pos(p) > s.len() {
            assert(p[s.len() as int] != 0);
        }
    }
    assert(p.take(s.len() as int) =~= s);
}

} // verus!
