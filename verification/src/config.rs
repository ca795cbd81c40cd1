//! Interface configuration: the argument texts the external
//! network-configuration command is invoked with to address the interface
//! and bring the link up. Running the command is the caller's work; what
//! it is told is fixed here.

use vstd::prelude::*;

use crate::names::{dec_digits, dec_spec, push_all};

verus! {

/// The fixed MTU the link is brought up with, as ASCII decimal text:
/// "1380", the canonical value this library commits to.
pub open spec fn mtu_text_spec() -> Seq<u8> {
    seq![49u8, 51u8, 56u8, 48u8]
}

/// "10.10.10.<id>": the tunnel address text for a self or peer id.
pub open spec fn addr_text_spec(id: nat) -> Seq<u8> {
    seq![49u8, 48u8, 46u8, 49u8, 48u8, 46u8, 49u8, 48u8, 46u8] + dec_spec(id)
}

/// "10.10.10.<id>/24": the CIDR address text used on Platform Linux.
pub open spec fn cidr_text_spec(id: nat) -> Seq<u8> {
    addr_text_spec(id) + seq![47u8, 50u8, 52u8]
}

/// The MTU text the link is configured with.
pub fn mtu_text() -> (r: Vec<u8>)
    ensures
        r@ == mtu_text_spec(),
{
    let mut v: Vec<u8> = Vec::new();
    v.push(49);
    v.push(51);
    v.push(56);
    v.push(48);
    proof {
        assert(v@ =~= mtu_text_spec());
    }
    v
}

/// Builds "10.10.10.<id>".
pub fn addr_text(id: u8) -> (r: Vec<u8>)
    ensures
        r@ == addr_text_spec(id as nat),
{
    let mut v: Vec<u8> = Vec::new();
    v.push(49);
    v.push(48);
    v.push(46);
    v.push(49);
    v.push(48);
    v.push(46);
    v.push(49);
    v.push(48);
    v.push(46);
    let d = dec_digits(id);
    push_all(&mut v, &d);
    proof {
        assert(v@ =~= addr_text_spec(id as nat));
    }
    v
}

/// Builds "10.10.10.<id>/24".
pub fn cidr_text(id: u8) -> (r: Vec<u8>)
    ensures
        r@ == cidr_text_spec(id as nat),
{
    let mut v = addr_text(id);
    v.push(47);
    v.push(50);
    v.push(52);
    proof {
        assert(v@ =~= cidr_text_spec(id as nat));
    }
    v
}

} // verus!
