//! Composite values on the wire: the byte forms of the parts, in order, with
//! nothing between them. A record type with two or three fields states its
//! byte form through the pair or the triple of its field types.

use crate::codec::{Decode, Encode};
use vstd::prelude::*;
use vstd::slice::slice_subrange;

verus! {

/// `found`, which was parsed after `used` bytes that gave `first`, joined
/// with `first`.
pub open spec fn then_parsed<A, B>(first: A, used: nat, found: Option<(B, nat)>) -> Option<
    ((A, B), nat),
> {
    match found {
        None => None,
        Some((second, more)) => Some(((first, second), used + more)),
    }
}

impl Encode for () {
    type Value = ();

    open spec fn value(&self) -> () {
        ()
    }

    open spec fn valid(v: ()) -> bool {
        true
    }

    open spec fn wire(v: ()) -> Seq<u8> {
        Seq::empty()
    }

    fn encodable(&self) -> (ok: bool) {
        true
    }

    fn encode_to(&self, out: &mut Vec<u8>) {
    }
}

impl Decode for () {
    open spec fn parse(s: Seq<u8>) -> Option<((), nat)> {
        Some(((), 0))
    }

    proof fn lemma_parse_of_wire(v: (), rest: Seq<u8>) {
    }

    proof fn lemma_wire_of_parse(s: Seq<u8>) {
    }

    fn decode(input: &[u8]) -> (r: Option<((), usize)>) {
        Some(((), 0))
    }
}

impl<A: Encode, B: Encode> Encode for (A, B) {
    type Value = (A::Value, B::Value);

    open spec fn value(&self) -> Self::Value {
        (self.0.value(), self.1.value())
    }

    open spec fn valid(v: Self::Value) -> bool {
        A::valid(v.0) && B::valid(v.1)
    }

    open spec fn wire(v: Self::Value) -> Seq<u8> {
        A::wire(v.0) + B::wire(v.1)
    }

    fn encodable(&self) -> (ok: bool) {
        self.0.encodable() && self.1.encodable()
    }

    fn encode_to(&self, out: &mut Vec<u8>) {
        self.0.encode_to(out);
        self.1.encode_to(out);
    }
}

impl<A: Decode, B: Decode> Decode for (A, B) {
    open spec fn parse(s: Seq<u8>) -> Option<(Self::Value, nat)> {
        match A::parse(s) {
            None => None,
            Some((a, used)) => then_parsed(a, used, B::parse(s.skip(used as int))),
        }
    }

    proof fn lemma_parse_of_wire(v: Self::Value, rest: Seq<u8>) {
        let wa = A::wire(v.0);
        let wb = B::wire(v.1);
        A::lemma_parse_of_wire(v.0, wb + rest);
        B::lemma_parse_of_wire(v.1, rest);
        assert(Self::wire(v) + rest =~= wa + (wb + rest));
        assert((wa + (wb + rest)).skip(wa.len() as int) =~= wb + rest);
    }

    proof fn lemma_wire_of_parse(s: Seq<u8>) {
        A::lemma_wire_of_parse(s);
        if let Some((a, used)) = A::parse(s) {
            let after = s.skip(used as int);
            B::lemma_wire_of_parse(after);
        }
    }

    fn decode(input: &[u8]) -> (r: Option<(Self, usize)>) {
        match A::decode(input) {
            None => None,
            Some((a, used)) => {
                proof {
                    A::lemma_wire_of_parse(input@);
                }
                let rest = slice_subrange(input, used, input.len());
                match B::decode(rest) {
                    None => None,
                    Some((b, more)) => {
                        proof {
                            B::lemma_wire_of_parse(rest@);
                        }
                        Some(((a, b), used + more))
                    },
                }
            },
        }
    }
}

impl<A: Encode, B: Encode, C: Encode> Encode for (A, B, C) {
    type Value = (A::Value, B::Value, C::Value);

    open spec fn value(&self) -> Self::Value {
        (self.0.value(), self.1.value(), self.2.value())
    }

    open spec fn valid(v: Self::Value) -> bool {
        A::valid(v.0) && B::valid(v.1) && C::valid(v.2)
    }

    open spec fn wire(v: Self::Value) -> Seq<u8> {
        A::wire(v.0) + B::wire(v.1) + C::wire(v.2)
    }

    fn encodable(&self) -> (ok: bool) {
        self.0.encodable() && self.1.encodable() && self.2.encodable()
    }

    fn encode_to(&self, out: &mut Vec<u8>) {
        self.0.encode_to(out);
        self.1.encode_to(out);
        self.2.encode_to(out);
    }
}

impl<A: Decode, B: Decode, C: Decode> Decode for (A, B, C) {
    open spec fn parse(s: Seq<u8>) -> Option<(Self::Value, nat)> {
        match <(A, B)>::parse(s) {
            None => None,
            Some((ab, used)) => match C::parse(s.skip(used as int)) {
                None => None,
                Some((c, more)) => Some(((ab.0, ab.1, c), used + more)),
            },
        }
    }

    proof fn lemma_parse_of_wire(v: Self::Value, rest: Seq<u8>) {
        let wab = <(A, B)>::wire((v.0, v.1));
        let wc = C::wire(v.2);
        <(A, B)>::lemma_parse_of_wire((v.0, v.1), wc + rest);
        C::lemma_parse_of_wire(v.2, rest);
        assert(Self::wire(v) + rest =~= wab + (wc + rest));
        assert((wab + (wc + rest)).skip(wab.len() as int) =~= wc + rest);
    }

    proof fn lemma_wire_of_parse(s: Seq<u8>) {
        <(A, B)>::lemma_wire_of_parse(s);
        if let Some((ab, used)) = <(A, B)>::parse(s) {
            let after = s.skip(used as int);
            C::lemma_wire_of_parse(after);
        }
    }

    fn decode(input: &[u8]) -> (r: Option<(Self, usize)>) {
        match <(A, B)>::decode(input) {
            None => None,
            Some((ab, used)) => {
                proof {
                    <(A, B)>::lemma_wire_of_parse(input@);
                }
                let rest = slice_subrange(input, used, input.len());
                match C::decode(rest) {
                    None => None,
                    Some((c, more)) => {
                        proof {
                            C::lemma_wire_of_parse(rest@);
                        }
                        Some(((ab.0, ab.1, c), used + more))
                    },
                }
            },
        }
    }
}

} // verus!
