//! Sequences on the wire: the number of items in compact form, then the
//! items one after another.

use crate::codec::{Decode, Encode};
use crate::scale::{
    compact, decode_len, encode_len, lemma_compact_of_parse_compact,
    lemma_parse_compact_of_compact, parse_compact, MAX_LEN,
};
use vstd::prelude::*;
use vstd::slice::slice_subrange;

verus! {

/// The values that the items of `xs` stand for.
pub open spec fn values<T: Encode>(xs: Seq<T>) -> Seq<T::Value> {
    Seq::new(xs.len(), |i: int| xs[i].value())
}

/// Whether every value of `vs` has a byte form.
pub open spec fn all_valid<T: Encode>(vs: Seq<T::Value>) -> bool {
    forall|i: int| 0 <= i < vs.len() ==> T::valid(#[trigger] vs[i])
}

/// The byte forms of the items of `vs`, one after another.
pub open spec fn wire_items<T: Encode>(vs: Seq<T::Value>) -> Seq<u8>
    decreases vs.len(),
{
    if vs.len() == 0 {
        Seq::empty()
    } else {
        T::wire(vs[0]) + wire_items::<T>(vs.drop_first())
    }
}

/// The `count` values at the head of `s`, with the number of bytes they
/// take, if `s` starts with that many.
pub open spec fn parse_items<T: Decode>(s: Seq<u8>, count: nat) -> Option<(Seq<T::Value>, nat)>
    decreases count,
{
    if count == 0 {
        Some((Seq::empty(), 0))
    } else {
        match T::parse(s) {
            None => None,
            Some((v, used)) => prepend(
                seq![v],
                used,
                parse_items::<T>(s.skip(used as int), (count - 1) as nat),
            ),
        }
    }
}

/// `found` with the values `done`, which took `used` bytes, put in front.
pub open spec fn prepend<V>(done: Seq<V>, used: nat, found: Option<(Seq<V>, nat)>) -> Option<
    (Seq<V>, nat),
> {
    match found {
        None => None,
        Some((vs, more)) => Some((done + vs, used + more)),
    }
}

/// The byte forms of a sequence with one more item are those of the
/// sequence followed by that of the item.
pub proof fn lemma_wire_items_push<T: Encode>(vs: Seq<T::Value>, v: T::Value)
    ensures
        wire_items::<T>(vs.push(v)) == wire_items::<T>(vs) + T::wire(v),
    decreases vs.len(),
{
    if vs.len() == 0 {
        assert(wire_items::<T>(vs.push(v).drop_first()) =~= Seq::<u8>::empty());
    } else {
        lemma_wire_items_push::<T>(vs.drop_first(), v);
        assert(vs.push(v).drop_first() =~= vs.drop_first().push(v));
    }
}

/// The byte forms of single bytes, one after another, are the bytes.
pub proof fn lemma_wire_items_bytes(bytes: Seq<u8>)
    ensures
        wire_items::<u8>(bytes) == bytes,
    decreases bytes.len(),
{
    if bytes.len() > 0 {
        lemma_wire_items_bytes(bytes.drop_first());
    }
}

/// The byte forms of valid items, followed by anything, parse back to the
/// items.
pub proof fn lemma_parse_items_of_wire_items<T: Decode>(vs: Seq<T::Value>, rest: Seq<u8>)
    requires
        all_valid::<T>(vs),
    ensures
        parse_items::<T>(wire_items::<T>(vs) + rest, vs.len()) == Some(
            (vs, wire_items::<T>(vs).len()),
        ),
    decreases vs.len(),
{
    if vs.len() > 0 {
        let tail = vs.drop_first();
        let after = wire_items::<T>(tail) + rest;
        T::lemma_parse_of_wire(vs[0], after);
        lemma_parse_items_of_wire_items::<T>(tail, rest);
        assert(wire_items::<T>(vs) + rest =~= T::wire(vs[0]) + after);
        assert((T::wire(vs[0]) + after).skip(T::wire(vs[0]).len() as int) =~= after);
    }
}

/// Whatever parses as `count` items is the byte forms of the items found,
/// which are valid.
pub proof fn lemma_wire_items_of_parse_items<T: Decode>(s: Seq<u8>, count: nat)
    ensures
        parse_items::<T>(s, count) matches Some((vs, used)) ==> vs.len() == count && used
            <= s.len() && all_valid::<T>(vs) && wire_items::<T>(vs) == s.subrange(0, used as int),
    decreases count,
{
    if count > 0 {
        T::lemma_wire_of_parse(s);
        if let Some((v, used)) = T::parse(s) {
            let after = s.skip(used as int);
            lemma_wire_items_of_parse_items::<T>(after, (count - 1) as nat);
            if let Some((tail, more)) = parse_items::<T>(after, (count - 1) as nat) {
                let vs = seq![v] + tail;
                assert(vs.drop_first() =~= tail);
            }
        }
    }
}

impl<T: Encode> Encode for Vec<T> {
    type Value = Seq<T::Value>;

    open spec fn value(&self) -> Seq<T::Value> {
        values(self@)
    }

    open spec fn valid(v: Seq<T::Value>) -> bool {
        v.len() <= MAX_LEN && all_valid::<T>(v)
    }

    open spec fn wire(v: Seq<T::Value>) -> Seq<u8> {
        compact(v.len()) + wire_items::<T>(v)
    }

    fn encodable(&self) -> (ok: bool) {
        if self.len() > MAX_LEN {
            return false;
        }
        let mut i: usize = 0;
        while i < self.len()
            invariant
                i <= self@.len(),
                forall|j: int| 0 <= j < i ==> T::valid(#[trigger] values(self@)[j]),
            decreases self@.len() - i,
        {
            if !self[i].encodable() {
                assert(!T::valid(values(self@)[i as int]));
                return false;
            }
            i += 1;
        }
        true
    }

    fn encode_to(&self, out: &mut Vec<u8>) {
        let ghost before = out@;
        let ghost vs = values(self@);
        let n = self.len();
        encode_len(n as u32, out);
        let mut i: usize = 0;
        while i < n
            invariant
                i <= n,
                n == self@.len(),
                vs == values(self@),
                all_valid::<T>(vs),
                out@ == before + compact(n as nat) + wire_items::<T>(vs.take(i as int)),
            decreases n - i,
        {
            assert(T::valid(vs[i as int]));
            self[i].encode_to(out);
            proof {
                lemma_wire_items_push::<T>(vs.take(i as int), vs[i as int]);
                assert(vs.take(i + 1) =~= vs.take(i as int).push(vs[i as int]));
            }
            i += 1;
        }
        assert(vs.take(n as int) =~= vs);
    }
}

impl<T: Decode> Decode for Vec<T> {
    open spec fn parse(s: Seq<u8>) -> Option<(Seq<T::Value>, nat)> {
        match parse_compact(s) {
            None => None,
            Some((count, used)) => prepend(
                Seq::empty(),
                used,
                parse_items::<T>(s.skip(used as int), count),
            ),
        }
    }

    proof fn lemma_parse_of_wire(v: Seq<T::Value>, rest: Seq<u8>) {
        let head = compact(v.len());
        let after = wire_items::<T>(v) + rest;
        lemma_parse_compact_of_compact(v.len(), after);
        lemma_parse_items_of_wire_items::<T>(v, rest);
        assert(Self::wire(v) + rest =~= head + after);
        assert((head + after).skip(head.len() as int) =~= after);
    }

    proof fn lemma_wire_of_parse(s: Seq<u8>) {
        lemma_compact_of_parse_compact(s);
        if let Some((count, used)) = parse_compact(s) {
            let after = s.skip(used as int);
            lemma_wire_items_of_parse_items::<T>(after, count);
        }
    }

    fn decode(input: &[u8]) -> (r: Option<(Self, usize)>) {
        let (count, used) = match decode_len(input) {
            Some(found) => found,
            None => {
                return None;
            },
        };
        proof {
            lemma_compact_of_parse_compact(input@);
        }
        let ghost body = input@.skip(used as int);
        let mut items: Vec<T> = Vec::new();
        let mut at: usize = used;
        let mut i: u32 = 0;
        while i < count
            invariant
                i <= count,
                used <= at <= input@.len(),
                body == input@.skip(used as int),
                parse_compact(input@) == Some((count as nat, used as nat)),
                items@.len() == i,
                parse_items::<T>(body, count as nat) == prepend(
                    values(items@),
                    (at - used) as nat,
                    parse_items::<T>(input@.skip(at as int), (count - i) as nat),
                ),
            decreases count - i,
        {
            let rest = slice_subrange(input, at, input.len());
            match T::decode(rest) {
                None => {
                    return None;
                },
                Some((x, more)) => {
                    proof {
                        T::lemma_wire_of_parse(rest@);
                        assert(rest@.skip(more as int) =~= input@.skip(at + more));
                    }
                    items.push(x);
                    at = at + more;
                    i = i + 1;
                },
            }
        }
        Some((items, at))
    }
}

} // verus!
