//! Events of a block: the raw records as the ledger emits them, their
//! decoding against an event schema, and the search for the one event that
//! a caller waits for.

use crate::call::Address;
use crate::codec::{
    from_bytes, lemma_decoded_is_canonical, lemma_round_trip, parse_all, to_bytes, Decode, Encode,
};
use crate::sequence::values;
use vstd::prelude::*;

verus! {

/// One entry of a block's event log: the index pair of the event and the
/// byte form of its fields.
#[derive(Clone, Debug, PartialEq, Eq)]
pub struct EventRecord {
    pub module_index: u8,
    pub event_index: u8,
    pub payload: Vec<u8>,
}

/// An event record as a mathematical value.
pub ghost struct Record {
    pub module_index: u8,
    pub event_index: u8,
    pub payload: Seq<u8>,
}

impl View for EventRecord {
    type V = Record;

    open spec fn view(&self) -> Record {
        Record {
            module_index: self.module_index,
            event_index: self.event_index,
            payload: self.payload@,
        }
    }
}

/// The records of a batch as mathematical values, in emission order.
pub open spec fn records_view(records: Seq<EventRecord>) -> Seq<Record> {
    Seq::new(records.len(), |i: int| records[i]@)
}

/// The fields of a notification that the ledger emits.
pub trait Event: Decode {
    /// The name of the module that emits the event.
    const MODULE: &'static str;

    /// The name of the event within its module.
    const EVENT: &'static str;
}

/// The record that carries the event at `address` with the fields `v`.
pub open spec fn event_record<E: Event>(address: Address, v: E::Value) -> Record {
    Record {
        module_index: address.module_index,
        event_index: address.item_index,
        payload: E::wire(v),
    }
}

/// The fields that `record` carries for the event at `address`, if it is a
/// record of that event.
pub open spec fn event_parse<E: Event>(address: Address, record: Record) -> Option<E::Value> {
    if record.module_index == address.module_index && record.event_index == address.item_index {
        parse_all::<E>(record.payload)
    } else {
        None
    }
}

/// The fields of the first record of `records` that is a record of the
/// event at `address`, if there is one.
pub open spec fn first_event<E: Event>(address: Address, records: Seq<Record>) -> Option<
    E::Value,
>
    decreases records.len(),
{
    if records.len() == 0 {
        None
    } else {
        match event_parse::<E>(address, records[0]) {
            Some(v) => Some(v),
            None => first_event::<E>(address, records.drop_first()),
        }
    }
}

/// The fields of all records of `records` that are records of the event at
/// `address`, in emission order.
pub open spec fn all_events<E: Event>(address: Address, records: Seq<Record>) -> Seq<E::Value>
    decreases records.len(),
{
    if records.len() == 0 {
        Seq::empty()
    } else {
        match event_parse::<E>(address, records.last()) {
            Some(v) => all_events::<E>(address, records.drop_last()).push(v),
            None => all_events::<E>(address, records.drop_last()),
        }
    }
}

/// The record that carries `event` at `address`.
pub fn encode_event<E: Event>(address: Address, event: &E) -> (record: EventRecord)
    requires
        E::valid(event.value()),
    ensures
        record@ == event_record::<E>(address, event.value()),
{
    EventRecord {
        module_index: address.module_index,
        event_index: address.item_index,
        payload: to_bytes(event),
    }
}

/// Reads `record` as the event at `address`. `None` where the record's index
/// pair differs from `address`, or where its payload is not the byte form
/// of the event's fields.
pub fn decode_event<E: Event>(address: Address, record: &EventRecord) -> (r: Option<E>)
    ensures
        match r {
            Some(event) => event_parse::<E>(address, record@) == Some(event.value()),
            None => event_parse::<E>(address, record@) is None,
        },
{
    if record.module_index != address.module_index || record.event_index != address.item_index {
        return None;
    }
    from_bytes::<E>(record.payload.as_slice())
}

/// Scans `records` in emission order and returns the first that decodes as
/// the event at `address`. `None` means that the block emitted no such
/// event.
pub fn find_event<E: Event>(address: Address, records: &[EventRecord]) -> (r: Option<E>)
    ensures
        match r {
            Some(event) => first_event::<E>(address, records_view(records@)) == Some(
                event.value(),
            ),
            None => first_event::<E>(address, records_view(records@)) is None,
        },
{
    let ghost all = records_view(records@);
    let mut i: usize = 0;
    assert(all.skip(0) =~= all);
    while i < records.len()
        invariant
            i <= records@.len(),
            all == records_view(records@),
            first_event::<E>(address, all) == first_event::<E>(address, all.skip(i as int)),
        decreases records@.len() - i,
    {
        match decode_event::<E>(address, &records[i]) {
            Some(event) => {
                return Some(event);
            },
            None => {
                assert(all.skip(i as int).drop_first() =~= all.skip(i + 1));
            },
        }
        i += 1;
    }
    None
}

/// All records of `records` that decode as the event at `address`, in
/// emission order. A caller that waits for an event with certain fields
/// picks it from these.
pub fn find_events<E: Event>(address: Address, records: &[EventRecord]) -> (found: Vec<E>)
    ensures
        values(found@) == all_events::<E>(address, records_view(records@)),
{
    let ghost all = records_view(records@);
    let mut found: Vec<E> = Vec::new();
    let mut i: usize = 0;
    while i < records.len()
        invariant
            i <= records@.len(),
            all == records_view(records@),
            values(found@) == all_events::<E>(address, all.take(i as int)),
        decreases records@.len() - i,
    {
        assert(all.take(i + 1).drop_last() =~= all.take(i as int));
        match decode_event::<E>(address, &records[i]) {
            Some(event) => found.push(event),
            None => {},
        }
        i += 1;
    }
    assert(all.take(i as int) =~= all);
    found
}

/// Decoding the record of an event at the address it was recorded for gives
/// the fields back.
pub proof fn lemma_event_round_trip<E: Event>(address: Address, v: E::Value)
    requires
        E::valid(v),
    ensures
        event_parse::<E>(address, event_record::<E>(address, v)) == Some(v),
{
    lemma_round_trip::<E>(v);
}

/// A record whose index pair is not that of the schema decodes to nothing.
pub proof fn lemma_event_address_mismatch<E: Event>(address: Address, record: Record)
    requires
        record.module_index != address.module_index || record.event_index != address.item_index,
    ensures
        event_parse::<E>(address, record) is None,
{
}

/// What decodes as an event is valid, and its byte form is the payload.
pub proof fn lemma_event_decoded_is_canonical<E: Event>(address: Address, record: Record)
    ensures
        event_parse::<E>(address, record) matches Some(v) ==> E::valid(v) && event_record::<E>(
            address,
            v,
        ) == record,
{
    lemma_decoded_is_canonical::<E>(record.payload);
}

/// The search returns the record at `at` where no earlier record decodes.
pub proof fn lemma_first_event_at<E: Event>(address: Address, records: Seq<Record>, at: int)
    requires
        0 <= at < records.len(),
        event_parse::<E>(address, records[at]) is Some,
        forall|j: int| 0 <= j < at ==> event_parse::<E>(address, #[trigger] records[j]) is None,
    ensures
        first_event::<E>(address, records) == event_parse::<E>(address, records[at]),
    decreases records.len(),
{
    if at > 0 {
        let tail = records.drop_first();
        lemma_first_event_at::<E>(address, tail, at - 1);
    }
}

/// Where exactly one record of a batch is of the event, the search returns
/// it, whatever its position among the others.
pub proof fn lemma_single_event_found<E: Event>(address: Address, records: Seq<Record>, at: int)
    requires
        0 <= at < records.len(),
        event_parse::<E>(address, records[at]) is Some,
        forall|j: int|
            0 <= j < records.len() && j != at ==> event_parse::<E>(address, #[trigger] records[j])
                is None,
    ensures
        first_event::<E>(address, records) == event_parse::<E>(address, records[at]),
{
    lemma_first_event_at::<E>(address, records, at);
}

/// Where no record of a batch is of the event, the search finds nothing.
pub proof fn lemma_no_event_absent<E: Event>(address: Address, records: Seq<Record>)
    requires
        forall|j: int|
            0 <= j < records.len() ==> event_parse::<E>(address, #[trigger] records[j]) is None,
    ensures
        first_event::<E>(address, records) is None,
    decreases records.len(),
{
    if records.len() > 0 {
        let tail = records.drop_first();
        lemma_no_event_absent::<E>(address, tail);
    }
}

/// Whatever the search returns is the decoding of some record of the batch,
/// and nothing is returned only where no record decodes.
pub proof fn lemma_first_event_is_a_record<E: Event>(address: Address, records: Seq<Record>)
    ensures
        match first_event::<E>(address, records) {
            Some(v) => exists|i: int|
                0 <= i < records.len() && event_parse::<E>(address, #[trigger] records[i])
                    == Some(v),
            None => forall|j: int|
                0 <= j < records.len() ==> event_parse::<E>(address, #[trigger] records[j])
                    is None,
        },
    decreases records.len(),
{
    if records.len() > 0 {
        let tail = records.drop_first();
        lemma_first_event_is_a_record::<E>(address, tail);
        if event_parse::<E>(address, records[0]) is None && first_event::<E>(address, tail)
            is None {
            assert forall|j: int| 0 <= j < records.len() implies event_parse::<E>(
                address,
                #[trigger] records[j],
            ) is None by {
                if j > 0 {
                    assert(tail[j - 1] == records[j]);
                }
            }
        }
    }
}

/// The event that the search returns is the first of all that the batch
/// holds.
pub proof fn lemma_first_event_is_first_of_all<E: Event>(address: Address, records: Seq<Record>)
    ensures
        match first_event::<E>(address, records) {
            Some(v) => all_events::<E>(address, records).len() > 0 && all_events::<E>(
                address,
                records,
            )[0] == v,
            None => all_events::<E>(address, records).len() == 0,
        },
    decreases records.len(),
{
    if records.len() > 0 {
        let front = records.drop_last();
        lemma_first_event_is_first_of_all::<E>(address, front);
        match first_event::<E>(address, front) {
            Some(v) => {
                lemma_first_event_before::<E>(address, records, front.len() as int);
            },
            None => {
                lemma_first_event_is_a_record::<E>(address, front);
                assert forall|j: int| 0 <= j < front.len() implies event_parse::<E>(
                    address,
                    #[trigger] records[j],
                ) is None by {
                    assert(front[j] == records[j]);
                }
                if event_parse::<E>(address, records.last()) is Some {
                    lemma_first_event_at::<E>(address, records, records.len() - 1);
                } else {
                    lemma_no_event_absent::<E>(address, records);
                }
            },
        }
    }
}

/// The search looks no further than the first `n` records where one of
/// them decodes.
pub proof fn lemma_first_event_before<E: Event>(address: Address, records: Seq<Record>, n: int)
    requires
        0 <= n <= records.len(),
        first_event::<E>(address, records.take(n)) is Some,
    ensures
        first_event::<E>(address, records) == first_event::<E>(address, records.take(n)),
    decreases n,
{
    if n > 0 {
        if event_parse::<E>(address, records[0]) is None {
            assert(records.take(n).drop_first() =~= records.drop_first().take(n - 1));
            lemma_first_event_before::<E>(address, records.drop_first(), n - 1);
        }
    }
}

} // verus!
