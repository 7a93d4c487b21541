//! What a runtime declares of its modules: the index of each module, the
//! order of its calls and events, and the kind of each storage item. The
//! index pair of a call or an event and the hasher of a storage map are
//! looked up here by name.

use crate::call::{Address, Call};
use crate::event::Event;
use crate::storage::{StorageEntry, Store};
use vstd::prelude::*;

verus! {

/// A storage item of a module.
#[derive(Clone, Debug, PartialEq, Eq)]
pub struct StorageMetadata {
    pub name: String,
    pub entry: StorageEntry,
}

/// A module of the runtime. A call or an event has the index of its place
/// in the module's list.
#[derive(Clone, Debug, PartialEq, Eq)]
pub struct ModuleMetadata {
    pub name: String,
    pub index: u8,
    pub calls: Vec<String>,
    pub events: Vec<String>,
    pub storage: Vec<StorageMetadata>,
}

/// The modules of a runtime.
#[derive(Clone, Debug, PartialEq, Eq)]
pub struct Metadata {
    pub modules: Vec<ModuleMetadata>,
}

/// `found`, an index into a sequence without its first item, as an index
/// into the whole sequence.
pub open spec fn shifted(found: Option<int>, by: int) -> Option<int> {
    match found {
        Some(i) => Some(i + by),
        None => None,
    }
}

/// The place of the first of `names` that is `name`.
pub open spec fn first_named(names: Seq<Seq<char>>, name: Seq<char>) -> Option<int>
    decreases names.len(),
{
    if names.len() == 0 {
        None
    } else if names[0] == name {
        Some(0)
    } else {
        shifted(first_named(names.drop_first(), name), 1)
    }
}

/// The names in a list of calls or events.
pub open spec fn string_names(items: Seq<String>) -> Seq<Seq<char>> {
    Seq::new(items.len(), |i: int| items[i]@)
}

/// The names of the modules, in order.
pub open spec fn module_names(modules: Seq<ModuleMetadata>) -> Seq<Seq<char>> {
    Seq::new(modules.len(), |i: int| modules[i].name@)
}

/// The names of the storage items of a module, in order.
pub open spec fn storage_names(items: Seq<StorageMetadata>) -> Seq<Seq<char>> {
    Seq::new(items.len(), |i: int| items[i].name@)
}

/// The index pair of the item `item` in the list `items` of `module`, where
/// the list names the item at a place that one byte can hold.
pub open spec fn item_address(module_index: u8, items: Seq<Seq<char>>, item: Seq<char>) -> Option<
    Address,
> {
    match first_named(items, item) {
        Some(i) => if i <= u8::MAX {
            Some(Address { module_index, item_index: i as u8 })
        } else {
            None
        },
        None => None,
    }
}

/// The index pair of the call `function` of `module`.
pub open spec fn spec_call_address(
    modules: Seq<ModuleMetadata>,
    module: Seq<char>,
    function: Seq<char>,
) -> Option<Address> {
    match first_named(module_names(modules), module) {
        Some(m) => item_address(modules[m].index, string_names(modules[m].calls@), function),
        None => None,
    }
}

/// The index pair of the event `event` of `module`.
pub open spec fn spec_event_address(
    modules: Seq<ModuleMetadata>,
    module: Seq<char>,
    event: Seq<char>,
) -> Option<Address> {
    match first_named(module_names(modules), module) {
        Some(m) => item_address(modules[m].index, string_names(modules[m].events@), event),
        None => None,
    }
}

/// The kind of the storage item `item` of `module`.
pub open spec fn spec_storage_entry(
    modules: Seq<ModuleMetadata>,
    module: Seq<char>,
    item: Seq<char>,
) -> Option<StorageEntry> {
    match first_named(module_names(modules), module) {
        Some(m) => match first_named(storage_names(modules[m].storage@), item) {
            Some(i) => Some(modules[m].storage@[i].entry),
            None => None,
        },
        None => None,
    }
}

/// The first place of `name` is a place of `name`, and no earlier place is.
pub proof fn lemma_first_named(names: Seq<Seq<char>>, name: Seq<char>)
    ensures
        match first_named(names, name) {
            Some(i) => 0 <= i < names.len() && names[i] == name && forall|j: int|
                0 <= j < i ==> #[trigger] names[j] != name,
            None => forall|j: int| 0 <= j < names.len() ==> #[trigger] names[j] != name,
        },
    decreases names.len(),
{
    if names.len() > 0 && names[0] != name {
        let tail = names.drop_first();
        lemma_first_named(tail, name);
        match first_named(tail, name) {
            Some(i) => {
                assert forall|j: int| 0 <= j < i + 1 implies #[trigger] names[j] != name by {
                    if j > 0 {
                        assert(tail[j - 1] == names[j]);
                    }
                }
            },
            None => {
                assert forall|j: int| 0 <= j < names.len() implies #[trigger] names[j]
                    != name by {
                    if j > 0 {
                        assert(tail[j - 1] == names[j]);
                    }
                }
            },
        }
    }
}

/// The place of the first of `names` that is `name`.
pub fn find_name(names: &[String], name: &str) -> (r: Option<usize>)
    ensures
        match r {
            Some(i) => first_named(string_names(names@), name@) == Some(i as int),
            None => first_named(string_names(names@), name@) is None,
        },
{
    let wanted = name.to_owned();
    let ghost all = string_names(names@);
    let mut i: usize = 0;
    assert(all.skip(0) =~= all);
    while i < names.len()
        invariant
            i <= names@.len(),
            wanted@ == name@,
            all == string_names(names@),
            first_named(all, name@) == shifted(first_named(all.skip(i as int), name@), i as int),
        decreases names@.len() - i,
    {
        if names[i].eq(&wanted) {
            return Some(i);
        }
        assert(all.skip(i as int).drop_first() =~= all.skip(i + 1));
        i += 1;
    }
    None
}

impl Metadata {
    /// The place of the first module named `name`.
    pub fn find_module(&self, name: &str) -> (r: Option<usize>)
        ensures
            match r {
                Some(i) => first_named(module_names(self.modules@), name@) == Some(i as int),
                None => first_named(module_names(self.modules@), name@) is None,
            },
    {
        let wanted = name.to_owned();
        let ghost all = module_names(self.modules@);
        let mut i: usize = 0;
        assert(all.skip(0) =~= all);
        while i < self.modules.len()
            invariant
                i <= self.modules@.len(),
                wanted@ == name@,
                all == module_names(self.modules@),
                first_named(all, name@) == shifted(
                    first_named(all.skip(i as int), name@),
                    i as int,
                ),
            decreases self.modules@.len() - i,
        {
            if self.modules[i].name.eq(&wanted) {
                return Some(i);
            }
            assert(all.skip(i as int).drop_first() =~= all.skip(i + 1));
            i += 1;
        }
        None
    }

    /// The index pair of the call `function` of `module`. `None` where the
    /// runtime has no such module, or the module no such call, or the call
    /// stands too far down the list for one byte to hold its place.
    pub fn call_address(&self, module: &str, function: &str) -> (r: Option<Address>)
        ensures
            r == spec_call_address(self.modules@, module@, function@),
    {
        proof {
            lemma_first_named(module_names(self.modules@), module@);
        }
        match self.find_module(module) {
            None => None,
            Some(m) => item_address_of(
                self.modules[m].index,
                self.modules[m].calls.as_slice(),
                function,
            ),
        }
    }

    /// The index pair of the event `event` of `module`. `None` where the
    /// runtime has no such module, or the module no such event, or the event
    /// stands too far down the list for one byte to hold its place.
    pub fn event_address(&self, module: &str, event: &str) -> (r: Option<Address>)
        ensures
            r == spec_event_address(self.modules@, module@, event@),
    {
        proof {
            lemma_first_named(module_names(self.modules@), module@);
        }
        match self.find_module(module) {
            None => None,
            Some(m) => item_address_of(
                self.modules[m].index,
                self.modules[m].events.as_slice(),
                event,
            ),
        }
    }

    /// The kind of the storage item `item` of `module`. `None` where the
    /// runtime has no such module, or the module no such item.
    pub fn storage_entry(&self, module: &str, item: &str) -> (r: Option<StorageEntry>)
        ensures
            r == spec_storage_entry(self.modules@, module@, item@),
    {
        proof {
            lemma_first_named(module_names(self.modules@), module@);
        }
        let m = match self.find_module(module) {
            None => {
                return None;
            },
            Some(m) => m,
        };
        let items = &self.modules[m].storage;
        let wanted = item.to_owned();
        let ghost all = storage_names(items@);
        let mut i: usize = 0;
        assert(all.skip(0) =~= all);
        while i < items.len()
            invariant
                i <= items@.len(),
                wanted@ == item@,
                m < self.modules@.len(),
                first_named(module_names(self.modules@), module@) == Some(m as int),
                items@ == self.modules@[m as int].storage@,
                all == storage_names(items@),
                first_named(all, item@) == shifted(
                    first_named(all.skip(i as int), item@),
                    i as int,
                ),
            decreases items@.len() - i,
        {
            if items[i].name.eq(&wanted) {
                return Some(items[i].entry);
            }
            assert(all.skip(i as int).drop_first() =~= all.skip(i + 1));
            i += 1;
        }
        None
    }

    /// The index pair of the call that the schema `C` describes.
    pub fn address_of_call<C: Call>(&self) -> (r: Option<Address>)
        ensures
            r == spec_call_address(self.modules@, C::MODULE@, C::FUNCTION@),
    {
        self.call_address(C::MODULE, C::FUNCTION)
    }

    /// The index pair of the event that the schema `E` describes.
    pub fn address_of_event<E: Event>(&self) -> (r: Option<Address>)
        ensures
            r == spec_event_address(self.modules@, E::MODULE@, E::EVENT@),
    {
        self.event_address(E::MODULE, E::EVENT)
    }

    /// The kind of the storage item that the schema `S` describes.
    pub fn entry_of<S: Store>(&self) -> (r: Option<StorageEntry>)
        ensures
            r == spec_storage_entry(self.modules@, S::MODULE@, S::FIELD@),
    {
        self.storage_entry(S::MODULE, S::FIELD)
    }
}

/// The index pair of the item `item` in the list `items` of the module with
/// the index `module_index`.
pub fn item_address_of(module_index: u8, items: &[String], item: &str) -> (r: Option<Address>)
    ensures
        r == item_address(module_index, string_names(items@), item@),
{
    match find_name(items, item) {
        Some(i) => if i <= 255 {
            Some(Address { module_index, item_index: i as u8 })
        } else {
            None
        },
        None => None,
    }
}

} // verus!
