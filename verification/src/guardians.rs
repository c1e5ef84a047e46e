//! The guardian list.
use crate::address::Address;
use crate::sdk;
use vstd::prelude::*;

verus! {

/// The guardians of an account, in the order in which they were registered.
///
/// They are kept in an SDK vector. A list may name an address more than once:
/// only `MuxRecovery::add_guardian` keeps out what is there already.
pub struct Guardians {
    list: soroban_sdk::Vec<(u32, u128, u128)>,
}

impl View for Guardians {
    type V = Seq<Address>;

    closed spec fn view(&self) -> Seq<Address> {
        addresses(sdk::items(self.list))
    }
}

/// The addresses that the values of a list stand for.
spec fn addresses(items: Seq<Option<(u32, u128, u128)>>) -> Seq<Address> {
    Seq::new(items.len(), |i: int| Address::of_item(items[i]->Some_0))
}

/// Whether every value of a list is an item.
spec fn all_items(items: Seq<Option<(u32, u128, u128)>>) -> bool {
    forall|i: int| 0 <= i < items.len() ==> (#[trigger] items[i]) is Some
}

/// `list` without any occurrence of `gone`, the others in their order.
pub open spec fn without(list: Seq<Address>, gone: Address) -> Seq<Address> {
    list.filter(|a: Address| a != gone)
}

impl Guardians {
    #[verifier::type_invariant]
    spec fn well_formed(self) -> bool {
        all_items(sdk::items(self.list))
    }

    /// No guardians, in a list that the host of `env` keeps.
    pub fn new(env: &soroban_sdk::Env) -> (guardians: Guardians)
        ensures
            guardians@ == Seq::<Address>::empty(),
    {
        let guardians = Guardians { list: sdk::list_new(env) };
        guardians
    }

    /// The number of entries of the list.
    pub fn len(&self) -> (n: u32)
        ensures
            n == self@.len(),
    {
        sdk::list_len(&self.list)
    }

    /// The guardian at a position of the list.
    pub fn get(&self, i: u32) -> (guardian: Option<Address>)
        ensures
            guardian == (if i < self@.len() {
                Some(self@[i as int])
            } else {
                None
            }),
    {
        proof {
            use_type_invariant(self);
        }
        match sdk::list_get(&self.list, i) {
            Some((kind, high, low)) => Some(Address { kind, high, low }),
            None => None,
        }
    }

    /// Whether `address` is a guardian.
    pub fn contains(&self, address: &Address) -> (found: bool)
        ensures
            found == self@.contains(*address),
    {
        proof {
            use_type_invariant(self);
            lemma_same_members(sdk::items(self.list), *address);
        }
        sdk::list_contains(&self.list, address.item())
    }

    /// Appends `address`.
    pub fn push_back(&mut self, address: Address)
        requires
            old(self)@.len() < u32::MAX,
        ensures
            final(self)@ == old(self)@.push(address),
    {
        proof {
            use_type_invariant(&*self);
        }
        let mut list = sdk::list_clone(&self.list);
        sdk::list_push_back(&mut list, address.item());
        self.list = list;
    }

    /// The guardians other than `address`, in their order.
    pub fn without(&self, address: &Address) -> (rest: Guardians)
        ensures
            rest@ == without(self@, *address),
    {
        proof {
            use_type_invariant(self);
        }
        let mut list = sdk::list_clone(&self.list);
        loop
            invariant
                all_items(sdk::items(list)),
                without(addresses(sdk::items(list)), *address) == without(self@, *address),
            decreases sdk::items(list).len(),
        {
            let ghost before = sdk::items(list);
            match sdk::list_first_index_of(&list, address.item()) {
                Some(i) => {
                    sdk::list_remove(&mut list, i);
                    proof {
                        assert(addresses(sdk::items(list)) =~= addresses(before).remove(i as int));
                        lemma_without_remove(addresses(before), i as int);
                    }
                },
                None => {
                    proof {
                        lemma_same_members(sdk::items(list), *address);
                        lemma_without_stranger(addresses(sdk::items(list)), *address);
                    }
                    return Guardians { list };
                },
            }
        }
    }
}

impl Clone for Guardians {
    fn clone(&self) -> (copy: Self)
        ensures
            copy@ == self@,
    {
        proof {
            use_type_invariant(self);
        }
        Guardians { list: sdk::list_clone(&self.list) }
    }
}

/// An address is among those that the items stand for exactly when its own
/// item is among the items.
proof fn lemma_same_members(items: Seq<Option<(u32, u128, u128)>>, address: Address)
    requires
        all_items(items),
    ensures
        addresses(items).contains(address) == items.contains(Some(address.item_spec())),
{
    if items.contains(Some(address.item_spec())) {
        let i = choose|i: int| 0 <= i < items.len() && items[i] == Some(address.item_spec());
        assert(addresses(items)[i] == address);
    }
    if addresses(items).contains(address) {
        let i = choose|i: int| 0 <= i < addresses(items).len() && addresses(items)[i] == address;
        assert(items[i] == Some(address.item_spec()));
    }
}

/// Taking out one occurrence of an address does not change what is left when
/// all of them are taken out.
proof fn lemma_without_remove(list: Seq<Address>, i: int)
    requires
        0 <= i < list.len(),
    ensures
        without(list.remove(i), list[i]) == without(list, list[i]),
{
    let keep = |a: Address| a != list[i];
    let head = list.take(i);
    let tail = list.skip(i + 1);
    let one = seq![list[i]];
    assert(list =~= head + (one + tail));
    assert(list.remove(i) =~= head + tail);
    Seq::filter_distributes_over_add(head, one + tail, keep);
    Seq::filter_distributes_over_add(one, tail, keep);
    Seq::filter_distributes_over_add(head, tail, keep);
    assert(one.filter(keep) =~= Seq::<Address>::empty()) by {
        reveal_with_fuel(Seq::filter, 2);
    }
}

/// Taking out an address that is not there changes nothing.
pub proof fn lemma_without_stranger(list: Seq<Address>, gone: Address)
    requires
        !list.contains(gone),
    ensures
        without(list, gone) == list,
    decreases list.len(),
{
    reveal(Seq::filter);
    if list.len() > 0 {
        lemma_without_stranger(list.drop_last(), gone);
    }
}

/// What is left when an address is taken out: everybody else who was there.
pub proof fn lemma_without_members(list: Seq<Address>, gone: Address, a: Address)
    ensures
        without(list, gone).contains(a) <==> list.contains(a) && a != gone,
    decreases list.len(),
{
    reveal(Seq::filter);
    if list.len() > 0 {
        lemma_without_members(list.drop_last(), gone, a);
    }
}

/// The members of a list after an address was appended.
pub proof fn lemma_push_members(list: Seq<Address>, added: Address, a: Address)
    ensures
        list.push(added).contains(a) <==> list.contains(a) || a == added,
{
    let after = list.push(added);
    assert(after[list.len() as int] == added);
    if list.contains(a) {
        let i = choose|i: int| 0 <= i < list.len() && list[i] == a;
        assert(after[i] == a);
    }
}

/// Taking an address out keeps a list free of repetitions.
pub proof fn lemma_without_distinct(list: Seq<Address>, gone: Address)
    requires
        list.no_duplicates(),
    ensures
        without(list, gone).no_duplicates(),
    decreases list.len(),
{
    reveal(Seq::filter);
    if list.len() > 0 {
        let rest = list.drop_last();
        lemma_without_distinct(rest, gone);
        if list.last() != gone {
            lemma_without_members(rest, gone, list.last());
        }
    }
}

} // verus!
