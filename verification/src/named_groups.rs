//! Named groups of addresses: the records of the registry and the pages in
//! which it hands them out.

use crate::addr::Addr;
use vstd::prelude::*;

verus! {

/// A group and the addresses in it.
#[derive(Debug, PartialEq, Eq)]
pub struct Group {
    pub name: String,
    pub addresses: Vec<String>,
}

#[derive(Debug, PartialEq, Eq)]
pub struct InstantiateMsg {
    pub groups: Option<Vec<Group>>,
}

#[derive(Debug, PartialEq, Eq)]
pub enum ExecuteMsg {
    /// Adds addresses to a group and removes others from it.
    Update {
        group: String,
        addresses_to_add: Option<Vec<String>>,
        addresses_to_remove: Option<Vec<String>>,
    },
    /// Removes a group with all that is in it.
    RemoveGroup { group: String },
    /// Hands the registry to another owner.
    UpdateOwner { owner: String },
}

#[allow(inconsistent_fields)]
#[derive(Debug, PartialEq, Eq)]
pub enum QueryMsg {
    /// All groups with their addresses.
    Dump {},
    /// The addresses in a group.
    ListAddresses { group: String, offset: Option<u32>, limit: Option<u32> },
    /// The groups that an address is in.
    ListGroups { address: String, offset: Option<u32>, limit: Option<u32> },
    /// Whether an address is in a group.
    IsAddressInGroup { address: String, group: String },
}

#[derive(Debug, PartialEq, Eq)]
pub struct DumpResponse {
    pub groups: Vec<Group>,
}

#[derive(Debug, PartialEq, Eq)]
pub struct ListGroupsResponse {
    pub groups: Vec<String>,
}

#[derive(Debug, PartialEq, Eq)]
pub struct ListAddressesResponse {
    pub addresses: Vec<Addr>,
}

#[derive(Clone, Copy, Debug, PartialEq, Eq, Structural)]
pub struct IsAddressInGroupResponse {
    pub is_in_group: bool,
}

/// The index at which a page begins: `offset` items are passed over, or
/// all of them where there are fewer.
pub open spec fn page_start(len: int, offset: Option<u32>) -> int {
    match offset {
        Some(o) => if o < len {
            o as int
        } else {
            len
        },
        None => 0,
    }
}

/// The index at which a page ends: `limit` items on from its start, or the
/// end of the list where that comes first or no limit is given.
pub open spec fn page_end(len: int, offset: Option<u32>, limit: Option<u32>) -> int {
    let start = page_start(len, offset);
    match limit {
        Some(l) => if l < len - start {
            start + l
        } else {
            len
        },
        None => len,
    }
}

/// The page of a list that `offset` and `limit` ask for.
pub open spec fn page<T>(items: Seq<T>, offset: Option<u32>, limit: Option<u32>) -> Seq<T> {
    items.subrange(
        page_start(items.len() as int, offset),
        page_end(items.len() as int, offset, limit),
    )
}

/// Cuts the page that `offset` and `limit` ask for out of a list.
pub fn paginate<T>(items: Vec<T>, offset: Option<u32>, limit: Option<u32>) -> (r: Vec<T>)
    ensures
        r@ == page(items@, offset, limit),
{
    let ghost all = items@;
    let mut items = items;
    let len = items.len();
    let start: usize = match offset {
        Some(o) => if (o as u64) < len as u64 {
            o as usize
        } else {
            len
        },
        None => 0,
    };
    let mut rest = items.split_off(start);
    match limit {
        Some(l) => {
            if (l as u64) < rest.len() as u64 {
                rest.truncate(l as usize);
            }
        },
        None => {},
    }
    assert(rest@ =~= page(all, offset, limit));
    rest
}

/// The page of the addresses of a group that `offset` and `limit` ask
/// for. `addresses` are all the addresses of the group, in the order in
/// which the registry keeps them.
pub fn list_addresses(addresses: Vec<Addr>, offset: Option<u32>, limit: Option<u32>) -> (r:
    ListAddressesResponse)
    ensures
        r.addresses@ == page(addresses@, offset, limit),
{
    ListAddressesResponse { addresses: paginate(addresses, offset, limit) }
}

/// The page of the groups of an address that `offset` and `limit` ask for.
/// `groups` are all the groups that the address is in.
pub fn list_groups(groups: Vec<String>, offset: Option<u32>, limit: Option<u32>) -> (r:
    ListGroupsResponse)
    ensures
        r.groups@ == page(groups@, offset, limit),
{
    ListGroupsResponse { groups: paginate(groups, offset, limit) }
}

pub struct GroupView {
    pub name: Seq<char>,
    pub addresses: Seq<Seq<char>>,
}

impl View for Group {
    type V = GroupView;

    open spec fn view(&self) -> GroupView {
        GroupView { name: self.name@, addresses: crate::model::views(self.addresses@) }
    }
}

/// One entry of the registry: a group and an address in it.
#[derive(Debug, PartialEq, Eq)]
pub struct Membership {
    pub group: String,
    pub address: Addr,
}

pub struct MembershipView {
    pub group: Seq<char>,
    pub address: Seq<char>,
}

impl View for Membership {
    type V = MembershipView;

    open spec fn view(&self) -> MembershipView {
        MembershipView { group: self.group@, address: self.address@ }
    }
}

/// The names of the groups that occur in the entries, each once, in the
/// order in which they first occur.
pub open spec fn names_of(entries: Seq<MembershipView>) -> Seq<Seq<char>>
    decreases entries.len(),
{
    if entries.len() == 0 {
        Seq::empty()
    } else {
        let before = names_of(entries.drop_last());
        if before.contains(entries.last().group) {
            before
        } else {
            before.push(entries.last().group)
        }
    }
}

/// The addresses that the entries put in the group `name`, in the order of
/// the entries.
pub open spec fn members_of(entries: Seq<MembershipView>, name: Seq<char>) -> Seq<Seq<char>>
    decreases entries.len(),
{
    if entries.len() == 0 {
        Seq::empty()
    } else {
        let before = members_of(entries.drop_last(), name);
        if entries.last().group == name {
            before.push(entries.last().address)
        } else {
            before
        }
    }
}

/// The groups that the entries make up: one for each name, with the
/// addresses that the entries put in it.
pub open spec fn grouped(entries: Seq<MembershipView>) -> Seq<GroupView> {
    Seq::new(
        names_of(entries).len(),
        |i: int|
            GroupView {
                name: names_of(entries)[i],
                addresses: members_of(entries, names_of(entries)[i]),
            },
    )
}

/// No name occurs twice among the names of the groups, and a group that
/// is not among them has no members.
pub proof fn lemma_names_of(entries: Seq<MembershipView>)
    ensures
        crate::hooks::distinct(names_of(entries)),
        forall|name: Seq<char>|
            !names_of(entries).contains(name) ==> #[trigger] members_of(entries, name)
                == Seq::<Seq<char>>::empty(),
        forall|i: int|
            0 <= i < entries.len() ==> names_of(entries).contains((#[trigger] entries[i]).group),
    decreases entries.len(),
{
    if entries.len() > 0 {
        let init = entries.drop_last();
        lemma_names_of(init);
        let before = names_of(init);
        let last = entries.last().group;
        let after = names_of(entries);
        if !before.contains(last) {
            assert(after[before.len() as int] == last);
            assert forall|i: int, j: int| 0 <= i < j < after.len() implies after[i] != after[j] by {
                if j == before.len() {
                    assert(before[i] == after[i]);
                    if after[i] == last {
                        assert(before.contains(last));
                    }
                } else {
                    assert(before[i] == after[i] && before[j] == after[j]);
                }
            }
        }
        if before.contains(last) {
            let k = choose|k: int| 0 <= k < before.len() && before[k] == last;
            assert(after[k] == last);
        } else {
            assert(after[before.len() as int] == last);
        }
        assert(after.contains(last));
        assert forall|name: Seq<char>| !after.contains(name) implies #[trigger] members_of(
            entries,
            name,
        ) == Seq::<Seq<char>>::empty() by {
            assert(name != last);
            if before.contains(name) {
                let k = choose|k: int| 0 <= k < before.len() && before[k] == name;
                assert(after[k] == name);
            }
            assert(!before.contains(name));
            assert(members_of(init, name) == Seq::<Seq<char>>::empty());
        }
        assert forall|i: int| 0 <= i < entries.len() implies after.contains(
            (#[trigger] entries[i]).group,
        ) by {
            if i < entries.len() - 1 {
                assert(init[i] == entries[i]);
                let k = choose|k: int| 0 <= k < before.len() && before[k] == init[i].group;
                assert(after[k] == entries[i].group);
            } else {
                if before.contains(last) {
                } else {
                    assert(after[before.len() as int] == last);
                }
            }
        }
    }
}

/// Makes groups of the entries of the registry: each group once, in the
/// order in which the groups first occur, with its addresses in the order
/// of the entries.
pub fn dump(entries: &Vec<Membership>) -> (r: DumpResponse)
    ensures
        crate::model::views(r.groups@) == grouped(crate::model::views(entries@)),
{
    let ghost all = crate::model::views(entries@);
    let mut groups: Vec<Group> = Vec::new();
    let mut i: usize = 0;
    assert(all.subrange(0, 0) =~= Seq::<MembershipView>::empty());
    assert(crate::model::views(groups@) =~= grouped(all.subrange(0, 0)));
    while i < entries.len()
        invariant
            i <= entries.len(),
            all == crate::model::views(entries@),
            crate::model::views(groups@) == grouped(all.subrange(0, i as int)),
        decreases entries.len() - i,
    {
        let ghost before = all.subrange(0, i as int);
        let ghost after = all.subrange(0, i as int + 1);
        let ghost held = crate::model::views(groups@);
        proof {
            assert(held == grouped(before));
            assert(held.len() == names_of(before).len());
            assert(forall|j: int| 0 <= j < held.len() ==> held[j] == grouped(before)[j]);
            assert(after.drop_last() =~= before);
            assert(after.last() == all[i as int]);
            lemma_names_of(before);
            lemma_names_of(after);
        }
        let entry = &entries[i];
        let mut k: usize = 0;
        while k < groups.len() && !(groups[k].name == entry.group)
            invariant
                k <= groups.len(),
                held == crate::model::views(groups@),
                forall|j: int| 0 <= j < k ==> held[j].name != entry.group@,
            decreases groups.len() - k,
        {
            k = k + 1;
        }
        if k < groups.len() {
            assert(held[k as int].name == entry.group@);
            assert(held[k as int] == grouped(before)[k as int]);
            assert(names_of(before)[k as int] == entry.group@);
            assert(names_of(before).contains(entry.group@));
            assert(names_of(after) == names_of(before));
            let group = &mut groups[k];
            group.addresses.push(entry.address.clone().into_string());
            proof {
                let now = crate::model::views(groups@);
                assert(now.len() == held.len());
                assert forall|j: int| 0 <= j < now.len() implies now[j] == grouped(after)[j] by {
                    if j == k {
                        assert(now[j].addresses =~= held[j].addresses.push(entry.address@));
                    } else {
                        assert(now[j] == held[j]);
                        assert(names_of(before)[j] != names_of(before)[k as int]);
                    }
                }
                assert(now =~= grouped(after));
            }
        } else {
            proof {
                if names_of(before).contains(entry.group@) {
                    let j = choose|j: int|
                        0 <= j < names_of(before).len() && names_of(before)[j] == entry.group@;
                    assert(held[j].name == entry.group@);
                }
                assert(names_of(after) == names_of(before).push(entry.group@));
            }
            let mut addresses: Vec<String> = Vec::new();
            addresses.push(entry.address.clone().into_string());
            let group = Group { name: entry.group.clone(), addresses };
            proof {
                assert(group@.addresses =~= seq![entry.address@]);
                assert(members_of(before, entry.group@) == Seq::<Seq<char>>::empty());
                assert(Seq::<Seq<char>>::empty().push(entry.address@) =~= seq![entry.address@]);
                crate::model::lemma_views_push(groups@, group);
            }
            groups.push(group);
            proof {
                let now = crate::model::views(groups@);
                assert forall|j: int| 0 <= j < now.len() implies now[j] == grouped(after)[j] by {
                    if j < held.len() {
                        assert(now[j] == held[j]);
                        if names_of(before)[j] == entry.group@ {
                            assert(names_of(before).contains(entry.group@));
                        }
                    }
                }
                assert(now =~= grouped(after));
            }
        }
        i = i + 1;
    }
    assert(all.subrange(0, entries.len() as int) =~= all);
    DumpResponse { groups }
}

} // verus!
