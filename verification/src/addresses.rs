//! Which of a guest's reported addresses a scraper can reach.
//!
//! Classification has two stages. The first keeps the interfaces whose
//! name marks a physical-looking adapter. The second keeps, of the
//! addresses bound to those interfaces, the IPv6 addresses that are not
//! private.
use crate::models::views;
use crate::models::IpAddress;
use crate::models::IpAddressView;
use crate::models::NetworkInterface;
use crate::models::NetworkInterfaceView;
use crate::text::contains;
use crate::text::has_prefix;
use crate::text::has_substring;
use crate::text::same_text;
use crate::utils::is_private;
use crate::utils::is_public_ipv6;
use vstd::prelude::*;

verus! {

/// An adapter is eligible when its name holds `eth` or `ens` anywhere.
pub open spec fn physical(name: Seq<char>) -> bool {
    has_substring(name, "eth"@) || has_substring(name, "ens"@)
}

/// An address is usable when its family tag is exactly `"ipv6"` and its
/// literal is not private.
pub open spec fn usable(address: IpAddressView) -> bool {
    address.ip_address_type == "ipv6"@ && !is_private(address.ip_address)
}

/// The literals of the usable addresses in a list, in their order.
pub open spec fn usable_literals(addresses: Seq<IpAddressView>) -> Seq<Seq<char>> {
    addresses.filter(|address: IpAddressView| usable(address)).map_values(
        |address: IpAddressView| address.ip_address,
    )
}

/// The eligible addresses of a batch of interfaces: the usable literals
/// of every interface on an eligible adapter, interface after interface.
pub open spec fn eligible(interfaces: Seq<NetworkInterfaceView>) -> Seq<Seq<char>> {
    interfaces.filter(|interface: NetworkInterfaceView| physical(interface.name)).flat_map(
        |interface: NetworkInterfaceView| usable_literals(interface.ip_addresses),
    )
}

/// A name of fewer than three characters, such as `lo`, is too short to
/// hold either marker and is never eligible.
pub proof fn lemma_short_name_not_physical(name: Seq<char>)
    requires
        name.len() < 3,
    ensures
        !physical(name),
{
    reveal_strlit("eth");
    reveal_strlit("ens");
}

/// An address of another family than IPv6 is never usable, and neither
/// is one whose literal begins with a private prefix.
pub proof fn lemma_usable_rule(address: IpAddressView)
    ensures
        usable(address) <==> (address.ip_address_type == "ipv6"@ && !has_prefix(
            address.ip_address,
            "fc"@,
        ) && !has_prefix(address.ip_address, "fd"@) && !has_prefix(address.ip_address, "fe80"@)
            && !has_prefix(address.ip_address, "::1"@)),
{
}

/// One more address adds its literal when it is usable and nothing
/// otherwise.
pub proof fn lemma_usable_literals_push(seen: Seq<IpAddressView>, address: IpAddressView)
    ensures
        usable_literals(seen.push(address)) == if usable(address) {
            usable_literals(seen).push(address.ip_address)
        } else {
            usable_literals(seen)
        },
{
    let keep = |address: IpAddressView| usable(address);
    let literal = |address: IpAddressView| address.ip_address;
    seen.lemma_filter_push(address, keep);
    seen.filter(keep).lemma_push_map_commute(literal, address);
}

/// One more interface adds its usable literals when its adapter is
/// eligible and nothing otherwise.
pub proof fn lemma_eligible_push(seen: Seq<NetworkInterfaceView>, interface: NetworkInterfaceView)
    ensures
        eligible(seen.push(interface)) == if physical(interface.name) {
            eligible(seen) + usable_literals(interface.ip_addresses)
        } else {
            eligible(seen)
        },
{
    let keep = |interface: NetworkInterfaceView| physical(interface.name);
    let literals = |interface: NetworkInterfaceView| usable_literals(interface.ip_addresses);
    seen.lemma_filter_push(interface, keep);
    seen.filter(keep).lemma_flat_map_push(literals, interface);
}

/// No interface gives no address.
pub proof fn lemma_eligible_empty()
    ensures
        eligible(Seq::<NetworkInterfaceView>::empty()) == Seq::<Seq<char>>::empty(),
        usable_literals(Seq::<IpAddressView>::empty()) == Seq::<Seq<char>>::empty(),
{
    reveal(Seq::filter);
    let none = Seq::<NetworkInterfaceView>::empty();
    let keep = |interface: NetworkInterfaceView| physical(interface.name);
    let literals = |interface: NetworkInterfaceView| usable_literals(interface.ip_addresses);
    assert(none.filter(keep).map_values(literals) =~= Seq::<Seq<Seq<char>>>::empty());
    assert(usable_literals(Seq::<IpAddressView>::empty()) =~= Seq::<Seq<char>>::empty());
}

/// Every eligible address is the literal of a usable address on an
/// eligible adapter of the batch.
pub proof fn lemma_eligible_sound(interfaces: Seq<NetworkInterfaceView>, literal: Seq<char>)
    requires
        eligible(interfaces).contains(literal),
    ensures
        exists|i: int, j: int|
            0 <= i < interfaces.len() && 0 <= j < interfaces[i].ip_addresses.len() && physical(
                interfaces[i].name,
            ) && usable(interfaces[i].ip_addresses[j])
                && #[trigger] interfaces[i].ip_addresses[j].ip_address == literal,
    decreases interfaces.len(),
{
    if interfaces.len() == 0 {
        lemma_eligible_empty();
    } else {
        let seen = interfaces.drop_last();
        let last = interfaces.last();
        assert(seen.push(last) =~= interfaces);
        lemma_eligible_push(seen, last);
        if eligible(seen).contains(literal) {
            lemma_eligible_sound(seen, literal);
            let (i, j) = choose|i: int, j: int|
                0 <= i < seen.len() && 0 <= j < seen[i].ip_addresses.len() && physical(seen[i].name)
                    && usable(seen[i].ip_addresses[j])
                    && #[trigger] seen[i].ip_addresses[j].ip_address == literal;
            assert(interfaces[i] == seen[i]);
            assert(interfaces[i].ip_addresses[j].ip_address == literal);
        } else {
            let found = usable_literals(last.ip_addresses);
            assert(physical(last.name) && found.contains(literal));
            let keep = |address: IpAddressView| usable(address);
            let kept = last.ip_addresses.filter(keep);
            let k = choose|k: int| 0 <= k < found.len() && found[k] == literal;
            last.ip_addresses.lemma_filter_pred(keep, k);
            assert(kept.contains(kept[k]));
            last.ip_addresses.lemma_filter_contains_rev(keep, kept[k]);
            let j = choose|j: int|
                0 <= j < last.ip_addresses.len() && last.ip_addresses[j] == kept[k];
            let i = interfaces.len() - 1;
            assert(interfaces[i].ip_addresses[j].ip_address == literal);
        }
    }
}

/// The literal of every usable address on an eligible adapter of the
/// batch is an eligible address.
pub proof fn lemma_eligible_complete(interfaces: Seq<NetworkInterfaceView>, i: int, j: int)
    requires
        0 <= i < interfaces.len(),
        0 <= j < interfaces[i].ip_addresses.len(),
        physical(interfaces[i].name),
        usable(interfaces[i].ip_addresses[j]),
    ensures
        eligible(interfaces).contains(interfaces[i].ip_addresses[j].ip_address),
    decreases interfaces.len(),
{
    let seen = interfaces.drop_last();
    let last = interfaces.last();
    let literal = interfaces[i].ip_addresses[j].ip_address;
    assert(seen.push(last) =~= interfaces);
    lemma_eligible_push(seen, last);
    if i < interfaces.len() - 1 {
        lemma_eligible_complete(seen, i, j);
        let k = choose|k: int| 0 <= k < eligible(seen).len() && eligible(seen)[k] == literal;
        assert(eligible(interfaces)[k] == literal);
    } else {
        let keep = |address: IpAddressView| usable(address);
        let kept = last.ip_addresses.filter(keep);
        let found = usable_literals(last.ip_addresses);
        last.ip_addresses.lemma_filter_contains(keep, j);
        let k = choose|k: int| 0 <= k < kept.len() && kept[k] == last.ip_addresses[j];
        assert(found[k] == literal);
        assert(eligible(interfaces)[eligible(seen).len() + k] == literal);
    }
}

/// Whether an adapter name marks an eligible adapter.
pub fn is_physical_adapter(name: &str) -> (keep: bool)
    ensures
        keep == physical(name@),
{
    contains(name, "eth") || contains(name, "ens")
}

/// Whether an address is usable as a scrape target.
pub fn is_usable_address(address: &IpAddress) -> (keep: bool)
    ensures
        keep == usable(address@),
{
    same_text(address.ip_address_type.as_str(), "ipv6") && is_public_ipv6(
        address.ip_address.as_str(),
    )
}

/// The literals of the usable addresses bound to one interface, in the
/// order the guest reports them.
pub fn usable_addresses(interface: &NetworkInterface) -> (found: Vec<String>)
    ensures
        views(found@) == usable_literals(interface@.ip_addresses),
{
    let ghost all = interface@.ip_addresses;
    let mut found: Vec<String> = Vec::new();
    let mut i: usize = 0;
    proof {
        lemma_eligible_empty();
        assert(all.take(0) =~= Seq::<IpAddressView>::empty());
        assert(views(found@) =~= Seq::<Seq<char>>::empty());
    }
    while i < interface.ip_addresses.len()
        invariant
            i <= interface.ip_addresses.len(),
            all == interface@.ip_addresses,
            all.len() == interface.ip_addresses.len(),
            views(found@) == usable_literals(all.take(i as int)),
        decreases interface.ip_addresses.len() - i,
    {
        let address = &interface.ip_addresses[i];
        proof {
            assert(all[i as int] == address@);
            all.lemma_take_succ_push(i as int);
            lemma_usable_literals_push(all.take(i as int), address@);
        }
        if is_usable_address(address) {
            let literal = address.ip_address.clone();
            proof {
                assert(views(found@.push(literal)) =~= views(found@).push(literal@));
            }
            found.push(literal);
        }
        i += 1;
    }
    proof {
        all.lemma_take_len();
    }
    found
}

/// The eligible addresses of a batch of interfaces.
pub fn eligible_addresses(interfaces: &Vec<NetworkInterface>) -> (found: Vec<String>)
    ensures
        views(found@) == eligible(views(interfaces@)),
{
    let ghost all = views(interfaces@);
    let mut found: Vec<String> = Vec::new();
    let mut i: usize = 0;
    proof {
        lemma_eligible_empty();
        assert(all.take(0) =~= Seq::<NetworkInterfaceView>::empty());
        assert(views(found@) =~= Seq::<Seq<char>>::empty());
    }
    while i < interfaces.len()
        invariant
            i <= interfaces.len(),
            all == views(interfaces@),
            all.len() == interfaces.len(),
            views(found@) == eligible(all.take(i as int)),
        decreases interfaces.len() - i,
    {
        let interface = &interfaces[i];
        proof {
            assert(all[i as int] == interface@);
            all.lemma_take_succ_push(i as int);
            lemma_eligible_push(all.take(i as int), interface@);
        }
        if is_physical_adapter(interface.name.as_str()) {
            let mut more = usable_addresses(interface);
            proof {
                assert(views(found@ + more@) =~= views(found@) + views(more@));
            }
            found.append(&mut more);
        }
        i += 1;
    }
    proof {
        all.lemma_take_len();
    }
    found
}

} // verus!
