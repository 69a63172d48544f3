//! Addresses of network interfaces.

use vstd::prelude::*;

verus! {

/// What is shown for an interface without an address.
pub const NOT_FOUND: &'static str = "Not found";

/// The address of the first of `interfaces`, pairs of name and address,
/// whose name is `interface`.
pub open spec fn address_of(interfaces: Seq<(Seq<char>, Seq<char>)>, interface: Seq<char>) -> Seq<
    char,
>
    decreases interfaces.len(),
{
    if interfaces.len() == 0 {
        NOT_FOUND@
    } else if interfaces.first().0 == interface {
        interfaces.first().1
    } else {
        address_of(interfaces.drop_first(), interface)
    }
}

/// The names and addresses of `interfaces`.
pub open spec fn pairs(interfaces: Seq<(String, String)>) -> Seq<(Seq<char>, Seq<char>)> {
    Seq::new(interfaces.len(), |i: int| (interfaces[i].0@, interfaces[i].1@))
}

/// The address of `interface` among `interfaces`, the machine's interfaces
/// by name and address in the order in which the system lists them.
pub fn get_if_ip_address(interface: &str, interfaces: &Vec<(String, String)>) -> (address: String)
    ensures
        address@ == address_of(pairs(interfaces@), interface@),
{
    let ghost all = pairs(interfaces@);
    let mut i: usize = 0;
    assert(all.skip(0) =~= all);
    while i < interfaces.len()
        invariant
            i <= interfaces.len(),
            all == pairs(interfaces@),
            address_of(all.skip(i as int), interface@) == address_of(all, interface@),
        decreases interfaces.len() - i,
    {
        assert(all.skip(i as int).first() == all[i as int]);
        assert(all.skip(i as int).drop_first() =~= all.skip(i + 1));
        if crate::text::same(interfaces[i].0.as_str(), interface) {
            return interfaces[i].1.clone();
        }
        i += 1;
    }
    String::from_str(NOT_FOUND)
}

} // verus!
