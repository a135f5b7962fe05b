//! The address widget: the addresses of the machine on one line.

use vstd::prelude::*;
use crate::text::{join, joined, texts};

verus! {

/// The text of the widget: the addresses, parted by a comma and a blank.
pub fn addresses_label(addresses: &Vec<String>) -> (r: String)
    ensures
        r@ == "IP: "@ + joined(texts(addresses@), ", "@),
{
    let mut out = String::from_str("IP: ");
    let list = join(addresses, ", ");
    out.append(list.as_str());
    out
}

} // verus!
