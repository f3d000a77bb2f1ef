//! Names of the persisted tables and of the per-app message partitions.
//!
//! Messages are partitioned by app: each app's slot names a directory of its
//! own, `support_message_p<slot>`.

use vstd::prelude::*;
use crate::text::{decimal, decimal_chars, lemma_decimal_injective, string_of};

verus! {

/// The on-disk name of the message partition of `slot`.
pub open spec fn partition_name(slot: nat) -> Seq<char> {
    "support_message"@ + "_p"@ + decimal(slot)
}

/// The on-disk name of one app's message partition.
pub fn partition_table_name(slot: u32) -> (r: String)
    ensures
        r@ == partition_name(slot as nat),
{
    let mut name = "support_message".to_owned();
    name.append("_p");
    let digits = decimal_chars(slot);
    let d = string_of(digits.as_slice());
    name.append(d.as_str());
    name
}

/// Two slots never share a partition directory: distinct slots have
/// distinct partition names.
pub proof fn lemma_partition_names_distinct(a: u32, b: u32)
    requires
        a != b,
    ensures
        partition_name(a as nat) != partition_name(b as nat),
{
    let p = "support_message"@ + "_p"@;
    if partition_name(a as nat) == partition_name(b as nat) {
        assert((p + decimal(a as nat)).skip(p.len() as int) =~= decimal(a as nat));
        assert((p + decimal(b as nat)).skip(p.len() as int) =~= decimal(b as nat));
        lemma_decimal_injective(a as nat, b as nat);
    }
}

} // verus!
