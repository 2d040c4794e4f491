//! Derivation of physical resource names from logical names and the
//! resolved environment.

use vstd::prelude::*;

use crate::env::{spec_suffix, EnvName};

verus! {

/// The physical name a logical name maps to: unchanged in the unknown
/// environment, otherwise the logical name, a dash, and the environment's
/// suffix.
pub open spec fn spec_physical_name(logical: Seq<char>, tag: EnvName) -> Seq<char> {
    if tag == EnvName::Unknown {
        logical
    } else {
        logical + "-"@ + spec_suffix(tag)
    }
}

/// Computes the physical name actually sent to the cloud API. Pure and
/// total: for every `tag` other than `Unknown` the result is
/// `logical + "-" + suffix(tag)`, and for `Unknown` it is `logical` itself.
pub fn physical_name(logical: &str, tag: EnvName) -> (r: String)
    ensures
        r@ == spec_physical_name(logical@, tag),
        tag == EnvName::Unknown ==> r@ == logical@,
        tag != EnvName::Unknown ==> r@ == logical@ + "-"@ + spec_suffix(tag),
{
    if tag.is_unknown() {
        logical.to_owned()
    } else {
        let mut s = logical.to_owned();
        s.append("-");
        s.append(tag.as_suffix());
        proof {
            assert(s@ =~= logical@ + "-"@ + spec_suffix(tag));
        }
        s
    }
}

} // verus!
