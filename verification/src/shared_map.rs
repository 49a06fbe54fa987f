//! Declaration of the concurrent map type that backs the subscription
//! registry and the mirror-tracking table.
//!
//! `dashmap::DashMap` is a sharded concurrent hash map; Verus sees it as an
//! opaque type. What a given map holds is named per instantiation (see
//! `tracker` and `registry`), and every method the library relies on is
//! wrapped there with a contract over that name.

use vstd::prelude::*;

verus! {

#[verifier::external_type_specification]
#[verifier::external_body]
#[verifier::reject_recursive_types(K)]
#[verifier::reject_recursive_types(V)]
#[verifier::reject_recursive_types(S)]
pub struct ExDashMap<K, V, S>(dashmap::DashMap<K, V, S>);

} // verus!
