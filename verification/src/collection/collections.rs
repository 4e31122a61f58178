use vstd::prelude::*;
use crate::collection::backend::memory::{InMemoryPerProcess, MemoryState};
use crate::collection::Collection;

verus! {

/// The collections that one transaction works with: the five that it shares
/// with every other transaction, each with the key that this transaction
/// addresses it by, and the one of its own.
pub struct Collections<C> where C: Collection {
    pub m_global_collection_key: String,
    pub m_ip_collection_key: String,
    pub m_session_collection_key: String,
    pub m_user_collection_key: String,
    pub m_resource_collection_key: String,
    pub m_global_collection: C,
    pub m_ip_collection: C,
    pub m_session_collection: C,
    pub m_user_collection: C,
    pub m_resource_collection: C,
    pub m_tx_collection: InMemoryPerProcess,
}

impl<C> Collections<C> where C: Collection {
    /// Binds the shared collections, with no key chosen yet, and makes the
    /// empty collection `TX` of the transaction.
    pub fn new(global: C, ip: C, session: C, user: C, resource: C) -> (c: Collections<C>)
        ensures
            c.m_global_collection_key@ == Seq::<char>::empty(),
            c.m_ip_collection_key@ == Seq::<char>::empty(),
            c.m_session_collection_key@ == Seq::<char>::empty(),
            c.m_user_collection_key@ == Seq::<char>::empty(),
            c.m_resource_collection_key@ == Seq::<char>::empty(),
            c.m_global_collection == global,
            c.m_ip_collection == ip,
            c.m_session_collection == session,
            c.m_user_collection == user,
            c.m_resource_collection == resource,
            c.m_tx_collection.inv(),
            c.m_tx_collection@ == (MemoryState {
                name: "TX"@,
                store: Seq::empty(),
                locked: false,
                dropped: 0,
            }),
    {
        Collections {
            m_global_collection_key: String::new(),
            m_ip_collection_key: String::new(),
            m_session_collection_key: String::new(),
            m_user_collection_key: String::new(),
            m_resource_collection_key: String::new(),
            m_global_collection: global,
            m_ip_collection: ip,
            m_session_collection: session,
            m_user_collection: user,
            m_resource_collection: resource,
            m_tx_collection: InMemoryPerProcess::new("TX"),
        }
    }
}

} // verus!
