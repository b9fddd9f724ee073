//! The concurrent maps that hold the cache's tables, and the calls made on them.
use std::sync::Arc;

use dashmap::DashMap;
use vstd::prelude::*;

use crate::schema::Schema;

verus! {

#[verifier::external_type_specification]
#[verifier::external_body]
#[verifier::reject_recursive_types(K)]
#[verifier::reject_recursive_types(V)]
#[verifier::reject_recursive_types(S)]
pub struct ExDashMap<K, V, S>(DashMap<K, V, S>);

/// The entries of the table from schema id to parsed schema.
pub uninterp spec fn schemas_by_id(m: DashMap<u32, Arc<Schema>>) -> Map<u32, Arc<Schema>>;

/// The entries of the table from subject to the id of its latest schema.
pub uninterp spec fn latest_ids(m: DashMap<String, u32>) -> Map<Seq<char>, u32>;

/// The entries of the table from subject and version to schema id.
pub uninterp spec fn version_ids(m: DashMap<(String, u32), u32>) -> Map<(Seq<char>, u32), u32>;

/// Relies on dashmap::DashMap::new: the map starts with no entries.
#[verifier::external_body]
pub(crate) fn new_schema_table() -> (r: DashMap<u32, Arc<Schema>>)
    ensures
        schemas_by_id(r).dom().is_empty(),
{
    DashMap::new()
}

/// Relies on dashmap::DashMap::new: the map starts with no entries.
#[verifier::external_body]
pub(crate) fn new_latest_table() -> (r: DashMap<String, u32>)
    ensures
        latest_ids(r).dom().is_empty(),
{
    DashMap::new()
}

/// Relies on dashmap::DashMap::new: the map starts with no entries.
#[verifier::external_body]
pub(crate) fn new_version_table() -> (r: DashMap<(String, u32), u32>)
    ensures
        version_ids(r).dom().is_empty(),
{
    DashMap::new()
}

/// Relies on dashmap::DashMap::get: the value stored under the id, if any, handed out as
/// a new handle on the same schema.
#[verifier::external_body]
pub(crate) fn schema_table_get(m: &DashMap<u32, Arc<Schema>>, id: u32) -> (r: Option<Arc<Schema>>)
    ensures
        r is Some <==> schemas_by_id(*m).contains_key(id),
        r matches Some(s) ==> s == schemas_by_id(*m)[id],
{
    m.get(&id).map(|e| Arc::clone(e.value()))
}

/// Relies on dashmap::DashMap::get: the id stored under the subject, if any.
#[verifier::external_body]
pub(crate) fn latest_table_get(m: &DashMap<String, u32>, subject: &str) -> (r: Option<u32>)
    ensures
        r is Some <==> latest_ids(*m).contains_key(subject@),
        r matches Some(id) ==> id == latest_ids(*m)[subject@],
{
    m.get(subject).map(|e| *e.value())
}

/// Relies on dashmap::DashMap::get: the id stored under the subject and version, if any.
#[verifier::external_body]
pub(crate) fn version_table_get(m: &DashMap<(String, u32), u32>, subject: &str, version: u32) -> (r:
    Option<u32>)
    ensures
        r is Some <==> version_ids(*m).contains_key((subject@, version)),
        r matches Some(id) ==> id == version_ids(*m)[(subject@, version)],
{
    m.get(&(subject.to_string(), version)).map(|e| *e.value())
}

/// Relies on dashmap::DashMap::insert: the id maps to the schema afterwards, and every
/// other entry is kept.
#[verifier::external_body]
pub(crate) fn schema_table_insert(m: &mut DashMap<u32, Arc<Schema>>, id: u32, s: Arc<Schema>)
    ensures
        schemas_by_id(*final(m)) == schemas_by_id(*old(m)).insert(id, s),
{
    m.insert(id, s);
}

/// Relies on dashmap::DashMap::insert: the subject maps to the id afterwards, and every
/// other entry is kept.
#[verifier::external_body]
pub(crate) fn latest_table_insert(m: &mut DashMap<String, u32>, subject: &str, id: u32)
    ensures
        latest_ids(*final(m)) == latest_ids(*old(m)).insert(subject@, id),
{
    m.insert(subject.to_string(), id);
}

/// Relies on dashmap::DashMap::insert: the subject and version map to the id afterwards,
/// and every other entry is kept.
#[verifier::external_body]
pub(crate) fn version_table_insert(
    m: &mut DashMap<(String, u32), u32>,
    subject: &str,
    version: u32,
    id: u32,
)
    ensures
        version_ids(*final(m)) == version_ids(*old(m)).insert((subject@, version), id),
{
    m.insert((subject.to_string(), version), id);
}

} // verus!
