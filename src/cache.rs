//! The grow-only schema cache: parsed schemas by id, and the ids of subjects by pinned
//! version and by "latest". Every subject entry points at an id that the id table holds.
use std::sync::Arc;

use dashmap::DashMap;
use vstd::prelude::*;

use crate::avro_bridge::avro_schema_parses;
use crate::error::{Error, Result};
use crate::registry::{fetched_id, SchemaRegistryData};
use crate::schema::{Format, Schema, SchemaRef};
use crate::tables::{
    latest_ids, latest_table_get, latest_table_insert, new_latest_table, new_schema_table,
    new_version_table, schema_table_get, schema_table_insert, schemas_by_id, version_ids,
    version_table_get, version_table_insert,
};

verus! {

/// What a caller asks the cache for.
pub enum SchemaQueryType<'a> {
    /// The schema with the given global id.
    Id(u32),
    /// The latest schema of the subject.
    Latest(&'a str),
    /// The given version of the subject's schema.
    Version(&'a str, u32),
}

/// The query for a subject: the version given, or the latest one.
pub fn subject_query<'a>(subject: &'a str, version: Option<u32>) -> (r: SchemaQueryType<'a>)
    ensures
        r.selector() == match version {
            Some(v) => Selector::Pinned(subject@, v),
            None => Selector::Latest(subject@),
        },
{
    match version {
        Some(v) => SchemaQueryType::Version(subject, v),
        None => SchemaQueryType::Latest(subject),
    }
}

/// A lookup key, as the contracts speak of it.
pub enum Selector {
    ById(u32),
    Latest(Seq<char>),
    Pinned(Seq<char>, u32),
}

impl<'a> SchemaQueryType<'a> {
    pub open spec fn selector(&self) -> Selector {
        match self {
            SchemaQueryType::Id(id) => Selector::ById(*id),
            SchemaQueryType::Latest(s) => Selector::Latest(s@),
            SchemaQueryType::Version(s, v) => Selector::Pinned(s@, *v),
        }
    }
}

/// The contents of the three tables.
pub struct CacheView {
    pub by_id: Map<u32, Arc<Schema>>,
    pub latest: Map<Seq<char>, u32>,
    pub versions: Map<(Seq<char>, u32), u32>,
}

impl CacheView {
    /// Every subject entry points at an id whose schema is held.
    pub open spec fn consistent(self) -> bool {
        &&& forall|s: Seq<char>| #[trigger]
            self.latest.contains_key(s) ==> self.by_id.contains_key(self.latest[s])
        &&& forall|k: (Seq<char>, u32)| #[trigger]
            self.versions.contains_key(k) ==> self.by_id.contains_key(self.versions[k])
    }

    /// The id the cache answers a selector with, if it holds one.
    pub open spec fn cached_id(self, sel: Selector) -> Option<u32> {
        let id = match sel {
            Selector::ById(id) => Some(id),
            Selector::Latest(s) => if self.latest.contains_key(s) {
                Some(self.latest[s])
            } else {
                None
            },
            Selector::Pinned(s, v) => if self.versions.contains_key((s, v)) {
                Some(self.versions[(s, v)])
            } else {
                None
            },
        };
        match id {
            Some(i) => if self.by_id.contains_key(i) {
                Some(i)
            } else {
                None
            },
            None => None,
        }
    }

    /// The tables after a schema was resolved for a selector under `id`. A schema
    /// already held under `id` is kept; `fresh` is stored only where there was none.
    pub open spec fn recorded(self, sel: Selector, id: u32, fresh: Arc<Schema>) -> CacheView {
        CacheView {
            by_id: if self.by_id.contains_key(id) {
                self.by_id
            } else {
                self.by_id.insert(id, fresh)
            },
            latest: match sel {
                Selector::Latest(s) => self.latest.insert(s, id),
                _ => self.latest,
            },
            versions: match sel {
                Selector::Pinned(s, v) => self.versions.insert((s, v), id),
                _ => self.versions,
            },
        }
    }
}

impl CacheView {
    /// The tables after the registry described a schema: with an id, the schema is held
    /// under it (one already held is kept); with a subject too, the subject's latest id
    /// is set when no version was asked for, and its pinned version when one was reported.
    pub open spec fn registered(
        self,
        id: Option<u32>,
        subject: Option<Seq<char>>,
        reported_version: Option<u32>,
        asked_version: Option<u32>,
        fresh: Arc<Schema>,
    ) -> CacheView {
        match id {
            None => self,
            Some(i) => {
                let by_id = if self.by_id.contains_key(i) {
                    self.by_id
                } else {
                    self.by_id.insert(i, fresh)
                };
                match subject {
                    None => CacheView { by_id, ..self },
                    Some(s) => CacheView {
                        by_id,
                        latest: if asked_version is None {
                            self.latest.insert(s, i)
                        } else {
                            self.latest
                        },
                        versions: match reported_version {
                            Some(v) => self.versions.insert((s, v), i),
                            None => self.versions,
                        },
                    },
                }
            },
        }
    }
}

/// Recording a resolution keeps the tables consistent.
pub proof fn lemma_recorded_consistent(v: CacheView, sel: Selector, id: u32, fresh: Arc<Schema>)
    requires
        v.consistent(),
    ensures
        v.recorded(sel, id, fresh).consistent(),
        v.recorded(sel, id, fresh).by_id.contains_key(id),
{
    let w = v.recorded(sel, id, fresh);
    assert forall|s: Seq<char>| #[trigger] w.latest.contains_key(s) implies w.by_id.contains_key(
        w.latest[s],
    ) by {
        if !(sel matches Selector::Latest(t) && t == s) {
            assert(v.latest.contains_key(s));
        }
    }
    assert forall|k: (Seq<char>, u32)| #[trigger] w.versions.contains_key(k) implies w.by_id.contains_key(
        w.versions[k],
    ) by {
        if !(sel matches Selector::Pinned(t, n) && t == k.0 && n == k.1) {
            assert(v.versions.contains_key(k));
        }
    }
}

/// Once a schema was resolved by its id, looking the id up again finds it in the cache,
/// so no second fetch is made for it.
pub proof fn lemma_resolved_id_is_cached(v: CacheView, id: u32, fresh: Arc<Schema>)
    ensures
        v.recorded(Selector::ById(id), id, fresh).cached_id(Selector::ById(id)) == Some(id),
{
}

/// Resolving a pinned version stores it under its own key: resolving it again finds it
/// without a fetch, while the subject's "latest" entry is left as it was, so a later
/// "latest" lookup may still miss, fetch, and come to another id.
pub proof fn lemma_pinned_apart_from_latest(
    v: CacheView,
    subject: Seq<char>,
    version: u32,
    id: u32,
    fresh: Arc<Schema>,
)
    requires
        v.consistent(),
    ensures
        v.recorded(Selector::Pinned(subject, version), id, fresh).cached_id(
            Selector::Pinned(subject, version),
        ) == Some(id),
        v.recorded(Selector::Pinned(subject, version), id, fresh).cached_id(
            Selector::Latest(subject),
        ) == v.cached_id(Selector::Latest(subject)),
{
    let w = v.recorded(Selector::Pinned(subject, version), id, fresh);
    if v.latest.contains_key(subject) {
        assert(v.by_id.contains_key(v.latest[subject]));
    }
}

/// Two callers that miss the cache for the same key at once, fetch the same id and both
/// store what they fetched end where one of them alone would: the schema stored first
/// is the one held and handed to both, the key finds it, and the tables stay consistent.
pub proof fn lemma_concurrent_resolution(
    v: CacheView,
    sel: Selector,
    id: u32,
    first: Arc<Schema>,
    second: Arc<Schema>,
)
    requires
        v.consistent(),
        answered_id(sel, Some(id)) == Some(id),
    ensures
        v.recorded(sel, id, first).recorded(sel, id, second) == v.recorded(sel, id, first),
        v.recorded(sel, id, first).consistent(),
        v.recorded(sel, id, first).cached_id(sel) == Some(id),
        v.recorded(sel, id, first).by_id[id] == if v.by_id.contains_key(id) {
            v.by_id[id]
        } else {
            first
        },
{
    lemma_recorded_consistent(v, sel, id, first);
    let w1 = v.recorded(sel, id, first);
    let w2 = w1.recorded(sel, id, second);
    assert(w2.by_id =~= w1.by_id);
    assert(w2.latest =~= w1.latest);
    assert(w2.versions =~= w1.versions);
}

/// The tables after callers that all missed the cache for `sel` stored, in turn, the
/// schemas they fetched under `id`.
pub open spec fn recorded_all(v: CacheView, sel: Selector, id: u32, fetched: Seq<Arc<Schema>>) -> CacheView
    decreases fetched.len(),
{
    if fetched.len() == 0 {
        v
    } else {
        recorded_all(v, sel, id, fetched.drop_last()).recorded(sel, id, fetched.last())
    }
}

proof fn lemma_recorded_all_is_first(
    v: CacheView,
    sel: Selector,
    id: u32,
    fetched: Seq<Arc<Schema>>,
)
    requires
        v.consistent(),
        answered_id(sel, Some(id)) == Some(id),
        fetched.len() > 0,
    ensures
        recorded_all(v, sel, id, fetched) == v.recorded(sel, id, fetched[0]),
    decreases fetched.len(),
{
    let rest = fetched.drop_last();
    if fetched.len() == 1 {
        assert(rest =~= Seq::<Arc<Schema>>::empty());
        assert(recorded_all(v, sel, id, rest) == v);
        assert(fetched.last() == fetched[0]);
    } else {
        lemma_recorded_all_is_first(v, sel, id, rest);
        assert(rest[0] == fetched[0]);
        lemma_concurrent_resolution(v, sel, id, fetched[0], fetched.last());
    }
    assert(recorded_all(v, sel, id, fetched) == recorded_all(v, sel, id, rest).recorded(
        sel,
        id,
        fetched.last(),
    ));
}

/// Any number of callers that miss the cache for the same key at once, fetch the same
/// id and store what they fetched in turn end where the first of them alone would. Each
/// caller is handed the schema held under the id right after its own store, and that is
/// one and the same schema for all: the one held before, or else the first one stored.
/// The key then finds the id, and the tables stay consistent.
pub proof fn lemma_concurrent_resolutions(
    v: CacheView,
    sel: Selector,
    id: u32,
    fetched: Seq<Arc<Schema>>,
)
    requires
        v.consistent(),
        answered_id(sel, Some(id)) == Some(id),
        fetched.len() > 0,
    ensures
        recorded_all(v, sel, id, fetched) == v.recorded(sel, id, fetched[0]),
        recorded_all(v, sel, id, fetched).consistent(),
        recorded_all(v, sel, id, fetched).cached_id(sel) == Some(id),
        forall|i: int|
            1 <= i <= fetched.len() ==> #[trigger] recorded_all(v, sel, id, fetched.take(i)).by_id[id]
                == if v.by_id.contains_key(id) {
                v.by_id[id]
            } else {
                fetched[0]
            },
{
    lemma_recorded_all_is_first(v, sel, id, fetched);
    lemma_concurrent_resolution(v, sel, id, fetched[0], fetched[0]);
    assert forall|i: int| 1 <= i <= fetched.len() implies #[trigger] recorded_all(
        v,
        sel,
        id,
        fetched.take(i),
    ).by_id[id] == if v.by_id.contains_key(id) {
        v.by_id[id]
    } else {
        fetched[0]
    } by {
        lemma_recorded_all_is_first(v, sel, id, fetched.take(i));
        assert(fetched.take(i)[0] == fetched[0]);
    }
}

/// The id a registry answer stands for: the one asked for when the query is by id,
/// else the one the registry returned, which it must have.
pub open spec fn answered_id(sel: Selector, returned: Option<u32>) -> Option<u32> {
    match sel {
        Selector::ById(id) => Some(id),
        _ => returned,
    }
}

/// The schema cache shared by encoders and decoders of one registry client.
pub struct SchemaCache {
    schemas: DashMap<u32, Arc<Schema>>,
    subject_to_latest_id: DashMap<String, u32>,
    subject_version_to_id: DashMap<(String, u32), u32>,
}

impl View for SchemaCache {
    type V = CacheView;

    closed spec fn view(&self) -> CacheView {
        CacheView {
            by_id: schemas_by_id(self.schemas),
            latest: latest_ids(self.subject_to_latest_id),
            versions: version_ids(self.subject_version_to_id),
        }
    }
}

impl SchemaCache {
    pub open spec fn wf(&self) -> bool {
        self@.consistent()
    }

    /// An empty cache.
    pub fn new() -> (r: Self)
        ensures
            r.wf(),
            r@.by_id.dom().is_empty(),
            r@.latest.dom().is_empty(),
            r@.versions.dom().is_empty(),
    {
        SchemaCache {
            schemas: new_schema_table(),
            subject_to_latest_id: new_latest_table(),
            subject_version_to_id: new_version_table(),
        }
    }

    /// Looks a schema up without asking the registry. An id, when given, takes priority
    /// over the subject; with neither there is nothing to find.
    pub fn check_cache_for_schema(
        &self,
        subject: Option<&str>,
        version: Option<u32>,
        id: Option<u32>,
    ) -> (r: Option<(u32, Arc<Schema>)>)
        requires
            self.wf(),
        ensures
            ({
                let found = match (id, subject, version) {
                    (Some(i), _, _) => self@.cached_id(Selector::ById(i)),
                    (None, Some(s), Some(v)) => self@.cached_id(Selector::Pinned(s@, v)),
                    (None, Some(s), None) => self@.cached_id(Selector::Latest(s@)),
                    (None, None, _) => None,
                };
                match found {
                    Some(i) => r matches Some((ri, rs)) && ri == i && rs == self@.by_id[i],
                    None => r is None,
                }
            }),
    {
        if let Some(id) = id {
            return match schema_table_get(&self.schemas, id) {
                Some(s) => Some((id, s)),
                None => None,
            };
        }
        if let Some(subject) = subject {
            let found = if let Some(version) = version {
                version_table_get(&self.subject_version_to_id, subject, version)
            } else {
                latest_table_get(&self.subject_to_latest_id, subject)
            };
            return match found {
                Some(i) => match schema_table_get(&self.schemas, i) {
                    Some(s) => Some((i, s)),
                    None => None,
                },
                None => None,
            };
        }
        None
    }

    /// The cached schema for a query, if the cache holds one; `None` means the registry
    /// has to be asked.
    pub fn lookup(&self, query: &SchemaQueryType) -> (r: Option<SchemaRef>)
        requires
            self.wf(),
        ensures
            match self@.cached_id(query.selector()) {
                Some(i) => r matches Some(sr) && sr.id == i && sr.schema == self@.by_id[i],
                None => r is None,
            },
    {
        let found = match query {
            SchemaQueryType::Id(id) => self.check_cache_for_schema(None, None, Some(*id)),
            SchemaQueryType::Latest(s) => self.check_cache_for_schema(Some(*s), None, None),
            SchemaQueryType::Version(s, v) => self.check_cache_for_schema(Some(*s), Some(*v), None),
        };
        match found {
            Some((id, schema)) => Some(SchemaRef { schema, id }),
            None => None,
        }
    }

    /// Holds a parsed schema under `id`, unless one is held there already.
    fn hold(&mut self, id: u32, schema: Schema)
        requires
            old(self).wf(),
        ensures
            final(self).wf(),
            final(self)@ == (CacheView {
                by_id: if old(self)@.by_id.contains_key(id) {
                    old(self)@.by_id
                } else {
                    old(self)@.by_id.insert(id, Arc::new(schema))
                },
                ..old(self)@
            }),
    {
        if schema_table_get(&self.schemas, id).is_none() {
            schema_table_insert(&mut self.schemas, id, Arc::new(schema));
        }
        proof {
            assert forall|s: Seq<char>| #[trigger] self@.latest.contains_key(s) implies self@.by_id.contains_key(
                self@.latest[s],
            ) by {
                assert(old(self)@.by_id.contains_key(old(self)@.latest[s]));
            }
            assert forall|k: (Seq<char>, u32)| #[trigger] self@.versions.contains_key(k) implies self@.by_id.contains_key(
                self@.versions[k],
            ) by {
                assert(old(self)@.by_id.contains_key(old(self)@.versions[k]));
            }
        }
    }

    /// Takes the registry's answer to a query that missed the cache: the id it returned
    /// and the schema text. The text is parsed in `format` and the result stored under
    /// the query's key; nothing is stored when the answer lacks a needed id or the text
    /// does not parse. When a schema is already held under the id, it is kept and returned.
    pub fn store_fetched(
        &mut self,
        query: &SchemaQueryType,
        returned_id: Option<u32>,
        text: &str,
        format: Format,
    ) -> (r: Result<SchemaRef>)
        requires
            old(self).wf(),
        ensures
            final(self).wf(),
            match answered_id(query.selector(), returned_id) {
                None => r matches Err(Error::IDNotReturned) && final(self)@ == old(self)@,
                Some(id) => if format != Format::Avro {
                    (r matches Err(Error::UnsupportedFormat(f)) && f == format) && final(self)@
                        == old(self)@
                } else if !avro_schema_parses(text@) {
                    r matches Err(Error::Avro(_)) && final(self)@ == old(self)@
                } else {
                    &&& r matches Ok(sr) && sr.id == id && sr.schema == final(self)@.by_id[id]
                    &&& final(self)@ == old(self)@.recorded(
                        query.selector(),
                        id,
                        final(self)@.by_id[id],
                    )
                    &&& !old(self)@.by_id.contains_key(id) ==> final(self)@.by_id[id].format()
                        == Format::Avro
                },
            },
    {
        let id = match fetched_id(query, returned_id) {
            Ok(i) => i,
            Err(e) => return Err(e),
        };
        let schema = match format.parse_schema(text) {
            Ok(s) => s,
            Err(e) => return Err(e),
        };
        self.hold(id, schema);
        match query {
            SchemaQueryType::Id(_) => {},
            SchemaQueryType::Latest(s) => latest_table_insert(&mut self.subject_to_latest_id, s, id),
            SchemaQueryType::Version(s, v) => version_table_insert(
                &mut self.subject_version_to_id,
                s,
                *v,
                id,
            ),
        }
        let held = schema_table_get(&self.schemas, id).unwrap();
        proof {
            assert(self@ =~~= old(self)@.recorded(query.selector(), id, self@.by_id[id]));
        }
        Ok(SchemaRef { schema: held, id })
    }

    /// Takes what the registry reported of a schema just registered: parses the text in
    /// `format` and stores it as `registered` describes, with `version` the version that
    /// was asked for. Nothing is stored when the text does not parse.
    pub fn record_registry_data(
        &mut self,
        data: &SchemaRegistryData,
        format: Format,
        version: Option<u32>,
    ) -> (r: Result<()>)
        requires
            old(self).wf(),
        ensures
            final(self).wf(),
            format != Format::Avro ==> (r matches Err(Error::UnsupportedFormat(f)) && f == format)
                && final(self)@ == old(self)@,
            format == Format::Avro && !avro_schema_parses(data.schema@) ==> (r matches Err(
                Error::Avro(_),
            ) && final(self)@ == old(self)@),
            format == Format::Avro && avro_schema_parses(data.schema@) ==> r is Ok,
            format == Format::Avro && avro_schema_parses(data.schema@) ==> match data.id {
                None => final(self)@ == old(self)@,
                Some(id) => {
                    &&& final(self)@ == old(self)@.registered(
                        data.id,
                        data.subject_view(),
                        data.version,
                        version,
                        final(self)@.by_id[id],
                    )
                    &&& !old(self)@.by_id.contains_key(id) ==> final(self)@.by_id[id].format()
                        == Format::Avro
                },
            },
    {
        let parsed = match format.parse_schema(data.schema.as_str()) {
            Ok(s) => s,
            Err(e) => return Err(e),
        };
        if let Some(id) = data.id {
            self.hold(id, parsed);
            if let Some(subject) = &data.subject {
                if version.is_none() {
                    latest_table_insert(&mut self.subject_to_latest_id, subject.as_str(), id);
                }
                if let Some(v) = data.version {
                    version_table_insert(&mut self.subject_version_to_id, subject.as_str(), v, id);
                }
            }
            proof {
                assert(self@ =~~= old(self)@.registered(
                    data.id,
                    data.subject_view(),
                    data.version,
                    version,
                    self@.by_id[id],
                ));
            }
        }
        Ok(())
    }
}

} // verus!
