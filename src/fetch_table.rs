//! The table that routes each entity type to its descriptors.
use vstd::prelude::*;
use crate::ancestor::AncestorSQLInfo;
use crate::ancestor::{ancestors_of_rows, inline_result};
use crate::entity::{pairs_view, project, uid_set, EntitySQLInfo, ResolvedEntity};
use crate::query::{projection, select_view, SelectItem, SqlQuery};
use crate::value::{DatabaseToCedarError, RawColumn, Uid, UidView};

verus! {

/// How one entity type is stored: its entity table, and the relation table
/// of its ancestors when they are not stored inline.
pub struct EntityResolver {
    pub entity_type: String,
    pub info: EntitySQLInfo,
    pub ancestors: Option<AncestorSQLInfo>,
    /// The entity type of the parents that the relation table names.
    pub parent_type: String,
}

/// How the ancestors of one entity type are resolved.
pub enum AncestorStrategy<'a> {
    /// From rows of this relation table, each parent of this entity type.
    Relation(&'a AncestorSQLInfo, &'a String),
    /// From the JSON array in this column of the entity's own row.
    Inline(usize),
    /// The type has no ancestors.
    NoAncestors,
}

impl EntityResolver {
    /// The ancestor strategy that the resolver is configured with: a relation
    /// table when it names one, else an inline column when the descriptor
    /// has one, else none.
    pub fn ancestor_strategy(&self) -> (r: AncestorStrategy<'_>)
        ensures
            match self.ancestors {
                Some(rel) => r matches AncestorStrategy::Relation(x, t) && *x == rel && *t == self.parent_type,
                None => match self.info.ancestor_attr_ind {
                    Some(k) => r == AncestorStrategy::Inline(k),
                    None => r is NoAncestors,
                },
            },
    {
        match &self.ancestors {
            Some(rel) => AncestorStrategy::Relation(rel, &self.parent_type),
            None => match self.info.ancestor_attr_ind {
                Some(k) => AncestorStrategy::Inline(k),
                None => AncestorStrategy::NoAncestors,
            },
        }
    }
}

/// Entity types with their resolvers; built once, then only read.
pub struct EntityFetchTable {
    pub resolvers: Vec<EntityResolver>,
}

impl EntityFetchTable {
    /// Each entity type has at most one resolver, and each descriptor is
    /// consistent.
    pub open spec fn wf(&self) -> bool {
        &&& forall|i: int, j: int|
            0 <= i < j < self.resolvers@.len() ==> self.resolvers@[i].entity_type@
                != self.resolvers@[j].entity_type@
        &&& forall|i: int| 0 <= i < self.resolvers@.len() ==> (#[trigger] self.resolvers@[i]).info.wf()
    }

    /// An empty table.
    pub fn new() -> (r: EntityFetchTable)
        ensures
            r.wf(),
            r.resolvers@.len() == 0,
    {
        EntityFetchTable { resolvers: Vec::new() }
    }

    /// Adds a resolver for a type that has none yet and whose descriptor is
    /// consistent; otherwise leaves the table as it was and answers false.
    pub fn insert(&mut self, resolver: EntityResolver) -> (r: bool)
        requires
            old(self).wf(),
        ensures
            final(self).wf(),
            r == (resolver.info.wf() && forall|i: int|
                0 <= i < old(self).resolvers@.len() ==> old(self).resolvers@[i].entity_type@
                    != resolver.entity_type@),
            r ==> final(self).resolvers@ == old(self).resolvers@.push(resolver),
            !r ==> final(self).resolvers@ == old(self).resolvers@,
    {
        if !resolver.info.check_wf() {
            return false;
        }
        if self.lookup(&resolver.entity_type).is_some() {
            return false;
        }
        self.resolvers.push(resolver);
        true
    }

    /// The position of the resolver of entity type `tp`, if there is one.
    pub fn lookup(&self, tp: &String) -> (r: Option<usize>)
        ensures
            r is None <==> forall|i: int|
                0 <= i < self.resolvers@.len() ==> self.resolvers@[i].entity_type@ != tp@,
            r matches Some(i) ==> i < self.resolvers@.len() && self.resolvers@[i as int].entity_type@
                == tp@,
    {
        let mut i: usize = 0;
        while i < self.resolvers.len()
            invariant
                i <= self.resolvers@.len(),
                forall|k: int| 0 <= k < i ==> self.resolvers@[k].entity_type@ != tp@,
            decreases self.resolvers@.len() - i,
        {
            if self.resolvers[i].entity_type == *tp {
                return Some(i);
            }
            i = i + 1;
        }
        None
    }
}

/// Where the ancestors of a resolved entity come from, mathematically.
pub ghost enum AncestorOrigin {
    /// This set, resolved from a relation table.
    Given(Set<UidView>),
    /// The inline column at this position of the row.
    Inline(int),
}

/// What resolving entity `uid` from its row `cols` gives: the projected
/// attributes and the ancestors from `origin`, or the first failure.
pub open spec fn entity_outcome(
    r: Result<Option<ResolvedEntity>, DatabaseToCedarError>,
    uid: UidView,
    cols: Seq<RawColumn>,
    names: Seq<(String, usize)>,
    origin: AncestorOrigin,
) -> bool {
    match project(cols, names) {
        Err(e) => r == Err::<Option<ResolvedEntity>, DatabaseToCedarError>(e),
        Ok(w) => match origin {
            AncestorOrigin::Given(s) => r matches Ok(Some(ent)) && ent.uid@ == uid && pairs_view(ent.attrs@)
                == w && uid_set(ent.ancestors@) == s,
            AncestorOrigin::Inline(k) => match inline_result(cols, k) {
                Err(e) => r == Err::<Option<ResolvedEntity>, DatabaseToCedarError>(e),
                Ok(us) => r matches Ok(Some(ent)) && ent.uid@ == uid && pairs_view(ent.attrs@) == w
                    && uid_set(ent.ancestors@) == us.to_set(),
            },
        },
    }
}

/// What to do after the row of an entity was fetched.
pub enum ResolveStep {
    /// Resolution is over, with this outcome.
    Finished(Result<Option<ResolvedEntity>, DatabaseToCedarError>),
    /// Run this query for the entity's parents, then call
    /// [`EntityFetchTable::after_parent_rows`].
    FetchParents(SqlQuery),
}

impl EntityFetchTable {
    /// The first step of resolving `uid`: the resolver of its type, and the
    /// query for its row. `None` when no resolver handles its type.
    pub fn entity_query(&self, uid: &Uid) -> (r: Option<(usize, SqlQuery)>)
        ensures
            r is None <==> forall|i: int|
                0 <= i < self.resolvers@.len() ==> self.resolvers@[i].entity_type@ != uid.entity_type@,
            r matches Some((i, q)) ==> i < self.resolvers@.len() && self.resolvers@[i as int].entity_type@
                == uid.entity_type@ && q.is_query_for(
                select_view(
                    self.resolvers@[i as int].info.table@,
                    projection(self.resolvers@[i as int].info.sql_attr_names@),
                    self.resolvers@[i as int].info.id_filter(uid.id@),
                ),
            ),
    {
        match self.lookup(&uid.entity_type) {
            None => None,
            Some(i) => Some((i, self.resolvers[i].info.get_select(&uid.id))),
        }
    }

    /// The step after the row query of `uid` (resolver `i`) returned `row`:
    /// not found when no row matched; the parents query when the type keeps
    /// its ancestors in a relation table; otherwise the entity itself.
    pub fn after_entity_row(&self, i: usize, uid: &Uid, row: Option<Vec<RawColumn>>) -> (r: ResolveStep)
        requires
            i < self.resolvers@.len(),
        ensures
            row is None ==> r matches ResolveStep::Finished(Ok(None)),
            row matches Some(cols) ==> match self.resolvers@[i as int].ancestors {
                Some(rel) => r matches ResolveStep::FetchParents(q) && q.is_query_for(
                    select_view(rel.table@, seq![SelectItem::Column(rel.parent_id@)], seq![(rel.child_id@, uid.id@)]),
                ),
                None => r matches ResolveStep::Finished(res) && entity_outcome(
                    res,
                    uid@,
                    cols@,
                    self.resolvers@[i as int].info.attr_names@,
                    match self.resolvers@[i as int].info.ancestor_attr_ind {
                        Some(k) => AncestorOrigin::Inline(k as int),
                        None => AncestorOrigin::Given(Set::empty()),
                    },
                ),
            },
    {
        if row.is_none() {
            return ResolveStep::Finished(Ok(None));
        }
        let resolver = &self.resolvers[i];
        match &resolver.ancestors {
            Some(rel) => ResolveStep::FetchParents(rel.query_all_parents(&uid.id)),
            None => match resolver.info.ancestor_attr_ind {
                Some(_) => {
                    let res = resolver.info.make_entity_ancestors(uid, row);
                    ResolveStep::Finished(res)
                },
                None => {
                    let res = resolver.info.make_entity(uid, row, Vec::new());
                    proof {
                        assert(Seq::<Uid>::empty().map_values(|u: Uid| u@) =~= Seq::<UidView>::empty());
                        assert(uid_set(Seq::<Uid>::empty()) =~= Set::<UidView>::empty());
                    }
                    ResolveStep::Finished(res)
                },
            },
        }
    }

    /// The last step for a type whose ancestors live in a relation table:
    /// the entity from its row and the parent column of the rows that the
    /// parents query returned, each parent of the resolver's parent type.
    /// A parent that fails to decode fails the whole resolution.
    pub fn after_parent_rows(&self, i: usize, uid: &Uid, row: Vec<RawColumn>, parents: &Vec<RawColumn>) -> (r:
        Result<Option<ResolvedEntity>, DatabaseToCedarError>)
        requires
            i < self.resolvers@.len(),
            self.resolvers@[i as int].ancestors is Some,
        ensures
            match ancestors_of_rows(parents@, self.resolvers@[i as int].parent_type@) {
                Err(e) => r == Err::<Option<ResolvedEntity>, DatabaseToCedarError>(e),
                Ok(s) => entity_outcome(
                    r,
                    uid@,
                    row@,
                    self.resolvers@[i as int].info.attr_names@,
                    AncestorOrigin::Given(s),
                ),
            },
    {
        let resolver = &self.resolvers[i];
        let rel = match &resolver.ancestors {
            Some(rel) => rel,
            None => {
                return Ok(None);
            },
        };
        match rel.get_ancestors(parents, &resolver.parent_type) {
            Err(e) => Err(e),
            Ok(ancestors) => resolver.info.make_entity(uid, Some(row), ancestors),
        }
    }
}

} // verus!
