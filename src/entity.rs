//! Entity descriptors: the queries that fetch an entity, and the assembly of
//! a resolved entity from the row that comes back.
use vstd::prelude::*;
use vstd::string::*;
use crate::ancestor::{inline_ancestors, inline_result};
use crate::query::{projection, select_columns, select_one, select_view, SelectItem, SqlQuery};
use crate::value::{
    decode_attr, decode_id, AttrVal, AttrValue, DatabaseToCedarError, EntityAttrAccessError, EntitySQLId,
    RawColumn, SQLValue, Uid, UidView,
};

verus! {

/// How an entity table maps onto an entity type.
pub struct EntitySQLInfo {
    /// The table holding one row per entity.
    pub table: String,
    /// The column holding the entity id.
    pub id_attr: String,
    /// The columns selected when fetching an entity, in order.
    pub sql_attr_names: Vec<String>,
    /// Each logical attribute name with the position of its column among
    /// `sql_attr_names`.
    pub attr_names: Vec<(String, usize)>,
    /// The position among `sql_attr_names` of a column holding the entity's
    /// ancestors as a JSON array, if they are stored inline.
    pub ancestor_attr_ind: Option<usize>,
}

/// An entity with its attributes and its ancestors.
pub struct ResolvedEntity {
    pub uid: Uid,
    /// Attribute pairs; a later pair overrides an earlier one with its name.
    pub attrs: Vec<(String, AttrValue)>,
    pub ancestors: Vec<Uid>,
}

/// Where the ancestors of a fetched entity come from.
pub enum AncestorSource {
    /// Ancestors already resolved by the caller (for instance from a
    /// relation table).
    Given(Vec<Uid>),
    /// Ancestors decoded from the JSON array in this column of the row.
    Inline(usize),
}

/// The view of a sequence of attribute pairs.
pub open spec fn pairs_view(s: Seq<(String, AttrValue)>) -> Seq<(Seq<char>, AttrVal)> {
    s.map_values(|p: (String, AttrValue)| (p.0@, p.1@))
}

/// The map that a sequence of pairs describes, a later pair winning.
pub open spec fn pairs_map(s: Seq<(Seq<char>, AttrVal)>) -> Map<Seq<char>, AttrVal>
    decreases s.len(),
{
    if s.len() == 0 {
        Map::empty()
    } else {
        pairs_map(s.drop_last()).insert(s.last().0, s.last().1)
    }
}

/// The set of uids in a sequence.
pub open spec fn uid_set(s: Seq<Uid>) -> Set<UidView> {
    s.map_values(|u: Uid| u@).to_set()
}

/// The decoded value of column `i` of a row.
pub open spec fn column_attr(row: Seq<RawColumn>, i: int) -> Result<
    Option<AttrVal>,
    DatabaseToCedarError,
> {
    if 0 <= i < row.len() {
        decode_attr(row[i])
    } else {
        Err(DatabaseToCedarError::InvalidColumnIndex)
    }
}

/// Projection of a row onto named attributes: every attribute whose column
/// is not NULL, in order, or the first column that fails to decode.
pub open spec fn project(row: Seq<RawColumn>, names: Seq<(String, usize)>) -> Result<
    Seq<(Seq<char>, AttrVal)>,
    DatabaseToCedarError,
>
    decreases names.len(),
{
    if names.len() == 0 {
        Ok(seq![])
    } else {
        match project(row, names.drop_last()) {
            Err(e) => Err(e),
            Ok(acc) => match column_attr(row, names.last().1 as int) {
                Err(e) => Err(e),
                Ok(None) => Ok(acc),
                Ok(Some(v)) => Ok(acc.push((names.last().0@, v))),
            },
        }
    }
}

/// The names whose column in `row` holds a value.
pub open spec fn present_names(row: Seq<RawColumn>, names: Seq<(String, usize)>) -> Set<Seq<char>> {
    Set::new(
        |n: Seq<char>|
            exists|i: int|
                0 <= i < names.len() && names[i].0@ == n && column_attr(row, names[i].1 as int) is Ok
                    && column_attr(row, names[i].1 as int)->Ok_0 is Some,
    )
}

/// Whether `a` is one of the configured attribute names.
pub open spec fn configured(names: Seq<(String, usize)>, a: Seq<char>) -> bool {
    exists|i: int| 0 <= i < names.len() && names[i].0@ == a
}

/// When projecting a row succeeds, the attribute names it yields are exactly
/// the configured names whose column holds a value: those whose column is
/// NULL are absent.
pub proof fn lemma_projection_keys(row: Seq<RawColumn>, names: Seq<(String, usize)>)
    requires
        project(row, names) is Ok,
    ensures
        pairs_map(project(row, names)->Ok_0).dom() == present_names(row, names),
    decreases names.len(),
{
    if names.len() == 0 {
        assert(pairs_map(seq![]).dom() =~= present_names(row, names));
    } else {
        let init = names.drop_last();
        lemma_projection_keys(row, init);
        let acc = project(row, init)->Ok_0;
        let last = names.last();
        assert forall|n: Seq<char>| present_names(row, names).contains(n) <==> (present_names(
            row,
            init,
        ).contains(n) || (n == last.0@ && column_attr(row, last.1 as int)->Ok_0 is Some)) by {
            if present_names(row, names).contains(n) {
                let i = choose|i: int|
                    0 <= i < names.len() && names[i].0@ == n && column_attr(row, names[i].1 as int) is Ok
                        && column_attr(row, names[i].1 as int)->Ok_0 is Some;
                if i < init.len() {
                    assert(init[i] == names[i]);
                }
            }
            if present_names(row, init).contains(n) {
                let i = choose|i: int|
                    0 <= i < init.len() && init[i].0@ == n && column_attr(row, init[i].1 as int) is Ok
                        && column_attr(row, init[i].1 as int)->Ok_0 is Some;
                assert(names[i] == init[i]);
            }
            if n == last.0@ && column_attr(row, last.1 as int)->Ok_0 is Some {
                assert(names[names.len() - 1] == last);
            }
        }
        match column_attr(row, last.1 as int) {
            Ok(Some(v)) => {
                let out = acc.push((last.0@, v));
                assert(out.drop_last() =~= acc);
                assert(pairs_map(out).dom() =~= present_names(row, names));
            },
            _ => {
                assert(pairs_map(acc).dom() =~= present_names(row, names));
            },
        }
    }
}

impl EntitySQLInfo {
    /// The descriptor is consistent: attribute names are distinct, and every
    /// column position it holds is one of the selected columns.
    pub open spec fn wf(&self) -> bool {
        &&& distinct_names(self.attr_names@)
        &&& forall|i: int|
            0 <= i < self.attr_names@.len() ==> self.attr_names@[i].1 < self.sql_attr_names@.len()
        &&& self.ancestor_attr_ind matches Some(k) ==> k < self.sql_attr_names@.len()
    }

    /// Tests [`EntitySQLInfo::wf`].
    pub fn check_wf(&self) -> (r: bool)
        ensures
            r == self.wf(),
    {
        let n = self.sql_attr_names.len();
        if let Some(k) = self.ancestor_attr_ind {
            if k >= n {
                return false;
            }
        }
        let mut i: usize = 0;
        while i < self.attr_names.len()
            invariant
                i <= self.attr_names@.len(),
                n == self.sql_attr_names@.len(),
                self.ancestor_attr_ind matches Some(k) ==> k < n,
                forall|k: int| 0 <= k < i ==> self.attr_names@[k].1 < n,
                forall|a: int, b: int| 0 <= a < b < i ==> self.attr_names@[a].0@ != self.attr_names@[b].0@,
            decreases self.attr_names@.len() - i,
        {
            if self.attr_names[i].1 >= n {
                return false;
            }
            let mut j: usize = 0;
            while j < i
                invariant
                    j <= i < self.attr_names@.len(),
                    forall|a: int| 0 <= a < j ==> self.attr_names@[a].0@ != self.attr_names@[i as int].0@,
                decreases i - j,
            {
                if self.attr_names[j].0 == self.attr_names[i].0 {
                    return false;
                }
                j = j + 1;
            }
            i = i + 1;
        }
        true
    }

    /// The condition that picks the row of entity `id`.
    pub open spec fn id_filter(&self, id: Seq<char>) -> Seq<(Seq<char>, Seq<char>)> {
        seq![(self.id_attr@, id)]
    }

    fn id_filters(&self, id: &String) -> (r: Vec<(String, String)>)
        ensures
            r@.map_values(|f: (String, String)| (f.0@, f.1@)) == self.id_filter(id@),
    {
        let r = vec![(self.id_attr.clone(), id.clone())];
        assert(r@.map_values(|f: (String, String)| (f.0@, f.1@)) =~= self.id_filter(id@));
        r
    }

    /// The query fetching the row of entity `id`: its selected columns, or
    /// every column when none is named.
    pub fn get_select(&self, id: &String) -> (r: SqlQuery)
        ensures
            r.is_query_for(
                select_view(self.table@, projection(self.sql_attr_names@), self.id_filter(id@)),
            ),
    {
        let filters = self.id_filters(id);
        select_columns(&self.table, &self.sql_attr_names, &filters)
    }

    /// The query checking that entity `id` exists, projecting no column.
    pub fn get_exists_select(&self, id: &String) -> (r: SqlQuery)
        ensures
            r.is_query_for(select_view(self.table@, seq![SelectItem::One], self.id_filter(id@))),
    {
        let filters = self.id_filters(id);
        select_one(&self.table, &filters)
    }

    /// The position in `attr_names` of attribute `attr`, if it is configured.
    pub fn attr_position(&self, attr: &String) -> (r: Option<usize>)
        ensures
            r is None <==> !configured(self.attr_names@, attr@),
            r matches Some(i) ==> i < self.attr_names@.len() && self.attr_names@[i as int].0@ == attr@,
    {
        let mut i: usize = 0;
        while i < self.attr_names.len()
            invariant
                i <= self.attr_names@.len(),
                forall|k: int| 0 <= k < i ==> self.attr_names@[k].0@ != attr@,
            decreases self.attr_names@.len() - i,
        {
            if self.attr_names[i].0 == *attr {
                return Some(i);
            }
            i = i + 1;
        }
        None
    }

    /// The query reading attribute `attr` of entity `id`: its one column, or
    /// `None` when `attr` is not configured.
    pub fn get_single_attr_select(&self, id: &String, attr: &String) -> (r: Option<SqlQuery>)
        requires
            self.wf(),
        ensures
            r is None <==> !configured(self.attr_names@, attr@),
            r matches Some(q) ==> exists|i: int|
                0 <= i < self.attr_names@.len() && self.attr_names@[i].0@ == attr@ && q.is_query_for(
                    select_view(
                        self.table@,
                        seq![SelectItem::Column(self.sql_attr_names@[self.attr_names@[i].1 as int]@)],
                        self.id_filter(id@),
                    ),
                ),
    {
        match self.attr_position(attr) {
            None => None,
            Some(i) => {
                let col = self.sql_attr_names[self.attr_names[i].1].clone();
                let cols = vec![col];
                let filters = self.id_filters(id);
                let q = select_columns(&self.table, &cols, &filters);
                assert(projection(cols@) =~= seq![
                    SelectItem::Column(self.sql_attr_names@[self.attr_names@[i as int].1 as int]@),
                ]);
                Some(q)
            },
        }
    }

    /// Projects a row onto the named attributes, leaving out NULL columns.
    pub fn convert_attr_names(query_result: &Vec<RawColumn>, attr_names: &Vec<(String, usize)>) -> (r:
        Result<Vec<(String, AttrValue)>, DatabaseToCedarError>)
        ensures
            match (r, project(query_result@, attr_names@)) {
                (Ok(v), Ok(w)) => pairs_view(v@) == w,
                (Err(e), Err(f)) => e == f,
                _ => false,
            },
    {
        let mut out: Vec<(String, AttrValue)> = Vec::new();
        let mut i: usize = 0;
        assert(pairs_view(out@) =~= seq![]);
        assert(attr_names@.subrange(0, 0).len() == 0);
        while i < attr_names.len()
            invariant
                i <= attr_names@.len(),
                project(query_result@, attr_names@.subrange(0, i as int)) == Ok::<
                    Seq<(Seq<char>, AttrVal)>,
                    DatabaseToCedarError,
                >(pairs_view(out@)),
            decreases attr_names@.len() - i,
        {
            let ghost pre = attr_names@.subrange(0, i as int);
            let ghost next = attr_names@.subrange(0, i + 1);
            assert(next.drop_last() =~= pre);
            assert(next.last() == attr_names@[i as int]);
            let ind = attr_names[i].1;
            let ghost before = out@;
            if ind >= query_result.len() {
                assert(project(query_result@, attr_names@.subrange(0, i + 1)) is Err);
                proof { lemma_project_err_prefix(query_result@, attr_names@, i as int + 1); }
                return Err(DatabaseToCedarError::InvalidColumnIndex);
            }
            match SQLValue::column_result(&query_result[ind]) {
                Err(e) => {
                    proof { lemma_project_err_prefix(query_result@, attr_names@, i as int + 1); }
                    return Err(e);
                },
                Ok(SQLValue(None)) => {
                    assert(column_attr(query_result@, ind as int) == Ok::<Option<AttrVal>, DatabaseToCedarError>(None));
                },
                Ok(SQLValue(Some(v))) => {
                    assert(column_attr(query_result@, ind as int) == Ok::<Option<AttrVal>, DatabaseToCedarError>(Some(v@)));
                    out.push((attr_names[i].0.clone(), v));
                    assert(pairs_view(out@) =~= pairs_view(before).push(
                        (attr_names@[i as int].0@, out@.last().1@),
                    ));
                },
            }
            i = i + 1;
        }
        assert(attr_names@.subrange(0, i as int) =~= attr_names@);
        Ok(out)
    }

    /// The entity `uid` from its fetched row: `None` when no row matched;
    /// otherwise its projected attributes followed by `extra`, and its
    /// ancestors from `ancestors`.
    pub fn make_entity_from_table(
        uid: &Uid,
        row: Option<Vec<RawColumn>>,
        attr_names: &Vec<(String, usize)>,
        extra: Vec<(String, AttrValue)>,
        ancestors: AncestorSource,
    ) -> (r: Result<Option<ResolvedEntity>, DatabaseToCedarError>)
        ensures
            row is None ==> r == Ok::<Option<ResolvedEntity>, DatabaseToCedarError>(None),
            row matches Some(cols) ==> match project(cols@, attr_names@) {
                Err(e) => r == Err::<Option<ResolvedEntity>, DatabaseToCedarError>(e),
                Ok(w) => match ancestors {
                    AncestorSource::Given(a) => r matches Ok(Some(ent)) && ent.uid@ == uid@ && pairs_view(
                        ent.attrs@,
                    ) == w + pairs_view(extra@) && uid_set(ent.ancestors@) == uid_set(a@),
                    AncestorSource::Inline(k) => match inline_result(cols@, k as int) {
                        Err(e) => r == Err::<Option<ResolvedEntity>, DatabaseToCedarError>(e),
                        Ok(us) => r matches Ok(Some(ent)) && ent.uid@ == uid@ && pairs_view(ent.attrs@)
                            == w + pairs_view(extra@) && ent.ancestors@.map_values(|u: Uid| u@) == us,
                    },
                },
            },
    {
        match row {
            None => Ok(None),
            Some(cols) => {
                let mut attrs = match Self::convert_attr_names(&cols, attr_names) {
                    Ok(a) => a,
                    Err(e) => {
                        return Err(e);
                    },
                };
                let ghost stored = attrs@;
                let ghost given = extra@;
                let mut extra = extra;
                attrs.append(&mut extra);
                assert(pairs_view(attrs@) =~= pairs_view(stored) + pairs_view(given));
                let ancs = match ancestors {
                    AncestorSource::Given(a) => a,
                    AncestorSource::Inline(k) => match inline_ancestors(&cols, k) {
                        Ok(a) => a,
                        Err(e) => {
                            return Err(e);
                        },
                    },
                };
                Ok(Some(ResolvedEntity { uid: uid.clone_uid(), attrs, ancestors: ancs }))
            },
        }
    }
}

/// Whether the names of a list of attribute pairs are pairwise distinct.
pub open spec fn distinct_names(names: Seq<(String, usize)>) -> bool {
    forall|i: int, j: int| 0 <= i < j < names.len() ==> names[i].0@ != names[j].0@
}

impl EntitySQLInfo {
    /// A descriptor from its parts, or `None` when the parts are not
    /// consistent (see [`EntitySQLInfo::wf`]).
    pub fn new(
        table: String,
        id_attr: String,
        sql_attr_names: Vec<String>,
        attr_names: Vec<(String, usize)>,
        ancestor_attr_ind: Option<usize>,
    ) -> (r: Option<EntitySQLInfo>)
        ensures
            r is Some <==> (EntitySQLInfo { table, id_attr, sql_attr_names, attr_names, ancestor_attr_ind }).wf(),
            r matches Some(d) ==> d == (EntitySQLInfo {
                table,
                id_attr,
                sql_attr_names,
                attr_names,
                ancestor_attr_ind,
            }),
    {
        let d = EntitySQLInfo { table, id_attr, sql_attr_names, attr_names, ancestor_attr_ind };
        if d.check_wf() {
            Some(d)
        } else {
            None
        }
    }

    /// A descriptor for a table keyed by a column `uid`, whose attributes are
    /// columns of the same names, with an optional inline ancestor column
    /// selected after them. `None` when two attributes share a name.
    pub fn simple(table: String, attrs: Vec<String>, ancestor_attr: Option<String>) -> (r: Option<
        EntitySQLInfo,
    >)
        ensures
            r matches Some(d) ==> d.wf() && d.table@ == table@ && d.id_attr@ == seq!['u', 'i', 'd']
                && d.attr_names@.len() == attrs@.len() && (forall|i: int|
                0 <= i < attrs@.len() ==> d.attr_names@[i].0@ == attrs@[i]@ && d.attr_names@[i].1 == i)
                && match ancestor_attr {
                None => d.ancestor_attr_ind is None && d.sql_attr_names@.map_values(|c: String| c@)
                    == attrs@.map_values(|c: String| c@),
                Some(a) => d.ancestor_attr_ind matches Some(k) && k == attrs@.len() && d.sql_attr_names@.map_values(
                    |c: String| c@,
                ) == attrs@.map_values(|c: String| c@).push(a@),
            },
            r is None <==> exists|i: int, j: int| 0 <= i < j < attrs@.len() && attrs@[i]@ == attrs@[j]@,
    {
        let mut sql_attr_names: Vec<String> = Vec::new();
        let mut attr_names: Vec<(String, usize)> = Vec::new();
        let mut i: usize = 0;
        while i < attrs.len()
            invariant
                i <= attrs@.len(),
                sql_attr_names@.len() == i,
                attr_names@.len() == i,
                forall|k: int|
                    0 <= k < i ==> attr_names@[k].0@ == attrs@[k]@ && attr_names@[k].1 == k
                        && sql_attr_names@[k]@ == attrs@[k]@,
            decreases attrs@.len() - i,
        {
            sql_attr_names.push(attrs[i].clone());
            attr_names.push((attrs[i].clone(), i));
            i = i + 1;
        }
        let n = attrs.len();
        let ancestor_attr_ind = match ancestor_attr {
            Some(a) => {
                sql_attr_names.push(a);
                Some(n)
            },
            None => None,
        };
        let id_col = String::from_str("uid");
        proof {
            reveal_strlit("uid");
            assert(id_col@ =~= seq!['u', 'i', 'd']);
            if ancestor_attr is Some {
                assert(sql_attr_names@.map_values(|c: String| c@) =~= attrs@.map_values(|c: String| c@).push(
                    ancestor_attr->0@,
                ));
            } else {
                assert(sql_attr_names@.map_values(|c: String| c@) =~= attrs@.map_values(|c: String| c@));
            }
        }
        let r = Self::new(table, id_col, sql_attr_names, attr_names, ancestor_attr_ind);
        proof {
            if r is None {
                assert(!distinct_names(attr_names@));
                let (a, b) = choose|a: int, b: int| 0 <= a < b < attr_names@.len() && attr_names@[a].0@ == attr_names@[b].0@;
                assert(attrs@[a]@ == attrs@[b]@);
            } else {
                assert forall|a: int, b: int| 0 <= a < b < attrs@.len() implies attrs@[a]@ != attrs@[b]@ by {
                    assert(attr_names@[a].0@ != attr_names@[b].0@);
                }
            }
        }
        r
    }
}

impl EntitySQLInfo {
    /// The entity `uid` from its fetched row, with ancestors resolved by
    /// the caller.
    pub fn make_entity(&self, uid: &Uid, row: Option<Vec<RawColumn>>, ancestors: Vec<Uid>) -> (r:
        Result<Option<ResolvedEntity>, DatabaseToCedarError>)
        ensures
            row is None ==> r == Ok::<Option<ResolvedEntity>, DatabaseToCedarError>(None),
            row matches Some(cols) ==> match project(cols@, self.attr_names@) {
                Err(e) => r == Err::<Option<ResolvedEntity>, DatabaseToCedarError>(e),
                Ok(w) => r matches Ok(Some(ent)) && ent.uid@ == uid@ && pairs_view(ent.attrs@) == w
                    && uid_set(ent.ancestors@) == uid_set(ancestors@),
            },
    {
        let ghost fetched = row;
        let r = Self::make_entity_from_table(
            uid,
            row,
            &self.attr_names,
            Vec::new(),
            AncestorSource::Given(ancestors),
        );
        proof {
            if fetched is Some {
                if let Ok(w) = project(fetched->0@, self.attr_names@) {
                    assert(w + pairs_view(Seq::<(String, AttrValue)>::empty()) =~= w);
                }
            }
        }
        r
    }

    /// The entity `uid` from its fetched row, with ancestors decoded from
    /// the row's inline ancestor column.
    pub fn make_entity_ancestors(&self, uid: &Uid, row: Option<Vec<RawColumn>>) -> (r: Result<
        Option<ResolvedEntity>,
        DatabaseToCedarError,
    >)
        requires
            self.ancestor_attr_ind is Some,
        ensures
            row is None ==> r == Ok::<Option<ResolvedEntity>, DatabaseToCedarError>(None),
            row matches Some(cols) ==> match project(cols@, self.attr_names@) {
                Err(e) => r == Err::<Option<ResolvedEntity>, DatabaseToCedarError>(e),
                Ok(w) => match inline_result(cols@, self.ancestor_attr_ind->0 as int) {
                    Err(e) => r == Err::<Option<ResolvedEntity>, DatabaseToCedarError>(e),
                    Ok(us) => r matches Ok(Some(ent)) && ent.uid@ == uid@ && pairs_view(ent.attrs@) == w
                        && ent.ancestors@.map_values(|u: Uid| u@) == us,
                },
            },
    {
        let k = match self.ancestor_attr_ind {
            Some(k) => k,
            None => {
                return Ok(None);
            },
        };
        let ghost fetched = row;
        let r = Self::make_entity_from_table(uid, row, &self.attr_names, Vec::new(), AncestorSource::Inline(k));
        proof {
            if fetched is Some {
                if let Ok(w) = project(fetched->0@, self.attr_names@) {
                    assert(w + pairs_view(Seq::<(String, AttrValue)>::empty()) =~= w);
                }
            }
        }
        r
    }

    /// The entity `uid` from its fetched row, with ancestors resolved by
    /// the caller and with `extra` attributes, computed by the caller from
    /// the row, added after the stored ones (and overriding them).
    pub fn make_entity_extra_attrs(
        &self,
        uid: &Uid,
        row: Option<Vec<RawColumn>>,
        ancestors: Vec<Uid>,
        extra: Vec<(String, AttrValue)>,
    ) -> (r: Result<Option<ResolvedEntity>, DatabaseToCedarError>)
        ensures
            row is None ==> r == Ok::<Option<ResolvedEntity>, DatabaseToCedarError>(None),
            row matches Some(cols) ==> match project(cols@, self.attr_names@) {
                Err(e) => r == Err::<Option<ResolvedEntity>, DatabaseToCedarError>(e),
                Ok(w) => r matches Ok(Some(ent)) && ent.uid@ == uid@ && pairs_view(ent.attrs@) == w
                    + pairs_view(extra@) && uid_set(ent.ancestors@) == uid_set(ancestors@),
            },
    {
        Self::make_entity_from_table(uid, row, &self.attr_names, extra, AncestorSource::Given(ancestors))
    }

    /// The column of attribute `attr` that a single-attribute query fetched:
    /// `UnknownAttr` when `attr` is not configured, whatever was fetched;
    /// `UnknownEntity` when no row matched.
    pub fn get_single_attr_as(&self, attr: &String, fetched: Option<RawColumn>) -> (r: Result<
        RawColumn,
        EntityAttrAccessError,
    >)
        ensures
            !configured(self.attr_names@, attr@) ==> r == Err::<RawColumn, EntityAttrAccessError>(
                EntityAttrAccessError::UnknownAttr,
            ),
            configured(self.attr_names@, attr@) ==> match fetched {
                None => r == Err::<RawColumn, EntityAttrAccessError>(
                    EntityAttrAccessError::UnknownEntity,
                ),
                Some(c) => r == Ok::<RawColumn, EntityAttrAccessError>(c),
            },
    {
        if self.attr_position(attr).is_none() {
            return Err(EntityAttrAccessError::UnknownAttr);
        }
        match fetched {
            None => Err(EntityAttrAccessError::UnknownEntity),
            Some(c) => Ok(c),
        }
    }

    /// Attribute `attr` of an entity, from the column that its single-attribute
    /// query fetched. A NULL column means the attribute is absent on this
    /// entity: a normal outcome, `Ok(None)`.
    pub fn get_single_attr(&self, attr: &String, fetched: Option<RawColumn>) -> (r: Result<
        Option<AttrValue>,
        EntityAttrAccessError,
    >)
        ensures
            !configured(self.attr_names@, attr@) ==> r == Err::<Option<AttrValue>, EntityAttrAccessError>(
                EntityAttrAccessError::UnknownAttr,
            ),
            configured(self.attr_names@, attr@) ==> match fetched {
                None => r == Err::<Option<AttrValue>, EntityAttrAccessError>(
                    EntityAttrAccessError::UnknownEntity,
                ),
                Some(c) => match decode_attr(c) {
                    Err(e) => r == Err::<Option<AttrValue>, EntityAttrAccessError>(
                        EntityAttrAccessError::Database(e),
                    ),
                    Ok(None) => r == Ok::<Option<AttrValue>, EntityAttrAccessError>(None),
                    Ok(Some(v)) => r matches Ok(Some(x)) && x@ == v,
                },
            },
    {
        let col = match self.get_single_attr_as(attr, fetched) {
            Ok(c) => c,
            Err(e) => {
                return Err(e);
            },
        };
        match SQLValue::column_result(&col) {
            Ok(SQLValue(v)) => Ok(v),
            Err(e) => Err(EntityAttrAccessError::Database(e)),
        }
    }

    /// Attribute `attr` of an entity read as the id of an entity of type
    /// `tp`, from the column that its single-attribute query fetched.
    pub fn get_single_attr_as_id(&self, attr: &String, fetched: Option<RawColumn>, tp: &String) -> (r:
        Result<Uid, EntityAttrAccessError>)
        ensures
            !configured(self.attr_names@, attr@) ==> r == Err::<Uid, EntityAttrAccessError>(
                EntityAttrAccessError::UnknownAttr,
            ),
            configured(self.attr_names@, attr@) ==> match fetched {
                None => r == Err::<Uid, EntityAttrAccessError>(EntityAttrAccessError::UnknownEntity),
                Some(c) => match decode_id(c) {
                    Err(e) => r == Err::<Uid, EntityAttrAccessError>(EntityAttrAccessError::Database(e)),
                    Ok(id) => r matches Ok(u) && u@ == (tp@, id),
                },
            },
    {
        let col = match self.get_single_attr_as(attr, fetched) {
            Ok(c) => c,
            Err(e) => {
                return Err(e);
            },
        };
        match EntitySQLId::column_result(&col) {
            Ok(id) => Ok(id.into_uid(tp)),
            Err(e) => Err(EntityAttrAccessError::Database(e)),
        }
    }

    /// Whether the existence query found a row.
    pub fn exists_entity(&self, found: Option<Vec<RawColumn>>) -> (r: bool)
        ensures
            r == found is Some,
    {
        found.is_some()
    }
}

proof fn lemma_project_err_prefix(row: Seq<RawColumn>, names: Seq<(String, usize)>, k: int)
    requires
        0 <= k <= names.len(),
        project(row, names.subrange(0, k)) is Err,
    ensures
        project(row, names) == project(row, names.subrange(0, k)),
    decreases names.len() - k,
{
    if k == names.len() {
        assert(names.subrange(0, k) =~= names);
    } else {
        assert(names.subrange(0, k + 1).drop_last() =~= names.subrange(0, k));
        lemma_project_err_prefix(row, names, k + 1);
    }
}

} // verus!
