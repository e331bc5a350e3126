//! Ancestor resolution: inline JSON columns and separate relation tables.
use vstd::prelude::*;
use crate::entity::uid_set;
use crate::query::{select_columns, select_one, select_view, SelectItem, SqlQuery};
use crate::value::{decode_id, utf8_decode, DatabaseToCedarError, EntitySQLId, RawColumn, Uid, UidView};

verus! {

/// How a relation table stores the parents of entities: one row per
/// (child, parent) pair.
pub struct AncestorSQLInfo {
    pub table: String,
    pub child_id: String,
    pub parent_id: String,
}

/// The ancestors decoded from the parent column of the rows that the
/// all-parents query returned: each id paired with `tp`, or the first decode
/// failure.
pub open spec fn ancestors_of_rows(rows: Seq<RawColumn>, tp: Seq<char>) -> Result<
    Set<UidView>,
    DatabaseToCedarError,
> {
    if forall|i: int| 0 <= i < rows.len() ==> decode_id(rows[i]) is Ok {
        Ok(Set::new(|u: UidView| exists|i: int| 0 <= i < rows.len() && u == (tp, decode_id(rows[i])->Ok_0)))
    } else {
        Err(DatabaseToCedarError::InvalidType)
    }
}

/// The parent ids that a relation table holds for `child`, in row order.
pub open spec fn parents_of(rel: Seq<(Seq<char>, Seq<char>)>, child: Seq<char>) -> Seq<Seq<char>> {
    rel.filter(child_is(child)).map_values(|r: (Seq<char>, Seq<char>)| r.1)
}

/// Whether a relation row has `child` as its child.
pub open spec fn child_is(child: Seq<char>) -> spec_fn((Seq<char>, Seq<char>)) -> bool {
    |r: (Seq<char>, Seq<char>)| r.0 == child
}

/// Whether a relation table holds the pair (`child`, `parent`).
pub open spec fn has_pair(rel: Seq<(Seq<char>, Seq<char>)>, child: Seq<char>, parent: Seq<char>) -> bool {
    rel.contains((child, parent))
}

impl AncestorSQLInfo {
    /// The query selecting the parent column of every row of `id`.
    pub fn query_all_parents(&self, id: &String) -> (r: SqlQuery)
        ensures
            r.is_query_for(
                select_view(self.table@, seq![SelectItem::Column(self.parent_id@)], seq![(self.child_id@, id@)]),
            ),
    {
        let cols = vec![self.parent_id.clone()];
        let filters = vec![(self.child_id.clone(), id.clone())];
        let r = select_columns(&self.table, &cols, &filters);
        assert(crate::query::projection(cols@) =~= seq![SelectItem::Column(self.parent_id@)]);
        assert(filters@.map_values(|f: (String, String)| (f.0@, f.1@)) =~= seq![(self.child_id@, id@)]);
        r
    }

    /// The query checking that the relation holds (`child_id`, `parent_id`),
    /// projecting no column.
    pub fn query_is_parent(&self, child_id: &String, parent_id: &String) -> (r: SqlQuery)
        ensures
            r.is_query_for(
                select_view(
                    self.table@,
                    seq![SelectItem::One],
                    seq![(self.child_id@, child_id@), (self.parent_id@, parent_id@)],
                ),
            ),
    {
        let filters = vec![
            (self.child_id.clone(), child_id.clone()),
            (self.parent_id.clone(), parent_id.clone()),
        ];
        let r = select_one(&self.table, &filters);
        assert(filters@.map_values(|f: (String, String)| (f.0@, f.1@)) =~= seq![
            (self.child_id@, child_id@),
            (self.parent_id@, parent_id@),
        ]);
        r
    }

    /// The ancestors of an entity from the parent columns that its
    /// all-parents query returned, each paired with the type `tp`.
    pub fn get_ancestors(&self, rows: &Vec<RawColumn>, tp: &String) -> (r: Result<
        Vec<Uid>,
        DatabaseToCedarError,
    >)
        ensures
            match (r, ancestors_of_rows(rows@, tp@)) {
                (Ok(v), Ok(s)) => uid_set(v@) == s,
                (Err(e), Err(f)) => e == f,
                _ => false,
            },
    {
        let mut out: Vec<Uid> = Vec::new();
        let mut i: usize = 0;
        while i < rows.len()
            invariant
                i <= rows@.len(),
                out@.len() == i,
                forall|k: int| 0 <= k < i ==> decode_id(rows@[k]) is Ok,
                forall|k: int| 0 <= k < i ==> out@[k]@ == (tp@, decode_id(rows@[k])->Ok_0),
            decreases rows@.len() - i,
        {
            match EntitySQLId::column_result(&rows[i]) {
                Ok(id) => {
                    out.push(id.into_uid(tp));
                },
                Err(e) => {
                    return Err(e);
                },
            }
            i = i + 1;
        }
        let ghost s = ancestors_of_rows(rows@, tp@)->Ok_0;
        assert forall|u: UidView| uid_set(out@).contains(u) <==> s.contains(u) by {
            if uid_set(out@).contains(u) {
                let vs = out@.map_values(|x: Uid| x@);
                let j = choose|j: int| 0 <= j < vs.len() && #[trigger] vs[j] == u;
                assert(0 <= j < rows@.len() && u == (tp@, decode_id(rows@[j])->Ok_0));
            }
            if s.contains(u) {
                let j = choose|j: int| 0 <= j < rows@.len() && u == (tp@, decode_id(rows@[j])->Ok_0);
                assert(out@.map_values(|x: Uid| x@)[j] == u);
            }
        }
        assert(uid_set(out@) =~= s);
        Ok(out)
    }

    /// Whether the is-parent query found a row.
    pub fn is_ancestor(&self, found: Option<Vec<RawColumn>>) -> (r: bool)
        ensures
            r == found is Some,
    {
        found.is_some()
    }
}

/// Over one relation table, the point check agrees with the full ancestor
/// set: when the all-parents query returns the parent ids of `child` (as
/// columns decoding to them) and the is-parent query finds a row exactly when
/// the table holds the pair, `is_ancestor` answers true exactly when
/// `get_ancestors` holds (`tp`, `parent`).
pub proof fn lemma_is_ancestor_iff_member(
    rel: Seq<(Seq<char>, Seq<char>)>,
    child: Seq<char>,
    parent: Seq<char>,
    tp: Seq<char>,
    rows: Seq<RawColumn>,
)
    requires
        rows.len() == parents_of(rel, child).len(),
        forall|i: int| 0 <= i < rows.len() ==> decode_id(rows[i]) == Ok::<Seq<char>, DatabaseToCedarError>(parents_of(rel, child)[i]),
    ensures
        ancestors_of_rows(rows, tp) is Ok,
        ancestors_of_rows(rows, tp)->Ok_0.contains((tp, parent)) <==> has_pair(rel, child, parent),
{
    let f = child_is(child);
    let filtered = rel.filter(f);
    let s = ancestors_of_rows(rows, tp)->Ok_0;
    if s.contains((tp, parent)) {
        let i = choose|i: int| 0 <= i < rows.len() && (tp, parent) == (tp, decode_id(rows[i])->Ok_0);
        rel.lemma_filter_pred(f, i);
        assert(filtered.contains(filtered[i]));
        rel.lemma_filter_contains_rev(f, filtered[i]);
        assert(filtered[i] == (child, parent));
    }
    if has_pair(rel, child, parent) {
        let j = choose|j: int| 0 <= j < rel.len() && rel[j] == (child, parent);
        rel.lemma_filter_contains(f, j);
        let i = choose|i: int| 0 <= i < filtered.len() && filtered[i] == (child, parent);
        assert(decode_id(rows[i]) == Ok::<Seq<char>, DatabaseToCedarError>(parent));
        assert(s.contains((tp, parent)));
    }
}

/// Whether one of the rows decodes to the id of `u`, and `u` has type `tp`.
pub open spec fn parent_in_rows(u: UidView, rows: Seq<RawColumn>, tp: Seq<char>) -> bool {
    exists|i: int| 0 <= i < rows.len() && u == (tp, decode_id(rows[i])->Ok_0)
}

/// The two ancestor strategies agree: when an inline JSON list of uids and
/// the relation-table rows of an entity name the same parents of type `tp`
/// (as sets: order and repetition do not matter), both give the same
/// ancestor set.
pub proof fn lemma_strategies_agree(text: Seq<char>, rows: Seq<RawColumn>, tp: Seq<char>)
    requires
        inline_uids(text) is Some,
        forall|i: int| 0 <= i < rows.len() ==> decode_id(#[trigger] rows[i]) is Ok,
        forall|j: int|
            0 <= j < inline_uids(text)->0.len() ==> parent_in_rows(#[trigger] inline_uids(text)->0[j], rows, tp),
        forall|i: int|
            0 <= i < rows.len() ==> inline_uids(text)->0.contains((tp, decode_id(#[trigger] rows[i])->Ok_0)),
    ensures
        ancestors_of_rows(rows, tp) == Ok::<Set<UidView>, DatabaseToCedarError>(inline_uids(text)->0.to_set()),
{
    let us = inline_uids(text)->0;
    let s = Set::new(|u: UidView| exists|i: int| 0 <= i < rows.len() && u == (tp, decode_id(rows[i])->Ok_0));
    assert(ancestors_of_rows(rows, tp) == Ok::<Set<UidView>, DatabaseToCedarError>(s));
    assert forall|u: UidView| s.contains(u) <==> us.to_set().contains(u) by {
        if us.to_set().contains(u) {
            assert(us.contains(u));
            let j = choose|j: int| 0 <= j < us.len() && us[j] == u;
            assert(parent_in_rows(us[j], rows, tp));
        }
        if s.contains(u) {
            let i = choose|i: int| 0 <= i < rows.len() && u == (tp, decode_id(rows[i])->Ok_0);
            assert(us.contains((tp, decode_id(rows[i])->Ok_0)));
        }
    }
    assert(s =~= us.to_set());
}

/// The items of a JSON array, each written back as JSON text; `None` when
/// the text is not one JSON array.
pub uninterp spec fn json_items(text: Seq<char>) -> Option<Seq<Seq<char>>>;

/// The uid that Cedar reads from a JSON text (its entity type and id), or
/// `None` when the text is no uid in either of Cedar's JSON forms.
pub uninterp spec fn cedar_uid_of_json(item: Seq<char>) -> Option<UidView>;

/// Relies on `serde_json::from_str` into a `Vec<serde_json::Value>`, each
/// item written back with `Value`'s `Display`: the result is a function of
/// the text.
#[verifier::external_body]
fn json_array_items(text: &String) -> (r: Option<Vec<String>>)
    ensures
        r is None <==> json_items(text@) is None,
        r matches Some(v) ==> v@.map_values(|x: String| x@) == json_items(text@)->0,
{
    serde_json::from_str::<Vec<serde_json::Value>>(text.as_str())
        .ok()
        .map(|v| v.iter().map(|x| x.to_string()).collect())
}

/// Relies on `cedar_policy::EntityUid::from_json` (after reading the item
/// text as a `serde_json::Value`): the entity type's name and the unescaped
/// id of the uid it accepts. The result is a function of the text.
#[verifier::external_body]
fn uid_from_json(item: &String) -> (r: Option<Uid>)
    ensures
        r is None <==> cedar_uid_of_json(item@) is None,
        r matches Some(u) ==> cedar_uid_of_json(item@) == Some(u@),
{
    let v: serde_json::Value = serde_json::from_str(item.as_str()).ok()?;
    let u = cedar_policy::EntityUid::from_json(v).ok()?;
    let inner = u.as_ref();
    let id: &str = inner.eid().as_ref();
    Some(Uid { entity_type: inner.entity_type().to_string(), id: id.to_string() })
}

/// The uids of a list of JSON items, or `None` if one of them is no uid.
pub open spec fn uids_of_items(items: Seq<Seq<char>>) -> Option<Seq<UidView>> {
    if forall|i: int| 0 <= i < items.len() ==> cedar_uid_of_json(items[i]) is Some {
        Some(Seq::new(items.len(), |i: int| cedar_uid_of_json(items[i])->0))
    } else {
        None
    }
}

/// The uids of a list of JSON items, failing on the first item that is no
/// uid.
pub fn collect_ancestor_uids(items: &Vec<String>) -> (r: Result<Vec<Uid>, DatabaseToCedarError>)
    ensures
        match uids_of_items(items@.map_values(|x: String| x@)) {
            Some(us) => r matches Ok(v) && v@.map_values(|u: Uid| u@) == us,
            None => r == Err::<Vec<Uid>, DatabaseToCedarError>(DatabaseToCedarError::InvalidAncestors),
        },
{
    let ghost views = items@.map_values(|x: String| x@);
    let mut out: Vec<Uid> = Vec::new();
    let mut i: usize = 0;
    while i < items.len()
        invariant
            i <= items@.len(),
            views == items@.map_values(|x: String| x@),
            out@.len() == i,
            forall|k: int| 0 <= k < i ==> cedar_uid_of_json(views[k]) == Some(out@[k]@),
        decreases items@.len() - i,
    {
        match uid_from_json(&items[i]) {
            None => {
                assert(cedar_uid_of_json(views[i as int]) is None);
                return Err(DatabaseToCedarError::InvalidAncestors);
            },
            Some(u) => {
                out.push(u);
            },
        }
        i = i + 1;
    }
    assert(out@.map_values(|u: Uid| u@) =~= Seq::new(views.len(), |k: int| cedar_uid_of_json(views[k])->0));
    Ok(out)
}

/// The text of column `k` read as a string, if it is well-formed text.
pub open spec fn column_text(row: Seq<RawColumn>, k: int) -> Option<Seq<char>> {
    if 0 <= k < row.len() {
        match row[k] {
            RawColumn::Text(b) => utf8_decode(b@),
            _ => None,
        }
    } else {
        None
    }
}

/// The ancestors written in an inline column text, if it is a JSON array
/// of uid objects.
pub open spec fn inline_uids(text: Seq<char>) -> Option<Seq<UidView>> {
    match json_items(text) {
        Some(items) => uids_of_items(items),
        None => None,
    }
}

/// What decoding the inline ancestor column `k` of a row gives.
pub open spec fn inline_result(row: Seq<RawColumn>, k: int) -> Result<Seq<UidView>, DatabaseToCedarError> {
    if !(0 <= k < row.len()) {
        Err(DatabaseToCedarError::InvalidColumnIndex)
    } else {
        match column_text(row, k) {
            None => Err(DatabaseToCedarError::InvalidType),
            Some(t) => match inline_uids(t) {
                Some(us) => Ok(us),
                None => Err(DatabaseToCedarError::InvalidAncestors),
            },
        }
    }
}

/// The ancestors stored inline in column `k` of a row, as a JSON array of
/// uids. The column must hold text, and the text such an array.
pub fn inline_ancestors(row: &Vec<RawColumn>, k: usize) -> (r: Result<Vec<Uid>, DatabaseToCedarError>)
    ensures
        match (r, inline_result(row@, k as int)) {
            (Ok(v), Ok(us)) => v@.map_values(|u: Uid| u@) == us,
            (Err(e), Err(f)) => e == f,
            _ => false,
        },
{
    if k >= row.len() {
        return Err(DatabaseToCedarError::InvalidColumnIndex);
    }
    let text = match &row[k] {
        RawColumn::Text(b) => match crate::value::utf8_text(b) {
            Some(s) => s,
            None => {
                return Err(DatabaseToCedarError::InvalidType);
            },
        },
        _ => {
            return Err(DatabaseToCedarError::InvalidType);
        },
    };
    match json_array_items(&text) {
        Some(items) => collect_ancestor_uids(&items),
        None => Err(DatabaseToCedarError::InvalidAncestors),
    }
}

} // verus!
