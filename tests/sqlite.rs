use cedar_db::fetch_table::{AncestorStrategy, EntityFetchTable, EntityResolver, ResolveStep};
use cedar_db::ancestor::AncestorSQLInfo;
use cedar_db::entity::EntitySQLInfo;
use cedar_db::value::{
    AttrValue, DatabaseToCedarError, EntityAttrAccessError, EntitySQLId, RawColumn, SQLValue, Uid,
};

fn s(x: &str) -> String {
    x.to_string()
}

fn text(x: &str) -> RawColumn {
    RawColumn::Text(x.as_bytes().to_vec())
}

fn uid(t: &str, i: &str) -> Uid {
    Uid { entity_type: s(t), id: s(i) }
}

fn uid_pairs(v: &[Uid]) -> std::collections::BTreeSet<(String, String)> {
    v.iter().map(|u| (u.entity_type.clone(), u.id.clone())).collect()
}

fn users() -> EntitySQLInfo {
    EntitySQLInfo::simple(s("users"), vec![s("name"), s("age")], None).unwrap()
}

fn photo_owners() -> AncestorSQLInfo {
    AncestorSQLInfo { table: s("photo_owners"), child_id: s("child"), parent_id: s("parent") }
}

fn attr<'a>(attrs: &'a [(String, AttrValue)], name: &str) -> Option<&'a AttrValue> {
    attrs.iter().rev().find(|(n, _)| n == name).map(|(_, v)| v)
}

#[test]
fn users_row_resolves_to_name_and_age() {
    let info = users();
    let row = vec![text("Alice"), RawColumn::Integer(30)];
    let ent = info.make_entity(&uid("Users", "0"), Some(row), vec![]).unwrap().unwrap();
    assert_eq!((ent.uid.entity_type.as_str(), ent.uid.id.as_str()), ("Users", "0"));
    assert_eq!(ent.attrs.len(), 2);
    assert!(matches!(attr(&ent.attrs, "name"), Some(AttrValue::Str(x)) if x == "Alice"));
    assert!(matches!(attr(&ent.attrs, "age"), Some(AttrValue::Long(30))));
    assert!(ent.ancestors.is_empty());
}

#[test]
fn users_fetch_query_text() {
    let q = users().get_select(&s("0"));
    assert_eq!(q.text, r#"SELECT "name", "age" FROM "users" WHERE "uid" = ?"#);
    assert_eq!(q.params, vec![s("0")]);
}

#[test]
fn empty_attribute_list_selects_every_column() {
    let info = EntitySQLInfo::simple(s("things"), vec![], None).unwrap();
    let q = info.get_select(&s("7"));
    assert_eq!(q.text, r#"SELECT * FROM "things" WHERE "uid" = ?"#);
    assert_eq!(q.params, vec![s("7")]);
}

#[test]
fn query_values_are_bound_not_written() {
    let q = users().get_select(&s("a'b"));
    assert_eq!(q.text, r#"SELECT "name", "age" FROM "users" WHERE "uid" = ?"#);
    assert_eq!(q.params, vec![s("a'b")]);
}

#[test]
fn exists_query_projects_no_column() {
    let info = users();
    let q = info.get_exists_select(&s("0"));
    assert_eq!(q.text, r#"SELECT 1 FROM "users" WHERE "uid" = ?"#);
    assert_eq!(q.params, vec![s("0")]);
    assert!(info.exists_entity(Some(vec![RawColumn::Integer(1)])));
    assert!(!info.exists_entity(None));
}

#[test]
fn null_column_leaves_attribute_absent() {
    let info = users();
    let row = vec![RawColumn::Null, RawColumn::Integer(41)];
    let ent = info.make_entity(&uid("Users", "1"), Some(row), vec![]).unwrap().unwrap();
    assert_eq!(ent.attrs.len(), 1);
    assert!(attr(&ent.attrs, "name").is_none());
    assert!(matches!(attr(&ent.attrs, "age"), Some(AttrValue::Long(41))));
}

#[test]
fn missing_row_is_not_found() {
    let info = users();
    assert!(matches!(info.make_entity(&uid("Users", "9"), None, vec![]), Ok(None)));
}

#[test]
fn real_column_is_a_decode_error() {
    let info = users();
    let row = vec![text("Alice"), RawColumn::Real];
    let r = info.make_entity(&uid("Users", "0"), Some(row), vec![]);
    assert!(matches!(r, Err(DatabaseToCedarError::InvalidType)));
}

#[test]
fn blob_and_malformed_text_are_decode_errors() {
    assert!(matches!(
        SQLValue::column_result(&RawColumn::Blob(vec![1, 2])),
        Err(DatabaseToCedarError::InvalidType)
    ));
    assert!(matches!(
        SQLValue::column_result(&RawColumn::Text(vec![0xff, 0xfe])),
        Err(DatabaseToCedarError::InvalidType)
    ));
    assert!(matches!(SQLValue::column_result(&RawColumn::Null), Ok(SQLValue(None))));
}

#[test]
fn short_row_is_a_column_index_error() {
    let info = users();
    let r = info.make_entity(&uid("Users", "0"), Some(vec![text("Alice")]), vec![]);
    assert!(matches!(r, Err(DatabaseToCedarError::InvalidColumnIndex)));
}

#[test]
fn text_column_decodes_to_its_characters() {
    let r = SQLValue::column_result(&text("héllo")).unwrap();
    assert!(matches!(r, SQLValue(Some(AttrValue::Str(x))) if x == "héllo"));
}

#[test]
fn integer_id_is_written_in_decimal() {
    let id = EntitySQLId::column_result(&RawColumn::Integer(-42)).unwrap();
    assert_eq!(id.0, "-42");
    let id = EntitySQLId::column_result(&text("20")).unwrap();
    assert_eq!(id.0, "20");
    assert!(matches!(
        EntitySQLId::column_result(&RawColumn::Null),
        Err(DatabaseToCedarError::InvalidType)
    ));
}

#[test]
fn unknown_attribute_fails_whether_or_not_the_row_exists() {
    let info = users();
    assert!(info.get_single_attr_select(&s("0"), &s("email")).is_none());
    assert!(matches!(
        info.get_single_attr(&s("email"), Some(text("x"))),
        Err(EntityAttrAccessError::UnknownAttr)
    ));
    assert!(matches!(info.get_single_attr(&s("email"), None), Err(EntityAttrAccessError::UnknownAttr)));
}

#[test]
fn configured_attribute_on_missing_entity_is_unknown_entity() {
    let info = users();
    assert!(matches!(info.get_single_attr(&s("name"), None), Err(EntityAttrAccessError::UnknownEntity)));
}

#[test]
fn single_attribute_lookup() {
    let info = users();
    let q = info.get_single_attr_select(&s("0"), &s("age")).unwrap();
    assert_eq!(q.text, r#"SELECT "age" FROM "users" WHERE "uid" = ?"#);
    assert_eq!(q.params, vec![s("0")]);
    assert!(matches!(info.get_single_attr(&s("age"), Some(RawColumn::Integer(30))), Ok(Some(AttrValue::Long(30)))));
    assert!(matches!(info.get_single_attr(&s("age"), Some(RawColumn::Null)), Ok(None)));
    assert!(matches!(
        info.get_single_attr(&s("age"), Some(RawColumn::Real)),
        Err(EntityAttrAccessError::Database(DatabaseToCedarError::InvalidType))
    ));
}

#[test]
fn single_attribute_as_reference() {
    let info = EntitySQLInfo::simple(s("photos"), vec![s("title"), s("owner")], None).unwrap();
    let u = info.get_single_attr_as_id(&s("owner"), Some(RawColumn::Integer(0)), &s("Users")).unwrap();
    assert_eq!((u.entity_type.as_str(), u.id.as_str()), ("Users", "0"));
}

#[test]
fn photo_owner_ancestors() {
    let rel = photo_owners();
    let q = rel.query_all_parents(&s("20"));
    assert_eq!(q.text, r#"SELECT "parent" FROM "photo_owners" WHERE "child" = ?"#);
    assert_eq!(q.params, vec![s("20")]);
    let ancs = rel.get_ancestors(&vec![text("0")], &s("Users")).unwrap();
    assert_eq!(uid_pairs(&ancs), [(s("Users"), s("0"))].into_iter().collect());
    let q = rel.query_is_parent(&s("20"), &s("0"));
    assert_eq!(q.text, r#"SELECT 1 FROM "photo_owners" WHERE "child" = ? AND "parent" = ?"#);
    assert_eq!(q.params, vec![s("20"), s("0")]);
    assert!(rel.is_ancestor(Some(vec![RawColumn::Integer(1)])));
    assert!(!rel.is_ancestor(None));
}

#[test]
fn ancestor_rows_that_do_not_decode_fail() {
    let rel = photo_owners();
    assert!(matches!(
        rel.get_ancestors(&vec![text("0"), RawColumn::Real], &s("Users")),
        Err(DatabaseToCedarError::InvalidType)
    ));
}

#[test]
fn point_check_agrees_with_ancestor_set() {
    let rel = photo_owners();
    let table = [("20", "0"), ("20", "5"), ("21", "0")];
    let rows: Vec<RawColumn> = table.iter().filter(|r| r.0 == "20").map(|r| text(r.1)).collect();
    let set = uid_pairs(&rel.get_ancestors(&rows, &s("Users")).unwrap());
    for p in ["0", "5", "99"] {
        let found = table.iter().any(|r| r.0 == "20" && r.1 == p);
        let answer = rel.is_ancestor(if found { Some(vec![RawColumn::Integer(1)]) } else { None });
        assert_eq!(answer, set.contains(&(s("Users"), s(p))));
    }
}

fn uid_json(t: &str, i: &str) -> serde_json::Value {
    let mut m = serde_json::Map::new();
    m.insert(s("type"), serde_json::Value::String(s(t)));
    m.insert(s("id"), serde_json::Value::String(s(i)));
    serde_json::Value::Object(m)
}

#[test]
fn inline_and_relation_strategies_agree() {
    let inline = EntitySQLInfo::simple(s("photos"), vec![s("title")], Some(s("owners"))).unwrap();
    let json = serde_json::Value::Array(vec![uid_json("Users", "0"), uid_json("Users", "3")]).to_string();
    let row = vec![text("Beach"), text(&json)];
    let a = inline.make_entity_ancestors(&uid("Photos", "20"), Some(row)).unwrap().unwrap();
    let rel = photo_owners();
    let b = rel.get_ancestors(&vec![text("3"), RawColumn::Integer(0)], &s("Users")).unwrap();
    assert_eq!(uid_pairs(&a.ancestors), uid_pairs(&b));
}

#[test]
fn inline_ancestor_round_trip() {
    let set = [uid("Users", "0"), uid("Groups", "admins"), uid("Users", "q\"uote")];
    let json = serde_json::Value::Array(set.iter().map(|u| uid_json(&u.entity_type, &u.id)).collect()).to_string();
    let info = EntitySQLInfo::simple(s("photos"), vec![], Some(s("owners"))).unwrap();
    let ent = info.make_entity_ancestors(&uid("Photos", "1"), Some(vec![text(&json)])).unwrap().unwrap();
    assert_eq!(uid_pairs(&ent.ancestors), uid_pairs(&set));
}

#[test]
fn inline_column_that_is_no_uid_array_fails() {
    let info = EntitySQLInfo::simple(s("photos"), vec![], Some(s("owners"))).unwrap();
    let bad = [r#"{"type":"Users","id":"0"}"#, r#"[{"type":"Users"}]"#, "not json"];
    for b in bad {
        assert!(matches!(
            info.make_entity_ancestors(&uid("Photos", "1"), Some(vec![text(b)])),
            Err(DatabaseToCedarError::InvalidAncestors)
        ));
    }
    assert!(matches!(
        info.make_entity_ancestors(&uid("Photos", "1"), Some(vec![RawColumn::Integer(3)])),
        Err(DatabaseToCedarError::InvalidType)
    ));
}

#[test]
fn extra_attributes_override_stored_ones() {
    let info = users();
    let row = vec![text("Alice"), RawColumn::Integer(30)];
    let extra = vec![(s("age"), AttrValue::Long(31)), (s("owner"), AttrValue::Entity(uid("Users", "2")))];
    let ent = info.make_entity_extra_attrs(&uid("Users", "0"), Some(row), vec![uid("Groups", "g")], extra).unwrap().unwrap();
    assert!(matches!(attr(&ent.attrs, "age"), Some(AttrValue::Long(31))));
    assert!(matches!(attr(&ent.attrs, "owner"), Some(AttrValue::Entity(u)) if u.id == "2"));
    assert_eq!(uid_pairs(&ent.ancestors), [(s("Groups"), s("g"))].into_iter().collect());
}

#[test]
fn inconsistent_descriptors_are_refused() {
    assert!(EntitySQLInfo::simple(s("t"), vec![s("a"), s("a")], None).is_none());
    assert!(EntitySQLInfo::new(s("t"), s("id"), vec![s("a")], vec![(s("a"), 1)], None).is_none());
    assert!(EntitySQLInfo::new(s("t"), s("id"), vec![s("a")], vec![(s("a"), 0)], Some(1)).is_none());
    assert!(EntitySQLInfo::new(s("t"), s("id"), vec![s("a"), s("b")], vec![(s("a"), 0)], Some(1)).is_some());
}

#[test]
fn inline_ancestors_accept_both_cedar_uid_forms() {
    let info = EntitySQLInfo::simple(s("photos"), vec![], Some(s("owners"))).unwrap();
    let json = r#"[{"__entity":{"type":"Org::Groups","id":"g1"}},{"type":"Users","id":"0"}]"#;
    let ent = info.make_entity_ancestors(&uid("Photos", "1"), Some(vec![text(json)])).unwrap().unwrap();
    assert_eq!(
        uid_pairs(&ent.ancestors),
        [(s("Org::Groups"), s("g1")), (s("Users"), s("0"))].into_iter().collect()
    );
}

#[test]
fn inline_ancestor_with_invalid_type_name_fails() {
    let info = EntitySQLInfo::simple(s("photos"), vec![], Some(s("owners"))).unwrap();
    let json = r#"[{"type":"not a name","id":"0"}]"#;
    assert!(matches!(
        info.make_entity_ancestors(&uid("Photos", "1"), Some(vec![text(json)])),
        Err(DatabaseToCedarError::InvalidAncestors)
    ));
}

#[test]
fn simple_descriptor_layout() {
    let info = EntitySQLInfo::simple(s("photos"), vec![s("title"), s("location")], Some(s("owners"))).unwrap();
    assert_eq!(info.id_attr, "uid");
    assert_eq!(info.sql_attr_names, vec![s("title"), s("location"), s("owners")]);
    assert_eq!(info.attr_names, vec![(s("title"), 0), (s("location"), 1)]);
    assert_eq!(info.ancestor_attr_ind, Some(2));
}

#[test]
fn resolver_strategy_follows_configuration() {
    let relation = EntityResolver {
        entity_type: s("Photos"),
        info: EntitySQLInfo::simple(s("photos"), vec![s("title")], Some(s("owners"))).unwrap(),
        ancestors: Some(photo_owners()),
        parent_type: s("Users"),
    };
    assert!(matches!(relation.ancestor_strategy(), AncestorStrategy::Relation(r, t) if r.table == "photo_owners" && t == "Users"));
    let inline = EntityResolver { ancestors: None, ..relation };
    assert!(matches!(inline.ancestor_strategy(), AncestorStrategy::Inline(1)));
    let plain = EntityResolver { info: users(), ..inline };
    assert!(matches!(plain.ancestor_strategy(), AncestorStrategy::NoAncestors));
}

#[test]
fn integer_text_matches_std_formatting() {
    for x in [0i64, 7, 10, 99, 100, -1, -10, 1234567890, i64::MAX, i64::MIN] {
        assert_eq!(cedar_db::value::integer_text(x), x.to_string());
    }
}

fn fetch_table() -> EntityFetchTable {
    let mut table = EntityFetchTable::new();
    assert!(table.insert(EntityResolver {
        entity_type: s("Users"),
        info: users(),
        ancestors: None,
        parent_type: String::new(),
    }));
    assert!(table.insert(EntityResolver {
        entity_type: s("Photos"),
        info: EntitySQLInfo::simple(s("photos"), vec![s("title"), s("location")], None).unwrap(),
        ancestors: Some(photo_owners()),
        parent_type: s("Users"),
    }));
    table
}

#[test]
fn fetch_table_resolves_through_its_steps() {
    let table = fetch_table();
    assert!(table.entity_query(&uid("Groups", "1")).is_none());
    let (i, q) = table.entity_query(&uid("Photos", "20")).unwrap();
    assert_eq!(q.text, r#"SELECT "title", "location" FROM "photos" WHERE "uid" = ?"#);
    assert!(matches!(table.after_entity_row(i, &uid("Photos", "20"), None), ResolveStep::Finished(Ok(None))));
    let row = vec![text("Beach photo"), text("Hawaii")];
    let parents_query = match table.after_entity_row(i, &uid("Photos", "20"), Some(row.clone())) {
        ResolveStep::FetchParents(q) => q,
        ResolveStep::Finished(_) => panic!("expected a parents query"),
    };
    assert_eq!(parents_query.params, vec![s("20")]);
    let ent = table.after_parent_rows(i, &uid("Photos", "20"), row, &vec![text("0")]).unwrap().unwrap();
    assert!(matches!(attr(&ent.attrs, "title"), Some(AttrValue::Str(x)) if x == "Beach photo"));
    assert_eq!(uid_pairs(&ent.ancestors), [(s("Users"), s("0"))].into_iter().collect());
}

#[test]
fn fetch_table_finishes_types_without_relation() {
    let mut table = fetch_table();
    let (i, _) = table.entity_query(&uid("Users", "0")).unwrap();
    let step = table.after_entity_row(i, &uid("Users", "0"), Some(vec![text("Alice"), RawColumn::Integer(30)]));
    match step {
        ResolveStep::Finished(Ok(Some(ent))) => {
            assert!(matches!(attr(&ent.attrs, "age"), Some(AttrValue::Long(30))));
            assert!(ent.ancestors.is_empty());
        }
        _ => panic!("expected a resolved entity"),
    }
    assert!(!table.insert(EntityResolver {
        entity_type: s("Users"),
        info: users(),
        ancestors: None,
        parent_type: String::new(),
    }));
}
