use surreal_use::data::{PatchOp, SetField, UpdateData};
use surreal_use::value::{
    Cond, Dir, Duration, Edges, Field, Id, Object, Operator, Output, SurrrealTable, Table, Thing,
    Value,
};

#[test]
fn origin_set() {
    let d = UpdateData::set().push(SetField::new("name".into(), Some(Operator::Equal), "Matt".into()));
    assert_eq!(d.to_string().as_str(), "SET name = 'Matt'");
}

#[test]
fn none() {
    let none = Value::Nothing;
    assert_eq!(none.to_string().as_str(), "NONE");
}

#[test]
fn null() {
    let null = Value::Null;
    assert_eq!(null.to_string().as_str(), "NULL");
}

#[test]
fn number() {
    let number = Value::Number(16);
    assert_eq!(number.to_string().as_str(), "16");
}

#[test]
fn bool() {
    let bool = Value::Bool(true);
    assert_eq!(bool.to_string().as_str(), "true");
}

#[test]
fn strand() {
    let strand1 = Value::Strand(String::from("surreal"));
    let strand2 = Value::Strand(String::from("surreal:use"));
    assert_eq!(strand1.to_string().as_str(), "'surreal'");
    assert_eq!(strand2.to_string().as_str(), "s'surreal:use'");
}

#[test]
fn duration() {
    let duration = Value::Duration(Duration::new(7711, 1));
    assert_eq!(duration.to_string().as_str(), "2h8m31s1ns");
}

#[test]
fn array() {
    let arr = Value::Array(vec![17.into(), "jhell".into()]);
    assert_eq!(arr.to_string().as_str(), "[17, 'jhell']");
}

#[test]
fn object() {
    let object = Value::Object(Object::new().insert("a", 1.into()).insert("b", "2".into()));
    assert_eq!(object.to_string().as_str(), "{ a: 1, b: '2' }");
}

#[test]
fn table() {
    let table = Value::Table(Table("user".to_string()));
    assert_eq!(table.to_string().as_str(), "user");
}

#[test]
fn thing() {
    let thing = Value::Thing(Thing {
        tb: "surreal".to_string(),
        id: "use".into(),
    });
    assert_eq!(thing.to_string().as_str(), "surreal:use")
}

#[test]
fn field_value() {
    let sf = SetField::default().field("name".into()).value("Matt".into());
    assert_eq!(sf.to_string().as_str(), "name = 'Matt'");
}

#[test]
fn new() {
    let sf = SetField::new("name".into(), None, "Matt".into());
    assert_eq!(sf.to_string().as_str(), "name = 'Matt'");
}

#[test]
fn default() {
    let s_f = SetField::default();
    assert_eq!(s_f.to_origin(), (Field::All, Operator::Equal, Value::Nothing));
}

#[test]
fn patch() {
    let update = UpdateData::patch(vec![
        PatchOp::add("/tags", vec!["developer", "engineer"].into()),
        PatchOp::replace("/settings/active", false.into()),
    ]);
    assert_eq!(
        update.to_string().as_str(),
        "[{ op: 'add', path: '/tags', value: ['developer', 'engineer'] }, { op: 'replace', path: '/settings/active', value: false }]"
    );
}

#[test]
fn merge() {
    let update = UpdateData::merge(Value::Object(Object::new().insert("marketing", true.into())));
    assert_eq!(update.to_string().as_str(), "MERGE { marketing: true }");
}

#[test]
fn cond_complex() {
    let cond = Cond::new()
        .left(Value::Array(vec!["Jack".into(), "John".into()]))
        .op(Operator::Contain)
        .right(Value::Strand(
            "(SELECT name FROM vip WHERE id = '1')".into(),
        ));
    assert_eq!(
        cond.to_string().as_str(),
        "WHERE ['Jack', 'John'] CONTAINS \"(SELECT name FROM vip WHERE id = '1')\""
    );
}

#[test]
fn cond_simple() {
    let cond = Cond::new()
        .left_easy("username")
        .op(Operator::Equal)
        .right("Matt".into());
    assert_eq!(cond.to_string().as_str(), "WHERE username = 'Matt'");
}

#[test]
fn complex_edges() {
    let edges = Edges::new(
        Edges::new("a".into(), Dir::Out, "b".into()).into(),
        Dir::In,
        Edges::new("c".into(), Dir::Out, "d".into()).into(),
    );
    let edges_str = "a->b<-c->d";
    assert_eq!(edges.to_string().as_str(), edges_str);
}

#[test]
fn simple_str() {
    let edges = Edges::new("surreal".into(), Dir::In, "db".into());
    let edges_str = "surreal<-db";
    assert_eq!(edges_str, edges.to_string().as_str());
}

#[test]
fn edges_simple() {
    let simple: Edges = (
        ("surreal", Id::String("hello".to_string())),
        Dir::In,
        ("db", Id::Number(15)),
    )
        .into();
    let edges = Edges::new(
        ("surreal", "hello").into(),
        Dir::In,
        ("db", Id::Number(15)).into(),
    );
    assert_eq!(edges, simple);
}

#[test]
fn all() {
    let f_all = Field::all();
    assert_eq!(f_all.to_string().as_str(), "*");
}

#[test]
fn single_no_as() {
    let f_single = Field::single("name", None);
    assert_eq!(f_single.to_string().as_str(), "name");
}

#[test]
fn single_as() {
    let f_single = Field::single("name", Some("username"));
    assert_eq!(f_single.to_string().as_str(), "name AS username");
}

#[test]
fn to_output() {
    let f1 = Field::single("name", Some("username"));
    let f2 = Field::single("name", None);
    assert_eq!(
        Output::from(f1).to_string().as_str(),
        "RETURN name AS username"
    );
    assert_eq!(Output::from(f2).to_string().as_str(), "RETURN name");
}

#[test]
fn test_table_edges() {
    let edges = SurrrealTable::edges(Edges::new(
        Edges::new("a".into(), Dir::Out, "b".into()).into(),
        Dir::In,
        Edges::new("c".into(), Dir::Out, "d".into()).into(),
    ));
    let edges_str = "a->b<-c->d";
    assert_eq!(edges_str, edges.to_string().as_str());
}

#[test]
fn test_table_thing() {
    let table_normal = SurrrealTable::table_id("surreal", "use".into());
    let table_number = SurrrealTable::table_id("surreal", 12.into());
    assert_eq!(table_normal.to_string(), "surreal:use");
    assert_eq!(table_number.to_string(), "surreal:12");
}

#[test]
fn test_table() {
    let table_without_id: SurrrealTable = "surreal".into();
    let table_with_id: SurrrealTable = "surreal:use".into();
    assert_eq!(table_without_id, SurrrealTable::table("surreal"));
    assert_eq!(table_with_id, SurrrealTable::table("surreal:use"));
}

#[test]
fn test_table_str() {
    let table_without_id: SurrrealTable = "surreal".into();
    let table_with_id: SurrrealTable = "surreal:use".into();
    assert_eq!(table_without_id.to_string(), String::from("surreal"));
    assert_eq!(table_with_id.to_string(), String::from("`surreal:use`"));
}

#[test]
fn patch_operations_are_objects() {
    assert_eq!(
        PatchOp::remove("/a").to_string(),
        "{ op: 'remove', path: '/a' }"
    );
    assert_eq!(
        PatchOp::change("/a", "@@ -1 +1 @@").to_string(),
        "{ op: 'change', path: '/a', value: '@@ -1 +1 @@' }"
    );
    assert_eq!(
        Value::from(PatchOp::add("/n", 1.into())).to_string(),
        "{ op: 'add', path: '/n', value: 1 }"
    );
}
