use std::collections::BTreeMap;
use surreal_use::data::{CreateData, InsertData, SetField, UpdateData};
use surreal_use::stmt::{CreateStmt, DeleteStmt, InsertStmt, UseStmt};
use surreal_use::value::{
    Cond, Dir, Duration, Edges, Field, Id, Object, Operator, Order, Output, SurrrealTable, Table,
    Thing, Value,
};
use surrealdb::sql;

fn operators() -> Vec<(Operator, sql::Operator)> {
    vec![
        (Operator::Neg, sql::Operator::Neg),
        (Operator::Not, sql::Operator::Not),
        (Operator::Or, sql::Operator::Or),
        (Operator::And, sql::Operator::And),
        (Operator::Tco, sql::Operator::Tco),
        (Operator::Nco, sql::Operator::Nco),
        (Operator::Add, sql::Operator::Add),
        (Operator::Sub, sql::Operator::Sub),
        (Operator::Mul, sql::Operator::Mul),
        (Operator::Div, sql::Operator::Div),
        (Operator::Pow, sql::Operator::Pow),
        (Operator::Inc, sql::Operator::Inc),
        (Operator::Dec, sql::Operator::Dec),
        (Operator::Ext, sql::Operator::Ext),
        (Operator::Equal, sql::Operator::Equal),
        (Operator::Exact, sql::Operator::Exact),
        (Operator::NotEqual, sql::Operator::NotEqual),
        (Operator::AllEqual, sql::Operator::AllEqual),
        (Operator::AnyEqual, sql::Operator::AnyEqual),
        (Operator::Like, sql::Operator::Like),
        (Operator::NotLike, sql::Operator::NotLike),
        (Operator::AllLike, sql::Operator::AllLike),
        (Operator::AnyLike, sql::Operator::AnyLike),
        (Operator::LessThan, sql::Operator::LessThan),
        (Operator::LessThanOrEqual, sql::Operator::LessThanOrEqual),
        (Operator::MoreThan, sql::Operator::MoreThan),
        (Operator::MoreThanOrEqual, sql::Operator::MoreThanOrEqual),
        (Operator::Contain, sql::Operator::Contain),
        (Operator::NotContain, sql::Operator::NotContain),
        (Operator::ContainAll, sql::Operator::ContainAll),
        (Operator::ContainAny, sql::Operator::ContainAny),
        (Operator::ContainNone, sql::Operator::ContainNone),
        (Operator::Inside, sql::Operator::Inside),
        (Operator::NotInside, sql::Operator::NotInside),
        (Operator::AllInside, sql::Operator::AllInside),
        (Operator::AnyInside, sql::Operator::AnyInside),
        (Operator::NoneInside, sql::Operator::NoneInside),
        (Operator::Outside, sql::Operator::Outside),
        (Operator::Intersects, sql::Operator::Intersects),
    ]
}

#[test]
fn operators_read_as_the_engine_prints_them() {
    for (mine, theirs) in operators() {
        assert_eq!(mine.to_string(), theirs.to_string());
        assert_eq!(mine.symbol(), theirs.to_string());
    }
    assert_eq!(Operator::default(), Operator::Equal);
    assert_eq!(Operator::Inc.to_string(), "+=");
    assert_eq!(Operator::Contain.to_string(), "CONTAINS");
}

#[test]
fn arrows_read_as_the_engine_prints_them() {
    assert_eq!(Dir::In.to_string(), sql::Dir::In.to_string());
    assert_eq!(Dir::Out.to_string(), sql::Dir::Out.to_string());
    assert_eq!(Dir::Both.to_string(), sql::Dir::Both.to_string());
    assert_eq!(Dir::Both.to_string(), "<->");
}

#[test]
fn table_names_are_bare_or_between_backticks() {
    assert_eq!(Table::new("person").to_string(), "person");
    assert_eq!(Table::new("per_son9").to_string(), "per_son9");
    assert_eq!(Table::new("surreal:use").to_string(), "`surreal:use`");
    assert_eq!(Table::new("two words").to_string(), "`two words`");
    assert_eq!(Table::new("123").to_string(), "`123`");
    assert_eq!(Table::new("").to_string(), "``");
    assert_eq!(Table::new("a`b").to_string(), "`a\\`b`");
    assert_eq!(Table::new("héllo").to_string(), "`héllo`");
    assert_eq!(Table::new("1a").to_string(), "1a");
}

#[test]
fn record_ids_are_bare_or_between_angles() {
    assert_eq!(Thing::new("person", Id::string("tobie")).to_string(), "person:tobie");
    assert_eq!(Thing::new("person", Id::number(100)).to_string(), "person:100");
    assert_eq!(Thing::new("person", Id::number(-5)).to_string(), "person:-5");
    assert_eq!(Thing::new("person", Id::number(0)).to_string(), "person:0");
    assert_eq!(
        Thing::new("t", Id::number(i64::MIN)).to_string(),
        "t:-9223372036854775808"
    );
    assert_eq!(
        Thing::new("t", Id::number(i64::MAX)).to_string(),
        "t:9223372036854775807"
    );
    assert_eq!(Thing::new("a b", Id::string("x⟩y")).to_string(), "⟨a b⟩:⟨x\\⟩y⟩");
    assert_eq!(Thing::new("t", Id::string("42")).to_string(), "t:⟨42⟩");
    assert_eq!(Thing::new("", Id::string("")).to_string(), "⟨⟩:⟨⟩");
    assert_eq!(
        Thing::new("t", Id::string("018d3500-b7d8-7398-86eb-d9ba80c3fe5f")).to_string(),
        "t:⟨018d3500-b7d8-7398-86eb-d9ba80c3fe5f⟩"
    );
}

#[test]
fn strings_are_quoted_by_the_engine() {
    assert_eq!(Value::strand("cat").to_string(), "'cat'");
    assert_eq!(Value::strand("cat's").to_string(), "\"cat's\"");
    assert_eq!(Value::strand("").to_string(), "''");
    assert_eq!(Value::strand("a\\b").to_string(), "'a\\\\b'");
    assert_eq!(Value::strand("person:tobie").to_string(), "s'person:tobie'");
    for s in ["plain", "it's \"so\"", "2024-01-23T06:27:14Z", "t:1"] {
        assert_eq!(
            Value::strand(s).to_string(),
            sql::Value::Strand(sql::Strand(s.to_string())).to_string()
        );
    }
}

#[test]
fn numbers_are_decimal() {
    assert_eq!(Value::number(0).to_string(), "0");
    assert_eq!(Value::number(-17).to_string(), "-17");
    assert_eq!(Value::number(1000000).to_string(), "1000000");
    assert_eq!(Value::number(i64::MIN).to_string(), "-9223372036854775808");
}

#[test]
fn durations_name_each_unit_that_is_not_zero() {
    assert_eq!(Duration::from_secs(0).to_string(), "0ns");
    assert_eq!(Duration::from_secs(5).to_string(), "5s");
    assert_eq!(Duration::from_millis(15).to_string(), "15ms");
    assert_eq!(Duration::new(7711, 1).to_string(), "2h8m31s1ns");
    assert_eq!(Duration::from_micros(7).to_string(), "7µs");
    assert_eq!(Duration::from_nanos(1_001_001_001).to_string(), "1s1ms1µs1ns");
    assert_eq!(Duration::from_secs(31_536_000).to_string(), "1y");
    assert_eq!(Duration::from_secs(604_800).to_string(), "1w");
    assert_eq!(Duration::from_secs(364 * 86_400).to_string(), "52w");
    assert_eq!(
        Duration::from_secs(31_536_000 + 604_800 + 86_400 + 3_600 + 60 + 1).to_string(),
        "1y1w1d1h1m1s"
    );
    assert_eq!(Duration::new(1, 2_000_000_000).to_string(), "3s");
    assert_eq!(Duration::new(u64::MAX, 999_999_999).to_string(),
        sql::Duration(std::time::Duration::new(u64::MAX, 999_999_999)).to_string());
    let d = Duration::from_millis(61_001);
    assert_eq!(d.as_secs(), 61);
    assert_eq!(d.subsec(), 1_000_000);
    assert_eq!(d.to_string(), "1m1s1ms");
}

fn engine_object(entries: &[(&str, i64)]) -> String {
    let mut map: BTreeMap<String, sql::Value> = BTreeMap::new();
    for (k, v) in entries {
        map.insert(k.to_string(), sql::Value::Number(sql::Number::Int(*v)));
    }
    sql::Value::Object(sql::Object(map)).to_string()
}

fn my_object(entries: &[(&str, i64)]) -> String {
    let mut o = Object::new();
    for (k, v) in entries {
        o = o.insert(k, Value::number(*v));
    }
    Value::Object(o).to_string()
}

#[test]
fn objects_keep_their_keys_in_order() {
    let cases: Vec<Vec<(&str, i64)>> = vec![
        vec![],
        vec![("b", 1), ("a", 2)],
        vec![("b", 1), ("a", 2), ("b", 3)],
        vec![("ab", 1), ("a", 2), ("abc", 3), ("B", 4), ("_", 5), ("9", 6)],
        vec![("two words", 1), ("say \"hi\"", 2), ("é", 3), ("z", 4), ("", 5)],
        vec![("x", 1), ("x", 2), ("x", 3)],
    ];
    for case in cases {
        assert_eq!(my_object(&case), engine_object(&case));
    }
    assert_eq!(my_object(&[]), "{  }");
    assert_eq!(my_object(&[("b", 1), ("a", 2), ("b", 3)]), "{ a: 2, b: 3 }");
    assert_eq!(my_object(&[("two words", 1)]), "{ \"two words\": 1 }");
    assert_eq!(my_object(&[("say \"hi\"", 1)]), "{ \"say \\\"hi\\\"\": 1 }");
    let o = Object::new().insert("k", Value::Null).insert("k", Value::Bool(false));
    assert_eq!(o.len(), 1);
}

#[test]
fn lists_are_in_brackets() {
    assert_eq!(Value::Array(vec![]).to_string(), "[]");
    assert_eq!(Value::Array(vec![Value::Nothing]).to_string(), "[NONE]");
    assert_eq!(
        Value::Array(vec![Value::Array(vec![1.into(), 2.into()]), Value::Null]).to_string(),
        "[[1, 2], NULL]"
    );
    assert_eq!(Value::strands(vec!["a", "b"]).to_string(), "['a', 'b']");
    assert_eq!(Value::Bool(false).to_string(), "false");
    let v = Value::Array(vec![Value::Object(Object::new().insert("a", 1.into())), "x".into()]);
    assert_eq!(v.clone().to_string(), v.to_string());
    assert_eq!(v.duplicate(), v);
}

#[test]
fn a_table_reference_becomes_a_value() {
    assert_eq!(Value::from_table("t".into()), Value::table("t"));
    assert_eq!(
        Value::from_table(("t", "k").into()),
        Value::Thing(Thing::new("t", Id::string("k")))
    );
    let path = Edges::new("a".into(), Dir::Out, "b".into());
    assert_eq!(Value::from_table(path.into()), Value::strand("a->b"));
}

#[test]
fn only_a_path_from_a_record_to_a_table_is_a_value() {
    let good = Edges::new(("person", "tobie").into(), Dir::Out, "knows".into());
    let text = sql::Value::Edges(Box::new(sql::Edges {
        dir: sql::Dir::Out,
        from: sql::Thing::from(("person", "tobie")),
        what: sql::Tables(vec![sql::Table("knows".to_string())]),
    }))
    .to_string();
    assert_eq!(Value::from_edges(good.clone()).unwrap().to_string(), text);
    assert_eq!(Cond::from_edges(good).unwrap().to_string(), format!("WHERE {text}"));
    let bad = Edges::new("person".into(), Dir::Out, "knows".into());
    assert_eq!(
        Value::from_edges(bad.clone()),
        Err(surreal_use::error::Error::ConversionViolation)
    );
    assert_eq!(
        Cond::from_edges(bad),
        Err(surreal_use::error::Error::ConversionViolation)
    );
}

#[test]
fn empty_statements_read_as_the_engine_prints_them() {
    assert_eq!(
        DeleteStmt::new().to_string(),
        sql::statements::DeleteStatement::default().to_string()
    );
    assert_eq!(
        CreateStmt::new().to_string(),
        sql::statements::CreateStatement::default().to_string()
    );
    assert_eq!(
        InsertStmt::new().to_string(),
        sql::statements::InsertStatement::default().to_string()
    );
    assert_eq!(
        UseStmt::new().to_string(),
        sql::statements::UseStatement::default().to_string()
    );
    assert_eq!(UseStmt::new().to_string(), "USE");
    assert_eq!(UseStmt::new().db("d").to_string(), "USE DB d");
    assert_eq!(UseStmt::new().ns("n").to_string(), "USE NS n");
    assert_eq!(Cond::new().to_string(), "WHERE NONE = NONE");
}

#[test]
fn full_statements_read_as_the_engine_prints_them() {
    let theirs = sql::statements::DeleteStatement {
        only: true,
        what: sql::Values(vec![sql::Value::Thing(("person", "tobie").into())]),
        cond: Some(sql::Cond(sql::Value::Expression(Box::new(sql::Expression::Binary {
            l: sql::Value::Table("age".into()),
            o: sql::Operator::LessThanOrEqual,
            r: sql::Value::Number(sql::Number::Int(30)),
        })))),
        output: Some(sql::Output::Diff),
        timeout: Some(sql::Timeout(sql::Duration::from_secs(90))),
        parallel: true,
    };
    let mine = DeleteStmt::new()
        .only()
        .table(("person", "tobie").into())
        .cond(Cond::new().left_easy("age").op(Operator::LessThanOrEqual).right(30.into()))
        .output(Output::Diff)
        .timeout(Duration::from_secs(90))
        .parallel();
    assert_eq!(mine.to_string(), theirs.to_string());
    assert_eq!(
        mine.to_string(),
        "DELETE ONLY person:tobie WHERE age <= 30 RETURN DIFF TIMEOUT 1m30s PARALLEL"
    );

    let content = Value::Object(Object::new().insert("name", "Tobie".into()));
    let create = CreateStmt::new()
        .only()
        .table("person".into())
        .data(CreateData::content(content.clone()))
        .output(Output::Null);
    assert_eq!(
        create.to_string(),
        "CREATE ONLY person CONTENT { name: 'Tobie' } RETURN NULL"
    );
    let insert = InsertStmt::new()
        .ignore()
        .table("person".into())
        .data(InsertData::content(content))
        .output(Output::Fields(vec![Field::all(), Field::single("a", Some("b"))]))
        .timeout(Duration::from_millis(1500))
        .parallel();
    assert_eq!(
        insert.to_string(),
        "INSERT IGNORE INTO person { name: 'Tobie' } RETURN *, a AS b TIMEOUT 1s500ms PARALLEL"
    );
}

#[test]
fn a_path_is_its_ends_and_the_arrow() {
    let one = Edges::new(("a", Id::number(1)).into(), Dir::Both, "b".into());
    assert_eq!(one.to_string(), "a:1<->b");
    let same = Edges::new("t".into(), Dir::Out, "t".into());
    assert_eq!(same.to_string(), "t->t");
    let left = Edges::new(
        Edges::new("a".into(), Dir::Out, "b".into()).into(),
        Dir::In,
        "c".into(),
    );
    let right = Edges::new(
        "a".into(),
        Dir::Out,
        Edges::new("b".into(), Dir::In, "c".into()).into(),
    );
    assert_eq!(left.to_string(), "a->b<-c");
    assert_eq!(left.to_string(), right.to_string());
    let t: SurrrealTable = left.clone().into();
    assert_eq!(t.duplicate().to_string(), "a->b<-c");
    assert_eq!(t.clone().into_edges(), Ok(left));
    assert_eq!(
        t.clone().into_table(),
        Err(surreal_use::error::Error::ConversionViolation)
    );
    assert_eq!(
        t.into_thing(),
        Err(surreal_use::error::Error::ConversionViolation)
    );
    let thing: SurrrealTable = ("a", "b").into();
    assert_eq!(thing.clone().into_thing(), Ok(Thing::new("a", Id::string("b"))));
    assert_eq!(SurrrealTable::table("x").into_table(), Ok(Table::new("x")));
}

#[test]
fn an_order_names_the_flags_that_are_set() {
    assert_eq!(Order::new("name".into()).to_string(), "name");
    assert_eq!(Order::new("name".into()).asc().to_string(), "name");
    assert_eq!(Order::new("name".into()).desc().to_string(), "name DESC");
    assert_eq!(Order::new("name".into()).desc().asc().to_string(), "name");
    assert_eq!(
        Order::new("name".into()).rand().collate().numeric().desc().to_string(),
        "name RAND() COLLATE NUMERIC DESC"
    );
    assert_eq!(Order::new(Field::all()).numeric().to_string(), "* NUMERIC");
}

#[test]
fn pushing_needs_a_list() {
    let sf = || SetField::new("a".into(), None, 1.into());
    let shape = Err(surreal_use::error::Error::ShapeViolation);
    assert_eq!(UpdateData::content(Value::Null).try_push(sf()), shape);
    assert_eq!(UpdateData::merge(Value::Null).try_push(sf()), shape);
    assert_eq!(UpdateData::patch(vec![]).try_push(sf()), shape);
    assert_eq!(UpdateData::content(Value::Null).try_pop(), shape);
    assert_eq!(
        CreateData::content(Value::Null).try_push(sf()),
        Err(surreal_use::error::Error::ShapeViolation)
    );
    assert_eq!(
        InsertData::content(Value::Null).try_push("a", Value::Null),
        Err(surreal_use::error::Error::ShapeViolation)
    );
    let list = UpdateData::set()
        .try_push(SetField::new("a".into(), None, 1.into()))
        .unwrap()
        .try_push(SetField::new("b".into(), Some(Operator::Dec), 2.into()))
        .unwrap()
        .push(("c", "z").into());
    assert_eq!(list.to_string(), "SET a = 1, b -= 2, c = 'z'");
    assert!(list.is_set() && !list.is_content() && !list.is_merge() && !list.is_patch());
    let shorter = list.pop();
    assert_eq!(shorter.to_string(), "SET a = 1, b -= 2");
    assert_eq!(UpdateData::set().pop().to_string(), "SET ");
    assert_eq!(shorter.clone().to_set().map(|l| l.len()), Some(2));
    assert_eq!(shorter.clone().to_content(), None);
    assert_eq!(UpdateData::content(Value::Null).to_content(), Some(Value::Null));
    assert_eq!(UpdateData::merge(Value::Null).to_merge(), Some(Value::Null));
    assert_eq!(UpdateData::patch(vec![]).to_patch(), Some(Value::Array(vec![])));
    assert_eq!(UpdateData::content(Value::Bool(true)).to_string(), "true");
    assert_eq!(InsertData::set().to_string(), "() VALUES ()");
    assert_eq!(
        SetField::from(("f", Operator::Ext, "v")).to_string(),
        "f +?= 'v'"
    );
}

#[test]
fn a_generated_key_is_a_new_string() {
    let a = Id::uuid();
    let b = Id::uuid();
    assert_ne!(a, b);
    let text = SurrrealTable::table_id("surreal", a.clone()).to_string();
    match a {
        Id::String(s) => {
            assert_eq!(s.len(), 36);
            for (i, c) in s.chars().enumerate() {
                if i == 8 || i == 13 || i == 18 || i == 23 {
                    assert_eq!(c, '-');
                } else {
                    assert!(c.is_ascii_digit() || ('a'..='f').contains(&c));
                }
            }
            assert_eq!(text, format!("surreal:⟨{s}⟩"));
        }
        Id::Number(_) => panic!("a generated key is a string"),
    }
}

#[test]
fn a_path_as_target_is_named_by_its_string() {
    let path = || Edges::new("a".into(), Dir::Out, "b".into());
    let theirs = sql::statements::DeleteStatement {
        what: sql::Values(vec![sql::Value::Strand(sql::Strand("a->b".to_string()))]),
        ..Default::default()
    };
    assert_eq!(DeleteStmt::new().table(path().into()).to_string(), theirs.to_string());
    assert_eq!(DeleteStmt::new().table(path().into()).to_string(), "DELETE 'a->b'");
    assert_eq!(CreateStmt::new().table(path().into()).to_string(), "CREATE 'a->b'");
    assert_eq!(
        InsertStmt::new().table(path().into()).to_string(),
        "INSERT INTO 'a->b' "
    );
}
