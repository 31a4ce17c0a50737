use surreal_use::data::{CreateData, InsertData, SetField};
use surreal_use::stmt::{
    CreateStmt, DeleteStatement, DeleteStmt, InsertStatement, InsertStmt, Stmt, StmtBridge,
    UseStatement, UseStmt,
};
use surreal_use::value::{
    Cond, Duration, Field, Id, Object, Operator, Output, SurrrealTable, Thing, Value,
};

#[test]
fn create_simple() {
    let s1 = CreateStmt::new().table("person".into()).data(
        CreateData::set()
            .push(SetField::new("name".into(), None, "Tobie".into()))
            .push(SetField::new("company".into(), None, "SurrealDB".into()))
            .push(SetField::new(
                "skills".into(),
                None,
                vec!["Rust", "Go", "JavaScript"].into(),
            )),
    );
    assert_eq!(
        s1.to_string().as_str(),
        "CREATE person SET name = 'Tobie', company = 'SurrealDB', skills = ['Rust', 'Go', 'JavaScript']"
    )
}

#[test]
fn delete_timeout() {
    let delete = DeleteStmt::new()
        .table("person".into())
        .timeout(Duration::from_secs(5));
    assert_eq!(delete.to_string().as_str(), "DELETE person TIMEOUT 5s");
}

#[test]
fn delete_output() {
    let delete_none = DeleteStmt::new()
        .table("user".into())
        .cond(
            Cond::new()
                .left_easy("age")
                .op(Operator::MoreThan)
                .right(16.into()),
        )
        .output(Output::Nothing);
    let delete_after = DeleteStmt::new()
        .table("user".into())
        .cond(
            Cond::new()
                .left_easy("age")
                .op(Operator::MoreThan)
                .right(16.into()),
        )
        .output(Output::After);
    let delete_field_easy = DeleteStmt::new()
        .table("user".into())
        .cond(
            Cond::new()
                .left_easy("age")
                .op(Operator::MoreThan)
                .right(16.into()),
        )
        .output(Field::single("userId", None).into());
    let delete_field = DeleteStmt::new()
        .table("user".into())
        .cond(
            Cond::new()
                .left_easy("age")
                .op(Operator::MoreThan)
                .right(16.into()),
        )
        .output(Output::Fields(vec![Field::Single {
            name: "userId".to_string(),
            alias: None,
        }]));
    assert_eq!(
        delete_none.to_string().as_str(),
        "DELETE user WHERE age > 16 RETURN NONE"
    );
    assert_eq!(
        delete_after.to_string().as_str(),
        "DELETE user WHERE age > 16 RETURN AFTER"
    );
    assert_eq!(
        delete_field_easy.to_string().as_str(),
        "DELETE user WHERE age > 16 RETURN userId"
    );
    assert_eq!(
        delete_field.to_string().as_str(),
        "DELETE user WHERE age > 16 RETURN userId"
    );
}

#[test]
fn delete_record_base_on_cond() {
    let delete = DeleteStmt::new().table("city".into()).cond(
        Cond::new()
            .left(Value::table("name"))
            .op(Operator::Equal)
            .right("London".into()),
    );
    assert_eq!(
        delete.to_string().as_str(),
        "DELETE city WHERE name = 'London'"
    );
}

#[test]
fn simple_delete() {
    let delete1 = DeleteStmt::new().table("person".into());
    let delete2 = DeleteStmt::new().table(("person", Id::Number(100)).into());
    let delete3 = DeleteStmt::new().table(("person", "tobie").into());
    let delete4 = DeleteStmt::new().table(("person", "tobie").into()).only();
    assert_eq!(delete1.to_string().as_str(), "DELETE person");
    assert_eq!(delete2.to_string().as_str(), "DELETE person:100");
    assert_eq!(delete3.to_string().as_str(), "DELETE person:tobie");
    assert_eq!(delete4.to_string().as_str(), "DELETE ONLY person:tobie");
}

#[test]
fn test_origin() {
    let origin = DeleteStatement {
        only: true,
        what: Some(SurrrealTable::Thing(("person", "123sdaqo24sno2").into())),
        cond: Some(Cond::Binary {
            left: Value::table("name"),
            op: Operator::Equal,
            right: Value::strand("zhang"),
        }),
        output: None,
        timeout: None,
        parallel: false,
    };
    assert_eq!(
        origin.to_string(),
        "DELETE ONLY person:123sdaqo24sno2 WHERE name = 'zhang'"
    );
}

fn person(id: &str, name: &str, surname: &str) -> Value {
    Value::Object(
        Object::new()
            .insert("id", id.into())
            .insert("name", name.into())
            .insert("surname", surname.into()),
    )
}

#[test]
fn more() {
    let insert = InsertStmt::new().data(InsertData::content(Value::Array(vec![
        person("person:jaime", "Jaime", "Morgan Hitchcock"),
        person("person:tobie", "Tobie", "Morgan Hitchcock"),
    ])));
    assert_eq!(insert.to_string().as_str(),"INSERT INTO NONE [{ id: s'person:jaime', name: 'Jaime', surname: 'Morgan Hitchcock' }, { id: s'person:tobie', name: 'Tobie', surname: 'Morgan Hitchcock' }]");
}

#[test]
fn insert_complex() {
    let insert = InsertStmt::new()
        .table("product".into())
        .data(
            InsertData::set()
                .push("name", "Salesforce".into())
                .push("url", "salesforce.com".into()),
        )
        .update(vec![SetField::new(
            "tags".into(),
            Some(Operator::Inc),
            "crm".into(),
        )]);
    assert_eq!(insert.to_string().as_str(),"INSERT INTO product (name, url) VALUES ('Salesforce', 'salesforce.com') ON DUPLICATE KEY UPDATE tags += 'crm'");
}

#[test]
fn simple_set() {
    let insert = InsertStmt::new().table("company".into()).data(
        InsertData::set()
            .push("name", "SurrealDB".into())
            .push("founded", "2021-09-10".into()),
    );
    assert_eq!(
        insert.to_string().as_str(),
        "INSERT INTO company (name, founded) VALUES ('SurrealDB', '2021-09-10')"
    )
}

#[test]
fn simple_content() {
    let company = Object::new()
        .insert("name", "SurrealDB".into())
        .insert("founded", "2021-09-10".into())
        .insert(
            "founders",
            Value::Array(vec![
                Value::Thing(Thing::new("person", "tobie".into())),
                Value::Thing(Thing::new("person", "jaime".into())),
            ]),
        )
        .insert("tags", vec!["big data", "database"].into());
    let insert = InsertStmt::new()
        .table("company".into())
        .data(InsertData::content(Value::Object(company)));
    assert_eq!(insert.to_string().as_str(),"INSERT INTO company { founded: '2021-09-10', founders: [person:tobie, person:jaime], name: 'SurrealDB', tags: ['big data', 'database'] }");
}

#[test]
fn origin() {
    let insert = InsertStatement {
        into: Some("person".into()),
        data: Some(
            InsertData::set()
                .push("name", "Matt".into())
                .push("name1", "Matt1".into()),
        ),
        ignore: true,
        update: None,
        output: None,
        timeout: None,
        parallel: false,
    };
    assert_eq!(
        insert.to_string(),
        "INSERT IGNORE INTO person (name, name1) VALUES ('Matt', 'Matt1')"
    );
}

#[test]
fn test_use() {
    let use_s = Stmt::use_stmt().ns("surreal").db("use");
    let use_str = "USE NS surreal DB use";
    assert_eq!(use_str, &use_s.to_string());
}

#[test]
fn test_delete() {
    let delete = Stmt::delete()
        .table("user".into())
        .cond(
            Cond::new()
                .left_easy("userId")
                .op(Operator::Equal)
                .right("2343jshkq1".into()),
        )
        .output(Field::single("username", None).into())
        .timeout(Duration::from_secs(10))
        .parallel();
    assert_eq!(
        delete.to_string().as_str(),
        "DELETE user WHERE userId = '2343jshkq1' RETURN username TIMEOUT 10s PARALLEL"
    );
}

#[test]
fn test_create() {
    let create = Stmt::create()
        .table(("person", "matt1008").into())
        .data(CreateData::set().push(SetField::new("age".into(), None, 46.into())))
        .output(Output::Before)
        .timeout(Duration::from_millis(15))
        .parallel();
    assert_eq!(
        create.to_string().as_str(),
        "CREATE person:matt1008 SET age = 46 RETURN BEFORE TIMEOUT 15ms PARALLEL"
    );
}

#[test]
fn test_to_origin() {
    let use_stmt = UseStmt::new().ns("test_ns").db("test_db");
    let origin = use_stmt.to_origin();
    assert_eq!(
        origin,
        UseStatement {
            ns: Some("test_ns".to_string()),
            db: Some("test_db".to_string()),
        }
    );
}

#[test]
fn use_test_to_string() {
    let use_stmt = UseStmt::new().ns("test_ns").db("test_db");
    let use_str = "USE NS test_ns DB test_db";
    assert_eq!(use_stmt.to_string(), use_str);
}

#[test]
fn use_stmt_test_to_string() {
    let use_stmt = UseStmt::new().ns("test_ns").db("test_db");
    let use_str = "USE NS test_ns DB test_db";
    assert_eq!(use_stmt.origin().to_string(), use_str);
}
