use body_control::error::StorageError;
use body_control::member::{
    create, create_with_id, created, delete, deleted, insert, insert_new, list, remove, select,
    Member,
};
use body_control::reply::Created;
use body_control::store::{Param, Rows, Statement, Tables};
use body_control::weight;

fn named(name: &str) -> Member {
    Member { id: None, name: Some(name.to_string()), nickname: None, sex: None, relationship: None }
}

fn full(id: Option<&str>) -> Member {
    Member {
        id: id.map(|s| s.to_string()),
        name: Some("Alice".to_string()),
        nickname: Some("Al".to_string()),
        sex: Some(2),
        relationship: Some(1),
    }
}

#[test]
fn post_member_alice_is_created_and_listed() {
    let mut tables = Tables::new();
    let reply = create(&mut tables, named("Alice")).expect("created");
    assert_eq!(reply.status(), 201);
    assert_eq!(reply.location, "/");
    assert_eq!(reply.body.name, Some("Alice".to_string()));
    assert_eq!(reply.body.nickname, None);
    assert_eq!(reply.body.sex, None);
    assert_eq!(reply.body.relationship, None);
    let id = reply.body.id.clone().expect("an id");
    assert!(!id.is_empty());
    let listed = list(&mut tables).expect("listed");
    assert_eq!(listed, vec![reply.body]);
}

#[test]
fn drawn_member_id_is_a_random_uuid() {
    let mut tables = Tables::new();
    let reply = create(&mut tables, named("Bob")).expect("created");
    let id = reply.body.id.expect("an id");
    let chars: Vec<char> = id.chars().collect();
    assert_eq!(chars.len(), 36);
    for (i, c) in chars.iter().enumerate() {
        if i == 8 || i == 13 || i == 18 || i == 23 {
            assert_eq!(*c, '-');
        } else {
            assert!(c.is_ascii_digit() || ('a'..='f').contains(c));
        }
    }
    assert_eq!(chars[14], '4');
    assert!(matches!(chars[19], '8' | '9' | 'a' | 'b'));
}

#[test]
fn two_created_members_get_different_ids() {
    let mut tables = Tables::new();
    let first = create(&mut tables, named("Alice")).expect("created");
    let second = create(&mut tables, named("Alice")).expect("created");
    assert_ne!(first.body.id, second.body.id);
    let listed = list(&mut tables).expect("listed");
    assert_eq!(listed, vec![first.body, second.body]);
}

#[test]
fn created_member_carries_the_given_id_not_the_callers() {
    let mut tables = Tables::new();
    let reply = create_with_id(&mut tables, full(Some("mine")), "m-1".to_string()).expect("created");
    assert_eq!(reply, Created { location: "/".to_string(), body: full(Some("m-1")) });
    assert_eq!(list(&mut tables), Ok(vec![full(Some("m-1"))]));
}

#[test]
fn repeated_member_id_is_a_storage_error() {
    let mut tables = Tables::new();
    create_with_id(&mut tables, named("Alice"), "m-1".to_string()).expect("created");
    let again = create_with_id(&mut tables, named("Bob"), "m-1".to_string());
    assert_eq!(
        again,
        Err(StorageError { detail: "UNIQUE constraint failed: member.id".to_string() })
    );
    let listed = list(&mut tables).expect("listed");
    assert_eq!(listed.len(), 1);
    assert_eq!(listed[0].name, Some("Alice".to_string()));
}

#[test]
fn listing_no_members_is_empty() {
    let mut tables = Tables::new();
    assert_eq!(list(&mut tables), Ok(vec![]));
}

#[test]
fn members_are_listed_in_insertion_order() {
    let mut tables = Tables::new();
    create_with_id(&mut tables, named("a"), "3".to_string()).expect("created");
    create_with_id(&mut tables, named("b"), "1".to_string()).expect("created");
    create_with_id(&mut tables, named("c"), "2".to_string()).expect("created");
    let listed = list(&mut tables).expect("listed");
    let ids: Vec<Option<String>> = listed.into_iter().map(|m| m.id).collect();
    assert_eq!(
        ids,
        vec![Some("3".to_string()), Some("1".to_string()), Some("2".to_string())]
    );
}

#[test]
fn deleting_a_member_answers_the_same_whether_it_exists() {
    let mut tables = Tables::new();
    create_with_id(&mut tables, named("Alice"), "m-1".to_string()).expect("created");
    create_with_id(&mut tables, named("Bob"), "m-2".to_string()).expect("created");
    let existing = delete(&mut tables, "m-1".to_string());
    let missing = delete(&mut tables, "nobody".to_string());
    let again = delete(&mut tables, "m-1".to_string());
    assert_eq!(existing, Ok("success".to_string()));
    assert_eq!(missing, existing);
    assert_eq!(again, existing);
    let listed = list(&mut tables).expect("listed");
    assert_eq!(listed.len(), 1);
    assert_eq!(listed[0].id, Some("m-2".to_string()));
}

#[test]
fn deleting_a_member_leaves_its_weights() {
    let mut tables = Tables::new();
    create_with_id(&mut tables, named("Alice"), "m-1".to_string()).expect("created");
    let form = weight::Submission { member_id: Some("m-1".to_string()), value: Some(70.5f64.to_bits()) };
    weight::create_with_id(&mut tables, form, "w-1".to_string(), 1_700_000_000).expect("created");
    delete(&mut tables, "m-1".to_string()).expect("deleted");
    assert_eq!(list(&mut tables), Ok(vec![]));
    let weights = weight::list(&mut tables, Some("m-1".to_string())).expect("listed");
    assert_eq!(weights.len(), 1);
    assert_eq!(weights[0].id, Some("w-1".to_string()));
}

#[test]
fn member_delete_hands_a_storage_failure_on() {
    assert_eq!(deleted(Ok(1)), Ok("success".to_string()));
    assert_eq!(deleted(Ok(0)), Ok("success".to_string()));
    let lost = StorageError { detail: "connection lost".to_string() };
    assert_eq!(deleted(Err(lost)), Err(StorageError { detail: "connection lost".to_string() }));
}

#[test]
fn member_insert_statement() {
    let statement = insert("m-1".to_string(), &full(Some("ignored")));
    assert_eq!(
        statement,
        Statement::InsertMember {
            id: "m-1".to_string(),
            name: Some("Alice".to_string()),
            nickname: Some("Al".to_string()),
            sex: Some(2),
            relationship: Some(1),
        }
    );
    assert_eq!(
        statement.sql(),
        "INSERT INTO member (id, name, nickname, sex, relationship) VALUES (?, ?, ?, ?, ?) RETURNING id"
    );
    assert_eq!(
        statement.params(),
        vec![
            Param::Text(Some("m-1".to_string())),
            Param::Text(Some("Alice".to_string())),
            Param::Text(Some("Al".to_string())),
            Param::Integer(Some(2)),
            Param::Integer(Some(1)),
        ]
    );
}

#[test]
fn member_select_and_delete_statements() {
    assert_eq!(select(), Statement::SelectMembers);
    assert_eq!(select().sql(), "SELECT * FROM member");
    assert_eq!(select().params(), vec![]);
    let statement = remove("m-1".to_string());
    assert_eq!(statement, Statement::DeleteMember { id: "m-1".to_string() });
    assert_eq!(statement.sql(), "DELETE FROM member WHERE id = ?");
    assert_eq!(statement.params(), vec![Param::Text(Some("m-1".to_string()))]);
}

#[test]
fn created_member_takes_the_first_returned_id() {
    let ids = vec![Some("m-9".to_string()), Some("other".to_string())];
    let reply = created(full(Some("mine")), &ids);
    assert_eq!(reply.body, full(Some("m-9")));
    assert_eq!(reply.location, "/");
    let none = created(full(Some("mine")), &vec![None]);
    assert_eq!(none.body, full(None));
}

#[test]
fn tables_hand_back_rows_and_counts() {
    let mut tables = Tables::new();
    let inserted = tables.run(&insert("m-1".to_string(), &named("Alice")), 0);
    assert_eq!(inserted, Ok(Rows::Ids(vec![Some("m-1".to_string())])));
    tables.run(&insert("m-2".to_string(), &named("Bob")), 0).expect("inserted");
    assert_eq!(tables.run(&remove("m-1".to_string()), 0), Ok(Rows::Affected(1)));
    assert_eq!(tables.run(&remove("m-1".to_string()), 0), Ok(Rows::Affected(0)));
    let mut bob = named("Bob");
    bob.id = Some("m-2".to_string());
    assert_eq!(tables.run(&select(), 0), Ok(Rows::Members(vec![bob])));
}

#[test]
fn new_member_insert_draws_a_uuid_and_ignores_the_callers_id() {
    match insert_new(&full(Some("mine"))) {
        Statement::InsertMember { id, name, nickname, sex, relationship } => {
            assert_eq!(id.len(), 36);
            assert_ne!(id, "mine");
            assert_eq!(name, Some("Alice".to_string()));
            assert_eq!(nickname, Some("Al".to_string()));
            assert_eq!(sex, Some(2));
            assert_eq!(relationship, Some(1));
        }
        other => panic!("not an insert of a member: {:?}", other),
    }
}
