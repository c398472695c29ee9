use body_control::error::{Failure, Field, StorageError};
use body_control::member;
use body_control::store::{Param, Statement, Tables};
use body_control::weight::{
    create, create_with_id, created, delete, deleted, insert, insert_new, list, remove,
    select, validate, Measurement, Submission, Weight,
};

fn form(member_id: &str, value: f64) -> Submission {
    Submission { member_id: Some(member_id.to_string()), value: Some(value.to_bits()) }
}

fn row(id: &str, member_id: &str, value: f64, at: i64) -> Weight {
    Weight {
        id: Some(id.to_string()),
        value: Some(value.to_bits()),
        member_id: Some(member_id.to_string()),
        create_time: Some(at),
        update_time: Some(at),
    }
}

#[test]
fn post_weight_is_created_and_listed_with_equal_times() {
    let mut tables = Tables::new();
    let alice = member::create(
        &mut tables,
        member::Member {
            id: None,
            name: Some("Alice".to_string()),
            nickname: None,
            sex: None,
            relationship: None,
        },
    )
    .expect("created");
    let member_id = alice.body.id.expect("an id");
    let reply = create(&mut tables, form(&member_id, 70.5), 1_700_000_000).expect("created");
    assert_eq!(reply.status(), 201);
    assert_eq!(reply.location, "/");
    assert_eq!(reply.body.member_id, member_id);
    assert_eq!(f64::from_bits(reply.body.value), 70.5);
    let id = reply.body.id.expect("an id");
    assert_eq!(id.len(), 36);
    let listed = list(&mut tables, Some(member_id.clone())).expect("listed");
    assert_eq!(listed, vec![row(&id, &member_id, 70.5, 1_700_000_000)]);
    assert_eq!(listed[0].create_time, listed[0].update_time);
}

#[test]
fn weight_of_an_unknown_member_is_stored() {
    let mut tables = Tables::new();
    let reply = create_with_id(&mut tables, form("nobody", 81.25), "w-1".to_string(), 42)
        .expect("created");
    assert_eq!(
        reply.body,
        Measurement {
            id: Some("w-1".to_string()),
            member_id: "nobody".to_string(),
            value: 81.25f64.to_bits(),
        }
    );
    assert_eq!(
        list(&mut tables, Some("nobody".to_string())),
        Ok(vec![row("w-1", "nobody", 81.25, 42)])
    );
    assert_eq!(member::list(&mut tables), Ok(vec![]));
}

#[test]
fn listing_weights_of_a_member_without_any_is_empty() {
    let mut tables = Tables::new();
    assert_eq!(list(&mut tables, Some("m-1".to_string())), Ok(vec![]));
    create_with_id(&mut tables, form("m-2", 60.0), "w-1".to_string(), 1).expect("created");
    assert_eq!(list(&mut tables, Some("m-1".to_string())), Ok(vec![]));
}

#[test]
fn weights_are_listed_by_member_in_insertion_order() {
    let mut tables = Tables::new();
    create_with_id(&mut tables, form("m-1", 70.0), "w-1".to_string(), 10).expect("created");
    create_with_id(&mut tables, form("m-2", 90.0), "w-2".to_string(), 20).expect("created");
    create_with_id(&mut tables, form("m-1", 69.5), "w-3".to_string(), 30).expect("created");
    assert_eq!(
        list(&mut tables, Some("m-1".to_string())),
        Ok(vec![row("w-1", "m-1", 70.0, 10), row("w-3", "m-1", 69.5, 30)])
    );
    assert_eq!(
        list(&mut tables, Some("m-2".to_string())),
        Ok(vec![row("w-2", "m-2", 90.0, 20)])
    );
}

#[test]
fn weight_without_member_id_is_refused_and_not_stored() {
    let mut tables = Tables::new();
    let reply = create(
        &mut tables,
        Submission { member_id: None, value: Some(70.5f64.to_bits()) },
        5,
    );
    assert_eq!(reply, Err(Failure::RequestShape(Field::MemberId)));
    assert_eq!(Failure::RequestShape(Field::MemberId).status(), 422);
    let neither = create(&mut tables, Submission { member_id: None, value: None }, 5);
    assert_eq!(neither, Err(Failure::RequestShape(Field::MemberId)));
    assert_eq!(tables, Tables::new());
}

#[test]
fn weight_without_value_is_refused_and_not_stored() {
    let mut tables = Tables::new();
    let reply = create(
        &mut tables,
        Submission { member_id: Some("m-1".to_string()), value: None },
        5,
    );
    assert_eq!(reply, Err(Failure::RequestShape(Field::Value)));
    assert_eq!(list(&mut tables, Some("m-1".to_string())), Ok(vec![]));
    assert_eq!(tables, Tables::new());
}

#[test]
fn listing_weights_without_member_id_is_refused() {
    let mut tables = Tables::new();
    create_with_id(&mut tables, form("m-1", 70.0), "w-1".to_string(), 10).expect("created");
    assert_eq!(list(&mut tables, None), Err(Failure::RequestShape(Field::MemberId)));
}

#[test]
fn repeated_weight_id_is_a_storage_error() {
    let mut tables = Tables::new();
    create_with_id(&mut tables, form("m-1", 70.0), "w-1".to_string(), 10).expect("created");
    let again = create_with_id(&mut tables, form("m-2", 71.0), "w-1".to_string(), 11);
    let failure = Failure::Storage(StorageError {
        detail: "UNIQUE constraint failed: weight.id".to_string(),
    });
    assert_eq!(failure.status(), 500);
    assert_eq!(again, Err(failure));
    assert_eq!(list(&mut tables, Some("m-2".to_string())), Ok(vec![]));
    assert_eq!(
        list(&mut tables, Some("m-1".to_string())),
        Ok(vec![row("w-1", "m-1", 70.0, 10)])
    );
}

#[test]
fn deleting_a_weight_answers_the_same_whether_it_exists() {
    let mut tables = Tables::new();
    create_with_id(&mut tables, form("m-1", 70.0), "w-1".to_string(), 10).expect("created");
    create_with_id(&mut tables, form("m-1", 71.0), "w-2".to_string(), 11).expect("created");
    let existing = delete(&mut tables, "w-1".to_string());
    let missing = delete(&mut tables, "nothing".to_string());
    assert_eq!(existing, Ok("Deleted Success!".to_string()));
    assert_eq!(missing, existing);
    assert_eq!(
        list(&mut tables, Some("m-1".to_string())),
        Ok(vec![row("w-2", "m-1", 71.0, 11)])
    );
}

#[test]
fn weight_delete_hands_a_storage_failure_on() {
    assert_eq!(deleted(Ok(1)), Ok("Deleted Success!".to_string()));
    assert_eq!(deleted(Ok(0)), Ok("Deleted Success!".to_string()));
    let lost = StorageError { detail: "connection lost".to_string() };
    assert_eq!(deleted(Err(lost)), Err(StorageError { detail: "connection lost".to_string() }));
}

#[test]
fn submission_is_validated_member_first() {
    assert_eq!(validate(Submission { member_id: None, value: None }), Err(Field::MemberId));
    assert_eq!(
        validate(Submission { member_id: None, value: Some(1.0f64.to_bits()) }),
        Err(Field::MemberId)
    );
    assert_eq!(
        validate(Submission { member_id: Some("m".to_string()), value: None }),
        Err(Field::Value)
    );
    assert_eq!(
        validate(form("m", 1.5)),
        Ok(Measurement { id: None, member_id: "m".to_string(), value: 1.5f64.to_bits() })
    );
}

#[test]
fn weight_statements() {
    let post = Measurement { id: None, member_id: "m-1".to_string(), value: 70.5f64.to_bits() };
    let statement = insert("w-1".to_string(), &post);
    assert_eq!(
        statement,
        Statement::InsertWeight {
            id: "w-1".to_string(),
            value: 70.5f64.to_bits(),
            member_id: "m-1".to_string(),
        }
    );
    assert_eq!(
        statement.sql(),
        "INSERT INTO weight (id, value, member_id, create_time, update_time) VALUES (?, ?, ?, unixepoch(), unixepoch()) RETURNING id"
    );
    assert_eq!(
        statement.params(),
        vec![
            Param::Text(Some("w-1".to_string())),
            Param::Real(70.5f64.to_bits()),
            Param::Text(Some("m-1".to_string())),
        ]
    );
    let listing = select(Some("m-1".to_string())).expect("a statement");
    assert_eq!(listing, Statement::SelectWeights { member_id: "m-1".to_string() });
    assert_eq!(listing.sql(), "SELECT * FROM weight where member_id = ?");
    assert_eq!(listing.params(), vec![Param::Text(Some("m-1".to_string()))]);
    assert_eq!(select(None), Err(Failure::RequestShape(Field::MemberId)));
    let removal = remove("w-1".to_string());
    assert_eq!(removal.sql(), "DELETE FROM weight WHERE id = ?");
    assert_eq!(removal.params(), vec![Param::Text(Some("w-1".to_string()))]);
}

#[test]
fn created_weight_takes_the_first_returned_id() {
    let post = Measurement { id: None, member_id: "m-1".to_string(), value: 70.5f64.to_bits() };
    let reply = created(post, &vec![Some("w-7".to_string())]);
    assert_eq!(
        reply.body,
        Measurement {
            id: Some("w-7".to_string()),
            member_id: "m-1".to_string(),
            value: 70.5f64.to_bits(),
        }
    );
    assert_eq!(reply.location, "/");
}

#[test]
fn new_weight_insert_draws_a_uuid() {
    let post = Measurement { id: None, member_id: "m-1".to_string(), value: 70.5f64.to_bits() };
    match insert_new(&post) {
        Statement::InsertWeight { id, value, member_id } => {
            assert_eq!(id.len(), 36);
            assert_eq!(id.chars().filter(|c| *c == '-').count(), 4);
            assert_eq!(value, 70.5f64.to_bits());
            assert_eq!(member_id, "m-1");
        }
        other => panic!("not an insert of a weight: {:?}", other),
    }
}
