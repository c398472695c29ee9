//! Weight measurements of a member: create, list by member, delete.
//!
//! Each request takes one statement. A deployment has the request looked
//! over here ([`validate`]), builds the statement here ([`insert_new`],
//! [`select`], [`remove`]), runs it on its database, and has the answer made
//! here ([`created`], [`deleted`]). [`create`], [`list`] and [`delete`] do all
//! of it against the tables held in memory.

use vstd::pervasive::unreached;
use vstd::prelude::*;
use crate::error::{Failure, FailureModel, Field, StorageError};
use crate::ident::{is_random_uuid, new_id};
use crate::text::copy_text;
use crate::reply::{created_at, Created};
use crate::route::{Handler, Method, Route, RouteView, Segment, SegmentView, Stage};
use crate::store::{weight_of, Rows, Served, Statement, StatementView, Tables, TablesView};

verus! {

/// A stored measurement as the store returns it. `value` holds the IEEE 754
/// bit pattern of the measured number; the two times are seconds since the
/// epoch, set by the store when the row is inserted.
#[derive(Debug, PartialEq, Eq)]
pub struct Weight {
    pub id: Option<String>,
    pub value: Option<u64>,
    pub member_id: Option<String>,
    pub create_time: Option<i64>,
    pub update_time: Option<i64>,
}

/// A stored measurement as specifications see it.
pub struct WeightView {
    pub id: Option<Seq<char>>,
    pub value: Option<u64>,
    pub member_id: Option<Seq<char>>,
    pub create_time: Option<i64>,
    pub update_time: Option<i64>,
}

impl View for Weight {
    type V = WeightView;

    open spec fn view(&self) -> WeightView {
        WeightView {
            id: self.id.deep_view(),
            value: self.value,
            member_id: self.member_id.deep_view(),
            create_time: self.create_time,
            update_time: self.update_time,
        }
    }
}

impl DeepView for Weight {
    type V = WeightView;

    open spec fn deep_view(&self) -> WeightView {
        self@
    }
}

impl Clone for Weight {
    fn clone(&self) -> (copy: Weight)
        ensures
            copy == *self,
    {
        Weight {
            id: copy_text(&self.id),
            value: self.value,
            member_id: copy_text(&self.member_id),
            create_time: self.create_time,
            update_time: self.update_time,
        }
    }
}

/// The body of a request to record a measurement. Both fields are required;
/// a request may still arrive without them.
#[derive(Debug, PartialEq, Eq)]
pub struct Submission {
    pub member_id: Option<String>,
    pub value: Option<u64>,
}

/// A submission as specifications see it.
pub struct SubmissionView {
    pub member_id: Option<Seq<char>>,
    pub value: Option<u64>,
}

impl View for Submission {
    type V = SubmissionView;

    open spec fn view(&self) -> SubmissionView {
        SubmissionView { member_id: self.member_id.deep_view(), value: self.value }
    }
}

/// A measurement with both required fields, and the id it was stored under
/// once it has one. `value` holds the IEEE 754 bit pattern of the number.
#[derive(Debug, PartialEq, Eq)]
pub struct Measurement {
    pub id: Option<String>,
    pub member_id: String,
    pub value: u64,
}

/// A measurement as specifications see it.
pub struct MeasurementView {
    pub id: Option<Seq<char>>,
    pub member_id: Seq<char>,
    pub value: u64,
}

impl View for Measurement {
    type V = MeasurementView;

    open spec fn view(&self) -> MeasurementView {
        MeasurementView { id: self.id.deep_view(), member_id: self.member_id@, value: self.value }
    }
}

/// The measurement a submission asks to record, or the first required field
/// it lacks: the member before the value.
pub open spec fn validated(form: SubmissionView) -> Result<MeasurementView, Field> {
    match (form.member_id, form.value) {
        (None, _) => Err(Field::MemberId),
        (Some(_), None) => Err(Field::Value),
        (Some(member_id), Some(value)) => Ok(MeasurementView { id: None, member_id, value }),
    }
}

/// The statement that stores `post` under `id`.
pub open spec fn insertion(id: Seq<char>, post: MeasurementView) -> StatementView {
    StatementView::InsertWeight { id, value: post.value, member_id: post.member_id }
}

/// The record answered to a creation: `post` under the first id returned.
pub open spec fn stored(post: MeasurementView, ids: Seq<Option<Seq<char>>>) -> MeasurementView {
    MeasurementView { id: ids[0], ..post }
}

/// Recording `form` under `id` at time `now`: a submission that lacks a
/// field is refused and nothing is stored; otherwise one insert is made,
/// answered with the stored measurement or with the storage failure.
pub open spec fn creation(tables: TablesView, form: SubmissionView, id: Seq<char>, now: i64)
    -> Served<MeasurementView, FailureModel> {
    match validated(form) {
        Err(field) => Served { tables, reply: Err(FailureModel::RequestShape(field)) },
        Ok(post) => {
            let step = tables.execute(insertion(id, post), now);
            Served {
                tables: step.tables,
                reply: match step.outcome {
                    Ok(rows) => Ok(stored(post, rows->Ids_0)),
                    Err(detail) => Err(FailureModel::Storage(detail)),
                },
            }
        },
    }
}

/// Listing the weights of a member: the rows that name it, in the order the
/// store keeps them; a request that names no member is refused.
pub open spec fn listing(tables: TablesView, member_id: Option<Seq<char>>) -> Result<
    Seq<WeightView>,
    FailureModel,
> {
    match member_id {
        None => Err(FailureModel::RequestShape(Field::MemberId)),
        Some(member_id) => Ok(tables.weights.filter(weight_of(member_id))),
    }
}

/// The text that answers a delete of a weight.
pub open spec fn deleted_text() -> Seq<char> {
    "Deleted Success!"@
}

/// Deleting the weight `id`: one delete, answered with the same text
/// whether or not a row had that id.
pub open spec fn deletion(tables: TablesView, id: Seq<char>) -> Served<Seq<char>, FailureModel> {
    let step = tables.execute(StatementView::DeleteWeight { id }, 0);
    Served {
        tables: step.tables,
        reply: match step.outcome {
            Ok(_) => Ok(deleted_text()),
            Err(detail) => Err(FailureModel::Storage(detail)),
        },
    }
}

/// The text a delete answered, or why it failed.
pub open spec fn deleted_view(reply: Result<String, StorageError>) -> Result<
    Seq<char>,
    FailureModel,
> {
    match reply {
        Ok(text) => Ok(text@),
        Err(e) => Err(FailureModel::Storage(e@)),
    }
}

/// The measurement a creation answered, or why it failed.
pub open spec fn created_view(reply: Result<Created<Measurement>, Failure>) -> Result<
    MeasurementView,
    FailureModel,
> {
    match reply {
        Ok(created) => Ok(created.body@),
        Err(e) => Err(e@),
    }
}

/// The rows a listing answered, or why it failed.
pub open spec fn listed_view(reply: Result<Vec<Weight>, Failure>) -> Result<
    Seq<WeightView>,
    FailureModel,
> {
    match reply {
        Ok(rows) => Ok(rows.deep_view()),
        Err(e) => Err(e@),
    }
}

/// Tells whether a submission carries both required fields, and which it
/// lacks first.
pub fn validate(form: Submission) -> (post: Result<Measurement, Field>)
    ensures
        match post {
            Ok(m) => validated(form@) == Ok::<MeasurementView, Field>(m@),
            Err(field) => validated(form@) == Err::<MeasurementView, Field>(field),
        },
{
    match form.member_id {
        None => Err(Field::MemberId),
        Some(member_id) => match form.value {
            None => Err(Field::Value),
            Some(value) => Ok(Measurement { id: None, member_id, value }),
        },
    }
}

/// The insert that stores `post` under `id`.
pub fn insert(id: String, post: &Measurement) -> (statement: Statement)
    ensures
        statement@ == insertion(id@, post@),
{
    Statement::InsertWeight { id, value: post.value, member_id: post.member_id.clone() }
}

/// The insert that stores `post` under a freshly drawn identifier: a random
/// UUID in canonical text form.
pub fn insert_new(post: &Measurement) -> (statement: Statement)
    ensures
        exists|id: Seq<char>|
            #![trigger is_random_uuid(id)]
            is_random_uuid(id) && statement@ == insertion(id, post@),
{
    let id = new_id();
    insert(id, post)
}

/// The answer to a creation whose insert returned `ids`.
pub fn created(post: Measurement, ids: &Vec<Option<String>>) -> (reply: Created<Measurement>)
    requires
        ids.len() > 0,
    ensures
        reply.location@ == created_at(),
        reply.body@ == stored(post@, ids.deep_view()),
{
    let body = Measurement { id: copy_text(&ids[0]), member_id: post.member_id, value: post.value };
    Created::new(body)
}

/// Records a measurement under the given id, at time `now` in seconds since
/// the epoch.
///
/// A submission without `member_id` or `value` is refused as malformed and
/// nothing is stored. Otherwise the insert succeeds exactly when no weight
/// has that id yet, whether or not the member exists; the new row carries
/// `now` as both its times.
pub fn create_with_id(tables: &mut Tables, form: Submission, id: String, now: i64) -> (reply:
    Result<Created<Measurement>, Failure>)
    ensures
        final(tables)@ == creation(old(tables)@, form@, id@, now).tables,
        created_view(reply) == creation(old(tables)@, form@, id@, now).reply,
        reply is Ok <==> form.member_id is Some && form.value is Some && !old(
            tables,
        )@.weight_ids().contains(Some(id@)),
        reply matches Err(Failure::RequestShape(_)) <==> form.member_id is None || form.value
            is None,
        reply matches Ok(created) ==> created.location@ == created_at(),
        old(tables)@.keyed() ==> final(tables)@.keyed(),
{
    let post = match validate(form) {
        Ok(post) => post,
        Err(field) => {
            return Err(Failure::RequestShape(field));
        },
    };
    let statement = insert(id, &post);
    match tables.run(&statement, now) {
        Ok(Rows::Ids(ids)) => {
            assert(ids.deep_view().len() == 1);
            Ok(created(post, &ids))
        },
        Ok(_) => unreached(),
        Err(e) => Err(Failure::Storage(e)),
    }
}

/// Records a measurement under a freshly drawn identifier.
///
/// The identifier is a random UUID in canonical text form; with it the
/// request is served as [`create_with_id`] says.
pub fn create(tables: &mut Tables, form: Submission, now: i64) -> (reply: Result<
    Created<Measurement>,
    Failure,
>)
    ensures
        exists|id: Seq<char>|
            #![trigger is_random_uuid(id)]
            {
                &&& is_random_uuid(id)
                &&& final(tables)@ == creation(old(tables)@, form@, id, now).tables
                &&& created_view(reply) == creation(old(tables)@, form@, id, now).reply
            },
        reply matches Ok(created) ==> created.location@ == created_at(),
        old(tables)@.keyed() ==> final(tables)@.keyed(),
{
    let id = new_id();
    create_with_id(tables, form, id, now)
}

/// The select that lists the weights of the member a request names. A
/// request that names none is refused as malformed.
pub fn select(member_id: Option<String>) -> (statement: Result<Statement, Failure>)
    ensures
        match member_id {
            Some(id) => statement matches Ok(s) && s@ == (StatementView::SelectWeights {
                member_id: id@,
            }),
            None => statement matches Err(e) && e@ == FailureModel::RequestShape(Field::MemberId),
        },
{
    match member_id {
        Some(member_id) => Ok(Statement::SelectWeights { member_id }),
        None => Err(Failure::RequestShape(Field::MemberId)),
    }
}

/// Lists the weights of a member. A member without weights, or an id that
/// names no member, gives an empty list; a request without `member_id` is
/// refused as malformed. The tables are left as they were.
pub fn list(tables: &mut Tables, member_id: Option<String>) -> (reply: Result<
    Vec<Weight>,
    Failure,
>)
    ensures
        final(tables)@ == old(tables)@,
        listed_view(reply) == listing(old(tables)@, member_id.deep_view()),
{
    let statement = match select(member_id) {
        Ok(statement) => statement,
        Err(refusal) => {
            return Err(refusal);
        },
    };
    match tables.run(&statement, 0) {
        Ok(Rows::Weights(rows)) => Ok(rows),
        Ok(_) => unreached(),
        Err(e) => Err(Failure::Storage(e)),
    }
}

/// The delete that removes the weight `id`.
pub fn remove(id: String) -> (statement: Statement)
    ensures
        statement@ == (StatementView::DeleteWeight { id: id@ }),
{
    Statement::DeleteWeight { id }
}

/// The answer to a delete: the same text whether a row was removed or none
/// was found; a storage failure is handed on as it came.
pub fn deleted(outcome: Result<u64, StorageError>) -> (reply: Result<String, StorageError>)
    ensures
        match outcome {
            Ok(_) => reply matches Ok(text) && text@ == deleted_text(),
            Err(e) => reply == Err::<String, StorageError>(e),
        },
{
    match outcome {
        Ok(_) => Ok(String::from_str("Deleted Success!")),
        Err(e) => Err(e),
    }
}

/// Deletes the weight `id`, if there is one, and answers the same either
/// way.
pub fn delete(tables: &mut Tables, id: String) -> (reply: Result<String, StorageError>)
    ensures
        final(tables)@ == deletion(old(tables)@, id@).tables,
        deleted_view(reply) == deletion(old(tables)@, id@).reply,
        old(tables)@.keyed() ==> final(tables)@.keyed(),
{
    let statement = remove(id);
    match tables.run(&statement, 0) {
        Ok(Rows::Affected(n)) => deleted(Ok(n)),
        Ok(_) => unreached(),
        Err(e) => deleted(Err(e)),
    }
}

/// The base path the weight routes are mounted under: `/weight`.
pub open spec fn stage_base() -> Seq<Seq<char>> {
    seq!["weight"@]
}

/// The weight routes, relative to their base: create on `POST /`, list on
/// `GET /` with the member in the query, delete on `DELETE /<id>`.
pub open spec fn stage_routes() -> Seq<RouteView> {
    seq![
        RouteView { method: Method::Post, path: seq![], handler: Handler::WeightCreate },
        RouteView { method: Method::Get, path: seq![], handler: Handler::WeightList },
        RouteView {
            method: Method::Delete,
            path: seq![SegmentView::Param],
            handler: Handler::WeightDelete,
        },
    ]
}

/// The weight routes and where to mount them.
pub fn stage() -> (stage: Stage)
    ensures
        stage.base.deep_view() == stage_base(),
        stage.routes.deep_view() == stage_routes(),
{
    let mut base: Vec<String> = Vec::new();
    base.push(String::from_str("weight"));
    let mut id: Vec<Segment> = Vec::new();
    id.push(Segment::Param);
    let mut routes: Vec<Route> = Vec::new();
    routes.push(Route::new(Method::Post, Vec::new(), Handler::WeightCreate));
    routes.push(Route::new(Method::Get, Vec::new(), Handler::WeightList));
    routes.push(Route::new(Method::Delete, id, Handler::WeightDelete));
    assert(routes.deep_view()[0].path =~= seq![]);
    assert(routes.deep_view()[1].path =~= seq![]);
    assert(routes.deep_view()[2].path =~= seq![SegmentView::Param]);
    Stage { base, routes }
}

} // verus!
