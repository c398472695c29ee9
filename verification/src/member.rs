//! Member profiles: create, list, delete.
//!
//! Each request takes one statement. A deployment builds it here
//! ([`insert_new`], [`select`], [`remove`]), runs it on its database, and has
//! the answer made here ([`created`], [`deleted`]). [`create`], [`list`] and
//! [`delete`] do all of it against the tables held in memory.

use vstd::pervasive::unreached;
use vstd::prelude::*;
use crate::error::StorageError;
use crate::ident::{is_random_uuid, new_id};
use crate::reply::{created_at, Created};
use crate::route::{Handler, Method, Route, RouteView, Segment, SegmentView, Stage};
use crate::store::{Rows, Served, Statement, StatementView, Tables, TablesView};
use crate::text::copy_text;

verus! {

/// A member profile. `id` is assigned by the service when the profile is
/// created and never changes afterwards; every other field is optional.
#[derive(Debug, PartialEq, Eq)]
pub struct Member {
    pub id: Option<String>,
    pub name: Option<String>,
    pub nickname: Option<String>,
    pub sex: Option<i64>,
    pub relationship: Option<i64>,
}

/// A member profile as specifications see it: texts as character sequences.
pub struct MemberView {
    pub id: Option<Seq<char>>,
    pub name: Option<Seq<char>>,
    pub nickname: Option<Seq<char>>,
    pub sex: Option<i64>,
    pub relationship: Option<i64>,
}

impl View for Member {
    type V = MemberView;

    open spec fn view(&self) -> MemberView {
        MemberView {
            id: self.id.deep_view(),
            name: self.name.deep_view(),
            nickname: self.nickname.deep_view(),
            sex: self.sex,
            relationship: self.relationship,
        }
    }
}

impl DeepView for Member {
    type V = MemberView;

    open spec fn deep_view(&self) -> MemberView {
        self@
    }
}

impl Clone for Member {
    fn clone(&self) -> (copy: Member)
        ensures
            copy == *self,
    {
        Member {
            id: copy_text(&self.id),
            name: copy_text(&self.name),
            nickname: copy_text(&self.nickname),
            sex: self.sex,
            relationship: self.relationship,
        }
    }
}

/// The statement that stores `post` under `id`. Whatever id `post` carries
/// is ignored.
pub open spec fn insertion(id: Seq<char>, post: MemberView) -> StatementView {
    StatementView::InsertMember {
        id,
        name: post.name,
        nickname: post.nickname,
        sex: post.sex,
        relationship: post.relationship,
    }
}

/// The record answered to a creation: `post` under the first id returned.
pub open spec fn stored(post: MemberView, ids: Seq<Option<Seq<char>>>) -> MemberView {
    MemberView { id: ids[0], ..post }
}

/// Creating `post` under `id`: one insert, answered with the stored record,
/// or the storage failure handed on as it came.
pub open spec fn creation(tables: TablesView, post: MemberView, id: Seq<char>) -> Served<
    MemberView,
    Seq<char>,
> {
    let step = tables.execute(insertion(id, post), 0);
    Served {
        tables: step.tables,
        reply: match step.outcome {
            Ok(rows) => Ok(stored(post, rows->Ids_0)),
            Err(detail) => Err(detail),
        },
    }
}

/// Listing the members: every row, in the order the store keeps them.
pub open spec fn listing(tables: TablesView) -> Seq<MemberView> {
    tables.execute(StatementView::SelectMembers, 0).outcome->Ok_0->Members_0
}

/// The text that answers every delete of a member.
pub open spec fn deleted_text() -> Seq<char> {
    "success"@
}

/// Deleting the member `id`: one delete, answered with the same text
/// whether or not a row had that id.
pub open spec fn deletion(tables: TablesView, id: Seq<char>) -> Served<Seq<char>, Seq<char>> {
    let step = tables.execute(StatementView::DeleteMember { id }, 0);
    Served {
        tables: step.tables,
        reply: match step.outcome {
            Ok(_) => Ok(deleted_text()),
            Err(detail) => Err(detail),
        },
    }
}

/// The text a delete answered, or the detail of its failure.
pub open spec fn deleted_view(reply: Result<String, StorageError>) -> Result<Seq<char>, Seq<char>> {
    match reply {
        Ok(text) => Ok(text@),
        Err(e) => Err(e@),
    }
}

/// The record a creation answered, or the detail of its failure.
pub open spec fn created_view(reply: Result<Created<Member>, StorageError>) -> Result<
    MemberView,
    Seq<char>,
> {
    match reply {
        Ok(created) => Ok(created.body@),
        Err(e) => Err(e@),
    }
}

/// The insert that stores `post` under `id`.
pub fn insert(id: String, post: &Member) -> (statement: Statement)
    ensures
        statement@ == insertion(id@, post@),
{
    Statement::InsertMember {
        id,
        name: copy_text(&post.name),
        nickname: copy_text(&post.nickname),
        sex: post.sex,
        relationship: post.relationship,
    }
}

/// The insert that stores `post` under a freshly drawn identifier: a random
/// UUID in canonical text form.
pub fn insert_new(post: &Member) -> (statement: Statement)
    ensures
        exists|id: Seq<char>|
            #![trigger is_random_uuid(id)]
            is_random_uuid(id) && statement@ == insertion(id, post@),
{
    let id = new_id();
    insert(id, post)
}

/// The answer to a creation whose insert returned `ids`.
pub fn created(post: Member, ids: &Vec<Option<String>>) -> (reply: Created<Member>)
    requires
        ids.len() > 0,
    ensures
        reply.location@ == created_at(),
        reply.body@ == stored(post@, ids.deep_view()),
{
    let body = Member {
        id: copy_text(&ids[0]),
        name: post.name,
        nickname: post.nickname,
        sex: post.sex,
        relationship: post.relationship,
    };
    Created::new(body)
}

/// Creates a member under the given id.
///
/// Succeeds exactly when no member has that id yet; the answer then carries
/// `post` with `id` in place of whatever id it had, and the table has gained
/// that row at its end. Otherwise the store's failure is returned and the
/// tables are unchanged.
pub fn create_with_id(tables: &mut Tables, post: Member, id: String) -> (reply: Result<
    Created<Member>,
    StorageError,
>)
    ensures
        final(tables)@ == creation(old(tables)@, post@, id@).tables,
        created_view(reply) == creation(old(tables)@, post@, id@).reply,
        reply is Ok <==> !old(tables)@.member_ids().contains(Some(id@)),
        reply matches Ok(created) ==> created.location@ == created_at(),
        old(tables)@.keyed() ==> final(tables)@.keyed(),
{
    let statement = insert(id, &post);
    match tables.run(&statement, 0) {
        Ok(Rows::Ids(ids)) => {
            assert(ids.deep_view().len() == 1);
            Ok(created(post, &ids))
        },
        Ok(_) => unreached(),
        Err(e) => Err(e),
    }
}

/// Creates a member under a freshly drawn identifier.
///
/// The identifier is a random UUID in canonical text form; with it the
/// request is served as [`create_with_id`] says.
pub fn create(tables: &mut Tables, post: Member) -> (reply: Result<Created<Member>, StorageError>)
    ensures
        exists|id: Seq<char>|
            #![trigger is_random_uuid(id)]
            {
                &&& is_random_uuid(id)
                &&& final(tables)@ == creation(old(tables)@, post@, id).tables
                &&& created_view(reply) == creation(old(tables)@, post@, id).reply
            },
        reply matches Ok(created) ==> created.location@ == created_at(),
        old(tables)@.keyed() ==> final(tables)@.keyed(),
{
    let id = new_id();
    create_with_id(tables, post, id)
}

/// The select that lists every member.
pub fn select() -> (statement: Statement)
    ensures
        statement@ == StatementView::SelectMembers,
{
    Statement::SelectMembers
}

/// Lists every member, in the order the store keeps them. The tables are
/// left as they were.
pub fn list(tables: &mut Tables) -> (reply: Result<Vec<Member>, StorageError>)
    ensures
        final(tables)@ == old(tables)@,
        reply matches Ok(rows) && rows.deep_view() == listing(old(tables)@),
{
    let statement = select();
    match tables.run(&statement, 0) {
        Ok(Rows::Members(rows)) => Ok(rows),
        Ok(_) => unreached(),
        Err(e) => Err(e),
    }
}

/// The delete that removes the member `id`.
pub fn remove(id: String) -> (statement: Statement)
    ensures
        statement@ == (StatementView::DeleteMember { id: id@ }),
{
    Statement::DeleteMember { id }
}

/// The answer to a delete: the same text whether a row was removed or none
/// was found; a storage failure is handed on as it came.
pub fn deleted(outcome: Result<u64, StorageError>) -> (reply: Result<String, StorageError>)
    ensures
        match outcome {
            Ok(_) => reply matches Ok(text) && text@ == deleted_text(),
            Err(e) => reply == Err::<String, StorageError>(e),
        },
{
    match outcome {
        Ok(_) => Ok(String::from_str("success")),
        Err(e) => Err(e),
    }
}

/// Deletes the member `id`, if there is one, and answers the same either
/// way. The member's weights stay.
pub fn delete(tables: &mut Tables, id: String) -> (reply: Result<String, StorageError>)
    ensures
        final(tables)@ == deletion(old(tables)@, id@).tables,
        deleted_view(reply) == deletion(old(tables)@, id@).reply,
        old(tables)@.keyed() ==> final(tables)@.keyed(),
{
    let statement = remove(id);
    match tables.run(&statement, 0) {
        Ok(Rows::Affected(n)) => deleted(Ok(n)),
        Ok(_) => unreached(),
        Err(e) => deleted(Err(e)),
    }
}

/// The base path the member routes are mounted under: `/member`.
pub open spec fn stage_base() -> Seq<Seq<char>> {
    seq!["member"@]
}

/// The member routes, relative to their base: create on `POST /`, list on
/// `GET /`, delete on `DELETE /<id>`.
pub open spec fn stage_routes() -> Seq<RouteView> {
    seq![
        RouteView { method: Method::Post, path: seq![], handler: Handler::MemberCreate },
        RouteView { method: Method::Get, path: seq![], handler: Handler::MemberList },
        RouteView {
            method: Method::Delete,
            path: seq![SegmentView::Param],
            handler: Handler::MemberDelete,
        },
    ]
}

/// The member routes and where to mount them.
pub fn stage() -> (stage: Stage)
    ensures
        stage.base.deep_view() == stage_base(),
        stage.routes.deep_view() == stage_routes(),
{
    let mut base: Vec<String> = Vec::new();
    base.push(String::from_str("member"));
    let mut id: Vec<Segment> = Vec::new();
    id.push(Segment::Param);
    let mut routes: Vec<Route> = Vec::new();
    routes.push(Route::new(Method::Post, Vec::new(), Handler::MemberCreate));
    routes.push(Route::new(Method::Get, Vec::new(), Handler::MemberList));
    routes.push(Route::new(Method::Delete, id, Handler::MemberDelete));
    assert(routes.deep_view()[0].path =~= seq![]);
    assert(routes.deep_view()[1].path =~= seq![]);
    assert(routes.deep_view()[2].path =~= seq![SegmentView::Param]);
    Stage { base, routes }
}

} // verus!
