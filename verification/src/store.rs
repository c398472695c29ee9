//! The store behind the service: the statements it issues, and a model of the
//! two tables that says what each statement means.
//!
//! A deployment hands a [`Statement`]'s text and parameters to a SQL
//! database. [`Tables`] holds the same rows in memory and runs the same
//! statements; the laws of the service are stated and proved against it.

use vstd::prelude::*;
use crate::error::StorageError;
use crate::member::{Member, MemberView};
use crate::text::copy_text;
use crate::weight::{Weight, WeightView};

verus! {

/// A value bound to a placeholder of a statement, in the order of the
/// placeholders. `Real` carries the bit pattern of the number.
#[derive(Debug, PartialEq, Eq)]
pub enum Param {
    Text(Option<String>),
    Integer(Option<i64>),
    Real(u64),
}

/// A bound value as specifications see it.
pub enum ParamView {
    Text(Option<Seq<char>>),
    Integer(Option<i64>),
    Real(u64),
}

impl DeepView for Param {
    type V = ParamView;

    open spec fn deep_view(&self) -> ParamView {
        match self {
            Param::Text(t) => ParamView::Text(t.deep_view()),
            Param::Integer(i) => ParamView::Integer(*i),
            Param::Real(r) => ParamView::Real(*r),
        }
    }
}

/// One of the six statements the service issues. Each handler issues exactly
/// one per request.
#[derive(Debug, PartialEq, Eq)]
pub enum Statement {
    InsertMember {
        id: String,
        name: Option<String>,
        nickname: Option<String>,
        sex: Option<i64>,
        relationship: Option<i64>,
    },
    SelectMembers,
    DeleteMember { id: String },
    InsertWeight { id: String, value: u64, member_id: String },
    SelectWeights { member_id: String },
    DeleteWeight { id: String },
}

/// A statement as specifications see it.
pub enum StatementView {
    InsertMember {
        id: Seq<char>,
        name: Option<Seq<char>>,
        nickname: Option<Seq<char>>,
        sex: Option<i64>,
        relationship: Option<i64>,
    },
    SelectMembers,
    DeleteMember { id: Seq<char> },
    InsertWeight { id: Seq<char>, value: u64, member_id: Seq<char> },
    SelectWeights { member_id: Seq<char> },
    DeleteWeight { id: Seq<char> },
}

impl View for Statement {
    type V = StatementView;

    open spec fn view(&self) -> StatementView {
        match self {
            Statement::InsertMember { id, name, nickname, sex, relationship } => {
                StatementView::InsertMember {
                    id: id@,
                    name: name.deep_view(),
                    nickname: nickname.deep_view(),
                    sex: *sex,
                    relationship: *relationship,
                }
            },
            Statement::SelectMembers => StatementView::SelectMembers,
            Statement::DeleteMember { id } => StatementView::DeleteMember { id: id@ },
            Statement::InsertWeight { id, value, member_id } => StatementView::InsertWeight {
                id: id@,
                value: *value,
                member_id: member_id@,
            },
            Statement::SelectWeights { member_id } => StatementView::SelectWeights {
                member_id: member_id@,
            },
            Statement::DeleteWeight { id } => StatementView::DeleteWeight { id: id@ },
        }
    }
}

impl StatementView {
    /// The SQL text of the statement, with `?` for each parameter.
    pub open spec fn sql(self) -> Seq<char> {
        match self {
            StatementView::InsertMember { .. } =>
                "INSERT INTO member (id, name, nickname, sex, relationship) VALUES (?, ?, ?, ?, ?) RETURNING id"@,
            StatementView::SelectMembers => "SELECT * FROM member"@,
            StatementView::DeleteMember { .. } => "DELETE FROM member WHERE id = ?"@,
            StatementView::InsertWeight { .. } =>
                "INSERT INTO weight (id, value, member_id, create_time, update_time) VALUES (?, ?, ?, unixepoch(), unixepoch()) RETURNING id"@,
            StatementView::SelectWeights { .. } => "SELECT * FROM weight where member_id = ?"@,
            StatementView::DeleteWeight { .. } => "DELETE FROM weight WHERE id = ?"@,
        }
    }

    /// The values bound to the placeholders of [`Self::sql`], first to last.
    pub open spec fn params(self) -> Seq<ParamView> {
        match self {
            StatementView::InsertMember { id, name, nickname, sex, relationship } => seq![
                ParamView::Text(Some(id)),
                ParamView::Text(name),
                ParamView::Text(nickname),
                ParamView::Integer(sex),
                ParamView::Integer(relationship),
            ],
            StatementView::SelectMembers => seq![],
            StatementView::DeleteMember { id } => seq![ParamView::Text(Some(id))],
            StatementView::InsertWeight { id, value, member_id } => seq![
                ParamView::Text(Some(id)),
                ParamView::Real(value),
                ParamView::Text(Some(member_id)),
            ],
            StatementView::SelectWeights { member_id } => seq![ParamView::Text(Some(member_id))],
            StatementView::DeleteWeight { id } => seq![ParamView::Text(Some(id))],
        }
    }
}

impl Statement {
    /// The SQL text to prepare.
    pub fn sql(&self) -> (text: &'static str)
        ensures
            text@ == self@.sql(),
    {
        match self {
            Statement::InsertMember { .. } =>
                "INSERT INTO member (id, name, nickname, sex, relationship) VALUES (?, ?, ?, ?, ?) RETURNING id",
            Statement::SelectMembers => "SELECT * FROM member",
            Statement::DeleteMember { .. } => "DELETE FROM member WHERE id = ?",
            Statement::InsertWeight { .. } =>
                "INSERT INTO weight (id, value, member_id, create_time, update_time) VALUES (?, ?, ?, unixepoch(), unixepoch()) RETURNING id",
            Statement::SelectWeights { .. } => "SELECT * FROM weight where member_id = ?",
            Statement::DeleteWeight { .. } => "DELETE FROM weight WHERE id = ?",
        }
    }

    /// The values to bind, in the order of the placeholders.
    pub fn params(&self) -> (bound: Vec<Param>)
        ensures
            bound.deep_view() == self@.params(),
    {
        let mut bound: Vec<Param> = Vec::new();
        match self {
            Statement::InsertMember { id, name, nickname, sex, relationship } => {
                bound.push(Param::Text(Some(id.clone())));
                bound.push(Param::Text(copy_text(name)));
                bound.push(Param::Text(copy_text(nickname)));
                bound.push(Param::Integer(*sex));
                bound.push(Param::Integer(*relationship));
            },
            Statement::SelectMembers => {},
            Statement::DeleteMember { id } => {
                bound.push(Param::Text(Some(id.clone())));
            },
            Statement::InsertWeight { id, value, member_id } => {
                bound.push(Param::Text(Some(id.clone())));
                bound.push(Param::Real(*value));
                bound.push(Param::Text(Some(member_id.clone())));
            },
            Statement::SelectWeights { member_id } => {
                bound.push(Param::Text(Some(member_id.clone())));
            },
            Statement::DeleteWeight { id } => {
                bound.push(Param::Text(Some(id.clone())));
            },
        }
        bound
    }
}

/// What a statement hands back: the `id` column of the inserted rows, the
/// selected rows, or the number of rows a delete removed.
#[derive(Debug, PartialEq, Eq)]
pub enum Rows {
    Ids(Vec<Option<String>>),
    Members(Vec<Member>),
    Weights(Vec<Weight>),
    Affected(u64),
}

/// A statement's result as specifications see it.
pub enum RowsView {
    Ids(Seq<Option<Seq<char>>>),
    Members(Seq<MemberView>),
    Weights(Seq<WeightView>),
    Affected(nat),
}

impl View for Rows {
    type V = RowsView;

    open spec fn view(&self) -> RowsView {
        match self {
            Rows::Ids(ids) => RowsView::Ids(ids.deep_view()),
            Rows::Members(rows) => RowsView::Members(rows.deep_view()),
            Rows::Weights(rows) => RowsView::Weights(rows.deep_view()),
            Rows::Affected(n) => RowsView::Affected(*n as nat),
        }
    }
}

/// The result of running a statement, or the detail of the storage failure.
pub type Outcome = Result<RowsView, Seq<char>>;

/// The view of an executable outcome.
pub open spec fn outcome_view(outcome: Result<Rows, StorageError>) -> Outcome {
    match outcome {
        Ok(rows) => Ok(rows@),
        Err(e) => Err(e@),
    }
}

/// The detail given when an insert repeats a member's primary key.
pub open spec fn duplicate_member() -> Seq<char> {
    "UNIQUE constraint failed: member.id"@
}

/// The detail given when an insert repeats a weight's primary key.
pub open spec fn duplicate_weight() -> Seq<char> {
    "UNIQUE constraint failed: weight.id"@
}

/// The rows of the two tables, each in the order of insertion.
pub struct TablesView {
    pub members: Seq<MemberView>,
    pub weights: Seq<WeightView>,
}

/// The tables after a statement, and what the statement handed back.
pub struct Step {
    pub tables: TablesView,
    pub outcome: Outcome,
}

/// The tables after a request, and the answer to it or why there is none.
pub struct Served<T, E> {
    pub tables: TablesView,
    pub reply: Result<T, E>,
}

/// Selects the members whose id is not `id`.
pub open spec fn other_member(id: Seq<char>) -> spec_fn(MemberView) -> bool {
    |m: MemberView| m.id != Some(id)
}

/// Selects the weights whose id is not `id`.
pub open spec fn other_weight(id: Seq<char>) -> spec_fn(WeightView) -> bool {
    |w: WeightView| w.id != Some(id)
}

/// Selects the weights measured of member `member_id`.
pub open spec fn weight_of(member_id: Seq<char>) -> spec_fn(WeightView) -> bool {
    |w: WeightView| w.member_id == Some(member_id)
}

impl TablesView {
    /// Two empty tables.
    pub open spec fn empty() -> TablesView {
        TablesView { members: Seq::empty(), weights: Seq::empty() }
    }

    /// The `id` column of the member table.
    pub open spec fn member_ids(self) -> Seq<Option<Seq<char>>> {
        self.members.map_values(|m: MemberView| m.id)
    }

    /// The `id` column of the weight table.
    pub open spec fn weight_ids(self) -> Seq<Option<Seq<char>>> {
        self.weights.map_values(|w: WeightView| w.id)
    }

    /// The primary keys hold: every row has an id, and no id occurs twice in
    /// its table.
    pub open spec fn keyed(self) -> bool {
        &&& forall|i: int| 0 <= i < self.members.len() ==> (#[trigger] self.members[i]).id is Some
        &&& forall|i: int| 0 <= i < self.weights.len() ==> (#[trigger] self.weights[i]).id is Some
        &&& self.member_ids().no_duplicates()
        &&& self.weight_ids().no_duplicates()
    }

    /// The tables after `statement` ran at time `now` (seconds since the
    /// epoch), and its result.
    ///
    /// An insert appends a row and returns its id; it fails, changing
    /// nothing, when the id is already in the table. Nothing asks whether a
    /// weight's member exists. A select returns rows in the order of
    /// insertion. A delete removes the rows with the given id, if any, and
    /// tells how many it removed; deleting a member leaves its weights.
    pub open spec fn execute(self, statement: StatementView, now: i64) -> Step {
        match statement {
            StatementView::InsertMember { id, name, nickname, sex, relationship } => {
                if self.member_ids().contains(Some(id)) {
                    Step { tables: self, outcome: Err(duplicate_member()) }
                } else {
                    let row = MemberView { id: Some(id), name, nickname, sex, relationship };
                    Step {
                        tables: TablesView { members: self.members.push(row), ..self },
                        outcome: Ok(RowsView::Ids(seq![Some(id)])),
                    }
                }
            },
            StatementView::SelectMembers => Step {
                tables: self,
                outcome: Ok(RowsView::Members(self.members)),
            },
            StatementView::DeleteMember { id } => {
                let kept = self.members.filter(other_member(id));
                Step {
                    tables: TablesView { members: kept, ..self },
                    outcome: Ok(RowsView::Affected((self.members.len() - kept.len()) as nat)),
                }
            },
            StatementView::InsertWeight { id, value, member_id } => {
                if self.weight_ids().contains(Some(id)) {
                    Step { tables: self, outcome: Err(duplicate_weight()) }
                } else {
                    let row = WeightView {
                        id: Some(id),
                        value: Some(value),
                        member_id: Some(member_id),
                        create_time: Some(now),
                        update_time: Some(now),
                    };
                    Step {
                        tables: TablesView { weights: self.weights.push(row), ..self },
                        outcome: Ok(RowsView::Ids(seq![Some(id)])),
                    }
                }
            },
            StatementView::SelectWeights { member_id } => Step {
                tables: self,
                outcome: Ok(RowsView::Weights(self.weights.filter(weight_of(member_id)))),
            },
            StatementView::DeleteWeight { id } => {
                let kept = self.weights.filter(other_weight(id));
                Step {
                    tables: TablesView { weights: kept, ..self },
                    outcome: Ok(RowsView::Affected((self.weights.len() - kept.len()) as nat)),
                }
            },
        }
    }
}

/// Keeping some rows of a table keeps its primary key: the rows kept were
/// rows before, and no key occurs twice among them.
pub proof fn lemma_filter_keeps_keys<A>(
    rows: Seq<A>,
    key: spec_fn(A) -> Option<Seq<char>>,
    keep: spec_fn(A) -> bool,
)
    requires
        rows.map_values(key).no_duplicates(),
    ensures
        rows.filter(keep).map_values(key).no_duplicates(),
        rows.filter(keep).len() <= rows.len(),
        forall|i: int|
            0 <= i < rows.filter(keep).len() ==> rows.contains(#[trigger] rows.filter(keep)[i]),
    decreases rows.len(),
{
    reveal(Seq::filter);
    if rows.len() > 0 {
        let rest = rows.drop_last();
        let last = rows.last();
        let kept = rest.filter(keep);
        assert forall|i: int, j: int|
            0 <= i < rest.len() && 0 <= j < rest.len() && i != j implies rest.map_values(key)[i]
            != rest.map_values(key)[j] by {
            assert(rows.map_values(key)[i] != rows.map_values(key)[j]);
        }
        lemma_filter_keeps_keys(rest, key, keep);
        assert forall|i: int| 0 <= i < kept.len() implies rows.contains(#[trigger] kept[i]) && key(
            kept[i],
        ) != key(last) by {
            let k = choose|k: int| 0 <= k < rest.len() && rest[k] == kept[i];
            assert(rows.map_values(key)[k] != rows.map_values(key)[rows.len() - 1]);
        }
        if keep(last) {
            let out = kept.push(last);
            assert forall|i: int, j: int|
                0 <= i < out.len() && 0 <= j < out.len() && i != j implies out.map_values(key)[i]
                != out.map_values(key)[j] by {
                if i < kept.len() && j < kept.len() {
                    assert(kept.map_values(key)[i] != kept.map_values(key)[j]);
                }
            }
        }
    }
}

/// Running a statement keeps the primary keys: if every row had an id and no
/// id occurred twice in its table before, the same holds after.
pub proof fn lemma_execute_keeps_keys(tables: TablesView, statement: StatementView, now: i64)
    requires
        tables.keyed(),
    ensures
        tables.execute(statement, now).tables.keyed(),
{
    let after = tables.execute(statement, now).tables;
    match statement {
        StatementView::InsertMember { id, .. } => {
            if !tables.member_ids().contains(Some(id)) {
                assert forall|i: int, j: int|
                    0 <= i < after.members.len() && 0 <= j < after.members.len() && i
                        != j implies after.member_ids()[i] != after.member_ids()[j] by {
                    if i < tables.members.len() {
                        assert(tables.member_ids()[i] == after.member_ids()[i]);
                    }
                    if j < tables.members.len() {
                        assert(tables.member_ids()[j] == after.member_ids()[j]);
                    }
                }
            }
        },
        StatementView::InsertWeight { id, .. } => {
            if !tables.weight_ids().contains(Some(id)) {
                assert forall|i: int, j: int|
                    0 <= i < after.weights.len() && 0 <= j < after.weights.len() && i
                        != j implies after.weight_ids()[i] != after.weight_ids()[j] by {
                    if i < tables.weights.len() {
                        assert(tables.weight_ids()[i] == after.weight_ids()[i]);
                    }
                    if j < tables.weights.len() {
                        assert(tables.weight_ids()[j] == after.weight_ids()[j]);
                    }
                }
            }
        },
        StatementView::DeleteMember { id } => {
            lemma_filter_keeps_keys(tables.members, |m: MemberView| m.id, other_member(id));
            assert forall|k: int| 0 <= k < after.members.len() implies (
            #[trigger] after.members[k]).id is Some by {}
        },
        StatementView::DeleteWeight { id } => {
            lemma_filter_keeps_keys(tables.weights, |w: WeightView| w.id, other_weight(id));
            assert forall|k: int| 0 <= k < after.weights.len() implies (
            #[trigger] after.weights[k]).id is Some by {}
        },
        _ => {},
    }
}

/// The rows of a member table as specifications see them.
pub open spec fn member_views(rows: Seq<Member>) -> Seq<MemberView> {
    rows.map_values(|m: Member| m@)
}

/// The rows of a weight table as specifications see them.
pub open spec fn weight_views(rows: Seq<Weight>) -> Seq<WeightView> {
    rows.map_values(|w: Weight| w@)
}

/// The two tables, held in memory. They start empty and change only through
/// [`Tables::run`], so the primary keys hold of every value of this type: see
/// [`TablesView::keyed`].
#[derive(Debug, PartialEq, Eq)]
pub struct Tables {
    members: Vec<Member>,
    weights: Vec<Weight>,
}

impl View for Tables {
    type V = TablesView;

    closed spec fn view(&self) -> TablesView {
        TablesView { members: member_views(self.members@), weights: weight_views(self.weights@) }
    }
}

impl Tables {
    /// Two empty tables.
    pub fn new() -> (tables: Tables)
        ensures
            tables@ == TablesView::empty(),
            tables@.keyed(),
    {
        let tables = Tables { members: Vec::new(), weights: Vec::new() };
        assert(tables@.members =~= Seq::empty());
        assert(tables@.weights =~= Seq::empty());
        tables
    }

    /// Runs `statement` at time `now`, in seconds since the epoch.
    pub fn run(&mut self, statement: &Statement, now: i64) -> (outcome: Result<
        Rows,
        StorageError,
    >)
        ensures
            final(self)@ == old(self)@.execute(statement@, now).tables,
            outcome_view(outcome) == old(self)@.execute(statement@, now).outcome,
            old(self)@.keyed() ==> final(self)@.keyed(),
    {
        proof {
            if self@.keyed() {
                lemma_execute_keeps_keys(self@, statement@, now);
            }
        }
        match statement {
            Statement::InsertMember { id, name, nickname, sex, relationship } => {
                let row = Member {
                    id: Some(id.clone()),
                    name: copy_text(name),
                    nickname: copy_text(nickname),
                    sex: *sex,
                    relationship: *relationship,
                };
                self.insert_member(row, id)
            },
            Statement::SelectMembers => {
                let rows = self.select_members();
                Ok(Rows::Members(rows))
            },
            Statement::DeleteMember { id } => {
                let affected = self.delete_member(id);
                Ok(Rows::Affected(affected))
            },
            Statement::InsertWeight { id, value, member_id } => {
                let row = Weight {
                    id: Some(id.clone()),
                    value: Some(*value),
                    member_id: Some(member_id.clone()),
                    create_time: Some(now),
                    update_time: Some(now),
                };
                self.insert_weight(row, id)
            },
            Statement::SelectWeights { member_id } => {
                let rows = self.select_weights(member_id);
                Ok(Rows::Weights(rows))
            },
            Statement::DeleteWeight { id } => {
                let affected = self.delete_weight(id);
                Ok(Rows::Affected(affected))
            },
        }
    }

    fn member_taken(&self, id: &String) -> (taken: bool)
        ensures
            taken == self@.member_ids().contains(Some(id@)),
    {
        let mut i: usize = 0;
        while i < self.members.len()
            invariant
                i <= self.members.len(),
                forall|j: int| 0 <= j < i ==> self@.member_ids()[j] != Some(id@),
            decreases self.members.len() - i,
        {
            let found = match &self.members[i].id {
                Some(text) => *text == *id,
                None => false,
            };
            if found {
                assert(self@.member_ids()[i as int] == Some(id@));
                return true;
            }
            i += 1;
        }
        false
    }

    fn weight_taken(&self, id: &String) -> (taken: bool)
        ensures
            taken == self@.weight_ids().contains(Some(id@)),
    {
        let mut i: usize = 0;
        while i < self.weights.len()
            invariant
                i <= self.weights.len(),
                forall|j: int| 0 <= j < i ==> self@.weight_ids()[j] != Some(id@),
            decreases self.weights.len() - i,
        {
            let found = match &self.weights[i].id {
                Some(text) => *text == *id,
                None => false,
            };
            if found {
                assert(self@.weight_ids()[i as int] == Some(id@));
                return true;
            }
            i += 1;
        }
        false
    }

    fn insert_member(&mut self, row: Member, id: &String) -> (outcome: Result<Rows, StorageError>)
        requires
            row@.id == Some(id@),
        ensures
            final(self)@ == if old(self)@.member_ids().contains(Some(id@)) {
                old(self)@
            } else {
                TablesView { members: old(self)@.members.push(row@), ..old(self)@ }
            },
            outcome_view(outcome) == if old(self)@.member_ids().contains(Some(id@)) {
                Err::<RowsView, Seq<char>>(duplicate_member())
            } else {
                Ok(RowsView::Ids(seq![Some(id@)]))
            },
    {
        if self.member_taken(id) {
            return Err(
                StorageError { detail: String::from_str("UNIQUE constraint failed: member.id") },
            );
        }
        self.members.push(row);
        assert(member_views(self.members@) =~= member_views(old(self).members@).push(row@));
        let mut ids: Vec<Option<String>> = Vec::new();
        ids.push(Some(id.clone()));
        assert(ids.deep_view() =~= seq![Some(id@)]);
        Ok(Rows::Ids(ids))
    }

    fn insert_weight(&mut self, row: Weight, id: &String) -> (outcome: Result<Rows, StorageError>)
        requires
            row@.id == Some(id@),
        ensures
            final(self)@ == if old(self)@.weight_ids().contains(Some(id@)) {
                old(self)@
            } else {
                TablesView { weights: old(self)@.weights.push(row@), ..old(self)@ }
            },
            outcome_view(outcome) == if old(self)@.weight_ids().contains(Some(id@)) {
                Err::<RowsView, Seq<char>>(duplicate_weight())
            } else {
                Ok(RowsView::Ids(seq![Some(id@)]))
            },
    {
        if self.weight_taken(id) {
            return Err(
                StorageError { detail: String::from_str("UNIQUE constraint failed: weight.id") },
            );
        }
        self.weights.push(row);
        assert(weight_views(self.weights@) =~= weight_views(old(self).weights@).push(row@));
        let mut ids: Vec<Option<String>> = Vec::new();
        ids.push(Some(id.clone()));
        assert(ids.deep_view() =~= seq![Some(id@)]);
        Ok(Rows::Ids(ids))
    }

    fn select_members(&self) -> (rows: Vec<Member>)
        ensures
            rows.deep_view() == self@.members,
    {
        let mut rows: Vec<Member> = Vec::new();
        let mut i: usize = 0;
        while i < self.members.len()
            invariant
                i <= self.members.len(),
                rows.deep_view() == self@.members.take(i as int),
            decreases self.members.len() - i,
        {
            rows.push(self.members[i].clone());
            assert(self@.members.take(i + 1) =~= self@.members.take(i as int).push(
                self@.members[i as int],
            ));
            i += 1;
        }
        rows
    }

    fn select_weights(&self, member_id: &String) -> (rows: Vec<Weight>)
        ensures
            rows.deep_view() == self@.weights.filter(weight_of(member_id@)),
    {
        let mut rows: Vec<Weight> = Vec::new();
        let mut i: usize = 0;
        while i < self.weights.len()
            invariant
                i <= self.weights.len(),
                rows.deep_view() == self@.weights.take(i as int).filter(weight_of(member_id@)),
            decreases self.weights.len() - i,
        {
            let wanted = match &self.weights[i].member_id {
                Some(text) => *text == *member_id,
                None => false,
            };
            proof {
                let prefix = self@.weights.take(i as int);
                assert(self@.weights.take(i + 1) =~= prefix.push(self@.weights[i as int]));
                prefix.lemma_filter_push(self@.weights[i as int], weight_of(member_id@));
            }
            if wanted {
                rows.push(self.weights[i].clone());
            }
            i += 1;
        }
        assert(self@.weights.take(i as int) =~= self@.weights);
        rows
    }

    fn delete_member(&mut self, id: &String) -> (affected: u64)
        ensures
            final(self)@ == (TablesView {
                members: old(self)@.members.filter(other_member(id@)),
                ..old(self)@
            }),
            affected == old(self)@.members.len() - final(self)@.members.len(),
    {
        let ghost before = self@;
        let mut kept: Vec<Member> = Vec::new();
        let mut i: usize = 0;
        while i < self.members.len()
            invariant
                i <= self.members.len(),
                self@ == before,
                kept.deep_view() == before.members.take(i as int).filter(other_member(id@)),
            decreases self.members.len() - i,
        {
            let gone = match &self.members[i].id {
                Some(text) => *text == *id,
                None => false,
            };
            proof {
                let prefix = before.members.take(i as int);
                assert(before.members.take(i + 1) =~= prefix.push(before.members[i as int]));
                prefix.lemma_filter_push(before.members[i as int], other_member(id@));
            }
            if !gone {
                kept.push(self.members[i].clone());
            }
            i += 1;
        }
        assert(before.members.take(i as int) =~= before.members);
        assert(member_views(kept@) =~= kept.deep_view());
        proof {
            before.members.lemma_filter_len(other_member(id@));
        }
        let affected = (self.members.len() - kept.len()) as u64;
        self.members = kept;
        affected
    }

    fn delete_weight(&mut self, id: &String) -> (affected: u64)
        ensures
            final(self)@ == (TablesView {
                weights: old(self)@.weights.filter(other_weight(id@)),
                ..old(self)@
            }),
            affected == old(self)@.weights.len() - final(self)@.weights.len(),
    {
        let ghost before = self@;
        let mut kept: Vec<Weight> = Vec::new();
        let mut i: usize = 0;
        while i < self.weights.len()
            invariant
                i <= self.weights.len(),
                self@ == before,
                kept.deep_view() == before.weights.take(i as int).filter(other_weight(id@)),
            decreases self.weights.len() - i,
        {
            let gone = match &self.weights[i].id {
                Some(text) => *text == *id,
                None => false,
            };
            proof {
                let prefix = before.weights.take(i as int);
                assert(before.weights.take(i + 1) =~= prefix.push(before.weights[i as int]));
                prefix.lemma_filter_push(before.weights[i as int], other_weight(id@));
            }
            if !gone {
                kept.push(self.weights[i].clone());
            }
            i += 1;
        }
        assert(before.weights.take(i as int) =~= before.weights);
        assert(weight_views(kept@) =~= kept.deep_view());
        proof {
            before.weights.lemma_filter_len(other_weight(id@));
        }
        let affected = (self.weights.len() - kept.len()) as u64;
        self.weights = kept;
        affected
    }
}

} // verus!
