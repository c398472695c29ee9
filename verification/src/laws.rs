//! What holds of the service across requests, proved of the model of its
//! tables.

use vstd::prelude::*;
use crate::error::FailureModel;
use crate::ident::is_random_uuid;
use crate::member::MemberView;
use crate::route::{serves, unserved, Handler, Method};
use crate::site_table;
use crate::store::{lemma_execute_keeps_keys, other_member, other_weight, weight_of, TablesView};
use crate::weight::{MeasurementView, SubmissionView, WeightView};

verus! {

/// A member created under a freshly drawn id that no member has yet is
/// stored and answered. The answer is the payload under the drawn id, which
/// is not empty and takes the place of whatever id the caller sent; no other
/// row has that id; and a listing made next holds the answered record, after
/// the members that were there before.
pub proof fn created_member_is_listed(tables: TablesView, post: MemberView, id: Seq<char>)
    requires
        is_random_uuid(id),
        !tables.member_ids().contains(Some(id)),
    ensures
        ({
            let served = crate::member::creation(tables, post, id);
            let body = MemberView { id: Some(id), ..post };
            let listed = crate::member::listing(served.tables);
            &&& served.reply == Ok::<MemberView, Seq<char>>(body)
            &&& id.len() > 0
            &&& served == crate::member::creation(tables, MemberView { id: None, ..post }, id)
            &&& listed == tables.members.push(body)
            &&& listed.contains(body)
            &&& forall|i: int| 0 <= i < listed.len() && listed[i].id == Some(id) ==> i == listed.len() - 1
            &&& served.tables.weights == tables.weights
        }),
{
    let served = crate::member::creation(tables, post, id);
    let body = MemberView { id: Some(id), ..post };
    let listed = crate::member::listing(served.tables);
    assert(listed[listed.len() - 1] == body);
    assert forall|i: int| 0 <= i < listed.len() && listed[i].id == Some(id) implies i
        == listed.len() - 1 by {
        if i < tables.members.len() {
            assert(tables.member_ids()[i] == Some(id));
        }
    }
}

/// A record created under an id that its table already holds is refused by
/// the store, and nothing changes.
pub proof fn repeated_id_is_refused(
    tables: TablesView,
    post: MemberView,
    form: SubmissionView,
    id: Seq<char>,
    now: i64,
)
    ensures
        tables.member_ids().contains(Some(id)) ==> {
            &&& crate::member::creation(tables, post, id).reply is Err
            &&& crate::member::creation(tables, post, id).tables == tables
        },
        tables.weight_ids().contains(Some(id)) ==> {
            &&& crate::weight::creation(tables, form, id, now).reply is Err
            &&& crate::weight::creation(tables, form, id, now).tables == tables
        },
{
}

/// A measurement with both required fields, recorded under a freshly drawn
/// id that no weight has yet, is stored and answered whether or not its
/// member exists. The id is not empty; the stored row carries the time of
/// the insert as both its times; and a listing for that member made next
/// holds the row.
pub proof fn created_weight_is_listed(
    tables: TablesView,
    form: SubmissionView,
    id: Seq<char>,
    now: i64,
)
    requires
        form.member_id is Some,
        form.value is Some,
        is_random_uuid(id),
        !tables.weight_ids().contains(Some(id)),
    ensures
        ({
            let served = crate::weight::creation(tables, form, id, now);
            let body = MeasurementView {
                id: Some(id),
                member_id: form.member_id->Some_0,
                value: form.value->Some_0,
            };
            let row = WeightView {
                id: Some(id),
                value: form.value,
                member_id: form.member_id,
                create_time: Some(now),
                update_time: Some(now),
            };
            let listed = crate::weight::listing(served.tables, form.member_id);
            &&& served.reply == Ok::<MeasurementView, FailureModel>(body)
            &&& id.len() > 0
            &&& served.tables.weights == tables.weights.push(row)
            &&& served.tables.members == tables.members
            &&& row.create_time == row.update_time
            &&& listed is Ok
            &&& listed->Ok_0.contains(row)
            &&& forall|i: int|
                0 <= i < listed->Ok_0.len() && listed->Ok_0[i].id == Some(id) ==> listed->Ok_0[i]
                    == row
        }),
{
    let served = crate::weight::creation(tables, form, id, now);
    let member_id = form.member_id->Some_0;
    let row = WeightView {
        id: Some(id),
        value: form.value,
        member_id: form.member_id,
        create_time: Some(now),
        update_time: Some(now),
    };
    let rows = tables.weights.push(row).filter(weight_of(member_id));
    tables.weights.lemma_filter_push(row, weight_of(member_id));
    assert(rows[rows.len() - 1] == row);
    assert forall|i: int| 0 <= i < rows.len() && rows[i].id == Some(id) implies rows[i] == row by {
        if i < rows.len() - 1 {
            let earlier = tables.weights.filter(weight_of(member_id));
            tables.weights.lemma_filter_contains_rev(weight_of(member_id), earlier[i]);
            let k = choose|k: int| 0 <= k < tables.weights.len() && tables.weights[k] == earlier[i];
            assert(tables.weight_ids()[k] == Some(id));
        }
    }
}

/// Listing the weights of a member of whom none is stored gives an empty
/// list, not a failure.
pub proof fn no_weights_lists_empty(tables: TablesView, member_id: Seq<char>)
    requires
        forall|i: int| 0 <= i < tables.weights.len() ==> tables.weights[i].member_id != Some(member_id),
    ensures
        crate::weight::listing(tables, Some(member_id)) == Ok::<Seq<WeightView>, FailureModel>(
            Seq::empty(),
        ),
{
    let rows = tables.weights.filter(weight_of(member_id));
    if rows.len() > 0 {
        tables.weights.lemma_filter_pred(weight_of(member_id), 0);
        tables.weights.lemma_filter_contains_rev(weight_of(member_id), rows[0]);
    }
    assert(rows =~= Seq::empty());
}

/// Deleting a member answers the same whether or not a member had the id.
/// Where none had it the tables stay as they were; in every case no member
/// has the id afterwards, a second delete changes nothing more, and the
/// weights, the deleted member's too, stay.
pub proof fn member_delete_is_idempotent(tables: TablesView, other: TablesView, id: Seq<char>)
    ensures
        crate::member::deletion(tables, id).reply == crate::member::deletion(other, id).reply,
        crate::member::deletion(tables, id).reply is Ok,
        !tables.member_ids().contains(Some(id)) ==> crate::member::deletion(tables, id).tables
            == tables,
        !crate::member::deletion(tables, id).tables.member_ids().contains(Some(id)),
        crate::member::deletion(crate::member::deletion(tables, id).tables, id).tables
            == crate::member::deletion(tables, id).tables,
        crate::member::deletion(tables, id).tables.weights == tables.weights,
{
    let kept = tables.members.filter(other_member(id));
    let after = crate::member::deletion(tables, id).tables;
    assert forall|i: int| 0 <= i < kept.len() implies kept[i].id != Some(id) by {
        tables.members.lemma_filter_pred(other_member(id), i);
    }
    lemma_filter_all(kept, other_member(id));
    if !tables.member_ids().contains(Some(id)) {
        assert forall|i: int| 0 <= i < tables.members.len() implies other_member(id)(
            tables.members[i],
        ) by {
            assert(tables.member_ids()[i] != Some(id));
        }
        lemma_filter_all(tables.members, other_member(id));
    }
    if after.member_ids().contains(Some(id)) {
        let i = choose|i: int| 0 <= i < after.member_ids().len() && after.member_ids()[i] == Some(id);
        assert(kept[i].id == Some(id));
    }
}

/// Deleting a weight answers the same whether or not a weight had the id.
/// Where none had it the tables stay as they were; in every case no weight
/// has the id afterwards, a second delete changes nothing more, and the
/// members stay.
pub proof fn weight_delete_is_idempotent(tables: TablesView, other: TablesView, id: Seq<char>)
    ensures
        crate::weight::deletion(tables, id).reply == crate::weight::deletion(other, id).reply,
        crate::weight::deletion(tables, id).reply is Ok,
        !tables.weight_ids().contains(Some(id)) ==> crate::weight::deletion(tables, id).tables
            == tables,
        !crate::weight::deletion(tables, id).tables.weight_ids().contains(Some(id)),
        crate::weight::deletion(crate::weight::deletion(tables, id).tables, id).tables
            == crate::weight::deletion(tables, id).tables,
        crate::weight::deletion(tables, id).tables.members == tables.members,
{
    let kept = tables.weights.filter(other_weight(id));
    let after = crate::weight::deletion(tables, id).tables;
    assert forall|i: int| 0 <= i < kept.len() implies kept[i].id != Some(id) by {
        tables.weights.lemma_filter_pred(other_weight(id), i);
    }
    lemma_filter_all(kept, other_weight(id));
    if !tables.weight_ids().contains(Some(id)) {
        assert forall|i: int| 0 <= i < tables.weights.len() implies other_weight(id)(
            tables.weights[i],
        ) by {
            assert(tables.weight_ids()[i] != Some(id));
        }
        lemma_filter_all(tables.weights, other_weight(id));
    }
    if after.weight_ids().contains(Some(id)) {
        let i = choose|i: int| 0 <= i < after.weight_ids().len() && after.weight_ids()[i] == Some(id);
        assert(kept[i].id == Some(id));
    }
}

/// A measurement submitted without its member or without its value is
/// refused as malformed, and nothing is stored.
pub proof fn malformed_weight_is_not_stored(
    tables: TablesView,
    form: SubmissionView,
    id: Seq<char>,
    now: i64,
)
    requires
        form.member_id is None || form.value is None,
    ensures
        crate::weight::creation(tables, form, id, now).reply is Err,
        crate::weight::creation(tables, form, id, now).reply->Err_0 is RequestShape,
        crate::weight::creation(tables, form, id, now).tables == tables,
{
}

/// Whatever requests are served, the primary keys hold: creating, listing
/// and deleting members and weights keep every row with an id and every id
/// once in its table.
pub proof fn requests_keep_keys(
    tables: TablesView,
    post: MemberView,
    form: SubmissionView,
    id: Seq<char>,
    now: i64,
)
    requires
        tables.keyed(),
    ensures
        crate::member::creation(tables, post, id).tables.keyed(),
        crate::member::deletion(tables, id).tables.keyed(),
        crate::weight::creation(tables, form, id, now).tables.keyed(),
        crate::weight::deletion(tables, id).tables.keyed(),
{
    lemma_execute_keeps_keys(tables, crate::member::insertion(id, post), 0);
    lemma_execute_keeps_keys(tables, crate::store::StatementView::DeleteMember { id }, 0);
    lemma_execute_keeps_keys(tables, crate::store::StatementView::DeleteWeight { id }, 0);
    match crate::weight::validated(form) {
        Ok(measurement) => {
            lemma_execute_keeps_keys(tables, crate::weight::insertion(id, measurement), now);
        },
        Err(_) => {},
    }
}

/// A filter that every row passes keeps the table as it is.
proof fn lemma_filter_all<A>(rows: Seq<A>, keep: spec_fn(A) -> bool)
    requires
        forall|i: int| 0 <= i < rows.len() ==> keep(#[trigger] rows[i]),
    ensures
        rows.filter(keep) == rows,
    decreases rows.len(),
{
    reveal(Seq::filter);
    if rows.len() > 0 {
        lemma_filter_all(rows.drop_last(), keep);
    }
}

/// The handler for a request, read off the site map: the greeting at `/`
/// and `/hello/world`, the delay at `/delay/<seconds>`, and under `/member`
/// and `/weight` create on `POST`, list on `GET` and delete on
/// `DELETE /<id>`. Anything else has none.
pub open spec fn handler_for(method: Method, segments: Seq<Seq<char>>) -> Option<Handler> {
    if method == Method::Get && segments.len() == 0 {
        Some(Handler::Index)
    } else if method == Method::Get && segments == seq!["hello"@, "world"@] {
        Some(Handler::World)
    } else if method == Method::Get && segments.len() == 2 && segments[0] == "delay"@ {
        Some(Handler::Delay)
    } else if segments.len() == 1 && segments[0] == "member"@ {
        if method == Method::Post {
            Some(Handler::MemberCreate)
        } else if method == Method::Get {
            Some(Handler::MemberList)
        } else {
            None
        }
    } else if method == Method::Delete && segments.len() == 2 && segments[0] == "member"@ {
        Some(Handler::MemberDelete)
    } else if segments.len() == 1 && segments[0] == "weight"@ {
        if method == Method::Post {
            Some(Handler::WeightCreate)
        } else if method == Method::Get {
            Some(Handler::WeightList)
        } else {
            None
        }
    } else if method == Method::Delete && segments.len() == 2 && segments[0] == "weight"@ {
        Some(Handler::WeightDelete)
    } else {
        None
    }
}

/// The five fixed segments of the site are five different texts.
proof fn lemma_site_words()
    ensures
        "hello"@ != "delay"@,
        "member"@ != "weight"@,
        "hello"@ != "world"@,
        "hello"@.len() == 5,
        "delay"@.len() == 5,
        "member"@.len() == 6,
        "weight"@.len() == 6,
{
    reveal_strlit("hello");
    reveal_strlit("world");
    reveal_strlit("delay");
    reveal_strlit("member");
    reveal_strlit("weight");
    assert("hello"@[0] != "delay"@[0]);
    assert("member"@[0] != "weight"@[0]);
}

/// No request is answered by two routes of the site.
pub proof fn site_is_unambiguous(method: Method, segments: Seq<Seq<char>>, i: int, j: int)
    requires
        0 <= i < j < site_table().len(),
    ensures
        !(site_table()[i].matches(method, segments) && site_table()[j].matches(method, segments)),
{
    lemma_site_words();
    let table = site_table();
    if table[i].matches(method, segments) && table[j].matches(method, segments) {
        assert(table[i].path[0] is Fixed);
        assert(table[j].path[0] is Fixed);
    }
}

/// The site serves what its map says: a request with a handler on the map
/// is served by a route that leads to it, and a request without one is
/// served by no route.
pub proof fn site_follows_map(method: Method, segments: Seq<Seq<char>>)
    ensures
        match handler_for(method, segments) {
            Some(handler) => exists|i: int|
                #![trigger site_table()[i]]
                serves(site_table(), method, segments, i) && site_table()[i].handler == handler,
            None => unserved(site_table(), method, segments),
        },
{
    lemma_site_words();
    let table = site_table();
    assert(table[1].path[0] is Fixed && table[1].path[1] is Fixed);
    assert(table[2].path[0] is Fixed);
    assert(table[3].path[0] is Fixed);
    assert(table[4].path[0] is Fixed);
    assert(table[5].path[0] is Fixed);
    assert(table[6].path[0] is Fixed);
    assert(table[7].path[0] is Fixed);
    assert(table[8].path[0] is Fixed);
    match handler_for(method, segments) {
        Some(handler) => {
            let i: int = match handler {
                Handler::Index => 0,
                Handler::World => 1,
                Handler::Delay => 2,
                Handler::MemberCreate => 3,
                Handler::MemberList => 4,
                Handler::MemberDelete => 5,
                Handler::WeightCreate => 6,
                Handler::WeightList => 7,
                Handler::WeightDelete => 8,
            };
            assert forall|k: int| 0 <= k < i implies !(#[trigger] table[k]).matches(
                method,
                segments,
            ) by {
                if table[k].matches(method, segments) {
                    site_is_unambiguous(method, segments, k, i);
                }
            }
        },
        None => {
            assert forall|k: int| 0 <= k < table.len() implies !(#[trigger] table[k]).matches(
                method,
                segments,
            ) by {
                if table[k].matches(method, segments) {
                    if k == 1 {
                        assert(segments =~= seq!["hello"@, "world"@]);
                    }
                }
            }
        },
    }
}

} // verus!
