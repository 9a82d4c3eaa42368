//! Middlewares look at each gateway event before it is dispatched: they let
//! it through, add metadata to it, or discard it.

use vstd::prelude::*;

verus! {

/// Metadata that a middleware attaches to an event: the members of a JSON
/// object (name, and value as JSON text), or a JSON value that is no object.
pub enum Metadata {
    Object(Vec<(String, String)>),
    NotObject,
}

/// What a middleware decides about an event.
pub enum MiddlewareResponse {
    Send,
    SendWithMetadata(Metadata),
    Discard,
}

/// Folds one middleware's answer into the metadata gathered so far: a
/// discard stops the event (and leaves the metadata as it was), the members
/// of an object are added after the ones already gathered (in order, so that
/// the later of two members of the same name wins once they make up the
/// event's metadata object), and metadata that is no object is ignored. The
/// result tells whether the event goes on.
pub fn apply_middleware_response(gathered: &mut Vec<(String, String)>, response: MiddlewareResponse) -> (go_on: bool)
    ensures
        go_on == !(response is Discard),
        final(gathered)@ == match response {
            MiddlewareResponse::SendWithMetadata(Metadata::Object(members)) => old(gathered)@ + members@,
            _ => old(gathered)@,
        },
{
    match response {
        MiddlewareResponse::Discard => false,
        MiddlewareResponse::Send => true,
        MiddlewareResponse::SendWithMetadata(Metadata::Object(members)) => {
            let mut members = members;
            gathered.append(&mut members);
            true
        },
        MiddlewareResponse::SendWithMetadata(Metadata::NotObject) => true,
    }
}

/// Whether the middleware listed under `flags` runs for an event of kind
/// `kind` (its event-type flag).
pub fn middleware_applies(flags: u128, kind: u128) -> (res: bool)
    ensures
        res == (flags & kind == kind),
{
    flags & kind == kind
}

/// Metadata members as character sequences: name and JSON text.
pub open spec fn member_views(members: Seq<(String, String)>) -> Seq<(Seq<char>, Seq<char>)> {
    members.map_values(|p: (String, String)| (p.0@, p.1@))
}

/// The index of the member named `name`, searched from the end.
pub open spec fn member_index(members: Seq<(Seq<char>, Seq<char>)>, name: Seq<char>) -> Option<int>
    decreases members.len(),
{
    if members.len() == 0 {
        None
    } else if members.last().0 == name {
        Some(members.len() - 1)
    } else {
        member_index(members.drop_last(), name)
    }
}

/// The value of the last member named `name`, if any.
pub open spec fn last_value(members: Seq<(Seq<char>, Seq<char>)>, name: Seq<char>) -> Option<Seq<char>>
    decreases members.len(),
{
    if members.len() == 0 {
        None
    } else if members.last().0 == name {
        Some(members.last().1)
    } else {
        last_value(members.drop_last(), name)
    }
}

/// The members of a JSON object built by inserting `members` in order: a
/// member whose name is there already replaces its value in place, a new
/// one is added at the end.
pub open spec fn merged_members(members: Seq<(Seq<char>, Seq<char>)>) -> Seq<(Seq<char>, Seq<char>)>
    decreases members.len(),
{
    if members.len() == 0 {
        Seq::empty()
    } else {
        let rest = merged_members(members.drop_last());
        let (name, value) = members.last();
        match member_index(rest, name) {
            Some(k) => rest.update(k, (name, value)),
            None => rest.push((name, value)),
        }
    }
}

proof fn lemma_member_index(members: Seq<(Seq<char>, Seq<char>)>, name: Seq<char>)
    ensures
        match member_index(members, name) {
            Some(i) => 0 <= i < members.len() && members[i].0 == name,
            None => forall|j: int| 0 <= j < members.len() ==> members[j].0 != name,
        },
    decreases members.len(),
{
    if members.len() > 0 {
        lemma_member_index(members.drop_last(), name);
        assert forall|j: int| 0 <= j < members.len() - 1 implies members[j] == members.drop_last()[j] by {}
    }
}

/// The metadata object holds each name once, with the value of the last
/// member of that name that the middlewares gave; it holds no other name.
pub proof fn lemma_merged_members(members: Seq<(Seq<char>, Seq<char>)>)
    ensures
        forall|i: int, j: int| 0 <= i < j < merged_members(members).len()
            ==> merged_members(members)[i].0 != merged_members(members)[j].0,
        forall|k: int| 0 <= k < merged_members(members).len()
            ==> last_value(members, #[trigger] merged_members(members)[k].0) == Some(merged_members(members)[k].1),
        forall|name: Seq<char>| (#[trigger] last_value(members, name)) is None
            ==> forall|k: int| 0 <= k < merged_members(members).len() ==> merged_members(members)[k].0 != name,
        forall|name: Seq<char>| (#[trigger] last_value(members, name)) is Some
            ==> exists|k: int| 0 <= k < merged_members(members).len() && merged_members(members)[k].0 == name,
    decreases members.len(),
{
    if members.len() > 0 {
        let prev = members.drop_last();
        let rest = merged_members(prev);
        lemma_merged_members(prev);
        let (n, v) = members.last();
        let after = merged_members(members);
        lemma_member_index(rest, n);
        match member_index(rest, n) {
            Some(k) => {
                assert(after == rest.update(k, (n, v)));
                assert forall|i: int, j: int| 0 <= i < j < after.len() implies after[i].0 != after[j].0 by {
                    assert(rest[i].0 != rest[j].0);
                }
                assert forall|x: int| 0 <= x < after.len()
                    implies last_value(members, #[trigger] after[x].0) == Some(after[x].1) by {
                    if x != k {
                        assert(rest[x].0 != rest[k].0);
                        assert(last_value(prev, rest[x].0) == Some(rest[x].1));
                    }
                }
                assert forall|name: Seq<char>| (#[trigger] last_value(members, name)) is None
                    implies forall|x: int| 0 <= x < after.len() ==> after[x].0 != name by {
                    assert(last_value(prev, name) is None);
                }
                assert forall|name: Seq<char>| (#[trigger] last_value(members, name)) is Some
                    implies exists|x: int| 0 <= x < after.len() && after[x].0 == name by {
                    if name == n {
                        assert(after[k].0 == name);
                    } else {
                        assert(last_value(prev, name) is Some);
                        let x = choose|x: int| 0 <= x < rest.len() && rest[x].0 == name;
                        assert(after[x].0 == name);
                    }
                }
            },
            None => {
                assert(after == rest.push((n, v)));
                assert forall|i: int, j: int| 0 <= i < j < after.len() implies after[i].0 != after[j].0 by {
                    if j < rest.len() {
                        assert(rest[i].0 != rest[j].0);
                    }
                }
                assert forall|x: int| 0 <= x < after.len()
                    implies last_value(members, #[trigger] after[x].0) == Some(after[x].1) by {
                    if x < rest.len() {
                        assert(rest[x].0 != n);
                        assert(last_value(prev, rest[x].0) == Some(rest[x].1));
                    }
                }
                assert forall|name: Seq<char>| (#[trigger] last_value(members, name)) is None
                    implies forall|x: int| 0 <= x < after.len() ==> after[x].0 != name by {
                    assert(last_value(prev, name) is None);
                }
                assert forall|name: Seq<char>| (#[trigger] last_value(members, name)) is Some
                    implies exists|x: int| 0 <= x < after.len() && after[x].0 == name by {
                    if name == n {
                        assert(after[rest.len() as int].0 == name);
                    } else {
                        assert(last_value(prev, name) is Some);
                        let x = choose|x: int| 0 <= x < rest.len() && rest[x].0 == name;
                        assert(after[x].0 == name);
                    }
                }
            },
        }
    }
}

/// The index of the member named `name` in `out`, searched from the end.
fn find_member(out: &Vec<(String, String)>, name: &String) -> (res: Option<usize>)
    ensures
        match res {
            Some(k) => member_index(member_views(out@), name@) == Some(k as int),
            None => member_index(member_views(out@), name@) is None,
        },
{
    let ghost views = member_views(out@);
    let mut j: usize = out.len();
    assert(views.take(j as int) =~= views);
    while j > 0
        invariant
            j <= out@.len(),
            views == member_views(out@),
            member_index(views, name@) == member_index(views.take(j as int), name@),
        decreases j,
    {
        assert(views.take(j as int).drop_last() =~= views.take(j - 1));
        assert(views.take(j as int).last() == views[j - 1]);
        if out[j - 1].0 == *name {
            return Some(j - 1);
        }
        j = j - 1;
    }
    None
}

/// The metadata that goes with an event, from the members the middlewares
/// gathered: none (JSON `null`) where they gave none, else the members of
/// one JSON object (see `merged_members`: each name once, with the value
/// that the last middleware to give it gave).
pub fn metadata_members(gathered: Vec<(String, String)>) -> (res: Option<Vec<(String, String)>>)
    ensures
        gathered@.len() == 0 ==> res is None,
        gathered@.len() > 0 ==> (res matches Some(v) && member_views(v@) == merged_members(member_views(gathered@))),
{
    if gathered.len() == 0 {
        return None;
    }
    let ghost all = member_views(gathered@);
    let mut out: Vec<(String, String)> = Vec::new();
    let mut i: usize = 0;
    assert(member_views(out@) =~= merged_members(all.take(0)));
    while i < gathered.len()
        invariant
            i <= gathered@.len(),
            all == member_views(gathered@),
            member_views(out@) == merged_members(all.take(i as int)),
        decreases gathered@.len() - i,
    {
        assert(all.take(i + 1).drop_last() =~= all.take(i as int));
        assert(all.take(i + 1).last() == all[i as int]);
        let name = gathered[i].0.clone();
        let value = gathered[i].1.clone();
        let ghost views = member_views(out@);
        proof {
            lemma_member_index(views, name@);
        }
        match find_member(&out, &name) {
            Some(k) => {
                out.set(k, (name, value));
                assert(member_views(out@) =~= views.update(k as int, all[i as int]));
            },
            None => {
                out.push((name, value));
                assert(member_views(out@) =~= views.push(all[i as int]));
            },
        }
        i = i + 1;
    }
    assert(all.take(gathered@.len() as int) =~= all);
    Some(out)
}

} // verus!
