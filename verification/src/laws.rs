//! The service's laws: what holds of every table and every request, proved
//! over the same spec functions the handlers' contracts use.

use vstd::prelude::*;
use crate::models::CountryV;
use crate::store::{
    TableV, CriteriaV, UpdateFieldsV, table_wf, has_id, has_name, has_code, has_dial_code,
    find_id, collides_besides, apply_update, criteria_matches,
};
use crate::service::{
    ReplyV, find_result, create_result, update_result, remove_result, joined, conflict_list,
    dup_code_msg,
};
use crate::text::{has_substring, occurs_at};

verus! {

proof fn lemma_filter_true<A>(s: Seq<A>, p: spec_fn(A) -> bool)
    requires
        forall|i: int| 0 <= i < s.len() ==> p(#[trigger] s[i]),
    ensures
        s.filter(p) == s,
    decreases s.len(),
{
    reveal(Seq::filter);
    if s.len() == 0 {
        assert(s.filter(p) =~= s);
    } else {
        lemma_filter_true(s.drop_last(), p);
        assert(s.filter(p) =~= s);
    }
}

proof fn lemma_substring_concat_right(a: Seq<char>, b: Seq<char>, s: Seq<char>)
    requires
        has_substring(b, s),
    ensures
        has_substring(a + b, s),
{
    let i = choose|i: int| occurs_at(b, s, i);
    assert((a + b).subrange(a.len() + i, a.len() + i + s.len()) =~= b.subrange(i, i + s.len()));
    assert(occurs_at(a + b, s, a.len() + i));
}

/// Unconstrained criteria select every record, in table order.
pub proof fn law_find_unfiltered(t: TableV)
    ensures
        find_result(
            t,
            CriteriaV { name: Option::None, code: Option::None, dial_code: Option::None },
        ) == ReplyV::Records(t.rows),
{
    let c = CriteriaV { name: Option::None, code: Option::None, dial_code: Option::None };
    let p = |r: CountryV| criteria_matches(c, r);
    lemma_filter_true(t.rows, p);
}

/// A code-only criterion selects exactly the records whose `code` contains
/// the probe as a substring, case-sensitively, whatever their other fields.
pub proof fn law_find_by_code(t: TableV, x: Seq<char>)
    ensures
        find_result(
            t,
            CriteriaV { name: Option::None, code: Option::Some(x), dial_code: Option::None },
        ) == ReplyV::Records(t.rows.filter(|r: CountryV| has_substring(r.code, x))),
{
    let c = CriteriaV { name: Option::None, code: Option::Some(x), dial_code: Option::None };
    let p1 = |r: CountryV| criteria_matches(c, r);
    let p2 = |r: CountryV| has_substring(r.code, x);
    assert forall|r: CountryV| #[trigger] p1(r) == p2(r) by {}
    assert(p1 =~= p2);
}

/// A creation that collides on `code` is refused: the table is unchanged and
/// the reply is an error whose message contains "already exists".
pub proof fn law_create_duplicate_code(
    t: TableV,
    name: Seq<char>,
    code: Seq<char>,
    dial_code: Seq<char>,
    now: int,
)
    requires
        has_code(t.rows, code),
    ensures
        create_result(t, name, code, dial_code, now).0 == t,
        create_result(t, name, code, dial_code, now).1 matches ReplyV::Error(m) && has_substring(
            m,
            "already exists"@,
        ),
{
    let dc = true;
    let dn = has_name(t.rows, name);
    let dd = has_dial_code(t.rows, dial_code);
    let msgs = conflict_list(dc, dn, dd, code, name, dial_code);
    assert(msgs[0] == dup_code_msg(code));
    reveal_strlit(" already exists");
    reveal_strlit("already exists");
    assert((" already exists")@.subrange(1, 15) =~= ("already exists")@);
    assert(occurs_at(" already exists"@, "already exists"@, 1));
    lemma_substring_concat_right(
        "Country with code "@ + code,
        " already exists"@,
        "already exists"@,
    );
    assert(("Country with code "@ + code) + " already exists"@ =~= dup_code_msg(code));
    assert(has_substring(msgs[0], "already exists"@));
    lemma_joined_keeps_substring(msgs, 0, "already exists"@);
}

/// A substring of one joined part is a substring of the joined whole.
proof fn lemma_joined_keeps_substring(msgs: Seq<Seq<char>>, k: int, s: Seq<char>)
    requires
        0 <= k < msgs.len(),
        has_substring(msgs[k], s),
    ensures
        has_substring(joined(msgs), s),
    decreases msgs.len(),
{
    if msgs.len() == 1 {
    } else if k == msgs.len() - 1 {
        lemma_substring_concat_right(joined(msgs.drop_last()) + ", "@, msgs.last(), s);
        assert((joined(msgs.drop_last()) + ", "@) + msgs.last() =~= joined(msgs.drop_last()) + ", "@
            + msgs.last());
    } else {
        lemma_joined_keeps_substring(msgs.drop_last(), k, s);
        let j = choose|i: int| occurs_at(joined(msgs.drop_last()), s, i);
        let whole = joined(msgs);
        assert(whole == joined(msgs.drop_last()) + ", "@ + msgs.last());
        assert(whole.subrange(j, j + s.len()) =~= joined(msgs.drop_last()).subrange(
            j,
            j + s.len(),
        ));
        assert(occurs_at(whole, s, j));
    }
}

/// A creation with all three attributes fresh inserts exactly one row: the
/// returned record carries the system-assigned identity and both timestamps,
/// and the table grows by that row alone.
pub proof fn law_create_fresh(
    t: TableV,
    name: Seq<char>,
    code: Seq<char>,
    dial_code: Seq<char>,
    now: int,
)
    requires
        !has_name(t.rows, name),
        !has_code(t.rows, code),
        !has_dial_code(t.rows, dial_code),
    ensures
        create_result(t, name, code, dial_code, now).1 matches ReplyV::Record(c) && {
            &&& c.id == t.next_id
            &&& c.name == name
            &&& c.code == code
            &&& c.dial_code == dial_code
            &&& c.created_at == now
            &&& c.updated_at == now
            &&& create_result(t, name, code, dial_code, now).0.rows == t.rows.push(c)
        },
{
}

/// A partial update writing only `name` changes only `name` and the update
/// timestamp of its row: identity, `code`, `dial_code` and `created_at`
/// stay, and every other row stays whole.
pub proof fn law_update_name_only(t: TableV, id: int, x: Seq<char>, now: int)
    requires
        table_wf(t),
        has_id(t.rows, id),
    ensures
        ({
            let u = UpdateFieldsV {
                name: Option::Some(x),
                code: Option::None,
                dial_code: Option::None,
            };
            let j = find_id(t.rows, id);
            let nr = apply_update(t.rows[j], u, now);
            &&& nr.name == x
            &&& nr.id == t.rows[j].id
            &&& nr.code == t.rows[j].code
            &&& nr.dial_code == t.rows[j].dial_code
            &&& nr.created_at == t.rows[j].created_at
            &&& !collides_besides(t.rows, j, nr) ==> {
                &&& update_result(t, id, u, now).1 == ReplyV::Record(nr)
                &&& update_result(t, id, u, now).0.rows == t.rows.update(j, nr)
                &&& forall|k: int|
                    0 <= k < t.rows.len() && k != j ==> update_result(t, id, u, now).0.rows[k]
                        == t.rows[k]
            }
        }),
{
}

/// An update aimed at an absent identity is answered with an error reply and
/// changes nothing.
pub proof fn law_update_missing(t: TableV, id: int, u: UpdateFieldsV, now: int)
    requires
        !has_id(t.rows, id),
    ensures
        update_result(t, id, u, now).0 == t,
        update_result(t, id, u, now).1 is Error,
{
}

/// Removing an existing identity deletes exactly one row, and no row with
/// that identity survives — an unconstrained find afterwards shows each
/// remaining row and none carries the identity.
pub proof fn law_remove_existing(t: TableV, id: int)
    requires
        table_wf(t),
        has_id(t.rows, id),
    ensures
        remove_result(t, id).1 == ReplyV::Deleted(1),
        remove_result(t, id).0.rows.len() == t.rows.len() - 1,
        !has_id(remove_result(t, id).0.rows, id),
        find_result(
            remove_result(t, id).0,
            CriteriaV { name: Option::None, code: Option::None, dial_code: Option::None },
        ) == ReplyV::Records(remove_result(t, id).0.rows),
{
    let j = find_id(t.rows, id);
    assert(0 <= j < t.rows.len() && t.rows[j].id == id);
    let rest = t.rows.remove(j);
    assert forall|k: int| 0 <= k < rest.len() implies (#[trigger] rest[k]).id != id by {
        if k < j {
            assert(rest[k] == t.rows[k]);
        } else {
            assert(rest[k] == t.rows[k + 1]);
        }
    }
    law_find_unfiltered(remove_result(t, id).0);
}

/// Removing an absent identity is not an error: it reports zero deletions
/// and changes nothing.
pub proof fn law_remove_missing(t: TableV, id: int)
    requires
        !has_id(t.rows, id),
    ensures
        remove_result(t, id).0 == t,
        remove_result(t, id).1 == ReplyV::Deleted(0),
{
}

/// Replaying a creation that just succeeded is refused as a duplicate: the
/// second attempt leaves the table exactly as the first left it.
pub proof fn law_create_replay(
    t: TableV,
    name: Seq<char>,
    code: Seq<char>,
    dial_code: Seq<char>,
    now: int,
    later: int,
)
    requires
        !has_name(t.rows, name),
        !has_code(t.rows, code),
        !has_dial_code(t.rows, dial_code),
    ensures
        ({
            let t2 = create_result(t, name, code, dial_code, now).0;
            &&& create_result(t2, name, code, dial_code, later).0 == t2
            &&& create_result(t2, name, code, dial_code, later).1 is Error
        }),
{
    let t2 = create_result(t, name, code, dial_code, now).0;
    let n = t.rows.len() as int;
    assert(t2.rows[n].code == code);
    assert(has_code(t2.rows, code));
}

} // verus!
