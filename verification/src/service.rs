//! The resource service: the four command handlers and the dispatcher that
//! routes a command name to one of them.

use vstd::prelude::*;
use vstd::pervasive::unreached;
use crate::models::{Country, CountryV};
use crate::store::{
    Table, TableV, Criteria, CriteriaV, UpdateFields, UpdateFieldsV, StoreError, table_wf, has_id, has_name,
    has_code, has_dial_code, find_id, collides_besides, apply_update, new_record, criteria_matches,
    views_of,
};
use crate::payload::{
    PayloadView, PayloadViewV, criteria_of, create_of, update_id_of, dto_of, remove_id_of,
    criteria_of_payload, create_of_payload, update_id_of_payload, dto_of_payload,
    remove_id_of_payload,
};
use crate::text::str_eq;

verus! {

/// What a handler answers: a successful result or a handled error carrying a
/// human-readable message.
pub enum Reply {
    /// The matching records, for a filtered find.
    Records(Vec<Country>),
    /// One record, for a creation or an update.
    Record(Country),
    /// How many rows a removal deleted.
    Deleted(usize),
    /// A handled error.
    Error(String),
}

pub ghost enum ReplyV {
    Records(Seq<CountryV>),
    Record(CountryV),
    Deleted(int),
    Error(Seq<char>),
}

impl View for Reply {
    type V = ReplyV;

    open spec fn view(&self) -> ReplyV {
        match self {
            Reply::Records(v) => ReplyV::Records(views_of(v@)),
            Reply::Record(c) => ReplyV::Record(c@),
            Reply::Deleted(n) => ReplyV::Deleted(*n as int),
            Reply::Error(m) => ReplyV::Error(m@),
        }
    }
}

/// The dispatcher's outcome for one command.
pub enum Dispatch {
    /// A reply is owed to the caller.
    Reply(Reply),
    /// A required field of the payload is missing or malformed: the fault is
    /// fatal for this delivery and no reply is produced.
    Malformed,
}

pub ghost enum DispatchV {
    Reply(ReplyV),
    Malformed,
}

impl View for Dispatch {
    type V = DispatchV;

    open spec fn view(&self) -> DispatchV {
        match self {
            Dispatch::Reply(r) => DispatchV::Reply(r@),
            Dispatch::Malformed => DispatchV::Malformed,
        }
    }
}

pub open spec fn dup_code_msg(code: Seq<char>) -> Seq<char> {
    "Country with code "@ + code + " already exists"@
}

pub open spec fn dup_name_msg(name: Seq<char>) -> Seq<char> {
    "Country with name "@ + name + " already exists"@
}

pub open spec fn dup_dial_code_msg(dial_code: Seq<char>) -> Seq<char> {
    "Country with dial code "@ + dial_code + " already exists"@
}

pub open spec fn not_found_msg() -> Seq<char> {
    "Record not found"@
}

pub open spec fn unique_violation_msg() -> Seq<char> {
    "Country already exists"@
}

pub open spec fn unknown_command_msg() -> Seq<char> {
    "Unknown command"@
}

/// Messages joined with a comma and a space.
pub open spec fn joined(msgs: Seq<Seq<char>>) -> Seq<char>
    decreases msgs.len(),
{
    if msgs.len() == 0 {
        Seq::empty()
    } else if msgs.len() == 1 {
        msgs[0]
    } else {
        joined(msgs.drop_last()) + ", "@ + msgs.last()
    }
}

/// The duplicate messages a creation request collects: one per conflicting
/// unique field, checked in the order code, name, dial code.
pub open spec fn conflict_list(
    dc: bool,
    dn: bool,
    dd: bool,
    code: Seq<char>,
    name: Seq<char>,
    dial_code: Seq<char>,
) -> Seq<Seq<char>> {
    (if dc {
        seq![dup_code_msg(code)]
    } else {
        Seq::empty()
    }) + (if dn {
        seq![dup_name_msg(name)]
    } else {
        Seq::empty()
    }) + (if dd {
        seq![dup_dial_code_msg(dial_code)]
    } else {
        Seq::empty()
    })
}

/// The find handler's reply: the matching rows, in table order.
pub open spec fn find_result(t: TableV, c: CriteriaV) -> ReplyV {
    ReplyV::Records(t.rows.filter(|r: CountryV| criteria_matches(c, r)))
}

/// The create handler's outcome: a duplicate-conflict error naming every
/// colliding field, or the freshly inserted record.
pub open spec fn create_result(t: TableV, name: Seq<char>, code: Seq<char>, dial_code: Seq<char>, now: int) -> (TableV, ReplyV) {
    let dc = has_code(t.rows, code);
    let dn = has_name(t.rows, name);
    let dd = has_dial_code(t.rows, dial_code);
    if dc || dn || dd {
        (t, ReplyV::Error(joined(conflict_list(dc, dn, dd, code, name, dial_code))))
    } else {
        let c = new_record(t.next_id, name, code, dial_code, now);
        (TableV { rows: t.rows.push(c), next_id: t.next_id + 1 }, ReplyV::Record(c))
    }
}

/// The update handler's outcome: an error for a missing row or a uniqueness
/// conflict, else the overwritten record.
pub open spec fn update_result(t: TableV, id: int, u: UpdateFieldsV, now: int) -> (TableV, ReplyV) {
    if !has_id(t.rows, id) {
        (t, ReplyV::Error(not_found_msg()))
    } else {
        let j = find_id(t.rows, id);
        let nr = apply_update(t.rows[j], u, now);
        if collides_besides(t.rows, j, nr) {
            (t, ReplyV::Error(unique_violation_msg()))
        } else {
            (TableV { rows: t.rows.update(j, nr), next_id: t.next_id }, ReplyV::Record(nr))
        }
    }
}

/// The remove handler's outcome: the count of deleted rows, zero or one;
/// removing an absent id is not an error.
pub open spec fn remove_result(t: TableV, id: int) -> (TableV, ReplyV) {
    if has_id(t.rows, id) {
        (
            TableV { rows: t.rows.remove(find_id(t.rows, id)), next_id: t.next_id },
            ReplyV::Deleted(1),
        )
    } else {
        (t, ReplyV::Deleted(0))
    }
}

/// One dispatch step: how the table and the outcome follow from a command
/// name and a payload. Unrecognized commands answer with an error reply and
/// leave the table alone; a recognized command with a malformed required
/// payload is a fatal fault for the delivery.
pub open spec fn controller_step(t: TableV, cmd: Seq<char>, p: PayloadViewV, now: int) -> (
    TableV,
    DispatchV,
) {
    if cmd == "findByCriteria"@ {
        (t, DispatchV::Reply(find_result(t, criteria_of(p))))
    } else if cmd == "createCountry"@ {
        match create_of(p) {
            Option::Some(req) => {
                let r = create_result(t, req.0, req.1, req.2, now);
                (r.0, DispatchV::Reply(r.1))
            },
            Option::None => (t, DispatchV::Malformed),
        }
    } else if cmd == "updateCountry"@ {
        match update_id_of(p) {
            Option::Some(id) => match dto_of(p.dto) {
                Option::Some(u) => {
                    let r = update_result(t, id, u, now);
                    (r.0, DispatchV::Reply(r.1))
                },
                Option::None => (t, DispatchV::Malformed),
            },
            Option::None => (t, DispatchV::Malformed),
        }
    } else if cmd == "removeCountry"@ {
        match remove_id_of(p) {
            Option::Some(id) => {
                let r = remove_result(t, id);
                (r.0, DispatchV::Reply(r.1))
            },
            Option::None => (t, DispatchV::Malformed),
        }
    } else {
        (t, DispatchV::Reply(ReplyV::Error(unknown_command_msg())))
    }
}

fn dup_code_message(code: &String) -> (r: String)
    ensures
        r@ == dup_code_msg(code@),
{
    let m = "Country with code ".to_owned();
    let m = m.concat(code.as_str());
    let m = m.concat(" already exists");
    proof {
        assert(m@ =~= dup_code_msg(code@));
    }
    m
}

fn dup_name_message(name: &String) -> (r: String)
    ensures
        r@ == dup_name_msg(name@),
{
    let m = "Country with name ".to_owned();
    let m = m.concat(name.as_str());
    let m = m.concat(" already exists");
    proof {
        assert(m@ =~= dup_name_msg(name@));
    }
    m
}

fn dup_dial_code_message(dial_code: &String) -> (r: String)
    ensures
        r@ == dup_dial_code_msg(dial_code@),
{
    let m = "Country with dial code ".to_owned();
    let m = m.concat(dial_code.as_str());
    let m = m.concat(" already exists");
    proof {
        assert(m@ =~= dup_dial_code_msg(dial_code@));
    }
    m
}

pub open spec fn strs_of(s: Seq<String>) -> Seq<Seq<char>> {
    s.map_values(|m: String| m@)
}

/// Join messages with a comma and a space.
fn join_messages(msgs: &Vec<String>) -> (r: String)
    ensures
        r@ == joined(strs_of(msgs@)),
{
    let mut acc = String::new();
    let mut i: usize = 0;
    proof {
        assert(strs_of(msgs@).take(0) =~= Seq::<Seq<char>>::empty());
    }
    while i < msgs.len()
        invariant
            i <= msgs@.len(),
            acc@ == joined(strs_of(msgs@).take(i as int)),
        decreases msgs@.len() - i,
    {
        proof {
            assert(strs_of(msgs@).take(i + 1).drop_last() =~= strs_of(msgs@).take(i as int));
            assert(strs_of(msgs@).take(i + 1).last() == msgs@[i as int]@);
        }
        if i > 0 {
            acc.append(", ");
        }
        acc.append(msgs[i].as_str());
        proof {
            if i == 0 {
                assert(acc@ =~= joined(strs_of(msgs@).take(1)));
            }
        }
        i = i + 1;
    }
    proof {
        assert(strs_of(msgs@).take(msgs@.len() as int) =~= strs_of(msgs@));
    }
    acc
}

/// The service: the command handlers over the resource store.
pub struct CountryController {
    pub table: Table,
}

impl CountryController {
    /// A service over an empty store.
    pub fn new() -> (r: CountryController)
        ensures
            table_wf(r.table@),
            r.table@.rows == Seq::<CountryV>::empty(),
            r.table@.next_id == 1,
    {
        CountryController { table: Table::new() }
    }

    /// The filtered find: every record matching the criteria, in table order.
    pub fn get_countries(&self, c: &Criteria) -> (r: Vec<Country>)
        ensures
            views_of(r@) == self.table@.rows.filter(|cv: CountryV| criteria_matches(c@, cv)),
    {
        self.table.select(c)
    }

    /// Create a record, unless any of its three unique attributes collides
    /// with an existing record; every collision is reported, joined in one
    /// message, and nothing is inserted.
    pub fn create_country(&mut self, name: String, code: String, dial_code: String, now: i64) -> (r:
        Reply)
        requires
            table_wf(old(self).table@),
            old(self).table.next_id < i32::MAX,
        ensures
            table_wf(final(self).table@),
            final(self).table@ == create_result(old(self).table@, name@, code@, dial_code@, now as int).0,
            r@ == create_result(old(self).table@, name@, code@, dial_code@, now as int).1,
    {
        let dc = self.table.exists_code(&code);
        let dn = self.table.exists_name(&name);
        let dd = self.table.exists_dial_code(&dial_code);
        if dc || dn || dd {
            let mut msgs: Vec<String> = Vec::new();
            if dc {
                msgs.push(dup_code_message(&code));
            }
            if dn {
                msgs.push(dup_name_message(&name));
            }
            if dd {
                msgs.push(dup_dial_code_message(&dial_code));
            }
            proof {
                assert(strs_of(msgs@) =~= conflict_list(dc, dn, dd, code@, name@, dial_code@));
            }
            Reply::Error(join_messages(&msgs))
        } else {
            match self.table.insert(name, code, dial_code, now) {
                Ok(c) => Reply::Record(c),
                Err(_) => unreached(),
            }
        }
    }

    /// Overwrite the present fields of the record carrying `id`; a missing
    /// record or a store-refused collision is a handled error.
    pub fn update_country(&mut self, id: i32, upd: &UpdateFields, now: i64) -> (r: Reply)
        requires
            table_wf(old(self).table@),
        ensures
            table_wf(final(self).table@),
            final(self).table@ == update_result(old(self).table@, id as int, upd@, now as int).0,
            r@ == update_result(old(self).table@, id as int, upd@, now as int).1,
    {
        match self.table.update(id, upd, now) {
            Ok(c) => Reply::Record(c),
            Err(StoreError::NotFound) => Reply::Error("Record not found".to_owned()),
            Err(StoreError::UniqueViolation) => Reply::Error("Country already exists".to_owned()),
        }
    }

    /// Delete the record carrying `id`; the count of deleted rows, zero or
    /// one. Removing an absent id is not an error.
    pub fn delete_country(&mut self, id: i32) -> (r: usize)
        requires
            table_wf(old(self).table@),
        ensures
            table_wf(final(self).table@),
            final(self).table@ == remove_result(old(self).table@, id as int).0,
            ReplyV::Deleted(r as int) == remove_result(old(self).table@, id as int).1,
    {
        self.table.delete(id)
    }

    /// Route a command name to its handler. Unknown commands yield an error
    /// reply; a known command whose required payload fields are missing or
    /// malformed is a fatal fault for the delivery.
    pub fn controller(&mut self, cmd: &str, payload: &PayloadView, now: i64) -> (r: Dispatch)
        requires
            table_wf(old(self).table@),
            old(self).table.next_id < i32::MAX,
        ensures
            table_wf(final(self).table@),
            final(self).table@ == controller_step(old(self).table@, cmd@, payload@, now as int).0,
            r@ == controller_step(old(self).table@, cmd@, payload@, now as int).1,
    {
        if str_eq(cmd, "findByCriteria") {
            let c = criteria_of_payload(payload);
            Dispatch::Reply(Reply::Records(self.get_countries(&c)))
        } else if str_eq(cmd, "createCountry") {
            match create_of_payload(payload) {
                Some((name, code, dial_code)) => Dispatch::Reply(
                    self.create_country(name, code, dial_code, now),
                ),
                None => Dispatch::Malformed,
            }
        } else if str_eq(cmd, "updateCountry") {
            match update_id_of_payload(payload) {
                Some(id) => match dto_of_payload(payload) {
                    Some(u) => Dispatch::Reply(self.update_country(id, &u, now)),
                    None => Dispatch::Malformed,
                },
                None => Dispatch::Malformed,
            }
        } else if str_eq(cmd, "removeCountry") {
            match remove_id_of_payload(payload) {
                Some(id) => Dispatch::Reply(Reply::Deleted(self.delete_country(id))),
                None => Dispatch::Malformed,
            }
        } else {
            Dispatch::Reply(Reply::Error("Unknown command".to_owned()))
        }
    }
}

} // verus!
