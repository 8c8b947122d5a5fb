//! The resource store: an in-memory table of country records with the
//! transactional guarantees the service relies on — system-assigned
//! identities and store-enforced uniqueness of `name`, `code` and
//! `dial_code`, each as an independent constraint.

use vstd::prelude::*;
use crate::models::{Country, CountryV};
use crate::text::{lower, has_substring, to_chars, to_lower, contains_sub};

verus! {

/// Filter criteria: each present field narrows the selection, an absent
/// field imposes no constraint.
pub struct Criteria {
    pub name: Option<String>,
    pub code: Option<String>,
    pub dial_code: Option<String>,
}

pub ghost struct CriteriaV {
    pub name: Option<Seq<char>>,
    pub code: Option<Seq<char>>,
    pub dial_code: Option<Seq<char>>,
}

impl View for Criteria {
    type V = CriteriaV;

    open spec fn view(&self) -> CriteriaV {
        CriteriaV {
            name: match self.name {
                Option::Some(s) => Option::Some(s@),
                Option::None => Option::None,
            },
            code: match self.code {
                Option::Some(s) => Option::Some(s@),
                Option::None => Option::None,
            },
            dial_code: match self.dial_code {
                Option::Some(s) => Option::Some(s@),
                Option::None => Option::None,
            },
        }
    }
}

impl Criteria {
    /// The unconstrained criteria: every record matches.
    pub fn none() -> (r: Criteria)
        ensures
            r@.name is None,
            r@.code is None,
            r@.dial_code is None,
    {
        Criteria { name: None, code: None, dial_code: None }
    }
}

/// A partial update: a present field overwrites the stored one, an absent
/// field leaves it unchanged.
pub struct UpdateFields {
    pub name: Option<String>,
    pub code: Option<String>,
    pub dial_code: Option<String>,
}

pub ghost struct UpdateFieldsV {
    pub name: Option<Seq<char>>,
    pub code: Option<Seq<char>>,
    pub dial_code: Option<Seq<char>>,
}

impl View for UpdateFields {
    type V = UpdateFieldsV;

    open spec fn view(&self) -> UpdateFieldsV {
        UpdateFieldsV {
            name: match self.name {
                Option::Some(s) => Option::Some(s@),
                Option::None => Option::None,
            },
            code: match self.code {
                Option::Some(s) => Option::Some(s@),
                Option::None => Option::None,
            },
            dial_code: match self.dial_code {
                Option::Some(s) => Option::Some(s@),
                Option::None => Option::None,
            },
        }
    }
}

/// Why a store operation failed.
#[derive(Debug)]
pub enum StoreError {
    /// A written row would share `name`, `code` or `dial_code` with another row.
    UniqueViolation,
    /// No row carries the targeted id.
    NotFound,
}

/// A record matches the criteria when every present field of the criteria
/// occurs in the corresponding record field as a contiguous run: with ASCII
/// case folded for `name` and `dial_code`, case-sensitively for `code`.
pub open spec fn criteria_matches(c: CriteriaV, r: CountryV) -> bool {
    &&& match c.name {
        Option::Some(n) => has_substring(lower(r.name), lower(n)),
        Option::None => true,
    }
    &&& match c.code {
        Option::Some(s) => has_substring(r.code, s),
        Option::None => true,
    }
    &&& match c.dial_code {
        Option::Some(d) => has_substring(lower(r.dial_code), lower(d)),
        Option::None => true,
    }
}

/// The record after a partial update: present fields overwritten, absent
/// fields kept, `updated_at` stamped, identity and `created_at` untouched.
pub open spec fn apply_update(c: CountryV, u: UpdateFieldsV, now: int) -> CountryV {
    CountryV {
        id: c.id,
        name: match u.name {
            Option::Some(n) => n,
            Option::None => c.name,
        },
        code: match u.code {
            Option::Some(s) => s,
            Option::None => c.code,
        },
        dial_code: match u.dial_code {
            Option::Some(d) => d,
            Option::None => c.dial_code,
        },
        created_at: c.created_at,
        updated_at: now,
    }
}

/// The record a fresh insert produces.
pub open spec fn new_record(
    id: int,
    name: Seq<char>,
    code: Seq<char>,
    dial_code: Seq<char>,
    now: int,
) -> CountryV {
    CountryV { id, name, code, dial_code, created_at: now, updated_at: now }
}

pub open spec fn has_id(rows: Seq<CountryV>, id: int) -> bool {
    exists|i: int| 0 <= i < rows.len() && rows[i].id == id
}

pub open spec fn has_name(rows: Seq<CountryV>, n: Seq<char>) -> bool {
    exists|i: int| 0 <= i < rows.len() && rows[i].name == n
}

pub open spec fn has_code(rows: Seq<CountryV>, c: Seq<char>) -> bool {
    exists|i: int| 0 <= i < rows.len() && rows[i].code == c
}

pub open spec fn has_dial_code(rows: Seq<CountryV>, d: Seq<char>) -> bool {
    exists|i: int| 0 <= i < rows.len() && rows[i].dial_code == d
}

/// The index of the row carrying `id`; meaningful only under `has_id`.
pub open spec fn find_id(rows: Seq<CountryV>, id: int) -> int {
    choose|i: int| 0 <= i < rows.len() && rows[i].id == id
}

/// Some row other than the one at `j` shares a unique field with `r`.
pub open spec fn collides_besides(rows: Seq<CountryV>, j: int, r: CountryV) -> bool {
    exists|k: int|
        0 <= k < rows.len() && k != j && (rows[k].name == r.name || rows[k].code == r.code
            || rows[k].dial_code == r.dial_code)
}

pub open spec fn views_of(s: Seq<Country>) -> Seq<CountryV> {
    s.map_values(|c: Country| c@)
}

pub ghost struct TableV {
    pub rows: Seq<CountryV>,
    pub next_id: int,
}

/// The store's integrity: identities are positive, below the allocator, and
/// pairwise distinct; and no two rows share a `name`, a `code` or a
/// `dial_code`.
pub open spec fn table_wf(t: TableV) -> bool {
    &&& 1 <= t.next_id
    &&& forall|i: int| 0 <= i < t.rows.len() ==> 1 <= (#[trigger] t.rows[i]).id < t.next_id
    &&& forall|i: int, j: int|
        0 <= i < t.rows.len() && 0 <= j < t.rows.len() && i != j ==> {
            &&& (#[trigger] t.rows[i]).id != (#[trigger] t.rows[j]).id
            &&& t.rows[i].name != t.rows[j].name
            &&& t.rows[i].code != t.rows[j].code
            &&& t.rows[i].dial_code != t.rows[j].dial_code
        }
}

/// The country table, with the identity allocator for system-assigned ids.
pub struct Table {
    pub rows: Vec<Country>,
    pub next_id: i32,
}

impl View for Table {
    type V = TableV;

    open spec fn view(&self) -> TableV {
        TableV { rows: views_of(self.rows@), next_id: self.next_id as int }
    }
}

proof fn lemma_filter_take_step<A>(s: Seq<A>, p: spec_fn(A) -> bool, i: int)
    requires
        0 <= i < s.len(),
    ensures
        s.take(i + 1).filter(p) == if p(s[i]) {
            s.take(i).filter(p).push(s[i])
        } else {
            s.take(i).filter(p)
        },
{
    reveal(Seq::filter);
    assert(s.take(i + 1).drop_last() =~= s.take(i));
    assert(s.take(i + 1).last() == s[i]);
}

impl Table {
    /// The empty table.
    pub fn new() -> (r: Table)
        ensures
            table_wf(r@),
            r@.rows == Seq::<CountryV>::empty(),
            r@.next_id == 1,
    {
        let t = Table { rows: Vec::new(), next_id: 1 };
        proof {
            assert(t@.rows =~= Seq::<CountryV>::empty());
        }
        t
    }

    /// Does a record match the criteria? ASCII-case-insensitive substring
    /// match on `name` and `dial_code`, case-sensitive on `code`.
    pub fn record_matches(c: &Criteria, r: &Country) -> (b: bool)
        ensures
            b == criteria_matches(c@, r@),
    {
        if let Some(n) = &c.name {
            let hay = to_chars(r.name.as_str());
            let needle = to_chars(n.as_str());
            if !contains_sub(&to_lower(&hay), &to_lower(&needle)) {
                return false;
            }
        }
        if let Some(s) = &c.code {
            let hay = to_chars(r.code.as_str());
            let needle = to_chars(s.as_str());
            if !contains_sub(&hay, &needle) {
                return false;
            }
        }
        if let Some(d) = &c.dial_code {
            let hay = to_chars(r.dial_code.as_str());
            let needle = to_chars(d.as_str());
            if !contains_sub(&to_lower(&hay), &to_lower(&needle)) {
                return false;
            }
        }
        true
    }

    /// Filtered select: the matching rows, in table order, as copies.
    pub fn select(&self, c: &Criteria) -> (r: Vec<Country>)
        ensures
            views_of(r@) == self@.rows.filter(|cv: CountryV| criteria_matches(c@, cv)),
    {
        let ghost p = |cv: CountryV| criteria_matches(c@, cv);
        let mut out: Vec<Country> = Vec::new();
        let mut i: usize = 0;
        proof {
            assert(views_of(out@) =~= self@.rows.take(0).filter(p));
        }
        while i < self.rows.len()
            invariant
                i <= self.rows@.len(),
                self@.rows.len() == self.rows@.len(),
                views_of(out@) == self@.rows.take(i as int).filter(p),
                p == (|cv: CountryV| criteria_matches(c@, cv)),
            decreases self.rows@.len() - i,
        {
            proof {
                lemma_filter_take_step(self@.rows, p, i as int);
            }
            if Self::record_matches(c, &self.rows[i]) {
                out.push(self.rows[i].duplicate());
            }
            proof {
                assert(views_of(out@) =~= self@.rows.take(i + 1).filter(p));
            }
            i = i + 1;
        }
        proof {
            assert(self@.rows.take(self.rows@.len() as int) =~= self@.rows);
        }
        out
    }

    /// Is some row's `name` exactly `n`?
    pub fn exists_name(&self, n: &String) -> (b: bool)
        ensures
            b == has_name(self@.rows, n@),
    {
        let mut i: usize = 0;
        while i < self.rows.len()
            invariant
                i <= self.rows@.len(),
                self@.rows.len() == self.rows@.len(),
                forall|k: int| 0 <= k < i ==> (#[trigger] self@.rows[k]).name != n@,
            decreases self.rows@.len() - i,
        {
            if self.rows[i].name == *n {
                proof {
                    assert(self@.rows[i as int].name == n@);
                }
                return true;
            }
            i = i + 1;
        }
        false
    }

    /// Is some row's `code` exactly `c`?
    pub fn exists_code(&self, c: &String) -> (b: bool)
        ensures
            b == has_code(self@.rows, c@),
    {
        let mut i: usize = 0;
        while i < self.rows.len()
            invariant
                i <= self.rows@.len(),
                self@.rows.len() == self.rows@.len(),
                forall|k: int| 0 <= k < i ==> (#[trigger] self@.rows[k]).code != c@,
            decreases self.rows@.len() - i,
        {
            if self.rows[i].code == *c {
                proof {
                    assert(self@.rows[i as int].code == c@);
                }
                return true;
            }
            i = i + 1;
        }
        false
    }

    /// Is some row's `dial_code` exactly `d`?
    pub fn exists_dial_code(&self, d: &String) -> (b: bool)
        ensures
            b == has_dial_code(self@.rows, d@),
    {
        let mut i: usize = 0;
        while i < self.rows.len()
            invariant
                i <= self.rows@.len(),
                self@.rows.len() == self.rows@.len(),
                forall|k: int| 0 <= k < i ==> (#[trigger] self@.rows[k]).dial_code != d@,
            decreases self.rows@.len() - i,
        {
            if self.rows[i].dial_code == *d {
                proof {
                    assert(self@.rows[i as int].dial_code == d@);
                }
                return true;
            }
            i = i + 1;
        }
        false
    }

    /// The position of the row carrying `id`, if any.
    fn find_index(&self, id: i32) -> (r: Option<usize>)
        ensures
            match r {
                Option::Some(j) => j < self@.rows.len() && self@.rows[j as int].id == id as int,
                Option::None => !has_id(self@.rows, id as int),
            },
    {
        let mut i: usize = 0;
        while i < self.rows.len()
            invariant
                i <= self.rows@.len(),
                self@.rows.len() == self.rows@.len(),
                forall|k: int| 0 <= k < i ==> (#[trigger] self@.rows[k]).id != id as int,
            decreases self.rows@.len() - i,
        {
            if self.rows[i].id == id {
                return Some(i);
            }
            i = i + 1;
        }
        None
    }

    /// Insert a fresh record. The store refuses a row that would share a
    /// unique field with an existing one; otherwise it assigns the next
    /// identity, stamps both timestamps with `now`, and appends the row.
    pub fn insert(&mut self, name: String, code: String, dial_code: String, now: i64) -> (r:
        Result<Country, StoreError>)
        requires
            table_wf(old(self)@),
            old(self).next_id < i32::MAX,
        ensures
            table_wf(final(self)@),
            (r is Ok) <==> (!has_name(old(self)@.rows, name@) && !has_code(old(self)@.rows, code@)
                && !has_dial_code(old(self)@.rows, dial_code@)),
            r matches Ok(c) ==> {
                &&& c@ == new_record(old(self)@.next_id, name@, code@, dial_code@, now as int)
                &&& final(self)@.rows == old(self)@.rows.push(c@)
                &&& final(self)@.next_id == old(self)@.next_id + 1
            },
            r is Err ==> final(self)@ == old(self)@ && (r matches Err(e) && e is UniqueViolation),
    {
        if self.exists_name(&name) || self.exists_code(&code) || self.exists_dial_code(
            &dial_code,
        ) {
            return Err(StoreError::UniqueViolation);
        }
        let row = Country { id: self.next_id, name, code, dial_code, created_at: now, updated_at: now };
        let out = row.duplicate();
        self.rows.push(row);
        self.next_id = self.next_id + 1;
        proof {
            assert(self@.rows =~= old(self)@.rows.push(out@));
            assert forall|i: int, j: int|
                0 <= i < self@.rows.len() && 0 <= j < self@.rows.len() && i != j implies {
                &&& (#[trigger] self@.rows[i]).id != (#[trigger] self@.rows[j]).id
                &&& self@.rows[i].name != self@.rows[j].name
                &&& self@.rows[i].code != self@.rows[j].code
                &&& self@.rows[i].dial_code != self@.rows[j].dial_code
            } by {
                let n = old(self)@.rows.len() as int;
                if i == n || j == n {
                    assert(forall|k: int|
                        0 <= k < n ==> (#[trigger] old(self)@.rows[k]).name != out@.name);
                    assert(forall|k: int|
                        0 <= k < n ==> (#[trigger] old(self)@.rows[k]).code != out@.code);
                    assert(forall|k: int|
                        0 <= k < n ==> (#[trigger] old(self)@.rows[k]).dial_code
                            != out@.dial_code);
                }
            }
        }
        Ok(out)
    }

    /// Partial update of the row carrying `id`. Missing row: `NotFound`. A
    /// result that would share a unique field with another row: refused by
    /// the store's constraint. Otherwise the row is overwritten in place.
    pub fn update(&mut self, id: i32, upd: &UpdateFields, now: i64) -> (r: Result<
        Country,
        StoreError,
    >)
        requires
            table_wf(old(self)@),
        ensures
            table_wf(final(self)@),
            !has_id(old(self)@.rows, id as int) ==> (r matches Err(e) && e is NotFound)
                && final(self)@ == old(self)@,
            has_id(old(self)@.rows, id as int) ==> {
                let j = find_id(old(self)@.rows, id as int);
                let nr = apply_update(old(self)@.rows[j], upd@, now as int);
                &&& collides_besides(old(self)@.rows, j, nr) ==> (r matches Err(e)
                    && e is UniqueViolation) && final(self)@ == old(self)@
                &&& !collides_besides(old(self)@.rows, j, nr) ==> (r matches Ok(c) && c@ == nr)
                    && final(self)@.rows == old(self)@.rows.update(j, nr) && final(self)@.next_id
                    == old(self)@.next_id
            },
    {
        let j = match self.find_index(id) {
            None => {
                return Err(StoreError::NotFound);
            },
            Some(j) => j,
        };
        proof {
            let jj = find_id(self@.rows, id as int);
            assert(0 <= jj < self@.rows.len() && self@.rows[jj].id == id as int);
            assert(jj == j as int);
        }
        let new_name = match &upd.name {
            Some(s) => s.clone(),
            None => self.rows[j].name.clone(),
        };
        let new_code = match &upd.code {
            Some(s) => s.clone(),
            None => self.rows[j].code.clone(),
        };
        let new_dial = match &upd.dial_code {
            Some(s) => s.clone(),
            None => self.rows[j].dial_code.clone(),
        };
        let nr = Country {
            id: self.rows[j].id,
            name: new_name,
            code: new_code,
            dial_code: new_dial,
            created_at: self.rows[j].created_at,
            updated_at: now,
        };
        proof {
            assert(nr@ == apply_update(self@.rows[j as int], upd@, now as int));
        }
        if self.collides_except(j, &nr) {
            return Err(StoreError::UniqueViolation);
        }
        let out = nr.duplicate();
        self.rows.remove(j);
        self.rows.insert(j, nr);
        proof {
            assert(self@.rows =~= old(self)@.rows.update(j as int, out@));
            assert forall|a: int, b: int|
                0 <= a < self@.rows.len() && 0 <= b < self@.rows.len() && a != b implies {
                &&& (#[trigger] self@.rows[a]).id != (#[trigger] self@.rows[b]).id
                &&& self@.rows[a].name != self@.rows[b].name
                &&& self@.rows[a].code != self@.rows[b].code
                &&& self@.rows[a].dial_code != self@.rows[b].dial_code
            } by {
                if a == j as int || b == j as int {
                    let k = if a == j as int {
                        b
                    } else {
                        a
                    };
                    assert(old(self)@.rows[k].name != out@.name && old(self)@.rows[k].code
                        != out@.code && old(self)@.rows[k].dial_code != out@.dial_code);
                    assert(old(self)@.rows[k].id != old(self)@.rows[j as int].id);
                }
            }
        }
        Ok(out)
    }

    /// Some row other than the one at `j` shares a unique field with `r`.
    fn collides_except(&self, j: usize, r: &Country) -> (b: bool)
        requires
            j < self@.rows.len(),
        ensures
            b == collides_besides(self@.rows, j as int, r@),
    {
        let mut i: usize = 0;
        while i < self.rows.len()
            invariant
                i <= self.rows@.len(),
                self@.rows.len() == self.rows@.len(),
                forall|k: int|
                    0 <= k < i && k != j as int ==> {
                        &&& (#[trigger] self@.rows[k]).name != r@.name
                        &&& self@.rows[k].code != r@.code
                        &&& self@.rows[k].dial_code != r@.dial_code
                    },
            decreases self.rows@.len() - i,
        {
            if i != j {
                if self.rows[i].name == r.name || self.rows[i].code == r.code
                    || self.rows[i].dial_code == r.dial_code {
                    proof {
                        let k = i as int;
                        assert(self@.rows[k].name == r@.name || self@.rows[k].code == r@.code
                            || self@.rows[k].dial_code == r@.dial_code);
                        assert(collides_besides(self@.rows, j as int, r@));
                    }
                    return true;
                }
            }
            i = i + 1;
        }
        false
    }

    /// Delete the row carrying `id`; the count of removed rows (0 or 1).
    pub fn delete(&mut self, id: i32) -> (r: usize)
        requires
            table_wf(old(self)@),
        ensures
            table_wf(final(self)@),
            final(self)@.next_id == old(self)@.next_id,
            !has_id(old(self)@.rows, id as int) ==> r == 0 && final(self)@ == old(self)@,
            has_id(old(self)@.rows, id as int) ==> r == 1 && final(self)@.rows == old(self)@.rows
                .remove(find_id(old(self)@.rows, id as int)) && !has_id(
                final(self)@.rows,
                id as int,
            ),
    {
        match self.find_index(id) {
            None => 0,
            Some(j) => {
                proof {
                    let jj = find_id(self@.rows, id as int);
                    assert(0 <= jj < self@.rows.len() && self@.rows[jj].id == id as int);
                    assert(jj == j as int);
                }
                self.rows.remove(j);
                proof {
                    assert(self@.rows =~= old(self)@.rows.remove(j as int));
                    assert forall|k: int| 0 <= k < self@.rows.len() implies (#[trigger] self@.rows[k]).id
                        != id as int by {
                        if k < j as int {
                            assert(self@.rows[k] == old(self)@.rows[k]);
                        } else {
                            assert(self@.rows[k] == old(self)@.rows[k + 1]);
                        }
                    }
                }
                1
            },
        }
    }
}

} // verus!
