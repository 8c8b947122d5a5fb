//! The resource records kept by the store.

use vstd::prelude::*;

verus! {

/// One country record: a system-assigned identity, three user-supplied
/// attributes that must each be unique across all records, and two
/// store-maintained timestamps (seconds).
pub struct Country {
    pub id: i32,
    pub name: String,
    pub code: String,
    pub dial_code: String,
    pub created_at: i64,
    pub updated_at: i64,
}

/// The mathematical image of a country record.
pub ghost struct CountryV {
    pub id: int,
    pub name: Seq<char>,
    pub code: Seq<char>,
    pub dial_code: Seq<char>,
    pub created_at: int,
    pub updated_at: int,
}

impl View for Country {
    type V = CountryV;

    open spec fn view(&self) -> CountryV {
        CountryV {
            id: self.id as int,
            name: self.name@,
            code: self.code@,
            dial_code: self.dial_code@,
            created_at: self.created_at as int,
            updated_at: self.updated_at as int,
        }
    }
}

impl Country {
    /// A field-for-field copy of the record.
    pub fn duplicate(&self) -> (r: Country)
        ensures
            r@ == self@,
    {
        Country {
            id: self.id,
            name: self.name.clone(),
            code: self.code.clone(),
            dial_code: self.dial_code.clone(),
            created_at: self.created_at,
            updated_at: self.updated_at,
        }
    }
}

/// An audit-trail entry; the table exists beside the country table but no
/// command currently writes to it.
pub struct AuditLog {
    pub id: i32,
    pub action: String,
    pub details: String,
    pub created_at: i64,
}

} // verus!
