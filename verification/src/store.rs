//! An in-memory model of the storage layer that consumes the company
//! descriptor. It keeps the four related tables (zone, company, user,
//! vehicle) and enforces at insertion time exactly the constraints the
//! descriptor declares: primary-key uniqueness, the unique `email` column,
//! and the two foreign keys from `zone` and `community_area` to `zone.id`.
//!
//! Both zone relations carry a no-action policy, so deleting or updating a
//! zone row never touches the company rows that reference it: the foreign
//! keys are checked when a company row is inserted, and only then.

use vstd::prelude::*;
use crate::descriptor::Model;

verus! {

/// One row of the "zone" table.
#[derive(Clone, Debug)]
pub struct ZoneRow {
    /// Primary key.
    pub id: i32,
    /// Human-readable name.
    pub name: String,
}

/// One row of the "user" table; `company` is its foreign key to `company.id`.
#[derive(Clone, Copy, Debug, PartialEq, Eq, Structural)]
pub struct UserRow {
    /// Primary key.
    pub id: i32,
    /// Foreign key to `company.id`.
    pub company: i32,
}

/// One row of the "vehicle" table; `company` is its foreign key to
/// `company.id`.
#[derive(Clone, Copy, Debug, PartialEq, Eq, Structural)]
pub struct VehicleRow {
    /// Primary key.
    pub id: i32,
    /// Foreign key to `company.id`.
    pub company: i32,
}

/// The three failure kinds the schema's constraints can raise, surfaced as
/// distinguishable errors.
#[derive(Clone, Copy, Debug, PartialEq, Eq, Structural)]
pub enum ConstraintError {
    /// An insert reused an existing primary key.
    PrimaryKeyConflict,
    /// An insert reused an existing value of the unique `email` column.
    UniqueEmailConflict,
    /// A foreign key column does not name an existing referenced row.
    ForeignKeyViolation,
}

/// Whether some row of `cs` already carries the company id `id`.
pub open spec fn company_id_taken(cs: Seq<Model>, id: i32) -> bool {
    exists|i: int| 0 <= i < cs.len() && cs[i].id == id
}

/// Whether some row of `cs` already carries the email `e`.
pub open spec fn email_taken(cs: Seq<Model>, e: Seq<char>) -> bool {
    exists|i: int| 0 <= i < cs.len() && cs[i].email@ == e
}

/// Whether some zone row of `zs` has the id `id`.
pub open spec fn zone_id_exists(zs: Seq<ZoneRow>, id: i32) -> bool {
    exists|i: int| 0 <= i < zs.len() && zs[i].id == id
}

/// Whether some user row of `us` already carries the user id `id`.
pub open spec fn user_id_taken(us: Seq<UserRow>, id: i32) -> bool {
    exists|i: int| 0 <= i < us.len() && us[i].id == id
}

/// Whether some vehicle row of `vs` already carries the vehicle id `id`.
pub open spec fn vehicle_id_taken(vs: Seq<VehicleRow>, id: i32) -> bool {
    exists|i: int| 0 <= i < vs.len() && vs[i].id == id
}

/// Membership of a user row in the Company→User traversal of `company_id`.
pub open spec fn user_belongs_to(company_id: i32) -> spec_fn(UserRow) -> bool {
    |u: UserRow| u.company == company_id
}

/// Membership of a vehicle row in the Company→Vehicle traversal of
/// `company_id`.
pub open spec fn vehicle_belongs_to(company_id: i32) -> spec_fn(VehicleRow) -> bool {
    |v: VehicleRow| v.company == company_id
}

/// Pairwise distinctness of zone primary keys.
pub open spec fn zones_wf(zs: Seq<ZoneRow>) -> bool {
    forall|i: int, j: int| 0 <= i < j < zs.len() ==> zs[i].id != zs[j].id
}

/// Pairwise distinctness of company primary keys and of the unique `email`
/// column.
pub open spec fn companies_wf(cs: Seq<Model>) -> bool {
    forall|i: int, j: int|
        0 <= i < j < cs.len() ==> cs[i].id != cs[j].id && cs[i].email@ != cs[j].email@
}

/// Pairwise distinctness of user primary keys.
pub open spec fn users_wf(us: Seq<UserRow>) -> bool {
    forall|i: int, j: int| 0 <= i < j < us.len() ==> us[i].id != us[j].id
}

/// Pairwise distinctness of vehicle primary keys.
pub open spec fn vehicles_wf(vs: Seq<VehicleRow>) -> bool {
    forall|i: int, j: int| 0 <= i < j < vs.len() ==> vs[i].id != vs[j].id
}

fn contains_zone_id(zs: &Vec<ZoneRow>, id: i32) -> (b: bool)
    ensures
        b == zone_id_exists(zs@, id),
{
    let mut i: usize = 0;
    while i < zs.len()
        invariant
            i <= zs@.len(),
            forall|k: int| 0 <= k < i ==> zs@[k].id != id,
        decreases zs@.len() - i,
    {
        if zs[i].id == id {
            return true;
        }
        i += 1;
    }
    false
}

fn contains_company_id(cs: &Vec<Model>, id: i32) -> (b: bool)
    ensures
        b == company_id_taken(cs@, id),
{
    let mut i: usize = 0;
    while i < cs.len()
        invariant
            i <= cs@.len(),
            forall|k: int| 0 <= k < i ==> cs@[k].id != id,
        decreases cs@.len() - i,
    {
        if cs[i].id == id {
            return true;
        }
        i += 1;
    }
    false
}

fn contains_email(cs: &Vec<Model>, email: &String) -> (b: bool)
    ensures
        b == email_taken(cs@, email@),
{
    let mut i: usize = 0;
    while i < cs.len()
        invariant
            i <= cs@.len(),
            forall|k: int| 0 <= k < i ==> cs@[k].email@ != email@,
        decreases cs@.len() - i,
    {
        if cs[i].email == *email {
            return true;
        }
        i += 1;
    }
    false
}

fn contains_user_id(us: &Vec<UserRow>, id: i32) -> (b: bool)
    ensures
        b == user_id_taken(us@, id),
{
    let mut i: usize = 0;
    while i < us.len()
        invariant
            i <= us@.len(),
            forall|k: int| 0 <= k < i ==> us@[k].id != id,
        decreases us@.len() - i,
    {
        if us[i].id == id {
            return true;
        }
        i += 1;
    }
    false
}

fn contains_vehicle_id(vs: &Vec<VehicleRow>, id: i32) -> (b: bool)
    ensures
        b == vehicle_id_taken(vs@, id),
{
    let mut i: usize = 0;
    while i < vs.len()
        invariant
            i <= vs@.len(),
            forall|k: int| 0 <= k < i ==> vs@[k].id != id,
        decreases vs@.len() - i,
    {
        if vs[i].id == id {
            return true;
        }
        i += 1;
    }
    false
}

fn find_zone_index(zs: &Vec<ZoneRow>, id: i32) -> (r: Option<usize>)
    ensures
        match r {
            Some(i) => i < zs@.len() && zs@[i as int].id == id,
            None => !zone_id_exists(zs@, id),
        },
{
    let mut i: usize = 0;
    while i < zs.len()
        invariant
            i <= zs@.len(),
            forall|k: int| 0 <= k < i ==> zs@[k].id != id,
        decreases zs@.len() - i,
    {
        if zs[i].id == id {
            return Some(i);
        }
        i += 1;
    }
    None
}

/// An in-memory store of the four related tables. Every mutating method
/// preserves `wf`.
#[derive(Clone, Debug)]
pub struct Database {
    zone_rows: Vec<ZoneRow>,
    company_rows: Vec<Model>,
    user_rows: Vec<UserRow>,
    vehicle_rows: Vec<VehicleRow>,
}

impl Database {
    /// The zone rows, oldest first.
    pub closed spec fn zones(self) -> Seq<ZoneRow> {
        self.zone_rows@
    }

    /// The company rows, oldest first.
    pub closed spec fn companies(self) -> Seq<Model> {
        self.company_rows@
    }

    /// The user rows, oldest first.
    pub closed spec fn users(self) -> Seq<UserRow> {
        self.user_rows@
    }

    /// The vehicle rows, oldest first.
    pub closed spec fn vehicles(self) -> Seq<VehicleRow> {
        self.vehicle_rows@
    }

    /// The store's invariant: every table's primary key is unique, and so is
    /// the company table's `email` column. Foreign keys are deliberately not
    /// part of it: they are checked at insertion time only, and the no-action
    /// policy lets later zone deletes and updates leave them dangling.
    pub open spec fn wf(self) -> bool {
        &&& zones_wf(self.zones())
        &&& companies_wf(self.companies())
        &&& users_wf(self.users())
        &&& vehicles_wf(self.vehicles())
    }

    /// The outcome `insert_company` is required to produce on `row`, given
    /// the current contents: the primary key is checked first, then the
    /// unique email, then the two zone foreign keys.
    pub open spec fn company_insert_check(self, row: Model) -> Result<(), ConstraintError> {
        if company_id_taken(self.companies(), row.id) {
            Err(ConstraintError::PrimaryKeyConflict)
        } else if email_taken(self.companies(), row.email@) {
            Err(ConstraintError::UniqueEmailConflict)
        } else if !zone_id_exists(self.zones(), row.zone) || !zone_id_exists(
            self.zones(),
            row.community_area,
        ) {
            Err(ConstraintError::ForeignKeyViolation)
        } else {
            Ok(())
        }
    }

    /// The outcome `insert_zone` is required to produce on `row`.
    pub open spec fn zone_insert_check(self, row: ZoneRow) -> Result<(), ConstraintError> {
        if zone_id_exists(self.zones(), row.id) {
            Err(ConstraintError::PrimaryKeyConflict)
        } else {
            Ok(())
        }
    }

    /// The outcome `insert_user` is required to produce on `row`: the primary
    /// key is checked first, then the foreign key to `company.id`.
    pub open spec fn user_insert_check(self, row: UserRow) -> Result<(), ConstraintError> {
        if user_id_taken(self.users(), row.id) {
            Err(ConstraintError::PrimaryKeyConflict)
        } else if !company_id_taken(self.companies(), row.company) {
            Err(ConstraintError::ForeignKeyViolation)
        } else {
            Ok(())
        }
    }

    /// The outcome `insert_vehicle` is required to produce on `row`.
    pub open spec fn vehicle_insert_check(self, row: VehicleRow) -> Result<(), ConstraintError> {
        if vehicle_id_taken(self.vehicles(), row.id) {
            Err(ConstraintError::PrimaryKeyConflict)
        } else if !company_id_taken(self.companies(), row.company) {
            Err(ConstraintError::ForeignKeyViolation)
        } else {
            Ok(())
        }
    }

    /// The user rows reachable from the company with id `company_id` through
    /// the Company→User relation, in insertion order.
    pub open spec fn users_of(self, company_id: i32) -> Seq<UserRow> {
        self.users().filter(user_belongs_to(company_id))
    }

    /// The vehicle rows reachable from the company with id `company_id`
    /// through the Company→Vehicle relation, in insertion order.
    pub open spec fn vehicles_of(self, company_id: i32) -> Seq<VehicleRow> {
        self.vehicles().filter(vehicle_belongs_to(company_id))
    }

    /// Inserts a zone row, enforcing the zone table's primary key.
    pub fn insert_zone(&mut self, row: ZoneRow) -> (r: Result<(), ConstraintError>)
        requires
            old(self).wf(),
        ensures
            final(self).wf(),
            r == old(self).zone_insert_check(row),
            final(self).companies() == old(self).companies(),
            final(self).users() == old(self).users(),
            final(self).vehicles() == old(self).vehicles(),
            r is Ok ==> final(self).zones() == old(self).zones().push(row),
            r is Err ==> final(self).zones() == old(self).zones(),
    {
        if contains_zone_id(&self.zone_rows, row.id) {
            return Err(ConstraintError::PrimaryKeyConflict);
        }
        proof {
            let zs = self.zone_rows@;
            assert forall|i: int, j: int| 0 <= i < j < zs.push(row).len() implies zs.push(row)[i].id
                != zs.push(row)[j].id by {
                if j == zs.len() {
                    assert(zs.push(row)[i] == zs[i]);
                }
            }
        }
        self.zone_rows.push(row);
        Ok(())
    }

    /// Inserts a company row, enforcing exactly the descriptor's constraints
    /// in this order: the primary key `id`, the unique `email`, then the two
    /// foreign keys `zone` and `community_area` against the zone rows present
    /// at this moment.
    pub fn insert_company(&mut self, row: Model) -> (r: Result<(), ConstraintError>)
        requires
            old(self).wf(),
        ensures
            final(self).wf(),
            r == old(self).company_insert_check(row),
            final(self).zones() == old(self).zones(),
            final(self).users() == old(self).users(),
            final(self).vehicles() == old(self).vehicles(),
            r is Ok ==> final(self).companies() == old(self).companies().push(row),
            r is Err ==> final(self).companies() == old(self).companies(),
    {
        if contains_company_id(&self.company_rows, row.id) {
            return Err(ConstraintError::PrimaryKeyConflict);
        }
        if contains_email(&self.company_rows, &row.email) {
            return Err(ConstraintError::UniqueEmailConflict);
        }
        if !contains_zone_id(&self.zone_rows, row.zone) || !contains_zone_id(
            &self.zone_rows,
            row.community_area,
        ) {
            return Err(ConstraintError::ForeignKeyViolation);
        }
        proof {
            let cs = self.company_rows@;
            assert forall|i: int, j: int| 0 <= i < j < cs.push(row).len() implies cs.push(row)[i].id
                != cs.push(row)[j].id && cs.push(row)[i].email@ != cs.push(row)[j].email@ by {
                if j == cs.len() {
                    assert(cs.push(row)[i] == cs[i]);
                }
            }
        }
        self.company_rows.push(row);
        Ok(())
    }

    /// Inserts a user row, enforcing its primary key and its foreign key to
    /// `company.id`.
    pub fn insert_user(&mut self, row: UserRow) -> (r: Result<(), ConstraintError>)
        requires
            old(self).wf(),
        ensures
            final(self).wf(),
            r == old(self).user_insert_check(row),
            final(self).zones() == old(self).zones(),
            final(self).companies() == old(self).companies(),
            final(self).vehicles() == old(self).vehicles(),
            r is Ok ==> final(self).users() == old(self).users().push(row),
            r is Err ==> final(self).users() == old(self).users(),
    {
        if contains_user_id(&self.user_rows, row.id) {
            return Err(ConstraintError::PrimaryKeyConflict);
        }
        if !contains_company_id(&self.company_rows, row.company) {
            return Err(ConstraintError::ForeignKeyViolation);
        }
        proof {
            let us = self.user_rows@;
            assert forall|i: int, j: int| 0 <= i < j < us.push(row).len() implies us.push(row)[i].id
                != us.push(row)[j].id by {
                if j == us.len() {
                    assert(us.push(row)[i] == us[i]);
                }
            }
        }
        self.user_rows.push(row);
        Ok(())
    }

    /// Inserts a vehicle row, enforcing its primary key and its foreign key
    /// to `company.id`.
    pub fn insert_vehicle(&mut self, row: VehicleRow) -> (r: Result<(), ConstraintError>)
        requires
            old(self).wf(),
        ensures
            final(self).wf(),
            r == old(self).vehicle_insert_check(row),
            final(self).zones() == old(self).zones(),
            final(self).companies() == old(self).companies(),
            final(self).users() == old(self).users(),
            r is Ok ==> final(self).vehicles() == old(self).vehicles().push(row),
            r is Err ==> final(self).vehicles() == old(self).vehicles(),
    {
        if contains_vehicle_id(&self.vehicle_rows, row.id) {
            return Err(ConstraintError::PrimaryKeyConflict);
        }
        if !contains_company_id(&self.company_rows, row.company) {
            return Err(ConstraintError::ForeignKeyViolation);
        }
        proof {
            let vs = self.vehicle_rows@;
            assert forall|i: int, j: int| 0 <= i < j < vs.push(row).len() implies vs.push(row)[i].id
                != vs.push(row)[j].id by {
                if j == vs.len() {
                    assert(vs.push(row)[i] == vs[i]);
                }
            }
        }
        self.vehicle_rows.push(row);
        Ok(())
    }

    /// Deletes the zone row with id `id`, if present. The no-action policy
    /// of both zone relations means the delete touches nothing else: company
    /// rows referencing the zone are left exactly as they were, even though
    /// their `zone` or `community_area` now dangles.
    pub fn delete_zone(&mut self, id: i32) -> (r: bool)
        requires
            old(self).wf(),
        ensures
            final(self).wf(),
            final(self).companies() == old(self).companies(),
            final(self).users() == old(self).users(),
            final(self).vehicles() == old(self).vehicles(),
            r == zone_id_exists(old(self).zones(), id),
            !r ==> final(self).zones() == old(self).zones(),
            r ==> exists|i: int|
                0 <= i < old(self).zones().len() && old(self).zones()[i].id == id && final(self).zones() == old(self).zones().remove(i),
    {
        match find_zone_index(&self.zone_rows, id) {
            Some(i) => {
                proof {
                    let zs = self.zone_rows@;
                    let rest = zs.remove(i as int);
                    assert forall|a: int, b: int| 0 <= a < b < rest.len() implies rest[a].id
                        != rest[b].id by {
                        assert(rest[a] == (if a < i { zs[a] } else { zs[a + 1] }));
                        assert(rest[b] == (if b < i { zs[b] } else { zs[b + 1] }));
                    }
                }
                self.zone_rows.remove(i);
                true
            },
            None => false,
        }
    }

    /// Renames the zone row with id `id`, if present. Company rows are
    /// untouched: updating a referenced zone row takes no action on them.
    pub fn update_zone_name(&mut self, id: i32, name: String) -> (r: bool)
        requires
            old(self).wf(),
        ensures
            final(self).wf(),
            final(self).companies() == old(self).companies(),
            final(self).users() == old(self).users(),
            final(self).vehicles() == old(self).vehicles(),
            r == zone_id_exists(old(self).zones(), id),
            !r ==> final(self).zones() == old(self).zones(),
            r ==> exists|i: int|
                0 <= i < old(self).zones().len() && old(self).zones()[i].id == id && final(self).zones() == old(self).zones().update(i, (ZoneRow { id, name })),
    {
        match find_zone_index(&self.zone_rows, id) {
            Some(i) => {
                let ghost zs = self.zone_rows@;
                self.zone_rows.remove(i);
                self.zone_rows.insert(i, ZoneRow { id, name });
                proof {
                    let updated = zs.update(i as int, (ZoneRow { id, name }));
                    assert(self.zone_rows@ =~= updated);
                    assert forall|a: int, b: int| 0 <= a < b < updated.len() implies updated[a].id
                        != updated[b].id by {
                        assert(zs[a].id != zs[b].id);
                        assert(updated[a].id == (if a == i { id } else { zs[a].id }));
                        assert(updated[b].id == (if b == i { id } else { zs[b].id }));
                    }
                }
                true
            },
            None => false,
        }
    }

    /// The outcome `update_zone_id` is required to produce: `Ok(false)` when
    /// no zone row has id `id`, a primary-key conflict when `new_id` is
    /// already taken by another zone row, `Ok(true)` otherwise.
    pub open spec fn zone_update_check(self, id: i32, new_id: i32) -> Result<
        bool,
        ConstraintError,
    > {
        if !zone_id_exists(self.zones(), id) {
            Ok(false)
        } else if new_id != id && zone_id_exists(self.zones(), new_id) {
            Err(ConstraintError::PrimaryKeyConflict)
        } else {
            Ok(true)
        }
    }

    /// Changes the primary key of the zone row with id `id` to `new_id`.
    /// This is the update the descriptor's on-update policy speaks of, and
    /// the policy is no action: company rows whose `zone` or
    /// `community_area` equals `id` are left exactly as they were.
    pub fn update_zone_id(&mut self, id: i32, new_id: i32) -> (r: Result<bool, ConstraintError>)
        requires
            old(self).wf(),
        ensures
            final(self).wf(),
            final(self).companies() == old(self).companies(),
            final(self).users() == old(self).users(),
            final(self).vehicles() == old(self).vehicles(),
            r == old(self).zone_update_check(id, new_id),
            r != Ok::<bool, ConstraintError>(true) ==> final(self).zones() == old(self).zones(),
            r == Ok::<bool, ConstraintError>(true) ==> exists|i: int|
                0 <= i < old(self).zones().len() && old(self).zones()[i].id == id && final(self).zones() == old(self).zones().update(
                    i,
                    (ZoneRow { id: new_id, name: old(self).zones()[i].name }),
                ),
    {
        match find_zone_index(&self.zone_rows, id) {
            Some(i) => {
                if new_id != id && contains_zone_id(&self.zone_rows, new_id) {
                    return Err(ConstraintError::PrimaryKeyConflict);
                }
                let ghost zs = self.zone_rows@;
                let row = self.zone_rows.remove(i);
                self.zone_rows.insert(i, ZoneRow { id: new_id, name: row.name });
                proof {
                    let updated = zs.update(i as int, (ZoneRow { id: new_id, name: zs[i as int].name }));
                    assert(self.zone_rows@ =~= updated);
                    assert forall|a: int, b: int| 0 <= a < b < updated.len() implies updated[a].id
                        != updated[b].id by {
                        assert(zs[a].id != zs[b].id);
                        assert(updated[a].id == (if a == i { new_id } else { zs[a].id }));
                        assert(updated[b].id == (if b == i { new_id } else { zs[b].id }));
                    }
                }
                Ok(true)
            },
            None => Ok(false),
        }
    }

    /// Traverses the Company→User relation: returns the user rows whose
    /// foreign key equals `company_id`, in insertion order.
    pub fn related_users(&self, company_id: i32) -> (r: Vec<UserRow>)
        ensures
            r@ == self.users_of(company_id),
    {
        let mut out: Vec<UserRow> = Vec::new();
        let mut i: usize = 0;
        while i < self.user_rows.len()
            invariant
                i <= self.user_rows@.len(),
                out@ == self.user_rows@.take(i as int).filter(user_belongs_to(company_id)),
            decreases self.user_rows@.len() - i,
        {
            let u = self.user_rows[i];
            proof {
                self.user_rows@.lemma_take_succ_push(i as int);
                self.user_rows@.take(i as int).lemma_filter_push(
                    self.user_rows@[i as int],
                    user_belongs_to(company_id),
                );
            }
            if u.company == company_id {
                out.push(u);
            }
            i += 1;
        }
        proof {
            self.user_rows@.lemma_take_len();
        }
        out
    }

    /// Traverses the Company→Vehicle relation: returns the vehicle rows
    /// whose foreign key equals `company_id`, in insertion order.
    pub fn related_vehicles(&self, company_id: i32) -> (r: Vec<VehicleRow>)
        ensures
            r@ == self.vehicles_of(company_id),
    {
        let mut out: Vec<VehicleRow> = Vec::new();
        let mut i: usize = 0;
        while i < self.vehicle_rows.len()
            invariant
                i <= self.vehicle_rows@.len(),
                out@ == self.vehicle_rows@.take(i as int).filter(vehicle_belongs_to(company_id)),
            decreases self.vehicle_rows@.len() - i,
        {
            let v = self.vehicle_rows[i];
            proof {
                self.vehicle_rows@.lemma_take_succ_push(i as int);
                self.vehicle_rows@.take(i as int).lemma_filter_push(
                    self.vehicle_rows@[i as int],
                    vehicle_belongs_to(company_id),
                );
            }
            if v.company == company_id {
                out.push(v);
            }
            i += 1;
        }
        proof {
            self.vehicle_rows@.lemma_take_len();
        }
        out
    }

    /// How many zone rows the store holds.
    pub fn zone_count(&self) -> (n: usize)
        ensures
            n == self.zones().len(),
    {
        self.zone_rows.len()
    }

    /// How many company rows the store holds.
    pub fn company_count(&self) -> (n: usize)
        ensures
            n == self.companies().len(),
    {
        self.company_rows.len()
    }

    /// How many user rows the store holds.
    pub fn user_count(&self) -> (n: usize)
        ensures
            n == self.users().len(),
    {
        self.user_rows.len()
    }

    /// How many vehicle rows the store holds.
    pub fn vehicle_count(&self) -> (n: usize)
        ensures
            n == self.vehicles().len(),
    {
        self.vehicle_rows.len()
    }

    /// The zone row at position `i`, oldest first.
    pub fn zone_at(&self, i: usize) -> (r: &ZoneRow)
        requires
            i < self.zones().len(),
        ensures
            *r == self.zones()[i as int],
    {
        &self.zone_rows[i]
    }

    /// The company row at position `i`, oldest first.
    pub fn company_at(&self, i: usize) -> (r: &Model)
        requires
            i < self.companies().len(),
        ensures
            *r == self.companies()[i as int],
    {
        &self.company_rows[i]
    }

    /// The user row at position `i`, oldest first.
    pub fn user_at(&self, i: usize) -> (r: &UserRow)
        requires
            i < self.users().len(),
        ensures
            *r == self.users()[i as int],
    {
        &self.user_rows[i]
    }

    /// The vehicle row at position `i`, oldest first.
    pub fn vehicle_at(&self, i: usize) -> (r: &VehicleRow)
        requires
            i < self.vehicles().len(),
        ensures
            *r == self.vehicles()[i as int],
    {
        &self.vehicle_rows[i]
    }

    /// Looks a company row up by its primary key.
    pub fn find_company(&self, id: i32) -> (r: Option<&Model>)
        ensures
            r is Some <==> company_id_taken(self.companies(), id),
            match r {
                Some(m) => m.id == id && exists|i: int|
                    0 <= i < self.companies().len() && self.companies()[i] == *m,
                None => !company_id_taken(self.companies(), id),
            },
    {
        let mut i: usize = 0;
        while i < self.company_rows.len()
            invariant
                i <= self.company_rows@.len(),
                forall|k: int| 0 <= k < i ==> self.company_rows@[k].id != id,
            decreases self.company_rows@.len() - i,
        {
            if self.company_rows[i].id == id {
                return Some(&self.company_rows[i]);
            }
            i += 1;
        }
        None
    }

    /// An empty store.
    pub fn new() -> (db: Database)
        ensures
            db.wf(),
            db.zones() =~= Seq::<ZoneRow>::empty(),
            db.companies() =~= Seq::<Model>::empty(),
            db.users() =~= Seq::<UserRow>::empty(),
            db.vehicles() =~= Seq::<VehicleRow>::empty(),
    {
        Database {
            zone_rows: Vec::new(),
            company_rows: Vec::new(),
            user_rows: Vec::new(),
            vehicle_rows: Vec::new(),
        }
    }
}

/// Primary-key uniqueness of the company table: in a well-formed store two
/// distinct company rows never share the same `id`.
pub proof fn lemma_company_ids_distinct(cs: Seq<Model>, i: int, j: int)
    requires
        companies_wf(cs),
        0 <= i < cs.len(),
        0 <= j < cs.len(),
        i != j,
    ensures
        cs[i].id != cs[j].id,
{
    if i < j {
        assert(cs[i].id != cs[j].id);
    } else {
        assert(cs[j].id != cs[i].id);
    }
}

/// Uniqueness of the `email` column: in a well-formed store two distinct
/// company rows never share the same email.
pub proof fn lemma_company_emails_distinct(cs: Seq<Model>, i: int, j: int)
    requires
        companies_wf(cs),
        0 <= i < cs.len(),
        0 <= j < cs.len(),
        i != j,
    ensures
        cs[i].email@ != cs[j].email@,
{
    if i < j {
        assert(cs[i].email@ != cs[j].email@);
    } else {
        assert(cs[j].email@ != cs[i].email@);
    }
}

/// Referential integrity at insertion time: a company insert that the check
/// admits references existing zone rows — both `row.zone` and
/// `row.community_area` equal the `id` of some zone row present at that
/// moment.
pub proof fn lemma_insert_ok_references_zones(db: Database, row: Model)
    requires
        db.company_insert_check(row) is Ok,
    ensures
        zone_id_exists(db.zones(), row.zone),
        zone_id_exists(db.zones(), row.community_area),
{
}

/// The Company→User traversal is exact: every row it returns carries the
/// company's id as its foreign key and comes from the user table, and every
/// user row carrying that foreign key is returned.
pub proof fn lemma_users_of_exact(db: Database, company_id: i32)
    ensures
        forall|k: int|
            0 <= k < db.users_of(company_id).len() ==> db.users_of(company_id)[k].company
                == company_id && db.users().contains(db.users_of(company_id)[k]),
        forall|k: int|
            0 <= k < db.users().len() && db.users()[k].company == company_id ==> db.users_of(
                company_id,
            ).contains(db.users()[k]),
{
    broadcast use vstd::seq_lib::group_filter_ensures;

    let p = user_belongs_to(company_id);
    let f = db.users_of(company_id);
    assert forall|k: int| 0 <= k < f.len() implies f[k].company == company_id && db.users().contains(
        f[k],
    ) by {
        assert(p(f[k]));
        assert(f.contains(f[k]));
        db.users().lemma_filter_contains_rev(p, f[k]);
    }
}

/// The Company→Vehicle traversal is exact, in the same sense as the
/// Company→User one.
pub proof fn lemma_vehicles_of_exact(db: Database, company_id: i32)
    ensures
        forall|k: int|
            0 <= k < db.vehicles_of(company_id).len() ==> db.vehicles_of(company_id)[k].company
                == company_id && db.vehicles().contains(db.vehicles_of(company_id)[k]),
        forall|k: int|
            0 <= k < db.vehicles().len() && db.vehicles()[k].company == company_id
                ==> db.vehicles_of(company_id).contains(db.vehicles()[k]),
{
    broadcast use vstd::seq_lib::group_filter_ensures;

    let p = vehicle_belongs_to(company_id);
    let f = db.vehicles_of(company_id);
    assert forall|k: int| 0 <= k < f.len() implies f[k].company == company_id
        && db.vehicles().contains(f[k]) by {
        assert(p(f[k]));
        assert(f.contains(f[k]));
        db.vehicles().lemma_filter_contains_rev(p, f[k]);
    }
}

} // verus!
