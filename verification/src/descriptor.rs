//! Static description of the "company" table: its columns with their semantic
//! types and constraint flags, and its relations to the user, vehicle and zone
//! tables. A generic data-mapping layer can read this descriptor to translate
//! typed operations on company rows into queries on the underlying storage.

use vstd::prelude::*;

verus! {

/// One row of the "company" table.
///
/// `latitude` and `longitude` are single-precision floating-point columns in
/// the schema; the descriptor carries them as their IEEE-754 bit patterns so
/// that a row is made of plain values only. Code that needs the numeric value
/// converts at the boundary.
#[derive(Clone, Debug)]
pub struct Model {
    /// Primary key: uniquely identifies a company row.
    pub id: i32,
    /// Bit pattern of the 32-bit float `latitude` column.
    pub latitude: u32,
    /// Bit pattern of the 32-bit float `longitude` column.
    pub longitude: u32,
    /// Human-readable name; no uniqueness constraint.
    pub display_name: String,
    /// Unique across all company rows.
    pub email: String,
    /// Foreign key to `zone.id`.
    pub zone: i32,
    /// A second foreign key to `zone.id`, semantically distinct from `zone`.
    pub community_area: i32,
}

/// The columns of the "company" table, in declaration order.
#[derive(Clone, Copy, Debug, PartialEq, Eq, Structural)]
pub enum Column {
    Id,
    Latitude,
    Longitude,
    DisplayName,
    Email,
    Zone,
    CommunityArea,
}

/// The semantic type of a column.
#[derive(Clone, Copy, Debug, PartialEq, Eq, Structural)]
pub enum ColumnType {
    Integer,
    Float,
    Text,
}

/// The entities this table is related to.
#[derive(Clone, Copy, Debug, PartialEq, Eq, Structural)]
pub enum TargetEntity {
    User,
    Vehicle,
    Zone,
}

/// Cardinality of a relation, seen from the company side.
#[derive(Clone, Copy, Debug, PartialEq, Eq, Structural)]
pub enum Cardinality {
    OneToMany,
    ManyToOne,
}

/// Referential action taken when a referenced row is updated or deleted.
/// Both zone relations specify no action: the storage layer must not cascade.
#[derive(Clone, Copy, Debug, PartialEq, Eq, Structural)]
pub enum ForeignKeyAction {
    NoAction,
}

/// The relations of the "company" table, named by their semantic role.
///
/// `Zone` is the many-to-one relation through the `zone` column and
/// `CommunityArea` the one through the `community_area` column: two distinct
/// relationship roles to the same target table.
#[derive(Clone, Copy, Debug, PartialEq, Eq, Structural)]
pub enum Relation {
    User,
    Vehicle,
    Zone,
    CommunityArea,
}

impl Column {
    /// The column's name in the schema.
    pub open spec fn spec_name(self) -> Seq<char> {
        match self {
            Column::Id => "id"@,
            Column::Latitude => "latitude"@,
            Column::Longitude => "longitude"@,
            Column::DisplayName => "display_name"@,
            Column::Email => "email"@,
            Column::Zone => "zone"@,
            Column::CommunityArea => "community_area"@,
        }
    }

    /// The column's name in the schema.
    pub fn name(self) -> (r: &'static str)
        ensures
            r@ == self.spec_name(),
    {
        match self {
            Column::Id => "id",
            Column::Latitude => "latitude",
            Column::Longitude => "longitude",
            Column::DisplayName => "display_name",
            Column::Email => "email",
            Column::Zone => "zone",
            Column::CommunityArea => "community_area",
        }
    }

    /// The column's semantic type.
    pub open spec fn spec_column_type(self) -> ColumnType {
        match self {
            Column::Id => ColumnType::Integer,
            Column::Latitude => ColumnType::Float,
            Column::Longitude => ColumnType::Float,
            Column::DisplayName => ColumnType::Text,
            Column::Email => ColumnType::Text,
            Column::Zone => ColumnType::Integer,
            Column::CommunityArea => ColumnType::Integer,
        }
    }

    /// The column's semantic type.
    pub fn column_type(self) -> (r: ColumnType)
        ensures
            r == self.spec_column_type(),
    {
        match self {
            Column::Id => ColumnType::Integer,
            Column::Latitude => ColumnType::Float,
            Column::Longitude => ColumnType::Float,
            Column::DisplayName => ColumnType::Text,
            Column::Email => ColumnType::Text,
            Column::Zone => ColumnType::Integer,
            Column::CommunityArea => ColumnType::Integer,
        }
    }

    /// Whether the column is the table's primary key. Only `id` is.
    pub fn is_primary_key(self) -> (r: bool)
        ensures
            r == (self == Column::Id),
    {
        match self {
            Column::Id => true,
            _ => false,
        }
    }

    /// Whether the column carries a unique constraint of its own.
    /// Only `email` does.
    pub fn is_unique(self) -> (r: bool)
        ensures
            r == (self == Column::Email),
    {
        match self {
            Column::Email => true,
            _ => false,
        }
    }
}

impl Relation {
    /// The relation's cardinality, seen from the company side.
    pub open spec fn spec_cardinality(self) -> Cardinality {
        match self {
            Relation::User => Cardinality::OneToMany,
            Relation::Vehicle => Cardinality::OneToMany,
            Relation::Zone => Cardinality::ManyToOne,
            Relation::CommunityArea => Cardinality::ManyToOne,
        }
    }

    /// The relation's cardinality, seen from the company side.
    pub fn cardinality(self) -> (r: Cardinality)
        ensures
            r == self.spec_cardinality(),
    {
        match self {
            Relation::User => Cardinality::OneToMany,
            Relation::Vehicle => Cardinality::OneToMany,
            Relation::Zone => Cardinality::ManyToOne,
            Relation::CommunityArea => Cardinality::ManyToOne,
        }
    }

    /// The entity the relation points at.
    pub open spec fn spec_target(self) -> TargetEntity {
        match self {
            Relation::User => TargetEntity::User,
            Relation::Vehicle => TargetEntity::Vehicle,
            Relation::Zone => TargetEntity::Zone,
            Relation::CommunityArea => TargetEntity::Zone,
        }
    }

    /// The entity the relation points at. Both zone relations point at the
    /// same target table through different local columns.
    pub fn target(self) -> (r: TargetEntity)
        ensures
            r == self.spec_target(),
    {
        match self {
            Relation::User => TargetEntity::User,
            Relation::Vehicle => TargetEntity::Vehicle,
            Relation::Zone => TargetEntity::Zone,
            Relation::CommunityArea => TargetEntity::Zone,
        }
    }

    /// For a many-to-one relation, the local column holding the foreign key;
    /// `None` for the one-to-many relations, whose key lives on the far side.
    pub open spec fn spec_foreign_key_column(self) -> Option<Column> {
        match self {
            Relation::User => None,
            Relation::Vehicle => None,
            Relation::Zone => Some(Column::Zone),
            Relation::CommunityArea => Some(Column::CommunityArea),
        }
    }

    /// For a many-to-one relation, the local column holding the foreign key.
    pub fn foreign_key_column(self) -> (r: Option<Column>)
        ensures
            r == self.spec_foreign_key_column(),
    {
        match self {
            Relation::User => None,
            Relation::Vehicle => None,
            Relation::Zone => Some(Column::Zone),
            Relation::CommunityArea => Some(Column::CommunityArea),
        }
    }

    /// For a many-to-one relation, the name of the remote column the foreign
    /// key targets: both zone relations target `zone.id`.
    pub fn referenced_column_name(self) -> (r: Option<&'static str>)
        ensures
            self.spec_cardinality() == Cardinality::ManyToOne <==> r is Some,
            r is Some ==> r->0@ == "id"@,
    {
        match self {
            Relation::User => None,
            Relation::Vehicle => None,
            Relation::Zone => Some("id"),
            Relation::CommunityArea => Some("id"),
        }
    }

    /// The action taken on company rows when a referenced row is updated:
    /// no action, for both foreign-key relations.
    pub fn on_update(self) -> (r: Option<ForeignKeyAction>)
        ensures
            self.spec_cardinality() == Cardinality::ManyToOne <==> r == Some(
                ForeignKeyAction::NoAction,
            ),
            self.spec_cardinality() == Cardinality::OneToMany <==> r is None,
    {
        match self {
            Relation::User => None,
            Relation::Vehicle => None,
            Relation::Zone => Some(ForeignKeyAction::NoAction),
            Relation::CommunityArea => Some(ForeignKeyAction::NoAction),
        }
    }

    /// The action taken on company rows when a referenced row is deleted:
    /// no action, for both foreign-key relations.
    pub fn on_delete(self) -> (r: Option<ForeignKeyAction>)
        ensures
            self.spec_cardinality() == Cardinality::ManyToOne <==> r == Some(
                ForeignKeyAction::NoAction,
            ),
            self.spec_cardinality() == Cardinality::OneToMany <==> r is None,
    {
        match self {
            Relation::User => None,
            Relation::Vehicle => None,
            Relation::Zone => Some(ForeignKeyAction::NoAction),
            Relation::CommunityArea => Some(ForeignKeyAction::NoAction),
        }
    }
}

/// The table's name in the schema.
pub fn table_name() -> (r: &'static str)
    ensures
        r@ == "company"@,
{
    "company"
}

/// All columns, in declaration order.
pub fn columns() -> (r: Vec<Column>)
    ensures
        r@ =~= seq![
            Column::Id,
            Column::Latitude,
            Column::Longitude,
            Column::DisplayName,
            Column::Email,
            Column::Zone,
            Column::CommunityArea,
        ],
{
    let mut v: Vec<Column> = Vec::new();
    v.push(Column::Id);
    v.push(Column::Latitude);
    v.push(Column::Longitude);
    v.push(Column::DisplayName);
    v.push(Column::Email);
    v.push(Column::Zone);
    v.push(Column::CommunityArea);
    v
}

/// All relations, in declaration order.
pub fn relations() -> (r: Vec<Relation>)
    ensures
        r@ =~= seq![Relation::User, Relation::Vehicle, Relation::Zone, Relation::CommunityArea],
{
    let mut v: Vec<Relation> = Vec::new();
    v.push(Relation::User);
    v.push(Relation::Vehicle);
    v.push(Relation::Zone);
    v.push(Relation::CommunityArea);
    v
}

} // verus!
