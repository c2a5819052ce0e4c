use company_entity::descriptor::{
    columns, relations, table_name, Cardinality, Column, ColumnType, ForeignKeyAction, Relation,
    TargetEntity,
};

#[test]
fn table_is_named_company() {
    assert_eq!(table_name(), "company");
}

#[test]
fn columns_in_declaration_order() {
    let cols = columns();
    let names: Vec<&str> = cols.iter().map(|c| c.name()).collect();
    assert_eq!(
        names,
        vec!["id", "latitude", "longitude", "display_name", "email", "zone", "community_area"]
    );
}

#[test]
fn column_types_match_schema() {
    assert_eq!(Column::Id.column_type(), ColumnType::Integer);
    assert_eq!(Column::Latitude.column_type(), ColumnType::Float);
    assert_eq!(Column::Longitude.column_type(), ColumnType::Float);
    assert_eq!(Column::DisplayName.column_type(), ColumnType::Text);
    assert_eq!(Column::Email.column_type(), ColumnType::Text);
    assert_eq!(Column::Zone.column_type(), ColumnType::Integer);
    assert_eq!(Column::CommunityArea.column_type(), ColumnType::Integer);
}

#[test]
fn only_id_is_primary_key() {
    for c in columns() {
        assert_eq!(c.is_primary_key(), c == Column::Id);
    }
}

#[test]
fn only_email_is_unique() {
    for c in columns() {
        assert_eq!(c.is_unique(), c == Column::Email);
    }
}

#[test]
fn relations_in_declaration_order() {
    assert_eq!(
        relations(),
        vec![Relation::User, Relation::Vehicle, Relation::Zone, Relation::CommunityArea]
    );
}

#[test]
fn relation_cardinalities() {
    assert_eq!(Relation::User.cardinality(), Cardinality::OneToMany);
    assert_eq!(Relation::Vehicle.cardinality(), Cardinality::OneToMany);
    assert_eq!(Relation::Zone.cardinality(), Cardinality::ManyToOne);
    assert_eq!(Relation::CommunityArea.cardinality(), Cardinality::ManyToOne);
}

#[test]
fn relation_targets() {
    assert_eq!(Relation::User.target(), TargetEntity::User);
    assert_eq!(Relation::Vehicle.target(), TargetEntity::Vehicle);
    assert_eq!(Relation::Zone.target(), TargetEntity::Zone);
    assert_eq!(Relation::CommunityArea.target(), TargetEntity::Zone);
}

#[test]
fn both_zone_relations_reference_zone_id() {
    assert_eq!(Relation::Zone.foreign_key_column(), Some(Column::Zone));
    assert_eq!(Relation::CommunityArea.foreign_key_column(), Some(Column::CommunityArea));
    assert_eq!(Relation::Zone.referenced_column_name(), Some("id"));
    assert_eq!(Relation::CommunityArea.referenced_column_name(), Some("id"));
    assert_eq!(Relation::User.foreign_key_column(), None);
    assert_eq!(Relation::Vehicle.foreign_key_column(), None);
    assert_eq!(Relation::User.referenced_column_name(), None);
    assert_eq!(Relation::Vehicle.referenced_column_name(), None);
}

#[test]
fn zone_relations_take_no_action_on_update_or_delete() {
    assert_eq!(Relation::Zone.on_update(), Some(ForeignKeyAction::NoAction));
    assert_eq!(Relation::Zone.on_delete(), Some(ForeignKeyAction::NoAction));
    assert_eq!(Relation::CommunityArea.on_update(), Some(ForeignKeyAction::NoAction));
    assert_eq!(Relation::CommunityArea.on_delete(), Some(ForeignKeyAction::NoAction));
    assert_eq!(Relation::User.on_update(), None);
    assert_eq!(Relation::User.on_delete(), None);
    assert_eq!(Relation::Vehicle.on_update(), None);
    assert_eq!(Relation::Vehicle.on_delete(), None);
}
