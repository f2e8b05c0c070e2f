use relquery::tests_cfg::{
    CakeColumn, CakeEntity, CakeModel, FillingEntity, FruitEntity,
};
use relquery::{ColumnTrait, JoinKind, Predicate, Related, Select, Value};

#[test]
fn direct_join_appends_one_clause() {
    let select = CakeEntity::find().left_join(FruitEntity);
    let clauses = select.join_clauses();
    assert_eq!(clauses.len(), 1);
    assert_eq!(clauses[0].kind, JoinKind::Left);
    assert_eq!(clauses[0].table, "fruit");
    assert_eq!(clauses[0].lhs.table, "cake");
    assert_eq!(clauses[0].lhs.name, "id");
    assert_eq!(clauses[0].rhs.table, "fruit");
    assert_eq!(clauses[0].rhs.name, "cake_id");
}

#[test]
fn right_join_direct() {
    let select = CakeEntity::find().right_join(FruitEntity);
    let clauses = select.join_clauses();
    assert_eq!(clauses.len(), 1);
    assert_eq!(clauses[0].kind, JoinKind::Right);
    assert_eq!(
        CakeEntity::find().right_join(FruitEntity).build_mysql(),
        [
            "SELECT `cake`.`id`, `cake`.`name` FROM `cake`",
            "RIGHT JOIN `fruit` ON `cake`.`id` = `fruit`.`cake_id`",
        ]
        .join(" ")
    );
}

#[test]
fn two_hop_join_appends_two_ordered_clauses() {
    let select = CakeEntity::find().inner_join(FillingEntity);
    let clauses = select.join_clauses();
    assert_eq!(clauses.len(), 2);
    assert_eq!(clauses[0].kind, JoinKind::Inner);
    assert_eq!(clauses[1].kind, JoinKind::Inner);
    assert_eq!(clauses[0].table, "cake_filling");
    assert_eq!(clauses[0].lhs.table, "cake");
    assert_eq!(clauses[0].lhs.name, "id");
    assert_eq!(clauses[0].rhs.table, "cake_filling");
    assert_eq!(clauses[0].rhs.name, "cake_id");
    assert_eq!(clauses[1].table, "filling");
    assert_eq!(clauses[1].lhs.table, "cake_filling");
    assert_eq!(clauses[1].lhs.name, "filling_id");
    assert_eq!(clauses[1].rhs.table, "filling");
    assert_eq!(clauses[1].rhs.name, "id");
}

#[test]
fn reverse_join_keeps_condition_and_joins_source_table() {
    let reversed = FruitEntity::find().reverse_join(CakeEntity);
    let forward = CakeEntity::find().inner_join(FruitEntity);
    let rev = &reversed.join_clauses()[0];
    let fwd = &forward.join_clauses()[0];
    assert_eq!(rev.kind, fwd.kind);
    assert_eq!(rev.lhs.table, fwd.lhs.table);
    assert_eq!(rev.lhs.name, fwd.lhs.name);
    assert_eq!(rev.rhs.table, fwd.rhs.table);
    assert_eq!(rev.rhs.name, fwd.rhs.name);
    assert_eq!(rev.table, "cake");
    assert_eq!(fwd.table, "fruit");
}

#[test]
fn left_join_and_select_selects_both_entities() {
    let select = CakeEntity::find().left_join_and_select(FruitEntity);
    assert_eq!(select.join_clauses().len(), 1);
    assert_eq!(select.join_clauses()[0].kind, JoinKind::Left);
    assert_eq!(
        select.build_mysql(),
        [
            "SELECT `cake`.`id`, `cake`.`name`, `fruit`.`id`, `fruit`.`name`, `fruit`.`cake_id` FROM `cake`",
            "LEFT JOIN `fruit` ON `cake`.`id` = `fruit`.`cake_id`",
        ]
        .join(" ")
    );
}

#[test]
fn belongs_to_value_changes_literal_not_shape() {
    let twelve = CakeModel {
        id: 12,
        name: "".to_owned(),
    };
    let ninety = CakeModel {
        id: 90,
        name: "".to_owned(),
    };
    let select_twelve =
        <CakeEntity as Related<FruitEntity>>::find_related().belongs_to::<CakeEntity>(&twelve);
    let select_ninety =
        <CakeEntity as Related<FruitEntity>>::find_related().belongs_to::<CakeEntity>(&ninety);
    let cond_twelve = &select_twelve.conditions()[0];
    let cond_ninety = &select_ninety.conditions()[0];
    match (cond_twelve, cond_ninety) {
        (Predicate::Eq(col_a, Value::Int(a)), Predicate::Eq(col_b, Value::Int(b))) => {
            assert_eq!(col_a.table, "cake");
            assert_eq!(col_a.name, "id");
            assert_eq!(col_b.table, col_a.table);
            assert_eq!(col_b.name, col_a.name);
            assert_eq!(*a, 12);
            assert_eq!(*b, 90);
        }
        _ => panic!("belongs_to must emit an equality on the primary-key column"),
    }
    assert_eq!(
        select_ninety.build_mysql(),
        [
            "SELECT `fruit`.`id`, `fruit`.`name`, `fruit`.`cake_id` FROM `fruit`",
            "INNER JOIN `cake` ON `cake`.`id` = `fruit`.`cake_id`",
            "WHERE `cake`.`id` = 90",
        ]
        .join(" ")
    );
}

#[test]
fn filter_with_text_value() {
    let select: Select<CakeEntity> =
        CakeEntity::find().filter(CakeColumn::Name.eq(Value::Text("cheesecake".to_owned())));
    assert_eq!(
        select.build_mysql(),
        [
            "SELECT `cake`.`id`, `cake`.`name` FROM `cake`",
            "WHERE `cake`.`name` = 'cheesecake'",
        ]
        .join(" ")
    );
}

#[test]
fn chained_joins_keep_append_order() {
    let select = CakeEntity::find()
        .left_join(FruitEntity)
        .inner_join(FillingEntity);
    let clauses = select.join_clauses();
    assert_eq!(clauses.len(), 3);
    assert_eq!(clauses[0].table, "fruit");
    assert_eq!(clauses[0].kind, JoinKind::Left);
    assert_eq!(clauses[1].table, "cake_filling");
    assert_eq!(clauses[2].table, "filling");
    assert_eq!(clauses[1].kind, JoinKind::Inner);
    assert_eq!(clauses[2].kind, JoinKind::Inner);
}
