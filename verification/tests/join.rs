use relquery::tests_cfg::{CakeColumn, CakeEntity, CakeModel, FillingEntity, FruitColumn, FruitEntity};
use relquery::{ColumnTrait, Related, Select, Value};

#[test]
fn join_1() {
    assert_eq!(
        CakeEntity::find().left_join(FruitEntity).build_mysql(),
        [
            "SELECT `cake`.`id`, `cake`.`name` FROM `cake`",
            "LEFT JOIN `fruit` ON `cake`.`id` = `fruit`.`cake_id`",
        ]
        .join(" ")
    );
}

#[test]
fn join_2() {
    assert_eq!(
        CakeEntity::find()
            .inner_join(FruitEntity)
            .filter(FruitColumn::Name.contains("cherry"))
            .build_mysql(),
        [
            "SELECT `cake`.`id`, `cake`.`name` FROM `cake`",
            "INNER JOIN `fruit` ON `cake`.`id` = `fruit`.`cake_id`",
            "WHERE `fruit`.`name` LIKE '%cherry%'",
        ]
        .join(" ")
    );
}

#[test]
fn join_3() {
    assert_eq!(
        FruitEntity::find().reverse_join(CakeEntity).build_mysql(),
        [
            "SELECT `fruit`.`id`, `fruit`.`name`, `fruit`.`cake_id` FROM `fruit`",
            "INNER JOIN `cake` ON `cake`.`id` = `fruit`.`cake_id`",
        ]
        .join(" ")
    );
}

#[test]
fn join_4() {
    let find_fruit: Select<FruitEntity> = <CakeEntity as Related<FruitEntity>>::find_related();
    assert_eq!(
        find_fruit
            .filter(CakeColumn::Id.eq(Value::Int(11)))
            .build_mysql(),
        [
            "SELECT `fruit`.`id`, `fruit`.`name`, `fruit`.`cake_id` FROM `fruit`",
            "INNER JOIN `cake` ON `cake`.`id` = `fruit`.`cake_id`",
            "WHERE `cake`.`id` = 11",
        ]
        .join(" ")
    );
}

#[test]
fn join_5() {
    let cake_model = CakeModel {
        id: 12,
        name: "".to_owned(),
    };

    assert_eq!(
        cake_model.find_fruit().build_mysql(),
        [
            "SELECT `fruit`.`id`, `fruit`.`name`, `fruit`.`cake_id` FROM `fruit`",
            "INNER JOIN `cake` ON `cake`.`id` = `fruit`.`cake_id`",
            "WHERE `cake`.`id` = 12",
        ]
        .join(" ")
    );
}

#[test]
fn join_6() {
    assert_eq!(
        CakeEntity::find().left_join(FillingEntity).build_mysql(),
        [
            "SELECT `cake`.`id`, `cake`.`name` FROM `cake`",
            "LEFT JOIN `cake_filling` ON `cake`.`id` = `cake_filling`.`cake_id`",
            "LEFT JOIN `filling` ON `cake_filling`.`filling_id` = `filling`.`id`",
        ]
        .join(" ")
    );
}
