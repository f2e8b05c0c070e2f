use vstd::prelude::*;

use crate::entity::{ColumnTrait, EntityTrait, ModelTrait, Related};
use crate::select::{reverse_clause, Select, SelectV};
use crate::types::{ColumnRef, ColumnRefV, JoinKind, PredV, RelationDef, RelationDescV, Value, ValueV};

verus! {

/// The cake table: `cake (id, name)`, primary key `id`.
#[derive(Clone, Copy, Debug)]
pub struct CakeEntity;

/// Columns of the cake table.
#[derive(Clone, Copy, Debug)]
pub enum CakeColumn {
    Id,
    Name,
}

/// One row of the cake table.
#[derive(Clone, Debug)]
pub struct CakeModel {
    pub id: i64,
    pub name: String,
}

impl ColumnTrait for CakeColumn {
    open spec fn table_spec(self) -> Seq<char> {
        "cake"@
    }

    open spec fn name_spec(self) -> Seq<char> {
        match self {
            CakeColumn::Id => "id"@,
            CakeColumn::Name => "name"@,
        }
    }

    fn table_name(self) -> &'static str {
        "cake"
    }

    fn name(self) -> &'static str {
        match self {
            CakeColumn::Id => "id",
            CakeColumn::Name => "name",
        }
    }
}

impl ModelTrait for CakeModel {
    type Column = CakeColumn;

    open spec fn get_spec(&self, c: CakeColumn) -> ValueV {
        match c {
            CakeColumn::Id => ValueV::Int(self.id),
            CakeColumn::Name => ValueV::Text(self.name@),
        }
    }

    fn get(&self, c: CakeColumn) -> Value {
        match c {
            CakeColumn::Id => Value::Int(self.id),
            CakeColumn::Name => Value::Text(self.name.clone()),
        }
    }
}

impl EntityTrait for CakeEntity {
    type Column = CakeColumn;

    type Model = CakeModel;

    open spec fn table_spec() -> Seq<char> {
        "cake"@
    }

    open spec fn columns_spec() -> Seq<CakeColumn> {
        seq![CakeColumn::Id, CakeColumn::Name]
    }

    open spec fn primary_keys_spec() -> Seq<CakeColumn> {
        seq![CakeColumn::Id]
    }

    proof fn lemma_column_bound(c: CakeColumn) {
    }

    fn table_name() -> &'static str {
        "cake"
    }

    fn columns() -> (r: Vec<CakeColumn>) {
        let r = vec![CakeColumn::Id, CakeColumn::Name];
        proof {
            assert(r@ =~= Self::columns_spec());
        }
        r
    }

    fn primary_keys() -> (r: Vec<CakeColumn>) {
        let r = vec![CakeColumn::Id];
        proof {
            assert(r@ =~= Self::primary_keys_spec());
        }
        r
    }
}

impl CakeEntity {
    /// A fresh select rooted at the cake table.
    pub fn find() -> (r: Select<CakeEntity>)
        ensures
            r@ == SelectV::empty("cake"@),
    {
        Select::new()
    }
}

impl CakeModel {
    /// The fruits of this concrete cake: a fruit select joined back onto the
    /// cake table and filtered by this row's primary key.
    pub fn find_fruit(&self) -> (r: Select<FruitEntity>)
        ensures
            r@.root == "fruit"@,
            r@.joins == seq![
                reverse_clause(JoinKind::Inner, <CakeEntity as Related<FruitEntity>>::to_spec()),
            ],
            r@.conds == seq![
                PredV::Eq(ColumnRefV { table: "cake"@, name: "id"@ }, ValueV::Int(self.id)),
            ],
    {
        let r = <CakeEntity as Related<FruitEntity>>::find_related().belongs_to::<CakeEntity>(
            self,
        );
        proof {
            assert(r@.conds =~= seq![
                PredV::Eq(ColumnRefV { table: "cake"@, name: "id"@ }, ValueV::Int(self.id)),
            ]);
        }
        r
    }
}

/// The fruit table: `fruit (id, name, cake_id)`, primary key `id`; `cake_id`
/// is the foreign key onto cake.
#[derive(Clone, Copy, Debug)]
pub struct FruitEntity;

/// Columns of the fruit table.
#[derive(Clone, Copy, Debug)]
pub enum FruitColumn {
    Id,
    Name,
    CakeId,
}

/// One row of the fruit table.
#[derive(Clone, Debug)]
pub struct FruitModel {
    pub id: i64,
    pub name: String,
    pub cake_id: i64,
}

impl ColumnTrait for FruitColumn {
    open spec fn table_spec(self) -> Seq<char> {
        "fruit"@
    }

    open spec fn name_spec(self) -> Seq<char> {
        match self {
            FruitColumn::Id => "id"@,
            FruitColumn::Name => "name"@,
            FruitColumn::CakeId => "cake_id"@,
        }
    }

    fn table_name(self) -> &'static str {
        "fruit"
    }

    fn name(self) -> &'static str {
        match self {
            FruitColumn::Id => "id",
            FruitColumn::Name => "name",
            FruitColumn::CakeId => "cake_id",
        }
    }
}

impl ModelTrait for FruitModel {
    type Column = FruitColumn;

    open spec fn get_spec(&self, c: FruitColumn) -> ValueV {
        match c {
            FruitColumn::Id => ValueV::Int(self.id),
            FruitColumn::Name => ValueV::Text(self.name@),
            FruitColumn::CakeId => ValueV::Int(self.cake_id),
        }
    }

    fn get(&self, c: FruitColumn) -> Value {
        match c {
            FruitColumn::Id => Value::Int(self.id),
            FruitColumn::Name => Value::Text(self.name.clone()),
            FruitColumn::CakeId => Value::Int(self.cake_id),
        }
    }
}

impl EntityTrait for FruitEntity {
    type Column = FruitColumn;

    type Model = FruitModel;

    open spec fn table_spec() -> Seq<char> {
        "fruit"@
    }

    open spec fn columns_spec() -> Seq<FruitColumn> {
        seq![FruitColumn::Id, FruitColumn::Name, FruitColumn::CakeId]
    }

    open spec fn primary_keys_spec() -> Seq<FruitColumn> {
        seq![FruitColumn::Id]
    }

    proof fn lemma_column_bound(c: FruitColumn) {
    }

    fn table_name() -> &'static str {
        "fruit"
    }

    fn columns() -> (r: Vec<FruitColumn>) {
        let r = vec![FruitColumn::Id, FruitColumn::Name, FruitColumn::CakeId];
        proof {
            assert(r@ =~= Self::columns_spec());
        }
        r
    }

    fn primary_keys() -> (r: Vec<FruitColumn>) {
        let r = vec![FruitColumn::Id];
        proof {
            assert(r@ =~= Self::primary_keys_spec());
        }
        r
    }
}

impl FruitEntity {
    /// A fresh select rooted at the fruit table.
    pub fn find() -> (r: Select<FruitEntity>)
        ensures
            r@ == SelectV::empty("fruit"@),
    {
        Select::new()
    }
}

/// Cake declares its relation to fruit: `cake.id = fruit.cake_id`, direct.
impl Related<FruitEntity> for CakeEntity {
    open spec fn to_spec() -> RelationDescV {
        RelationDescV {
            from: ColumnRefV { table: "cake"@, name: "id"@ },
            to: ColumnRefV { table: "fruit"@, name: "cake_id"@ },
        }
    }

    open spec fn via_spec() -> Option<RelationDescV> {
        None
    }

    fn to() -> RelationDef {
        RelationDef {
            from: ColumnRef { table: "cake", name: "id" },
            to: ColumnRef { table: "fruit", name: "cake_id" },
        }
    }

    fn via() -> Option<RelationDef> {
        None
    }
}

/// The filling table: `filling (id, name)`, primary key `id`.
#[derive(Clone, Copy, Debug)]
pub struct FillingEntity;

/// Columns of the filling table.
#[derive(Clone, Copy, Debug)]
pub enum FillingColumn {
    Id,
    Name,
}

/// One row of the filling table.
#[derive(Clone, Debug)]
pub struct FillingModel {
    pub id: i64,
    pub name: String,
}

impl ColumnTrait for FillingColumn {
    open spec fn table_spec(self) -> Seq<char> {
        "filling"@
    }

    open spec fn name_spec(self) -> Seq<char> {
        match self {
            FillingColumn::Id => "id"@,
            FillingColumn::Name => "name"@,
        }
    }

    fn table_name(self) -> &'static str {
        "filling"
    }

    fn name(self) -> &'static str {
        match self {
            FillingColumn::Id => "id",
            FillingColumn::Name => "name",
        }
    }
}

impl ModelTrait for FillingModel {
    type Column = FillingColumn;

    open spec fn get_spec(&self, c: FillingColumn) -> ValueV {
        match c {
            FillingColumn::Id => ValueV::Int(self.id),
            FillingColumn::Name => ValueV::Text(self.name@),
        }
    }

    fn get(&self, c: FillingColumn) -> Value {
        match c {
            FillingColumn::Id => Value::Int(self.id),
            FillingColumn::Name => Value::Text(self.name.clone()),
        }
    }
}

impl EntityTrait for FillingEntity {
    type Column = FillingColumn;

    type Model = FillingModel;

    open spec fn table_spec() -> Seq<char> {
        "filling"@
    }

    open spec fn columns_spec() -> Seq<FillingColumn> {
        seq![FillingColumn::Id, FillingColumn::Name]
    }

    open spec fn primary_keys_spec() -> Seq<FillingColumn> {
        seq![FillingColumn::Id]
    }

    proof fn lemma_column_bound(c: FillingColumn) {
    }

    fn table_name() -> &'static str {
        "filling"
    }

    fn columns() -> (r: Vec<FillingColumn>) {
        let r = vec![FillingColumn::Id, FillingColumn::Name];
        proof {
            assert(r@ =~= Self::columns_spec());
        }
        r
    }

    fn primary_keys() -> (r: Vec<FillingColumn>) {
        let r = vec![FillingColumn::Id];
        proof {
            assert(r@ =~= Self::primary_keys_spec());
        }
        r
    }
}

impl FillingEntity {
    /// A fresh select rooted at the filling table.
    pub fn find() -> (r: Select<FillingEntity>)
        ensures
            r@ == SelectV::empty("filling"@),
    {
        Select::new()
    }
}

/// The intermediate table of the cake-filling many-to-many relation:
/// `cake_filling (cake_id, filling_id)`, both columns forming the key.
#[derive(Clone, Copy, Debug)]
pub struct CakeFillingEntity;

/// Columns of the cake_filling table.
#[derive(Clone, Copy, Debug)]
pub enum CakeFillingColumn {
    CakeId,
    FillingId,
}

/// One row of the cake_filling table.
#[derive(Clone, Debug)]
pub struct CakeFillingModel {
    pub cake_id: i64,
    pub filling_id: i64,
}

impl ColumnTrait for CakeFillingColumn {
    open spec fn table_spec(self) -> Seq<char> {
        "cake_filling"@
    }

    open spec fn name_spec(self) -> Seq<char> {
        match self {
            CakeFillingColumn::CakeId => "cake_id"@,
            CakeFillingColumn::FillingId => "filling_id"@,
        }
    }

    fn table_name(self) -> &'static str {
        "cake_filling"
    }

    fn name(self) -> &'static str {
        match self {
            CakeFillingColumn::CakeId => "cake_id",
            CakeFillingColumn::FillingId => "filling_id",
        }
    }
}

impl ModelTrait for CakeFillingModel {
    type Column = CakeFillingColumn;

    open spec fn get_spec(&self, c: CakeFillingColumn) -> ValueV {
        match c {
            CakeFillingColumn::CakeId => ValueV::Int(self.cake_id),
            CakeFillingColumn::FillingId => ValueV::Int(self.filling_id),
        }
    }

    fn get(&self, c: CakeFillingColumn) -> Value {
        match c {
            CakeFillingColumn::CakeId => Value::Int(self.cake_id),
            CakeFillingColumn::FillingId => Value::Int(self.filling_id),
        }
    }
}

impl EntityTrait for CakeFillingEntity {
    type Column = CakeFillingColumn;

    type Model = CakeFillingModel;

    open spec fn table_spec() -> Seq<char> {
        "cake_filling"@
    }

    open spec fn columns_spec() -> Seq<CakeFillingColumn> {
        seq![CakeFillingColumn::CakeId, CakeFillingColumn::FillingId]
    }

    open spec fn primary_keys_spec() -> Seq<CakeFillingColumn> {
        seq![CakeFillingColumn::CakeId, CakeFillingColumn::FillingId]
    }

    proof fn lemma_column_bound(c: CakeFillingColumn) {
    }

    fn table_name() -> &'static str {
        "cake_filling"
    }

    fn columns() -> (r: Vec<CakeFillingColumn>) {
        let r = vec![CakeFillingColumn::CakeId, CakeFillingColumn::FillingId];
        proof {
            assert(r@ =~= Self::columns_spec());
        }
        r
    }

    fn primary_keys() -> (r: Vec<CakeFillingColumn>) {
        let r = vec![CakeFillingColumn::CakeId, CakeFillingColumn::FillingId];
        proof {
            assert(r@ =~= Self::primary_keys_spec());
        }
        r
    }
}

/// Cake declares its relation to filling as two hops: first onto the
/// cake_filling table (`cake.id = cake_filling.cake_id`), then onto filling
/// (`cake_filling.filling_id = filling.id`).
impl Related<FillingEntity> for CakeEntity {
    open spec fn to_spec() -> RelationDescV {
        RelationDescV {
            from: ColumnRefV { table: "cake_filling"@, name: "filling_id"@ },
            to: ColumnRefV { table: "filling"@, name: "id"@ },
        }
    }

    open spec fn via_spec() -> Option<RelationDescV> {
        Some(
            RelationDescV {
                from: ColumnRefV { table: "cake"@, name: "id"@ },
                to: ColumnRefV { table: "cake_filling"@, name: "cake_id"@ },
            },
        )
    }

    fn to() -> RelationDef {
        RelationDef {
            from: ColumnRef { table: "cake_filling", name: "filling_id" },
            to: ColumnRef { table: "filling", name: "id" },
        }
    }

    fn via() -> Option<RelationDef> {
        Some(
            RelationDef {
                from: ColumnRef { table: "cake", name: "id" },
                to: ColumnRef { table: "cake_filling", name: "cake_id" },
            },
        )
    }
}

} // verus!
