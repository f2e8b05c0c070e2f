use vstd::prelude::*;

verus! {

/// Which unmatched rows a join keeps: left, right, or inner.
#[derive(Clone, Copy, PartialEq, Eq, Structural, Debug)]
pub enum JoinKind {
    Left,
    Right,
    Inner,
}

/// A column bound to exactly one table, as it stands in a join condition
/// or in a filter predicate.
#[derive(Clone, Copy, Debug)]
pub struct ColumnRef {
    pub table: &'static str,
    pub name: &'static str,
}

/// Mathematical image of a `ColumnRef`.
#[verifier::ext_equal]
pub struct ColumnRefV {
    pub table: Seq<char>,
    pub name: Seq<char>,
}

impl View for ColumnRef {
    type V = ColumnRefV;

    open spec fn view(&self) -> ColumnRefV {
        ColumnRefV { table: self.table@, name: self.name@ }
    }
}

impl DeepView for ColumnRef {
    type V = ColumnRefV;

    open spec fn deep_view(&self) -> ColumnRefV {
        self.view()
    }
}

/// A concrete column value, as a predicate's right-hand side.
#[derive(Clone, Debug)]
pub enum Value {
    Int(i64),
    Text(String),
}

/// Mathematical image of a `Value`.
pub enum ValueV {
    Int(i64),
    Text(Seq<char>),
}

impl View for Value {
    type V = ValueV;

    open spec fn view(&self) -> ValueV {
        match self {
            Value::Int(i) => ValueV::Int(*i),
            Value::Text(s) => ValueV::Text(s@),
        }
    }
}

impl DeepView for Value {
    type V = ValueV;

    open spec fn deep_view(&self) -> ValueV {
        self.view()
    }
}

/// How one entity links to another: the condition of the join is
/// `from.table`.`from.name` = `to.table`.`to.name`.
#[derive(Clone, Copy, Debug)]
pub struct RelationDef {
    pub from: ColumnRef,
    pub to: ColumnRef,
}

/// Mathematical image of a `RelationDef`.
#[verifier::ext_equal]
pub struct RelationDescV {
    pub from: ColumnRefV,
    pub to: ColumnRefV,
}

impl View for RelationDef {
    type V = RelationDescV;

    open spec fn view(&self) -> RelationDescV {
        RelationDescV { from: self.from@, to: self.to@ }
    }
}

impl DeepView for RelationDef {
    type V = RelationDescV;

    open spec fn deep_view(&self) -> RelationDescV {
        self.view()
    }
}

/// One join clause of a select: `kind` JOIN `table` ON `lhs` = `rhs`.
#[derive(Clone, Copy, Debug)]
pub struct JoinClause {
    pub kind: JoinKind,
    pub table: &'static str,
    pub lhs: ColumnRef,
    pub rhs: ColumnRef,
}

/// Mathematical image of a `JoinClause`.
#[verifier::ext_equal]
pub struct JoinClauseV {
    pub kind: JoinKind,
    pub table: Seq<char>,
    pub lhs: ColumnRefV,
    pub rhs: ColumnRefV,
}

impl View for JoinClause {
    type V = JoinClauseV;

    open spec fn view(&self) -> JoinClauseV {
        JoinClauseV { kind: self.kind, table: self.table@, lhs: self.lhs@, rhs: self.rhs@ }
    }
}

impl DeepView for JoinClause {
    type V = JoinClauseV;

    open spec fn deep_view(&self) -> JoinClauseV {
        self.view()
    }
}

/// A filter predicate handed to the condition tree.
#[derive(Clone, Debug)]
pub enum Predicate {
    /// The column holds exactly this value.
    Eq(ColumnRef, Value),
    /// The column's text holds this needle somewhere.
    Contains(ColumnRef, String),
}

/// Mathematical image of a `Predicate`.
pub enum PredV {
    Eq(ColumnRefV, ValueV),
    Contains(ColumnRefV, Seq<char>),
}

impl View for Predicate {
    type V = PredV;

    open spec fn view(&self) -> PredV {
        match self {
            Predicate::Eq(c, v) => PredV::Eq(c@, v@),
            Predicate::Contains(c, s) => PredV::Contains(c@, s@),
        }
    }
}

impl DeepView for Predicate {
    type V = PredV;

    open spec fn deep_view(&self) -> PredV {
        self.view()
    }
}

} // verus!
