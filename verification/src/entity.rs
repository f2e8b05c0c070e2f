use vstd::prelude::*;
use vstd::string::StringExecFns;

use crate::select::{reverse_clause, Select};
use crate::types::{
    ColumnRef, ColumnRefV, JoinKind, PredV, Predicate, RelationDef, RelationDescV, Value, ValueV,
};

verus! {

/// The column as it stands in a condition, `table`.`name`.
pub open spec fn column_ref_spec<C: ColumnTrait>(c: C) -> ColumnRefV {
    ColumnRefV { table: c.table_spec(), name: c.name_spec() }
}

/// The columns of `E` as condition operands, in select-list order.
pub open spec fn columns_ref_spec<E: EntityTrait>() -> Seq<ColumnRefV> {
    E::columns_spec().map_values(|c: E::Column| column_ref_spec(c))
}

/// The columns of `E` as condition operands, in select-list order.
pub fn column_refs_of<E: EntityTrait>() -> (r: Vec<ColumnRef>)
    ensures
        r.deep_view() == columns_ref_spec::<E>(),
{
    let cols = E::columns();
    let mut r: Vec<ColumnRef> = Vec::new();
    let mut i: usize = 0;
    while i < cols.len()
        invariant
            i <= cols.len(),
            cols@ == E::columns_spec(),
            r.deep_view() == E::columns_spec().take(i as int).map_values(
                |c: E::Column| column_ref_spec(c),
            ),
        decreases cols.len() - i,
    {
        let ghost pre = r.deep_view();
        let c = cols[i];
        r.push(c.to_column_ref());
        proof {
            let s = E::columns_spec();
            assert(s.take(i + 1) =~= s.take(i as int).push(s[i as int]));
            assert(r.deep_view() =~= pre.push(column_ref_spec(s[i as int])));
            assert(r.deep_view() =~= s.take(i + 1).map_values(
                |c: E::Column| column_ref_spec(c),
            ));
        }
        i += 1;
    }
    proof {
        assert(E::columns_spec().take(cols@.len() as int) =~= E::columns_spec());
        assert(r.deep_view() =~= columns_ref_spec::<E>());
    }
    r
}

/// A column of one entity's table: it knows the table it is bound to and its
/// own name, and it builds the predicates that a condition tree takes.
pub trait ColumnTrait: Copy + Sized {
    /// Name of the one table this column is bound to.
    spec fn table_spec(self) -> Seq<char>;

    /// Name of the column itself.
    spec fn name_spec(self) -> Seq<char>;

    fn table_name(self) -> (r: &'static str)
        ensures
            r@ == self.table_spec(),
    ;

    fn name(self) -> (r: &'static str)
        ensures
            r@ == self.name_spec(),
    ;

    /// The column as a plain condition operand.
    fn to_column_ref(self) -> (r: ColumnRef)
        ensures
            r@ == (ColumnRefV { table: self.table_spec(), name: self.name_spec() }),
    {
        ColumnRef { table: self.table_name(), name: self.name() }
    }

    /// Predicate: the column holds exactly `v`.
    fn eq(self, v: Value) -> (r: Predicate)
        ensures
            r@ == PredV::Eq(ColumnRefV { table: self.table_spec(), name: self.name_spec() }, v@),
    {
        Predicate::Eq(self.to_column_ref(), v)
    }

    /// Predicate: the column's text holds `s` somewhere.
    fn contains(self, s: &str) -> (r: Predicate)
        ensures
            r@ == PredV::Contains(
                ColumnRefV { table: self.table_spec(), name: self.name_spec() },
                s@,
            ),
    {
        Predicate::Contains(self.to_column_ref(), String::from_str(s))
    }
}

/// A row of an entity: it hands out the value it holds in a given column.
pub trait ModelTrait {
    type Column: ColumnTrait;

    /// The value this row holds in column `c`.
    spec fn get_spec(&self, c: Self::Column) -> ValueV;

    fn get(&self, c: Self::Column) -> (r: Value)
        ensures
            r@ == self.get_spec(c),
    ;
}

/// A table with named columns and declared primary-key columns.
pub trait EntityTrait: Copy + Sized {
    type Column: ColumnTrait;

    type Model: ModelTrait<Column = Self::Column>;

    /// Name of the entity's table.
    spec fn table_spec() -> Seq<char>;

    /// The entity's columns, in the order the select list carries them.
    spec fn columns_spec() -> Seq<Self::Column>;

    /// The entity's declared primary-key columns, in declaration order.
    spec fn primary_keys_spec() -> Seq<Self::Column>;

    /// Every column of this entity is bound to this entity's table.
    proof fn lemma_column_bound(c: Self::Column)
        ensures
            c.table_spec() == Self::table_spec(),
    ;

    fn table_name() -> (r: &'static str)
        ensures
            r@ == Self::table_spec(),
    ;

    fn columns() -> (r: Vec<Self::Column>)
        ensures
            r@ == Self::columns_spec(),
    ;

    fn primary_keys() -> (r: Vec<Self::Column>)
        ensures
            r@ == Self::primary_keys_spec(),
    ;
}

/// Entity `Self` declares a relation to entity `R`: the descriptor joining
/// `Self` to `R`, with an intermediate descriptor first when the relation
/// goes through a third entity.  The reverse direction is not implied: it
/// needs its own `Related` declaration on `R`.  Trait coherence leaves room
/// for at most one relation per ordered entity pair, and a join over an
/// undeclared pair is rejected when the caller is compiled, never at run
/// time.
pub trait Related<R: EntityTrait>: EntityTrait {
    /// The descriptor of the (last) hop onto `R`.
    spec fn to_spec() -> RelationDescV;

    /// The descriptor of the hop onto the intermediate entity, when the
    /// relation is two-hop; `None` for a direct relation.
    spec fn via_spec() -> Option<RelationDescV>;

    fn to() -> (r: RelationDef)
        ensures
            r@ == Self::to_spec(),
    ;

    fn via() -> (r: Option<RelationDef>)
        ensures
            r.deep_view() == Self::via_spec(),
    ;

    /// A select rooted at `R` that reaches back to `Self` over the declared
    /// relation: an inner join of `Self`'s table on the relation's condition.
    fn find_related() -> (r: Select<R>)
        ensures
            r@.root == R::table_spec(),
            r@.joins == seq![reverse_clause(JoinKind::Inner, Self::to_spec())],
            r@.conds == Seq::<PredV>::empty(),
    {
        let r = Select::<R>::new().join_rev(JoinKind::Inner, Self::to());
        proof {
            assert(r@.joins =~= seq![reverse_clause(JoinKind::Inner, Self::to_spec())]);
        }
        r
    }
}

} // verus!
