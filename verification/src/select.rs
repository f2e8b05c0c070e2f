use core::marker::PhantomData;
use vstd::prelude::*;

use crate::entity::{
    column_ref_spec, column_refs_of, columns_ref_spec, ColumnTrait, EntityTrait, ModelTrait,
    Related,
};
use crate::render::{mysql_text, render_mysql, select_parts};
use crate::types::{
    JoinClause, JoinClauseV, JoinKind, PredV, Predicate, RelationDef, RelationDescV,
};

verus! {

/// The one clause a direct relation compiles to: join the target table on
/// `from` = `to`, where `from` is the source entity's column.
pub open spec fn forward_clause(kind: JoinKind, d: RelationDescV) -> JoinClauseV {
    JoinClauseV { kind: kind, table: d.to.table, lhs: d.from, rhs: d.to }
}

/// The clause a relation compiles to when walked backwards: same condition,
/// but the joined table is the relation's source table.
pub open spec fn reverse_clause(kind: JoinKind, d: RelationDescV) -> JoinClauseV {
    JoinClauseV { kind: kind, table: d.from.table, lhs: d.from, rhs: d.to }
}

/// What the join compiler emits for a relation: one clause for a direct
/// relation, and for a two-hop relation the intermediate hop first, then the
/// hop onto the target, both with the requested kind.
pub open spec fn compiled_clauses(
    kind: JoinKind,
    to: RelationDescV,
    via: Option<RelationDescV>,
) -> Seq<JoinClauseV> {
    match via {
        Some(v) => seq![forward_clause(kind, v), forward_clause(kind, to)],
        None => seq![forward_clause(kind, to)],
    }
}

/// Mathematical image of a `Select`: the root table, the join clauses in
/// append order, and the conjunction of filter predicates.
#[verifier::ext_equal]
pub struct SelectV {
    pub root: Seq<char>,
    pub joins: Seq<JoinClauseV>,
    pub conds: Seq<PredV>,
}

impl SelectV {
    /// A select with nothing appended yet.
    pub open spec fn empty(root: Seq<char>) -> SelectV {
        SelectV { root, joins: Seq::empty(), conds: Seq::empty() }
    }

    /// The entities whose columns the result carries: the root alone.
    pub open spec fn selected_tables(self) -> Set<Seq<char>> {
        set![self.root]
    }
}

/// An immutable query-builder value rooted at entity `E`.  Every operation
/// consumes the value and returns a new one; none mutates shared state.
pub struct Select<E: EntityTrait> {
    joins: Vec<JoinClause>,
    conds: Vec<Predicate>,
    marker: PhantomData<E>,
}

impl<E: EntityTrait> View for Select<E> {
    type V = SelectV;

    closed spec fn view(&self) -> SelectV {
        SelectV {
            root: E::table_spec(),
            joins: self.joins.deep_view(),
            conds: self.conds.deep_view(),
        }
    }
}

impl<E: EntityTrait> Select<E> {
    /// A fresh select rooted at `E`, with no joins and no conditions.
    pub fn new() -> (r: Self)
        ensures
            r@ == SelectV::empty(E::table_spec()),
    {
        let r = Select { joins: Vec::new(), conds: Vec::new(), marker: PhantomData };
        proof {
            assert(r@ =~= SelectV::empty(E::table_spec()));
        }
        r
    }

    /// Append one join clause for relation `rel`, joining its target table.
    pub fn join(self, kind: JoinKind, rel: RelationDef) -> (r: Self)
        ensures
            r@.root == self@.root,
            r@.joins == self@.joins.push(forward_clause(kind, rel@)),
            r@.conds == self@.conds,
    {
        let ghost pre = self@;
        let mut s = self;
        s.joins.push(JoinClause { kind, table: rel.to.table, lhs: rel.from, rhs: rel.to });
        proof {
            assert(s.joins.deep_view() =~= pre.joins.push(forward_clause(kind, rel@)));
        }
        s
    }

    /// Append one join clause for relation `rel` walked backwards, joining
    /// its source table.
    pub fn join_rev(self, kind: JoinKind, rel: RelationDef) -> (r: Self)
        ensures
            r@.root == self@.root,
            r@.joins == self@.joins.push(reverse_clause(kind, rel@)),
            r@.conds == self@.conds,
    {
        let ghost pre = self@;
        let mut s = self;
        s.joins.push(JoinClause { kind, table: rel.from.table, lhs: rel.from, rhs: rel.to });
        proof {
            assert(s.joins.deep_view() =~= pre.joins.push(reverse_clause(kind, rel@)));
        }
        s
    }

    /// The join compiler: append everything relation `to` (with optional
    /// intermediate hop `via`) compiles to, in order, all with `kind`.
    pub fn join_join(self, kind: JoinKind, to: RelationDef, via: Option<RelationDef>) -> (r: Self)
        ensures
            r@.root == self@.root,
            r@.joins == self@.joins + compiled_clauses(kind, to@, via.deep_view()),
            r@.conds == self@.conds,
    {
        let ghost pre = self@;
        let ghost via_v = via.deep_view();
        let s = match via {
            Some(v) => self.join(kind, v),
            None => self,
        };
        let r = s.join(kind, to);
        proof {
            assert(r@.joins =~= pre.joins + compiled_clauses(kind, to@, via_v));
        }
        r
    }

    /// Append one predicate to the condition tree.
    pub fn filter(self, p: Predicate) -> (r: Self)
        ensures
            r@.root == self@.root,
            r@.joins == self@.joins,
            r@.conds == self@.conds.push(p@),
    {
        let ghost pre = self@;
        let mut s = self;
        s.conds.push(p);
        proof {
            assert(s.conds.deep_view() =~= pre.conds.push(p@));
        }
        s
    }

    /// Left join with the related entity `R`, over the relation `E` declares.
    pub fn left_join<R>(self, _r: R) -> (r: Self) where R: EntityTrait, E: Related<R>
        ensures
            r@.root == self@.root,
            r@.joins == self@.joins + compiled_clauses(
                JoinKind::Left,
                <E as Related<R>>::to_spec(),
                <E as Related<R>>::via_spec(),
            ),
            r@.conds == self@.conds,
    {
        self.join_join(JoinKind::Left, <E as Related<R>>::to(), <E as Related<R>>::via())
    }

    /// Right join with the related entity `R`, over the relation `E` declares.
    pub fn right_join<R>(self, _r: R) -> (r: Self) where R: EntityTrait, E: Related<R>
        ensures
            r@.root == self@.root,
            r@.joins == self@.joins + compiled_clauses(
                JoinKind::Right,
                <E as Related<R>>::to_spec(),
                <E as Related<R>>::via_spec(),
            ),
            r@.conds == self@.conds,
    {
        self.join_join(JoinKind::Right, <E as Related<R>>::to(), <E as Related<R>>::via())
    }

    /// Inner join with the related entity `R`, over the relation `E` declares.
    pub fn inner_join<R>(self, _r: R) -> (r: Self) where R: EntityTrait, E: Related<R>
        ensures
            r@.root == self@.root,
            r@.joins == self@.joins + compiled_clauses(
                JoinKind::Inner,
                <E as Related<R>>::to_spec(),
                <E as Related<R>>::via_spec(),
            ),
            r@.conds == self@.conds,
    {
        self.join_join(JoinKind::Inner, <E as Related<R>>::to(), <E as Related<R>>::via())
    }

    /// Join with an entity `R` that declares a relation to `E`: an inner join
    /// of `R`'s table over `R`'s own relation, walked backwards.  The reverse
    /// capability is not synthesized from the forward one: `R: Related<E>`
    /// must be declared.
    pub fn reverse_join<R>(self, _r: R) -> (r: Self) where R: EntityTrait + Related<E>
        ensures
            r@.root == self@.root,
            r@.joins == self@.joins.push(
                reverse_clause(JoinKind::Inner, <R as Related<E>>::to_spec()),
            ),
            r@.conds == self@.conds,
    {
        self.join_rev(JoinKind::Inner, <R as Related<E>>::to())
    }

    /// Filter by the primary key of a concrete row of `R`: appends the
    /// predicate `R.pk = model.pk`, where `pk` is the first declared
    /// primary-key column of `R`.  An entity with no declared primary key is
    /// outside this operation's domain: no meaningful predicate exists, and
    /// composite keys are not supported.
    pub fn belongs_to<R>(self, model: &R::Model) -> (r: Self) where
        R: EntityTrait + Related<E>,

        requires
            R::primary_keys_spec().len() > 0,
        ensures
            r@.root == self@.root,
            r@.joins == self@.joins,
            r@.conds == self@.conds.push(
                PredV::Eq(
                    column_ref_spec(R::primary_keys_spec()[0]),
                    model.get_spec(R::primary_keys_spec()[0]),
                ),
            ),
            column_ref_spec(R::primary_keys_spec()[0]).table == R::table_spec(),
    {
        let pks = R::primary_keys();
        let key = pks[0];
        let value = model.get(key);
        proof {
            R::lemma_column_bound(key);
        }
        self.filter(Predicate::Eq(key.to_column_ref(), value))
    }

    /// Left join with `R` and select both entities: the joined rows carry
    /// `R`'s fields as optionally absent, since a left join preserves every
    /// root row whether or not a related row matches.
    pub fn left_join_and_select<R>(self, r: R) -> (t: SelectTwo<E, R>) where
        R: EntityTrait,
        E: Related<R>,

        ensures
            t@.root == self@.root,
            t@.second == R::table_spec(),
            t@.joins == self@.joins + compiled_clauses(
                JoinKind::Left,
                <E as Related<R>>::to_spec(),
                <E as Related<R>>::via_spec(),
            ),
            t@.conds == self@.conds,
            t@.selected_tables() == set![E::table_spec(), R::table_spec()],
    {
        self.left_join(r).select_also(r)
    }

    /// The join clauses appended so far, in order.
    pub fn join_clauses(&self) -> (r: &Vec<JoinClause>)
        ensures
            r.deep_view() == self@.joins,
    {
        &self.joins
    }

    /// The filter predicates appended so far, in order.
    pub fn conditions(&self) -> (r: &Vec<Predicate>)
        ensures
            r.deep_view() == self@.conds,
    {
        &self.conds
    }

    /// Render the select as one MySQL statement: the root entity's columns
    /// from the root table, the join clauses in append order, then the
    /// conditions as one conjunction.
    pub fn build_mysql(&self) -> (r: String)
        ensures
            r@ == mysql_text(
                select_parts(self@.root, columns_ref_spec::<E>(), self@.joins, self@.conds),
            ),
    {
        let cols = column_refs_of::<E>();
        render_mysql(E::table_name(), &cols, &self.joins, &self.conds)
    }

    /// Widen the selection to a second entity `R`, keeping every join clause
    /// and condition.
    pub fn select_also<R>(self, _r: R) -> (t: SelectTwo<E, R>) where R: EntityTrait
        ensures
            t@.root == self@.root,
            t@.second == R::table_spec(),
            t@.joins == self@.joins,
            t@.conds == self@.conds,
            t@.selected_tables() == set![E::table_spec(), R::table_spec()],
    {
        SelectTwo { joins: self.joins, conds: self.conds, marker: PhantomData }
    }
}

/// Mathematical image of a `SelectTwo`: as `SelectV`, with a second selected
/// entity beside the root.
#[verifier::ext_equal]
pub struct SelectTwoV {
    pub root: Seq<char>,
    pub second: Seq<char>,
    pub joins: Seq<JoinClauseV>,
    pub conds: Seq<PredV>,
}

impl SelectTwoV {
    /// The entities whose columns the result carries: the root and the
    /// second entity.
    pub open spec fn selected_tables(self) -> Set<Seq<char>> {
        set![self.root, self.second]
    }
}

/// An immutable query-builder value rooted at `E` whose result also carries
/// the columns of a second entity `R`.
pub struct SelectTwo<E: EntityTrait, R: EntityTrait> {
    joins: Vec<JoinClause>,
    conds: Vec<Predicate>,
    marker: PhantomData<(E, R)>,
}

impl<E: EntityTrait, R: EntityTrait> View for SelectTwo<E, R> {
    type V = SelectTwoV;

    closed spec fn view(&self) -> SelectTwoV {
        SelectTwoV {
            root: E::table_spec(),
            second: R::table_spec(),
            joins: self.joins.deep_view(),
            conds: self.conds.deep_view(),
        }
    }
}

impl<E: EntityTrait, R: EntityTrait> SelectTwo<E, R> {
    /// The join clauses appended so far, in order.
    pub fn join_clauses(&self) -> (r: &Vec<JoinClause>)
        ensures
            r.deep_view() == self@.joins,
    {
        &self.joins
    }

    /// The filter predicates appended so far, in order.
    pub fn conditions(&self) -> (r: &Vec<Predicate>)
        ensures
            r.deep_view() == self@.conds,
    {
        &self.conds
    }

    /// Render the select as one MySQL statement: the columns of both
    /// selected entities from the root table, the join clauses in append
    /// order, then the conditions as one conjunction.
    pub fn build_mysql(&self) -> (r: String)
        ensures
            r@ == mysql_text(
                select_parts(
                    self@.root,
                    columns_ref_spec::<E>() + columns_ref_spec::<R>(),
                    self@.joins,
                    self@.conds,
                ),
            ),
    {
        let mut cols = column_refs_of::<E>();
        let mut more = column_refs_of::<R>();
        cols.append(&mut more);
        proof {
            assert(cols.deep_view() =~= columns_ref_spec::<E>() + columns_ref_spec::<R>());
        }
        render_mysql(E::table_name(), &cols, &self.joins, &self.conds)
    }

    /// Append one predicate to the condition tree.
    pub fn filter(self, p: Predicate) -> (r: Self)
        ensures
            r@.root == self@.root,
            r@.second == self@.second,
            r@.joins == self@.joins,
            r@.conds == self@.conds.push(p@),
    {
        let ghost pre = self@;
        let mut s = self;
        s.conds.push(p);
        proof {
            assert(s.conds.deep_view() =~= pre.conds.push(p@));
        }
        s
    }
}

} // verus!
