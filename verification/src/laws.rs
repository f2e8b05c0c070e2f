use vstd::prelude::*;

use crate::entity::{column_ref_spec, ColumnTrait, ModelTrait};
use crate::select::{compiled_clauses, forward_clause, reverse_clause};
use crate::types::{ColumnRefV, JoinClauseV, JoinKind, PredV, RelationDescV, ValueV};

verus! {

/// Every clause of the sequence carries this join kind.
pub open spec fn all_of_kind(s: Seq<JoinClauseV>, kind: JoinKind) -> bool {
    forall|i: int| 0 <= i < s.len() ==> (#[trigger] s[i]).kind == kind
}

/// The column a predicate compares, whatever its form.
pub open spec fn pred_column(p: PredV) -> ColumnRefV {
    match p {
        PredV::Eq(c, _) => c,
        PredV::Contains(c, _) => c,
    }
}

/// Law: a direct relation compiles to exactly one clause, which joins the
/// relation's target table on `target == source` with the requested kind.
/// Each join operation appends these compiled clauses, so on a direct
/// relation each appends exactly this one clause.
pub proof fn lemma_direct_relation_one_clause(kind: JoinKind, d: RelationDescV)
    ensures
        compiled_clauses(kind, d, None).len() == 1,
        compiled_clauses(kind, d, None)[0] == (JoinClauseV {
            kind: kind,
            table: d.to.table,
            lhs: d.from,
            rhs: d.to,
        }),
{
}

/// Law: a two-hop relation compiles to exactly two clauses, in order: first
/// the hop onto the intermediate entity, then the hop onto the target, and
/// both carry the requested kind — the kinds of the two hops never mix.
pub proof fn lemma_two_hop_relation_two_clauses(
    kind: JoinKind,
    to: RelationDescV,
    via: RelationDescV,
)
    ensures
        compiled_clauses(kind, to, Some(via)).len() == 2,
        compiled_clauses(kind, to, Some(via))[0] == forward_clause(kind, via),
        compiled_clauses(kind, to, Some(via))[1] == forward_clause(kind, to),
        all_of_kind(compiled_clauses(kind, to, Some(via)), kind),
{
}

/// Law: whatever the relation, every compiled clause carries the requested
/// kind; with the left kind, every appended join preserves all root rows,
/// the joined entity's fields being present only where a row matches.
pub proof fn lemma_compiled_clauses_kind(
    kind: JoinKind,
    to: RelationDescV,
    via: Option<RelationDescV>,
)
    ensures
        all_of_kind(compiled_clauses(kind, to, via), kind),
{
}

/// Law: a relation walked backwards keeps the clause's shape exactly — the
/// same kind and the same condition operands as the forward clause — and
/// only the joined table changes: the relation's source table stands where
/// the forward clause had its target table.
pub proof fn lemma_reverse_clause_shape(kind: JoinKind, d: RelationDescV)
    ensures
        reverse_clause(kind, d).kind == forward_clause(kind, d).kind,
        reverse_clause(kind, d).lhs == forward_clause(kind, d).lhs,
        reverse_clause(kind, d).rhs == forward_clause(kind, d).rhs,
        reverse_clause(kind, d).table == d.from.table,
        forward_clause(kind, d).table == d.to.table,
{
}

/// Law: the predicate the primary-key filter appends is an equality on the
/// keyed entity's column; the row handed in decides only the compared
/// value, never the column and never the predicate's form.
pub proof fn lemma_belongs_to_shape<M: ModelTrait>(m1: &M, m2: &M, c: M::Column)
    ensures
        PredV::Eq(column_ref_spec(c), m1.get_spec(c)) is Eq,
        pred_column(PredV::Eq(column_ref_spec(c), m1.get_spec(c))) == pred_column(
            PredV::Eq(column_ref_spec(c), m2.get_spec(c)),
        ),
{
}

} // verus!
