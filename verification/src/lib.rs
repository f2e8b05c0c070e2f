pub mod entity;
pub mod laws;
pub mod render;
pub mod select;
pub mod tests_cfg;
pub mod types;

pub use crate::entity::{
    column_ref_spec, column_refs_of, columns_ref_spec, ColumnTrait, EntityTrait, ModelTrait,
    Related,
};
pub use crate::select::{
    compiled_clauses, forward_clause, reverse_clause, Select, SelectTwo, SelectTwoV, SelectV,
};
pub use crate::types::{
    ColumnRef, ColumnRefV, JoinClause, JoinClauseV, JoinKind, PredV, Predicate, RelationDef,
    RelationDescV, Value, ValueV,
};
