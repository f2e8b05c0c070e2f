use sea_query::{Alias, Expr, ExprTrait, JoinType, MysqlQueryBuilder, SelectStatement};
use vstd::prelude::*;
use vstd::string::StringExecFns;

use crate::types::{ColumnRef, ColumnRefV, JoinClause, JoinClauseV, JoinKind, PredV, Predicate, Value, ValueV};

verus! {

#[verifier::external_type_specification]
#[verifier::external_body]
pub struct ExSelectStatement(SelectStatement);

/// One thing handed to the statement builder, in hand-over order.
pub enum StmtPart {
    /// The root table of the FROM clause.
    From { table: Seq<char> },
    /// One qualified column of the select list.
    SelectColumn { col: ColumnRefV },
    /// One join clause.
    Join { clause: JoinClauseV },
    /// One conjunct of the WHERE clause: `col` = `value`.
    WhereEq { col: ColumnRefV, value: ValueV },
    /// One conjunct of the WHERE clause: `col` LIKE `pattern`.
    WhereLike { col: ColumnRefV, pattern: Seq<char> },
}

/// What a statement holds, in the order it was handed over.
pub uninterp spec fn stmt_parts(s: SelectStatement) -> Seq<StmtPart>;

/// The MySQL text that the statement builder renders for these parts.
pub uninterp spec fn mysql_text(parts: Seq<StmtPart>) -> Seq<char>;

/// Relies on sea_query::SelectStatement::new: a fresh statement holds
/// nothing yet.
#[verifier::external_body]
fn stmt_new() -> (s: SelectStatement)
    ensures
        stmt_parts(s) == Seq::<StmtPart>::empty(),
{
    SelectStatement::new()
}

/// Relies on sea_query::SelectStatement::from: sets the FROM table.
#[verifier::external_body]
fn stmt_from(s: &mut SelectStatement, table: &str)
    ensures
        stmt_parts(*final(s)) == stmt_parts(*old(s)).push(StmtPart::From { table: table@ }),
{
    s.from(Alias::new(table));
}

/// Relies on sea_query::SelectStatement::column: appends one qualified
/// column to the select list.
#[verifier::external_body]
fn stmt_column(s: &mut SelectStatement, table: &str, name: &str)
    ensures
        stmt_parts(*final(s)) == stmt_parts(*old(s)).push(
            StmtPart::SelectColumn { col: ColumnRefV { table: table@, name: name@ } },
        ),
{
    s.column((Alias::new(table), Alias::new(name)));
}

/// Relies on sea_query::SelectStatement::join and sea_query::Expr: appends
/// one join clause `kind JOIN table ON lhs = rhs`.
#[verifier::external_body]
fn stmt_join(s: &mut SelectStatement, clause: &JoinClause)
    ensures
        stmt_parts(*final(s)) == stmt_parts(*old(s)).push(StmtPart::Join { clause: clause@ }),
{
    let kind = match clause.kind {
        JoinKind::Left => JoinType::LeftJoin,
        JoinKind::Right => JoinType::RightJoin,
        JoinKind::Inner => JoinType::InnerJoin,
    };
    let lhs = (Alias::new(clause.lhs.table), Alias::new(clause.lhs.name));
    let rhs = (Alias::new(clause.rhs.table), Alias::new(clause.rhs.name));
    s.join(kind, Alias::new(clause.table), Expr::col(lhs).equals(rhs));
}

/// Relies on sea_query::SelectStatement::and_where with Expr::eq: appends
/// the conjunct `table`.`name` = `value` for an integer value.
#[verifier::external_body]
fn stmt_where_eq_int(s: &mut SelectStatement, table: &str, name: &str, value: i64)
    ensures
        stmt_parts(*final(s)) == stmt_parts(*old(s)).push(
            StmtPart::WhereEq {
                col: ColumnRefV { table: table@, name: name@ },
                value: ValueV::Int(value),
            },
        ),
{
    s.and_where(Expr::col((Alias::new(table), Alias::new(name))).eq(value));
}

/// Relies on sea_query::SelectStatement::and_where with Expr::eq: appends
/// the conjunct `table`.`name` = `value` for a text value.
#[verifier::external_body]
fn stmt_where_eq_text(s: &mut SelectStatement, table: &str, name: &str, value: &str)
    ensures
        stmt_parts(*final(s)) == stmt_parts(*old(s)).push(
            StmtPart::WhereEq {
                col: ColumnRefV { table: table@, name: name@ },
                value: ValueV::Text(value@),
            },
        ),
{
    s.and_where(Expr::col((Alias::new(table), Alias::new(name))).eq(value));
}

/// Relies on sea_query::SelectStatement::and_where with Expr::like: appends
/// the conjunct `table`.`name` LIKE `pattern`.
#[verifier::external_body]
fn stmt_where_like(s: &mut SelectStatement, table: &str, name: &str, pattern: &str)
    ensures
        stmt_parts(*final(s)) == stmt_parts(*old(s)).push(
            StmtPart::WhereLike {
                col: ColumnRefV { table: table@, name: name@ },
                pattern: pattern@,
            },
        ),
{
    s.and_where(Expr::col((Alias::new(table), Alias::new(name))).like(pattern));
}

/// Relies on sea_query::SelectStatement::to_string with MysqlQueryBuilder:
/// the rendered text depends on what the statement holds alone.
#[verifier::external_body]
fn stmt_to_mysql(s: &SelectStatement) -> (r: String)
    ensures
        r@ == mysql_text(stmt_parts(*s)),
{
    s.to_string(MysqlQueryBuilder)
}

/// The LIKE pattern that holds `needle` anywhere in the text.
pub open spec fn like_pattern(needle: Seq<char>) -> Seq<char> {
    "%"@ + needle + "%"@
}

/// The WHERE conjunct a predicate is handed over as.
pub open spec fn pred_part(p: PredV) -> StmtPart {
    match p {
        PredV::Eq(c, v) => StmtPart::WhereEq { col: c, value: v },
        PredV::Contains(c, s) => StmtPart::WhereLike { col: c, pattern: like_pattern(s) },
    }
}

/// The select-list parts for these columns, in order.
pub open spec fn column_parts(cols: Seq<ColumnRefV>) -> Seq<StmtPart> {
    cols.map_values(|c: ColumnRefV| StmtPart::SelectColumn { col: c })
}

/// The join parts for these clauses, in order.
pub open spec fn join_parts(joins: Seq<JoinClauseV>) -> Seq<StmtPart> {
    joins.map_values(|j: JoinClauseV| StmtPart::Join { clause: j })
}

/// The WHERE parts for these predicates, in order.
pub open spec fn where_parts(conds: Seq<PredV>) -> Seq<StmtPart> {
    conds.map_values(|p: PredV| pred_part(p))
}

/// Everything a select hands the statement builder, in order: the root
/// table, the select list, the join clauses, then the WHERE conjuncts.
pub open spec fn select_parts(
    root: Seq<char>,
    cols: Seq<ColumnRefV>,
    joins: Seq<JoinClauseV>,
    conds: Seq<PredV>,
) -> Seq<StmtPart> {
    seq![StmtPart::From { table: root }] + column_parts(cols) + join_parts(joins) + where_parts(
        conds,
    )
}

/// Hand a select's pieces to the statement builder in order and render the
/// MySQL text.
pub fn render_mysql(
    root: &str,
    cols: &Vec<ColumnRef>,
    joins: &Vec<JoinClause>,
    conds: &Vec<Predicate>,
) -> (r: String)
    ensures
        r@ == mysql_text(
            select_parts(root@, cols.deep_view(), joins.deep_view(), conds.deep_view()),
        ),
{
    let ghost gcols = cols.deep_view();
    let ghost gjoins = joins.deep_view();
    let ghost gconds = conds.deep_view();
    let ghost head = seq![StmtPart::From { table: root@ }];
    let mut s = stmt_new();
    stmt_from(&mut s, root);
    proof {
        assert(stmt_parts(s) =~= head);
    }
    let mut i: usize = 0;
    while i < cols.len()
        invariant
            i <= cols.len(),
            gcols == cols.deep_view(),
            head == seq![StmtPart::From { table: root@ }],
            stmt_parts(s) == head + column_parts(gcols.take(i as int)),
        decreases cols.len() - i,
    {
        let ghost pre = stmt_parts(s);
        let c = cols[i];
        stmt_column(&mut s, c.table, c.name);
        proof {
            assert(gcols.take(i + 1) =~= gcols.take(i as int).push(gcols[i as int]));
            assert(column_parts(gcols.take(i + 1)) =~= column_parts(gcols.take(i as int)).push(
                StmtPart::SelectColumn { col: gcols[i as int] },
            ));
            assert(stmt_parts(s) =~= head + column_parts(gcols.take(i + 1)));
        }
        i += 1;
    }
    proof {
        assert(gcols.take(cols@.len() as int) =~= gcols);
    }
    let ghost with_cols = head + column_parts(gcols);
    let mut j: usize = 0;
    while j < joins.len()
        invariant
            j <= joins.len(),
            gjoins == joins.deep_view(),
            stmt_parts(s) == with_cols + join_parts(gjoins.take(j as int)),
        decreases joins.len() - j,
    {
        let clause = &joins[j];
        stmt_join(&mut s, clause);
        proof {
            assert(gjoins.take(j + 1) =~= gjoins.take(j as int).push(gjoins[j as int]));
            assert(join_parts(gjoins.take(j + 1)) =~= join_parts(gjoins.take(j as int)).push(
                StmtPart::Join { clause: gjoins[j as int] },
            ));
            assert(stmt_parts(s) =~= with_cols + join_parts(gjoins.take(j + 1)));
        }
        j += 1;
    }
    proof {
        assert(gjoins.take(joins@.len() as int) =~= gjoins);
    }
    let ghost with_joins = with_cols + join_parts(gjoins);
    let mut k: usize = 0;
    while k < conds.len()
        invariant
            k <= conds.len(),
            gconds == conds.deep_view(),
            stmt_parts(s) == with_joins + where_parts(gconds.take(k as int)),
        decreases conds.len() - k,
    {
        match &conds[k] {
            Predicate::Eq(c, v) => {
                match v {
                    Value::Int(n) => stmt_where_eq_int(&mut s, c.table, c.name, *n),
                    Value::Text(t) => stmt_where_eq_text(&mut s, c.table, c.name, t.as_str()),
                }
            },
            Predicate::Contains(c, needle) => {
                let mut pattern = String::from_str("%");
                pattern.append(needle.as_str());
                pattern.append("%");
                stmt_where_like(&mut s, c.table, c.name, pattern.as_str());
            },
        }
        proof {
            assert(gconds.take(k + 1) =~= gconds.take(k as int).push(gconds[k as int]));
            assert(where_parts(gconds.take(k + 1)) =~= where_parts(gconds.take(k as int)).push(
                pred_part(gconds[k as int]),
            ));
            assert(stmt_parts(s) =~= with_joins + where_parts(gconds.take(k + 1)));
        }
        k += 1;
    }
    proof {
        assert(gconds.take(conds@.len() as int) =~= gconds);
        assert(stmt_parts(s) =~= select_parts(root@, gcols, gjoins, gconds));
    }
    stmt_to_mysql(&s)
}

} // verus!
