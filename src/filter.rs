//! The predicate algebra and the text of the named subqueries it compiles to.
use vstd::prelude::*;
use crate::path::{render, Path};
use crate::query::{Literal, Query, QueryError};

verus! {

/// How a field is compared with a literal.
#[derive(Debug, Clone, Copy, PartialEq, Eq, Structural)]
pub enum Operator {
    Equal,
    NotEqual,
    GreaterThan,
    GreaterThanOrEqual,
    LessThan,
    LessThanOrEqual,
    /// SQL pattern matching, `%` standing for any run of characters.
    Like,
}

impl Operator {
    /// The SQL text of the operator.
    pub open spec fn spec_sql(&self) -> Seq<char> {
        match self {
            Operator::Equal => "="@,
            Operator::NotEqual => "!="@,
            Operator::GreaterThan => ">"@,
            Operator::GreaterThanOrEqual => ">="@,
            Operator::LessThan => "<"@,
            Operator::LessThanOrEqual => "<="@,
            Operator::Like => "like"@,
        }
    }

    pub fn sql(&self) -> (r: &'static str)
        ensures
            r@ == self.spec_sql(),
    {
        match self {
            Operator::Equal => "=",
            Operator::NotEqual => "!=",
            Operator::GreaterThan => ">",
            Operator::GreaterThanOrEqual => ">=",
            Operator::LessThan => "<",
            Operator::LessThanOrEqual => "<=",
            Operator::Like => "like",
        }
    }
}

/// The value at `query`'s path compares to `value` by `operator`.
#[derive(Debug, Clone)]
pub struct Comparison {
    pub query: Query,
    pub operator: Operator,
    pub value: Literal,
}

/// Some element of the array at `outer`'s path has, at `inner`'s path
/// (relative to the element), a value that compares to `value` by `operator`.
#[derive(Debug, Clone)]
pub struct Any {
    pub outer: Query,
    pub inner: Query,
    pub operator: Operator,
    pub value: Literal,
}

/// Both predicates hold.
#[derive(Debug, Clone)]
pub struct And(pub Box<Filter>, pub Box<Filter>);

/// At least one of the predicates holds.
#[derive(Debug, Clone)]
pub struct Or(pub Box<Filter>, pub Box<Filter>);

/// A predicate over the documents of one table.
#[derive(Debug)]
pub enum Filter {
    Comparison(Comparison),
    And(And),
    Or(Or),
    Any(Any),
}

impl Clone for Filter {
    fn clone(&self) -> (r: Filter)
        decreases self,
    {
        match self {
            Filter::Comparison(c) => Filter::Comparison(c.clone()),
            Filter::And(And(a, b)) => Filter::And(And(Box::new((**a).clone()), Box::new((**b).clone()))),
            Filter::Or(Or(a, b)) => Filter::Or(Or(Box::new((**a).clone()), Box::new((**b).clone()))),
            Filter::Any(y) => Filter::Any(y.clone()),
        }
    }
}

/// The subquery `name` of a comparison: the rows of `root` whose value at the
/// path compares to the next parameter.
pub open spec fn comparison_cte(c: Comparison, name: Seq<char>) -> Seq<char> {
    ",\n    "@ + name + " as (select root.rowid, root.value from root where json_extract(root.value, '"@
        + render(c.query.path@) + "') "@ + c.operator.spec_sql() + " ?)"@
}

/// The subquery `name` of an existential match: each row of `root` once, if
/// one of the elements of its array matches the next parameter.
pub open spec fn any_cte(a: Any, name: Seq<char>) -> Seq<char> {
    ",\n    "@ + name + " as (select distinct rowid, value from (select root.rowid, root.value from root, json_each(root.value, '"@
        + render(a.outer.path@) + "') where json_extract(json_each.value, '"@ + render(
        a.inner.path@,
    ) + "') "@ + a.operator.spec_sql() + " ?))"@
}

/// The subquery `name` that joins `name_a` and `name_b` on the row id.
pub open spec fn and_cte(name: Seq<char>) -> Seq<char> {
    ",\n    "@ + name + " as (select "@ + name + "_a.rowid, "@ + name + "_a.value from "@ + name
        + "_a inner join "@ + name + "_b on "@ + name + "_a.rowid = "@ + name + "_b.rowid)"@
}

/// The subquery `name` that takes all rows of `name_a`, then all of `name_b`.
pub open spec fn or_cte(name: Seq<char>) -> Seq<char> {
    ",\n    "@ + name + " as (select * from "@ + name + "_a union all select * from "@ + name
        + "_b)"@
}

impl Filter {
    /// The named subqueries of this predicate, the last of them named `name`.
    /// A composite node names its parts `name_a` and `name_b`.
    pub open spec fn spec_cte(&self, name: Seq<char>) -> Seq<char>
        decreases self,
    {
        match self {
            Filter::Comparison(c) => comparison_cte(*c, name),
            Filter::And(And(a, b)) => a.spec_cte(name + "_a"@) + b.spec_cte(name + "_b"@) + and_cte(
                name,
            ),
            Filter::Or(Or(a, b)) => a.spec_cte(name + "_a"@) + b.spec_cte(name + "_b"@) + or_cte(
                name,
            ),
            Filter::Any(y) => any_cte(*y, name),
        }
    }

    /// The literals of this predicate, in the order in which their
    /// placeholders stand in its subqueries.
    pub open spec fn spec_params(&self) -> Seq<Literal>
        decreases self,
    {
        match self {
            Filter::Comparison(c) => seq![c.value],
            Filter::And(And(a, b)) => a.spec_params() + b.spec_params(),
            Filter::Or(Or(a, b)) => a.spec_params() + b.spec_params(),
            Filter::Any(y) => seq![y.value],
        }
    }

    /// The table that all parts of this predicate refer to, if there is one.
    pub open spec fn spec_table(&self) -> Option<Seq<char>>
        decreases self,
    {
        match self {
            Filter::Comparison(c) => Some(c.query.table@),
            Filter::And(And(a, b)) => common_table(a.spec_table(), b.spec_table()),
            Filter::Or(Or(a, b)) => common_table(a.spec_table(), b.spec_table()),
            Filter::Any(y) => Some(y.outer.table@),
        }
    }

    /// Both predicates hold.
    pub fn and(a: Filter, b: Filter) -> (r: Filter)
        ensures
            r == Filter::And(And(Box::new(a), Box::new(b))),
    {
        Filter::And(And(Box::new(a), Box::new(b)))
    }

    /// At least one of the predicates holds.
    pub fn or(a: Filter, b: Filter) -> (r: Filter)
        ensures
            r == Filter::Or(Or(Box::new(a), Box::new(b))),
    {
        Filter::Or(Or(Box::new(a), Box::new(b)))
    }

    /// Appends the named subqueries of this predicate to `out`, the last of
    /// them named `name`.
    pub fn cte(&self, name: &str, out: &mut String)
        ensures
            final(out)@ == old(out)@ + self.spec_cte(name@),
        decreases self,
    {
        match self {
            Filter::Comparison(c) => push_comparison_cte(c, name, out),
            Filter::And(And(a, b)) => {
                let name_a = String::from_str(name).concat("_a");
                let name_b = String::from_str(name).concat("_b");
                a.cte(name_a.as_str(), out);
                b.cte(name_b.as_str(), out);
                push_and_cte(name, out);
                proof {
                    assert(final(out)@ =~= old(out)@ + self.spec_cte(name@));
                }
            },
            Filter::Or(Or(a, b)) => {
                let name_a = String::from_str(name).concat("_a");
                let name_b = String::from_str(name).concat("_b");
                a.cte(name_a.as_str(), out);
                b.cte(name_b.as_str(), out);
                push_or_cte(name, out);
                proof {
                    assert(final(out)@ =~= old(out)@ + self.spec_cte(name@));
                }
            },
            Filter::Any(y) => push_any_cte(y, name, out),
        }
    }

    /// Appends the literals of this predicate to `out`, in placeholder order.
    pub fn params_into(&self, out: &mut Vec<Literal>)
        ensures
            final(out)@ == old(out)@ + self.spec_params(),
        decreases self,
    {
        match self {
            Filter::Comparison(c) => {
                out.push(c.value.clone());
                proof {
                    assert(final(out)@ =~= old(out)@ + self.spec_params());
                }
            },
            Filter::And(And(a, b)) => {
                a.params_into(out);
                b.params_into(out);
                proof {
                    assert(final(out)@ =~= old(out)@ + self.spec_params());
                }
            },
            Filter::Or(Or(a, b)) => {
                a.params_into(out);
                b.params_into(out);
                proof {
                    assert(final(out)@ =~= old(out)@ + self.spec_params());
                }
            },
            Filter::Any(y) => {
                out.push(y.value.clone());
                proof {
                    assert(final(out)@ =~= old(out)@ + self.spec_params());
                }
            },
        }
    }

    /// The literals of this predicate, in placeholder order.
    pub fn params(&self) -> (r: Vec<Literal>)
        ensures
            r@ == self.spec_params(),
    {
        let mut out: Vec<Literal> = Vec::new();
        self.params_into(&mut out);
        proof {
            assert(out@ =~= self.spec_params());
        }
        out
    }

    /// The table that all parts of this predicate refer to.
    pub fn table(&self) -> (r: Result<String, QueryError>)
        ensures
            r is Ok <==> self.spec_table() is Some,
            r is Ok ==> r->Ok_0@ == self.spec_table()->Some_0,
            r is Err ==> r->Err_0 == QueryError::MixedTables,
        decreases self,
    {
        match self {
            Filter::Comparison(c) => Ok(c.query.table.clone()),
            Filter::And(And(a, b)) => same_table(a.table()?, b.table()?),
            Filter::Or(Or(a, b)) => same_table(a.table()?, b.table()?),
            Filter::Any(y) => Ok(y.outer.table.clone()),
        }
    }
}

/// The names of the subqueries that `filter` emits under `name`, in order.
pub open spec fn cte_names(filter: Filter, name: Seq<char>) -> Seq<Seq<char>>
    decreases filter,
{
    match filter {
        Filter::And(And(a, b)) => cte_names(*a, name + "_a"@) + cte_names(*b, name + "_b"@) + seq![
            name,
        ],
        Filter::Or(Or(a, b)) => cte_names(*a, name + "_a"@) + cte_names(*b, name + "_b"@) + seq![
            name,
        ],
        _ => seq![name],
    }
}

/// Whether `prefix` begins `s`.
pub open spec fn starts_with(s: Seq<char>, prefix: Seq<char>) -> bool {
    prefix.len() <= s.len() && s.subrange(0, prefix.len() as int) == prefix
}

/// Naming never collides: the subqueries of a predicate get pairwise distinct
/// names, each of them beginning with the name given to the predicate, and
/// the last of them is that name itself.
pub proof fn lemma_cte_names_distinct(filter: Filter, name: Seq<char>)
    ensures
        cte_names(filter, name).no_duplicates(),
        cte_names(filter, name).last() == name,
        forall|i: int|
            0 <= i < cte_names(filter, name).len() ==> starts_with(
                #[trigger] cte_names(filter, name)[i],
                name,
            ),
    decreases filter,
{
    match filter {
        Filter::And(And(a, b)) => {
            lemma_cte_names_distinct(*a, name + "_a"@);
            lemma_cte_names_distinct(*b, name + "_b"@);
            lemma_combine_names(cte_names(*a, name + "_a"@), cte_names(*b, name + "_b"@), name);
        },
        Filter::Or(Or(a, b)) => {
            lemma_cte_names_distinct(*a, name + "_a"@);
            lemma_cte_names_distinct(*b, name + "_b"@);
            lemma_combine_names(cte_names(*a, name + "_a"@), cte_names(*b, name + "_b"@), name);
        },
        _ => {
            assert(name.subrange(0, name.len() as int) =~= name);
        },
    }
}

proof fn lemma_combine_names(sa: Seq<Seq<char>>, sb: Seq<Seq<char>>, name: Seq<char>)
    requires
        sa.no_duplicates(),
        sb.no_duplicates(),
        forall|i: int| 0 <= i < sa.len() ==> starts_with(#[trigger] sa[i], name + "_a"@),
        forall|i: int| 0 <= i < sb.len() ==> starts_with(#[trigger] sb[i], name + "_b"@),
    ensures
        (sa + sb + seq![name]).no_duplicates(),
        (sa + sb + seq![name]).last() == name,
        forall|i: int|
            0 <= i < (sa + sb + seq![name]).len() ==> starts_with(
                #[trigger] (sa + sb + seq![name])[i],
                name,
            ),
{
    reveal_strlit("_a");
    reveal_strlit("_b");
    let na = name + "_a"@;
    let nb = name + "_b"@;
    let all = sa + sb + seq![name];
    let k = name.len() as int;
    assert forall|i: int| 0 <= i < all.len() implies starts_with(#[trigger] all[i], name) by {
        if i < sa.len() {
            assert(starts_with(sa[i], na));
            assert(sa[i].subrange(0, k) =~= sa[i].subrange(0, k + 2).subrange(0, k));
            assert(na.subrange(0, k) =~= name);
        } else if i < sa.len() + sb.len() {
            assert(starts_with(sb[i - sa.len()], nb));
            assert(sb[i - sa.len()].subrange(0, k) =~= sb[i - sa.len()].subrange(0, k + 2).subrange(
                0,
                k,
            ));
            assert(nb.subrange(0, k) =~= name);
        } else {
            assert(all[i] == name);
            assert(name.subrange(0, k) =~= name);
        }
    }
    assert forall|i: int, j: int| 0 <= i < all.len() && 0 <= j < all.len() && i != j implies all[i]
        != all[j] by {
        if i < sa.len() && j < sa.len() {
            assert(sa[i] != sa[j]);
        } else if sa.len() <= i < sa.len() + sb.len() && sa.len() <= j < sa.len() + sb.len() {
            assert(sb[i - sa.len()] != sb[j - sa.len()]);
        } else {
            let x = all[i];
            let y = all[j];
            if i < sa.len() {
                assert(starts_with(sa[i], na));
                assert(x.subrange(0, k + 2)[k + 1] == 'a');
                if j < sa.len() + sb.len() {
                    assert(starts_with(sb[j - sa.len()], nb));
                    assert(y.subrange(0, k + 2)[k + 1] == 'b');
                } else {
                    assert(y.len() == k);
                }
            } else if i < sa.len() + sb.len() {
                assert(starts_with(sb[i - sa.len()], nb));
                assert(x.subrange(0, k + 2)[k + 1] == 'b');
                if j < sa.len() {
                    assert(starts_with(sa[j], na));
                    assert(y.subrange(0, k + 2)[k + 1] == 'a');
                } else {
                    assert(y.len() == k);
                }
            } else {
                assert(x.len() == k);
                if j < sa.len() {
                    assert(starts_with(sa[j], na));
                } else {
                    assert(starts_with(sb[j - sa.len()], nb));
                }
            }
        }
    }
}

/// The table of both parts, where both have one and it is the same.
pub open spec fn common_table(a: Option<Seq<char>>, b: Option<Seq<char>>) -> Option<Seq<char>> {
    match (a, b) {
        (Some(x), Some(y)) => if x == y {
            Some(x)
        } else {
            None
        },
        _ => None,
    }
}

fn push_comparison_cte(c: &Comparison, name: &str, out: &mut String)
    ensures
        final(out)@ == old(out)@ + comparison_cte(*c, name@),
{
    out.append(",\n    ");
    out.append(name);
    out.append(" as (select root.rowid, root.value from root where json_extract(root.value, '");
    c.query.path.render_into(out);
    out.append("') ");
    out.append(c.operator.sql());
    out.append(" ?)");
    proof {
        assert(final(out)@ =~= old(out)@ + comparison_cte(*c, name@));
    }
}

fn push_any_cte(y: &Any, name: &str, out: &mut String)
    ensures
        final(out)@ == old(out)@ + any_cte(*y, name@),
{
    out.append(",\n    ");
    out.append(name);
    out.append(
        " as (select distinct rowid, value from (select root.rowid, root.value from root, json_each(root.value, '",
    );
    y.outer.path.render_into(out);
    out.append("') where json_extract(json_each.value, '");
    y.inner.path.render_into(out);
    out.append("') ");
    out.append(y.operator.sql());
    out.append(" ?))");
    proof {
        assert(final(out)@ =~= old(out)@ + any_cte(*y, name@));
    }
}

fn push_and_cte(name: &str, out: &mut String)
    ensures
        final(out)@ == old(out)@ + and_cte(name@),
{
    out.append(",\n    ");
    out.append(name);
    out.append(" as (select ");
    out.append(name);
    out.append("_a.rowid, ");
    out.append(name);
    out.append("_a.value from ");
    out.append(name);
    out.append("_a inner join ");
    out.append(name);
    out.append("_b on ");
    out.append(name);
    out.append("_a.rowid = ");
    out.append(name);
    out.append("_b.rowid)");
    proof {
        assert(final(out)@ =~= old(out)@ + and_cte(name@));
    }
}

fn push_or_cte(name: &str, out: &mut String)
    ensures
        final(out)@ == old(out)@ + or_cte(name@),
{
    out.append(",\n    ");
    out.append(name);
    out.append(" as (select * from ");
    out.append(name);
    out.append("_a union all select * from ");
    out.append(name);
    out.append("_b)");
    proof {
        assert(final(out)@ =~= old(out)@ + or_cte(name@));
    }
}

fn same_table(a: String, b: String) -> (r: Result<String, QueryError>)
    ensures
        r is Ok <==> a@ == b@,
        r is Ok ==> r->Ok_0@ == a@,
        r is Err ==> r->Err_0 == QueryError::MixedTables,
{
    if a == b {
        Ok(a)
    } else {
        Err(QueryError::MixedTables)
    }
}

} // verus!
