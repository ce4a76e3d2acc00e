//! Typed handles on the fields of a stored record: a path into the document
//! together with the kind of value found there.
use vstd::prelude::*;
use crate::path::{Path, PathElement};
use crate::filter::{Any, Comparison, Filter, Operator};

verus! {

/// Why a query or a predicate could not be built.
#[derive(Debug, Clone, Copy, PartialEq, Eq, Structural)]
pub enum QueryError {
    /// A table name that is not a lowercase identifier.
    InvalidTableName,
    /// A field was looked up on a value that is not a record.
    NotARecord,
    /// An array operation was asked of a value that is not an array.
    NotAnArray,
    /// A literal whose kind differs from the kind of the field it is compared with.
    KindMismatch,
    /// Two parts of one predicate that refer to different tables.
    MixedTables,
}

/// The kind of value stored at a place in a document.
#[derive(Debug)]
pub enum FieldKind {
    Text,
    Integer,
    Boolean,
    Record,
    Array(Box<FieldKind>),
}

impl Clone for FieldKind {
    fn clone(&self) -> (r: FieldKind)
        ensures
            r == *self,
        decreases self,
    {
        match self {
            FieldKind::Text => FieldKind::Text,
            FieldKind::Integer => FieldKind::Integer,
            FieldKind::Boolean => FieldKind::Boolean,
            FieldKind::Record => FieldKind::Record,
            FieldKind::Array(element) => FieldKind::Array(Box::new((**element).clone())),
        }
    }
}

/// A scalar operand of a comparison, bound to the statement as a parameter.
#[derive(Debug)]
pub enum Literal {
    Text(String),
    Integer(i64),
    Boolean(bool),
}

impl Literal {
    /// The field kind that this literal can be compared with.
    pub open spec fn spec_kind(&self) -> FieldKind {
        match self {
            Literal::Text(_) => FieldKind::Text,
            Literal::Integer(_) => FieldKind::Integer,
            Literal::Boolean(_) => FieldKind::Boolean,
        }
    }

    /// Whether a field of kind `kind` can be compared with this literal.
    pub fn fits(&self, kind: &FieldKind) -> (r: bool)
        ensures
            r == (*kind == self.spec_kind()),
    {
        match (self, kind) {
            (Literal::Text(_), FieldKind::Text) => true,
            (Literal::Integer(_), FieldKind::Integer) => true,
            (Literal::Boolean(_), FieldKind::Boolean) => true,
            _ => false,
        }
    }
}

impl Clone for Literal {
    fn clone(&self) -> (r: Literal)
        ensures
            r == *self,
    {
        match self {
            Literal::Text(s) => Literal::Text(s.clone()),
            Literal::Integer(i) => Literal::Integer(*i),
            Literal::Boolean(b) => Literal::Boolean(*b),
        }
    }
}

/// A character allowed in a table name.
pub open spec fn is_name_char(c: char) -> bool {
    ('a' <= c && c <= 'z') || ('0' <= c && c <= '9') || c == '_'
}

/// A table name: a non-empty lowercase identifier that does not start with a digit.
pub open spec fn is_table_name(s: Seq<char>) -> bool {
    &&& s.len() > 0
    &&& !('0' <= s[0] && s[0] <= '9')
    &&& forall|i: int| 0 <= i < s.len() ==> is_name_char(#[trigger] s[i])
}

/// Whether `name` can name a table.
pub fn check_table_name(name: &str) -> (r: bool)
    ensures
        r == is_table_name(name@),
{
    let n = name.unicode_len();
    if n == 0 {
        return false;
    }
    let first = name.get_char(0);
    if '0' <= first && first <= '9' {
        return false;
    }
    let mut i: usize = 0;
    while i < n
        invariant
            n == name@.len(),
            i <= n,
            forall|j: int| 0 <= j < i ==> is_name_char(#[trigger] name@[j]),
        decreases n - i,
    {
        let c = name.get_char(i);
        if !(('a' <= c && c <= 'z') || ('0' <= c && c <= '9') || c == '_') {
            assert(!is_name_char(name@[i as int]));
            return false;
        }
        i = i + 1;
    }
    true
}

/// The document table that holds the records of one type.
#[derive(Debug, Clone)]
pub struct Table {
    pub name: String,
}

impl Table {
    /// A table named `name`, which must be a lowercase identifier.
    pub fn new(name: &str) -> (r: Result<Table, QueryError>)
        ensures
            r is Ok <==> is_table_name(name@),
            r is Ok ==> r->Ok_0.name@ == name@,
            r is Err ==> r->Err_0 == QueryError::InvalidTableName,
    {
        if check_table_name(name) {
            Ok(Table { name: String::from_str(name) })
        } else {
            Err(QueryError::InvalidTableName)
        }
    }

    /// The query on whole records of this table: the document root.
    pub fn query(&self) -> (r: Query)
        ensures
            r.table@ == self.name@,
            r.path@ == Seq::<PathElement>::empty(),
            r.kind == FieldKind::Record,
    {
        Query { table: self.name.clone(), path: Path::new(), kind: FieldKind::Record }
    }
}

/// A typed handle on one place in the documents of a table.
#[derive(Debug)]
pub struct Query {
    /// Name of the table whose documents the path points into.
    pub table: String,
    pub path: Path,
    /// Kind of the value found at `path`.
    pub kind: FieldKind,
}

impl Clone for Query {
    fn clone(&self) -> (r: Query)
        ensures
            r.table == self.table,
            r.path@ == self.path@,
            r.kind == self.kind,
    {
        Query { table: self.table.clone(), path: self.path.clone(), kind: self.kind.clone() }
    }
}

impl Query {
    /// A query on the value of kind `kind` at `path` in the documents of `table`.
    pub fn new(table: &Table, path: Path, kind: FieldKind) -> (r: Query)
        ensures
            r.table@ == table.name@,
            r.path@ == path@,
            r.kind == kind,
    {
        Query { table: table.name.clone(), path, kind }
    }

    /// The path of this query.
    pub fn path(&self) -> (r: &Path)
        ensures
            r@ == self.path@,
    {
        &self.path
    }

    /// One step deeper: the field `name`, of kind `kind`, of the record here.
    pub fn field(&self, name: &str, kind: FieldKind) -> (r: Result<Query, QueryError>)
        ensures
            r is Ok <==> self.kind == FieldKind::Record,
            r is Ok ==> {
                let q = r->Ok_0;
                &&& q.table == self.table
                &&& q.path@.len() == self.path@.len() + 1
                &&& q.path@.drop_last() == self.path@
                &&& q.path@.last() is Field
                &&& q.path@.last()->Field_0@ == name@
                &&& q.kind == kind
            },
            r is Err ==> r->Err_0 == QueryError::NotARecord,
    {
        match self.kind {
            FieldKind::Record => {
                let path = self.path.join(PathElement::field(name));
                proof {
                    assert(path@.drop_last() =~= self.path@);
                }
                Ok(Query { table: self.table.clone(), path, kind })
            },
            _ => Err(QueryError::NotARecord),
        }
    }

    /// The array here, for access to its elements.
    pub fn elements(&self) -> (r: Result<VecField, QueryError>)
        ensures
            r is Ok <==> self.kind is Array,
            r is Ok ==> {
                let v = r->Ok_0;
                &&& v.query.table == self.table
                &&& v.query.path@ == self.path@
                &&& v.query.kind == self.kind
                &&& v.element == *self.kind->Array_0
            },
            r is Err ==> r->Err_0 == QueryError::NotAnArray,
    {
        match &self.kind {
            FieldKind::Array(element) => Ok(
                VecField { query: self.clone(), element: (**element).clone() },
            ),
            _ => Err(QueryError::NotAnArray),
        }
    }

    /// The predicate "the value here compares to `value` by `operator`".
    /// The field must be a scalar of the literal's kind.
    pub fn cmp(&self, operator: Operator, value: Literal) -> (r: Result<Filter, QueryError>)
        ensures
            r is Ok <==> self.kind == value.spec_kind(),
            r is Ok ==> r->Ok_0 is Comparison && {
                let c = r->Ok_0->Comparison_0;
                &&& c.query.table == self.table
                &&& c.query.path@ == self.path@
                &&& c.query.kind == self.kind
                &&& c.operator == operator
                &&& c.value == value
            },
            r is Err ==> r->Err_0 == QueryError::KindMismatch,
    {
        if value.fits(&self.kind) {
            Ok(Filter::Comparison(Comparison { query: self.clone(), operator, value }))
        } else {
            Err(QueryError::KindMismatch)
        }
    }

    /// The predicate "some element of the array here has, at `inner`, a value
    /// that compares to `value` by `operator`". `inner` is a query relative to
    /// one element, as built from `VecField::wildcard`.
    pub fn any(&self, inner: &Query, operator: Operator, value: Literal) -> (r: Result<
        Filter,
        QueryError,
    >)
        ensures
            r is Ok <==> (self.kind is Array && inner.kind == value.spec_kind()),
            r is Ok ==> r->Ok_0 is Any && {
                let a = r->Ok_0->Any_0;
                &&& a.outer.table == self.table
                &&& a.outer.path@ == self.path@
                &&& a.outer.kind == self.kind
                &&& a.inner.table == inner.table
                &&& a.inner.path@ == inner.path@
                &&& a.inner.kind == inner.kind
                &&& a.operator == operator
                &&& a.value == value
            },
            r is Err ==> r->Err_0 == (if self.kind is Array {
                QueryError::KindMismatch
            } else {
                QueryError::NotAnArray
            }),
    {
        match self.kind {
            FieldKind::Array(_) => {
                if value.fits(&inner.kind) {
                    Ok(Filter::Any(Any { outer: self.clone(), inner: inner.clone(), operator, value }))
                } else {
                    Err(QueryError::KindMismatch)
                }
            },
            _ => Err(QueryError::NotAnArray),
        }
    }
}

/// A query on an array field, giving access to its elements.
#[derive(Debug, Clone)]
pub struct VecField {
    /// The array itself.
    pub query: Query,
    /// Kind of the array's elements.
    pub element: FieldKind,
}

impl VecField {
    /// The element at `index`.
    pub fn at(&self, index: usize) -> (r: Query)
        ensures
            r.table == self.query.table,
            r.path@ == self.query.path@.push(PathElement::Index(index)),
            r.kind == self.element,
    {
        Query {
            table: self.query.table.clone(),
            path: self.query.path.join(PathElement::Index(index)),
            kind: self.element.clone(),
        }
    }

    /// A query on one element, whatever its position: its path is empty, and
    /// paths built from it are relative to the element.
    pub fn wildcard(&self) -> (r: Query)
        ensures
            r.table == self.query.table,
            r.path@ == Seq::<PathElement>::empty(),
            r.kind == self.element,
    {
        Query { table: self.query.table.clone(), path: Path::new(), kind: self.element.clone() }
    }
}

} // verus!
