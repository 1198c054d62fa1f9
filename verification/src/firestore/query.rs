//! The comparisons that a query may put on a field.

use vstd::prelude::*;

verus! {

/// How a field is compared with the value of a constraint.
#[derive(Clone, Copy, Debug, PartialEq, Eq)]
pub enum QueryConstraintOp {
    /// `<`: the field is less than.
    LessThan,
    /// `<=`: the field is less than or equal to.
    LessThanEq,
    /// `>`: the field is greater than.
    GreaterThan,
    /// `>=`: the field is greater than or equal to.
    GreaterThanEq,
    /// `==`: the field is equal to.
    Eq,
    /// `!=`: the field is not equal to.
    NotEq,
    /// `array-contains`: the field is an array that holds the value.
    ArrayContains,
    /// `in`: the field is one of the values.
    In,
    /// `array-contains-any`: the field is an array that holds one of the values.
    ArrayContainsAny,
    /// `not-in`: the field is none of the values.
    NotIn,
}

impl QueryConstraintOp {
    /// The operator as the store writes it.
    pub open spec fn symbol(self) -> Seq<char> {
        match self {
            QueryConstraintOp::LessThan => "<"@,
            QueryConstraintOp::LessThanEq => "<="@,
            QueryConstraintOp::GreaterThan => ">"@,
            QueryConstraintOp::GreaterThanEq => ">="@,
            QueryConstraintOp::Eq => "=="@,
            QueryConstraintOp::NotEq => "!="@,
            QueryConstraintOp::ArrayContains => "array-contains"@,
            QueryConstraintOp::In => "in"@,
            QueryConstraintOp::ArrayContainsAny => "array-contains-any"@,
            QueryConstraintOp::NotIn => "not-in"@,
        }
    }

    /// The operator as the store writes it.
    pub fn as_str(&self) -> (text: &'static str)
        ensures
            text@ == self.symbol(),
    {
        match self {
            QueryConstraintOp::LessThan => "<",
            QueryConstraintOp::LessThanEq => "<=",
            QueryConstraintOp::GreaterThan => ">",
            QueryConstraintOp::GreaterThanEq => ">=",
            QueryConstraintOp::Eq => "==",
            QueryConstraintOp::NotEq => "!=",
            QueryConstraintOp::ArrayContains => "array-contains",
            QueryConstraintOp::In => "in",
            QueryConstraintOp::ArrayContainsAny => "array-contains-any",
            QueryConstraintOp::NotIn => "not-in",
        }
    }

    /// The operator as the store writes it, as an owned string.
    pub fn to_string(&self) -> (text: String)
        ensures
            text@ == self.symbol(),
    {
        self.as_str().to_owned()
    }
}

/// No two comparisons are written alike, so the operator text names its
/// comparison.
pub proof fn lemma_symbols_differ(a: QueryConstraintOp, b: QueryConstraintOp)
    ensures
        a.symbol() == b.symbol() <==> a == b,
{
    reveal_strlit("<");
    reveal_strlit("<=");
    reveal_strlit(">");
    reveal_strlit(">=");
    reveal_strlit("==");
    reveal_strlit("!=");
    reveal_strlit("array-contains");
    reveal_strlit("in");
    reveal_strlit("array-contains-any");
    reveal_strlit("not-in");
    assert("<"@.len() == 1);
    assert("<="@.len() == 2);
    assert(">"@.len() == 1);
    assert(">="@.len() == 2);
    assert("=="@.len() == 2);
    assert("!="@.len() == 2);
    assert("array-contains"@.len() == 14);
    assert("in"@.len() == 2);
    assert("array-contains-any"@.len() == 18);
    assert("not-in"@.len() == 6);
    assert("<"@[0] == '<');
    assert(">"@[0] == '>');
    assert("<="@[0] == '<');
    assert("<="@[1] == '=');
    assert(">="@[0] == '>');
    assert(">="@[1] == '=');
    assert("=="@[0] == '=');
    assert("=="@[1] == '=');
    assert("!="@[0] == '!');
    assert("!="@[1] == '=');
    assert("in"@[0] == 'i');
    assert("in"@[1] == 'n');
}

} // verus!
