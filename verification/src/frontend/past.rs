//! The parsed syntax tree and its notation.

use crate::frontend::Locatable;
use crate::text::{decimal_int, push_decimal_i64};
use vstd::prelude::*;

verus! {

/// A type as written in the source.
pub enum TypeExpr {
    Unit,
    Bool,
    Int,
    Ref(Box<TypeExpr>),
    Arrow(Box<TypeExpr>, Box<TypeExpr>),
    Product(Box<TypeExpr>, Box<TypeExpr>),
    Union(Box<TypeExpr>, Box<TypeExpr>),
}

impl TypeExpr {
    /// The type in source notation. An arrow associates to the right, so
    /// only an arrow on the left of an arrow is put in brackets.
    pub open spec fn text(self) -> Seq<char>
        decreases self,
    {
        match self {
            TypeExpr::Unit => "unit"@,
            TypeExpr::Bool => "bool"@,
            TypeExpr::Int => "int"@,
            TypeExpr::Ref(sub) => sub.text() + " ref"@,
            TypeExpr::Arrow(left, right) => if *left is Arrow {
                "("@ + left.text() + ") -> "@ + right.text()
            } else {
                left.text() + " -> "@ + right.text()
            },
            TypeExpr::Product(left, right) => left.text() + " * "@ + right.text(),
            TypeExpr::Union(left, right) => left.text() + " | "@ + right.text(),
        }
    }

    /// Appends the type's notation to `out`.
    pub fn append_to(&self, out: &mut String)
        ensures
            final(out)@ == old(out)@ + self.text(),
        decreases self,
    {
        match self {
            TypeExpr::Unit => out.append("unit"),
            TypeExpr::Bool => out.append("bool"),
            TypeExpr::Int => out.append("int"),
            TypeExpr::Ref(sub) => {
                sub.append_to(out);
                out.append(" ref");
            },
            TypeExpr::Arrow(left, right) => {
                match **left {
                    TypeExpr::Arrow(_, _) => {
                        out.append("(");
                        left.append_to(out);
                        out.append(") -> ");
                    },
                    _ => {
                        left.append_to(out);
                        out.append(" -> ");
                    },
                }
                right.append_to(out);
            },
            TypeExpr::Product(left, right) => {
                left.append_to(out);
                out.append(" * ");
                right.append_to(out);
            },
            TypeExpr::Union(left, right) => {
                left.append_to(out);
                out.append(" | ");
                right.append_to(out);
            },
        }
        assert(final(out)@ =~= old(out)@ + self.text());
    }

    /// The type's notation.
    pub fn to_string(&self) -> (s: String)
        ensures
            s@ == self.text(),
    {
        let mut s = String::new();
        self.append_to(&mut s);
        assert(s@ =~= self.text());
        s
    }
}

/// A binary operator.
pub enum BinOp {
    Add,
    Mul,
    Div,
    Sub,
    Lt,
    And,
    Or,
    Eq,
    Eqb,
    Eqi,
}

impl BinOp {
    /// The operator's notation.
    ///
    /// Three entries of this table look like slips and are kept as they
    /// are until the intended notation is settled: `Or` is written `+`,
    /// which is also the notation of `Add`, and `Eqb` and `Eqi` are each
    /// written with the other's name.
    pub open spec fn text(self) -> Seq<char> {
        match self {
            BinOp::Add => "+"@,
            BinOp::Mul => "*"@,
            BinOp::Div => "/"@,
            BinOp::Sub => "-"@,
            BinOp::Lt => "<"@,
            BinOp::And => "&&"@,
            BinOp::Or => "+"@,
            BinOp::Eq => "="@,
            BinOp::Eqb => "eqi"@,
            BinOp::Eqi => "eqb"@,
        }
    }

    /// The operator's notation as a string slice.
    pub fn as_str(&self) -> (s: &'static str)
        ensures
            s@ == self.text(),
    {
        match self {
            BinOp::Add => "+",
            BinOp::Mul => "*",
            BinOp::Div => "/",
            BinOp::Sub => "-",
            BinOp::Lt => "<",
            BinOp::And => "&&",
            BinOp::Or => "+",
            BinOp::Eq => "=",
            BinOp::Eqb => "eqi",
            BinOp::Eqi => "eqb",
        }
    }

    /// The operator's notation.
    pub fn to_string(&self) -> (s: String)
        ensures
            s@ == self.text(),
    {
        String::from_str(self.as_str())
    }
}

/// A unary operator.
pub enum UnOp {
    Neg,
    Not,
}

impl UnOp {
    /// The operator's notation.
    pub open spec fn text(self) -> Seq<char> {
        match self {
            UnOp::Neg => "-"@,
            UnOp::Not => "~"@,
        }
    }

    /// The operator's notation as a string slice.
    pub fn as_str(&self) -> (s: &'static str)
        ensures
            s@ == self.text(),
    {
        match self {
            UnOp::Neg => "-",
            UnOp::Not => "~",
        }
    }

    /// The operator's notation.
    pub fn to_string(&self) -> (s: String)
        ensures
            s@ == self.text(),
    {
        String::from_str(self.as_str())
    }
}

/// The name of a variable.
pub type Var = String;

/// A function of one parameter: the parameter, its type and the body.
pub type Lambda = (Var, TypeExpr, SubExpr);

/// An expression inside another, with its place in the source.
pub type SubExpr = Box<Locatable<Expr>>;

/// An expression as parsed.
pub enum Expr {
    Unit,
    What,
    Var(Var),
    Int(i64),
    Bool(bool),
    UnOp(UnOp, SubExpr),
    BinOp(BinOp, SubExpr, SubExpr),
    If(SubExpr, SubExpr, SubExpr),
    Pair(SubExpr, SubExpr),
    Fst(SubExpr),
    Snd(SubExpr),
    Inl(SubExpr, TypeExpr),
    Inr(SubExpr, TypeExpr),
    Case(SubExpr, Lambda, Lambda),
    Lambda(Lambda),
    While(SubExpr, SubExpr),
    Sequence(Vec<SubExpr>),
    Ref(SubExpr),
    Deref(SubExpr),
    Assign(SubExpr, SubExpr),
    App(SubExpr, SubExpr),
    Let(Var, TypeExpr, SubExpr, SubExpr),
    LetFun(Var, Lambda, TypeExpr, SubExpr),
    LetRecFun(Var, Lambda, TypeExpr, SubExpr),
}

/// The notation of a truth value.
pub open spec fn bool_text(b: bool) -> Seq<char> {
    if b {
        "true"@
    } else {
        "false"@
    }
}

/// Whether an expression stands inside another without brackets: the
/// atoms and the function literal do, everything else is bracketed.
pub open spec fn is_atomic(e: Expr) -> bool {
    e is Unit || e is What || e is Var || e is Int || e is Lambda
}

/// The notation of an expression inside another.
pub open spec fn sub_text(sub: SubExpr) -> Seq<char>
    decreases sub,
{
    if is_atomic(sub.raw) {
        sub.raw.text()
    } else {
        "("@ + sub.raw.text() + ")"@
    }
}

/// A name with its type: `x: int`.
pub open spec fn typed_text(name: Seq<char>, type_expr: TypeExpr) -> Seq<char> {
    name + ": "@ + type_expr.text()
}

/// One branch of a case distinction: the opening `tag`, the bound name
/// with its type, and the branch's expression after the arrow.
pub open spec fn branch_text(tag: Seq<char>, lambda: Lambda) -> Seq<char>
    decreases lambda,
{
    tag + typed_text(lambda.0@, lambda.1) + ") -> "@ + sub_text(lambda.2)
}

/// The parameter, result type and body of a function that a `let` names.
pub open spec fn definition_text(lambda: Lambda, type_expr: TypeExpr) -> Seq<char>
    decreases lambda,
{
    " ("@ + typed_text(lambda.0@, lambda.1) + "): "@ + type_expr.text() + " = "@ + sub_text(
        lambda.2,
    )
}

/// The notation of a sequence of expressions: each in the notation of an
/// inner expression, `; ` between two of them.
pub open spec fn items_text(items: Seq<SubExpr>) -> Seq<char>
    decreases items,
{
    if items.len() == 0 {
        Seq::empty()
    } else if items.len() == 1 {
        sub_text(items[0])
    } else {
        items_text(items.drop_last()) + "; "@ + sub_text(items.last())
    }
}

impl Expr {
    /// The expression in source notation.
    ///
    /// An operator application is written operator first, then the two
    /// operands, blanks between them.
    pub open spec fn text(self) -> Seq<char>
        decreases self,
    {
        match self {
            Expr::Unit => "()"@,
            Expr::What => "?"@,
            Expr::Var(v) => v@,
            Expr::Int(i) => decimal_int(i as int),
            Expr::Bool(b) => bool_text(b),
            Expr::UnOp(op, sub) => op.text() + sub_text(sub),
            Expr::BinOp(op, left, right) => op.text() + " "@ + sub_text(left) + " "@ + sub_text(
                right,
            ),
            Expr::If(condition, left, right) => "if "@ + sub_text(condition) + " then "@ + sub_text(
                left,
            ) + " else "@ + sub_text(right),
            Expr::Pair(left, right) => "("@ + sub_text(left) + ", "@ + sub_text(right) + ")"@,
            Expr::Fst(sub) => "fst "@ + sub_text(sub),
            Expr::Snd(sub) => "snd "@ + sub_text(sub),
            Expr::Inl(sub, type_expr) => "inl "@ + sub_text(sub) + ": "@ + type_expr.text(),
            Expr::Inr(sub, type_expr) => "inr "@ + sub_text(sub) + ": "@ + type_expr.text(),
            Expr::Case(sub, left, right) => "case "@ + sub_text(sub) + branch_text(
                " inl("@,
                left,
            ) + branch_text(" | inr("@, right),
            Expr::Lambda(lambda) => "fun "@ + typed_text(lambda.0@, lambda.1) + " -> "@ + sub_text(
                lambda.2,
            ),
            Expr::While(condition, sub) => "while "@ + sub_text(condition) + " do "@ + sub_text(sub)
                + " end"@,
            Expr::Sequence(items) => items_text(items@),
            Expr::Ref(sub) => "ref "@ + sub_text(sub),
            Expr::Deref(sub) => "!"@ + sub_text(sub),
            Expr::Assign(left, right) => sub_text(left) + " := "@ + sub_text(right),
            Expr::App(left, right) => sub_text(left) + " "@ + sub_text(right),
            Expr::Let(v, type_expr, sub, body) => "let "@ + typed_text(v@, type_expr) + " = "@
                + sub_text(sub) + " in "@ + sub_text(body) + " end"@,
            Expr::LetFun(v, lambda, type_expr, body) => "let "@ + v@ + definition_text(
                lambda,
                type_expr,
            ) + " in "@ + sub_text(body) + " end"@,
            Expr::LetRecFun(v, lambda, type_expr, body) => "let "@ + v@ + definition_text(
                lambda,
                type_expr,
            ) + " in "@ + sub_text(body) + " end"@,
        }
    }

    /// Whether the expression is an operator or a keyword before one
    /// operand.
    spec fn is_unary(self) -> bool {
        self is UnOp || self is Fst || self is Snd || self is Inl || self is Inr || self is Ref
            || self is Deref
    }

    /// Whether the expression joins two operands.
    spec fn is_binary(self) -> bool {
        self is BinOp || self is Pair || self is Assign || self is App
    }

    /// Whether the expression is a conditional, a case distinction, a loop
    /// or a sequence.
    spec fn is_control(self) -> bool {
        self is If || self is Case || self is While || self is Sequence
    }

    /// Whether the expression is a function literal or a `let`.
    spec fn is_binding(self) -> bool {
        self is Lambda || self is Let || self is LetFun || self is LetRecFun
    }

    /// Appends the expression's notation to `out`.
    pub fn append_to(&self, out: &mut String)
        ensures
            final(out)@ == old(out)@ + self.text(),
        decreases self, 1nat,
    {
        match self {
            Expr::Unit => out.append("()"),
            Expr::What => out.append("?"),
            Expr::Var(v) => out.append(v.as_str()),
            Expr::Int(i) => push_decimal_i64(out, *i),
            Expr::Bool(b) => {
                if *b {
                    out.append("true");
                } else {
                    out.append("false");
                }
                assert(out@ =~= old(out)@ + self.text());
            },
            Expr::UnOp(..)
            | Expr::Fst(..)
            | Expr::Snd(..)
            | Expr::Inl(..)
            | Expr::Inr(..)
            | Expr::Ref(..)
            | Expr::Deref(..) => self.append_unary(out),
            Expr::BinOp(..) | Expr::Pair(..) | Expr::Assign(..) | Expr::App(..) => {
                self.append_binary(out)
            },
            Expr::If(..) | Expr::Case(..) | Expr::While(..) | Expr::Sequence(..) => {
                self.append_control(out)
            },
            Expr::Lambda(..) | Expr::Let(..) | Expr::LetFun(..) | Expr::LetRecFun(..) => {
                self.append_binding(out)
            },
        }
    }

    /// Appends the notation of an operator or a keyword before one operand.
    fn append_unary(&self, out: &mut String)
        requires
            self.is_unary(),
        ensures
            final(out)@ == old(out)@ + self.text(),
        decreases self, 0nat,
    {
        match self {
            Expr::UnOp(op, sub) => {
                out.append(op.as_str());
                append_sub(sub, out);
                assert(out@ =~= old(out)@ + self.text());
            },
            Expr::Fst(sub) => {
                out.append("fst ");
                append_sub(sub, out);
                assert(out@ =~= old(out)@ + self.text());
            },
            Expr::Snd(sub) => {
                out.append("snd ");
                append_sub(sub, out);
                assert(out@ =~= old(out)@ + self.text());
            },
            Expr::Inl(sub, type_expr) => {
                out.append("inl ");
                append_sub(sub, out);
                out.append(": ");
                type_expr.append_to(out);
                assert(out@ =~= old(out)@ + self.text());
            },
            Expr::Inr(sub, type_expr) => {
                out.append("inr ");
                append_sub(sub, out);
                out.append(": ");
                type_expr.append_to(out);
                assert(out@ =~= old(out)@ + self.text());
            },
            Expr::Ref(sub) => {
                out.append("ref ");
                append_sub(sub, out);
                assert(out@ =~= old(out)@ + self.text());
            },
            Expr::Deref(sub) => {
                out.append("!");
                append_sub(sub, out);
                assert(out@ =~= old(out)@ + self.text());
            },
            _ => vstd::pervasive::unreached(),
        }
    }

    /// Appends the notation of an expression that joins two operands.
    fn append_binary(&self, out: &mut String)
        requires
            self.is_binary(),
        ensures
            final(out)@ == old(out)@ + self.text(),
        decreases self, 0nat,
    {
        match self {
            Expr::BinOp(op, left, right) => {
                out.append(op.as_str());
                out.append(" ");
                append_sub(left, out);
                out.append(" ");
                append_sub(right, out);
                assert(out@ =~= old(out)@ + self.text());
            },
            Expr::Pair(left, right) => {
                out.append("(");
                append_sub(left, out);
                out.append(", ");
                append_sub(right, out);
                out.append(")");
                assert(out@ =~= old(out)@ + self.text());
            },
            Expr::Assign(left, right) => {
                append_sub(left, out);
                out.append(" := ");
                append_sub(right, out);
                assert(out@ =~= old(out)@ + self.text());
            },
            Expr::App(left, right) => {
                append_sub(left, out);
                out.append(" ");
                append_sub(right, out);
                assert(out@ =~= old(out)@ + self.text());
            },
            _ => vstd::pervasive::unreached(),
        }
    }

    /// Appends the notation of a conditional, a case distinction, a loop or a sequence.
    fn append_control(&self, out: &mut String)
        requires
            self.is_control(),
        ensures
            final(out)@ == old(out)@ + self.text(),
        decreases self, 0nat,
    {
        match self {
            Expr::If(condition, left, right) => {
                out.append("if ");
                append_sub(condition, out);
                out.append(" then ");
                append_sub(left, out);
                out.append(" else ");
                append_sub(right, out);
                assert(out@ =~= old(out)@ + self.text());
            },
            Expr::Case(sub, left, right) => {
                out.append("case ");
                append_sub(sub, out);
                append_branch(" inl(", left, out);
                append_branch(" | inr(", right, out);
                assert(out@ =~= old(out)@ + self.text());
            },
            Expr::While(condition, sub) => {
                out.append("while ");
                append_sub(condition, out);
                out.append(" do ");
                append_sub(sub, out);
                out.append(" end");
                assert(out@ =~= old(out)@ + self.text());
            },
            Expr::Sequence(items) => {
                append_items(items, out);
                assert(out@ =~= old(out)@ + self.text());
            },
            _ => vstd::pervasive::unreached(),
        }
    }

    /// Appends the notation of a function literal or a `let`.
    fn append_binding(&self, out: &mut String)
        requires
            self.is_binding(),
        ensures
            final(out)@ == old(out)@ + self.text(),
        decreases self, 0nat,
    {
        match self {
            Expr::Lambda(lambda) => {
                out.append("fun ");
                append_typed(&lambda.0, &lambda.1, out);
                out.append(" -> ");
                append_sub(&lambda.2, out);
                assert(out@ =~= old(out)@ + self.text());
            },
            Expr::Let(v, type_expr, sub, body) => {
                out.append("let ");
                append_typed(v, type_expr, out);
                out.append(" = ");
                append_sub(sub, out);
                out.append(" in ");
                append_sub(body, out);
                out.append(" end");
                assert(out@ =~= old(out)@ + self.text());
            },
            Expr::LetFun(v, lambda, type_expr, body)
            | Expr::LetRecFun(v, lambda, type_expr, body) => {
                out.append("let ");
                out.append(v.as_str());
                append_definition(lambda, type_expr, out);
                out.append(" in ");
                append_sub(body, out);
                out.append(" end");
                assert(out@ =~= old(out)@ + self.text());
            },
            _ => vstd::pervasive::unreached(),
        }
    }

    /// The expression's notation.
    pub fn to_string(&self) -> (s: String)
        ensures
            s@ == self.text(),
    {
        let mut s = String::new();
        self.append_to(&mut s);
        assert(s@ =~= self.text());
        s
    }
}

/// Appends the notation of an expression that stands inside another.
pub fn append_sub(sub: &SubExpr, out: &mut String)
    ensures
        final(out)@ == old(out)@ + sub_text(*sub),
    decreases sub, 1nat,
{
    let raw = sub.borrow_raw();
    match raw {
        Expr::Unit | Expr::What | Expr::Var(_) | Expr::Int(_) | Expr::Lambda(_) => {
            raw.append_to(out);
        },
        _ => {
            out.append("(");
            raw.append_to(out);
            out.append(")");
            assert(final(out)@ =~= old(out)@ + sub_text(*sub));
        },
    }
}

/// Appends a name with its type.
fn append_typed(name: &String, type_expr: &TypeExpr, out: &mut String)
    ensures
        final(out)@ == old(out)@ + typed_text(name@, *type_expr),
{
    out.append(name.as_str());
    out.append(": ");
    type_expr.append_to(out);
    assert(final(out)@ =~= old(out)@ + typed_text(name@, *type_expr));
}

/// Appends one branch of a case distinction.
fn append_branch(tag: &str, lambda: &Lambda, out: &mut String)
    ensures
        final(out)@ == old(out)@ + branch_text(tag@, *lambda),
    decreases lambda, 1nat,
{
    out.append(tag);
    append_typed(&lambda.0, &lambda.1, out);
    out.append(") -> ");
    append_sub(&lambda.2, out);
    assert(final(out)@ =~= old(out)@ + branch_text(tag@, *lambda));
}

/// Appends the parameter, result type and body of a named function.
fn append_definition(lambda: &Lambda, type_expr: &TypeExpr, out: &mut String)
    ensures
        final(out)@ == old(out)@ + definition_text(*lambda, *type_expr),
    decreases lambda, 1nat,
{
    out.append(" (");
    append_typed(&lambda.0, &lambda.1, out);
    out.append("): ");
    type_expr.append_to(out);
    out.append(" = ");
    append_sub(&lambda.2, out);
    assert(final(out)@ =~= old(out)@ + definition_text(*lambda, *type_expr));
}

/// Appends the notation of a sequence of expressions.
fn append_items(items: &Vec<SubExpr>, out: &mut String)
    ensures
        final(out)@ == old(out)@ + items_text(items@),
    decreases items, 1nat,
{
    let mut i: usize = 0;
    assert(out@ =~= old(out)@ + items_text(items@.take(0)));
    while i < items.len()
        invariant
            i <= items.len(),
            out@ == old(out)@ + items_text(items@.take(i as int)),
        decreases items.len() - i,
    {
        if i > 0 {
            out.append("; ");
        }
        proof {
            vstd::std_specs::vec::axiom_vec_index_decreases(*items, i as int);
        }
        append_sub(&items[i], out);
        proof {
            let upto = items@.take(i + 1);
            assert(upto.drop_last() =~= items@.take(i as int));
            assert(upto.last() == items@[i as int]);
            assert(out@ =~= old(out)@ + items_text(upto));
        }
        i = i + 1;
    }
    assert(items@.take(i as int) =~= items@);
}

/// The notation of an expression that stands inside another.
pub fn sub_to_string(sub: &SubExpr) -> (s: String)
    ensures
        s@ == sub_text(*sub),
{
    let mut s = String::new();
    append_sub(sub, &mut s);
    assert(s@ =~= sub_text(*sub));
    s
}

} // verus!
