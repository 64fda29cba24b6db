//! What the printer writes for each piece of syntax, and which trees it can print.
//!
//! `m` is the minify switch and `d` the indentation level at which a piece
//! starts; `r` is how many more levels of indentation the generator can take.

use vstd::prelude::*;

use crate::ast::ClassMember;
use crate::ast::Expression;
use crate::ast::LiteralValue;
use crate::ast::MemberKey;
use crate::ast::ObjectMember;
use crate::ast::OperatorType;
use crate::ast::Parameter;
use crate::ast::Statement;
use crate::ast::VariableDeclarationKind;
use crate::ast::VariableDeclarator;
use crate::ast::expression_power;
use crate::generator::newline;
use crate::generator::pick;
use crate::number::decimal;
use crate::text::debug_quoted;
use crate::text::identifier_text;

verus! {

/// The separator between list items: `", "`, or `","` when minifying.
pub open spec fn sep(m: bool) -> Seq<char> {
    pick(m, ", ", ",")
}

/// The separator in front of the last of `n` items: none for the first.
pub open spec fn sep_before(m: bool, n: nat) -> Seq<char> {
    if n > 1 {
        sep(m)
    } else {
        Seq::empty()
    }
}

/// The source text of an operator.
pub open spec fn operator_text(op: OperatorType) -> Seq<char> {
    match op {
        OperatorType::FatArrow => "=>"@,
        OperatorType::Accessor => "."@,
        OperatorType::New => "new"@,
        OperatorType::Increment => "++"@,
        OperatorType::Decrement => "--"@,
        OperatorType::LogicalNot => "!"@,
        OperatorType::BitwiseNot => "~"@,
        OperatorType::Typeof => "typeof"@,
        OperatorType::Void => "void"@,
        OperatorType::Delete => "delete"@,
        OperatorType::Multiplication => "*"@,
        OperatorType::Division => "/"@,
        OperatorType::Remainder => "%"@,
        OperatorType::Exponent => "**"@,
        OperatorType::Addition => "+"@,
        OperatorType::Substraction => "-"@,
        OperatorType::BitShiftLeft => "<<"@,
        OperatorType::BitShiftRight => ">>"@,
        OperatorType::UBitShiftRight => ">>>"@,
        OperatorType::Lesser => "<"@,
        OperatorType::LesserEquals => "<="@,
        OperatorType::Greater => ">"@,
        OperatorType::GreaterEquals => ">="@,
        OperatorType::Instanceof => "instanceof"@,
        OperatorType::In => "in"@,
        OperatorType::StrictEquality => "==="@,
        OperatorType::StrictInequality => "!=="@,
        OperatorType::Equality => "=="@,
        OperatorType::Inequality => "!="@,
        OperatorType::BitwiseAnd => "&"@,
        OperatorType::BitwiseXor => "^"@,
        OperatorType::BitwiseOr => "|"@,
        OperatorType::LogicalAnd => "&&"@,
        OperatorType::LogicalOr => "||"@,
        OperatorType::Conditional => "?"@,
        OperatorType::Assign => "="@,
        OperatorType::AddAssign => "+="@,
        OperatorType::SubstractAssign => "-="@,
        OperatorType::ExponentAssign => "**="@,
        OperatorType::MultiplyAssign => "*="@,
        OperatorType::DivideAssign => "/="@,
        OperatorType::RemainderAssign => "%="@,
        OperatorType::BSLAssign => "<<="@,
        OperatorType::BSRAssign => ">>="@,
        OperatorType::UBSRAssign => ">>>="@,
        OperatorType::BitAndAssign => "&="@,
        OperatorType::BitXorAssign => "^="@,
        OperatorType::BitOrAssign => "|="@,
        OperatorType::Spread => "..."@,
    }
}

/// The keyword of a declaration kind.
pub open spec fn kind_text(k: VariableDeclarationKind) -> Seq<char> {
    match k {
        VariableDeclarationKind::Var => "var"@,
        VariableDeclarationKind::Let => "let"@,
        VariableDeclarationKind::Const => "const"@,
    }
}

/// The text of a literal.
pub open spec fn literal_code(l: LiteralValue, m: bool) -> Seq<char> {
    match l {
        LiteralValue::LiteralUndefined => pick(m, "undefined", "void 0"),
        LiteralValue::LiteralNull => "null"@,
        LiteralValue::LiteralTrue => pick(m, "true", "!0"),
        LiteralValue::LiteralFalse => pick(m, "false", "!1"),
        LiteralValue::LiteralInteger(n) => decimal(n as int),
        LiteralValue::LiteralFloat(text) => text@,
        LiteralValue::LiteralString(s) => debug_quoted(s@),
    }
}

/// The parameter names, separated by commas.
pub open spec fn params_code(s: Seq<Parameter>, m: bool) -> Seq<char>
    decreases s.len(),
{
    if s.len() == 0 {
        Seq::empty()
    } else {
        params_code(s.subrange(0, s.len() - 1), m) + sep_before(m, s.len()) + s[s.len()
            - 1].name@
    }
}

/// The text of an object key written as a plain label: bare when it is an
/// identifier, else quoted.
pub open spec fn label_key(key: Seq<char>) -> Seq<char> {
    if identifier_text(key) {
        key
    } else {
        debug_quoted(key)
    }
}

/// The text of an expression.
pub open spec fn expr_code(e: Expression, m: bool, d: nat) -> Seq<char>
    decreases e,
{
    match e {
        Expression::This => "this"@,
        Expression::Identifier(ident) => ident@,
        Expression::Literal(literal) => literal_code(literal, m),
        Expression::Array(items) => seq!['['] + exprs_code(items@, m, d) + seq![']'],
        Expression::Sequence(items) => seq!['('] + exprs_code(items@, m, d) + seq![')'],
        Expression::Object(members) => seq!['{'] + members_code(members@, m, d + 1) + newline(
            m,
            d,
        ) + seq!['}'],
        Expression::Member { object, property } => expr_code(*object, m, d) + key_code(
            *property,
            m,
            d,
        ),
        Expression::Call { callee, arguments } => expr_code(*callee, m, d) + seq!['(']
            + exprs_code(arguments@, m, d) + seq![')'],
        Expression::Binary { left, operator, right } => (if expression_power(*left)
            < expression_power(e) {
            seq!['('] + expr_code(*left, m, d) + seq![')']
        } else {
            expr_code(*left, m, d)
        }) + pick(m, " ", "") + operator_text(operator) + pick(m, " ", "") + expr_code(
            *right,
            m,
            d,
        ),
        Expression::Prefix { operator, operand } => operator_text(operator) + expr_code(
            *operand,
            m,
            d,
        ),
        Expression::Postfix { operator, operand } => expr_code(*operand, m, d) + operator_text(
            operator,
        ),
        Expression::Conditional { test, consequent, alternate } => expr_code(*test, m, d) + pick(
            m,
            " ? ",
            "?",
        ) + expr_code(*consequent, m, d) + pick(m, " : ", ":") + expr_code(*alternate, m, d),
        Expression::ArrowFunction { params, body } => (if params.len() == 1 {
            params@[0].name@
        } else {
            seq!['('] + params_code(params@, m) + seq![')']
        }) + pick(m, " => ", "=>") + match *body {
            Statement::Expression { value } => expr_code(value, m, d),
            _ => stmt_code(*body, m, d),
        },
        Expression::Function { name, params, body } => "function"@ + match name {
            Some(n) => seq![' '] + n@,
            None => pick(m, " ", ""),
        } + seq!['('] + params_code(params@, m) + pick(m, ") {", "){") + stmts_lines(
            body@,
            m,
            d + 1,
        ) + newline(m, d) + seq!['}'],
    }
}

/// Expressions separated by commas.
pub open spec fn exprs_code(s: Seq<Expression>, m: bool, d: nat) -> Seq<char>
    decreases s,
{
    if s.len() == 0 {
        Seq::empty()
    } else {
        exprs_code(s.subrange(0, s.len() - 1), m, d) + sep_before(m, s.len()) + expr_code(
            s[s.len() - 1],
            m,
            d,
        )
    }
}

/// The members of an object literal, each on a line of its own at level `d`,
/// separated by commas.
pub open spec fn members_code(s: Seq<ObjectMember>, m: bool, d: nat) -> Seq<char>
    decreases s,
{
    if s.len() == 0 {
        Seq::empty()
    } else {
        members_code(s.subrange(0, s.len() - 1), m, d) + (if s.len() > 1 {
            seq![',']
        } else {
            Seq::empty()
        }) + newline(m, d) + member_code(s[s.len() - 1], m, d)
    }
}

/// The text of one member of an object literal.
pub open spec fn member_code(o: ObjectMember, m: bool, d: nat) -> Seq<char>
    decreases o,
{
    match o {
        ObjectMember::Shorthand { key } => key@,
        ObjectMember::Literal { key, value } => label_key(key@) + pick(m, ": ", ":") + expr_code(
            value,
            m,
            d,
        ),
        ObjectMember::Computed { key, value } => seq!['['] + expr_code(key, m, d) + pick(
            m,
            "]: ",
            "]:",
        ) + expr_code(value, m, d),
        ObjectMember::Method { name, params, body } => name@ + seq!['('] + params_code(params@, m)
            + pick(m, ") {", "){") + stmts_lines(body@, m, d + 1) + newline(m, d) + seq!['}'],
        ObjectMember::ComputedMethod { name, params, body } => seq!['['] + expr_code(name, m, d)
            + "]("@ + params_code(params@, m) + pick(m, ") {", "){") + stmts_lines(
            body@,
            m,
            d + 1,
        ) + newline(m, d) + seq!['}'],
    }
}

/// The text of the property part of a member access.
pub open spec fn key_code(k: MemberKey, m: bool, d: nat) -> Seq<char>
    decreases k,
{
    match k {
        MemberKey::Literal(name) => seq!['.'] + name@,
        MemberKey::Computed(expr) => seq!['['] + expr_code(expr, m, d) + seq![']'],
    }
}

/// The text of one declarator.
pub open spec fn declarator_code(v: VariableDeclarator, m: bool, d: nat) -> Seq<char>
    decreases v,
{
    v.name@ + match v.value {
        Some(value) => pick(m, " = ", "=") + expr_code(value, m, d),
        None => Seq::empty(),
    }
}

/// Declarators separated by commas.
pub open spec fn decls_code(s: Seq<VariableDeclarator>, m: bool, d: nat) -> Seq<char>
    decreases s,
{
    if s.len() == 0 {
        Seq::empty()
    } else {
        decls_code(s.subrange(0, s.len() - 1), m, d) + sep_before(m, s.len()) + declarator_code(
            s[s.len() - 1],
            m,
            d,
        )
    }
}

/// The head of a `for` loop: a declaration without its semicolon, or an expression.
pub open spec fn init_code(s: Statement, m: bool, d: nat) -> Seq<char>
    decreases s,
{
    match s {
        Statement::VariableDeclaration { kind, declarators } => kind_text(kind) + seq![' ']
            + decls_code(declarators@, m, d),
        Statement::Expression { value } => expr_code(value, m, d),
        _ => Seq::empty(),
    }
}

/// The text of an optional expression: nothing when absent.
pub open spec fn optional_code(o: Option<Expression>, m: bool, d: nat) -> Seq<char>
    decreases o,
{
    match o {
        Some(e) => expr_code(e, m, d),
        None => Seq::empty(),
    }
}

/// The text of a statement.
pub open spec fn stmt_code(s: Statement, m: bool, d: nat) -> Seq<char>
    decreases s,
{
    match s {
        Statement::Labeled { label, body } => label@ + pick(m, ": ", ":") + stmt_code(*body, m, d),
        Statement::Block { body } => seq!['{'] + stmts_lines(body@, m, d + 1) + newline(m, d)
            + seq!['}'],
        Statement::Expression { value } => expr_code(value, m, d) + seq![';'],
        Statement::Return { value } => "return"@ + match value {
            Some(v) => seq![' '] + expr_code(v, m, d),
            None => Seq::empty(),
        } + seq![';'],
        Statement::Break { label } => "break"@ + match label {
            Some(l) => seq![' '] + l@,
            None => Seq::empty(),
        } + seq![';'],
        Statement::VariableDeclaration { kind, declarators } => kind_text(kind) + seq![' ']
            + decls_code(declarators@, m, d) + seq![';'],
        Statement::Function { name, params, body } => newline(m, d) + "function "@ + name@
            + seq!['('] + params_code(params@, m) + pick(m, ") {", "){") + stmts_lines(
            body@,
            m,
            d + 1,
        ) + newline(m, d) + seq!['}'] + newline(m, d),
        Statement::If { test, consequent, alternate } => pick(m, "if (", "if(") + expr_code(
            test,
            m,
            d,
        ) + pick(m, ") ", ")") + stmt_code(*consequent, m, d) + match alternate {
            Some(a) => " else "@ + stmt_code(*a, m, d),
            None => Seq::empty(),
        },
        Statement::While { test, body } => pick(m, "while (", "while(") + expr_code(test, m, d)
            + pick(m, ") ", ")") + stmt_code(*body, m, d),
        Statement::For { init, test, update, body } => pick(m, "for (", "for(") + match init {
            Some(i) => init_code(*i, m, d),
            None => Seq::empty(),
        } + pick(m, "; ", ";") + optional_code(test, m, d) + pick(m, "; ", ";") + optional_code(
            update,
            m,
            d,
        ) + pick(m, ") ", ")") + stmt_code(*body, m, d),
        Statement::ForIn { left, right, body } => pick(m, "for (", "for(") + init_code(
            *left,
            m,
            d,
        ) + " in "@ + expr_code(right, m, d) + pick(m, ") ", ")") + stmt_code(*body, m, d),
        Statement::ForOf { left, right, body } => pick(m, "for (", "for(") + init_code(
            *left,
            m,
            d,
        ) + " of "@ + expr_code(right, m, d) + pick(m, ") ", ")") + stmt_code(*body, m, d),
        Statement::Class { name, extends, body } => newline(m, d) + "class "@ + name@
            + match extends {
            Some(super_class) => " extends "@ + super_class@,
            None => Seq::empty(),
        } + pick(m, " {", "{") + class_lines(body@, m, d + 1) + newline(m, d) + seq!['}']
            + newline(m, d),
    }
}

/// Statements, each on a new line at level `d`.
pub open spec fn stmts_lines(s: Seq<Statement>, m: bool, d: nat) -> Seq<char>
    decreases s,
{
    if s.len() == 0 {
        Seq::empty()
    } else {
        stmts_lines(s.subrange(0, s.len() - 1), m, d) + newline(m, d) + stmt_code(
            s[s.len() - 1],
            m,
            d,
        )
    }
}

/// Class members, each on a new line at level `d`.
pub open spec fn class_lines(s: Seq<ClassMember>, m: bool, d: nat) -> Seq<char>
    decreases s,
{
    if s.len() == 0 {
        Seq::empty()
    } else {
        class_lines(s.subrange(0, s.len() - 1), m, d) + newline(m, d) + class_member_code(
            s[s.len() - 1],
            m,
            d,
        )
    }
}

/// `"static "` for a static member, else nothing.
pub open spec fn static_code(is_static: bool) -> Seq<char> {
    if is_static {
        "static "@
    } else {
        Seq::empty()
    }
}

/// The text of one class member.
pub open spec fn class_member_code(c: ClassMember, m: bool, d: nat) -> Seq<char>
    decreases c,
{
    match c {
        ClassMember::Constructor { params, body } => "constructor("@ + params_code(params@, m)
            + pick(m, ") {", "){") + stmts_lines(body@, m, d + 1) + newline(m, d) + seq!['}'],
        ClassMember::Method { is_static, name, params, body } => static_code(is_static) + name@
            + seq!['('] + params_code(params@, m) + pick(m, ") {", "){") + stmts_lines(
            body@,
            m,
            d + 1,
        ) + newline(m, d) + seq!['}'],
        ClassMember::Property { is_static, name, value } => static_code(is_static) + name@ + pick(
            m,
            " = ",
            "=",
        ) + expr_code(value, m, d) + seq![';'],
    }
}

/// The text of a whole program: each top-level statement followed by a line break.
pub open spec fn program_code(s: Seq<Statement>, m: bool) -> Seq<char>
    decreases s.len(),
{
    if s.len() == 0 {
        Seq::empty()
    } else {
        program_code(s.subrange(0, s.len() - 1), m) + stmt_code(s[s.len() - 1], m, 0) + newline(
            m,
            0,
        )
    }
}

} // verus!
