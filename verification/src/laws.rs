//! Properties of the printer as a whole: minified code carries no
//! indentation, and it is never longer than the pretty code.

use vstd::prelude::*;

use crate::ast::ClassMember;
use crate::ast::Expression;
use crate::ast::LiteralValue;
use crate::ast::OperatorType;
use crate::ast::MemberKey;
use crate::ast::ObjectMember;
use crate::ast::Parameter;
use crate::ast::Program;
use crate::ast::Statement;
use crate::ast::VariableDeclarator;
use crate::render::class_lines;
use crate::render::class_member_code;
use crate::render::declarator_code;
use crate::render::decls_code;
use crate::generator::newline;
use crate::render::expr_code;
use crate::render::exprs_code;
use crate::render::init_code;
use crate::render::key_code;
use crate::render::literal_code;
use crate::render::member_code;
use crate::render::members_code;
use crate::render::operator_text;
use crate::render::optional_code;
use crate::render::params_code;
use crate::render::program_code;
use crate::render::stmt_code;
use crate::render::stmts_lines;
use crate::layout::deepen;
use crate::layout::flat_expr;
use crate::layout::flat_stmt;
use crate::layout::flat_stmts;
use crate::layout::layout_expr;
use crate::layout::layout_program;
use crate::layout::layout_stmt;
use crate::layout::lemma_plain_append;
use crate::layout::lemma_plain_empty;
use crate::layout::plain;
use crate::layout::quoted_expr;
use crate::layout::quoted_stmt;
use crate::layout::quoted_stmts;
use crate::tokens::lemma_operator_token;
use crate::tokens::lemma_visible_upto;
use crate::tokens::visible;

verus! {

/// Each short form the minifier chooses is no longer than its pretty form.
proof fn lemma_short_forms()
    ensures
        ","@.len() <= ", "@.len(),
        "void 0"@.len() <= "undefined"@.len(),
        "!0"@.len() <= "true"@.len(),
        "!1"@.len() <= "false"@.len(),
        ""@.len() <= " "@.len(),
        "?"@.len() <= " ? "@.len(),
        ":"@.len() <= " : "@.len(),
        "=>"@.len() <= " => "@.len(),
        "){"@.len() <= ") {"@.len(),
        ":"@.len() <= ": "@.len(),
        "]:"@.len() <= "]: "@.len(),
        "="@.len() <= " = "@.len(),
        "if("@.len() <= "if ("@.len(),
        ")"@.len() <= ") "@.len(),
        "while("@.len() <= "while ("@.len(),
        "for("@.len() <= "for ("@.len(),
        ";"@.len() <= "; "@.len(),
        "{"@.len() <= " {"@.len(),
{
    reveal_strlit(",");
    reveal_strlit(", ");
    reveal_strlit("void 0");
    reveal_strlit("undefined");
    reveal_strlit("!0");
    reveal_strlit("true");
    reveal_strlit("!1");
    reveal_strlit("false");
    reveal_strlit("");
    reveal_strlit(" ");
    reveal_strlit("?");
    reveal_strlit(" ? ");
    reveal_strlit(":");
    reveal_strlit(" : ");
    reveal_strlit("=>");
    reveal_strlit(" => ");
    reveal_strlit("){");
    reveal_strlit(") {");
    reveal_strlit(": ");
    reveal_strlit("]:");
    reveal_strlit("]: ");
    reveal_strlit("=");
    reveal_strlit(" = ");
    reveal_strlit("if(");
    reveal_strlit("if (");
    reveal_strlit(")");
    reveal_strlit(") ");
    reveal_strlit("while(");
    reveal_strlit("while (");
    reveal_strlit("for(");
    reveal_strlit("for (");
    reveal_strlit(";");
    reveal_strlit("; ");
    reveal_strlit("{");
    reveal_strlit(" {");
}

proof fn lemma_literal(l: LiteralValue)
    ensures
        literal_code(l, true).len() <= literal_code(l, false).len(),
{
    lemma_short_forms();
}

proof fn lemma_params(s: Seq<Parameter>)
    ensures
        params_code(s, true).len() <= params_code(s, false).len(),
    decreases s.len(),
{
    lemma_short_forms();
    if s.len() > 0 {
        lemma_params(s.subrange(0, s.len() - 1));
    }
}

proof fn lemma_expr(e: Expression, d1: nat, d2: nat)
    ensures
        expr_code(e, true, d1) == expr_code(e, true, d2),
        expr_code(e, true, d1).len() <= expr_code(e, false, d2).len(),
    decreases e,
{
    lemma_short_forms();
    match e {
        Expression::Literal(l) => lemma_literal(l),
        Expression::Array(items) => lemma_exprs(items@, d1, d2),
        Expression::Sequence(items) => lemma_exprs(items@, d1, d2),
        Expression::Object(members) => lemma_members(members@, d1 + 1, d2 + 1),
        Expression::Member { object, property } => {
            lemma_expr(*object, d1, d2);
            lemma_key(*property, d1, d2);
        },
        Expression::Call { callee, arguments } => {
            lemma_expr(*callee, d1, d2);
            lemma_exprs(arguments@, d1, d2);
        },
        Expression::Binary { left, right, .. } => {
            lemma_expr(*left, d1, d2);
            lemma_expr(*right, d1, d2);
        },
        Expression::Prefix { operand, .. } => lemma_expr(*operand, d1, d2),
        Expression::Postfix { operand, .. } => lemma_expr(*operand, d1, d2),
        Expression::Conditional { test, consequent, alternate } => {
            lemma_expr(*test, d1, d2);
            lemma_expr(*consequent, d1, d2);
            lemma_expr(*alternate, d1, d2);
        },
        Expression::ArrowFunction { params, body } => {
            lemma_params(params@);
            match *body {
                Statement::Expression { value } => lemma_expr(value, d1, d2),
                _ => lemma_stmt(*body, d1, d2),
            }
        },
        Expression::Function { params, body, .. } => {
            lemma_params(params@);
            lemma_stmts(body@, d1 + 1, d2 + 1);
        },
        _ => {},
    }
}

proof fn lemma_exprs(s: Seq<Expression>, d1: nat, d2: nat)
    ensures
        exprs_code(s, true, d1) == exprs_code(s, true, d2),
        exprs_code(s, true, d1).len() <= exprs_code(s, false, d2).len(),
    decreases s,
{
    lemma_short_forms();
    if s.len() > 0 {
        lemma_exprs(s.subrange(0, s.len() - 1), d1, d2);
        lemma_expr(s[s.len() - 1], d1, d2);
    }
}

proof fn lemma_members(s: Seq<ObjectMember>, d1: nat, d2: nat)
    ensures
        members_code(s, true, d1) == members_code(s, true, d2),
        members_code(s, true, d1).len() <= members_code(s, false, d2).len(),
    decreases s,
{
    if s.len() > 0 {
        lemma_members(s.subrange(0, s.len() - 1), d1, d2);
        lemma_member(s[s.len() - 1], d1, d2);
    }
}

proof fn lemma_member(o: ObjectMember, d1: nat, d2: nat)
    ensures
        member_code(o, true, d1) == member_code(o, true, d2),
        member_code(o, true, d1).len() <= member_code(o, false, d2).len(),
    decreases o,
{
    lemma_short_forms();
    match o {
        ObjectMember::Shorthand { .. } => {},
        ObjectMember::Literal { value, .. } => lemma_expr(value, d1, d2),
        ObjectMember::Computed { key, value } => {
            lemma_expr(key, d1, d2);
            lemma_expr(value, d1, d2);
        },
        ObjectMember::Method { params, body, .. } => {
            lemma_params(params@);
            lemma_stmts(body@, d1 + 1, d2 + 1);
        },
        ObjectMember::ComputedMethod { name, params, body } => {
            lemma_expr(name, d1, d2);
            lemma_params(params@);
            lemma_stmts(body@, d1 + 1, d2 + 1);
        },
    }
}

proof fn lemma_key(k: MemberKey, d1: nat, d2: nat)
    ensures
        key_code(k, true, d1) == key_code(k, true, d2),
        key_code(k, true, d1).len() <= key_code(k, false, d2).len(),
    decreases k,
{
    match k {
        MemberKey::Literal(..) => {},
        MemberKey::Computed(expr) => lemma_expr(expr, d1, d2),
    }
}

proof fn lemma_declarator(v: VariableDeclarator, d1: nat, d2: nat)
    ensures
        declarator_code(v, true, d1) == declarator_code(v, true, d2),
        declarator_code(v, true, d1).len() <= declarator_code(v, false, d2).len(),
    decreases v,
{
    lemma_short_forms();
    match v.value {
        Some(value) => lemma_expr(value, d1, d2),
        None => {},
    }
}

proof fn lemma_decls(s: Seq<VariableDeclarator>, d1: nat, d2: nat)
    ensures
        decls_code(s, true, d1) == decls_code(s, true, d2),
        decls_code(s, true, d1).len() <= decls_code(s, false, d2).len(),
    decreases s,
{
    lemma_short_forms();
    if s.len() > 0 {
        lemma_decls(s.subrange(0, s.len() - 1), d1, d2);
        lemma_declarator(s[s.len() - 1], d1, d2);
    }
}

proof fn lemma_init(s: Statement, d1: nat, d2: nat)
    ensures
        init_code(s, true, d1) == init_code(s, true, d2),
        init_code(s, true, d1).len() <= init_code(s, false, d2).len(),
    decreases s,
{
    match s {
        Statement::VariableDeclaration { declarators, .. } => lemma_decls(declarators@, d1, d2),
        Statement::Expression { value } => lemma_expr(value, d1, d2),
        _ => {},
    }
}

proof fn lemma_optional(o: Option<Expression>, d1: nat, d2: nat)
    ensures
        optional_code(o, true, d1) == optional_code(o, true, d2),
        optional_code(o, true, d1).len() <= optional_code(o, false, d2).len(),
    decreases o,
{
    match o {
        Some(e) => lemma_expr(e, d1, d2),
        None => {},
    }
}

proof fn lemma_stmt(s: Statement, d1: nat, d2: nat)
    ensures
        stmt_code(s, true, d1) == stmt_code(s, true, d2),
        stmt_code(s, true, d1).len() <= stmt_code(s, false, d2).len(),
    decreases s,
{
    lemma_short_forms();
    match s {
        Statement::Labeled { body, .. } => lemma_stmt(*body, d1, d2),
        Statement::Block { body } => lemma_stmts(body@, d1 + 1, d2 + 1),
        Statement::Expression { value } => lemma_expr(value, d1, d2),
        Statement::Return { value } => match value {
            Some(v) => lemma_expr(v, d1, d2),
            None => {},
        },
        Statement::Break { .. } => {},
        Statement::VariableDeclaration { declarators, .. } => lemma_decls(declarators@, d1, d2),
        Statement::Function { params, body, .. } => {
            lemma_params(params@);
            lemma_stmts(body@, d1 + 1, d2 + 1);
        },
        Statement::If { test, consequent, alternate } => {
            lemma_expr(test, d1, d2);
            lemma_stmt(*consequent, d1, d2);
            match alternate {
                Some(a) => lemma_stmt(*a, d1, d2),
                None => {},
            }
        },
        Statement::While { test, body } => {
            lemma_expr(test, d1, d2);
            lemma_stmt(*body, d1, d2);
        },
        Statement::For { init, test, update, body } => {
            match init {
                Some(i) => lemma_init(*i, d1, d2),
                None => {},
            }
            lemma_optional(test, d1, d2);
            lemma_optional(update, d1, d2);
            lemma_stmt(*body, d1, d2);
        },
        Statement::ForIn { left, right, body } => {
            lemma_init(*left, d1, d2);
            lemma_expr(right, d1, d2);
            lemma_stmt(*body, d1, d2);
        },
        Statement::ForOf { left, right, body } => {
            lemma_init(*left, d1, d2);
            lemma_expr(right, d1, d2);
            lemma_stmt(*body, d1, d2);
        },
        Statement::Class { body, .. } => lemma_class(body@, d1 + 1, d2 + 1),
    }
}

proof fn lemma_stmts(s: Seq<Statement>, d1: nat, d2: nat)
    ensures
        stmts_lines(s, true, d1) == stmts_lines(s, true, d2),
        stmts_lines(s, true, d1).len() <= stmts_lines(s, false, d2).len(),
    decreases s,
{
    if s.len() > 0 {
        lemma_stmts(s.subrange(0, s.len() - 1), d1, d2);
        lemma_stmt(s[s.len() - 1], d1, d2);
    }
}

proof fn lemma_class(s: Seq<ClassMember>, d1: nat, d2: nat)
    ensures
        class_lines(s, true, d1) == class_lines(s, true, d2),
        class_lines(s, true, d1).len() <= class_lines(s, false, d2).len(),
    decreases s,
{
    if s.len() > 0 {
        lemma_class(s.subrange(0, s.len() - 1), d1, d2);
        lemma_class_member(s[s.len() - 1], d1, d2);
    }
}

proof fn lemma_class_member(c: ClassMember, d1: nat, d2: nat)
    ensures
        class_member_code(c, true, d1) == class_member_code(c, true, d2),
        class_member_code(c, true, d1).len() <= class_member_code(c, false, d2).len(),
    decreases c,
{
    lemma_short_forms();
    match c {
        ClassMember::Constructor { params, body } => {
            lemma_params(params@);
            lemma_stmts(body@, d1 + 1, d2 + 1);
        },
        ClassMember::Method { params, body, .. } => {
            lemma_params(params@);
            lemma_stmts(body@, d1 + 1, d2 + 1);
        },
        ClassMember::Property { value, .. } => lemma_expr(value, d1, d2),
    }
}

/// Minified code carries no indentation: an expression minified at any two
/// indentation levels gives the same text.
pub proof fn law_minified_expression_ignores_indentation(e: Expression, d1: nat, d2: nat)
    ensures
        expr_code(e, true, d1) == expr_code(e, true, d2),
{
    lemma_expr(e, d1, d2);
}

/// Minifying never lengthens an expression, whatever the indentation levels
/// of the two texts.
pub proof fn law_minified_expression_not_longer(e: Expression, d1: nat, d2: nat)
    ensures
        expr_code(e, true, d1).len() <= expr_code(e, false, d2).len(),
{
    lemma_expr(e, d1, d2);
}

/// Minifying never lengthens a statement, whatever the indentation levels
/// of the two texts.
pub proof fn law_minified_statement_not_longer(s: Statement, d1: nat, d2: nat)
    ensures
        stmt_code(s, true, d1).len() <= stmt_code(s, false, d2).len(),
{
    lemma_stmt(s, d1, d2);
}

/// Operator tokens are non-empty runs of visible ASCII characters (so they
/// hold no whitespace), and different operators have different tokens.
pub proof fn law_operator_tokens(a: OperatorType, b: OperatorType)
    ensures
        operator_text(a).len() > 0,
        forall|i: int| 0 <= i < operator_text(a).len() ==> visible(#[trigger] operator_text(a)[i]),
        a != b ==> operator_text(a) != operator_text(b),
{
    lemma_operator_token(a);
    lemma_operator_token(b);
    lemma_visible_upto(operator_text(a), operator_text(a).len() as int);
}

/// Pretty printing an expression one level deeper gives the same text with
/// four more spaces after every line break, provided no name, label, key or
/// float text in it holds a line break of its own. The quoted-text condition
/// holds of every tree that has been printed (`to_code` ensures it).
pub proof fn law_pretty_expression_one_level_deeper(e: Expression, d: nat)
    requires
        flat_expr(e),
        quoted_expr(e),
    ensures
        expr_code(e, false, d + 1) == deepen(expr_code(e, false, d)),
{
    layout_expr(e, d);
}

/// Pretty printing a statement one level deeper gives the same text with
/// four more spaces after every line break, provided no name, label, key or
/// float text in it holds a line break of its own. The quoted-text condition
/// holds of every tree that has been printed (`to_code` ensures it).
pub proof fn law_pretty_statement_one_level_deeper(s: Statement, d: nat)
    requires
        flat_stmt(s),
        quoted_stmt(s),
    ensures
        stmt_code(s, false, d + 1) == deepen(stmt_code(s, false, d)),
{
    layout_stmt(s, d);
}

/// Minified code of an expression holds no line break, provided no name,
/// label, key or float text in it holds one. The quoted-text condition holds
/// of every tree that has been printed (`to_code` ensures it).
pub proof fn law_minified_expression_no_line_break(e: Expression, d: nat)
    requires
        flat_expr(e),
        quoted_expr(e),
    ensures
        plain(expr_code(e, true, d)),
{
    layout_expr(e, d);
}

/// Minified code of a statement holds no line break, provided no name,
/// label, key or float text in it holds one. The quoted-text condition holds
/// of every tree that has been printed (`to_code` ensures it).
pub proof fn law_minified_statement_no_line_break(s: Statement, d: nat)
    requires
        flat_stmt(s),
        quoted_stmt(s),
    ensures
        plain(stmt_code(s, true, d)),
{
    layout_stmt(s, d);
}

/// A minified program holds no line break, provided no name, label, key or
/// float text in it holds one. The quoted-text condition holds of every
/// program that has been printed (`generate_code` ensures it).
pub proof fn law_minified_program_no_line_break(program: Program)
    requires
        flat_stmts(program.body@),
        quoted_stmts(program.body@),
    ensures
        plain(program_code(program.body@, true)),
{
    layout_program(program.body@);
}

/// Minified code carries no indentation: a statement minified at any two
/// indentation levels gives the same text.
pub proof fn law_minified_ignores_indentation(s: Statement, d1: nat, d2: nat)
    ensures
        stmt_code(s, true, d1) == stmt_code(s, true, d2),
{
    lemma_stmt(s, d1, d2);
}

/// Minifying never lengthens a program: its minified code is at most as long
/// as its pretty code.
pub proof fn law_minified_not_longer(program: Program)
    ensures
        program_code(program.body@, true).len() <= program_code(program.body@, false).len(),
{
    lemma_program(program.body@);
}

proof fn lemma_program(s: Seq<Statement>)
    ensures
        program_code(s, true).len() <= program_code(s, false).len(),
    decreases s.len(),
{
    if s.len() > 0 {
        lemma_program(s.subrange(0, s.len() - 1));
        lemma_stmt(s[s.len() - 1], 0, 0);
    }
}

} // verus!
