//! Line breaks in printed code: which texts hold none, and what printing one
//! level deeper does to a text.

use vstd::prelude::*;

use crate::ast::ClassMember;
use crate::ast::Expression;
use crate::ast::LiteralValue;
use crate::ast::MemberKey;
use crate::ast::ObjectMember;
use crate::ast::OperatorType;
use crate::ast::Parameter;
use crate::ast::Statement;
use crate::ast::VariableDeclarator;
use crate::ast::VariableDeclarationKind;
use crate::render::class_lines;
use crate::render::class_member_code;
use crate::render::declarator_code;
use crate::render::decls_code;
use crate::render::expr_code;
use crate::render::exprs_code;
use crate::render::init_code;
use crate::render::key_code;
use crate::render::kind_text;
use crate::render::label_key;
use crate::render::literal_code;
use crate::render::member_code;
use crate::render::members_code;
use crate::render::optional_code;
use crate::render::params_code;
use crate::render::sep_before;
use crate::render::stmt_code;
use crate::render::stmts_lines;
use crate::text::debug_quoted;
use crate::text::identifier_text;
use crate::generator::indent_unit;
use crate::generator::newline;
use crate::generator::pad;
use crate::number::digits;
use crate::number::decimal;
use crate::render::operator_text;
use crate::render::program_code;
use crate::tokens::lemma_operator_token;
use crate::tokens::lemma_visible_upto;

verus! {

/// `s` holds no line break.
#[verifier::opaque]
pub open spec fn plain(s: Seq<char>) -> bool {
    forall|i: int| 0 <= i < s.len() ==> #[trigger] s[i] != '\n'
}

/// The first `n` characters of `s` hold no line break.
pub open spec fn plain_upto(s: Seq<char>, n: int) -> bool
    decreases n,
{
    if n <= 0 {
        true
    } else {
        plain_upto(s, n - 1) && s[n - 1] != '\n'
    }
}

/// `s` with four more spaces after each of its line breaks: the text one
/// level deeper.
#[verifier::opaque]
pub open spec fn deepen(s: Seq<char>) -> Seq<char>
    decreases s.len(),
{
    if s.len() == 0 {
        s
    } else {
        deepen(s.drop_last()) + if s.last() == '\n' {
            seq!['\n'] + indent_unit()
        } else {
            seq![s.last()]
        }
    }
}


/// A float literal's text holds no line break.
pub open spec fn flat_literal(l: LiteralValue) -> bool {
    match l {
        LiteralValue::LiteralFloat(text) => plain(text@),
        _ => true,
    }
}

/// No parameter name holds a line break.
pub open spec fn flat_params(s: Seq<Parameter>) -> bool {
    forall|i: int| 0 <= i < s.len() ==> plain(#[trigger] s[i].name@)
}

/// The optional name holds no line break.
pub open spec fn flat_name(n: Option<String>) -> bool {
    match n {
        Some(name) => plain(name@),
        None => true,
    }
}

/// No name, label, key or float text in the expression holds a line break.
pub open spec fn flat_expr(e: Expression) -> bool
    decreases e,
{
    match e {
        Expression::This => true,
        Expression::Identifier(ident) => plain(ident@),
        Expression::Literal(literal) => flat_literal(literal),
        Expression::Array(items) => flat_exprs(items@),
        Expression::Sequence(items) => flat_exprs(items@),
        Expression::Object(members) => flat_members(members@),
        Expression::Member { object, property } => flat_expr(*object) && flat_key(*property),
        Expression::Call { callee, arguments } => flat_expr(*callee) && flat_exprs(arguments@),
        Expression::Binary { left, right, .. } => flat_expr(*left) && flat_expr(*right),
        Expression::Prefix { operand, .. } => flat_expr(*operand),
        Expression::Postfix { operand, .. } => flat_expr(*operand),
        Expression::Conditional { test, consequent, alternate } => flat_expr(*test) && flat_expr(
            *consequent,
        ) && flat_expr(*alternate),
        Expression::ArrowFunction { params, body } => flat_params(params@) && match *body {
            Statement::Expression { value } => flat_expr(value),
            _ => flat_stmt(*body),
        },
        Expression::Function { name, params, body } => flat_name(name) && flat_params(params@)
            && flat_stmts(body@),
    }
}

/// Every expression of the list is flat.
pub open spec fn flat_exprs(s: Seq<Expression>) -> bool
    decreases s,
{
    forall|i: int| 0 <= i < s.len() ==> flat_expr(#[trigger] s[i])
}

/// Every object member of the list is flat.
pub open spec fn flat_members(s: Seq<ObjectMember>) -> bool
    decreases s,
{
    forall|i: int| 0 <= i < s.len() ==> flat_member(#[trigger] s[i])
}

/// No name, key or float text in the object member holds a line break.
pub open spec fn flat_member(o: ObjectMember) -> bool
    decreases o,
{
    match o {
        ObjectMember::Shorthand { key } => plain(key@),
        ObjectMember::Literal { key, value } => plain(key@) && flat_expr(value),
        ObjectMember::Computed { key, value } => flat_expr(key) && flat_expr(value),
        ObjectMember::Method { name, params, body } => plain(name@) && flat_params(params@)
            && flat_stmts(body@),
        ObjectMember::ComputedMethod { name, params, body } => flat_expr(name) && flat_params(
            params@,
        ) && flat_stmts(body@),
    }
}

/// The member key is flat.
pub open spec fn flat_key(k: MemberKey) -> bool
    decreases k,
{
    match k {
        MemberKey::Literal(name) => plain(name@),
        MemberKey::Computed(expr) => flat_expr(expr),
    }
}

/// The declarator is flat.
pub open spec fn flat_declarator(v: VariableDeclarator) -> bool
    decreases v,
{
    plain(v.name@) && match v.value {
        Some(value) => flat_expr(value),
        None => true,
    }
}

/// Every declarator of the list is flat.
pub open spec fn flat_decls(s: Seq<VariableDeclarator>) -> bool
    decreases s,
{
    forall|i: int| 0 <= i < s.len() ==> flat_declarator(#[trigger] s[i])
}

/// No name, label, key or float text in the statement holds a line break.
pub open spec fn flat_stmt(s: Statement) -> bool
    decreases s,
{
    match s {
        Statement::Labeled { label, body } => plain(label@) && flat_stmt(*body),
        Statement::Block { body } => flat_stmts(body@),
        Statement::Expression { value } => flat_expr(value),
        Statement::Return { value } => match value {
            Some(v) => flat_expr(v),
            None => true,
        },
        Statement::Break { label } => flat_name(label),
        Statement::VariableDeclaration { declarators, .. } => flat_decls(declarators@),
        Statement::Function { name, params, body } => plain(name@) && flat_params(params@)
            && flat_stmts(body@),
        Statement::If { test, consequent, alternate } => flat_expr(test) && flat_stmt(*consequent)
            && match alternate {
            Some(a) => flat_stmt(*a),
            None => true,
        },
        Statement::While { test, body } => flat_expr(test) && flat_stmt(*body),
        Statement::For { init, test, update, body } => (match init {
            Some(i) => flat_stmt(*i),
            None => true,
        }) && (match test {
            Some(t) => flat_expr(t),
            None => true,
        }) && (match update {
            Some(u) => flat_expr(u),
            None => true,
        }) && flat_stmt(*body),
        Statement::ForIn { left, right, body } => flat_stmt(*left) && flat_expr(right) && flat_stmt(
            *body,
        ),
        Statement::ForOf { left, right, body } => flat_stmt(*left) && flat_expr(right) && flat_stmt(
            *body,
        ),
        Statement::Class { name, extends, body } => plain(name@) && flat_name(extends)
            && flat_class(body@),
    }
}

/// Every statement of the list is flat.
pub open spec fn flat_stmts(s: Seq<Statement>) -> bool
    decreases s,
{
    forall|i: int| 0 <= i < s.len() ==> flat_stmt(#[trigger] s[i])
}

/// Every class member of the list is flat.
pub open spec fn flat_class(s: Seq<ClassMember>) -> bool
    decreases s,
{
    forall|i: int| 0 <= i < s.len() ==> flat_class_member(#[trigger] s[i])
}

/// No name or float text in the class member holds a line break.
pub open spec fn flat_class_member(c: ClassMember) -> bool
    decreases c,
{
    match c {
        ClassMember::Constructor { params, body } => flat_params(params@) && flat_stmts(body@),
        ClassMember::Method { name, params, body, .. } => plain(name@) && flat_params(params@)
            && flat_stmts(body@),
        ClassMember::Property { name, value, .. } => plain(name@) && flat_expr(value),
    }
}

/// A string literal's quoted text holds no line break.
pub open spec fn quoted_literal(l: LiteralValue) -> bool {
    match l {
        LiteralValue::LiteralString(string) => plain(debug_quoted(string@)),
        _ => true,
    }
}

/// No quoted text the expression prints (string literals, keys that are not
/// identifiers) holds a line break. Printing the expression establishes it.
pub open spec fn quoted_expr(e: Expression) -> bool
    decreases e,
{
    match e {
        Expression::Literal(literal) => quoted_literal(literal),
        Expression::Array(items) => quoted_exprs(items@),
        Expression::Sequence(items) => quoted_exprs(items@),
        Expression::Object(members) => quoted_members(members@),
        Expression::Member { object, property } => quoted_expr(*object) && quoted_key(*property),
        Expression::Call { callee, arguments } => quoted_expr(*callee) && quoted_exprs(arguments@),
        Expression::Binary { left, right, .. } => quoted_expr(*left) && quoted_expr(*right),
        Expression::Prefix { operand, .. } => quoted_expr(*operand),
        Expression::Postfix { operand, .. } => quoted_expr(*operand),
        Expression::Conditional { test, consequent, alternate } => quoted_expr(*test)
            && quoted_expr(*consequent) && quoted_expr(*alternate),
        Expression::ArrowFunction { body, .. } => match *body {
            Statement::Expression { value } => quoted_expr(value),
            _ => quoted_stmt(*body),
        },
        Expression::Function { body, .. } => quoted_stmts(body@),
        _ => true,
    }
}

/// Every expression of the list meets `quoted_expr`.
pub open spec fn quoted_exprs(s: Seq<Expression>) -> bool
    decreases s,
{
    forall|i: int| 0 <= i < s.len() ==> quoted_expr(#[trigger] s[i])
}

/// Every object member of the list meets `quoted_member`.
pub open spec fn quoted_members(s: Seq<ObjectMember>) -> bool
    decreases s,
{
    forall|i: int| 0 <= i < s.len() ==> quoted_member(#[trigger] s[i])
}

/// No quoted text the object member prints holds a line break.
pub open spec fn quoted_member(o: ObjectMember) -> bool
    decreases o,
{
    match o {
        ObjectMember::Shorthand { .. } => true,
        ObjectMember::Literal { key, value } => (identifier_text(key@) || plain(
            debug_quoted(key@),
        )) && quoted_expr(value),
        ObjectMember::Computed { key, value } => quoted_expr(key) && quoted_expr(value),
        ObjectMember::Method { body, .. } => quoted_stmts(body@),
        ObjectMember::ComputedMethod { name, body, .. } => quoted_expr(name) && quoted_stmts(body@),
    }
}

/// No quoted text the member key prints holds a line break.
pub open spec fn quoted_key(k: MemberKey) -> bool
    decreases k,
{
    match k {
        MemberKey::Literal(..) => true,
        MemberKey::Computed(expr) => quoted_expr(expr),
    }
}

/// No quoted text the declarator prints holds a line break.
pub open spec fn quoted_declarator(v: VariableDeclarator) -> bool
    decreases v,
{
    match v.value {
        Some(value) => quoted_expr(value),
        None => true,
    }
}

/// Every declarator of the list meets `quoted_declarator`.
pub open spec fn quoted_decls(s: Seq<VariableDeclarator>) -> bool
    decreases s,
{
    forall|i: int| 0 <= i < s.len() ==> quoted_declarator(#[trigger] s[i])
}

/// No quoted text the statement prints holds a line break. Printing the
/// statement establishes it.
pub open spec fn quoted_stmt(s: Statement) -> bool
    decreases s,
{
    match s {
        Statement::Labeled { body, .. } => quoted_stmt(*body),
        Statement::Block { body } => quoted_stmts(body@),
        Statement::Expression { value } => quoted_expr(value),
        Statement::Return { value } => match value {
            Some(v) => quoted_expr(v),
            None => true,
        },
        Statement::Break { .. } => true,
        Statement::VariableDeclaration { declarators, .. } => quoted_decls(declarators@),
        Statement::Function { body, .. } => quoted_stmts(body@),
        Statement::If { test, consequent, alternate } => quoted_expr(test) && quoted_stmt(
            *consequent,
        ) && match alternate {
            Some(a) => quoted_stmt(*a),
            None => true,
        },
        Statement::While { test, body } => quoted_expr(test) && quoted_stmt(*body),
        Statement::For { init, test, update, body } => (match init {
            Some(i) => quoted_stmt(*i),
            None => true,
        }) && (match test {
            Some(t) => quoted_expr(t),
            None => true,
        }) && (match update {
            Some(u) => quoted_expr(u),
            None => true,
        }) && quoted_stmt(*body),
        Statement::ForIn { left, right, body } => quoted_stmt(*left) && quoted_expr(right)
            && quoted_stmt(*body),
        Statement::ForOf { left, right, body } => quoted_stmt(*left) && quoted_expr(right)
            && quoted_stmt(*body),
        Statement::Class { body, .. } => quoted_class(body@),
    }
}

/// Every statement of the list meets `quoted_stmt`.
pub open spec fn quoted_stmts(s: Seq<Statement>) -> bool
    decreases s,
{
    forall|i: int| 0 <= i < s.len() ==> quoted_stmt(#[trigger] s[i])
}

/// Every class member of the list meets `quoted_class_member`.
pub open spec fn quoted_class(s: Seq<ClassMember>) -> bool
    decreases s,
{
    forall|i: int| 0 <= i < s.len() ==> quoted_class_member(#[trigger] s[i])
}

/// No quoted text the class member prints holds a line break.
pub open spec fn quoted_class_member(c: ClassMember) -> bool
    decreases c,
{
    match c {
        ClassMember::Constructor { body, .. } => quoted_stmts(body@),
        ClassMember::Method { body, .. } => quoted_stmts(body@),
        ClassMember::Property { value, .. } => quoted_expr(value),
    }
}

/// A class body whose first `i` members meet `quoted_class_member`, and whose
/// member `i` does too, has its first `i + 1` members meeting it.
pub proof fn lemma_quoted_class_step(s: Seq<ClassMember>, i: int)
    requires
        0 <= i < s.len(),
        quoted_class(s.subrange(0, i)),
        quoted_class_member(s[i]),
    ensures
        quoted_class(s.subrange(0, i + 1)),
{
    assert forall|j: int| 0 <= j < i + 1 implies quoted_class_member(
        #[trigger] s.subrange(0, i + 1)[j],
    ) by {
        if j < i {
            assert(s.subrange(0, i + 1)[j] == s.subrange(0, i)[j]);
        }
    }
}

/// A text whose characters are all other than a line break is plain.
pub proof fn lemma_plain_from_chars(s: Seq<char>)
    requires
        forall|i: int| 0 <= i < s.len() ==> s[i] != '\n',
    ensures
        plain(s),
{
    reveal(plain);
}

proof fn lemma_plain_upto(s: Seq<char>, n: int)
    requires
        0 <= n <= s.len(),
        plain_upto(s, n),
    ensures
        forall|i: int| 0 <= i < n ==> s[i] != '\n',
    decreases n,
{
    if n > 0 {
        lemma_plain_upto(s, n - 1);
    }
}

/// A text without line breaks joined to another has line breaks only where
/// the parts have them.
pub broadcast proof fn lemma_plain_append(a: Seq<char>, b: Seq<char>)
    ensures
        #[trigger] plain(a + b) == (plain(a) && plain(b)),
{
    reveal(plain);
    if plain(a) && plain(b) {
        assert forall|i: int| 0 <= i < (a + b).len() implies (a + b)[i] != '\n' by {
            if i >= a.len() {
                assert((a + b)[i] == b[i - a.len()]);
            }
        }
    }
    if plain(a + b) {
        assert forall|i: int| 0 <= i < a.len() implies a[i] != '\n' by {
            assert((a + b)[i] == a[i]);
        }
        assert forall|i: int| 0 <= i < b.len() implies b[i] != '\n' by {
            assert((a + b)[i + a.len()] == b[i]);
        }
    }
}

/// The empty text holds no line break.
pub broadcast proof fn lemma_plain_empty(s: Seq<char>)
    requires
        s.len() == 0,
    ensures
        #[trigger] plain(s),
{
    reveal(plain);
}

/// One character holds a line break only when it is one.
pub broadcast proof fn lemma_plain_char(c: char)
    ensures
        #[trigger] plain(seq![c]) == (c != '\n'),
{
    reveal(plain);
    if c == '\n' {
        assert(seq![c][0] == '\n');
    }
}

/// Deepening a joined text deepens each part.
pub broadcast proof fn lemma_deepen_append(a: Seq<char>, b: Seq<char>)
    ensures
        #[trigger] deepen(a + b) == deepen(a) + deepen(b),
    decreases b.len(),
{
    reveal(deepen);
    if b.len() == 0 {
        assert(a + b =~= a);
        assert(deepen(b) =~= Seq::<char>::empty());
        assert(deepen(a) + deepen(b) =~= deepen(a));
    } else {
        assert((a + b).drop_last() =~= a + b.drop_last());
        assert((a + b).last() == b.last());
        lemma_deepen_append(a, b.drop_last());
        assert(deepen(a + b) =~= deepen(a) + deepen(b));
    }
}

/// Deepening leaves a text without line breaks as it is.
pub broadcast proof fn lemma_deepen_plain(s: Seq<char>)
    requires
        plain(s),
    ensures
        #[trigger] deepen(s) == s,
    decreases s.len(),
{
    reveal(deepen);
    reveal(plain);
    if s.len() > 0 {
        assert(plain(s.drop_last()));
        lemma_deepen_plain(s.drop_last());
        assert(s.drop_last() + seq![s.last()] =~= s);
    }
}

/// Deepening one character.
pub broadcast proof fn lemma_deepen_char(c: char)
    ensures
        #[trigger] deepen(seq![c]) == if c == '\n' {
            seq!['\n'] + indent_unit()
        } else {
            seq![c]
        },
{
    reveal(deepen);
    assert(seq![c].drop_last() =~= Seq::<char>::empty());
    assert(seq![c].last() == c);
    assert(deepen(Seq::<char>::empty()) == Seq::<char>::empty());
    assert(Seq::<char>::empty() + seq![c] =~= seq![c]);
    assert(Seq::<char>::empty() + (seq!['\n'] + indent_unit()) =~= seq!['\n'] + indent_unit());
}

proof fn lemma_pad(d: nat)
    ensures
        plain(pad(d)),
        indent_unit() + pad(d) == pad(d + 1),
    decreases d,
{
    reveal(plain);
    broadcast use lemma_plain_append;

    if d == 0 {
        assert(indent_unit() + pad(0) =~= pad(1));
    } else {
        lemma_pad((d - 1) as nat);
        assert(indent_unit() + pad(d) =~= pad(d + 1));
    }
}

/// A line break one level deeper is the line break deepened.
pub broadcast proof fn lemma_deepen_newline(d: nat)
    ensures
        #[trigger] deepen(newline(false, d)) == newline(false, d + 1),
        plain(newline(true, d)),
{
    lemma_plain_empty(newline(true, d));
    lemma_pad(d);
    lemma_deepen_append(seq!['\n'], pad(d));
    lemma_deepen_char('\n');
    lemma_deepen_plain(pad(d));
    assert(deepen(newline(false, d)) == (seq!['\n'] + indent_unit()) + pad(d));
    assert((seq!['\n'] + indent_unit()) + pad(d) =~= seq!['\n'] + (indent_unit() + pad(d)));
    assert(newline(true, d) =~= Seq::<char>::empty());
}

proof fn lemma_digits(n: nat)
    ensures
        plain(digits(n)),
    decreases n,
{
    broadcast use lemma_plain_empty, lemma_plain_append, lemma_plain_char;

    if n >= 10 {
        lemma_digits(n / 10);
        assert(digits(n) =~= digits(n / 10) + seq![crate::number::digit_char(n % 10)]);
    }
}

/// Decimal text holds no line break.
pub proof fn lemma_decimal(i: int)
    ensures
        plain(decimal(i)),
{
    broadcast use lemma_plain_empty, lemma_plain_append, lemma_plain_char;

    if i < 0 {
        lemma_digits((-i) as nat);
    } else {
        lemma_digits(i as nat);
    }
}

/// No operator token holds a line break.
pub proof fn lemma_operator_plain(op: OperatorType)
    ensures
        plain(operator_text(op)),
{
    reveal(plain);
    lemma_operator_token(op);
    lemma_visible_upto(operator_text(op), operator_text(op).len() as int);
}


proof fn lemma_kind_plain(k: VariableDeclarationKind)
    ensures
        plain(kind_text(k)),
{
    lemma_literals();
}

proof fn lemma_literal_plain(l: LiteralValue, m: bool)
    requires
        flat_literal(l),
        quoted_literal(l),
    ensures
        plain(literal_code(l, m)),
{
    lemma_literals();
    match l {
        LiteralValue::LiteralInteger(n) => lemma_decimal(n as int),
        _ => {},
    }
}

proof fn lemma_params_plain(s: Seq<Parameter>, m: bool)
    requires
        flat_params(s),
    ensures
        plain(params_code(s, m)),
    decreases s.len(),
{
    broadcast use lemma_plain_append;

    lemma_literals();
    if s.len() > 0 {
        let prefix = s.subrange(0, s.len() - 1);
        assert forall|i: int| 0 <= i < prefix.len() implies plain(#[trigger] prefix[i].name@) by {
            assert(prefix[i] == s[i]);
        }
        lemma_params_plain(prefix, m);
        assert(plain(sep_before(m, s.len()))) by {
            if s.len() > 1 {
                if m {
                    assert(sep_before(m, s.len()) == ","@);
                } else {
                    assert(sep_before(m, s.len()) == ", "@);
                }
            } else {
                lemma_plain_empty(sep_before(m, s.len()));
            }
        }
        assert(plain(s[s.len() - 1].name@));
    } else {
        lemma_plain_empty(params_code(s, m));
    }
}

/// Printing an expression one level deeper adds four spaces after each line
/// break, and its minified text holds no line break.
pub(crate) proof fn layout_expr(e: Expression, d: nat)
    requires
        flat_expr(e),
        quoted_expr(e),
    ensures
        expr_code(e, false, d + 1) == deepen(expr_code(e, false, d)),
        plain(expr_code(e, true, d)),
    decreases e,
{
    broadcast use lemma_plain_empty, lemma_plain_append, lemma_plain_char, lemma_deepen_append, lemma_deepen_plain,
        lemma_deepen_char, lemma_deepen_newline;

    lemma_literals();
    match e {
        Expression::Literal(l) => {
            lemma_literal_plain(l, true);
            lemma_literal_plain(l, false);
        },
        Expression::Array(items) => layout_exprs(items@, d),
        Expression::Sequence(items) => layout_exprs(items@, d),
        Expression::Object(members) => layout_members(members@, d + 1),
        Expression::Member { object, property } => {
            layout_expr(*object, d);
            layout_key(*property, d);
        },
        Expression::Call { callee, arguments } => {
            layout_expr(*callee, d);
            layout_exprs(arguments@, d);
        },
        Expression::Binary { left, operator, right } => {
            layout_expr(*left, d);
            layout_expr(*right, d);
            lemma_operator_plain(operator);
        },
        Expression::Prefix { operator, operand } => {
            layout_expr(*operand, d);
            lemma_operator_plain(operator);
        },
        Expression::Postfix { operator, operand } => {
            layout_expr(*operand, d);
            lemma_operator_plain(operator);
        },
        Expression::Conditional { test, consequent, alternate } => {
            layout_expr(*test, d);
            layout_expr(*consequent, d);
            layout_expr(*alternate, d);
        },
        Expression::ArrowFunction { params, body } => {
            lemma_params_plain(params@, true);
            lemma_params_plain(params@, false);
            if params.len() == 1 {
                assert(plain(params@[0].name@));
            }
            match *body {
                Statement::Expression { value } => layout_expr(value, d),
                _ => layout_stmt(*body, d),
            }
        },
        Expression::Function { params, body, .. } => {
            lemma_params_plain(params@, true);
            lemma_params_plain(params@, false);
            layout_stmts(body@, d + 1);
        },
        _ => {},
    }
}

proof fn layout_exprs(s: Seq<Expression>, d: nat)
    requires
        flat_exprs(s),
        quoted_exprs(s),
    ensures
        exprs_code(s, false, d + 1) == deepen(exprs_code(s, false, d)),
        plain(exprs_code(s, true, d)),
    decreases s,
{
    broadcast use lemma_plain_empty, lemma_plain_append, lemma_deepen_append, lemma_deepen_plain;

    lemma_literals();
    if s.len() > 0 {
        let prefix = s.subrange(0, s.len() - 1);
        assert forall|i: int| 0 <= i < prefix.len() implies flat_expr(#[trigger] prefix[i]) by {
            assert(prefix[i] == s[i]);
        }
        assert forall|i: int| 0 <= i < prefix.len() implies quoted_expr(#[trigger] prefix[i]) by {
            assert(prefix[i] == s[i]);
        }
        layout_exprs(prefix, d);
        layout_expr(s[s.len() - 1], d);
    }
}

proof fn layout_members(s: Seq<ObjectMember>, d: nat)
    requires
        flat_members(s),
        quoted_members(s),
    ensures
        members_code(s, false, d + 1) == deepen(members_code(s, false, d)),
        plain(members_code(s, true, d)),
    decreases s,
{
    broadcast use lemma_plain_empty, lemma_plain_append, lemma_plain_char, lemma_deepen_append, lemma_deepen_plain,
        lemma_deepen_char, lemma_deepen_newline;

    if s.len() > 0 {
        let prefix = s.subrange(0, s.len() - 1);
        assert forall|i: int| 0 <= i < prefix.len() implies flat_member(#[trigger] prefix[i]) by {
            assert(prefix[i] == s[i]);
        }
        assert forall|i: int| 0 <= i < prefix.len() implies quoted_member(#[trigger] prefix[i]) by {
            assert(prefix[i] == s[i]);
        }
        layout_members(prefix, d);
        layout_member(s[s.len() - 1], d);
    }
}

proof fn layout_member(o: ObjectMember, d: nat)
    requires
        flat_member(o),
        quoted_member(o),
    ensures
        member_code(o, false, d + 1) == deepen(member_code(o, false, d)),
        plain(member_code(o, true, d)),
    decreases o,
{
    broadcast use lemma_plain_empty, lemma_plain_append, lemma_plain_char, lemma_deepen_append, lemma_deepen_plain,
        lemma_deepen_char, lemma_deepen_newline;

    lemma_literals();
    match o {
        ObjectMember::Shorthand { .. } => {},
        ObjectMember::Literal { key, value } => {
            assert(plain(label_key(key@)));
            layout_expr(value, d);
        },
        ObjectMember::Computed { key, value } => {
            layout_expr(key, d);
            layout_expr(value, d);
        },
        ObjectMember::Method { params, body, .. } => {
            lemma_params_plain(params@, true);
            lemma_params_plain(params@, false);
            layout_stmts(body@, d + 1);
        },
        ObjectMember::ComputedMethod { name, params, body } => {
            layout_expr(name, d);
            lemma_params_plain(params@, true);
            lemma_params_plain(params@, false);
            layout_stmts(body@, d + 1);
        },
    }
}

proof fn layout_key(k: MemberKey, d: nat)
    requires
        flat_key(k),
        quoted_key(k),
    ensures
        key_code(k, false, d + 1) == deepen(key_code(k, false, d)),
        plain(key_code(k, true, d)),
    decreases k,
{
    broadcast use lemma_plain_empty, lemma_plain_append, lemma_plain_char, lemma_deepen_append, lemma_deepen_plain,
        lemma_deepen_char;

    match k {
        MemberKey::Literal(..) => {},
        MemberKey::Computed(expr) => layout_expr(expr, d),
    }
}

proof fn layout_declarator(v: VariableDeclarator, d: nat)
    requires
        flat_declarator(v),
        quoted_declarator(v),
    ensures
        declarator_code(v, false, d + 1) == deepen(declarator_code(v, false, d)),
        plain(declarator_code(v, true, d)),
    decreases v,
{
    broadcast use lemma_plain_empty, lemma_plain_append, lemma_deepen_append, lemma_deepen_plain;

    lemma_literals();
    match v.value {
        Some(value) => layout_expr(value, d),
        None => {},
    }
}

proof fn layout_decls(s: Seq<VariableDeclarator>, d: nat)
    requires
        flat_decls(s),
        quoted_decls(s),
    ensures
        decls_code(s, false, d + 1) == deepen(decls_code(s, false, d)),
        plain(decls_code(s, true, d)),
    decreases s,
{
    broadcast use lemma_plain_empty, lemma_plain_append, lemma_deepen_append, lemma_deepen_plain;

    lemma_literals();
    if s.len() > 0 {
        let prefix = s.subrange(0, s.len() - 1);
        assert forall|i: int| 0 <= i < prefix.len() implies flat_declarator(
            #[trigger] prefix[i],
        ) by {
            assert(prefix[i] == s[i]);
        }
        assert forall|i: int| 0 <= i < prefix.len() implies quoted_declarator(#[trigger] prefix[i]) by {
            assert(prefix[i] == s[i]);
        }
        layout_decls(prefix, d);
        layout_declarator(s[s.len() - 1], d);
    }
}

proof fn layout_init(s: Statement, d: nat)
    requires
        flat_stmt(s),
        quoted_stmt(s),
    ensures
        init_code(s, false, d + 1) == deepen(init_code(s, false, d)),
        plain(init_code(s, true, d)),
    decreases s,
{
    broadcast use lemma_plain_empty, lemma_plain_append, lemma_plain_char, lemma_deepen_append, lemma_deepen_plain,
        lemma_deepen_char;

    match s {
        Statement::VariableDeclaration { kind, declarators } => {
            lemma_kind_plain(kind);
            layout_decls(declarators@, d);
        },
        Statement::Expression { value } => layout_expr(value, d),
        _ => {
            lemma_deepen_plain(Seq::<char>::empty());
        },
    }
}

proof fn layout_optional(o: Option<Expression>, d: nat)
    requires
        match o {
            Some(e) => flat_expr(e),
            None => true,
        },
        match o {
            Some(e) => quoted_expr(e),
            None => true,
        },
    ensures
        optional_code(o, false, d + 1) == deepen(optional_code(o, false, d)),
        plain(optional_code(o, true, d)),
    decreases o,
{
    match o {
        Some(e) => layout_expr(e, d),
        None => {
            lemma_plain_empty(Seq::<char>::empty());
            lemma_deepen_plain(Seq::<char>::empty());
        },
    }
}

/// Printing a statement one level deeper adds four spaces after each line
/// break, and its minified text holds no line break.
pub(crate) proof fn layout_stmt(s: Statement, d: nat)
    requires
        flat_stmt(s),
        quoted_stmt(s),
    ensures
        stmt_code(s, false, d + 1) == deepen(stmt_code(s, false, d)),
        plain(stmt_code(s, true, d)),
    decreases s,
{
    broadcast use lemma_plain_empty, lemma_plain_append, lemma_plain_char, lemma_deepen_append, lemma_deepen_plain,
        lemma_deepen_char, lemma_deepen_newline;

    lemma_literals();
    match s {
        Statement::Labeled { body, .. } => layout_stmt(*body, d),
        Statement::Block { body } => layout_stmts(body@, d + 1),
        Statement::Expression { value } => layout_expr(value, d),
        Statement::Return { value } => match value {
            Some(v) => layout_expr(v, d),
            None => {},
        },
        Statement::Break { .. } => {},
        Statement::VariableDeclaration { kind, declarators } => {
            lemma_kind_plain(kind);
            layout_decls(declarators@, d);
        },
        Statement::Function { params, body, .. } => {
            lemma_params_plain(params@, true);
            lemma_params_plain(params@, false);
            layout_stmts(body@, d + 1);
        },
        Statement::If { test, consequent, alternate } => {
            layout_expr(test, d);
            layout_stmt(*consequent, d);
            match alternate {
                Some(a) => layout_stmt(*a, d),
                None => {},
            }
        },
        Statement::While { test, body } => {
            layout_expr(test, d);
            layout_stmt(*body, d);
        },
        Statement::For { init, test, update, body } => {
            match init {
                Some(i) => layout_init(*i, d),
                None => {},
            }
            layout_optional(test, d);
            layout_optional(update, d);
            layout_stmt(*body, d);
        },
        Statement::ForIn { left, right, body } => {
            layout_init(*left, d);
            layout_expr(right, d);
            layout_stmt(*body, d);
        },
        Statement::ForOf { left, right, body } => {
            layout_init(*left, d);
            layout_expr(right, d);
            layout_stmt(*body, d);
        },
        Statement::Class { body, .. } => layout_class(body@, d + 1),
    }
}

proof fn layout_stmts(s: Seq<Statement>, d: nat)
    requires
        flat_stmts(s),
        quoted_stmts(s),
    ensures
        stmts_lines(s, false, d + 1) == deepen(stmts_lines(s, false, d)),
        plain(stmts_lines(s, true, d)),
    decreases s,
{
    broadcast use lemma_plain_empty, lemma_plain_append, lemma_deepen_append, lemma_deepen_newline;

    if s.len() > 0 {
        let prefix = s.subrange(0, s.len() - 1);
        assert forall|i: int| 0 <= i < prefix.len() implies flat_stmt(#[trigger] prefix[i]) by {
            assert(prefix[i] == s[i]);
        }
        assert forall|i: int| 0 <= i < prefix.len() implies quoted_stmt(#[trigger] prefix[i]) by {
            assert(prefix[i] == s[i]);
        }
        layout_stmts(prefix, d);
        layout_stmt(s[s.len() - 1], d);
    } else {
        lemma_deepen_plain(Seq::<char>::empty());
    }
}

proof fn layout_class(s: Seq<ClassMember>, d: nat)
    requires
        flat_class(s),
        quoted_class(s),
    ensures
        class_lines(s, false, d + 1) == deepen(class_lines(s, false, d)),
        plain(class_lines(s, true, d)),
    decreases s,
{
    broadcast use lemma_plain_empty, lemma_plain_append, lemma_deepen_append, lemma_deepen_newline;

    if s.len() > 0 {
        let prefix = s.subrange(0, s.len() - 1);
        assert forall|i: int| 0 <= i < prefix.len() implies flat_class_member(
            #[trigger] prefix[i],
        ) by {
            assert(prefix[i] == s[i]);
        }
        assert forall|i: int| 0 <= i < prefix.len() implies quoted_class_member(#[trigger] prefix[i]) by {
            assert(prefix[i] == s[i]);
        }
        layout_class(prefix, d);
        layout_class_member(s[s.len() - 1], d);
    } else {
        lemma_deepen_plain(Seq::<char>::empty());
    }
}

proof fn layout_class_member(c: ClassMember, d: nat)
    requires
        flat_class_member(c),
        quoted_class_member(c),
    ensures
        class_member_code(c, false, d + 1) == deepen(class_member_code(c, false, d)),
        plain(class_member_code(c, true, d)),
    decreases c,
{
    broadcast use lemma_plain_empty, lemma_plain_append, lemma_plain_char, lemma_deepen_append, lemma_deepen_plain,
        lemma_deepen_char, lemma_deepen_newline;

    lemma_literals();
    match c {
        ClassMember::Constructor { params, body } => {
            lemma_params_plain(params@, true);
            lemma_params_plain(params@, false);
            layout_stmts(body@, d + 1);
        },
        ClassMember::Method { params, body, .. } => {
            lemma_params_plain(params@, true);
            lemma_params_plain(params@, false);
            layout_stmts(body@, d + 1);
        },
        ClassMember::Property { value, .. } => layout_expr(value, d),
    }
}

/// A minified program holds no line break when its names do not.
pub(crate) proof fn layout_program(s: Seq<Statement>)
    requires
        flat_stmts(s),
        quoted_stmts(s),
    ensures
        plain(program_code(s, true)),
    decreases s.len(),
{
    broadcast use lemma_plain_append, lemma_plain_empty;

    if s.len() > 0 {
        let prefix = s.subrange(0, s.len() - 1);
        assert forall|i: int| 0 <= i < prefix.len() implies flat_stmt(#[trigger] prefix[i]) by {
            assert(prefix[i] == s[i]);
        }
        assert forall|i: int| 0 <= i < prefix.len() implies quoted_stmt(#[trigger] prefix[i]) by {
            assert(prefix[i] == s[i]);
        }
        layout_program(prefix);
        layout_stmt(s[s.len() - 1], 0);
        lemma_plain_empty(newline(true, 0));
    }
}

proof fn lemma_literals_0()
    ensures
        plain(""@),
        plain(" "@),
        plain(")"@),
        plain(","@),
        plain(":"@),
        plain(";"@),
        plain("="@),
        plain("?"@),
        plain("{"@),
        plain(" {"@),
        plain("!0"@),
        plain("!1"@),
        plain(") "@),
{
    reveal(plain);
    reveal_with_fuel(plain_upto, 14);
    reveal_strlit("");
    lemma_plain_upto(""@, ""@.len() as int);
    reveal_strlit(" ");
    lemma_plain_upto(" "@, " "@.len() as int);
    reveal_strlit(")");
    lemma_plain_upto(")"@, ")"@.len() as int);
    reveal_strlit(",");
    lemma_plain_upto(","@, ","@.len() as int);
    reveal_strlit(":");
    lemma_plain_upto(":"@, ":"@.len() as int);
    reveal_strlit(";");
    lemma_plain_upto(";"@, ";"@.len() as int);
    reveal_strlit("=");
    lemma_plain_upto("="@, "="@.len() as int);
    reveal_strlit("?");
    lemma_plain_upto("?"@, "?"@.len() as int);
    reveal_strlit("{");
    lemma_plain_upto("{"@, "{"@.len() as int);
    reveal_strlit(" {");
    lemma_plain_upto(" {"@, " {"@.len() as int);
    reveal_strlit("!0");
    lemma_plain_upto("!0"@, "!0"@.len() as int);
    reveal_strlit("!1");
    lemma_plain_upto("!1"@, "!1"@.len() as int);
    reveal_strlit(") ");
    lemma_plain_upto(") "@, ") "@.len() as int);
}

proof fn lemma_literals_1()
    ensures
        plain("){"@),
        plain(", "@),
        plain(": "@),
        plain("; "@),
        plain("=>"@),
        plain("]("@),
        plain("]:"@),
        plain(" : "@),
        plain(" = "@),
        plain(" ? "@),
        plain(") {"@),
        plain("]: "@),
        plain("if("@),
{
    reveal(plain);
    reveal_with_fuel(plain_upto, 14);
    reveal_strlit("){");
    lemma_plain_upto("){"@, "){"@.len() as int);
    reveal_strlit(", ");
    lemma_plain_upto(", "@, ", "@.len() as int);
    reveal_strlit(": ");
    lemma_plain_upto(": "@, ": "@.len() as int);
    reveal_strlit("; ");
    lemma_plain_upto("; "@, "; "@.len() as int);
    reveal_strlit("=>");
    lemma_plain_upto("=>"@, "=>"@.len() as int);
    reveal_strlit("](");
    lemma_plain_upto("]("@, "]("@.len() as int);
    reveal_strlit("]:");
    lemma_plain_upto("]:"@, "]:"@.len() as int);
    reveal_strlit(" : ");
    lemma_plain_upto(" : "@, " : "@.len() as int);
    reveal_strlit(" = ");
    lemma_plain_upto(" = "@, " = "@.len() as int);
    reveal_strlit(" ? ");
    lemma_plain_upto(" ? "@, " ? "@.len() as int);
    reveal_strlit(") {");
    lemma_plain_upto(") {"@, ") {"@.len() as int);
    reveal_strlit("]: ");
    lemma_plain_upto("]: "@, "]: "@.len() as int);
    reveal_strlit("if(");
    lemma_plain_upto("if("@, "if("@.len() as int);
}

proof fn lemma_literals_2()
    ensures
        plain("let"@),
        plain("var"@),
        plain(" => "@),
        plain(" in "@),
        plain(" of "@),
        plain("for("@),
        plain("if ("@),
        plain("null"@),
        plain("this"@),
        plain("true"@),
        plain("break"@),
        plain("const"@),
        plain("false"@),
{
    reveal(plain);
    reveal_with_fuel(plain_upto, 14);
    reveal_strlit("let");
    lemma_plain_upto("let"@, "let"@.len() as int);
    reveal_strlit("var");
    lemma_plain_upto("var"@, "var"@.len() as int);
    reveal_strlit(" => ");
    lemma_plain_upto(" => "@, " => "@.len() as int);
    reveal_strlit(" in ");
    lemma_plain_upto(" in "@, " in "@.len() as int);
    reveal_strlit(" of ");
    lemma_plain_upto(" of "@, " of "@.len() as int);
    reveal_strlit("for(");
    lemma_plain_upto("for("@, "for("@.len() as int);
    reveal_strlit("if (");
    lemma_plain_upto("if ("@, "if ("@.len() as int);
    reveal_strlit("null");
    lemma_plain_upto("null"@, "null"@.len() as int);
    reveal_strlit("this");
    lemma_plain_upto("this"@, "this"@.len() as int);
    reveal_strlit("true");
    lemma_plain_upto("true"@, "true"@.len() as int);
    reveal_strlit("break");
    lemma_plain_upto("break"@, "break"@.len() as int);
    reveal_strlit("const");
    lemma_plain_upto("const"@, "const"@.len() as int);
    reveal_strlit("false");
    lemma_plain_upto("false"@, "false"@.len() as int);
}

proof fn lemma_literals_3()
    ensures
        plain("for ("@),
        plain(" else "@),
        plain("class "@),
        plain("return"@),
        plain("void 0"@),
        plain("while("@),
        plain("static "@),
        plain("while ("@),
        plain("function"@),
        plain(" extends "@),
        plain("function "@),
        plain("undefined"@),
        plain("constructor("@),
{
    reveal(plain);
    reveal_with_fuel(plain_upto, 14);
    reveal_strlit("for (");
    lemma_plain_upto("for ("@, "for ("@.len() as int);
    reveal_strlit(" else ");
    lemma_plain_upto(" else "@, " else "@.len() as int);
    reveal_strlit("class ");
    lemma_plain_upto("class "@, "class "@.len() as int);
    reveal_strlit("return");
    lemma_plain_upto("return"@, "return"@.len() as int);
    reveal_strlit("void 0");
    lemma_plain_upto("void 0"@, "void 0"@.len() as int);
    reveal_strlit("while(");
    lemma_plain_upto("while("@, "while("@.len() as int);
    reveal_strlit("static ");
    lemma_plain_upto("static "@, "static "@.len() as int);
    reveal_strlit("while (");
    lemma_plain_upto("while ("@, "while ("@.len() as int);
    reveal_strlit("function");
    lemma_plain_upto("function"@, "function"@.len() as int);
    reveal_strlit(" extends ");
    lemma_plain_upto(" extends "@, " extends "@.len() as int);
    reveal_strlit("function ");
    lemma_plain_upto("function "@, "function "@.len() as int);
    reveal_strlit("undefined");
    lemma_plain_upto("undefined"@, "undefined"@.len() as int);
    reveal_strlit("constructor(");
    lemma_plain_upto("constructor("@, "constructor("@.len() as int);
}

/// None of the fixed texts the printer writes holds a line break.
pub proof fn lemma_literals()
    ensures
        plain(""@),
        plain(" "@),
        plain(")"@),
        plain(","@),
        plain(":"@),
        plain(";"@),
        plain("="@),
        plain("?"@),
        plain("{"@),
        plain(" {"@),
        plain("!0"@),
        plain("!1"@),
        plain(") "@),
        plain("){"@),
        plain(", "@),
        plain(": "@),
        plain("; "@),
        plain("=>"@),
        plain("]("@),
        plain("]:"@),
        plain(" : "@),
        plain(" = "@),
        plain(" ? "@),
        plain(") {"@),
        plain("]: "@),
        plain("if("@),
        plain("let"@),
        plain("var"@),
        plain(" => "@),
        plain(" in "@),
        plain(" of "@),
        plain("for("@),
        plain("if ("@),
        plain("null"@),
        plain("this"@),
        plain("true"@),
        plain("break"@),
        plain("const"@),
        plain("false"@),
        plain("for ("@),
        plain(" else "@),
        plain("class "@),
        plain("return"@),
        plain("void 0"@),
        plain("while("@),
        plain("static "@),
        plain("while ("@),
        plain("function"@),
        plain(" extends "@),
        plain("function "@),
        plain("undefined"@),
        plain("constructor("@),
{
    lemma_literals_0();
    lemma_literals_1();
    lemma_literals_2();
    lemma_literals_3();
}

} // verus!
