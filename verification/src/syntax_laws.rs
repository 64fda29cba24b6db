//! What particular constructs print as, stated by their characters: keywords
//! keep the space before a name or label in both modes, `static` members keep
//! their prefix, object keys are bare exactly when they are identifiers, and
//! operators bind in the order of JavaScript precedence.

use vstd::prelude::*;

use crate::ast::ClassMember;
use crate::ast::Expression;
use crate::ast::ObjectMember;
use crate::ast::OperatorType;
use crate::ast::Parameter;
use crate::ast::Statement;
use crate::ast::MemberKey;
use crate::ast::VariableDeclarationKind;
use crate::ast::VariableDeclarator;
use crate::generator::newline;
use crate::render::decls_code;
use crate::render::exprs_code;
use crate::render::key_code;
use crate::ast::operator_power;
use crate::render::class_member_code;
use crate::render::expr_code;
use crate::render::member_code;
use crate::render::stmt_code;
use crate::text::alphabetic;
use crate::text::alphanumeric;
use crate::text::debug_quoted;

verus! {

/// A `break` with a label prints as `break`, one space, the label and `;`,
/// minified or not, so the label stays apart from the keyword.
pub proof fn law_labeled_break(label: String, m: bool, d: nat)
    ensures
        stmt_code(Statement::Break { label: Some(label) }, m, d) == seq![
            'b',
            'r',
            'e',
            'a',
            'k',
            ' ',
        ] + label@ + seq![';'],
{
    reveal_strlit("break");
    assert(stmt_code(Statement::Break { label: Some(label) }, m, d) =~= seq![
        'b',
        'r',
        'e',
        'a',
        'k',
        ' ',
    ] + label@ + seq![';']);
}

/// A `break` without a label prints as `break;` in both modes.
pub proof fn law_plain_break(m: bool, d: nat)
    ensures
        stmt_code(Statement::Break { label: None }, m, d) == seq!['b', 'r', 'e', 'a', 'k', ';'],
{
    reveal_strlit("break");
    assert(stmt_code(Statement::Break { label: None }, m, d) =~= seq![
        'b',
        'r',
        'e',
        'a',
        'k',
        ';',
    ]);
}

/// A named function expression begins with `function`, one space, its name
/// and `(`, minified or not.
pub proof fn law_named_function_expression(
    name: String,
    params: Vec<Parameter>,
    body: Vec<Statement>,
    m: bool,
    d: nat,
)
    ensures
        (seq!['f', 'u', 'n', 'c', 't', 'i', 'o', 'n', ' '] + name@ + seq!['(']).is_prefix_of(
            expr_code(Expression::Function { name: Some(name), params, body }, m, d),
        ),
{
    reveal_strlit("function");
    let code = expr_code(Expression::Function { name: Some(name), params, body }, m, d);
    let head = seq!['f', 'u', 'n', 'c', 't', 'i', 'o', 'n', ' '] + name@ + seq!['('];
    assert(code.subrange(0, head.len() as int) =~= head);
}

/// A static class property prints as `static ` followed by the text of the
/// same property when not static; a property that is not static begins
/// with its name.
pub proof fn law_static_property(name: String, value: Expression, m: bool, d: nat)
    ensures
        class_member_code(ClassMember::Property { is_static: true, name, value }, m, d)
            == seq!['s', 't', 'a', 't', 'i', 'c', ' '] + class_member_code(
            ClassMember::Property { is_static: false, name, value },
            m,
            d,
        ),
        name@.is_prefix_of(
            class_member_code(ClassMember::Property { is_static: false, name, value }, m, d),
        ),
{
    reveal_strlit("static ");
    let plain_code = class_member_code(ClassMember::Property { is_static: false, name, value }, m, d);
    assert(class_member_code(ClassMember::Property { is_static: true, name, value }, m, d)
        =~= seq!['s', 't', 'a', 't', 'i', 'c', ' '] + plain_code);
    assert(plain_code.subrange(0, name@.len() as int) =~= name@);
}

/// A static class method prints as `static ` followed by the text of the
/// same method when not static; a method that is not static begins with its
/// name and `(`.
pub proof fn law_static_method(
    name: String,
    params: Vec<Parameter>,
    body: Vec<Statement>,
    m: bool,
    d: nat,
)
    ensures
        class_member_code(ClassMember::Method { is_static: true, name, params, body }, m, d)
            == seq!['s', 't', 'a', 't', 'i', 'c', ' '] + class_member_code(
            ClassMember::Method { is_static: false, name, params, body },
            m,
            d,
        ),
        (name@ + seq!['(']).is_prefix_of(
            class_member_code(ClassMember::Method { is_static: false, name, params, body }, m, d),
        ),
{
    reveal_strlit("static ");
    let plain_code = class_member_code(
        ClassMember::Method { is_static: false, name, params, body },
        m,
        d,
    );
    assert(class_member_code(ClassMember::Method { is_static: true, name, params, body }, m, d)
        =~= seq!['s', 't', 'a', 't', 'i', 'c', ' '] + plain_code);
    assert(plain_code.subrange(0, name@.len() as int + 1) =~= name@ + seq!['(']);
}

/// `key` is a JavaScript identifier: it begins with an alphabetic character,
/// `_` or `$`, and goes on with alphanumeric characters, `_` or `$`.
pub open spec fn javascript_identifier(key: Seq<char>) -> bool {
    &&& key.len() > 0
    &&& alphabetic(key[0]) || key[0] == '_' || key[0] == '$'
    &&& forall|i: int|
        1 <= i < key.len() ==> alphanumeric(#[trigger] key[i]) || key[i] == '_' || key[i] == '$'
}

/// An object key is written bare exactly when it is an identifier, and
/// quoted by `{:?}` otherwise.
pub proof fn law_object_key(key: String, value: Expression, m: bool, d: nat)
    ensures
        javascript_identifier(key@) ==> key@.is_prefix_of(
            member_code(ObjectMember::Literal { key, value }, m, d),
        ),
        !javascript_identifier(key@) ==> debug_quoted(key@).is_prefix_of(
            member_code(ObjectMember::Literal { key, value }, m, d),
        ),
{
    let code = member_code(ObjectMember::Literal { key, value }, m, d);
    if javascript_identifier(key@) {
        assert(code.subrange(0, key@.len() as int) =~= key@);
    } else {
        let q = debug_quoted(key@);
        assert(code.subrange(0, q.len() as int) =~= q);
    }
}

/// Operators bind in the order of JavaScript precedence, loosest first:
/// spread, assignments, `?`, `||`, `&&`, `|`, `^`, `&`, equality,
/// relations, shifts, `+ -`, `* / % **`, prefix operators, postfix `++ --`,
/// `new`, member access; operators of one group bind alike.
pub proof fn law_precedence_order(prefix: bool)
    ensures
        operator_power(OperatorType::Spread, prefix) < operator_power(OperatorType::Assign, prefix),
        operator_power(OperatorType::Assign, prefix) < operator_power(
            OperatorType::Conditional,
            prefix,
        ),
        operator_power(OperatorType::Conditional, prefix) < operator_power(
            OperatorType::LogicalOr,
            prefix,
        ),
        operator_power(OperatorType::LogicalOr, prefix) < operator_power(
            OperatorType::LogicalAnd,
            prefix,
        ),
        operator_power(OperatorType::LogicalAnd, prefix) < operator_power(
            OperatorType::BitwiseOr,
            prefix,
        ),
        operator_power(OperatorType::BitwiseOr, prefix) < operator_power(
            OperatorType::BitwiseXor,
            prefix,
        ),
        operator_power(OperatorType::BitwiseXor, prefix) < operator_power(
            OperatorType::BitwiseAnd,
            prefix,
        ),
        operator_power(OperatorType::BitwiseAnd, prefix) < operator_power(
            OperatorType::Equality,
            prefix,
        ),
        operator_power(OperatorType::Equality, prefix) < operator_power(
            OperatorType::Lesser,
            prefix,
        ),
        operator_power(OperatorType::Lesser, prefix) < operator_power(
            OperatorType::BitShiftLeft,
            prefix,
        ),
        operator_power(OperatorType::BitShiftLeft, prefix) < operator_power(
            OperatorType::Addition,
            prefix,
        ),
        operator_power(OperatorType::Addition, prefix) < operator_power(
            OperatorType::Multiplication,
            prefix,
        ),
        operator_power(OperatorType::Multiplication, prefix) < operator_power(
            OperatorType::LogicalNot,
            prefix,
        ),
        operator_power(OperatorType::LogicalNot, prefix) < operator_power(
            OperatorType::Increment,
            false,
        ),
        operator_power(OperatorType::Increment, false) < operator_power(OperatorType::New, prefix),
        operator_power(OperatorType::New, prefix) < operator_power(OperatorType::Accessor, prefix),
        operator_power(OperatorType::Increment, true) == operator_power(
            OperatorType::LogicalNot,
            prefix,
        ),
        operator_power(OperatorType::Decrement, prefix) == operator_power(
            OperatorType::Increment,
            prefix,
        ),
        operator_power(OperatorType::FatArrow, prefix) == operator_power(
            OperatorType::Accessor,
            prefix,
        ),
        forall|op: OperatorType|
            #![trigger operator_power(op, prefix)]
            ({
                ||| op == OperatorType::AddAssign
                ||| op == OperatorType::SubstractAssign
                ||| op == OperatorType::ExponentAssign
                ||| op == OperatorType::MultiplyAssign
                ||| op == OperatorType::DivideAssign
                ||| op == OperatorType::RemainderAssign
                ||| op == OperatorType::BSLAssign
                ||| op == OperatorType::BSRAssign
                ||| op == OperatorType::UBSRAssign
                ||| op == OperatorType::BitAndAssign
                ||| op == OperatorType::BitXorAssign
                ||| op == OperatorType::BitOrAssign
            }) ==> operator_power(op, prefix) == operator_power(OperatorType::Assign, prefix),
        forall|op: OperatorType|
            #![trigger operator_power(op, prefix)]
            (op == OperatorType::StrictEquality || op == OperatorType::StrictInequality || op
                == OperatorType::Inequality) ==> operator_power(op, prefix) == operator_power(
                OperatorType::Equality,
                prefix,
            ),
        forall|op: OperatorType|
            #![trigger operator_power(op, prefix)]
            (op == OperatorType::LesserEquals || op == OperatorType::Greater || op
                == OperatorType::GreaterEquals || op == OperatorType::Instanceof || op
                == OperatorType::In) ==> operator_power(op, prefix) == operator_power(
                OperatorType::Lesser,
                prefix,
            ),
        forall|op: OperatorType|
            #![trigger operator_power(op, prefix)]
            (op == OperatorType::BitShiftRight || op == OperatorType::UBitShiftRight)
                ==> operator_power(op, prefix) == operator_power(OperatorType::BitShiftLeft, prefix),
        operator_power(OperatorType::Substraction, prefix) == operator_power(
            OperatorType::Addition,
            prefix,
        ),
        forall|op: OperatorType|
            #![trigger operator_power(op, prefix)]
            (op == OperatorType::Division || op == OperatorType::Remainder || op
                == OperatorType::Exponent) ==> operator_power(op, prefix) == operator_power(
                OperatorType::Multiplication,
                prefix,
            ),
        forall|op: OperatorType|
            #![trigger operator_power(op, prefix)]
            (op == OperatorType::BitwiseNot || op == OperatorType::Typeof || op
                == OperatorType::Void || op == OperatorType::Delete) ==> operator_power(op, prefix)
                == operator_power(OperatorType::LogicalNot, prefix),
{
}

/// A left operand built with an operator that binds more loosely than the
/// outer one is put in parentheses, so `(a || b) && c` keeps its
/// parentheses: the printed text begins with `(` followed by the left
/// operand's own text and `)`.
pub proof fn law_looser_left_operand_parenthesized(
    a: Expression,
    inner: OperatorType,
    b: Expression,
    outer: OperatorType,
    c: Expression,
    m: bool,
    d: nat,
)
    requires
        operator_power(inner, false) < operator_power(outer, false),
    ensures
        ({
            let left = Expression::Binary { left: Box::new(a), operator: inner, right: Box::new(b) };
            let whole = Expression::Binary {
                left: Box::new(left),
                operator: outer,
                right: Box::new(c),
            };
            (seq!['('] + expr_code(left, m, d) + seq![')']).is_prefix_of(expr_code(whole, m, d))
        }),
{
    let left = Expression::Binary { left: Box::new(a), operator: inner, right: Box::new(b) };
    let whole = Expression::Binary { left: Box::new(left), operator: outer, right: Box::new(c) };
    let head = seq!['('] + expr_code(left, m, d) + seq![')'];
    assert(expr_code(whole, m, d).subrange(0, head.len() as int) =~= head);
}

/// `(a || b) && c` is printed with its parentheses, for any operands.
pub proof fn law_or_inside_and_parenthesized(
    a: Expression,
    b: Expression,
    c: Expression,
    m: bool,
    d: nat,
)
    ensures
        ({
            let left = Expression::Binary {
                left: Box::new(a),
                operator: OperatorType::LogicalOr,
                right: Box::new(b),
            };
            let whole = Expression::Binary {
                left: Box::new(left),
                operator: OperatorType::LogicalAnd,
                right: Box::new(c),
            };
            (seq!['('] + expr_code(left, m, d) + seq![')']).is_prefix_of(expr_code(whole, m, d))
        }),
{
    law_precedence_order(false);
    law_looser_left_operand_parenthesized(a, OperatorType::LogicalOr, b, OperatorType::LogicalAnd, c, m, d);
}

/// `return` with a value prints as `return`, one space, the value and `;`,
/// minified or not.
pub proof fn law_return_value(value: Expression, m: bool, d: nat)
    ensures
        stmt_code(Statement::Return { value: Some(value) }, m, d) == seq![
            'r',
            'e',
            't',
            'u',
            'r',
            'n',
            ' ',
        ] + expr_code(value, m, d) + seq![';'],
{
    reveal_strlit("return");
    assert(stmt_code(Statement::Return { value: Some(value) }, m, d) =~= seq![
        'r',
        'e',
        't',
        'u',
        'r',
        'n',
        ' ',
    ] + expr_code(value, m, d) + seq![';']);
}

/// The keyword of a declaration kind, spelled out.
pub open spec fn declaration_keyword(kind: VariableDeclarationKind) -> Seq<char> {
    match kind {
        VariableDeclarationKind::Var => seq!['v', 'a', 'r'],
        VariableDeclarationKind::Let => seq!['l', 'e', 't'],
        VariableDeclarationKind::Const => seq!['c', 'o', 'n', 's', 't'],
    }
}

/// A declaration prints as its keyword, one space, its declarators and `;`,
/// minified or not.
pub proof fn law_declaration(
    kind: VariableDeclarationKind,
    declarators: Vec<VariableDeclarator>,
    m: bool,
    d: nat,
)
    ensures
        stmt_code(Statement::VariableDeclaration { kind, declarators }, m, d) == declaration_keyword(
            kind,
        ) + seq![' '] + decls_code(declarators@, m, d) + seq![';'],
{
    reveal_strlit("var");
    reveal_strlit("let");
    reveal_strlit("const");
    assert(stmt_code(Statement::VariableDeclaration { kind, declarators }, m, d) =~= declaration_keyword(
        kind,
    ) + seq![' '] + decls_code(declarators@, m, d) + seq![';']);
}

/// A function declaration begins, after a line break, with `function`, one
/// space, its name and `(`, minified or not.
pub proof fn law_function_declaration(
    name: String,
    params: Vec<Parameter>,
    body: Vec<Statement>,
    m: bool,
    d: nat,
)
    ensures
        (newline(m, d) + seq!['f', 'u', 'n', 'c', 't', 'i', 'o', 'n', ' '] + name@ + seq![
            '(',
        ]).is_prefix_of(stmt_code(Statement::Function { name, params, body }, m, d)),
{
    reveal_strlit("function ");
    let code = stmt_code(Statement::Function { name, params, body }, m, d);
    let head = newline(m, d) + seq!['f', 'u', 'n', 'c', 't', 'i', 'o', 'n', ' '] + name@ + seq![
        '(',
    ];
    assert(code.subrange(0, head.len() as int) =~= head);
}

/// A class declaration begins, after a line break, with `class`, one space
/// and its name, then ` extends ` and the superclass when there is one.
pub proof fn law_class_declaration(
    name: String,
    extends: Option<String>,
    body: Vec<crate::ast::ClassMember>,
    m: bool,
    d: nat,
)
    ensures
        (newline(m, d) + seq!['c', 'l', 'a', 's', 's', ' '] + name@ + match extends {
            Some(super_class) => seq![' ', 'e', 'x', 't', 'e', 'n', 'd', 's', ' '] + super_class@,
            None => Seq::empty(),
        }).is_prefix_of(stmt_code(Statement::Class { name, extends, body }, m, d)),
{
    reveal_strlit("class ");
    reveal_strlit(" extends ");
    let code = stmt_code(Statement::Class { name, extends, body }, m, d);
    let head = newline(m, d) + seq!['c', 'l', 'a', 's', 's', ' '] + name@ + match extends {
        Some(super_class) => seq![' ', 'e', 'x', 't', 'e', 'n', 'd', 's', ' '] + super_class@,
        None => Seq::empty(),
    };
    assert(code.subrange(0, head.len() as int) =~= head);
}

/// An `if` with an `else` ends with ` else ` and the alternative statement,
/// minified or not.
pub proof fn law_if_else(
    test: Expression,
    consequent: Statement,
    alternate: Statement,
    m: bool,
    d: nat,
)
    ensures
        ({
            let code = stmt_code(
                Statement::If {
                    test,
                    consequent: Box::new(consequent),
                    alternate: Some(Box::new(alternate)),
                },
                m,
                d,
            );
            let tail = seq![' ', 'e', 'l', 's', 'e', ' '] + stmt_code(alternate, m, d);
            tail.len() <= code.len() && code.subrange(code.len() - tail.len(), code.len() as int)
                == tail
        }),
{
    reveal_strlit(" else ");
    let code = stmt_code(
        Statement::If { test, consequent: Box::new(consequent), alternate: Some(Box::new(alternate)) },
        m,
        d,
    );
    let tail = seq![' ', 'e', 'l', 's', 'e', ' '] + stmt_code(alternate, m, d);
    assert(code.subrange(code.len() - tail.len(), code.len() as int) =~= tail);
}

/// A member access with a name prints as the object, `.` and the name; with
/// a computed key, as the object and the key in brackets.
pub proof fn law_member_access(object: Expression, property: MemberKey, m: bool, d: nat)
    ensures
        ({
            let code = expr_code(
                Expression::Member { object: Box::new(object), property: Box::new(property) },
                m,
                d,
            );
            match property {
                MemberKey::Literal(name) => code =~= expr_code(object, m, d) + seq!['.'] + name@,
                MemberKey::Computed(key) => code =~= expr_code(object, m, d) + seq!['['] + expr_code(
                    key,
                    m,
                    d,
                ) + seq![']'],
            }
        }),
{
    assert(key_code(property, m, d) == match property {
        MemberKey::Literal(name) => seq!['.'] + name@,
        MemberKey::Computed(key) => seq!['['] + expr_code(key, m, d) + seq![']'],
    });
}

/// A call prints as the callee and its arguments, separated by commas, in
/// parentheses.
pub proof fn law_call(callee: Expression, arguments: Vec<Expression>, m: bool, d: nat)
    ensures
        expr_code(Expression::Call { callee: Box::new(callee), arguments }, m, d) == expr_code(
            callee,
            m,
            d,
        ) + seq!['('] + exprs_code(arguments@, m, d) + seq![')'],
{
}

/// An arrow function with exactly one parameter begins with that name, bare;
/// with any other number of parameters it begins with `(`.
pub proof fn law_arrow_parameters(params: Vec<Parameter>, body: Statement, m: bool, d: nat)
    ensures
        ({
            let code = expr_code(
                Expression::ArrowFunction { params, body: Box::new(body) },
                m,
                d,
            );
            &&& params.len() == 1 ==> params@[0].name@.is_prefix_of(code)
            &&& params.len() != 1 ==> seq!['('].is_prefix_of(code)
        }),
{
    let code = expr_code(Expression::ArrowFunction { params, body: Box::new(body) }, m, d);
    if params.len() == 1 {
        assert(code.subrange(0, params@[0].name@.len() as int) =~= params@[0].name@);
    } else {
        assert(code.subrange(0, 1) =~= seq!['(']);
    }
}

} // verus!
