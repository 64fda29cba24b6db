use lib::ast::ClassMember;
use lib::ast::Expression;
use lib::ast::LiteralValue;
use lib::ast::MemberKey;
use lib::ast::ObjectMember;
use lib::ast::OperatorType;
use lib::ast::Parameter;
use lib::ast::Program;
use lib::ast::Statement;
use lib::ast::VariableDeclarationKind;
use lib::ast::VariableDeclarator;
use lib::codegen::generate_code;
use lib::printable::program_printable;
use lib::generator::Generator;
use lib::number::integer_text;
use lib::text::is_identifier;

fn ident(name: &str) -> Expression {
    Expression::Identifier(name.to_string())
}

fn num(n: i32) -> Expression {
    Expression::Literal(LiteralValue::LiteralInteger(n))
}

fn string(s: &str) -> Expression {
    Expression::Literal(LiteralValue::LiteralString(s.to_string()))
}

fn param(name: &str) -> Parameter {
    Parameter { name: name.to_string() }
}

fn binary(left: Expression, operator: OperatorType, right: Expression) -> Expression {
    Expression::Binary { left: Box::new(left), operator, right: Box::new(right) }
}

fn expr_stmt(value: Expression) -> Statement {
    Statement::Expression { value }
}

fn pretty(body: Vec<Statement>) -> String {
    generate_code(Program { body }, false)
}

fn minified(body: Vec<Statement>) -> String {
    generate_code(Program { body }, true)
}

fn var_decl() -> Statement {
    Statement::VariableDeclaration {
        kind: VariableDeclarationKind::Var,
        declarators: vec![
            VariableDeclarator { name: "a".to_string(), value: Some(num(1)) },
            VariableDeclarator { name: "b".to_string(), value: None },
        ],
    }
}

#[test]
fn variable_declaration_pretty_and_minified() {
    assert_eq!(pretty(vec![var_decl()]), "var a = 1, b;\n");
    assert_eq!(minified(vec![var_decl()]), "var a=1,b;");
}

#[test]
fn let_and_const_keywords() {
    let decl = |kind| Statement::VariableDeclaration {
        kind,
        declarators: vec![VariableDeclarator { name: "x".to_string(), value: Some(num(0)) }],
    };
    assert_eq!(pretty(vec![decl(VariableDeclarationKind::Let)]), "let x = 0;\n");
    assert_eq!(minified(vec![decl(VariableDeclarationKind::Const)]), "const x=0;");
}

fn function_decl() -> Statement {
    Statement::Function {
        name: "foo".to_string(),
        params: vec![param("a"), param("b")],
        body: vec![Statement::Return {
            value: Some(binary(ident("a"), OperatorType::Addition, ident("b"))),
        }],
    }
}

#[test]
fn function_declaration_stands_on_its_own_lines() {
    assert_eq!(pretty(vec![function_decl()]), "\nfunction foo(a, b) {\n    return a + b;\n}\n\n");
    assert_eq!(minified(vec![function_decl()]), "function foo(a,b){return a+b;}");
}

#[test]
fn nested_blocks_indent_by_four_spaces() {
    let inner = Statement::Block { body: vec![expr_stmt(ident("x"))] };
    let outer = Statement::Block { body: vec![inner] };
    assert_eq!(pretty(vec![outer]), "{\n    {\n        x;\n    }\n}\n");
}

#[test]
fn left_operand_with_lower_power_gets_parentheses() {
    let sum = binary(ident("a"), OperatorType::Addition, ident("b"));
    let product = binary(sum, OperatorType::Multiplication, ident("c"));
    assert_eq!(pretty(vec![expr_stmt(product)]), "(a + b) * c;\n");

    let sum = binary(ident("a"), OperatorType::Addition, ident("b"));
    let product = binary(sum, OperatorType::Multiplication, ident("c"));
    assert_eq!(minified(vec![expr_stmt(product)]), "(a+b)*c;");
}

#[test]
fn operands_with_equal_or_higher_power_stay_bare() {
    let diff = binary(ident("a"), OperatorType::Substraction, ident("b"));
    let twice = binary(diff, OperatorType::Substraction, ident("c"));
    assert_eq!(pretty(vec![expr_stmt(twice)]), "a - b - c;\n");

    let product = binary(ident("b"), OperatorType::Multiplication, ident("c"));
    let sum = binary(ident("a"), OperatorType::Addition, product);
    assert_eq!(pretty(vec![expr_stmt(sum)]), "a + b * c;\n");
}

#[test]
fn literals_pretty() {
    let body = vec![
        expr_stmt(Expression::Literal(LiteralValue::LiteralUndefined)),
        expr_stmt(Expression::Literal(LiteralValue::LiteralNull)),
        expr_stmt(Expression::Literal(LiteralValue::LiteralTrue)),
        expr_stmt(Expression::Literal(LiteralValue::LiteralFalse)),
        expr_stmt(num(-42)),
        expr_stmt(Expression::Literal(LiteralValue::LiteralFloat("3.5".to_string()))),
        expr_stmt(string("a\"b")),
    ];
    assert_eq!(pretty(body), "undefined;\nnull;\ntrue;\nfalse;\n-42;\n3.5;\n\"a\\\"b\";\n");
}

#[test]
fn literals_minified() {
    let body = vec![
        expr_stmt(Expression::Literal(LiteralValue::LiteralUndefined)),
        expr_stmt(Expression::Literal(LiteralValue::LiteralTrue)),
        expr_stmt(Expression::Literal(LiteralValue::LiteralFalse)),
        expr_stmt(string("line\nbreak")),
    ];
    assert_eq!(minified(body), "void 0;!0;!1;\"line\\nbreak\";");
}

#[test]
fn integer_text_extremes() {
    assert_eq!(integer_text(0), "0");
    assert_eq!(integer_text(7), "7");
    assert_eq!(integer_text(1200), "1200");
    assert_eq!(integer_text(-1), "-1");
    assert_eq!(integer_text(i32::MAX), "2147483647");
    assert_eq!(integer_text(i32::MIN), "-2147483648");
}

fn object() -> Expression {
    Expression::Object(vec![
        ObjectMember::Shorthand { key: "s".to_string() },
        ObjectMember::Literal { key: "a".to_string(), value: num(1) },
        ObjectMember::Literal { key: "b c".to_string(), value: num(2) },
        ObjectMember::Computed { key: ident("k"), value: num(3) },
        ObjectMember::Method { name: "m".to_string(), params: vec![], body: vec![] },
        ObjectMember::ComputedMethod {
            name: ident("n"),
            params: vec![param("x")],
            body: vec![Statement::Return { value: Some(ident("x")) }],
        },
    ])
}

#[test]
fn object_literal_pretty() {
    assert_eq!(
        pretty(vec![expr_stmt(object())]),
        "{\n    s,\n    a: 1,\n    \"b c\": 2,\n    [k]: 3,\n    m() {\n    },\n    [n](x) {\n        return x;\n    }\n};\n"
    );
}

#[test]
fn object_literal_minified() {
    assert_eq!(
        minified(vec![expr_stmt(object())]),
        "{s,a:1,\"b c\":2,[k]:3,m(){},[n](x){return x;}};"
    );
}

#[test]
fn empty_object_and_array() {
    assert_eq!(pretty(vec![expr_stmt(Expression::Object(vec![]))]), "{\n};\n");
    assert_eq!(pretty(vec![expr_stmt(Expression::Array(vec![]))]), "[];\n");
}

#[test]
fn arrays_sequences_calls_and_members() {
    let array = Expression::Array(vec![num(1), num(2), num(3)]);
    let sequence = Expression::Sequence(vec![ident("a"), ident("b")]);
    let call = Expression::Call {
        callee: Box::new(Expression::Member {
            object: Box::new(ident("console")),
            property: Box::new(MemberKey::Literal("log".to_string())),
        }),
        arguments: vec![num(1), string("x")],
    };
    let index = Expression::Member {
        object: Box::new(ident("a")),
        property: Box::new(MemberKey::Computed(num(0))),
    };
    let body = vec![expr_stmt(array), expr_stmt(sequence), expr_stmt(call), expr_stmt(index)];
    assert_eq!(pretty(body), "[1, 2, 3];\n(a, b);\nconsole.log(1, \"x\");\na[0];\n");
}

#[test]
fn prefix_postfix_and_conditional() {
    let not = Expression::Prefix { operator: OperatorType::LogicalNot, operand: Box::new(ident("a")) };
    let typeof_ = Expression::Prefix {
        operator: OperatorType::Typeof,
        operand: Box::new(ident("a")),
    };
    let incr = Expression::Postfix { operator: OperatorType::Increment, operand: Box::new(ident("i")) };
    let cond = Expression::Conditional {
        test: Box::new(ident("a")),
        consequent: Box::new(num(1)),
        alternate: Box::new(num(2)),
    };
    let body = vec![expr_stmt(not), expr_stmt(typeof_), expr_stmt(incr), expr_stmt(cond)];
    assert_eq!(pretty(body), "!a;\ntypeofa;\ni++;\na ? 1 : 2;\n");
}

#[test]
fn conditional_minified() {
    let cond = Expression::Conditional {
        test: Box::new(ident("a")),
        consequent: Box::new(num(1)),
        alternate: Box::new(num(2)),
    };
    assert_eq!(minified(vec![expr_stmt(cond)]), "a?1:2;");
}

#[test]
fn arrow_functions() {
    let single = Expression::ArrowFunction {
        params: vec![param("x")],
        body: Box::new(expr_stmt(binary(ident("x"), OperatorType::Multiplication, num(2)))),
    };
    let double = Expression::ArrowFunction {
        params: vec![param("a"), param("b")],
        body: Box::new(Statement::Block { body: vec![Statement::Return { value: Some(ident("a")) }] }),
    };
    let none = Expression::ArrowFunction { params: vec![], body: Box::new(expr_stmt(num(0))) };
    let body = vec![expr_stmt(single), expr_stmt(double), expr_stmt(none)];
    assert_eq!(pretty(body), "x => x * 2;\n(a, b) => {\n    return a;\n};\n() => 0;\n");
}

#[test]
fn arrow_function_minified() {
    let single = Expression::ArrowFunction {
        params: vec![param("x")],
        body: Box::new(expr_stmt(ident("x"))),
    };
    assert_eq!(minified(vec![expr_stmt(single)]), "x=>x;");
}

#[test]
fn function_expressions() {
    let anonymous = Expression::Function { name: None, params: vec![], body: vec![] };
    let named = Expression::Function {
        name: Some("f".to_string()),
        params: vec![param("a")],
        body: vec![expr_stmt(ident("a"))],
    };
    assert_eq!(
        pretty(vec![expr_stmt(anonymous), expr_stmt(named)]),
        "function () {\n};\nfunction f(a) {\n    a;\n};\n"
    );
    let anonymous = Expression::Function { name: None, params: vec![], body: vec![] };
    assert_eq!(minified(vec![expr_stmt(anonymous)]), "function(){};");
}

#[test]
fn if_else_while_labeled_break() {
    let if_else = Statement::If {
        test: ident("a"),
        consequent: Box::new(Statement::Return { value: None }),
        alternate: Some(Box::new(Statement::Break { label: Some("outer".to_string()) })),
    };
    let while_loop = Statement::While {
        test: Expression::Literal(LiteralValue::LiteralTrue),
        body: Box::new(Statement::Break { label: None }),
    };
    let labeled = Statement::Labeled { label: "outer".to_string(), body: Box::new(while_loop) };
    assert_eq!(
        pretty(vec![if_else, labeled]),
        "if (a) return; else break outer;\nouter: while (true) break;\n"
    );
}

#[test]
fn if_while_minified() {
    let if_only = Statement::If {
        test: ident("a"),
        consequent: Box::new(expr_stmt(ident("b"))),
        alternate: None,
    };
    let while_loop = Statement::While {
        test: ident("c"),
        body: Box::new(Statement::Block { body: vec![] }),
    };
    assert_eq!(minified(vec![if_only, while_loop]), "if(a)b;while(c){}");
}

fn for_loop() -> Statement {
    Statement::For {
        init: Some(Box::new(Statement::VariableDeclaration {
            kind: VariableDeclarationKind::Let,
            declarators: vec![VariableDeclarator { name: "i".to_string(), value: Some(num(0)) }],
        })),
        test: Some(binary(ident("i"), OperatorType::Lesser, num(10))),
        update: Some(Expression::Postfix {
            operator: OperatorType::Increment,
            operand: Box::new(ident("i")),
        }),
        body: Box::new(expr_stmt(ident("i"))),
    }
}

#[test]
fn for_loop_pretty_and_minified() {
    assert_eq!(pretty(vec![for_loop()]), "for (let i = 0; i < 10; i++) i;\n");
    assert_eq!(minified(vec![for_loop()]), "for(let i=0;i<10;i++)i;");
}

#[test]
fn for_loop_with_empty_head() {
    let forever = Statement::For {
        init: None,
        test: None,
        update: None,
        body: Box::new(Statement::Break { label: None }),
    };
    assert_eq!(pretty(vec![forever]), "for (; ; ) break;\n");
}

#[test]
fn for_loop_with_expression_head() {
    let assign = binary(ident("i"), OperatorType::Assign, num(0));
    let with_expr = Statement::For {
        init: Some(Box::new(expr_stmt(assign))),
        test: None,
        update: None,
        body: Box::new(Statement::Break { label: None }),
    };
    assert_eq!(minified(vec![with_expr]), "for(i=0;;)break;");
}

#[test]
fn for_in_and_for_of() {
    let decl = |name: &str| {
        Box::new(Statement::VariableDeclaration {
            kind: VariableDeclarationKind::Const,
            declarators: vec![VariableDeclarator { name: name.to_string(), value: None }],
        })
    };
    let for_in = Statement::ForIn {
        left: decl("k"),
        right: ident("o"),
        body: Box::new(expr_stmt(ident("k"))),
    };
    let for_of = Statement::ForOf {
        left: decl("v"),
        right: ident("a"),
        body: Box::new(expr_stmt(ident("v"))),
    };
    assert_eq!(pretty(vec![for_in, for_of]), "for (const k in o) k;\nfor (const v of a) v;\n");
}

fn class() -> Statement {
    Statement::Class {
        name: "Foo".to_string(),
        extends: Some("Bar".to_string()),
        body: vec![
            ClassMember::Constructor {
                params: vec![param("x")],
                body: vec![expr_stmt(binary(
                    Expression::Member {
                        object: Box::new(Expression::This),
                        property: Box::new(MemberKey::Literal("x".to_string())),
                    },
                    OperatorType::Assign,
                    ident("x"),
                ))],
            },
            ClassMember::Method {
                is_static: true,
                name: "make".to_string(),
                params: vec![],
                body: vec![],
            },
            ClassMember::Property { is_static: false, name: "y".to_string(), value: num(1) },
        ],
    }
}

#[test]
fn class_pretty() {
    assert_eq!(
        pretty(vec![class()]),
        "\nclass Foo extends Bar {\n    constructor(x) {\n        this.x = x;\n    }\n    static make() {\n    }\n    y = 1;\n}\n\n"
    );
}

#[test]
fn class_minified() {
    assert_eq!(minified(vec![class()]), "class Foo extends Bar{constructor(x){this.x=x;}static make(){}y=1;}");
}

#[test]
fn class_without_superclass() {
    let class = Statement::Class { name: "A".to_string(), extends: None, body: vec![] };
    assert_eq!(minified(vec![class]), "class A{}");
}

#[test]
fn empty_program_gives_empty_code() {
    assert_eq!(pretty(vec![]), "");
    assert_eq!(minified(vec![]), "");
}

#[test]
fn minified_code_is_not_longer() {
    let programs: Vec<fn() -> Vec<Statement>> = vec![
        || vec![var_decl()],
        || vec![function_decl()],
        || vec![class()],
        || vec![expr_stmt(object())],
        || vec![for_loop()],
    ];
    for program in programs {
        let short = minified(program());
        let long = pretty(program());
        assert!(short.chars().count() <= long.chars().count());
        assert!(short.len() < long.len());
    }
}

#[test]
fn identifiers() {
    assert!(is_identifier(&"abc".to_string()));
    assert!(is_identifier(&"$x_1".to_string()));
    assert!(is_identifier(&"_".to_string()));
    assert!(is_identifier(&"été".to_string()));
    assert!(!is_identifier(&"1a".to_string()));
    assert!(!is_identifier(&"a b".to_string()));
    assert!(!is_identifier(&"a-b".to_string()));
}

#[test]
fn generator_new_line_indents_pretty_only() {
    let mut gen = Generator::new(false);
    gen.indent();
    gen.indent();
    gen.new_line();
    gen.write("x");
    gen.dedent();
    gen.new_line();
    assert_eq!(gen.consume(), "\n        x\n    ");

    let mut gen = Generator::new(true);
    gen.indent();
    gen.new_line();
    gen.write("x");
    assert_eq!(gen.consume(), "x");
}

#[test]
fn generator_write_min_and_write_char() {
    let mut gen = Generator::new(false);
    gen.write_min("long", "s");
    gen.write_char('!');
    assert_eq!(gen.consume(), "long!");

    let mut gen = Generator::new(true);
    gen.write_min("long", "s");
    gen.write_char('!');
    assert_eq!(gen.consume(), "s!");
}

#[test]
fn generator_indent_then_dedent_restores_level() {
    let mut gen = Generator::new(false);
    gen.indent();
    gen.dedent();
    gen.new_line();
    assert_eq!(gen.consume(), "\n");
}

#[test]
fn generator_write_list_and_block() {
    let mut gen = Generator::new(false);
    gen.write_list(&vec![num(1), ident("b")]);
    gen.write_block(&vec![expr_stmt(ident("c"))]);
    assert_eq!(gen.consume(), "1, b\n    c;\n");

    let mut gen = Generator::new(true);
    gen.write_list(&vec![num(1), ident("b")]);
    gen.write_block(&vec![expr_stmt(ident("c"))]);
    assert_eq!(gen.consume(), "1,bc;");
}

#[test]
fn generator_declaration_or_expression() {
    let mut gen = Generator::new(false);
    gen.write_declaration_or_expression(&var_decl());
    gen.write_char('|');
    gen.write_declaration_or_expression(&expr_stmt(ident("x")));
    assert_eq!(gen.consume(), "var a = 1, b|x");
}

#[test]
fn minified_code_ignores_indentation_level() {
    let mut shallow = Generator::new(true);
    function_decl().to_code(&mut shallow);
    let mut deep = Generator::new(true);
    deep.indent();
    deep.indent();
    deep.indent();
    function_decl().to_code(&mut deep);
    assert_eq!(shallow.consume(), deep.consume());
}

#[test]
fn pretty_code_follows_indentation_level() {
    let mut deep = Generator::new(false);
    deep.indent();
    function_decl().to_code(&mut deep);
    assert_eq!(deep.consume(), "\n    function foo(a, b) {\n        return a + b;\n    }\n    ");
}

#[test]
fn pretty_code_one_level_deeper_adds_four_spaces_per_break() {
    for statement in [function_decl, class, for_loop, var_decl] {
        let mut shallow = Generator::new(false);
        statement().to_code(&mut shallow);
        let mut deep = Generator::new(false);
        deep.indent();
        statement().to_code(&mut deep);
        assert_eq!(deep.consume(), shallow.consume().replace('\n', "\n    "));
    }
    let mut shallow = Generator::new(false);
    object().to_code(&mut shallow);
    let mut deep = Generator::new(false);
    deep.indent();
    object().to_code(&mut deep);
    assert_eq!(deep.consume(), shallow.consume().replace('\n', "\n    "));
}

#[test]
fn minified_code_holds_no_line_break() {
    let programs: Vec<fn() -> Vec<Statement>> = vec![
        || vec![function_decl(), class()],
        || vec![expr_stmt(object()), for_loop()],
        || vec![expr_stmt(string("two\nlines"))],
    ];
    for program in programs {
        assert!(!minified(program()).contains('\n'));
    }
}

#[test]
fn operator_tokens_are_visible_and_distinct() {
    let operators = [
        OperatorType::FatArrow, OperatorType::Accessor, OperatorType::New,
        OperatorType::Increment, OperatorType::Decrement, OperatorType::LogicalNot,
        OperatorType::BitwiseNot, OperatorType::Typeof, OperatorType::Void,
        OperatorType::Delete, OperatorType::Multiplication, OperatorType::Division,
        OperatorType::Remainder, OperatorType::Exponent, OperatorType::Addition,
        OperatorType::Substraction, OperatorType::BitShiftLeft, OperatorType::BitShiftRight,
        OperatorType::UBitShiftRight, OperatorType::Lesser, OperatorType::LesserEquals,
        OperatorType::Greater, OperatorType::GreaterEquals, OperatorType::Instanceof,
        OperatorType::In, OperatorType::StrictEquality, OperatorType::StrictInequality,
        OperatorType::Equality, OperatorType::Inequality, OperatorType::BitwiseAnd,
        OperatorType::BitwiseXor, OperatorType::BitwiseOr, OperatorType::LogicalAnd,
        OperatorType::LogicalOr, OperatorType::Conditional, OperatorType::Assign,
        OperatorType::AddAssign, OperatorType::SubstractAssign, OperatorType::ExponentAssign,
        OperatorType::MultiplyAssign, OperatorType::DivideAssign, OperatorType::RemainderAssign,
        OperatorType::BSLAssign, OperatorType::BSRAssign, OperatorType::UBSRAssign,
        OperatorType::BitAndAssign, OperatorType::BitXorAssign, OperatorType::BitOrAssign,
        OperatorType::Spread,
    ];
    let mut tokens = Vec::new();
    for op in operators {
        let mut gen = Generator::new(false);
        gen.indent();
        op.to_code(&mut gen);
        let pretty_token = gen.consume();
        let mut gen = Generator::new(true);
        op.to_code(&mut gen);
        assert_eq!(pretty_token, gen.consume());
        assert!(!pretty_token.is_empty());
        assert!(pretty_token.chars().all(|c| c.is_ascii_graphic()));
        assert!(!tokens.contains(&pretty_token));
        tokens.push(pretty_token);
    }
    assert_eq!(tokens.len(), 49);
}

#[test]
fn printable_programs_are_recognised() {
    let body = vec![function_decl(), class(), expr_stmt(object()), for_loop()];
    assert!(program_printable(&Program { body }));
    assert!(program_printable(&Program { body: vec![] }));
}

#[test]
fn unprintable_for_head_is_recognised() {
    let bad = Statement::For {
        init: Some(Box::new(Statement::Return { value: None })),
        test: None,
        update: None,
        body: Box::new(Statement::Break { label: None }),
    };
    assert!(!program_printable(&Program { body: vec![bad] }));
    let bad_in = Statement::ForIn {
        left: Box::new(Statement::Break { label: None }),
        right: ident("o"),
        body: Box::new(Statement::Break { label: None }),
    };
    assert!(!program_printable(&Program { body: vec![bad_in] }));
}

#[test]
fn empty_object_key_is_unprintable() {
    let bad = Expression::Object(vec![ObjectMember::Literal { key: String::new(), value: num(1) }]);
    assert!(!program_printable(&Program { body: vec![expr_stmt(bad)] }));
}

#[test]
fn nesting_needs_indentation_room() {
    let object = Expression::Object(vec![]);
    assert!(!object.printable(0));
    assert!(object.printable(1));
    let nested = Expression::Object(vec![ObjectMember::Literal {
        key: "a".to_string(),
        value: Expression::Object(vec![]),
    }]);
    assert!(!nested.printable(1));
    assert!(nested.printable(2));
}
