//! Printing syntax trees into a `Generator`.

use vstd::prelude::*;

use crate::ast::ClassMember;
use crate::ast::Expression;
use crate::ast::LiteralValue;
use crate::ast::MemberKey;
use crate::ast::ObjectMember;
use crate::ast::OperatorType;
use crate::ast::Parameter;
use crate::ast::Program;
use crate::ast::Statement;
use crate::ast::VariableDeclarationKind;
use crate::ast::VariableDeclarator;
use crate::ast::expression_power;
use crate::generator::Generator;
use crate::generator::newline;
use crate::generator::pick;
use crate::number::integer_text;
use crate::printable::class_member_ok;
use crate::printable::class_ok;
use crate::printable::declarator_ok;
use crate::printable::decls_ok;
use crate::printable::expr_ok;
use crate::printable::exprs_ok;
use crate::printable::init_ok;
use crate::printable::key_ok;
use crate::printable::member_ok;
use crate::printable::members_ok;
use crate::printable::optional_ok;
use crate::printable::stmt_ok;
use crate::printable::stmts_ok;
use crate::render::class_lines;
use crate::render::class_member_code;
use crate::render::declarator_code;
use crate::render::decls_code;
use crate::render::expr_code;
use crate::render::exprs_code;
use crate::render::init_code;
use crate::render::key_code;
use crate::render::kind_text;
use crate::render::label_key;
use crate::render::literal_code;
use crate::render::member_code;
use crate::render::members_code;
use crate::render::operator_text;
use crate::render::optional_code;
use crate::render::params_code;
use crate::render::program_code;
use crate::render::stmt_code;
use crate::render::stmts_lines;
use crate::layout::deepen;
use crate::layout::flat_expr;
use crate::layout::flat_stmt;
use crate::layout::flat_stmts;
use crate::layout::layout_expr;
use crate::layout::layout_program;
use crate::layout::layout_stmt;
use crate::layout::lemma_plain_from_chars;
use crate::layout::plain;
use crate::layout::quoted_class;
use crate::layout::quoted_class_member;
use crate::layout::lemma_quoted_class_step;
use crate::layout::quoted_declarator;
use crate::layout::quoted_decls;
use crate::layout::quoted_expr;
use crate::layout::quoted_exprs;
use crate::layout::quoted_key;
use crate::layout::quoted_literal;
use crate::layout::quoted_member;
use crate::layout::quoted_members;
use crate::layout::quoted_stmt;
use crate::layout::quoted_stmts;
use crate::text::debug_text;
use crate::text::is_identifier;

verus! {

broadcast use crate::generator::lemma_append_twice, crate::generator::lemma_append_nothing;

impl OperatorType {
    /// Writes the operator's source text.
    pub fn to_code(&self, gen: &mut Generator)
        ensures
            final(gen).wrote(*old(gen), operator_text(*self)),
    {
        gen.write(
            match self {
                OperatorType::FatArrow => "=>",
                OperatorType::Accessor => ".",
                OperatorType::New => "new",
                OperatorType::Increment => "++",
                OperatorType::Decrement => "--",
                OperatorType::LogicalNot => "!",
                OperatorType::BitwiseNot => "~",
                OperatorType::Typeof => "typeof",
                OperatorType::Void => "void",
                OperatorType::Delete => "delete",
                OperatorType::Multiplication => "*",
                OperatorType::Division => "/",
                OperatorType::Remainder => "%",
                OperatorType::Exponent => "**",
                OperatorType::Addition => "+",
                OperatorType::Substraction => "-",
                OperatorType::BitShiftLeft => "<<",
                OperatorType::BitShiftRight => ">>",
                OperatorType::UBitShiftRight => ">>>",
                OperatorType::Lesser => "<",
                OperatorType::LesserEquals => "<=",
                OperatorType::Greater => ">",
                OperatorType::GreaterEquals => ">=",
                OperatorType::Instanceof => "instanceof",
                OperatorType::In => "in",
                OperatorType::StrictEquality => "===",
                OperatorType::StrictInequality => "!==",
                OperatorType::Equality => "==",
                OperatorType::Inequality => "!=",
                OperatorType::BitwiseAnd => "&",
                OperatorType::BitwiseXor => "^",
                OperatorType::BitwiseOr => "|",
                OperatorType::LogicalAnd => "&&",
                OperatorType::LogicalOr => "||",
                OperatorType::Conditional => "?",
                OperatorType::Assign => "=",
                OperatorType::AddAssign => "+=",
                OperatorType::SubstractAssign => "-=",
                OperatorType::ExponentAssign => "**=",
                OperatorType::MultiplyAssign => "*=",
                OperatorType::DivideAssign => "/=",
                OperatorType::RemainderAssign => "%=",
                OperatorType::BSLAssign => "<<=",
                OperatorType::BSRAssign => ">>=",
                OperatorType::UBSRAssign => ">>>=",
                OperatorType::BitAndAssign => "&=",
                OperatorType::BitXorAssign => "^=",
                OperatorType::BitOrAssign => "|=",
                OperatorType::Spread => "...",
            },
        );
    }
}

impl VariableDeclarationKind {
    /// Writes `var`, `let` or `const`.
    pub fn to_code(&self, gen: &mut Generator)
        ensures
            final(gen).wrote(*old(gen), kind_text(*self)),
    {
        gen.write(
            match self {
                VariableDeclarationKind::Var => "var",
                VariableDeclarationKind::Let => "let",
                VariableDeclarationKind::Const => "const",
            },
        )
    }
}

impl LiteralValue {
    /// Writes the literal; `undefined`, `true` and `false` get their short
    /// forms `void 0`, `!0` and `!1` when minifying.
    pub fn to_code(&self, gen: &mut Generator)
        ensures
            final(gen).wrote(*old(gen), literal_code(*self, old(gen).minified())),
            quoted_literal(*self),
    {
        match self {
            LiteralValue::LiteralUndefined => gen.write_min("undefined", "void 0"),
            LiteralValue::LiteralNull => gen.write("null"),
            LiteralValue::LiteralTrue => gen.write_min("true", "!0"),
            LiteralValue::LiteralFalse => gen.write_min("false", "!1"),
            LiteralValue::LiteralInteger(num) => {
                let text = integer_text(*num);
                gen.write(text.as_str());
            },
            LiteralValue::LiteralFloat(text) => gen.write(text.as_str()),
            LiteralValue::LiteralString(string) => {
                let quoted = debug_text(string);
                proof {
                    lemma_plain_from_chars(quoted@);
                }
                gen.write(quoted.as_str());
            },
        }
    }
}

impl Parameter {
    /// Writes the parameter's name.
    pub fn to_code(&self, gen: &mut Generator)
        ensures
            final(gen).wrote(*old(gen), self.name@),
    {
        gen.write(self.name.as_str());
    }
}

impl Generator {
    /// Writes parameter names separated by commas.
    pub fn write_param_list(&mut self, items: &Vec<Parameter>)
        ensures
            final(self).wrote(*old(self), params_code(items@, old(self).minified())),
    {
        let ghost before = *self;
        let mut i: usize = 0;
        while i < items.len()
            invariant
                i <= items.len(),
                self.wrote(before, params_code(items@.subrange(0, i as int), before.minified())),
            decreases items.len() - i,
        {
            if i > 0 {
                self.write_min(", ", ",");
            }
            items[i].to_code(self);
            assert(items@.subrange(0, i + 1).subrange(0, i as int) =~= items@.subrange(
                0,
                i as int,
            ));
            i = i + 1;
        }
        assert(items@.subrange(0, items.len() as int) =~= items@);
    }

    /// Writes expressions separated by commas.
    pub fn write_list(&mut self, items: &Vec<Expression>)
        requires
            exprs_ok(items@, old(self).room()),
        ensures
            final(self).wrote(
                *old(self),
                exprs_code(items@, old(self).minified(), old(self).depth()),
            ),
            quoted_exprs(items@),
        decreases items,
    {
        let ghost before = *self;
        let mut i: usize = 0;
        while i < items.len()
            invariant
                forall|j: int| 0 <= j < i ==> quoted_expr(#[trigger] items@[j]),
                i <= items.len(),
                exprs_ok(items@, before.room()),
                self.wrote(
                    before,
                    exprs_code(items@.subrange(0, i as int), before.minified(), before.depth()),
                ),
            decreases items.len() - i,
        {
            if i > 0 {
                self.write_min(", ", ",");
            }
            items[i].to_code(self);
            assert(items@.subrange(0, i + 1).subrange(0, i as int) =~= items@.subrange(
                0,
                i as int,
            ));
            i = i + 1;
        }
        assert(items@.subrange(0, items.len() as int) =~= items@);
    }

    /// Writes declarators separated by commas.
    pub fn write_declarator_list(&mut self, items: &Vec<VariableDeclarator>)
        requires
            decls_ok(items@, old(self).room()),
        ensures
            final(self).wrote(
                *old(self),
                decls_code(items@, old(self).minified(), old(self).depth()),
            ),
            quoted_decls(items@),
        decreases items,
    {
        let ghost before = *self;
        let mut i: usize = 0;
        while i < items.len()
            invariant
                forall|j: int| 0 <= j < i ==> quoted_declarator(#[trigger] items@[j]),
                i <= items.len(),
                decls_ok(items@, before.room()),
                self.wrote(
                    before,
                    decls_code(items@.subrange(0, i as int), before.minified(), before.depth()),
                ),
            decreases items.len() - i,
        {
            if i > 0 {
                self.write_min(", ", ",");
            }
            items[i].to_code(self);
            assert(items@.subrange(0, i + 1).subrange(0, i as int) =~= items@.subrange(
                0,
                i as int,
            ));
            i = i + 1;
        }
        assert(items@.subrange(0, items.len() as int) =~= items@);
    }

    /// Writes statements one level deeper, each on a new line, then a line
    /// break back at the current level.
    pub fn write_block(&mut self, items: &Vec<Statement>)
        requires
            old(self).room() >= 1,
            stmts_ok(items@, (old(self).room() - 1) as nat),
        ensures
            final(self).wrote(
                *old(self),
                stmts_lines(items@, old(self).minified(), old(self).depth() + 1) + newline(
                    old(self).minified(),
                    old(self).depth(),
                ),
            ),
            quoted_stmts(items@),
        decreases items,
    {
        let ghost before = *self;
        self.indent();
        let mut i: usize = 0;
        while i < items.len()
            invariant
                forall|j: int| 0 <= j < i ==> quoted_stmt(#[trigger] items@[j]),
                i <= items.len(),
                before.room() >= 1,
                stmts_ok(items@, (before.room() - 1) as nat),
                self.text() == before.text() + stmts_lines(
                    items@.subrange(0, i as int),
                    before.minified(),
                    before.depth() + 1,
                ),
                self.depth() == before.depth() + 1,
                self.minified() == before.minified(),
            decreases items.len() - i,
        {
            self.new_line();
            items[i].to_code(self);
            assert(items@.subrange(0, i + 1).subrange(0, i as int) =~= items@.subrange(
                0,
                i as int,
            ));
            i = i + 1;
        }
        assert(items@.subrange(0, items.len() as int) =~= items@);
        self.dedent();
        self.new_line();
    }

    /// Writes class members one level deeper, each on a new line, then a line
    /// break back at the current level.
    pub fn write_class_block(&mut self, items: &Vec<ClassMember>)
        requires
            old(self).room() >= 1,
            class_ok(items@, (old(self).room() - 1) as nat),
        ensures
            final(self).wrote(
                *old(self),
                class_lines(items@, old(self).minified(), old(self).depth() + 1) + newline(
                    old(self).minified(),
                    old(self).depth(),
                ),
            ),
            quoted_class(items@),
        decreases items,
    {
        let ghost before = *self;
        self.indent();
        let mut i: usize = 0;
        while i < items.len()
            invariant
                quoted_class(items@.subrange(0, i as int)),
                i <= items.len(),
                before.room() >= 1,
                class_ok(items@, (before.room() - 1) as nat),
                self.text() == before.text() + class_lines(
                    items@.subrange(0, i as int),
                    before.minified(),
                    before.depth() + 1,
                ),
                self.depth() == before.depth() + 1,
                self.minified() == before.minified(),
            decreases items.len() - i,
        {
            self.new_line();
            items[i].to_code(self);
            proof {
                lemma_quoted_class_step(items@, i as int);
            }
            assert(items@.subrange(0, i + 1).subrange(0, i as int) =~= items@.subrange(
                0,
                i as int,
            ));
            i = i + 1;
        }
        assert(items@.subrange(0, items.len() as int) =~= items@);
        self.dedent();
        self.new_line();
    }

    /// Writes the head of a `for` loop: a declaration without its semicolon,
    /// or an expression; other statements are excluded by the precondition.
    pub fn write_declaration_or_expression(&mut self, statement: &Statement)
        requires
            init_ok(*statement, old(self).room()),
        ensures
            final(self).wrote(
                *old(self),
                init_code(*statement, old(self).minified(), old(self).depth()),
            ),
            quoted_stmt(*statement),
        decreases statement,
    {
        match statement {
            Statement::VariableDeclaration { kind, declarators } => {
                kind.to_code(self);
                self.write_char(' ');
                self.write_declarator_list(declarators);
            },
            Statement::Expression { value } => {
                value.to_code(self);
            },
            _ => {},
        }
    }

    /// Writes an expression if there is one.
    pub fn write_optional(&mut self, value: &Option<Expression>)
        requires
            optional_ok(*value, old(self).room()),
        ensures
            final(self).wrote(
                *old(self),
                optional_code(*value, old(self).minified(), old(self).depth()),
            ),
            match *value {
                Some(e) => quoted_expr(e),
                None => true,
            },
        decreases value,
    {
        match value {
            Some(value) => value.to_code(self),
            None => {},
        }
    }
}


impl MemberKey {
    /// Writes `.name` or `[expr]`.
    pub fn to_code(&self, gen: &mut Generator)
        requires
            key_ok(*self, old(gen).room()),
        ensures
            final(gen).wrote(*old(gen), key_code(*self, old(gen).minified(), old(gen).depth())),
            quoted_key(*self),
        decreases self,
    {
        match self {
            MemberKey::Literal(string) => {
                gen.write_char('.');
                gen.write(string.as_str());
            },
            MemberKey::Computed(expr) => {
                gen.write_char('[');
                expr.to_code(gen);
                gen.write_char(']');
            },
        }
    }
}

impl VariableDeclarator {
    /// Writes `name` or `name = value`.
    pub fn to_code(&self, gen: &mut Generator)
        requires
            declarator_ok(*self, old(gen).room()),
        ensures
            final(gen).wrote(
                *old(gen),
                declarator_code(*self, old(gen).minified(), old(gen).depth()),
            ),
            quoted_declarator(*self),
        decreases self,
    {
        gen.write(self.name.as_str());
        match &self.value {
            Some(value) => {
                gen.write_min(" = ", "=");
                value.to_code(gen);
            },
            None => {},
        }
    }
}

impl ObjectMember {
    /// Writes one member of an object literal.
    pub fn to_code(&self, gen: &mut Generator)
        requires
            member_ok(*self, old(gen).room()),
        ensures
            final(gen).wrote(*old(gen), member_code(*self, old(gen).minified(), old(gen).depth())),
            quoted_member(*self),
        decreases self,
    {
        match self {
            ObjectMember::Shorthand { key } => gen.write(key.as_str()),
            ObjectMember::Literal { key, value } => {
                if is_identifier(key) {
                    gen.write(key.as_str());
                } else {
                    let quoted = debug_text(key);
                    proof {
                        lemma_plain_from_chars(quoted@);
                    }
                    gen.write(quoted.as_str());
                }
                gen.write_min(": ", ":");
                value.to_code(gen);
            },
            ObjectMember::Computed { key, value } => {
                gen.write_char('[');
                key.to_code(gen);
                gen.write_min("]: ", "]:");
                value.to_code(gen);
            },
            ObjectMember::Method { name, params, body } => {
                gen.write(name.as_str());
                gen.write_char('(');
                gen.write_param_list(params);
                gen.write_min(") {", "){");
                gen.write_block(body);
                gen.write_char('}');
            },
            ObjectMember::ComputedMethod { name, params, body } => {
                gen.write_char('[');
                name.to_code(gen);
                gen.write("](");
                gen.write_param_list(params);
                gen.write_min(") {", "){");
                gen.write_block(body);
                gen.write_char('}');
            },
        }
    }
}

impl ClassMember {
    /// Writes one member of a class body.
    pub fn to_code(&self, gen: &mut Generator)
        requires
            class_member_ok(*self, old(gen).room()),
        ensures
            final(gen).wrote(
                *old(gen),
                class_member_code(*self, old(gen).minified(), old(gen).depth()),
            ),
            quoted_class_member(*self),
        decreases self,
    {
        match self {
            ClassMember::Constructor { params, body } => {
                gen.write("constructor(");
                gen.write_param_list(params);
                gen.write_min(") {", "){");
                gen.write_block(body);
                gen.write_char('}');
            },
            ClassMember::Method { is_static, name, params, body } => {
                if *is_static {
                    gen.write("static ");
                }
                gen.write(name.as_str());
                gen.write_char('(');
                gen.write_param_list(params);
                gen.write_min(") {", "){");
                gen.write_block(body);
                gen.write_char('}');
            },
            ClassMember::Property { is_static, name, value } => {
                if *is_static {
                    gen.write("static ");
                }
                gen.write(name.as_str());
                gen.write_min(" = ", "=");
                value.to_code(gen);
                gen.write_char(';');
            },
        }
    }
}

impl Expression {
    /// Writes the expression. The left operand of a binary expression is put
    /// in parentheses when it binds less tightly than the expression itself.
    pub fn to_code(&self, gen: &mut Generator)
        requires
            expr_ok(*self, old(gen).room()),
        ensures
            final(gen).wrote(*old(gen), expr_code(*self, old(gen).minified(), old(gen).depth())),
            quoted_expr(*self),
            flat_expr(*self) ==> expr_code(*self, false, old(gen).depth() + 1) == deepen(
                expr_code(*self, false, old(gen).depth()),
            ),
            flat_expr(*self) ==> plain(expr_code(*self, true, old(gen).depth())),
        decreases self,
    {
        match self {
            Expression::This => gen.write("this"),
            Expression::Identifier(ident) => gen.write(ident.as_str()),
            Expression::Literal(literal) => literal.to_code(gen),
            Expression::Array(items) => {
                gen.write_char('[');
                gen.write_list(items);
                gen.write_char(']');
            },
            Expression::Sequence(items) => {
                gen.write_char('(');
                gen.write_list(items);
                gen.write_char(')');
            },
            Expression::Object(members) => gen.write_object(members),
            Expression::Member { object, property } => {
                object.to_code(gen);
                property.to_code(gen);
            },
            Expression::Call { callee, arguments } => {
                callee.to_code(gen);
                gen.write_char('(');
                gen.write_list(arguments);
                gen.write_char(')');
            },
            Expression::Binary { left, operator, right } => {
                if left.binding_power() < self.binding_power() {
                    gen.write_char('(');
                    left.to_code(gen);
                    gen.write_char(')');
                } else {
                    left.to_code(gen);
                }
                gen.write_min(" ", "");
                operator.to_code(gen);
                gen.write_min(" ", "");
                right.to_code(gen);
            },
            Expression::Prefix { operator, operand } => {
                operator.to_code(gen);
                operand.to_code(gen);
            },
            Expression::Postfix { operator, operand } => {
                operand.to_code(gen);
                operator.to_code(gen);
            },
            Expression::Conditional { test, consequent, alternate } => {
                test.to_code(gen);
                gen.write_min(" ? ", "?");
                consequent.to_code(gen);
                gen.write_min(" : ", ":");
                alternate.to_code(gen);
            },
            Expression::ArrowFunction { params, body } => {
                if params.len() == 1 {
                    params[0].to_code(gen);
                } else {
                    gen.write_char('(');
                    gen.write_param_list(params);
                    gen.write_char(')');
                }
                gen.write_min(" => ", "=>");
                match &**body {
                    Statement::Expression { value } => value.to_code(gen),
                    _ => body.to_code(gen),
                }
            },
            Expression::Function { name, params, body } => {
                gen.write("function");
                match name {
                    Some(name) => {
                        gen.write_char(' ');
                        gen.write(name.as_str());
                    },
                    None => gen.write_min(" ", ""),
                }
                gen.write_char('(');
                gen.write_param_list(params);
                gen.write_min(") {", "){");
                gen.write_block(body);
                gen.write_char('}');
            },
        }
        proof {
            if flat_expr(*self) {
                layout_expr(*self, old(gen).depth());
            }
        }
    }
}

impl Generator {
    /// Writes an object literal: its members one level deeper, each on a new
    /// line, separated by commas.
    pub fn write_object(&mut self, members: &Vec<ObjectMember>)
        requires
            old(self).room() >= 1,
            members_ok(members@, (old(self).room() - 1) as nat),
        ensures
            final(self).wrote(
                *old(self),
                seq!['{'] + members_code(members@, old(self).minified(), old(self).depth() + 1)
                    + newline(old(self).minified(), old(self).depth()) + seq!['}'],
            ),
            quoted_members(members@),
        decreases members,
    {
        let ghost before = *self;
        self.write_char('{');
        self.indent();
        let mut i: usize = 0;
        while i < members.len()
            invariant
                forall|j: int| 0 <= j < i ==> quoted_member(#[trigger] members@[j]),
                i <= members.len(),
                before.room() >= 1,
                members_ok(members@, (before.room() - 1) as nat),
                self.text() == before.text() + seq!['{'] + members_code(
                    members@.subrange(0, i as int),
                    before.minified(),
                    before.depth() + 1,
                ),
                self.depth() == before.depth() + 1,
                self.minified() == before.minified(),
            decreases members.len() - i,
        {
            if i > 0 {
                self.write_char(',');
            }
            self.new_line();
            members[i].to_code(self);
            assert(members@.subrange(0, i + 1).subrange(0, i as int) =~= members@.subrange(
                0,
                i as int,
            ));
            i = i + 1;
        }
        assert(members@.subrange(0, members.len() as int) =~= members@);
        self.dedent();
        self.new_line();
        self.write_char('}');
    }
}


impl Statement {
    /// Writes the statement. Function and class declarations stand on lines
    /// of their own.
    pub fn to_code(&self, gen: &mut Generator)
        requires
            stmt_ok(*self, old(gen).room()),
        ensures
            final(gen).wrote(*old(gen), stmt_code(*self, old(gen).minified(), old(gen).depth())),
            quoted_stmt(*self),
            flat_stmt(*self) ==> stmt_code(*self, false, old(gen).depth() + 1) == deepen(
                stmt_code(*self, false, old(gen).depth()),
            ),
            flat_stmt(*self) ==> plain(stmt_code(*self, true, old(gen).depth())),
        decreases self,
    {
        match self {
            Statement::Labeled { label, body } => {
                gen.write(label.as_str());
                gen.write_min(": ", ":");
                body.to_code(gen);
            },
            Statement::Block { body } => {
                gen.write_char('{');
                gen.write_block(body);
                gen.write_char('}');
            },
            Statement::Expression { value } => {
                value.to_code(gen);
                gen.write_char(';');
            },
            Statement::Return { value } => {
                gen.write("return");
                match value {
                    Some(value) => {
                        gen.write_char(' ');
                        value.to_code(gen);
                    },
                    None => {},
                }
                gen.write_char(';');
            },
            Statement::Break { label } => {
                gen.write("break");
                match label {
                    Some(label) => {
                        gen.write_char(' ');
                        gen.write(label.as_str());
                    },
                    None => {},
                }
                gen.write_char(';');
            },
            Statement::VariableDeclaration { kind, declarators } => {
                kind.to_code(gen);
                gen.write_char(' ');
                gen.write_declarator_list(declarators);
                gen.write_char(';');
            },
            Statement::Function { name, params, body } => {
                gen.new_line();
                gen.write("function ");
                gen.write(name.as_str());
                gen.write_char('(');
                gen.write_param_list(params);
                gen.write_min(") {", "){");
                gen.write_block(body);
                gen.write_char('}');
                gen.new_line();
            },
            Statement::If { test, consequent, alternate } => {
                gen.write_min("if (", "if(");
                test.to_code(gen);
                gen.write_min(") ", ")");
                consequent.to_code(gen);
                match alternate {
                    Some(alternate) => {
                        gen.write(" else ");
                        alternate.to_code(gen);
                    },
                    None => {},
                }
            },
            Statement::While { test, body } => {
                gen.write_min("while (", "while(");
                test.to_code(gen);
                gen.write_min(") ", ")");
                body.to_code(gen);
            },
            Statement::For { init, test, update, body } => {
                gen.write_min("for (", "for(");
                match init {
                    Some(init) => gen.write_declaration_or_expression(init),
                    None => {},
                }
                gen.write_min("; ", ";");
                gen.write_optional(test);
                gen.write_min("; ", ";");
                gen.write_optional(update);
                gen.write_min(") ", ")");
                body.to_code(gen);
            },
            Statement::ForIn { left, right, body } => {
                gen.write_min("for (", "for(");
                gen.write_declaration_or_expression(left);
                gen.write(" in ");
                right.to_code(gen);
                gen.write_min(") ", ")");
                body.to_code(gen);
            },
            Statement::ForOf { left, right, body } => {
                gen.write_min("for (", "for(");
                gen.write_declaration_or_expression(left);
                gen.write(" of ");
                right.to_code(gen);
                gen.write_min(") ", ")");
                body.to_code(gen);
            },
            Statement::Class { name, extends, body } => {
                gen.new_line();
                gen.write("class ");
                gen.write(name.as_str());
                match extends {
                    Some(super_class) => {
                        gen.write(" extends ");
                        gen.write(super_class.as_str());
                    },
                    None => {},
                }
                gen.write_min(" {", "{");
                gen.write_class_block(body);
                gen.write_char('}');
                gen.new_line();
            },
        }
        proof {
            if flat_stmt(*self) {
                layout_stmt(*self, old(gen).depth());
            }
        }
    }
}

/// Prints a program: each top-level statement followed by a line break,
/// pretty or minified.
pub fn generate_code(program: Program, minify: bool) -> (code: String)
    requires
        stmts_ok(program.body@, u16::MAX as nat),
    ensures
        code@ == program_code(program.body@, minify),
        quoted_stmts(program.body@),
        minify && flat_stmts(program.body@) ==> plain(code@),
{
    let mut gen = Generator::new(minify);
    let body = program.body;
    let mut i: usize = 0;
    while i < body.len()
        invariant
            i <= body.len(),
            stmts_ok(body@, u16::MAX as nat),
            forall|j: int| 0 <= j < i ==> quoted_stmt(#[trigger] body@[j]),
            gen.text() == program_code(body@.subrange(0, i as int), minify),
            gen.depth() == 0,
            gen.minified() == minify,
        decreases body.len() - i,
    {
        body[i].to_code(&mut gen);
        gen.new_line();
        assert(body@.subrange(0, i + 1).subrange(0, i as int) =~= body@.subrange(0, i as int));
        i = i + 1;
    }
    assert(body@.subrange(0, body.len() as int) =~= body@);
    proof {
        if minify && flat_stmts(body@) {
            layout_program(body@);
        }
    }
    gen.consume()
}

} // verus!
