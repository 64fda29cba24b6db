//! The syntax tree of the JavaScript subset that the code generator prints.

use vstd::prelude::*;

verus! {

/// Every operator the printer knows, prefix, infix, postfix and assignment.
#[derive(Debug, PartialEq, Eq, Structural, Clone, Copy)]
pub enum OperatorType {
    FatArrow,
    Accessor,
    New,
    Increment,
    Decrement,
    LogicalNot,
    BitwiseNot,
    Typeof,
    Void,
    Delete,
    Multiplication,
    Division,
    Remainder,
    Exponent,
    Addition,
    Substraction,
    BitShiftLeft,
    BitShiftRight,
    UBitShiftRight,
    Lesser,
    LesserEquals,
    Greater,
    GreaterEquals,
    Instanceof,
    In,
    StrictEquality,
    StrictInequality,
    Equality,
    Inequality,
    BitwiseAnd,
    BitwiseXor,
    BitwiseOr,
    LogicalAnd,
    LogicalOr,
    Conditional,
    Assign,
    AddAssign,
    SubstractAssign,
    ExponentAssign,
    MultiplyAssign,
    DivideAssign,
    RemainderAssign,
    BSLAssign,
    BSRAssign,
    UBSRAssign,
    BitAndAssign,
    BitXorAssign,
    BitOrAssign,
    Spread,
}

/// A literal value. A float literal carries the decimal text that Rust's
/// `Display` gives for the number; an integer literal carries the number.
#[derive(Debug, PartialEq)]
pub enum LiteralValue {
    LiteralUndefined,
    LiteralNull,
    LiteralTrue,
    LiteralFalse,
    LiteralInteger(i32),
    LiteralFloat(String),
    LiteralString(String),
}

/// A formal parameter of a function.
#[derive(Debug, PartialEq)]
pub struct Parameter {
    pub name: String,
}

/// An expression.
#[derive(Debug, PartialEq)]
pub enum Expression {
    This,
    Identifier(String),
    Literal(LiteralValue),
    Array(Vec<Expression>),
    Sequence(Vec<Expression>),
    Object(Vec<ObjectMember>),
    Member { object: Box<Expression>, property: Box<MemberKey> },
    Call { callee: Box<Expression>, arguments: Vec<Expression> },
    Binary { left: Box<Expression>, operator: OperatorType, right: Box<Expression> },
    Prefix { operator: OperatorType, operand: Box<Expression> },
    Postfix { operator: OperatorType, operand: Box<Expression> },
    Conditional {
        test: Box<Expression>,
        consequent: Box<Expression>,
        alternate: Box<Expression>,
    },
    ArrowFunction { params: Vec<Parameter>, body: Box<Statement> },
    Function { name: Option<String>, params: Vec<Parameter>, body: Vec<Statement> },
}

/// A member of an object literal.
#[derive(Debug, PartialEq)]
pub enum ObjectMember {
    Shorthand { key: String },
    Literal { key: String, value: Expression },
    Computed { key: Expression, value: Expression },
    Method { name: String, params: Vec<Parameter>, body: Vec<Statement> },
    ComputedMethod { name: Expression, params: Vec<Parameter>, body: Vec<Statement> },
}

/// The property part of a member access: `.name` or `[expr]`.
#[derive(Debug, PartialEq)]
pub enum MemberKey {
    Literal(String),
    Computed(Expression),
}

/// A member of a class body.
#[derive(Debug, PartialEq)]
pub enum ClassMember {
    Constructor { params: Vec<Parameter>, body: Vec<Statement> },
    Method { is_static: bool, name: String, params: Vec<Parameter>, body: Vec<Statement> },
    Property { is_static: bool, name: String, value: Expression },
}

/// The keyword of a variable declaration.
#[derive(Debug, PartialEq, Eq, Structural, Clone, Copy)]
pub enum VariableDeclarationKind {
    Var,
    Let,
    Const,
}

/// One `name` or `name = value` of a variable declaration.
#[derive(Debug, PartialEq)]
pub struct VariableDeclarator {
    pub name: String,
    pub value: Option<Expression>,
}

/// A statement.
#[derive(Debug, PartialEq)]
pub enum Statement {
    Labeled { label: String, body: Box<Statement> },
    Block { body: Vec<Statement> },
    Expression { value: Expression },
    Return { value: Option<Expression> },
    Break { label: Option<String> },
    VariableDeclaration { kind: VariableDeclarationKind, declarators: Vec<VariableDeclarator> },
    Function { name: String, params: Vec<Parameter>, body: Vec<Statement> },
    If { test: Expression, consequent: Box<Statement>, alternate: Option<Box<Statement>> },
    While { test: Expression, body: Box<Statement> },
    For {
        init: Option<Box<Statement>>,
        test: Option<Expression>,
        update: Option<Expression>,
        body: Box<Statement>,
    },
    ForIn { left: Box<Statement>, right: Expression, body: Box<Statement> },
    ForOf { left: Box<Statement>, right: Expression, body: Box<Statement> },
    Class { name: String, extends: Option<String>, body: Vec<ClassMember> },
}

/// A whole program: a list of top-level statements.
#[derive(Debug, PartialEq)]
pub struct Program {
    pub body: Vec<Statement>,
}

/// How tightly an operator binds; a greater number binds tighter.
/// `prefix` tells the prefix from the postfix use of `++` and `--`.
pub open spec fn operator_power(op: OperatorType, prefix: bool) -> u8 {
    match op {
        OperatorType::FatArrow | OperatorType::Accessor => 18,
        OperatorType::New => 17,
        OperatorType::Increment | OperatorType::Decrement => if prefix { 15 } else { 16 },
        OperatorType::LogicalNot | OperatorType::BitwiseNot | OperatorType::Typeof
        | OperatorType::Void | OperatorType::Delete => 15,
        OperatorType::Multiplication | OperatorType::Division | OperatorType::Remainder
        | OperatorType::Exponent => 14,
        OperatorType::Addition | OperatorType::Substraction => 13,
        OperatorType::BitShiftLeft | OperatorType::BitShiftRight
        | OperatorType::UBitShiftRight => 12,
        OperatorType::Lesser | OperatorType::LesserEquals | OperatorType::Greater
        | OperatorType::GreaterEquals | OperatorType::Instanceof | OperatorType::In => 11,
        OperatorType::StrictEquality | OperatorType::StrictInequality | OperatorType::Equality
        | OperatorType::Inequality => 10,
        OperatorType::BitwiseAnd => 9,
        OperatorType::BitwiseXor => 8,
        OperatorType::BitwiseOr => 7,
        OperatorType::LogicalAnd => 6,
        OperatorType::LogicalOr => 5,
        OperatorType::Conditional => 4,
        OperatorType::Assign | OperatorType::AddAssign | OperatorType::SubstractAssign
        | OperatorType::ExponentAssign | OperatorType::MultiplyAssign
        | OperatorType::DivideAssign | OperatorType::RemainderAssign | OperatorType::BSLAssign
        | OperatorType::BSRAssign | OperatorType::UBSRAssign | OperatorType::BitAndAssign
        | OperatorType::BitXorAssign | OperatorType::BitOrAssign => 3,
        OperatorType::Spread => 1,
    }
}

/// How tightly an expression binds as an operand; a greater number binds tighter.
pub open spec fn expression_power(e: Expression) -> u8 {
    match e {
        Expression::Member { .. } | Expression::ArrowFunction { .. } => 18,
        Expression::Call { .. } => 17,
        Expression::Prefix { .. } => 15,
        Expression::Binary { operator, .. } | Expression::Postfix { operator, .. } => operator_power(
            operator,
            false,
        ),
        Expression::Conditional { .. } => 4,
        _ => 100,
    }
}

impl OperatorType {
    /// The binding power of the operator, prefix or not.
    pub fn binding_power(&self, prefix: bool) -> (r: u8)
        ensures
            r == operator_power(*self, prefix),
    {
        match self {
            OperatorType::FatArrow | OperatorType::Accessor => 18,
            OperatorType::New => 17,
            OperatorType::Increment | OperatorType::Decrement => if prefix { 15 } else { 16 },
            OperatorType::LogicalNot | OperatorType::BitwiseNot | OperatorType::Typeof
            | OperatorType::Void | OperatorType::Delete => 15,
            OperatorType::Multiplication | OperatorType::Division | OperatorType::Remainder
            | OperatorType::Exponent => 14,
            OperatorType::Addition | OperatorType::Substraction => 13,
            OperatorType::BitShiftLeft | OperatorType::BitShiftRight
            | OperatorType::UBitShiftRight => 12,
            OperatorType::Lesser | OperatorType::LesserEquals | OperatorType::Greater
            | OperatorType::GreaterEquals | OperatorType::Instanceof | OperatorType::In => 11,
            OperatorType::StrictEquality | OperatorType::StrictInequality
            | OperatorType::Equality | OperatorType::Inequality => 10,
            OperatorType::BitwiseAnd => 9,
            OperatorType::BitwiseXor => 8,
            OperatorType::BitwiseOr => 7,
            OperatorType::LogicalAnd => 6,
            OperatorType::LogicalOr => 5,
            OperatorType::Conditional => 4,
            OperatorType::Assign | OperatorType::AddAssign | OperatorType::SubstractAssign
            | OperatorType::ExponentAssign | OperatorType::MultiplyAssign
            | OperatorType::DivideAssign | OperatorType::RemainderAssign
            | OperatorType::BSLAssign | OperatorType::BSRAssign | OperatorType::UBSRAssign
            | OperatorType::BitAndAssign | OperatorType::BitXorAssign
            | OperatorType::BitOrAssign => 3,
            OperatorType::Spread => 1,
        }
    }
}

impl Expression {
    /// The binding power of the expression as an operand.
    pub fn binding_power(&self) -> (r: u8)
        ensures
            r == expression_power(*self),
    {
        match self {
            Expression::Member { .. } | Expression::ArrowFunction { .. } => 18,
            Expression::Call { .. } => 17,
            Expression::Prefix { .. } => 15,
            Expression::Binary { operator, .. } | Expression::Postfix { operator, .. } => operator.binding_power(false),
            Expression::Conditional { .. } => 4,
            _ => 100,
        }
    }
}

} // verus!
