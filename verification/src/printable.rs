//! Which trees the printer can print: those in which every `for` head is a
//! declaration or an expression, every quoted-or-bare object key is non-empty,
//! and the blocks nest no deeper than the indentation level can count.
//!
//! `r` is how many more levels of indentation the generator can take.

use vstd::prelude::*;

use crate::ast::ClassMember;
use crate::ast::Expression;
use crate::ast::MemberKey;
use crate::ast::Program;
use crate::ast::ObjectMember;
use crate::ast::Statement;
use crate::ast::VariableDeclarator;

verus! {

/// The expression can be printed with `r` levels of indentation to spare.
pub open spec fn expr_ok(e: Expression, r: nat) -> bool
    decreases e,
{
    match e {
        Expression::Array(items) => exprs_ok(items@, r),
        Expression::Sequence(items) => exprs_ok(items@, r),
        Expression::Object(members) => r >= 1 && members_ok(members@, (r - 1) as nat),
        Expression::Member { object, property } => expr_ok(*object, r) && key_ok(*property, r),
        Expression::Call { callee, arguments } => expr_ok(*callee, r) && exprs_ok(arguments@, r),
        Expression::Binary { left, right, .. } => expr_ok(*left, r) && expr_ok(*right, r),
        Expression::Prefix { operand, .. } => expr_ok(*operand, r),
        Expression::Postfix { operand, .. } => expr_ok(*operand, r),
        Expression::Conditional { test, consequent, alternate } => expr_ok(*test, r) && expr_ok(
            *consequent,
            r,
        ) && expr_ok(*alternate, r),
        Expression::ArrowFunction { body, .. } => match *body {
            Statement::Expression { value } => expr_ok(value, r),
            _ => stmt_ok(*body, r),
        },
        Expression::Function { body, .. } => r >= 1 && stmts_ok(body@, (r - 1) as nat),
        _ => true,
    }
}

/// Every expression of the list can be printed.
pub open spec fn exprs_ok(s: Seq<Expression>, r: nat) -> bool
    decreases s,
{
    forall|i: int| 0 <= i < s.len() ==> expr_ok(#[trigger] s[i], r)
}

/// Every member of the list can be printed.
pub open spec fn members_ok(s: Seq<ObjectMember>, r: nat) -> bool
    decreases s,
{
    forall|i: int| 0 <= i < s.len() ==> member_ok(#[trigger] s[i], r)
}

/// The object member can be printed; a plain key must not be empty.
pub open spec fn member_ok(o: ObjectMember, r: nat) -> bool
    decreases o,
{
    match o {
        ObjectMember::Shorthand { .. } => true,
        ObjectMember::Literal { key, value } => key@.len() > 0 && expr_ok(value, r),
        ObjectMember::Computed { key, value } => expr_ok(key, r) && expr_ok(value, r),
        ObjectMember::Method { body, .. } => r >= 1 && stmts_ok(body@, (r - 1) as nat),
        ObjectMember::ComputedMethod { name, body, .. } => expr_ok(name, r) && r >= 1 && stmts_ok(
            body@,
            (r - 1) as nat,
        ),
    }
}

/// The member key can be printed.
pub open spec fn key_ok(k: MemberKey, r: nat) -> bool
    decreases k,
{
    match k {
        MemberKey::Literal(..) => true,
        MemberKey::Computed(expr) => expr_ok(expr, r),
    }
}

/// The declarator can be printed.
pub open spec fn declarator_ok(v: VariableDeclarator, r: nat) -> bool
    decreases v,
{
    match v.value {
        Some(value) => expr_ok(value, r),
        None => true,
    }
}

/// Every declarator of the list can be printed.
pub open spec fn decls_ok(s: Seq<VariableDeclarator>, r: nat) -> bool
    decreases s,
{
    forall|i: int| 0 <= i < s.len() ==> declarator_ok(#[trigger] s[i], r)
}

/// The optional expression can be printed.
pub open spec fn optional_ok(o: Option<Expression>, r: nat) -> bool {
    match o {
        Some(e) => expr_ok(e, r),
        None => true,
    }
}

/// The statement is a declaration or an expression statement that can be
/// printed as the head of a `for` loop.
pub open spec fn init_ok(s: Statement, r: nat) -> bool
    decreases s,
{
    match s {
        Statement::VariableDeclaration { declarators, .. } => decls_ok(declarators@, r),
        Statement::Expression { value } => expr_ok(value, r),
        _ => false,
    }
}

/// The statement can be printed.
pub open spec fn stmt_ok(s: Statement, r: nat) -> bool
    decreases s,
{
    match s {
        Statement::Labeled { body, .. } => stmt_ok(*body, r),
        Statement::Block { body } => r >= 1 && stmts_ok(body@, (r - 1) as nat),
        Statement::Expression { value } => expr_ok(value, r),
        Statement::Return { value } => match value {
            Some(v) => expr_ok(v, r),
            None => true,
        },
        Statement::Break { .. } => true,
        Statement::VariableDeclaration { declarators, .. } => decls_ok(declarators@, r),
        Statement::Function { body, .. } => r >= 1 && stmts_ok(body@, (r - 1) as nat),
        Statement::If { test, consequent, alternate } => expr_ok(test, r) && stmt_ok(
            *consequent,
            r,
        ) && (match alternate {
            Some(a) => stmt_ok(*a, r),
            None => true,
        }),
        Statement::While { test, body } => expr_ok(test, r) && stmt_ok(*body, r),
        Statement::For { init, test, update, body } => (match init {
            Some(i) => init_ok(*i, r),
            None => true,
        }) && (match test {
            Some(t) => expr_ok(t, r),
            None => true,
        }) && (match update {
            Some(u) => expr_ok(u, r),
            None => true,
        }) && stmt_ok(*body, r),
        Statement::ForIn { left, right, body } => init_ok(*left, r) && expr_ok(right, r)
            && stmt_ok(*body, r),
        Statement::ForOf { left, right, body } => init_ok(*left, r) && expr_ok(right, r)
            && stmt_ok(*body, r),
        Statement::Class { body, .. } => r >= 1 && class_ok(body@, (r - 1) as nat),
    }
}

/// Every statement of the list can be printed.
pub open spec fn stmts_ok(s: Seq<Statement>, r: nat) -> bool
    decreases s,
{
    forall|i: int| 0 <= i < s.len() ==> stmt_ok(#[trigger] s[i], r)
}

/// Every class member of the list can be printed.
pub open spec fn class_ok(s: Seq<ClassMember>, r: nat) -> bool
    decreases s,
{
    forall|i: int| 0 <= i < s.len() ==> class_member_ok(#[trigger] s[i], r)
}

/// The class member can be printed.
pub open spec fn class_member_ok(c: ClassMember, r: nat) -> bool
    decreases c,
{
    match c {
        ClassMember::Constructor { body, .. } => r >= 1 && stmts_ok(body@, (r - 1) as nat),
        ClassMember::Method { body, .. } => r >= 1 && stmts_ok(body@, (r - 1) as nat),
        ClassMember::Property { value, .. } => expr_ok(value, r),
    }
}


/// Whether every expression of the list can be printed with `room` levels to spare.
pub fn exprs_printable(items: &Vec<Expression>, room: u16) -> (ok: bool)
    ensures
        ok == exprs_ok(items@, room as nat),
    decreases items,
{
    let mut i: usize = 0;
    while i < items.len()
        invariant
            i <= items.len(),
            forall|j: int| 0 <= j < i ==> expr_ok(#[trigger] items@[j], room as nat),
        decreases items.len() - i,
    {
        if !items[i].printable(room) {
            return false;
        }
        i = i + 1;
    }
    true
}

/// Whether every object member of the list can be printed.
pub fn members_printable(items: &Vec<ObjectMember>, room: u16) -> (ok: bool)
    ensures
        ok == members_ok(items@, room as nat),
    decreases items,
{
    let mut i: usize = 0;
    while i < items.len()
        invariant
            i <= items.len(),
            forall|j: int| 0 <= j < i ==> member_ok(#[trigger] items@[j], room as nat),
        decreases items.len() - i,
    {
        if !items[i].printable(room) {
            return false;
        }
        i = i + 1;
    }
    true
}

/// Whether every declarator of the list can be printed.
pub fn decls_printable(items: &Vec<VariableDeclarator>, room: u16) -> (ok: bool)
    ensures
        ok == decls_ok(items@, room as nat),
    decreases items,
{
    let mut i: usize = 0;
    while i < items.len()
        invariant
            i <= items.len(),
            forall|j: int| 0 <= j < i ==> declarator_ok(#[trigger] items@[j], room as nat),
        decreases items.len() - i,
    {
        if !items[i].printable(room) {
            return false;
        }
        i = i + 1;
    }
    true
}

/// Whether every statement of the list can be printed.
pub fn stmts_printable(items: &Vec<Statement>, room: u16) -> (ok: bool)
    ensures
        ok == stmts_ok(items@, room as nat),
    decreases items,
{
    let mut i: usize = 0;
    while i < items.len()
        invariant
            i <= items.len(),
            forall|j: int| 0 <= j < i ==> stmt_ok(#[trigger] items@[j], room as nat),
        decreases items.len() - i,
    {
        if !items[i].printable(room) {
            return false;
        }
        i = i + 1;
    }
    true
}

/// Whether every class member of the list can be printed.
pub fn class_printable(items: &Vec<ClassMember>, room: u16) -> (ok: bool)
    ensures
        ok == class_ok(items@, room as nat),
    decreases items,
{
    let mut i: usize = 0;
    while i < items.len()
        invariant
            i <= items.len(),
            forall|j: int| 0 <= j < i ==> class_member_ok(#[trigger] items@[j], room as nat),
        decreases items.len() - i,
    {
        if !items[i].printable(room) {
            return false;
        }
        i = i + 1;
    }
    true
}

/// Whether the statement is a declaration or an expression statement that
/// can be printed as the head of a `for` loop.
pub fn init_printable(s: &Statement, room: u16) -> (ok: bool)
    ensures
        ok == init_ok(*s, room as nat),
    decreases s,
{
    match s {
        Statement::VariableDeclaration { declarators, .. } => decls_printable(declarators, room),
        Statement::Expression { value } => value.printable(room),
        _ => false,
    }
}

/// Whether the optional expression can be printed.
pub fn optional_printable(o: &Option<Expression>, room: u16) -> (ok: bool)
    ensures
        ok == optional_ok(*o, room as nat),
    decreases o,
{
    match o {
        Some(e) => e.printable(room),
        None => true,
    }
}

impl Expression {
    /// Whether the expression can be printed with `room` levels to spare.
    pub fn printable(&self, room: u16) -> (ok: bool)
        ensures
            ok == expr_ok(*self, room as nat),
        decreases self,
    {
        match self {
            Expression::Array(items) => exprs_printable(items, room),
            Expression::Sequence(items) => exprs_printable(items, room),
            Expression::Object(members) => room >= 1 && members_printable(members, room - 1),
            Expression::Member { object, property } => object.printable(room)
                && property.printable(room),
            Expression::Call { callee, arguments } => callee.printable(room) && exprs_printable(
                arguments,
                room,
            ),
            Expression::Binary { left, right, .. } => left.printable(room) && right.printable(room),
            Expression::Prefix { operand, .. } => operand.printable(room),
            Expression::Postfix { operand, .. } => operand.printable(room),
            Expression::Conditional { test, consequent, alternate } => test.printable(room)
                && consequent.printable(room) && alternate.printable(room),
            Expression::ArrowFunction { body, .. } => match &**body {
                Statement::Expression { value } => value.printable(room),
                _ => body.printable(room),
            },
            Expression::Function { body, .. } => room >= 1 && stmts_printable(body, room - 1),
            _ => true,
        }
    }
}

impl ObjectMember {
    /// Whether the object member can be printed; a plain key must not be empty.
    pub fn printable(&self, room: u16) -> (ok: bool)
        ensures
            ok == member_ok(*self, room as nat),
        decreases self,
    {
        match self {
            ObjectMember::Shorthand { .. } => true,
            ObjectMember::Literal { key, value } => !key.as_str().is_empty() && value.printable(
                room,
            ),
            ObjectMember::Computed { key, value } => key.printable(room) && value.printable(room),
            ObjectMember::Method { body, .. } => room >= 1 && stmts_printable(body, room - 1),
            ObjectMember::ComputedMethod { name, body, .. } => name.printable(room) && room >= 1
                && stmts_printable(body, room - 1),
        }
    }
}

impl MemberKey {
    /// Whether the member key can be printed.
    pub fn printable(&self, room: u16) -> (ok: bool)
        ensures
            ok == key_ok(*self, room as nat),
        decreases self,
    {
        match self {
            MemberKey::Literal(..) => true,
            MemberKey::Computed(expr) => expr.printable(room),
        }
    }
}

impl VariableDeclarator {
    /// Whether the declarator can be printed.
    pub fn printable(&self, room: u16) -> (ok: bool)
        ensures
            ok == declarator_ok(*self, room as nat),
        decreases self,
    {
        match &self.value {
            Some(value) => value.printable(room),
            None => true,
        }
    }
}

impl Statement {
    /// Whether the statement can be printed with `room` levels to spare.
    pub fn printable(&self, room: u16) -> (ok: bool)
        ensures
            ok == stmt_ok(*self, room as nat),
        decreases self,
    {
        match self {
            Statement::Labeled { body, .. } => body.printable(room),
            Statement::Block { body } => room >= 1 && stmts_printable(body, room - 1),
            Statement::Expression { value } => value.printable(room),
            Statement::Return { value } => optional_printable(value, room),
            Statement::Break { .. } => true,
            Statement::VariableDeclaration { declarators, .. } => decls_printable(
                declarators,
                room,
            ),
            Statement::Function { body, .. } => room >= 1 && stmts_printable(body, room - 1),
            Statement::If { test, consequent, alternate } => test.printable(room)
                && consequent.printable(room) && match alternate {
                Some(a) => a.printable(room),
                None => true,
            },
            Statement::While { test, body } => test.printable(room) && body.printable(room),
            Statement::For { init, test, update, body } => (match init {
                Some(i) => init_printable(i, room),
                None => true,
            }) && optional_printable(test, room) && optional_printable(update, room)
                && body.printable(room),
            Statement::ForIn { left, right, body } => init_printable(left, room) && right.printable(
                room,
            ) && body.printable(room),
            Statement::ForOf { left, right, body } => init_printable(left, room) && right.printable(
                room,
            ) && body.printable(room),
            Statement::Class { body, .. } => room >= 1 && class_printable(body, room - 1),
        }
    }
}

impl ClassMember {
    /// Whether the class member can be printed.
    pub fn printable(&self, room: u16) -> (ok: bool)
        ensures
            ok == class_member_ok(*self, room as nat),
        decreases self,
    {
        match self {
            ClassMember::Constructor { body, .. } => room >= 1 && stmts_printable(body, room - 1),
            ClassMember::Method { body, .. } => room >= 1 && stmts_printable(body, room - 1),
            ClassMember::Property { value, .. } => value.printable(room),
        }
    }
}

/// Whether `generate_code` can print the program: every `for` head is a
/// declaration or an expression, every plain object key is non-empty, and
/// blocks nest no deeper than the indentation level can count.
pub fn program_printable(program: &Program) -> (ok: bool)
    ensures
        ok == stmts_ok(program.body@, u16::MAX as nat),
{
    stmts_printable(&program.body, u16::MAX)
}

} // verus!
