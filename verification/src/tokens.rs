//! Facts about the operator tokens: each is a non-empty run of visible
//! ASCII characters, and no two operators share a token.

use vstd::prelude::*;

use crate::ast::OperatorType;
use crate::render::operator_text;

verus! {

/// A visible ASCII character: neither whitespace nor a control character.
pub open spec fn visible(c: char) -> bool {
    33 <= (c as int) <= 126
}

/// The first `n` characters of `s` are visible.
pub open spec fn visible_upto(s: Seq<char>, n: int) -> bool
    decreases n,
{
    if n <= 0 {
        true
    } else {
        visible_upto(s, n - 1) && visible(s[n - 1])
    }
}

/// The first `n` characters of `s` read as a number in base 128.
pub open spec fn code_upto(s: Seq<char>, n: int) -> int
    decreases n,
{
    if n <= 0 {
        0
    } else {
        code_upto(s, n - 1) * 128 + (s[n - 1] as int)
    }
}

/// A text read as a number in base 128.
pub open spec fn token_code(s: Seq<char>) -> int {
    code_upto(s, s.len() as int)
}

/// Every character of the first `n` is visible when `visible_upto` holds.
pub proof fn lemma_visible_upto(s: Seq<char>, n: int)
    requires
        0 <= n <= s.len(),
        visible_upto(s, n),
    ensures
        forall|i: int| 0 <= i < n ==> visible(#[trigger] s[i]),
    decreases n,
{
    if n > 0 {
        lemma_visible_upto(s, n - 1);
    }
}

/// The operator whose token reads as `n` in base 128.
pub open spec fn operator_of_code(n: int) -> Option<OperatorType> {
    if n == 7870 {
        Some(OperatorType::FatArrow)
    } else if n == 46 {
        Some(OperatorType::Accessor)
    } else if n == 1815287 {
        Some(OperatorType::New)
    } else if n == 5547 {
        Some(OperatorType::Increment)
    } else if n == 5805 {
        Some(OperatorType::Decrement)
    } else if n == 33 {
        Some(OperatorType::LogicalNot)
    } else if n == 126 {
        Some(OperatorType::BitwiseNot)
    } else if n == 4018446890982 {
        Some(OperatorType::Typeof)
    } else if n == 249296100 {
        Some(OperatorType::Void)
    } else if n == 3463313980005 {
        Some(OperatorType::Delete)
    } else if n == 42 {
        Some(OperatorType::Multiplication)
    } else if n == 47 {
        Some(OperatorType::Division)
    } else if n == 37 {
        Some(OperatorType::Remainder)
    } else if n == 5418 {
        Some(OperatorType::Exponent)
    } else if n == 43 {
        Some(OperatorType::Addition)
    } else if n == 45 {
        Some(OperatorType::Substraction)
    } else if n == 7740 {
        Some(OperatorType::BitShiftLeft)
    } else if n == 7998 {
        Some(OperatorType::BitShiftRight)
    } else if n == 1023806 {
        Some(OperatorType::UBitShiftRight)
    } else if n == 60 {
        Some(OperatorType::Lesser)
    } else if n == 7741 {
        Some(OperatorType::LesserEquals)
    } else if n == 62 {
        Some(OperatorType::Greater)
    } else if n == 7997 {
        Some(OperatorType::GreaterEquals)
    } else if n == 976445651994594080742 {
        Some(OperatorType::Instanceof)
    } else if n == 13550 {
        Some(OperatorType::In)
    } else if n == 1007293 {
        Some(OperatorType::StrictEquality)
    } else if n == 548541 {
        Some(OperatorType::StrictInequality)
    } else if n == 7869 {
        Some(OperatorType::Equality)
    } else if n == 4285 {
        Some(OperatorType::Inequality)
    } else if n == 38 {
        Some(OperatorType::BitwiseAnd)
    } else if n == 94 {
        Some(OperatorType::BitwiseXor)
    } else if n == 124 {
        Some(OperatorType::BitwiseOr)
    } else if n == 4902 {
        Some(OperatorType::LogicalAnd)
    } else if n == 15996 {
        Some(OperatorType::LogicalOr)
    } else if n == 63 {
        Some(OperatorType::Conditional)
    } else if n == 61 {
        Some(OperatorType::Assign)
    } else if n == 5565 {
        Some(OperatorType::AddAssign)
    } else if n == 5821 {
        Some(OperatorType::SubstractAssign)
    } else if n == 693565 {
        Some(OperatorType::ExponentAssign)
    } else if n == 5437 {
        Some(OperatorType::MultiplyAssign)
    } else if n == 6077 {
        Some(OperatorType::DivideAssign)
    } else if n == 4797 {
        Some(OperatorType::RemainderAssign)
    } else if n == 990781 {
        Some(OperatorType::BSLAssign)
    } else if n == 1023805 {
        Some(OperatorType::BSRAssign)
    } else if n == 131047229 {
        Some(OperatorType::UBSRAssign)
    } else if n == 4925 {
        Some(OperatorType::BitAndAssign)
    } else if n == 12093 {
        Some(OperatorType::BitXorAssign)
    } else if n == 15933 {
        Some(OperatorType::BitOrAssign)
    } else if n == 759598 {
        Some(OperatorType::Spread)
    } else {
        None
    }
}

/// Each operator's token is visible ASCII and reads back to the operator.
#[verifier::rlimit(50)]
pub proof fn lemma_operator_token(op: OperatorType)
    ensures
        operator_text(op).len() > 0,
        visible_upto(operator_text(op), operator_text(op).len() as int),
        operator_of_code(token_code(operator_text(op))) == Some(op),
{
    reveal_with_fuel(code_upto, 11);
    reveal_with_fuel(visible_upto, 11);
    match op {
        OperatorType::FatArrow => reveal_strlit("=>"),
        OperatorType::Accessor => reveal_strlit("."),
        OperatorType::New => reveal_strlit("new"),
        OperatorType::Increment => reveal_strlit("++"),
        OperatorType::Decrement => reveal_strlit("--"),
        OperatorType::LogicalNot => reveal_strlit("!"),
        OperatorType::BitwiseNot => reveal_strlit("~"),
        OperatorType::Typeof => reveal_strlit("typeof"),
        OperatorType::Void => reveal_strlit("void"),
        OperatorType::Delete => reveal_strlit("delete"),
        OperatorType::Multiplication => reveal_strlit("*"),
        OperatorType::Division => reveal_strlit("/"),
        OperatorType::Remainder => reveal_strlit("%"),
        OperatorType::Exponent => reveal_strlit("**"),
        OperatorType::Addition => reveal_strlit("+"),
        OperatorType::Substraction => reveal_strlit("-"),
        OperatorType::BitShiftLeft => reveal_strlit("<<"),
        OperatorType::BitShiftRight => reveal_strlit(">>"),
        OperatorType::UBitShiftRight => reveal_strlit(">>>"),
        OperatorType::Lesser => reveal_strlit("<"),
        OperatorType::LesserEquals => reveal_strlit("<="),
        OperatorType::Greater => reveal_strlit(">"),
        OperatorType::GreaterEquals => reveal_strlit(">="),
        OperatorType::Instanceof => reveal_strlit("instanceof"),
        OperatorType::In => reveal_strlit("in"),
        OperatorType::StrictEquality => reveal_strlit("==="),
        OperatorType::StrictInequality => reveal_strlit("!=="),
        OperatorType::Equality => reveal_strlit("=="),
        OperatorType::Inequality => reveal_strlit("!="),
        OperatorType::BitwiseAnd => reveal_strlit("&"),
        OperatorType::BitwiseXor => reveal_strlit("^"),
        OperatorType::BitwiseOr => reveal_strlit("|"),
        OperatorType::LogicalAnd => reveal_strlit("&&"),
        OperatorType::LogicalOr => reveal_strlit("||"),
        OperatorType::Conditional => reveal_strlit("?"),
        OperatorType::Assign => reveal_strlit("="),
        OperatorType::AddAssign => reveal_strlit("+="),
        OperatorType::SubstractAssign => reveal_strlit("-="),
        OperatorType::ExponentAssign => reveal_strlit("**="),
        OperatorType::MultiplyAssign => reveal_strlit("*="),
        OperatorType::DivideAssign => reveal_strlit("/="),
        OperatorType::RemainderAssign => reveal_strlit("%="),
        OperatorType::BSLAssign => reveal_strlit("<<="),
        OperatorType::BSRAssign => reveal_strlit(">>="),
        OperatorType::UBSRAssign => reveal_strlit(">>>="),
        OperatorType::BitAndAssign => reveal_strlit("&="),
        OperatorType::BitXorAssign => reveal_strlit("^="),
        OperatorType::BitOrAssign => reveal_strlit("|="),
        OperatorType::Spread => reveal_strlit("..."),
    }
}

} // verus!
