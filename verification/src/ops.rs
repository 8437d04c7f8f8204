use vstd::prelude::*;

use crate::fault::Fault;
use crate::sorts::{spec_classify_width, Sort};

verus! {

/// The closed vocabulary of unary operator tags.
#[derive(Clone, Copy, Debug, PartialEq, Eq, Structural)]
pub enum UniOp {
    Not,
    Inc,
    Dec,
    Neg,
}

/// The closed vocabulary of binary operator tags.
#[derive(Clone, Copy, Debug, PartialEq, Eq, Structural)]
pub enum BiOp {
    Iff,
    Implies,
    Eq,
    Neq,
    Sgt,
    Ugt,
    Sgte,
    Ugte,
    Slt,
    Ult,
    Slte,
    Ulte,
    And,
    Nand,
    Nor,
    Or,
    Xnor,
    Xor,
    Rol,
    Ror,
    Sll,
    Sra,
    Srl,
    Add,
    Mul,
    Sdiv,
    Udiv,
    Smod,
    Srem,
    Urem,
    Sub,
    Saddo,
    Uaddo,
    Sdivo,
    Udivo,
    Smulo,
    Umulo,
    Ssubo,
    Usubo,
    Concat,
    Read,
}

/// The closed vocabulary of ternary operator tags.
#[derive(Clone, Copy, Debug, PartialEq, Eq, Structural)]
pub enum TriOp {
    Ite,
    Write,
}

/// The closed vocabulary of width-extension operator tags.
#[derive(Clone, Copy, Debug, PartialEq, Eq, Structural)]
pub enum ExtOp {
    Sext,
    Uext,
}

/// The foreign unary primitives the dispatch table maps onto.
#[derive(Clone, Copy, Debug, PartialEq, Eq, Structural)]
pub enum UniPrim {
    /// Logical/bitwise complement.
    Not,
}

/// The foreign binary primitives the dispatch table maps onto.
#[derive(Clone, Copy, Debug, PartialEq, Eq, Structural)]
pub enum BiPrim {
    /// Equality.
    Eq,
    /// Disequality.
    Ne,
    /// Logical/bitwise conjunction.
    And,
    /// Unsigned less-than.
    Ult,
    /// Addition at the operand width.
    Add,
}

/// The foreign ternary primitives the dispatch table maps onto.
#[derive(Clone, Copy, Debug, PartialEq, Eq, Structural)]
pub enum TriPrim {
    /// If-then-else over a boolean condition.
    Cond,
}

/// The foreign width-extension primitives the dispatch table maps onto.
#[derive(Clone, Copy, Debug, PartialEq, Eq, Structural)]
pub enum ExtPrim {
    /// Zero extension to the target width.
    Uext,
    /// Sign extension to the target width.
    Sext,
}

/// Whether a unary tag has a mapped foreign primitive.
pub open spec fn uni_mapped(op: UniOp) -> bool {
    op is Not
}

/// Whether a binary tag has a mapped foreign primitive.
pub open spec fn bi_mapped(op: BiOp) -> bool {
    match op {
        BiOp::Eq | BiOp::Neq | BiOp::And | BiOp::Ult | BiOp::Add => true,
        _ => false,
    }
}

/// Whether a ternary tag has a mapped foreign primitive.
pub open spec fn tri_mapped(op: TriOp) -> bool {
    op is Ite
}

/// Whether a width-extension tag has a mapped foreign primitive. Both
/// extension shapes are mapped.
pub open spec fn ext_mapped(op: ExtOp) -> bool {
    true
}

/// The dispatch table for unary tags.
pub open spec fn spec_uni_primitive(op: UniOp) -> Result<UniPrim, Fault> {
    match op {
        UniOp::Not => Ok(UniPrim::Not),
        _ => Err(Fault::UnsupportedOperator),
    }
}

/// The dispatch table for binary tags.
pub open spec fn spec_bi_primitive(op: BiOp) -> Result<BiPrim, Fault> {
    match op {
        BiOp::Eq => Ok(BiPrim::Eq),
        BiOp::Neq => Ok(BiPrim::Ne),
        BiOp::And => Ok(BiPrim::And),
        BiOp::Ult => Ok(BiPrim::Ult),
        BiOp::Add => Ok(BiPrim::Add),
        _ => Err(Fault::UnsupportedOperator),
    }
}

/// The dispatch table for ternary tags.
pub open spec fn spec_tri_primitive(op: TriOp) -> Result<TriPrim, Fault> {
    match op {
        TriOp::Ite => Ok(TriPrim::Cond),
        _ => Err(Fault::UnsupportedOperator),
    }
}

/// The dispatch table for width-extension tags.
pub open spec fn spec_ext_primitive(op: ExtOp) -> Result<ExtPrim, Fault> {
    match op {
        ExtOp::Uext => Ok(ExtPrim::Uext),
        ExtOp::Sext => Ok(ExtPrim::Sext),
    }
}

/// Looks a unary tag up in the dispatch table. A tag with no mapped primitive
/// is an unsupported-operator fault, a deliberate hard stop: refusing to build
/// a formula beats building a wrong one.
pub fn uni_primitive(op: UniOp) -> (r: Result<UniPrim, Fault>)
    ensures
        r == spec_uni_primitive(op),
        r is Ok <==> uni_mapped(op),
{
    match op {
        UniOp::Not => Ok(UniPrim::Not),
        _ => Err(Fault::UnsupportedOperator),
    }
}

/// Looks a binary tag up in the dispatch table.
pub fn bi_primitive(op: BiOp) -> (r: Result<BiPrim, Fault>)
    ensures
        r == spec_bi_primitive(op),
        r is Ok <==> bi_mapped(op),
{
    match op {
        BiOp::Eq => Ok(BiPrim::Eq),
        BiOp::Neq => Ok(BiPrim::Ne),
        BiOp::And => Ok(BiPrim::And),
        BiOp::Ult => Ok(BiPrim::Ult),
        BiOp::Add => Ok(BiPrim::Add),
        _ => Err(Fault::UnsupportedOperator),
    }
}

/// Looks a ternary tag up in the dispatch table.
pub fn tri_primitive(op: TriOp) -> (r: Result<TriPrim, Fault>)
    ensures
        r == spec_tri_primitive(op),
        r is Ok <==> tri_mapped(op),
{
    match op {
        TriOp::Ite => Ok(TriPrim::Cond),
        _ => Err(Fault::UnsupportedOperator),
    }
}

/// Looks a width-extension tag up in the dispatch table.
pub fn ext_primitive(op: ExtOp) -> (r: Result<ExtPrim, Fault>)
    ensures
        r == spec_ext_primitive(op),
        r is Ok <==> ext_mapped(op),
{
    match op {
        ExtOp::Uext => Ok(ExtPrim::Uext),
        ExtOp::Sext => Ok(ExtPrim::Sext),
    }
}

/// Operand compatibility for a mapped binary tag: both operands must share
/// one sort.
pub open spec fn bi_compatible(lhs: Sort, rhs: Sort) -> bool {
    lhs == rhs
}

/// The documented result sort of a mapped binary tag over operands of the
/// shared sort `operand`: the comparisons yield boolean, conjunction and
/// addition keep the operand sort.
pub open spec fn spec_bi_result_sort(op: BiOp, operand: Sort) -> Sort {
    match op {
        BiOp::Eq | BiOp::Neq | BiOp::Ult => Sort::Bool,
        _ => operand,
    }
}

/// The result sort of dispatching a unary tag: the one mapped primitive, the
/// complement, keeps its operand's sort.
pub fn uni_result_sort(op: UniOp, operand: Sort) -> (r: Result<Sort, Fault>)
    ensures
        uni_mapped(op) ==> r == Ok::<Sort, Fault>(operand),
        !uni_mapped(op) ==> r == Err::<Sort, Fault>(Fault::UnsupportedOperator),
{
    match uni_primitive(op) {
        Ok(_) => Ok(operand),
        Err(f) => Err(f),
    }
}

/// The result sort of dispatching a binary tag over two operands of one
/// compatible sort.
pub fn bi_result_sort(op: BiOp, lhs: Sort, rhs: Sort) -> (r: Result<Sort, Fault>)
    requires
        bi_compatible(lhs, rhs),
    ensures
        bi_mapped(op) ==> r == Ok::<Sort, Fault>(spec_bi_result_sort(op, lhs)),
        !bi_mapped(op) ==> r == Err::<Sort, Fault>(Fault::UnsupportedOperator),
{
    match bi_primitive(op) {
        Ok(BiPrim::Eq) | Ok(BiPrim::Ne) | Ok(BiPrim::Ult) => Ok(Sort::Bool),
        Ok(BiPrim::And) | Ok(BiPrim::Add) => Ok(lhs),
        Err(f) => Err(f),
    }
}

/// The result sort of dispatching the ternary conditional: a boolean
/// condition selects between two branches of one shared sort, and the result
/// keeps that branch sort.
pub fn tri_result_sort(op: TriOp, cond: Sort, then_s: Sort, else_s: Sort) -> (r: Result<
    Sort,
    Fault,
>)
    requires
        cond is Bool,
        then_s == else_s,
    ensures
        tri_mapped(op) ==> r == Ok::<Sort, Fault>(then_s),
        !tri_mapped(op) ==> r == Err::<Sort, Fault>(Fault::UnsupportedOperator),
{
    match tri_primitive(op) {
        Ok(TriPrim::Cond) => Ok(then_s),
        Err(f) => Err(f),
    }
}

/// The result sort of a width extension to `target` bits: the requested
/// target width, classified back into the boolean/bit-vector convention.
/// Extension never narrows, so the target must be at least the operand width.
pub fn ext_result_sort(op: ExtOp, operand: Sort, target: u32) -> (r: Sort)
    requires
        operand.well_formed(),
        target >= operand.spec_width(),
    ensures
        r == spec_classify_width(target),
        r.spec_width() == target,
{
    match op {
        ExtOp::Uext | ExtOp::Sext => crate::sorts::classify_width(target),
    }
}

/// Dispatch coverage: every tag of the closed vocabulary is settled by the
/// dispatch table. A tag has a mapped foreign primitive exactly when lookup
/// succeeds, every unmapped tag faults as unsupported rather than falling
/// through silently, and each mapped shape obeys its documented result-sort
/// rule: the comparisons yield boolean, conjunction and addition keep the
/// operand sort, the conditional keeps its branch sort, and an extension
/// yields the requested target width.
pub proof fn lemma_dispatch_coverage()
    ensures
        forall|op: UniOp| uni_mapped(op) <==> #[trigger] spec_uni_primitive(op) is Ok,
        forall|op: BiOp| bi_mapped(op) <==> #[trigger] spec_bi_primitive(op) is Ok,
        forall|op: TriOp| tri_mapped(op) <==> #[trigger] spec_tri_primitive(op) is Ok,
        forall|op: ExtOp| ext_mapped(op) <==> #[trigger] spec_ext_primitive(op) is Ok,
        forall|op: UniOp|
            !uni_mapped(op) ==> #[trigger] spec_uni_primitive(op) == Err::<UniPrim, Fault>(
                Fault::UnsupportedOperator,
            ),
        forall|op: BiOp|
            !bi_mapped(op) ==> #[trigger] spec_bi_primitive(op) == Err::<BiPrim, Fault>(
                Fault::UnsupportedOperator,
            ),
        forall|op: TriOp|
            !tri_mapped(op) ==> #[trigger] spec_tri_primitive(op) == Err::<TriPrim, Fault>(
                Fault::UnsupportedOperator,
            ),
        forall|op: BiOp, s: Sort|
            bi_mapped(op) && (op is Eq || op is Neq || op is Ult)
                ==> #[trigger] spec_bi_result_sort(op, s) == Sort::Bool,
        forall|op: BiOp, s: Sort|
            bi_mapped(op) && !(op is Eq || op is Neq || op is Ult)
                ==> #[trigger] spec_bi_result_sort(op, s) == s,
        forall|target: u32|
            target >= 1 ==> #[trigger] spec_classify_width(target).spec_width() == target,
{
}

} // verus!
