//! The range driver: the implementation blocks of one operation for every
//! arity of an inclusive range, separated by blank lines.

use vstd::prelude::*;
use vstd::string::*;

use crate::emit::{emit, unit, Operation};

verus! {

/// Why a generation request was refused.
#[derive(Clone, Copy, Debug, PartialEq, Eq, Structural)]
pub enum GenError {
    /// The range's lower end lies above its upper end.
    MalformedRange,
}

/// The separator between two consecutive blocks: one blank line.
pub open spec fn separator() -> Seq<char> {
    "\n\n"@
}

/// The blocks of `op` for the arities `from..=to`, in ascending order,
/// joined by `separator()`. Meaningful for `from <= to`.
pub open spec fn range_text(op: Operation, from: nat, to: nat) -> Seq<char>
    decreases to - from,
{
    if to <= from {
        unit(op, from)
    } else {
        range_text(op, from, (to - 1) as nat) + separator() + unit(op, to)
    }
}

/// `text` appended to `before`, with a separator in between unless `before`
/// is empty.
pub open spec fn joined(before: Seq<char>, text: Seq<char>) -> Seq<char> {
    if before.len() == 0 {
        text
    } else {
        before + separator() + text
    }
}

/// What appending the blocks of `op` for `from..=to` to a buffer holding
/// `before` leaves there and returns.
pub open spec fn appended(
    op: Operation,
    from: nat,
    to: nat,
    before: Seq<char>,
    after: Seq<char>,
    r: Result<(), GenError>,
) -> bool {
    if from > to {
        r == Err::<(), GenError>(GenError::MalformedRange) && after == before
    } else {
        r == Ok::<(), GenError>(()) && after == joined(before, range_text(op, from, to))
    }
}

/// What generating the blocks of `op` for `from..=to` returns.
pub open spec fn generated(op: Operation, from: nat, to: nat, r: Result<String, GenError>) -> bool {
    match r {
        Ok(s) => from <= to && s@ == range_text(op, from, to),
        Err(e) => from > to && e == GenError::MalformedRange,
    }
}

/// Every block is non-empty: each starts with `impl<`.
pub proof fn lemma_unit_nonempty(op: Operation, k: nat)
    ensures
        unit(op, k).len() > 0,
{
    reveal(unit);
    reveal_strlit("impl<");
    reveal_strlit("impl<Last, ");
    reveal_strlit("impl<F, R, ");
    reveal_strlit("impl<Back, Elem, ");
    reveal_strlit("impl<Mapper: TupleMapper, ");
    reveal_strlit("impl<Head, ");
    reveal_strlit("impl<'a, ");
    reveal_strlit("impl<Elem, ");
}

/// Appends to `dest` the blocks of `op` for the arities `from..=to`, each
/// preceded by a blank line unless it is the first text in `dest`.
pub fn gen_range(dest: &mut String, from: usize, to: usize, op: Operation) -> (r: Result<
    (),
    GenError,
>)
    ensures
        appended(op, from as nat, to as nat, old(dest)@, final(dest)@, r),
{
    if from > to {
        return Err(GenError::MalformedRange);
    }
    let ghost before = dest@;
    if !dest.as_str().is_empty() {
        dest.append("\n\n");
    }
    emit(dest, from, op);
    proof {
        if before.len() > 0 {
            assert(dest@ =~= before + separator() + unit(op, from as nat));
        } else {
            assert(dest@ =~= unit(op, from as nat));
        }
    }
    let mut k: usize = from;
    while k < to
        invariant
            from <= k <= to,
            dest@ == joined(before, range_text(op, from as nat, k as nat)),
        decreases to - k,
    {
        k = k + 1;
        let ghost prev = dest@;
        proof {
            lemma_unit_nonempty(op, (k - 1) as nat);
        }
        dest.append("\n\n");
        emit(dest, k, op);
        proof {
            if before.len() > 0 {
                assert(dest@ =~= before + separator() + range_text(op, from as nat, k as nat));
            } else {
                assert(dest@ =~= range_text(op, from as nat, k as nat));
            }
        }
    }
    Ok(())
}

/// The blocks of `op` for the arities `from..=to`, separated by blank lines.
pub fn generate_range(op: Operation, from: usize, to: usize) -> (r: Result<String, GenError>)
    ensures
        generated(op, from as nat, to as nat, r),
{
    let mut code = String::new();
    match gen_range(&mut code, from, to, op) {
        Ok(()) => Ok(code),
        Err(e) => Err(e),
    }
}

/// Generating the same range of the same operation twice gives the same
/// outcome; a range of one arity gives that arity's block alone.
pub proof fn lemma_generation_deterministic(
    op: Operation,
    from: nat,
    to: nat,
    r1: Result<String, GenError>,
    r2: Result<String, GenError>,
)
    requires
        generated(op, from, to, r1),
        generated(op, from, to, r2),
    ensures
        r1 is Ok <==> r2 is Ok,
        r1 is Ok ==> r1->Ok_0@ == r2->Ok_0@,
        r1 is Err ==> r1->Err_0 == r2->Err_0,
        from == to ==> r1 is Ok && r1->Ok_0@ == unit(op, from),
{
}

/// A range whose lower end lies above its upper end is refused, whatever
/// the operation.
pub proof fn lemma_inverted_range_refused(op: Operation, from: nat, to: nat, r: Result<String, GenError>)
    requires
        from > to,
        generated(op, from, to, r),
    ensures
        r == Err::<String, GenError>(GenError::MalformedRange),
{
}

/// Splitting a range in two: the text for `from..=to` is the text for
/// `from..=m`, a blank line, and the text for `m+1..=to`.
pub proof fn lemma_range_split(op: Operation, from: nat, m: nat, to: nat)
    requires
        from <= m < to,
    ensures
        range_text(op, from, to) == range_text(op, from, m) + separator() + range_text(
            op,
            m + 1,
            to,
        ),
    decreases to,
{
    if to > m + 1 {
        lemma_range_split(op, from, m, (to - 1) as nat);
        assert(range_text(op, from, to) =~= range_text(op, from, m) + separator() + range_text(
            op,
            m + 1,
            to,
        ));
    }
}

/// The source text that reports an unusable range in place of code.
pub open spec fn range_diagnostic() -> Seq<char> {
    "::core::compile_error!(\"Expected closed range of usizes\")"@
}

/// What a macro invocation expands to, given the range its argument was
/// parsed to (`None` where it held no closed range of integers): the blocks
/// of `op` for that range, or the diagnostic where there are none to give.
pub fn generate(range: Option<(usize, usize)>, op: Operation) -> (r: String)
    ensures
        r@ == match range {
            Some((from, to)) => if from <= to {
                range_text(op, from as nat, to as nat)
            } else {
                range_diagnostic()
            },
            None => range_diagnostic(),
        },
{
    if let Some((from, to)) = range {
        let mut code = String::new();
        if gen_range(&mut code, from, to, op).is_ok() {
            return code;
        }
    }
    String::from_str("::core::compile_error!(\"Expected closed range of usizes\")")
}

/// Appends to `dest` the implementations of `TupleAllOk` for the arities
/// `from..=to`, as `gen_range` does.
pub fn tuple_all_ok(dest: &mut String, from: usize, to: usize) -> (r: Result<(), GenError>)
    ensures
        appended(Operation::AllOk, from as nat, to as nat, old(dest)@, final(dest)@, r),
{
    gen_range(dest, from, to, Operation::AllOk)
}

/// Appends to `dest` the implementations of `TupleAllSome` for the arities
/// `from..=to`, as `gen_range` does.
pub fn tuple_all_some(dest: &mut String, from: usize, to: usize) -> (r: Result<(), GenError>)
    ensures
        appended(Operation::AllSome, from as nat, to as nat, old(dest)@, final(dest)@, r),
{
    gen_range(dest, from, to, Operation::AllSome)
}

/// Appends to `dest` the implementations of `TupleAppend` for the arities
/// `from..=to`, as `gen_range` does.
pub fn tuple_append(dest: &mut String, from: usize, to: usize) -> (r: Result<(), GenError>)
    ensures
        appended(Operation::Append, from as nat, to as nat, old(dest)@, final(dest)@, r),
{
    gen_range(dest, from, to, Operation::Append)
}

/// Appends to `dest` the implementations of `TupleApply` for the arities
/// `from..=to`, as `gen_range` does.
pub fn tuple_apply(dest: &mut String, from: usize, to: usize) -> (r: Result<(), GenError>)
    ensures
        appended(Operation::Apply, from as nat, to as nat, old(dest)@, final(dest)@, r),
{
    gen_range(dest, from, to, Operation::Apply)
}

/// Appends to `dest` the implementations of `TupleConcatMany` for the arities
/// `from..=to`, as `gen_range` does.
pub fn tuple_concat_many(dest: &mut String, from: usize, to: usize) -> (r: Result<(), GenError>)
    ensures
        appended(Operation::ConcatMany, from as nat, to as nat, old(dest)@, final(dest)@, r),
{
    gen_range(dest, from, to, Operation::ConcatMany)
}

/// Appends to `dest` the implementations of `TupleConcat` for the arities
/// `from..=to`, as `gen_range` does.
pub fn tuple_concat(dest: &mut String, from: usize, to: usize) -> (r: Result<(), GenError>)
    ensures
        appended(Operation::Concat, from as nat, to as nat, old(dest)@, final(dest)@, r),
{
    gen_range(dest, from, to, Operation::Concat)
}

/// Appends to `dest` the implementations of `TupleLength` for the arities
/// `from..=to`, as `gen_range` does.
pub fn tuple_length(dest: &mut String, from: usize, to: usize) -> (r: Result<(), GenError>)
    ensures
        appended(Operation::Length, from as nat, to as nat, old(dest)@, final(dest)@, r),
{
    gen_range(dest, from, to, Operation::Length)
}

/// Appends to `dest` the implementations of `TupleMap` for the arities
/// `from..=to`, as `gen_range` does.
pub fn tuple_map(dest: &mut String, from: usize, to: usize) -> (r: Result<(), GenError>)
    ensures
        appended(Operation::MapElems, from as nat, to as nat, old(dest)@, final(dest)@, r),
{
    gen_range(dest, from, to, Operation::MapElems)
}

/// Appends to `dest` the implementations of `TupleOption` for the arities
/// `from..=to`, as `gen_range` does.
pub fn tuple_option(dest: &mut String, from: usize, to: usize) -> (r: Result<(), GenError>)
    ensures
        appended(Operation::OptionWrap, from as nat, to as nat, old(dest)@, final(dest)@, r),
{
    gen_range(dest, from, to, Operation::OptionWrap)
}

/// Appends to `dest` the implementations of `TuplePrepend` for the arities
/// `from..=to`, as `gen_range` does.
pub fn tuple_prepend(dest: &mut String, from: usize, to: usize) -> (r: Result<(), GenError>)
    ensures
        appended(Operation::Prepend, from as nat, to as nat, old(dest)@, final(dest)@, r),
{
    gen_range(dest, from, to, Operation::Prepend)
}

/// Appends to `dest` the implementations of `TupleRefMut` for the arities
/// `from..=to`, as `gen_range` does.
pub fn tuple_ref_mut(dest: &mut String, from: usize, to: usize) -> (r: Result<(), GenError>)
    ensures
        appended(Operation::RefMut, from as nat, to as nat, old(dest)@, final(dest)@, r),
{
    gen_range(dest, from, to, Operation::RefMut)
}

/// Appends to `dest` the implementations of `TupleRef` for the arities
/// `from..=to`, as `gen_range` does.
pub fn tuple_ref(dest: &mut String, from: usize, to: usize) -> (r: Result<(), GenError>)
    ensures
        appended(Operation::Ref, from as nat, to as nat, old(dest)@, final(dest)@, r),
{
    gen_range(dest, from, to, Operation::Ref)
}

/// Appends to `dest` the implementations of `Tuple` for the arities
/// `from..=to`, as `gen_range` does.
pub fn tuple_tuple(dest: &mut String, from: usize, to: usize) -> (r: Result<(), GenError>)
    ensures
        appended(Operation::Tuple, from as nat, to as nat, old(dest)@, final(dest)@, r),
{
    gen_range(dest, from, to, Operation::Tuple)
}

/// Appends to `dest` the implementations of `TupleUnappend` for the arities
/// `from..=to`, as `gen_range` does.
pub fn tuple_unappend(dest: &mut String, from: usize, to: usize) -> (r: Result<(), GenError>)
    ensures
        appended(Operation::Unappend, from as nat, to as nat, old(dest)@, final(dest)@, r),
{
    gen_range(dest, from, to, Operation::Unappend)
}

/// Appends to `dest` the implementations of `TupleUnprepend` for the arities
/// `from..=to`, as `gen_range` does.
pub fn tuple_unprepend(dest: &mut String, from: usize, to: usize) -> (r: Result<(), GenError>)
    ensures
        appended(Operation::Unprepend, from as nat, to as nat, old(dest)@, final(dest)@, r),
{
    gen_range(dest, from, to, Operation::Unprepend)
}

} // verus!
