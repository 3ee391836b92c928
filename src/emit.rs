//! The emitters: for one operation and one arity, the source text of the
//! implementation block of that operation's trait.

use vstd::prelude::*;
use vstd::string::*;

use crate::pattern::{
    decimal, list, nones, pattern_for, pattern_for2, pattern_nones, push_decimal, wrapped_list,
};

verus! {

/// The operations for which implementation blocks can be generated.
#[derive(Clone, Copy, Debug, PartialEq, Eq, Structural)]
pub enum Operation {
    AllOk,
    AllSome,
    Append,
    Apply,
    ConcatMany,
    Concat,
    Length,
    MapElems,
    OptionWrap,
    Prepend,
    RefMut,
    Ref,
    Tuple,
    Unappend,
    Unprepend,
}

/// The implementation block of `TupleAllOk` for tuples of arity `k`.
pub open spec fn all_ok_unit(k: nat) -> Seq<char> {
    let generics = wrapped_list(k, "I"@, ", E"@, ""@);
    let results = wrapped_list(k, "Result<I"@, ", E"@, ">"@);
    let args = list(k, "I"@, ""@);
    let oks = list(k, "Ok(i"@, ")"@);
    let vals = list(k, "i"@, ""@);
    "impl<"@
        + generics
        + "> TupleAllOk<("@
        + results
        + ")> for ("@
        + results
        + ") {\n    type Type = ("@
        + args
        + ");\n\n    #[inline(always)]\n    fn all_ok(tpl: ("@
        + results
        + ")) -> Result<Self::Type, ("@
        + results
        + ")> {\n        match tpl {\n            ("@
        + oks
        + ") => Ok(("@
        + vals
        + ")),\n            tpl => Err(tpl),\n        }\n    }\n}"@
}

/// Appends the implementation block of `TupleAllOk` for arity `to` to `dest`.
pub fn tuple_all_ok(dest: &mut String, to: usize)
    ensures
        final(dest)@ == old(dest)@ + all_ok_unit(to as nat),
{
    let generics = pattern_for2(to, "I", ", E", "");
    let results = pattern_for2(to, "Result<I", ", E", ">");
    let args = pattern_for(to, "I", "");
    let oks = pattern_for(to, "Ok(i", ")");
    let vals = pattern_for(to, "i", "");
    let mut unit = String::from_str("impl<");
    unit.append(generics.as_str());
    unit.append("> TupleAllOk<(");
    unit.append(results.as_str());
    unit.append(")> for (");
    unit.append(results.as_str());
    unit.append(") {\n    type Type = (");
    unit.append(args.as_str());
    unit.append(");\n\n    #[inline(always)]\n    fn all_ok(tpl: (");
    unit.append(results.as_str());
    unit.append(")) -> Result<Self::Type, (");
    unit.append(results.as_str());
    unit.append(")> {\n        match tpl {\n            (");
    unit.append(oks.as_str());
    unit.append(") => Ok((");
    unit.append(vals.as_str());
    unit.append(")),\n            tpl => Err(tpl),\n        }\n    }\n}");
    dest.append(unit.as_str());
}

/// The implementation block of `TupleAllSome` for tuples of arity `k`.
pub open spec fn all_some_unit(k: nat) -> Seq<char> {
    let args = list(k, "I"@, ""@);
    let options = list(k, "Option<I"@, ">"@);
    let somes = list(k, "Some(i"@, ")"@);
    let vals = list(k, "i"@, ""@);
    "impl<"@
        + args
        + "> TupleAllSome<("@
        + options
        + ")> for ("@
        + options
        + ") {\n    type Type = ("@
        + args
        + ");\n\n    #[inline(always)]\n    fn all_some(tpl: ("@
        + options
        + ")) -> Result<Self::Type, ("@
        + options
        + ")> {\n        match tpl {\n            ("@
        + somes
        + ") => Ok(("@
        + vals
        + ")),\n            tpl => Err(tpl),\n        }\n    }\n}"@
}

/// Appends the implementation block of `TupleAllSome` for arity `to` to `dest`.
pub fn tuple_all_some(dest: &mut String, to: usize)
    ensures
        final(dest)@ == old(dest)@ + all_some_unit(to as nat),
{
    let args = pattern_for(to, "I", "");
    let options = pattern_for(to, "Option<I", ">");
    let somes = pattern_for(to, "Some(i", ")");
    let vals = pattern_for(to, "i", "");
    let mut unit = String::from_str("impl<");
    unit.append(args.as_str());
    unit.append("> TupleAllSome<(");
    unit.append(options.as_str());
    unit.append(")> for (");
    unit.append(options.as_str());
    unit.append(") {\n    type Type = (");
    unit.append(args.as_str());
    unit.append(");\n\n    #[inline(always)]\n    fn all_some(tpl: (");
    unit.append(options.as_str());
    unit.append(")) -> Result<Self::Type, (");
    unit.append(options.as_str());
    unit.append(")> {\n        match tpl {\n            (");
    unit.append(somes.as_str());
    unit.append(") => Ok((");
    unit.append(vals.as_str());
    unit.append(")),\n            tpl => Err(tpl),\n        }\n    }\n}");
    dest.append(unit.as_str());
}

/// The implementation block of `TupleAppend` for tuples of arity `k`.
pub open spec fn append_unit(k: nat) -> Seq<char> {
    let args = list(k, "I"@, ""@);
    let vals = list(k, "i"@, ""@);
    "impl<Last, "@
        + args
        + "> TupleAppend<("@
        + args
        + "), Last> for (("@
        + args
        + "), Last) {\n    type Type = ("@
        + args
        + " Last);\n\n    #[inline(always)]\n    fn append(init: ("@
        + args
        + "), last: Last) -> Self::Type {\n        let ("@
        + vals
        + ") = init;\n        ("@
        + vals
        + " last)\n    }\n}"@
}

/// Appends the implementation block of `TupleAppend` for arity `to` to `dest`.
pub fn tuple_append(dest: &mut String, to: usize)
    ensures
        final(dest)@ == old(dest)@ + append_unit(to as nat),
{
    let args = pattern_for(to, "I", "");
    let vals = pattern_for(to, "i", "");
    let mut unit = String::from_str("impl<Last, ");
    unit.append(args.as_str());
    unit.append("> TupleAppend<(");
    unit.append(args.as_str());
    unit.append("), Last> for ((");
    unit.append(args.as_str());
    unit.append("), Last) {\n    type Type = (");
    unit.append(args.as_str());
    unit.append(" Last);\n\n    #[inline(always)]\n    fn append(init: (");
    unit.append(args.as_str());
    unit.append("), last: Last) -> Self::Type {\n        let (");
    unit.append(vals.as_str());
    unit.append(") = init;\n        (");
    unit.append(vals.as_str());
    unit.append(" last)\n    }\n}");
    dest.append(unit.as_str());
}

/// The implementation block of `TupleApply` for tuples of arity `k`.
pub open spec fn apply_unit(k: nat) -> Seq<char> {
    let args = list(k, "I"@, ""@);
    let vals = list(k, "i"@, ""@);
    "impl<F, R, "@
        + args
        + "> TupleApply<&F, ("@
        + args
        + ")> for (&F, ("@
        + args
        + "))\nwhere\n    F: Fn("@
        + args
        + ") -> R,\n{\n    type Type = R;\n\n    #[inline(always)]\n    fn apply(func: &F, tpl: ("@
        + args
        + ")) -> Self::Type {\n        let ("@
        + vals
        + ") = tpl;\n        func("@
        + vals
        + ")\n    }\n}\n\nimpl<F, R, "@
        + args
        + "> TupleApply<&mut F, ("@
        + args
        + ")> for (&mut F, ("@
        + args
        + "))\nwhere\n    F: FnMut("@
        + args
        + ") -> R,\n{\n    type Type = R;\n\n    #[inline(always)]\n    fn apply(func: &mut F, tpl: ("@
        + args
        + ")) -> Self::Type {\n        let ("@
        + vals
        + ") = tpl;\n        func("@
        + vals
        + ")\n    }\n}"@
}

/// Appends the implementation block of `TupleApply` for arity `to` to `dest`.
pub fn tuple_apply(dest: &mut String, to: usize)
    ensures
        final(dest)@ == old(dest)@ + apply_unit(to as nat),
{
    let args = pattern_for(to, "I", "");
    let vals = pattern_for(to, "i", "");
    let mut unit = String::from_str("impl<F, R, ");
    unit.append(args.as_str());
    unit.append("> TupleApply<&F, (");
    unit.append(args.as_str());
    unit.append(")> for (&F, (");
    unit.append(args.as_str());
    unit.append("))\nwhere\n    F: Fn(");
    unit.append(args.as_str());
    unit.append(") -> R,\n{\n    type Type = R;\n\n    #[inline(always)]\n    fn apply(func: &F, tpl: (");
    unit.append(args.as_str());
    unit.append(")) -> Self::Type {\n        let (");
    unit.append(vals.as_str());
    unit.append(") = tpl;\n        func(");
    unit.append(vals.as_str());
    unit.append(")\n    }\n}\n\nimpl<F, R, ");
    unit.append(args.as_str());
    unit.append("> TupleApply<&mut F, (");
    unit.append(args.as_str());
    unit.append(")> for (&mut F, (");
    unit.append(args.as_str());
    unit.append("))\nwhere\n    F: FnMut(");
    unit.append(args.as_str());
    unit.append(") -> R,\n{\n    type Type = R;\n\n    #[inline(always)]\n    fn apply(func: &mut F, tpl: (");
    unit.append(args.as_str());
    unit.append(")) -> Self::Type {\n        let (");
    unit.append(vals.as_str());
    unit.append(") = tpl;\n        func(");
    unit.append(vals.as_str());
    unit.append(")\n    }\n}");
    dest.append(unit.as_str());
}

/// The implementation block of `TupleConcatMany` for tuples of arity `k`.
pub open spec fn concat_many_unit(k: nat) -> Seq<char> {
    let args = list(k, "I"@, ""@);
    let vals = list(k, "i"@, ""@);
    "impl<"@
        + args
        + " Z1, Z2> TupleConcatMany<("@
        + args
        + " Z1, Z2)> for ("@
        + args
        + " Z1, Z2)\nwhere\n    (Z1, Z2): TupleConcat<Z1, Z2>,\n    ("@
        + args
        + " ConcatTuples<Z1, Z2>): TupleConcatMany<("@
        + args
        + " ConcatTuples<Z1, Z2>)>\n{\n    type Type = ConcatMany<("@
        + args
        + " ConcatTuples<Z1, Z2>)>;\n\n    #[inline(always)]\n    fn concat_many(tpls: ("@
        + args
        + " Z1, Z2)) -> Self::Type {\n        let ("@
        + vals
        + " z1, z2) = tpls;\n        let z = concat_tuples(z1, z2);\n        concat_many(("@
        + vals
        + " z))\n    }\n}"@
}

/// Appends the implementation block of `TupleConcatMany` for arity `to` to `dest`.
pub fn tuple_concat_many(dest: &mut String, to: usize)
    ensures
        final(dest)@ == old(dest)@ + concat_many_unit(to as nat),
{
    let args = pattern_for(to, "I", "");
    let vals = pattern_for(to, "i", "");
    let mut unit = String::from_str("impl<");
    unit.append(args.as_str());
    unit.append(" Z1, Z2> TupleConcatMany<(");
    unit.append(args.as_str());
    unit.append(" Z1, Z2)> for (");
    unit.append(args.as_str());
    unit.append(" Z1, Z2)\nwhere\n    (Z1, Z2): TupleConcat<Z1, Z2>,\n    (");
    unit.append(args.as_str());
    unit.append(" ConcatTuples<Z1, Z2>): TupleConcatMany<(");
    unit.append(args.as_str());
    unit.append(" ConcatTuples<Z1, Z2>)>\n{\n    type Type = ConcatMany<(");
    unit.append(args.as_str());
    unit.append(" ConcatTuples<Z1, Z2>)>;\n\n    #[inline(always)]\n    fn concat_many(tpls: (");
    unit.append(args.as_str());
    unit.append(" Z1, Z2)) -> Self::Type {\n        let (");
    unit.append(vals.as_str());
    unit.append(" z1, z2) = tpls;\n        let z = concat_tuples(z1, z2);\n        concat_many((");
    unit.append(vals.as_str());
    unit.append(" z))\n    }\n}");
    dest.append(unit.as_str());
}

/// The implementation block of `TupleConcat` for tuples of arity `k`.
pub open spec fn concat_unit(k: nat) -> Seq<char> {
    let args = list(k, "I"@, ""@);
    let vals = list(k, "i"@, ""@);
    "impl<Back, Elem, "@
        + args
        + "> TupleConcat<("@
        + args
        + " Elem), Back> for (("@
        + args
        + " Elem), Back)\nwhere\n    (Elem, Back): TuplePrepend<Elem, Back>,\n    (("@
        + args
        + "), Prepend<Elem, Back>): TupleConcat<("@
        + args
        + "), Prepend<Elem, Back>>,\n{\n    type Type = ConcatTuples<("@
        + args
        + "), Prepend<Elem, Back>>;\n\n    #[inline(always)]\n    fn concat_tuples(front: ("@
        + args
        + " Elem), back: Back) -> Self::Type {\n        let ("@
        + vals
        + " elem) = front;\n        concat_tuples(("@
        + vals
        + "), prepend(elem, back))\n    }\n}"@
}

/// Appends the implementation block of `TupleConcat` for arity `to` to `dest`.
pub fn tuple_concat(dest: &mut String, to: usize)
    ensures
        final(dest)@ == old(dest)@ + concat_unit(to as nat),
{
    let args = pattern_for(to, "I", "");
    let vals = pattern_for(to, "i", "");
    let mut unit = String::from_str("impl<Back, Elem, ");
    unit.append(args.as_str());
    unit.append("> TupleConcat<(");
    unit.append(args.as_str());
    unit.append(" Elem), Back> for ((");
    unit.append(args.as_str());
    unit.append(" Elem), Back)\nwhere\n    (Elem, Back): TuplePrepend<Elem, Back>,\n    ((");
    unit.append(args.as_str());
    unit.append("), Prepend<Elem, Back>): TupleConcat<(");
    unit.append(args.as_str());
    unit.append("), Prepend<Elem, Back>>,\n{\n    type Type = ConcatTuples<(");
    unit.append(args.as_str());
    unit.append("), Prepend<Elem, Back>>;\n\n    #[inline(always)]\n    fn concat_tuples(front: (");
    unit.append(args.as_str());
    unit.append(" Elem), back: Back) -> Self::Type {\n        let (");
    unit.append(vals.as_str());
    unit.append(" elem) = front;\n        concat_tuples((");
    unit.append(vals.as_str());
    unit.append("), prepend(elem, back))\n    }\n}");
    dest.append(unit.as_str());
}

/// The implementation block of `TupleLength` for tuples of arity `k`.
pub open spec fn length_unit(k: nat) -> Seq<char> {
    let args = list(k, "I"@, ""@);
    "impl<"@
        + args
        + "> TupleLength for ("@
        + args
        + ") {\n    const LENGTH: usize = "@
        + decimal(k)
        + ";\n}"@
}

/// Appends the implementation block of `TupleLength` for arity `to` to `dest`.
pub fn tuple_length(dest: &mut String, to: usize)
    ensures
        final(dest)@ == old(dest)@ + length_unit(to as nat),
{
    let args = pattern_for(to, "I", "");
    let mut unit = String::from_str("impl<");
    unit.append(args.as_str());
    unit.append("> TupleLength for (");
    unit.append(args.as_str());
    unit.append(") {\n    const LENGTH: usize = ");
    push_decimal(&mut unit, to);
    unit.append(";\n}");
    dest.append(unit.as_str());
}

/// The implementation block of `TupleMap` for tuples of arity `k`.
pub open spec fn map_unit(k: nat) -> Seq<char> {
    let args = list(k, "I"@, ""@);
    let vals = list(k, "i"@, ""@);
    let mapped_args = list(k, "<Mapper as TupleMapper>::MapElem::<I"@, ">"@);
    let mapped_vals = list(k, "<Mapper as TupleMapper>::map_elem(&mut mapper, i"@, ")"@);
    "impl<Mapper: TupleMapper, "@
        + args
        + "> TupleMap<Mapper, ("@
        + args
        + ")> for (Mapper, ("@
        + args
        + ")) {\n    type Type = ("@
        + mapped_args
        + ");\n\n    fn map_tuple(mut mapper: Mapper, tpl: ("@
        + args
        + ")) -> Self::Type {\n        let ("@
        + vals
        + ") = tpl;\n        ("@
        + mapped_vals
        + ")\n    }\n}"@
}

/// Appends the implementation block of `TupleMap` for arity `to` to `dest`.
pub fn tuple_map(dest: &mut String, to: usize)
    ensures
        final(dest)@ == old(dest)@ + map_unit(to as nat),
{
    let args = pattern_for(to, "I", "");
    let vals = pattern_for(to, "i", "");
    let mapped_args = pattern_for(to, "<Mapper as TupleMapper>::MapElem::<I", ">");
    let mapped_vals = pattern_for(to, "<Mapper as TupleMapper>::map_elem(&mut mapper, i", ")");
    let mut unit = String::from_str("impl<Mapper: TupleMapper, ");
    unit.append(args.as_str());
    unit.append("> TupleMap<Mapper, (");
    unit.append(args.as_str());
    unit.append(")> for (Mapper, (");
    unit.append(args.as_str());
    unit.append(")) {\n    type Type = (");
    unit.append(mapped_args.as_str());
    unit.append(");\n\n    fn map_tuple(mut mapper: Mapper, tpl: (");
    unit.append(args.as_str());
    unit.append(")) -> Self::Type {\n        let (");
    unit.append(vals.as_str());
    unit.append(") = tpl;\n        (");
    unit.append(mapped_vals.as_str());
    unit.append(")\n    }\n}");
    dest.append(unit.as_str());
}

/// The implementation block of `TupleOption` for tuples of arity `k`.
pub open spec fn option_unit(k: nat) -> Seq<char> {
    let args = list(k, "I"@, ""@);
    let vals = list(k, "i"@, ""@);
    let mapped_args = list(k, "Option<I"@, ">"@);
    let mapped_vals = list(k, "Some(i"@, ")"@);
    let nones = nones(k);
    "impl<"@
        + args
        + "> TupleOption<("@
        + args
        + ")> for ("@
        + args
        + ") {\n    type Type = ("@
        + mapped_args
        + ");\n\n    fn option_tuple(tpl: Option<("@
        + args
        + ")>) -> Self::Type {\n        match tpl {\n            Some(("@
        + vals
        + ")) => ("@
        + mapped_vals
        + "),\n            None => ("@
        + nones
        + "),\n        }\n    }\n}"@
}

/// Appends the implementation block of `TupleOption` for arity `to` to `dest`.
pub fn tuple_option(dest: &mut String, to: usize)
    ensures
        final(dest)@ == old(dest)@ + option_unit(to as nat),
{
    let args = pattern_for(to, "I", "");
    let vals = pattern_for(to, "i", "");
    let mapped_args = pattern_for(to, "Option<I", ">");
    let mapped_vals = pattern_for(to, "Some(i", ")");
    let nones = pattern_nones(to);
    let mut unit = String::from_str("impl<");
    unit.append(args.as_str());
    unit.append("> TupleOption<(");
    unit.append(args.as_str());
    unit.append(")> for (");
    unit.append(args.as_str());
    unit.append(") {\n    type Type = (");
    unit.append(mapped_args.as_str());
    unit.append(");\n\n    fn option_tuple(tpl: Option<(");
    unit.append(args.as_str());
    unit.append(")>) -> Self::Type {\n        match tpl {\n            Some((");
    unit.append(vals.as_str());
    unit.append(")) => (");
    unit.append(mapped_vals.as_str());
    unit.append("),\n            None => (");
    unit.append(nones.as_str());
    unit.append("),\n        }\n    }\n}");
    dest.append(unit.as_str());
}

/// The implementation block of `TuplePrepend` for tuples of arity `k`.
pub open spec fn prepend_unit(k: nat) -> Seq<char> {
    let args = list(k, "I"@, ""@);
    let vals = list(k, "i"@, ""@);
    "impl<Head, "@
        + args
        + "> TuplePrepend<Head, ("@
        + args
        + ")> for (Head, ("@
        + args
        + ")) {\n    type Type = (Head, "@
        + args
        + ");\n\n    #[inline(always)]\n    fn prepend(head: Head, tail: ("@
        + args
        + ")) -> Self::Type {\n        let ("@
        + vals
        + ") = tail;\n        (head, "@
        + vals
        + ")\n    }\n}"@
}

/// Appends the implementation block of `TuplePrepend` for arity `to` to `dest`.
pub fn tuple_prepend(dest: &mut String, to: usize)
    ensures
        final(dest)@ == old(dest)@ + prepend_unit(to as nat),
{
    let args = pattern_for(to, "I", "");
    let vals = pattern_for(to, "i", "");
    let mut unit = String::from_str("impl<Head, ");
    unit.append(args.as_str());
    unit.append("> TuplePrepend<Head, (");
    unit.append(args.as_str());
    unit.append(")> for (Head, (");
    unit.append(args.as_str());
    unit.append(")) {\n    type Type = (Head, ");
    unit.append(args.as_str());
    unit.append(");\n\n    #[inline(always)]\n    fn prepend(head: Head, tail: (");
    unit.append(args.as_str());
    unit.append(")) -> Self::Type {\n        let (");
    unit.append(vals.as_str());
    unit.append(") = tail;\n        (head, ");
    unit.append(vals.as_str());
    unit.append(")\n    }\n}");
    dest.append(unit.as_str());
}

/// The implementation block of `TupleRefMut` for tuples of arity `k`.
pub open spec fn ref_mut_unit(k: nat) -> Seq<char> {
    let ref_args = list(k, "&'a mut I"@, ""@);
    let args = list(k, "I"@, ""@);
    let vals = list(k, "i"@, ""@);
    "impl<'a, "@
        + args
        + "> TupleRefMut<'a, ("@
        + args
        + ")> for &'a mut ("@
        + args
        + ") {\n    type Type = ("@
        + ref_args
        + ");\n\n    #[inline(always)]\n    fn ref_mut_tuple(tpl: &'a mut ("@
        + args
        + ")) -> Self::Type {\n        let ("@
        + vals
        + ") = tpl;\n        ("@
        + vals
        + ")\n    }\n}"@
}

/// Appends the implementation block of `TupleRefMut` for arity `to` to `dest`.
pub fn tuple_ref_mut(dest: &mut String, to: usize)
    ensures
        final(dest)@ == old(dest)@ + ref_mut_unit(to as nat),
{
    let ref_args = pattern_for(to, "&'a mut I", "");
    let args = pattern_for(to, "I", "");
    let vals = pattern_for(to, "i", "");
    let mut unit = String::from_str("impl<'a, ");
    unit.append(args.as_str());
    unit.append("> TupleRefMut<'a, (");
    unit.append(args.as_str());
    unit.append(")> for &'a mut (");
    unit.append(args.as_str());
    unit.append(") {\n    type Type = (");
    unit.append(ref_args.as_str());
    unit.append(");\n\n    #[inline(always)]\n    fn ref_mut_tuple(tpl: &'a mut (");
    unit.append(args.as_str());
    unit.append(")) -> Self::Type {\n        let (");
    unit.append(vals.as_str());
    unit.append(") = tpl;\n        (");
    unit.append(vals.as_str());
    unit.append(")\n    }\n}");
    dest.append(unit.as_str());
}

/// The implementation block of `TupleRef` for tuples of arity `k`.
pub open spec fn ref_unit(k: nat) -> Seq<char> {
    let ref_args = list(k, "&'a I"@, ""@);
    let args = list(k, "I"@, ""@);
    let vals = list(k, "i"@, ""@);
    "impl<'a, "@
        + args
        + "> TupleRef<'a, ("@
        + args
        + ")> for &'a ("@
        + args
        + ") {\n    type Type = ("@
        + ref_args
        + ");\n\n    #[inline(always)]\n    fn ref_tuple(tpl: &'a ("@
        + args
        + ")) -> Self::Type {\n        let ("@
        + vals
        + ") = tpl;\n        ("@
        + vals
        + ")\n    }\n}"@
}

/// Appends the implementation block of `TupleRef` for arity `to` to `dest`.
pub fn tuple_ref(dest: &mut String, to: usize)
    ensures
        final(dest)@ == old(dest)@ + ref_unit(to as nat),
{
    let ref_args = pattern_for(to, "&'a I", "");
    let args = pattern_for(to, "I", "");
    let vals = pattern_for(to, "i", "");
    let mut unit = String::from_str("impl<'a, ");
    unit.append(args.as_str());
    unit.append("> TupleRef<'a, (");
    unit.append(args.as_str());
    unit.append(")> for &'a (");
    unit.append(args.as_str());
    unit.append(") {\n    type Type = (");
    unit.append(ref_args.as_str());
    unit.append(");\n\n    #[inline(always)]\n    fn ref_tuple(tpl: &'a (");
    unit.append(args.as_str());
    unit.append(")) -> Self::Type {\n        let (");
    unit.append(vals.as_str());
    unit.append(") = tpl;\n        (");
    unit.append(vals.as_str());
    unit.append(")\n    }\n}");
    dest.append(unit.as_str());
}

/// The implementation block of `Tuple` for tuples of arity `k`.
pub open spec fn tuple_unit(k: nat) -> Seq<char> {
    let args = list(k, "I"@, ""@);
    "impl<"@
        + args
        + "> Tuple for ("@
        + args
        + ")\n{}"@
}

/// Appends the implementation block of `Tuple` for arity `to` to `dest`.
pub fn tuple_tuple(dest: &mut String, to: usize)
    ensures
        final(dest)@ == old(dest)@ + tuple_unit(to as nat),
{
    let args = pattern_for(to, "I", "");
    let mut unit = String::from_str("impl<");
    unit.append(args.as_str());
    unit.append("> Tuple for (");
    unit.append(args.as_str());
    unit.append(")\n{}");
    dest.append(unit.as_str());
}

/// The implementation block of `TupleUnappend` for tuples of arity `k`.
pub open spec fn unappend_unit(k: nat) -> Seq<char> {
    let args = list(k, "I"@, ""@);
    let vals = list(k, "i"@, ""@);
    "impl<Elem, "@
        + args
        + "> TupleUnappend<("@
        + args
        + " Elem)> for ("@
        + args
        + " Elem) {\n    type Init = ("@
        + args
        + ");\n    type Last = Elem;\n\n    #[inline(always)]\n    fn unappend(tpl: ("@
        + args
        + " Elem)) -> (Self::Init, Self::Last) {\n        let ("@
        + vals
        + " last) = tpl;\n        (("@
        + vals
        + "), last)\n    }\n}"@
}

/// Appends the implementation block of `TupleUnappend` for arity `to` to `dest`.
pub fn tuple_unappend(dest: &mut String, to: usize)
    ensures
        final(dest)@ == old(dest)@ + unappend_unit(to as nat),
{
    let args = pattern_for(to, "I", "");
    let vals = pattern_for(to, "i", "");
    let mut unit = String::from_str("impl<Elem, ");
    unit.append(args.as_str());
    unit.append("> TupleUnappend<(");
    unit.append(args.as_str());
    unit.append(" Elem)> for (");
    unit.append(args.as_str());
    unit.append(" Elem) {\n    type Init = (");
    unit.append(args.as_str());
    unit.append(");\n    type Last = Elem;\n\n    #[inline(always)]\n    fn unappend(tpl: (");
    unit.append(args.as_str());
    unit.append(" Elem)) -> (Self::Init, Self::Last) {\n        let (");
    unit.append(vals.as_str());
    unit.append(" last) = tpl;\n        ((");
    unit.append(vals.as_str());
    unit.append("), last)\n    }\n}");
    dest.append(unit.as_str());
}

/// The implementation block of `TupleUnprepend` for tuples of arity `k`.
pub open spec fn unprepend_unit(k: nat) -> Seq<char> {
    let args = list(k, "I"@, ""@);
    let vals = list(k, "i"@, ""@);
    "impl<Elem, "@
        + args
        + "> TupleUnprepend<(Elem, "@
        + args
        + ")> for (Elem, "@
        + args
        + ") {\n    type Head = Elem;\n    type Tail = ("@
        + args
        + ");\n\n    #[inline(always)]\n    fn unprepend(tpl: (Elem, "@
        + args
        + ")) -> (Self::Head, Self::Tail) {\n        let (head, "@
        + vals
        + ") = tpl;\n        (head, ("@
        + vals
        + "))\n    }\n}"@
}

/// Appends the implementation block of `TupleUnprepend` for arity `to` to `dest`.
pub fn tuple_unprepend(dest: &mut String, to: usize)
    ensures
        final(dest)@ == old(dest)@ + unprepend_unit(to as nat),
{
    let args = pattern_for(to, "I", "");
    let vals = pattern_for(to, "i", "");
    let mut unit = String::from_str("impl<Elem, ");
    unit.append(args.as_str());
    unit.append("> TupleUnprepend<(Elem, ");
    unit.append(args.as_str());
    unit.append(")> for (Elem, ");
    unit.append(args.as_str());
    unit.append(") {\n    type Head = Elem;\n    type Tail = (");
    unit.append(args.as_str());
    unit.append(");\n\n    #[inline(always)]\n    fn unprepend(tpl: (Elem, ");
    unit.append(args.as_str());
    unit.append(")) -> (Self::Head, Self::Tail) {\n        let (head, ");
    unit.append(vals.as_str());
    unit.append(") = tpl;\n        (head, (");
    unit.append(vals.as_str());
    unit.append("))\n    }\n}");
    dest.append(unit.as_str());
}

/// The implementation block of `op` for tuples of arity `k`.
#[verifier::opaque]
pub open spec fn unit(op: Operation, k: nat) -> Seq<char> {
    match op {
        Operation::AllOk => all_ok_unit(k),
        Operation::AllSome => all_some_unit(k),
        Operation::Append => append_unit(k),
        Operation::Apply => apply_unit(k),
        Operation::ConcatMany => concat_many_unit(k),
        Operation::Concat => concat_unit(k),
        Operation::Length => length_unit(k),
        Operation::MapElems => map_unit(k),
        Operation::OptionWrap => option_unit(k),
        Operation::Prepend => prepend_unit(k),
        Operation::RefMut => ref_mut_unit(k),
        Operation::Ref => ref_unit(k),
        Operation::Tuple => tuple_unit(k),
        Operation::Unappend => unappend_unit(k),
        Operation::Unprepend => unprepend_unit(k),
    }
}

/// Appends the implementation block of `op` for arity `to` to `dest`.
pub fn emit(dest: &mut String, to: usize, op: Operation)
    ensures
        final(dest)@ == old(dest)@ + unit(op, to as nat),
{
    proof {
        reveal(unit);
    }
    match op {
        Operation::AllOk => tuple_all_ok(dest, to),
        Operation::AllSome => tuple_all_some(dest, to),
        Operation::Append => tuple_append(dest, to),
        Operation::Apply => tuple_apply(dest, to),
        Operation::ConcatMany => tuple_concat_many(dest, to),
        Operation::Concat => tuple_concat(dest, to),
        Operation::Length => tuple_length(dest, to),
        Operation::MapElems => tuple_map(dest, to),
        Operation::OptionWrap => tuple_option(dest, to),
        Operation::Prepend => tuple_prepend(dest, to),
        Operation::RefMut => tuple_ref_mut(dest, to),
        Operation::Ref => tuple_ref(dest, to),
        Operation::Tuple => tuple_tuple(dest, to),
        Operation::Unappend => tuple_unappend(dest, to),
        Operation::Unprepend => tuple_unprepend(dest, to),
    }
}

} // verus!
