use tupleops_generator::emit;

#[test]
fn emits_all_ok_block_for_arity_three() {
    let mut s = String::new();
    emit::tuple_all_ok(&mut s, 3);
    assert_eq!(
        s,
        r#"impl<I1, E1, I2, E2, I3, E3,> TupleAllOk<(Result<I1, E1>, Result<I2, E2>, Result<I3, E3>,)> for (Result<I1, E1>, Result<I2, E2>, Result<I3, E3>,) {
    type Type = (I1, I2, I3,);

    #[inline(always)]
    fn all_ok(tpl: (Result<I1, E1>, Result<I2, E2>, Result<I3, E3>,)) -> Result<Self::Type, (Result<I1, E1>, Result<I2, E2>, Result<I3, E3>,)> {
        match tpl {
            (Ok(i1), Ok(i2), Ok(i3),) => Ok((i1, i2, i3,)),
            tpl => Err(tpl),
        }
    }
}"#
    );
}

#[test]
fn emits_all_some_block_for_arity_three() {
    let mut s = String::new();
    emit::tuple_all_some(&mut s, 3);
    assert_eq!(
        s,
        r#"impl<I1, I2, I3,> TupleAllSome<(Option<I1>, Option<I2>, Option<I3>,)> for (Option<I1>, Option<I2>, Option<I3>,) {
    type Type = (I1, I2, I3,);

    #[inline(always)]
    fn all_some(tpl: (Option<I1>, Option<I2>, Option<I3>,)) -> Result<Self::Type, (Option<I1>, Option<I2>, Option<I3>,)> {
        match tpl {
            (Some(i1), Some(i2), Some(i3),) => Ok((i1, i2, i3,)),
            tpl => Err(tpl),
        }
    }
}"#
    );
}

#[test]
fn emits_append_block_for_arity_three() {
    let mut s = String::new();
    emit::tuple_append(&mut s, 3);
    assert_eq!(
        s,
        r#"impl<Last, I1, I2, I3,> TupleAppend<(I1, I2, I3,), Last> for ((I1, I2, I3,), Last) {
    type Type = (I1, I2, I3, Last);

    #[inline(always)]
    fn append(init: (I1, I2, I3,), last: Last) -> Self::Type {
        let (i1, i2, i3,) = init;
        (i1, i2, i3, last)
    }
}"#
    );
}

#[test]
fn emits_apply_block_for_arity_three() {
    let mut s = String::new();
    emit::tuple_apply(&mut s, 3);
    assert_eq!(
        s,
        r#"impl<F, R, I1, I2, I3,> TupleApply<&F, (I1, I2, I3,)> for (&F, (I1, I2, I3,))
where
    F: Fn(I1, I2, I3,) -> R,
{
    type Type = R;

    #[inline(always)]
    fn apply(func: &F, tpl: (I1, I2, I3,)) -> Self::Type {
        let (i1, i2, i3,) = tpl;
        func(i1, i2, i3,)
    }
}

impl<F, R, I1, I2, I3,> TupleApply<&mut F, (I1, I2, I3,)> for (&mut F, (I1, I2, I3,))
where
    F: FnMut(I1, I2, I3,) -> R,
{
    type Type = R;

    #[inline(always)]
    fn apply(func: &mut F, tpl: (I1, I2, I3,)) -> Self::Type {
        let (i1, i2, i3,) = tpl;
        func(i1, i2, i3,)
    }
}"#
    );
}

#[test]
fn emits_concat_many_block_for_arity_three() {
    let mut s = String::new();
    emit::tuple_concat_many(&mut s, 3);
    assert_eq!(
        s,
        r#"impl<I1, I2, I3, Z1, Z2> TupleConcatMany<(I1, I2, I3, Z1, Z2)> for (I1, I2, I3, Z1, Z2)
where
    (Z1, Z2): TupleConcat<Z1, Z2>,
    (I1, I2, I3, ConcatTuples<Z1, Z2>): TupleConcatMany<(I1, I2, I3, ConcatTuples<Z1, Z2>)>
{
    type Type = ConcatMany<(I1, I2, I3, ConcatTuples<Z1, Z2>)>;

    #[inline(always)]
    fn concat_many(tpls: (I1, I2, I3, Z1, Z2)) -> Self::Type {
        let (i1, i2, i3, z1, z2) = tpls;
        let z = concat_tuples(z1, z2);
        concat_many((i1, i2, i3, z))
    }
}"#
    );
}

#[test]
fn emits_concat_block_for_arity_three() {
    let mut s = String::new();
    emit::tuple_concat(&mut s, 3);
    assert_eq!(
        s,
        r#"impl<Back, Elem, I1, I2, I3,> TupleConcat<(I1, I2, I3, Elem), Back> for ((I1, I2, I3, Elem), Back)
where
    (Elem, Back): TuplePrepend<Elem, Back>,
    ((I1, I2, I3,), Prepend<Elem, Back>): TupleConcat<(I1, I2, I3,), Prepend<Elem, Back>>,
{
    type Type = ConcatTuples<(I1, I2, I3,), Prepend<Elem, Back>>;

    #[inline(always)]
    fn concat_tuples(front: (I1, I2, I3, Elem), back: Back) -> Self::Type {
        let (i1, i2, i3, elem) = front;
        concat_tuples((i1, i2, i3,), prepend(elem, back))
    }
}"#
    );
}

#[test]
fn emits_length_block_for_arity_three() {
    let mut s = String::new();
    emit::tuple_length(&mut s, 3);
    assert_eq!(
        s,
        r#"impl<I1, I2, I3,> TupleLength for (I1, I2, I3,) {
    const LENGTH: usize = 3;
}"#
    );
}

#[test]
fn emits_map_block_for_arity_three() {
    let mut s = String::new();
    emit::tuple_map(&mut s, 3);
    assert_eq!(
        s,
        r#"impl<Mapper: TupleMapper, I1, I2, I3,> TupleMap<Mapper, (I1, I2, I3,)> for (Mapper, (I1, I2, I3,)) {
    type Type = (<Mapper as TupleMapper>::MapElem::<I1>, <Mapper as TupleMapper>::MapElem::<I2>, <Mapper as TupleMapper>::MapElem::<I3>,);

    fn map_tuple(mut mapper: Mapper, tpl: (I1, I2, I3,)) -> Self::Type {
        let (i1, i2, i3,) = tpl;
        (<Mapper as TupleMapper>::map_elem(&mut mapper, i1), <Mapper as TupleMapper>::map_elem(&mut mapper, i2), <Mapper as TupleMapper>::map_elem(&mut mapper, i3),)
    }
}"#
    );
}

#[test]
fn emits_option_block_for_arity_three() {
    let mut s = String::new();
    emit::tuple_option(&mut s, 3);
    assert_eq!(
        s,
        r#"impl<I1, I2, I3,> TupleOption<(I1, I2, I3,)> for (I1, I2, I3,) {
    type Type = (Option<I1>, Option<I2>, Option<I3>,);

    fn option_tuple(tpl: Option<(I1, I2, I3,)>) -> Self::Type {
        match tpl {
            Some((i1, i2, i3,)) => (Some(i1), Some(i2), Some(i3),),
            None => (None, None, None,),
        }
    }
}"#
    );
}

#[test]
fn emits_prepend_block_for_arity_three() {
    let mut s = String::new();
    emit::tuple_prepend(&mut s, 3);
    assert_eq!(
        s,
        r#"impl<Head, I1, I2, I3,> TuplePrepend<Head, (I1, I2, I3,)> for (Head, (I1, I2, I3,)) {
    type Type = (Head, I1, I2, I3,);

    #[inline(always)]
    fn prepend(head: Head, tail: (I1, I2, I3,)) -> Self::Type {
        let (i1, i2, i3,) = tail;
        (head, i1, i2, i3,)
    }
}"#
    );
}

#[test]
fn emits_ref_mut_block_for_arity_three() {
    let mut s = String::new();
    emit::tuple_ref_mut(&mut s, 3);
    assert_eq!(
        s,
        r#"impl<'a, I1, I2, I3,> TupleRefMut<'a, (I1, I2, I3,)> for &'a mut (I1, I2, I3,) {
    type Type = (&'a mut I1, &'a mut I2, &'a mut I3,);

    #[inline(always)]
    fn ref_mut_tuple(tpl: &'a mut (I1, I2, I3,)) -> Self::Type {
        let (i1, i2, i3,) = tpl;
        (i1, i2, i3,)
    }
}"#
    );
}

#[test]
fn emits_ref_block_for_arity_three() {
    let mut s = String::new();
    emit::tuple_ref(&mut s, 3);
    assert_eq!(
        s,
        r#"impl<'a, I1, I2, I3,> TupleRef<'a, (I1, I2, I3,)> for &'a (I1, I2, I3,) {
    type Type = (&'a I1, &'a I2, &'a I3,);

    #[inline(always)]
    fn ref_tuple(tpl: &'a (I1, I2, I3,)) -> Self::Type {
        let (i1, i2, i3,) = tpl;
        (i1, i2, i3,)
    }
}"#
    );
}

#[test]
fn emits_tuple_block_for_arity_three() {
    let mut s = String::new();
    emit::tuple_tuple(&mut s, 3);
    assert_eq!(
        s,
        r#"impl<I1, I2, I3,> Tuple for (I1, I2, I3,)
{}"#
    );
}

#[test]
fn emits_unappend_block_for_arity_three() {
    let mut s = String::new();
    emit::tuple_unappend(&mut s, 3);
    assert_eq!(
        s,
        r#"impl<Elem, I1, I2, I3,> TupleUnappend<(I1, I2, I3, Elem)> for (I1, I2, I3, Elem) {
    type Init = (I1, I2, I3,);
    type Last = Elem;

    #[inline(always)]
    fn unappend(tpl: (I1, I2, I3, Elem)) -> (Self::Init, Self::Last) {
        let (i1, i2, i3, last) = tpl;
        ((i1, i2, i3,), last)
    }
}"#
    );
}

#[test]
fn emits_unprepend_block_for_arity_three() {
    let mut s = String::new();
    emit::tuple_unprepend(&mut s, 3);
    assert_eq!(
        s,
        r#"impl<Elem, I1, I2, I3,> TupleUnprepend<(Elem, I1, I2, I3,)> for (Elem, I1, I2, I3,) {
    type Head = Elem;
    type Tail = (I1, I2, I3,);

    #[inline(always)]
    fn unprepend(tpl: (Elem, I1, I2, I3,)) -> (Self::Head, Self::Tail) {
        let (head, i1, i2, i3,) = tpl;
        (head, (i1, i2, i3,))
    }
}"#
    );
}

#[test]
fn emits_length_block_states_a_multi_digit_arity() {
    let mut s = String::new();
    emit::tuple_length(&mut s, 12);
    assert_eq!(
        s,
        r#"impl<I1, I2, I3, I4, I5, I6, I7, I8, I9, I10, I11, I12,> TupleLength for (I1, I2, I3, I4, I5, I6, I7, I8, I9, I10, I11, I12,) {
    const LENGTH: usize = 12;
}"#
    );
}

#[test]
fn emits_option_block_for_arity_one() {
    let mut s = String::new();
    emit::tuple_option(&mut s, 1);
    assert_eq!(
        s,
        r#"impl<I1,> TupleOption<(I1,)> for (I1,) {
    type Type = (Option<I1>,);

    fn option_tuple(tpl: Option<(I1,)>) -> Self::Type {
        match tpl {
            Some((i1,)) => (Some(i1),),
            None => (None,),
        }
    }
}"#
    );
}

#[test]
fn emits_all_ok_block_for_arity_one() {
    let mut s = String::new();
    emit::tuple_all_ok(&mut s, 1);
    assert_eq!(
        s,
        r#"impl<I1, E1,> TupleAllOk<(Result<I1, E1>,)> for (Result<I1, E1>,) {
    type Type = (I1,);

    #[inline(always)]
    fn all_ok(tpl: (Result<I1, E1>,)) -> Result<Self::Type, (Result<I1, E1>,)> {
        match tpl {
            (Ok(i1),) => Ok((i1,)),
            tpl => Err(tpl),
        }
    }
}"#
    );
}

#[test]
fn emits_unprepend_block_for_arity_one() {
    let mut s = String::new();
    emit::tuple_unprepend(&mut s, 1);
    assert_eq!(
        s,
        r#"impl<Elem, I1,> TupleUnprepend<(Elem, I1,)> for (Elem, I1,) {
    type Head = Elem;
    type Tail = (I1,);

    #[inline(always)]
    fn unprepend(tpl: (Elem, I1,)) -> (Self::Head, Self::Tail) {
        let (head, i1,) = tpl;
        (head, (i1,))
    }
}"#
    );
}

#[test]
fn emits_after_existing_text() {
    let mut s = String::from("// head\n");
    emit::tuple_tuple(&mut s, 1);
    assert_eq!(s, "// head\nimpl<I1,> Tuple for (I1,)\n{}");
}

#[test]
fn emits_option_block_for_arity_zero() {
    let mut s = String::new();
    emit::tuple_option(&mut s, 0);
    assert!(s.contains("None => (),"));
    assert!(s.contains("Some(()) => (),"));
}

#[test]
fn dispatch_matches_each_emitter() {
    let ops = [
        emit::Operation::AllOk,
        emit::Operation::AllSome,
        emit::Operation::Append,
        emit::Operation::Apply,
        emit::Operation::ConcatMany,
        emit::Operation::Concat,
        emit::Operation::Length,
        emit::Operation::MapElems,
        emit::Operation::OptionWrap,
        emit::Operation::Prepend,
        emit::Operation::RefMut,
        emit::Operation::Ref,
        emit::Operation::Tuple,
        emit::Operation::Unappend,
        emit::Operation::Unprepend,
    ];
    let emitters: [fn(&mut String, usize); 15] = [
        emit::tuple_all_ok,
        emit::tuple_all_some,
        emit::tuple_append,
        emit::tuple_apply,
        emit::tuple_concat_many,
        emit::tuple_concat,
        emit::tuple_length,
        emit::tuple_map,
        emit::tuple_option,
        emit::tuple_prepend,
        emit::tuple_ref_mut,
        emit::tuple_ref,
        emit::tuple_tuple,
        emit::tuple_unappend,
        emit::tuple_unprepend,
    ];
    let mut seen: Vec<String> = Vec::new();
    for (op, f) in ops.iter().zip(emitters.iter()) {
        let mut a = String::new();
        emit::emit(&mut a, 4, *op);
        let mut b = String::new();
        f(&mut b, 4);
        assert_eq!(a, b);
        assert!(!seen.contains(&a));
        seen.push(a);
    }
}
