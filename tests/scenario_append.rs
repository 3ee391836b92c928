use tupleops_generator::{generate_range, Operation};

trait TupleAppend<Init, Last> {
    type Type;

    fn append(init: Init, last: Last) -> Self::Type;
}

fn append<Init, Last>(init: Init, last: Last) -> <(Init, Last) as TupleAppend<Init, Last>>::Type
where
    (Init, Last): TupleAppend<Init, Last>,
{
    <(Init, Last) as TupleAppend<Init, Last>>::append(init, last)
}

impl<Last, I1, I2, I3,> TupleAppend<(I1, I2, I3,), Last> for ((I1, I2, I3,), Last) {
    type Type = (I1, I2, I3, Last);

    fn append(init: (I1, I2, I3,), last: Last) -> Self::Type {
        let (i1, i2, i3,) = init;
        (i1, i2, i3, last)
    }
}

fn without_inline_hints(text: &str) -> String {
    text.replace("    #[inline(always)]\n", "")
}

#[test]
fn generated_append_places_the_value_last() {
    let text = generate_range(Operation::Append, 3, 3).unwrap();
    assert_eq!(without_inline_hints(&text), r#"impl<Last, I1, I2, I3,> TupleAppend<(I1, I2, I3,), Last> for ((I1, I2, I3,), Last) {
    type Type = (I1, I2, I3, Last);

    fn append(init: (I1, I2, I3,), last: Last) -> Self::Type {
        let (i1, i2, i3,) = init;
        (i1, i2, i3, last)
    }
}"#);
    assert_eq!(append((1, 2, 3), 4), (1, 2, 3, 4));
}
