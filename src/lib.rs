//! Generates the source text of generic trait implementations that perform
//! structural operations on tuples, one implementation block per arity.

pub mod pattern;
pub mod emit;
pub mod generate;
pub mod same_types;

pub use emit::Operation;
pub use generate::{
    gen_range, generate, generate_range, tuple_all_ok, tuple_all_some, tuple_append, tuple_apply,
    tuple_concat, tuple_concat_many, tuple_length, tuple_map, tuple_option, tuple_prepend,
    tuple_ref, tuple_ref_mut, tuple_tuple, tuple_unappend, tuple_unprepend, GenError,
};
pub use same_types::{same_types, SameTypes};
