//! Comma-terminated lists of numbered names, the fragments that every
//! emitted implementation block is assembled from.

use vstd::prelude::*;
use vstd::string::*;

verus! {

/// The decimal digit `d` as a character.
pub open spec fn digit_char(d: nat) -> char {
    if d == 0 {
        '0'
    } else if d == 1 {
        '1'
    } else if d == 2 {
        '2'
    } else if d == 3 {
        '3'
    } else if d == 4 {
        '4'
    } else if d == 5 {
        '5'
    } else if d == 6 {
        '6'
    } else if d == 7 {
        '7'
    } else if d == 8 {
        '8'
    } else {
        '9'
    }
}

/// The decimal notation of `n`, without leading zeros.
pub open spec fn decimal(n: nat) -> Seq<char>
    decreases n,
{
    if n < 10 {
        seq![digit_char(n)]
    } else {
        decimal(n / 10) + seq![digit_char(n % 10)]
    }
}

fn digit_str(d: usize) -> (r: &'static str)
    requires
        d < 10,
    ensures
        r@ == seq![digit_char(d as nat)],
{
    proof {
        reveal_strlit("0");
        reveal_strlit("1");
        reveal_strlit("2");
        reveal_strlit("3");
        reveal_strlit("4");
        reveal_strlit("5");
        reveal_strlit("6");
        reveal_strlit("7");
        reveal_strlit("8");
        reveal_strlit("9");
    }
    let r = match d {
        0 => "0",
        1 => "1",
        2 => "2",
        3 => "3",
        4 => "4",
        5 => "5",
        6 => "6",
        7 => "7",
        8 => "8",
        _ => "9",
    };
    assert(r@ =~= seq![digit_char(d as nat)]);
    r
}

/// Appends the decimal notation of `n` to `dest`.
pub fn push_decimal(dest: &mut String, n: usize)
    ensures
        final(dest)@ == old(dest)@ + decimal(n as nat),
    decreases n,
{
    if n >= 10 {
        push_decimal(dest, n / 10);
    }
    dest.append(digit_str(n % 10));
    assert(dest@ =~= old(dest)@ + decimal(n as nat));
}

/// One element of a list: `{prefix}{i}{suffix},`.
pub open spec fn item(prefix: Seq<char>, i: nat, suffix: Seq<char>) -> Seq<char> {
    prefix + decimal(i) + suffix + seq![',']
}

/// One element of a wrapped list: `{prefix}{i}{infix}{i}{suffix},`.
pub open spec fn wrapped_item(prefix: Seq<char>, i: nat, infix: Seq<char>, suffix: Seq<char>) -> Seq<
    char,
> {
    prefix + decimal(i) + infix + decimal(i) + suffix + seq![',']
}

/// The elements `item(prefix, i, suffix)` for `i` in `1..=to`, separated by
/// single spaces; empty for `to == 0`.
pub open spec fn list(to: nat, prefix: Seq<char>, suffix: Seq<char>) -> Seq<char>
    decreases to,
{
    if to == 0 {
        seq![]
    } else if to == 1 {
        item(prefix, 1, suffix)
    } else {
        list((to - 1) as nat, prefix, suffix) + seq![' '] + item(prefix, to, suffix)
    }
}

/// The elements `wrapped_item(prefix, i, infix, suffix)` for `i` in `1..=to`,
/// separated by single spaces; empty for `to == 0`.
pub open spec fn wrapped_list(to: nat, prefix: Seq<char>, infix: Seq<char>, suffix: Seq<char>) -> Seq<
    char,
>
    decreases to,
{
    if to == 0 {
        seq![]
    } else if to == 1 {
        wrapped_item(prefix, 1, infix, suffix)
    } else {
        wrapped_list((to - 1) as nat, prefix, infix, suffix) + seq![' '] + wrapped_item(
            prefix,
            to,
            infix,
            suffix,
        )
    }
}

/// `k` copies of `None,`, separated by single spaces; empty for `k == 0`.
pub open spec fn nones(k: nat) -> Seq<char>
    decreases k,
{
    if k == 0 {
        seq![]
    } else if k == 1 {
        "None,"@
    } else {
        nones((k - 1) as nat) + " None,"@
    }
}

/// The tokens `t[0], t[1], ...` separated by single spaces.
pub open spec fn spaced(t: Seq<Seq<char>>) -> Seq<char>
    decreases t.len(),
{
    if t.len() == 0 {
        seq![]
    } else if t.len() == 1 {
        t[0]
    } else {
        spaced(t.drop_last()) + seq![' '] + t.last()
    }
}

/// A list of arity zero is empty; a list of arity `k` is exactly the `k`
/// comma-terminated tokens `{prefix}1{suffix},` to `{prefix}{k}{suffix},`,
/// separated by single spaces.
pub proof fn lemma_list_tokens(k: nat, prefix: Seq<char>, suffix: Seq<char>)
    ensures
        list(0, prefix, suffix) == Seq::<char>::empty(),
        list(k, prefix, suffix) == spaced(Seq::new(k, |i: int| item(prefix, (i + 1) as nat, suffix))),
        forall|i: int| 0 <= i < k ==> (#[trigger] item(prefix, (i + 1) as nat, suffix)).last() == ',',
    decreases k,
{
    let t = Seq::new(k, |i: int| item(prefix, (i + 1) as nat, suffix));
    if k >= 2 {
        lemma_list_tokens((k - 1) as nat, prefix, suffix);
        assert(t.drop_last() =~= Seq::new((k - 1) as nat, |i: int| item(prefix, (i + 1) as nat, suffix)));
    } else if k == 0 {
        assert(list(0, prefix, suffix) =~= Seq::<char>::empty());
    }
}

/// Renders `{prefix}1{suffix}, {prefix}2{suffix}, ..., {prefix}{to}{suffix},`.
pub fn pattern_for(to: usize, prefix: &str, suffix: &str) -> (r: String)
    ensures
        r@ == list(to as nat, prefix@, suffix@),
{
    let mut args = String::new();
    let mut i: usize = 0;
    while i < to
        invariant
            i <= to,
            args@ == list(i as nat, prefix@, suffix@),
        decreases to - i,
    {
        i = i + 1;
        let ghost before = args@;
        if i > 1 {
            args.append(" ");
        }
        args.append(prefix);
        push_decimal(&mut args, i);
        args.append(suffix);
        args.append(",");
        proof {
            reveal_strlit(" ");
            reveal_strlit(",");
            if i > 1 {
                assert(args@ =~= before + seq![' '] + item(prefix@, i as nat, suffix@));
            } else {
                assert(args@ =~= item(prefix@, i as nat, suffix@));
            }
        }
    }
    args
}

/// Renders `{prefix}1{infix}1{suffix}, ..., {prefix}{to}{infix}{to}{suffix},`.
pub fn pattern_for2(to: usize, prefix: &str, infix: &str, suffix: &str) -> (r: String)
    ensures
        r@ == wrapped_list(to as nat, prefix@, infix@, suffix@),
{
    let mut args = String::new();
    let mut i: usize = 0;
    while i < to
        invariant
            i <= to,
            args@ == wrapped_list(i as nat, prefix@, infix@, suffix@),
        decreases to - i,
    {
        i = i + 1;
        let ghost before = args@;
        if i > 1 {
            args.append(" ");
        }
        args.append(prefix);
        push_decimal(&mut args, i);
        args.append(infix);
        push_decimal(&mut args, i);
        args.append(suffix);
        args.append(",");
        proof {
            reveal_strlit(" ");
            reveal_strlit(",");
            if i > 1 {
                assert(args@ =~= before + seq![' '] + wrapped_item(
                    prefix@,
                    i as nat,
                    infix@,
                    suffix@,
                ));
            } else {
                assert(args@ =~= wrapped_item(prefix@, i as nat, infix@, suffix@));
            }
        }
    }
    args
}

/// Renders `nones(k)`: the elements of an all-`None` tuple of arity `k`.
pub fn pattern_nones(k: usize) -> (r: String)
    ensures
        r@ == nones(k as nat),
{
    let mut out = String::new();
    let mut i: usize = 0;
    while i < k
        invariant
            i <= k,
            out@ == nones(i as nat),
        decreases k - i,
    {
        i = i + 1;
        if i > 1 {
            out.append(" None,");
        } else {
            out.append("None,");
            assert(out@ =~= nones(1));
        }
    }
    out
}

} // verus!
