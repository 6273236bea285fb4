use crate::values::InterfaceType;
use vstd::prelude::*;

verus! {

/// The decimal digit `d` as text.
pub open spec fn digit(d: nat) -> Seq<char> {
    if d == 0 { "0"@ }
    else if d == 1 { "1"@ }
    else if d == 2 { "2"@ }
    else if d == 3 { "3"@ }
    else if d == 4 { "4"@ }
    else if d == 5 { "5"@ }
    else if d == 6 { "6"@ }
    else if d == 7 { "7"@ }
    else if d == 8 { "8"@ }
    else { "9"@ }
}

/// `n` written in decimal, without leading zeros.
pub open spec fn decimal(n: nat) -> Seq<char>
    decreases n,
{
    if n < 10 {
        digit(n)
    } else {
        decimal(n / 10) + digit(n % 10)
    }
}

/// The name of a type tag, as diagnostics print it.
pub open spec fn tag_text(t: InterfaceType) -> Seq<char> {
    match t {
        InterfaceType::I32 => "I32"@,
        InterfaceType::I64 => "I64"@,
        InterfaceType::String => "String"@,
    }
}

/// The names of the type tags, separated by commas.
pub open spec fn type_names(ts: Seq<InterfaceType>) -> Seq<char>
    decreases ts.len(),
{
    if ts.len() == 0 {
        Seq::empty()
    } else if ts.len() == 1 {
        tag_text(ts[0])
    } else {
        type_names(ts.drop_last()) + ", "@ + tag_text(ts.last())
    }
}

/// A list of type tags in brackets.
pub open spec fn type_list(ts: Seq<InterfaceType>) -> Seq<char> {
    "["@ + type_names(ts) + "]"@
}

fn push_digit(s: &mut String, d: u64)
    requires
        d < 10,
    ensures
        final(s)@ == old(s)@ + digit(d as nat),
{
    if d == 0 { s.append("0"); }
    else if d == 1 { s.append("1"); }
    else if d == 2 { s.append("2"); }
    else if d == 3 { s.append("3"); }
    else if d == 4 { s.append("4"); }
    else if d == 5 { s.append("5"); }
    else if d == 6 { s.append("6"); }
    else if d == 7 { s.append("7"); }
    else if d == 8 { s.append("8"); }
    else { s.append("9"); }
}

/// Appends `n` in decimal to `s`.
pub fn append_decimal(s: &mut String, n: u64)
    ensures
        final(s)@ == old(s)@ + decimal(n as nat),
    decreases n,
{
    let ghost s0 = s@;
    if n >= 10 {
        append_decimal(s, n / 10);
    }
    push_digit(s, n % 10);
    assert(s@ =~= s0 + decimal(n as nat));
}

/// Appends the name of `t` to `s`.
pub fn push_tag_text(s: &mut String, t: InterfaceType)
    ensures
        final(s)@ == old(s)@ + tag_text(t),
{
    match t {
        InterfaceType::I32 => s.append("I32"),
        InterfaceType::I64 => s.append("I64"),
        InterfaceType::String => s.append("String"),
    }
}

/// Appends the bracketed list of the names of `ts` to `s`.
pub fn push_type_list(s: &mut String, ts: &[InterfaceType])
    ensures
        final(s)@ == old(s)@ + type_list(ts@),
{
    let ghost s0 = s@;
    s.append("[");
    let mut i: usize = 0;
    while i < ts.len()
        invariant
            i <= ts@.len(),
            s@ == s0 + "["@ + type_names(ts@.subrange(0, i as int)),
        decreases ts@.len() - i,
    {
        let ghost before = s@;
        if i > 0 {
            s.append(", ");
        }
        push_tag_text(s, ts[i]);
        i = i + 1;
        proof {
            let sub = ts@.subrange(0, i as int);
            assert(sub.drop_last() =~= ts@.subrange(0, i - 1));
            assert(sub.last() == ts@[i - 1]);
            if i == 1 {
                assert(ts@.subrange(0, 0) =~= Seq::<InterfaceType>::empty());
            }
        }
        assert(s@ =~= s0 + "["@ + type_names(ts@.subrange(0, i as int)));
    }
    s.append("]");
    assert(ts@.subrange(0, ts@.len() as int) =~= ts@);
    assert(s@ =~= s0 + type_list(ts@));
}

} // verus!
