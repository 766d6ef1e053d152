//! Indentation for nested timing traces.
use vstd::prelude::*;
use vstd::string::StringExecFns;

verus! {

/// The character that pads one level of trace indentation.
pub const PAD_CHAR: &'static str = "·";

/// The padding for `indent_amount` levels: that many copies of `PAD_CHAR`.
pub open spec fn indent_of(indent_amount: nat) -> Seq<char> {
    Seq::new(indent_amount, |i: int| '·')
}

/// Builds the indentation prefix of a trace line.
pub fn compute_indent(indent_amount: usize) -> (indent: String)
    ensures
        indent@ == indent_of(indent_amount as nat),
{
    let mut indent = String::new();
    let mut i: usize = 0;
    while i < indent_amount
        invariant
            i <= indent_amount,
            indent@ == indent_of(i as nat),
        decreases indent_amount - i,
    {
        proof {
            reveal_strlit("·");
        }
        indent.append(PAD_CHAR);
        assert(indent@ =~= indent_of((i + 1) as nat));
        i = i + 1;
    }
    indent
}

} // verus!
