//! Splitting the raw command line into option tokens and action tokens.

use vstd::prelude::*;

verus! {

/// The command line, split: tokens opening with `-` are options, the rest
/// are actions, each side in its original order.
pub struct Arguments {
    pub options: Vec<String>,
    pub actions: Vec<String>,
}

/// Whether a token is an option: its first character is a dash.
pub open spec fn is_option(s: Seq<char>) -> bool {
    s[0] == '-'
}

/// Splits the inputs into options (first character `-`) and actions
/// (everything else), keeping the relative order of each side. Every
/// token must be non-empty: the split looks at the first character.
pub fn arg_parser(inputs: Vec<String>) -> (r: Arguments)
    requires
        forall|i: int| 0 <= i < inputs@.len() ==> #[trigger] inputs@[i]@.len() > 0,
    ensures
        r.options@ == inputs@.filter(|s: String| is_option(s@)),
        r.actions@ == inputs@.filter(|s: String| !is_option(s@)),
{
    let mut op: Vec<String> = Vec::new();
    let mut ac: Vec<String> = Vec::new();
    let n: usize = inputs.len();
    let mut k: usize = 0;
    proof {
        assert(inputs@.take(0) =~= Seq::<String>::empty());
        reveal(Seq::filter);
    }
    while k < n
        invariant
            n == inputs@.len(),
            0 <= k <= n,
            forall|i: int| 0 <= i < inputs@.len() ==> #[trigger] inputs@[i]@.len() > 0,
            op@ == inputs@.take(k as int).filter(|s: String| is_option(s@)),
            ac@ == inputs@.take(k as int).filter(|s: String| !is_option(s@)),
        decreases n - k,
    {
        let input: &String = &inputs[k];
        let first: char = input.as_str().get_char(0);
        if first == '-' {
            op.push(input.clone());
        } else {
            ac.push(input.clone());
        }
        proof {
            reveal(Seq::filter);
            let t = inputs@.take(k + 1);
            assert(t.drop_last() =~= inputs@.take(k as int));
            assert(t.last() == inputs@[k as int]);
        }
        k = k + 1;
    }
    proof {
        assert(inputs@.take(n as int) =~= inputs@);
    }
    Arguments { options: op, actions: ac }
}

} // verus!
