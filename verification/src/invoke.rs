use vstd::prelude::*;

use crate::val::RefCountOp;

verus! {

/// What is needed to invoke a JavaScript function on a list of values.
pub struct InvokePlan {
    /// The type of the result followed by the type of each argument; every
    /// one of them is the type of JavaScript values.
    pub type_ids: Vec<usize>,
    /// The number of entries in `type_ids`, as the invoker expects it.
    pub arity: u32,
    /// One increment per argument, in order: the invoked function takes an
    /// owner of each argument.
    pub retains: Vec<RefCountOp>,
}

/// The invoker signature for `argc` arguments: the value type, `argc + 1` times.
pub open spec fn invoker_type_ids(val_type_id: usize, argc: nat) -> Seq<usize> {
    Seq::new(argc + 1, |_i: int| val_type_id)
}

/// The increments asked for the arguments of an invocation.
pub open spec fn argument_retains(args: Seq<usize>) -> Seq<RefCountOp> {
    args.map_values(|h: usize| RefCountOp::Increment(h))
}

/// Lays out the invocation of a JavaScript function with the arguments whose
/// handles are `args`, where `val_type_id` is the type id of JavaScript values.
pub fn plan_invoke(val_type_id: usize, args: &[usize]) -> (p: InvokePlan)
    requires
        args@.len() < u32::MAX,
    ensures
        p.type_ids@ == invoker_type_ids(val_type_id, args@.len()),
        p.arity as int == args@.len() + 1,
        p.retains@ == argument_retains(args@),
        p.type_ids@.len() == args@.len() + 1,
        forall|i: int| 0 <= i < p.type_ids@.len() ==> #[trigger] p.type_ids@[i] == val_type_id,
        p.retains@.len() == args@.len(),
        forall|i: int|
            0 <= i < args@.len() ==> #[trigger] p.retains@[i] == RefCountOp::Increment(args@[i]),
{
    let n = args.len();
    let mut type_ids: Vec<usize> = Vec::new();
    type_ids.push(val_type_id);
    let mut retains: Vec<RefCountOp> = Vec::new();
    let mut i: usize = 0;
    while i < n
        invariant
            n == args@.len(),
            n < u32::MAX,
            i <= n,
            type_ids@ == invoker_type_ids(val_type_id, i as nat),
            retains@ == argument_retains(args@.subrange(0, i as int)),
        decreases n - i,
    {
        type_ids.push(val_type_id);
        retains.push(RefCountOp::Increment(args[i]));
        i = i + 1;
        assert(type_ids@ =~= invoker_type_ids(val_type_id, i as nat));
        assert(args@.subrange(0, i as int) =~= args@.subrange(0, (i - 1) as int).push(args@[i - 1]));
        assert(retains@ =~= argument_retains(args@.subrange(0, i as int)));
    }
    assert(args@.subrange(0, n as int) =~= args@);
    let arity = (n + 1) as u32;
    InvokePlan { type_ids, arity, retains }
}

/// Every argument of an invocation is retained exactly once, in argument
/// order, whatever the handles are (the same handle twice is retained twice),
/// and the signature holds the value type once for the result and once per
/// argument.
pub proof fn lemma_each_argument_retained_once(val_type_id: usize, args: Seq<usize>)
    ensures
        argument_retains(args).len() == args.len(),
        forall|i: int|
            0 <= i < args.len() ==> #[trigger] argument_retains(args)[i] == RefCountOp::Increment(
                args[i],
            ),
        invoker_type_ids(val_type_id, args.len()).len() == args.len() + 1,
        forall|i: int|
            0 <= i <= args.len() ==> #[trigger] invoker_type_ids(val_type_id, args.len())[i]
                == val_type_id,
{
}

} // verus!
