//! A builder for bracket-matched loop constructs.
//!
//! Compiling a balanced bracket language into basic blocks follows one
//! pattern: every opening bracket starts a guarded loop (a condition
//! block, a body block, and an exit block), every closing bracket jumps
//! back to the matching condition block and continues in its exit
//! block.  The builder keeps a stack of (condition block, exit block)
//! pairs; a closing bracket with an empty stack is a structural error
//! of the caller's input and is reported before any compilation is
//! attempted.

use vstd::prelude::*;

use crate::context::{Context, CtxV};
use crate::error::BuildError;
use crate::function::{Function, FunctionType};
use crate::block::Block;
use crate::rvalue::RValue;

verus! {

/// One token of a bracket-matched construct sequence.
#[derive(Clone, Copy, PartialEq, Eq, Structural, Debug)]
pub enum BracketToken {
    /// An opening bracket: a loop construct begins.
    Open,
    /// A closing bracket: the innermost open construct ends.
    Close,
}

/// The nesting balance of the first `i` tokens: opens minus closes.
pub open spec fn bal(toks: Seq<BracketToken>, i: int) -> int
    decreases i when i >= 0
{
    if i <= 0 {
        0
    } else {
        bal(toks, i - 1) + (if toks[i - 1] == BracketToken::Open {
            1int
        } else {
            -1int
        })
    }
}

/// The number of opening brackets among the first `i` tokens.
pub open spec fn open_count(toks: Seq<BracketToken>, i: int) -> int
    decreases i when i >= 0
{
    if i <= 0 {
        0
    } else {
        open_count(toks, i - 1) + (if toks[i - 1] == BracketToken::Open {
            1int
        } else {
            0int
        })
    }
}

/// Some prefix closes more brackets than were opened: an unmatched
/// closing bracket.
pub open spec fn has_unmatched_close(toks: Seq<BracketToken>) -> bool {
    exists|i: int| 0 <= i <= toks.len() && #[trigger] bal(toks, i) < 0
}

/// Every prefix stays non-negative and the whole sequence closes every
/// bracket it opens.
pub open spec fn balanced(toks: Seq<BracketToken>) -> bool {
    &&& !has_unmatched_close(toks)
    &&& bal(toks, toks.len() as int) == 0
}

/// The block index `b` is the exit block of some pair on the stack.
pub open spec fn in_exits(st: Seq<(Block, Block)>, b: int) -> bool {
    exists|k: int| 0 <= k < st.len() && (#[trigger] st[k]).1.idx == b
}

proof fn lemma_in_exits_push(st: Seq<(Block, Block)>, pair: (Block, Block), b: int)
    ensures
        in_exits(st.push(pair), b) <==> (in_exits(st, b) || pair.1.idx == b),
{
    if in_exits(st, b) {
        let k = choose|k: int| 0 <= k < st.len() && (#[trigger] st[k]).1.idx == b;
        assert(st.push(pair)[k].1.idx == b);
    }
    if pair.1.idx == b {
        assert(st.push(pair)[st.len() as int].1.idx == b);
    }
    if in_exits(st.push(pair), b) {
        let k = choose|k: int| 0 <= k < st.push(pair).len() && (#[trigger] st.push(pair)[
            k
        ]).1.idx == b;
        if k < st.len() {
            assert(st[k].1.idx == b);
        }
    }
}

proof fn lemma_in_exits_pop(st: Seq<(Block, Block)>, b: int)
    requires
        st.len() > 0,
    ensures
        in_exits(st, b) <==> (in_exits(st.take(st.len() - 1), b) || st.last().1.idx == b),
{
    let fr = st.take(st.len() - 1);
    if in_exits(st, b) {
        let k = choose|k: int| 0 <= k < st.len() && (#[trigger] st[k]).1.idx == b;
        if k < st.len() - 1 {
            assert(fr[k].1.idx == b);
        }
    }
    if in_exits(fr, b) {
        let k = choose|k: int| 0 <= k < fr.len() && (#[trigger] fr[k]).1.idx == b;
        assert(st[k].1.idx == b);
    }
    if st.last().1.idx == b {
        assert(st[st.len() - 1].1.idx == b);
    }
}

/// A stack of (condition block, exit block) pairs for the constructs
/// currently open.
pub struct LoopStack {
    pub pairs: Vec<(Block, Block)>,
}

impl LoopStack {
    /// An empty stack: no construct is open.
    pub fn new() -> (s: LoopStack)
        ensures
            s.pairs@.len() == 0,
    {
        LoopStack { pairs: Vec::new() }
    }
}

/// Builds the control-flow graph of a bracket-matched construct
/// sequence into `func`, starting from the open block `entry` and
/// guarding every construct with the condition value `cond`.
///
/// On success the token sequence was balanced, the result counts one
/// condition block per bracket pair, exactly three blocks per pair
/// were added, and every added block (and `entry`) ends in a
/// terminator, so the function is ready to compile.  An unmatched
/// closing bracket, or a bracket left open, is rejected and logged
/// before any compilation could be attempted.
#[verifier::loop_isolation(false)]
#[verifier::rlimit(100)]
pub fn build_bracket_cfg(
    ctx: &mut Context,
    func: Function,
    entry: Block,
    cond: RValue,
    toks: &[BracketToken],
) -> (r: Result<usize, BuildError>)
    requires
        old(ctx).wf(),
        func.valid(old(ctx)@.prog),
        func.data(old(ctx)@.prog).kind != FunctionType::Extern,
        entry.valid(old(ctx)@.prog),
        entry.open_in(old(ctx)@.prog),
        cond.idx < old(ctx)@.prog.values.len(),
    ensures
        final(ctx).wf(),
        match r {
            Result::Ok(n) => {
                &&& balanced(toks@)
                &&& n == open_count(toks@, toks@.len() as int)
                &&& final(ctx)@.prog.blocks.len() == old(ctx)@.prog.blocks.len() + 3 * n
                &&& forall|b: int|
                    old(ctx)@.prog.blocks.len() <= b < final(ctx)@.prog.blocks.len()
                        ==> !((#[trigger] final(ctx)@.prog.blocks[b]).term is None)
                        && final(ctx)@.prog.blocks[b].func == func.idx
                &&& !(final(ctx)@.prog.blocks[entry.idx as int].term is None)
                &&& final(ctx)@ == (CtxV { prog: final(ctx)@.prog, ..old(ctx)@ })
            },
            Result::Err(e) => {
                &&& (e == BuildError::UnmatchedClose || e == BuildError::UnclosedBracket)
                &&& (e == BuildError::UnmatchedClose <==> has_unmatched_close(toks@))
                &&& (e == BuildError::UnclosedBracket ==> !has_unmatched_close(toks@)
                    && bal(toks@, toks@.len() as int) != 0)
                &&& final(ctx)@ == (CtxV {
                    prog: final(ctx)@.prog,
                    errors: old(ctx)@.errors.push(e),
                    ..old(ctx)@
                })
            },
        },
{
    let ghost base = old(ctx)@.prog.blocks.len() as int;
    let mut stack = LoopStack::new();
    let mut current = entry;
    let mut i: usize = 0;
    let mut opens: usize = 0;
    while i < toks.len()
        invariant
            ctx.wf(),
            i <= toks@.len(),
            func.valid(ctx@.prog),
            func.data(ctx@.prog).kind == func.data(old(ctx)@.prog).kind,
            cond.idx < ctx@.prog.values.len(),
            entry.idx < ctx@.prog.blocks.len(),
            current.valid(ctx@.prog),
            current.open_in(ctx@.prog),
            opens == open_count(toks@, i as int),
            stack.pairs@.len() == bal(toks@, i as int),
            forall|j: int| 0 <= j <= i ==> #[trigger] bal(toks@, j) >= 0,
            ctx@.prog.blocks.len() == base + 3 * opens,
            forall|k: int| 0 <= k < stack.pairs@.len()
                ==> (#[trigger] stack.pairs@[k]).1.idx < ctx@.prog.blocks.len()
                    && stack.pairs@[k].1.open_in(ctx@.prog)
                    && stack.pairs@[k].1.idx >= base
                    && stack.pairs@[k].0.idx < ctx@.prog.blocks.len(),
            forall|j: int, k: int| 0 <= j < k < stack.pairs@.len()
                ==> (#[trigger] stack.pairs@[j]).1.idx < (#[trigger] stack.pairs@[k]).1.idx,
            forall|k: int| 0 <= k < stack.pairs@.len()
                ==> (#[trigger] stack.pairs@[k]).1.idx < current.idx || current == entry,
            stack.pairs@.len() > 0 ==> current.idx >= base,
            forall|b: int| base <= b < ctx@.prog.blocks.len()
                ==> (#[trigger] ctx@.prog.blocks[b]).func == func.idx
                    && (!(ctx@.prog.blocks[b].term is None) || b == current.idx
                    || in_exits(stack.pairs@, b)),
            entry.idx < base ==> (!(ctx@.prog.blocks[entry.idx as int].term is None)
                || current == entry),
            ctx@ == (CtxV { prog: ctx@.prog, ..old(ctx)@ }),
        decreases toks@.len() - i,
    {
        if toks[i] == BracketToken::Open {
            let cond_b = match func.new_block(ctx, "loop_cond") {
                Result::Ok(b) => b,
                Result::Err(e) => {
                    proof {
                        assert(false);
                    }
                    return Result::Err(BuildError::UnmatchedClose);
                },
            };
            let exit_b = match func.new_block(ctx, "loop_exit") {
                Result::Ok(b) => b,
                Result::Err(e) => {
                    proof {
                        assert(false);
                    }
                    return Result::Err(BuildError::UnmatchedClose);
                },
            };
            let body_b = match func.new_block(ctx, "loop_body") {
                Result::Ok(b) => b,
                Result::Err(e) => {
                    proof {
                        assert(false);
                    }
                    return Result::Err(BuildError::UnmatchedClose);
                },
            };
            let jr = current.end_with_jump(ctx, Option::None, cond_b);
            proof {
                assert(jr is Ok);
            }
            let cr = cond_b.end_with_conditional(ctx, Option::None, cond, body_b, exit_b);
            proof {
                assert(cr is Ok);
            }
            let ghost st0 = stack.pairs@;
            stack.pairs.push((cond_b, exit_b));
            current = body_b;
            opens = opens + 1;
            proof {
                assert forall|b: int| base <= b < ctx@.prog.blocks.len() implies (
                    !(ctx@.prog.blocks[b].term is None) || b == current.idx
                        || in_exits(stack.pairs@, b)
                ) by {
                    lemma_in_exits_push(st0, (cond_b, exit_b), b);
                }
            }
        } else {
            if stack.pairs.len() == 0 {
                proof {
                    assert(bal(toks@, i + 1) < 0);
                    assert(has_unmatched_close(toks@));
                }
                ctx.log_error(BuildError::UnmatchedClose);
                return Result::Err(BuildError::UnmatchedClose);
            }
            let ghost st0 = stack.pairs@;
            let top = stack.pairs.pop().unwrap();
            let jr = current.end_with_jump(ctx, Option::None, top.0);
            proof {
                assert(jr is Ok);
            }
            current = top.1;
            proof {
                assert(stack.pairs@ =~= st0.take(st0.len() - 1));
                assert forall|b: int| base <= b < ctx@.prog.blocks.len() implies (
                    !(ctx@.prog.blocks[b].term is None) || b == current.idx
                        || in_exits(stack.pairs@, b)
                ) by {
                    lemma_in_exits_pop(st0, b);
                }
            }
        }
        i = i + 1;
    }
    if stack.pairs.len() > 0 {
        proof {
            assert(forall|j: int| 0 <= j <= toks@.len() ==> #[trigger] bal(toks@, j) >= 0);
            assert(!has_unmatched_close(toks@));
            assert(bal(toks@, toks@.len() as int) != 0);
        }
        ctx.log_error(BuildError::UnclosedBracket);
        return Result::Err(BuildError::UnclosedBracket);
    }
    let vr = current.end_with_void_return(ctx, Option::None);
    proof {
        assert(vr is Ok);
        assert(!has_unmatched_close(toks@));
        assert(balanced(toks@));
    }
    Result::Ok(opens)
}

} // verus!
