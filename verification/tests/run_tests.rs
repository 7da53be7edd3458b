use gccjit::{BinaryOp, BracketToken, BuildError, ComparisonOp, Context, EvalError,
    FunctionType, ToRValue, UnaryOp, build_bracket_cfg};

const FUEL: u64 = 1_000_000;

#[test]
fn square_function_runs() {
    let mut context = Context::default();
    let int_ty = context.new_type::<i32>();
    let parameter = context.new_parameter(None, int_ty, "x");
    let fun = context.new_function(
        None,
        FunctionType::Exported,
        int_ty,
        &[parameter],
        "square",
        false,
    );
    let block = fun.new_block(&mut context, "entry").unwrap();
    let parm = fun.get_param(&context, 0).to_rvalue();
    let square = context.new_binary_op(None, BinaryOp::Mult, int_ty, parm, parm);
    block.end_with_return(&mut context, None, square).unwrap();
    let result = context.compile().unwrap();
    let f = result.get_function("square").unwrap();
    assert_eq!(result.invoke(f, &vec![4], FUEL).unwrap(), Some(16));
    assert_eq!(result.invoke(f, &vec![10], FUEL).unwrap(), Some(100));
    assert_eq!(result.invoke(f, &vec![-2], FUEL).unwrap(), Some(4));
    // 32-bit results wrap: 70000 * 70000 is taken modulo 2^32
    assert_eq!(result.invoke(f, &vec![70000], FUEL).unwrap(), Some(605_032_704));
}

#[test]
fn factorial_runs() {
    let mut context = Context::default();
    let int_ty = context.new_type::<i32>();
    let parameter = context.new_parameter(None, int_ty, "n");
    let factorial = context.new_function(
        None,
        FunctionType::Exported,
        int_ty,
        &[parameter],
        "factorial",
        false,
    );
    let block = factorial.new_block(&mut context, "entry").unwrap();
    let parm = factorial.get_param(&context, 0).to_rvalue();
    let zero = context.new_rvalue_zero(int_ty);
    let cond = context.new_comparison(None, ComparisonOp::Equals, parm, zero);
    let false_branch = factorial.new_block(&mut context, "recurse_block").unwrap();
    let true_branch = factorial.new_block(&mut context, "ret_block").unwrap();
    block.end_with_conditional(&mut context, None, cond, true_branch, false_branch).unwrap();
    let one = context.new_rvalue_one(int_ty);
    true_branch.end_with_return(&mut context, None, one).unwrap();
    let n_minus_one = context.new_binary_op(None, BinaryOp::Minus, int_ty, parm, one);
    let call = context.new_call(None, factorial, &[n_minus_one]).unwrap();
    let mul = context.new_binary_op(None, BinaryOp::Mult, int_ty, parm, call);
    false_branch.end_with_return(&mut context, None, mul).unwrap();

    let result = context.compile().unwrap();
    let f = result.get_function("factorial").unwrap();
    assert_eq!(result.invoke(f, &vec![5], FUEL).unwrap(), Some(120));
    assert_eq!(result.invoke(f, &vec![10], FUEL).unwrap(), Some(3_628_800));
}

#[test]
fn absent_symbols_are_explicit() {
    let mut context = Context::default();
    let int_ty = context.new_type::<i32>();
    let hidden = context.new_function(None, FunctionType::Internal, int_ty, &[], "hidden", false);
    let b = hidden.new_block(&mut context, "entry").unwrap();
    let one = context.new_rvalue_one(int_ty);
    b.end_with_return(&mut context, None, one).unwrap();
    let result = context.compile().unwrap();
    // not marked exported, and never declared at all: both are absences
    assert!(result.get_function("hidden").is_none());
    assert!(result.get_function("never_declared").is_none());
}

#[test]
fn child_context_compiles_independently() {
    let mut parent = Context::default();
    let int_ty = parent.new_type::<i32>();
    let field = parent.new_field(None, int_ty, "seed");
    let _st = parent.new_struct_type(None, "parent_only", &[field]).unwrap();
    let funcs_before = parent.program.funcs.len();

    let mut child = parent.new_child_context();
    let cint = child.new_type::<i32>();
    let p = child.new_parameter(None, cint, "x");
    let triple = child.new_function(None, FunctionType::Exported, cint, &[p], "triple", false);
    let b = triple.new_block(&mut child, "entry").unwrap();
    let parm = triple.get_param(&child, 0).to_rvalue();
    let three = child.new_rvalue_from_int(cint, 3);
    let product = child.new_binary_op(None, BinaryOp::Mult, cint, parm, three);
    b.end_with_return(&mut child, None, product).unwrap();
    let result = child.compile().unwrap();
    let f = result.get_function("triple").unwrap();
    assert_eq!(result.invoke(f, &vec![14], FUEL).unwrap(), Some(42));

    // the parent saw none of the child's building
    assert_eq!(parent.program.funcs.len(), funcs_before);
    let parent_result = parent.compile().unwrap();
    assert!(parent_result.get_function("triple").is_none());
}

#[test]
fn locals_loops_and_switch() {
    // sum the integers from 1 to n with a loop, then classify the sum
    let mut ctx = Context::default();
    let int_ty = ctx.new_type::<i32>();
    let p = ctx.new_parameter(None, int_ty, "n");
    let f = ctx.new_function(None, FunctionType::Exported, int_ty, &[p], "sum_to", false);
    let entry = f.new_block(&mut ctx, "entry").unwrap();
    let loop_cond = f.new_block(&mut ctx, "loop_cond").unwrap();
    let loop_body = f.new_block(&mut ctx, "loop_body").unwrap();
    let done = f.new_block(&mut ctx, "done").unwrap();

    let acc = f.new_local(&mut ctx, None, int_ty, "acc");
    let i = f.new_local(&mut ctx, None, int_ty, "i");
    let parm = f.get_param(&ctx, 0).to_rvalue();
    let zero = ctx.new_rvalue_zero(int_ty);
    let one = ctx.new_rvalue_one(int_ty);

    entry.add_assignment(&mut ctx, None, acc, zero).unwrap();
    entry.add_assignment(&mut ctx, None, i, one).unwrap();
    entry.add_comment(&mut ctx, None, "accumulate").unwrap();
    entry.end_with_jump(&mut ctx, None, loop_cond).unwrap();

    let keep_going = ctx.new_comparison(None, ComparisonOp::LessThanEquals, i, parm);
    loop_cond.end_with_conditional(&mut ctx, None, keep_going, loop_body, done).unwrap();

    loop_body.add_assignment_op(&mut ctx, None, acc, BinaryOp::Plus, i).unwrap();
    loop_body.add_assignment_op(&mut ctx, None, i, BinaryOp::Plus, one).unwrap();
    loop_body.end_with_jump(&mut ctx, None, loop_cond).unwrap();

    done.end_with_return(&mut ctx, None, acc).unwrap();

    let result = ctx.compile().unwrap();
    let sum_to = result.get_function("sum_to").unwrap();
    assert_eq!(result.invoke(sum_to, &vec![1], FUEL).unwrap(), Some(1));
    assert_eq!(result.invoke(sum_to, &vec![10], FUEL).unwrap(), Some(55));
    assert_eq!(result.invoke(sum_to, &vec![0], FUEL).unwrap(), Some(0));
}

#[test]
fn switch_selects_first_matching_case() {
    let mut ctx = Context::default();
    let int_ty = ctx.new_type::<i32>();
    let p = ctx.new_parameter(None, int_ty, "x");
    let f = ctx.new_function(None, FunctionType::Exported, int_ty, &[p], "classify", false);
    let entry = f.new_block(&mut ctx, "entry").unwrap();
    let small = f.new_block(&mut ctx, "small").unwrap();
    let medium = f.new_block(&mut ctx, "medium").unwrap();
    let other = f.new_block(&mut ctx, "other").unwrap();

    let c1_lo = ctx.new_rvalue_from_int(int_ty, 0);
    let c1_hi = ctx.new_rvalue_from_int(int_ty, 9);
    let c2_lo = ctx.new_rvalue_from_int(int_ty, 10);
    let c2_hi = ctx.new_rvalue_from_int(int_ty, 99);
    let case_small = ctx.new_case(c1_lo, c1_hi, small);
    let case_medium = ctx.new_case(c2_lo, c2_hi, medium);
    let parm = f.get_param(&ctx, 0).to_rvalue();
    entry.end_with_switch(&mut ctx, None, parm, other, &[case_small, case_medium]).unwrap();

    let r1 = ctx.new_rvalue_from_int(int_ty, 1);
    let r2 = ctx.new_rvalue_from_int(int_ty, 2);
    let r3 = ctx.new_rvalue_from_int(int_ty, 3);
    small.end_with_return(&mut ctx, None, r1).unwrap();
    medium.end_with_return(&mut ctx, None, r2).unwrap();
    other.end_with_return(&mut ctx, None, r3).unwrap();

    let result = ctx.compile().unwrap();
    let f = result.get_function("classify").unwrap();
    assert_eq!(result.invoke(f, &vec![5], FUEL).unwrap(), Some(1));
    assert_eq!(result.invoke(f, &vec![42], FUEL).unwrap(), Some(2));
    assert_eq!(result.invoke(f, &vec![-3], FUEL).unwrap(), Some(3));
    assert_eq!(result.invoke(f, &vec![100], FUEL).unwrap(), Some(3));
}

#[test]
fn casts_and_unary_operations() {
    let mut ctx = Context::default();
    let int_ty = ctx.new_type::<i32>();
    let byte_ty = ctx.new_type::<u8>();
    let p = ctx.new_parameter(None, int_ty, "x");
    let f = ctx.new_function(None, FunctionType::Exported, int_ty, &[p], "low_byte_neg", false);
    let b = f.new_block(&mut ctx, "entry").unwrap();
    let parm = f.get_param(&ctx, 0).to_rvalue();
    let low = ctx.new_cast(None, parm, byte_ty);
    let back = ctx.new_cast(None, low, int_ty);
    let neg = ctx.new_unary_op(None, UnaryOp::Minus, int_ty, back);
    b.end_with_return(&mut ctx, None, neg).unwrap();
    let result = ctx.compile().unwrap();
    let f = result.get_function("low_byte_neg").unwrap();
    // 0x1_2C = 300; its low byte is 0x2C = 44
    assert_eq!(result.invoke(f, &vec![300], FUEL).unwrap(), Some(-44));
    assert_eq!(result.invoke(f, &vec![255], FUEL).unwrap(), Some(-255));
}

#[test]
fn division_truncates_and_checks_zero() {
    let mut ctx = Context::default();
    let int_ty = ctx.new_type::<i32>();
    let a = ctx.new_parameter(None, int_ty, "a");
    let b = ctx.new_parameter(None, int_ty, "b");
    let f = ctx.new_function(None, FunctionType::Exported, int_ty, &[a, b], "quot", false);
    let blk = f.new_block(&mut ctx, "entry").unwrap();
    let pa = f.get_param(&ctx, 0).to_rvalue();
    let pb = f.get_param(&ctx, 1).to_rvalue();
    let q = ctx.new_binary_op(None, BinaryOp::Divide, int_ty, pa, pb);
    blk.end_with_return(&mut ctx, None, q).unwrap();
    let result = ctx.compile().unwrap();
    let f = result.get_function("quot").unwrap();
    assert_eq!(result.invoke(f, &vec![7, 2], FUEL).unwrap(), Some(3));
    // C division truncates toward zero
    assert_eq!(result.invoke(f, &vec![-7, 2], FUEL).unwrap(), Some(-3));
    assert_eq!(result.invoke(f, &vec![1, 0], FUEL), Err(EvalError::DivisionByZero));
}

#[test]
fn runaway_programs_run_out_of_fuel() {
    let mut ctx = Context::default();
    let void_ty = ctx.new_type::<()>();
    let f = ctx.new_function(None, FunctionType::Exported, void_ty, &[], "forever", false);
    let entry = f.new_block(&mut ctx, "entry").unwrap();
    entry.end_with_jump(&mut ctx, None, entry).unwrap();
    let result = ctx.compile().unwrap();
    let f = result.get_function("forever").unwrap();
    assert_eq!(result.invoke(f, &vec![], 1000), Err(EvalError::OutOfFuel));
}

#[test]
fn wrong_argument_count_is_reported() {
    let mut ctx = Context::default();
    let int_ty = ctx.new_type::<i32>();
    let p = ctx.new_parameter(None, int_ty, "x");
    let f = ctx.new_function(None, FunctionType::Exported, int_ty, &[p], "ident", false);
    let b = f.new_block(&mut ctx, "entry").unwrap();
    let parm = f.get_param(&ctx, 0).to_rvalue();
    b.end_with_return(&mut ctx, None, parm).unwrap();
    let result = ctx.compile().unwrap();
    let f = result.get_function("ident").unwrap();
    assert_eq!(result.invoke(f, &vec![], FUEL), Err(EvalError::BadArgumentCount));
    assert_eq!(result.invoke(f, &vec![1, 2], FUEL), Err(EvalError::BadArgumentCount));
    assert_eq!(result.invoke(f, &vec![7], FUEL).unwrap(), Some(7));
}

#[test]
fn balanced_brackets_build_and_compile() {
    let mut ctx = Context::default();
    let void_ty = ctx.new_type::<()>();
    let int_ty = ctx.new_type::<i32>();
    let f = ctx.new_function(None, FunctionType::Exported, void_ty, &[], "bracket_fn", false);
    let entry = f.new_block(&mut ctx, "entry").unwrap();
    let counter = f.new_local(&mut ctx, None, int_ty, "counter");
    let cond = counter.to_rvalue();
    let blocks_before = ctx.program.blocks.len();

    let toks = [
        BracketToken::Open,
        BracketToken::Open,
        BracketToken::Close,
        BracketToken::Close,
        BracketToken::Open,
        BracketToken::Close,
    ];
    let pairs = build_bracket_cfg(&mut ctx, f, entry, cond, &toks).unwrap();
    // one condition block per bracket pair
    assert_eq!(pairs, 3);
    assert_eq!(ctx.program.blocks.len(), blocks_before + 3 * pairs);

    // the graph is complete: the whole program compiles and runs
    let result = ctx.compile().unwrap();
    let bf = result.get_function("bracket_fn").unwrap();
    // the counter is zero, so every loop is skipped and the call returns
    assert_eq!(result.invoke(bf, &vec![], FUEL).unwrap(), None);
}

#[test]
fn unmatched_close_is_rejected_before_compile() {
    let mut ctx = Context::default();
    let void_ty = ctx.new_type::<()>();
    let int_ty = ctx.new_type::<i32>();
    let f = ctx.new_function(None, FunctionType::Exported, void_ty, &[], "bad_fn", false);
    let entry = f.new_block(&mut ctx, "entry").unwrap();
    let counter = f.new_local(&mut ctx, None, int_ty, "counter");
    let cond = counter.to_rvalue();

    let toks = [BracketToken::Open, BracketToken::Close, BracketToken::Close];
    assert_eq!(
        build_bracket_cfg(&mut ctx, f, entry, cond, &toks),
        Err(BuildError::UnmatchedClose),
    );
    assert_eq!(ctx.get_last_error().unwrap(), "closing bracket without matching open");

    let toks2 = [BracketToken::Open];
    let mut ctx2 = Context::default();
    let void2 = ctx2.new_type::<()>();
    let int2 = ctx2.new_type::<i32>();
    let f2 = ctx2.new_function(None, FunctionType::Exported, void2, &[], "open_fn", false);
    let entry2 = f2.new_block(&mut ctx2, "entry").unwrap();
    let c2 = f2.new_local(&mut ctx2, None, int2, "c");
    assert_eq!(
        build_bracket_cfg(&mut ctx2, f2, entry2, c2.to_rvalue(), &toks2),
        Err(BuildError::UnclosedBracket),
    );
}

#[test]
fn logical_operators_short_circuit() {
    let mut ctx = Context::default();
    let int_ty = ctx.new_type::<i32>();
    let bool_ty = ctx.new_type::<bool>();
    let a = ctx.new_parameter(None, int_ty, "a");
    let b = ctx.new_parameter(None, int_ty, "b");
    let f = ctx.new_function(None, FunctionType::Exported, bool_ty, &[a, b], "both", false);
    let blk = f.new_block(&mut ctx, "entry").unwrap();
    let pa = f.get_param(&ctx, 0).to_rvalue();
    let pb = f.get_param(&ctx, 1).to_rvalue();
    let both = ctx.new_binary_op(None, BinaryOp::LogicalAnd, bool_ty, pa, pb);
    blk.end_with_return(&mut ctx, None, both).unwrap();
    let result = ctx.compile().unwrap();
    let f = result.get_function("both").unwrap();
    assert_eq!(result.invoke(f, &vec![1, 1], FUEL).unwrap(), Some(1));
    assert_eq!(result.invoke(f, &vec![1, 0], FUEL).unwrap(), Some(0));
    assert_eq!(result.invoke(f, &vec![0, 5], FUEL).unwrap(), Some(0));
}
