use gccjit::{BinaryOp, ComparisonOp, Context, EvalError, FunctionType, GlobalKind, ToObject,
    ToRValue, UnaryOp};

const FUEL: u64 = 1_000_000;

/// Builds `name(a, b) { return a <op> b; }` over the type made by `mk`.
fn binop_program(op: BinaryOp, signed64: bool) -> (gccjit::CompileResult, gccjit::CompiledFunction) {
    let mut ctx = Context::default();
    let ty = if signed64 {
        ctx.new_type::<i64>()
    } else {
        ctx.new_type::<u64>()
    };
    let a = ctx.new_parameter(None, ty, "a");
    let b = ctx.new_parameter(None, ty, "b");
    let f = ctx.new_function(None, FunctionType::Exported, ty, &[a, b], "op_fn", false);
    let blk = f.new_block(&mut ctx, "entry").unwrap();
    let pa = f.get_param(&ctx, 0).to_rvalue();
    let pb = f.get_param(&ctx, 1).to_rvalue();
    let r = ctx.new_binary_op(None, op, ty, pa, pb);
    blk.end_with_return(&mut ctx, None, r).unwrap();
    let result = ctx.compile().unwrap();
    let cf = result.get_function("op_fn").unwrap();
    (result, cf)
}

#[test]
fn addition_wraps_at_sixty_four_bits() {
    let (r, f) = binop_program(BinaryOp::Plus, true);
    assert_eq!(r.invoke(f, &vec![2, 3], FUEL).unwrap(), Some(5));
    assert_eq!(r.invoke(f, &vec![i64::MAX, 1], FUEL).unwrap(), Some(i64::MIN));
}

#[test]
fn subtraction_and_remainder() {
    let (r, f) = binop_program(BinaryOp::Minus, true);
    assert_eq!(r.invoke(f, &vec![3, 10], FUEL).unwrap(), Some(-7));
    let (r, f) = binop_program(BinaryOp::Modulo, true);
    assert_eq!(r.invoke(f, &vec![10, 3], FUEL).unwrap(), Some(1));
    assert_eq!(r.invoke(f, &vec![-10, 3], FUEL).unwrap(), Some(-1));
    assert_eq!(r.invoke(f, &vec![10, 0], FUEL), Err(EvalError::DivisionByZero));
}

#[test]
fn unsigned_division_uses_the_full_word() {
    let (r, f) = binop_program(BinaryOp::Divide, false);
    // -2 is the bit pattern of 2^64 - 2; unsigned division halves it
    assert_eq!(r.invoke(f, &vec![-2, 2], FUEL).unwrap(), Some(i64::MAX));
    let (r, f) = binop_program(BinaryOp::Divide, true);
    assert_eq!(r.invoke(f, &vec![-2, 2], FUEL).unwrap(), Some(-1));
}

#[test]
fn bitwise_operations() {
    let (r, f) = binop_program(BinaryOp::BitwiseAnd, true);
    assert_eq!(r.invoke(f, &vec![0b1100, 0b1010], FUEL).unwrap(), Some(0b1000));
    let (r, f) = binop_program(BinaryOp::BitwiseOr, true);
    assert_eq!(r.invoke(f, &vec![0b1100, 0b1010], FUEL).unwrap(), Some(0b1110));
    let (r, f) = binop_program(BinaryOp::BitwiseXor, true);
    assert_eq!(r.invoke(f, &vec![0b1100, 0b1010], FUEL).unwrap(), Some(0b0110));
}

#[test]
fn shifts_respect_sign_and_range() {
    let (r, f) = binop_program(BinaryOp::LShift, true);
    assert_eq!(r.invoke(f, &vec![1, 10], FUEL).unwrap(), Some(1024));
    assert_eq!(r.invoke(f, &vec![1, 64], FUEL), Err(EvalError::ShiftOutOfRange));
    assert_eq!(r.invoke(f, &vec![1, -1], FUEL), Err(EvalError::ShiftOutOfRange));
    let (r, f) = binop_program(BinaryOp::RShift, true);
    // arithmetic shift keeps the sign
    assert_eq!(r.invoke(f, &vec![-8, 1], FUEL).unwrap(), Some(-4));
    assert_eq!(r.invoke(f, &vec![8, 2], FUEL).unwrap(), Some(2));
    let (r, f) = binop_program(BinaryOp::RShift, false);
    // logical shift brings in zeros
    assert_eq!(r.invoke(f, &vec![-8, 60], FUEL).unwrap(), Some(15));
}

#[test]
fn unsigned_comparison_differs_from_signed() {
    let mut ctx = Context::default();
    let u64_ty = ctx.new_type::<u64>();
    let bool_ty = ctx.new_type::<bool>();
    let a = ctx.new_parameter(None, u64_ty, "a");
    let b = ctx.new_parameter(None, u64_ty, "b");
    let f = ctx.new_function(None, FunctionType::Exported, bool_ty, &[a, b], "lt", false);
    let blk = f.new_block(&mut ctx, "entry").unwrap();
    let pa = f.get_param(&ctx, 0).to_rvalue();
    let pb = f.get_param(&ctx, 1).to_rvalue();
    let r = ctx.new_comparison(None, ComparisonOp::LessThan, pa, pb);
    blk.end_with_return(&mut ctx, None, r).unwrap();
    let result = ctx.compile().unwrap();
    let lt = result.get_function("lt").unwrap();
    // -1 is the largest unsigned 64-bit value
    assert_eq!(result.invoke(lt, &vec![-1, 1], FUEL).unwrap(), Some(0));
    assert_eq!(result.invoke(lt, &vec![1, -1], FUEL).unwrap(), Some(1));
}

#[test]
fn absolute_value_and_negations() {
    let mut ctx = Context::default();
    let ty = ctx.new_type::<i64>();
    let a = ctx.new_parameter(None, ty, "a");
    let f = ctx.new_function(None, FunctionType::Exported, ty, &[a], "magnitude", false);
    let blk = f.new_block(&mut ctx, "entry").unwrap();
    let pa = f.get_param(&ctx, 0).to_rvalue();
    let r = ctx.new_unary_op(None, UnaryOp::Abs, ty, pa);
    blk.end_with_return(&mut ctx, None, r).unwrap();
    let result = ctx.compile().unwrap();
    let f = result.get_function("magnitude").unwrap();
    assert_eq!(result.invoke(f, &vec![-9], FUEL).unwrap(), Some(9));
    assert_eq!(result.invoke(f, &vec![9], FUEL).unwrap(), Some(9));

    let mut ctx = Context::default();
    let ty = ctx.new_type::<i64>();
    let a = ctx.new_parameter(None, ty, "a");
    let f = ctx.new_function(None, FunctionType::Exported, ty, &[a], "flipped", false);
    let blk = f.new_block(&mut ctx, "entry").unwrap();
    let pa = f.get_param(&ctx, 0).to_rvalue();
    let r = ctx.new_unary_op(None, UnaryOp::BitwiseNegate, ty, pa);
    blk.end_with_return(&mut ctx, None, r).unwrap();
    let result = ctx.compile().unwrap();
    let f = result.get_function("flipped").unwrap();
    assert_eq!(result.invoke(f, &vec![0], FUEL).unwrap(), Some(-1));
    assert_eq!(result.invoke(f, &vec![-1], FUEL).unwrap(), Some(0));
}

#[test]
fn boolean_results_are_zero_or_one() {
    let mut ctx = Context::default();
    let int_ty = ctx.new_type::<i32>();
    let bool_ty = ctx.new_type::<bool>();
    let a = ctx.new_parameter(None, int_ty, "a");
    let f = ctx.new_function(None, FunctionType::Exported, bool_ty, &[a], "truthy", false);
    let blk = f.new_block(&mut ctx, "entry").unwrap();
    let pa = f.get_param(&ctx, 0).to_rvalue();
    let as_flag = ctx.new_cast(None, pa, bool_ty);
    blk.end_with_return(&mut ctx, None, as_flag).unwrap();
    let result = ctx.compile().unwrap();
    let f = result.get_function("truthy").unwrap();
    assert_eq!(result.invoke(f, &vec![0], FUEL).unwrap(), Some(0));
    assert_eq!(result.invoke(f, &vec![77], FUEL).unwrap(), Some(1));
    assert_eq!(result.invoke(f, &vec![-1], FUEL).unwrap(), Some(1));
}

#[test]
fn narrow_casts_extend_by_signedness() {
    let mut ctx = Context::default();
    let int_ty = ctx.new_type::<i32>();
    let i8_ty = ctx.new_type::<i8>();
    let a = ctx.new_parameter(None, int_ty, "a");
    let f = ctx.new_function(None, FunctionType::Exported, int_ty, &[a], "sign_ext", false);
    let blk = f.new_block(&mut ctx, "entry").unwrap();
    let pa = f.get_param(&ctx, 0).to_rvalue();
    let narrow = ctx.new_cast(None, pa, i8_ty);
    let wide = ctx.new_cast(None, narrow, int_ty);
    blk.end_with_return(&mut ctx, None, wide).unwrap();
    let result = ctx.compile().unwrap();
    let f = result.get_function("sign_ext").unwrap();
    // 0x80 sign-extends to -128 through a signed byte
    assert_eq!(result.invoke(f, &vec![128], FUEL).unwrap(), Some(-128));
    assert_eq!(result.invoke(f, &vec![127], FUEL).unwrap(), Some(127));
}

#[test]
fn values_report_their_types() {
    let mut ctx = Context::default();
    let int_ty = ctx.new_type::<i32>();
    let lit = ctx.new_rvalue_from_long(int_ty, 7);
    assert_eq!(lit.get_type(&ctx), int_ty);
    let a = ctx.new_rvalue_from_int(int_ty, 1);
    let b = ctx.new_rvalue_from_int(int_ty, 2);
    let sum = ctx.new_binary_op(None, BinaryOp::Plus, int_ty, a, b);
    assert_eq!(sum.get_type(&ctx), int_ty);
    let bool_ty = ctx.new_type::<bool>();
    let cmp = ctx.new_comparison(None, ComparisonOp::LessThan, a, b);
    assert_eq!(cmp.get_type(&ctx), bool_ty);
    let s = ctx.new_string_literal("greetings");
    let char_ptr = s.get_type(&ctx);
    assert!(char_ptr.get_pointee(&ctx).is_some());
    let null = ctx.new_null(char_ptr);
    assert_eq!(null.get_type(&ctx), char_ptr);
}

#[test]
fn places_compose_without_running() {
    // address arithmetic and field access build well-formed IR even
    // though only the backend can execute them
    let mut ctx = Context::default();
    let int_ty = ctx.new_type::<i32>();
    let fld = ctx.new_field(None, int_ty, "n");
    let st = ctx.new_struct_type(None, "holder", &[fld]).unwrap();
    let void_ty = ctx.new_type::<()>();
    let f = ctx.new_function(None, FunctionType::Exported, void_ty, &[], "touch", false);
    let blk = f.new_block(&mut ctx, "entry").unwrap();
    let local = f.new_local(&mut ctx, None, st.as_type(), "h");
    let slot = local.access_field(&mut ctx, None, fld);
    let one = ctx.new_rvalue_one(int_ty);
    blk.add_assignment(&mut ctx, None, slot, one).unwrap();
    let addr = slot.get_address(&mut ctx, None);
    let back = addr.dereference(&mut ctx, None);
    blk.add_assignment(&mut ctx, None, back, one).unwrap();
    let arr_ty = ctx.new_array_type(None, int_ty, 4);
    let arr = f.new_local(&mut ctx, None, arr_ty, "buffer");
    let zero = ctx.new_rvalue_zero(int_ty);
    let cell = ctx.new_array_access(None, arr, zero);
    blk.add_assignment(&mut ctx, None, cell, one).unwrap();
    blk.end_with_void_return(&mut ctx, None).unwrap();
    // the structure is sound even though the evaluator declines to run it
    let result = ctx.compile().unwrap();
    let f = result.get_function("touch").unwrap();
    assert_eq!(result.invoke(f, &vec![], FUEL), Err(EvalError::Unsupported));
}

#[test]
fn inline_assembly_is_recorded_not_run() {
    let mut ctx = Context::default();
    let void_ty = ctx.new_type::<()>();
    let int_ty = ctx.new_type::<i32>();
    let f = ctx.new_function(None, FunctionType::Exported, void_ty, &[], "with_inline", false);
    let blk = f.new_block(&mut ctx, "entry").unwrap();
    let ea = blk.add_extended_asm(&mut ctx, None, "nop").unwrap();
    ea.set_volatile_flag(&mut ctx, true);
    ea.set_inline_flag(&mut ctx, true);
    let scratch = f.new_local(&mut ctx, None, int_ty, "scratch");
    ea.add_output_operand(&mut ctx, None, "=r", scratch);
    ea.add_input_operand(&mut ctx, Some("src"), "r", scratch.to_rvalue());
    ea.add_clobber(&mut ctx, "memory");
    ctx.add_top_level_asm(None, ".align 4");
    blk.end_with_void_return(&mut ctx, None).unwrap();
    let result = ctx.compile().unwrap();
    let f = result.get_function("with_inline").unwrap();
    assert_eq!(result.invoke(f, &vec![], FUEL), Err(EvalError::Unsupported));
}

#[test]
fn locations_and_objects_render() {
    let mut ctx = Context::default();
    let loc = ctx.new_location("input.bf", 3, 14);
    let int_ty = ctx.new_type::<i32>();
    let fld = ctx.new_field(Some(loc), int_ty, "cell");
    let f = ctx.new_function(
        Some(loc),
        FunctionType::Exported,
        int_ty,
        &[],
        "located",
        false,
    );
    let blk = f.new_block(&mut ctx, "prologue").unwrap();
    let one = ctx.new_rvalue_one(int_ty);
    blk.end_with_return(&mut ctx, Some(loc), one).unwrap();
    assert_eq!(loc.to_object().get_debug_string(&ctx), "location input.bf");
    assert_eq!(f.to_object().get_debug_string(&ctx), "function located");
    assert_eq!(blk.to_object().get_debug_string(&ctx), "block prologue");
    assert_eq!(fld.to_object().get_debug_string(&ctx), "field cell");
    assert_eq!(blk.get_function(&ctx), f);
    let _ = ctx.compile().unwrap();
}

#[test]
fn globals_are_buildable_but_not_runnable() {
    let mut ctx = Context::default();
    let int_ty = ctx.new_type::<i32>();
    let g = ctx.new_global(None, GlobalKind::Exported, int_ty, "counter");
    let f = ctx.new_function(None, FunctionType::Exported, int_ty, &[], "read_counter", false);
    let blk = f.new_block(&mut ctx, "entry").unwrap();
    blk.end_with_return(&mut ctx, None, g.to_rvalue()).unwrap();
    let result = ctx.compile().unwrap();
    let f = result.get_function("read_counter").unwrap();
    // global storage lives in the backend, outside the evaluator's model
    assert_eq!(result.invoke(f, &vec![], FUEL), Err(EvalError::Unsupported));
}
