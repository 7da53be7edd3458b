use gccjit::{BuildError, Context, CType, Field, FunctionType, GlobalKind, OptimizationLevel,
    ToObject, ToRValue};

#[test]
fn primitive_debug_strings_are_nonempty() {
    let mut ctx = Context::default();
    let samples = [
        ctx.new_type::<()>(),
        ctx.new_type::<bool>(),
        ctx.new_type::<char>(),
        ctx.new_type::<i8>(),
        ctx.new_type::<u8>(),
        ctx.new_type::<i16>(),
        ctx.new_type::<u16>(),
        ctx.new_type::<i32>(),
        ctx.new_type::<u32>(),
        ctx.new_type::<i64>(),
        ctx.new_type::<u64>(),
        ctx.new_type::<usize>(),
    ];
    for t in samples.iter() {
        let s = t.get_debug_string(&ctx);
        assert!(!s.is_empty());
        // rendering is stable: asking twice gives the same text
        assert_eq!(s, t.get_debug_string(&ctx));
    }
    assert_eq!(ctx.new_type::<i32>().get_debug_string(&ctx), "signed integer");
    assert_eq!(ctx.new_c_type(CType::Int).get_debug_string(&ctx), "int");
    let ptr = ctx.new_c_type(CType::Int).make_pointer(&mut ctx);
    assert_eq!(ptr.get_debug_string(&ctx), "int *");
}

#[test]
fn derivation_identity_is_idempotent() {
    let mut ctx = Context::default();
    let int_ty = ctx.new_type::<i32>();
    let p1 = int_ty.make_pointer(&mut ctx);
    let p2 = int_ty.make_pointer(&mut ctx);
    assert_eq!(p1, p2);
    let c1 = int_ty.make_const(&mut ctx);
    let c2 = int_ty.make_const(&mut ctx);
    assert_eq!(c1, c2);
    let v1 = int_ty.make_volatile(&mut ctx);
    let v2 = int_ty.make_volatile(&mut ctx);
    assert_eq!(v1, v2);
    // the same primitive type is also interned once
    assert_eq!(ctx.new_type::<i32>(), int_ty);
    assert_ne!(p1, c1);
}

#[test]
fn type_introspection() {
    let mut ctx = Context::default();
    let int_ty = ctx.new_type::<i32>();
    let bool_ty = ctx.new_type::<bool>();
    assert!(bool_ty.is_bool(&ctx));
    assert!(!int_ty.is_bool(&ctx));
    assert!(int_ty.is_integral(&ctx));
    assert!(!bool_ty.is_integral(&ctx));

    let arr = ctx.new_array_type(None, int_ty, 10);
    assert!(arr.is_array(&ctx).is_some());
    assert_eq!(arr.is_array(&ctx).unwrap(), int_ty);
    assert!(int_ty.is_array(&ctx).is_none());

    let ptr = int_ty.make_pointer(&mut ctx);
    assert_eq!(ptr.get_pointee(&ctx).unwrap(), int_ty);
    assert!(int_ty.get_pointee(&ctx).is_none());

    let vec_ty = ctx.new_vector_type(int_ty, 4);
    let v = vec_ty.is_vector(&ctx).unwrap();
    assert_eq!(v.get_element_type(), int_ty);
    assert_eq!(v.get_num_units(), 4);

    let fp = ctx.new_function_pointer_type(None, int_ty, &[int_ty, bool_ty], false);
    let fpv = fp.is_function_ptr_type(&ctx).unwrap();
    assert_eq!(fpv.get_return_type(&ctx), int_ty);
    assert_eq!(fpv.get_param_count(&ctx), 2);
    assert_eq!(fpv.get_param_type(&ctx, 1), bool_ty);

    let qualified = int_ty.make_const(&mut ctx);
    let qq = qualified.make_volatile(&mut ctx);
    assert_eq!(qq.unqualified(&ctx), int_ty);
}

#[test]
fn opaque_struct_set_fields_once() {
    let mut ctx = Context::default();
    let int_ty = ctx.new_type::<i32>();
    let bool_ty = ctx.new_type::<bool>();
    let f1 = ctx.new_field(None, int_ty, "a");
    let f2 = ctx.new_field(None, bool_ty, "b");
    let f3 = ctx.new_field(None, int_ty, "c");
    let st = ctx.new_opaque_struct_type(None, "widget");
    assert_eq!(st.get_field_count(&ctx), 0);

    let fields = [f1, f2, f3];
    assert!(st.set_fields(&mut ctx, None, &fields).is_ok());
    assert_eq!(st.get_field_count(&ctx), 3);
    assert_eq!(st.get_field(&ctx, 0), f1);
    assert_eq!(st.get_field(&ctx, 1), f2);
    assert_eq!(st.get_field(&ctx, 2), f3);

    // a second fill is rejected, and logged
    let f4 = ctx.new_field(None, int_ty, "d");
    assert_eq!(st.set_fields(&mut ctx, None, &[f4]), Err(BuildError::StructFilled));
    assert_eq!(st.get_field_count(&ctx), 3);
    assert!(ctx.get_last_error().is_some());
}

#[test]
fn struct_with_fields_is_frozen() {
    let mut ctx = Context::default();
    let int_ty = ctx.new_type::<i32>();
    let f1 = ctx.new_field(None, int_ty, "x");
    let st = ctx.new_struct_type(None, "point", &[f1]).unwrap();
    assert_eq!(st.get_field_count(&ctx), 1);
    let f2 = ctx.new_field(None, int_ty, "y");
    assert_eq!(st.set_fields(&mut ctx, None, &[f2]), Err(BuildError::StructFilled));
    let ty = st.as_type();
    let back = ty.is_struct(&ctx).unwrap();
    assert_eq!(back, st);
    assert_eq!(st.to_object().get_debug_string(&ctx), "struct point");
}

#[test]
fn field_used_twice_is_rejected() {
    let mut ctx = Context::default();
    let int_ty = ctx.new_type::<i32>();
    let f1 = ctx.new_field(None, int_ty, "x");
    let _s1 = ctx.new_struct_type(None, "first", &[f1]).unwrap();
    assert_eq!(ctx.new_struct_type(None, "second", &[f1]).err(), Some(BuildError::FieldInUse));
    // the same field twice in one definition is also rejected
    let f2 = ctx.new_field(None, int_ty, "y");
    assert_eq!(
        ctx.new_union_type(None, "u", &[f2, f2]).err(),
        Some(BuildError::FieldInUse),
    );
    assert!(ctx.new_union_type(None, "u2", &[f2]).is_ok());
}

#[test]
fn extern_function_rejects_blocks() {
    let mut ctx = Context::default();
    let int_ty = ctx.new_type::<i32>();
    let f = ctx.new_function(None, FunctionType::Extern, int_ty, &[], "getchar", false);
    assert_eq!(f.new_block(&mut ctx, "entry").err(), Some(BuildError::ExternWithBody));
}

#[test]
fn terminated_block_rejects_more() {
    let mut ctx = Context::default();
    let int_ty = ctx.new_type::<i32>();
    let f = ctx.new_function(None, FunctionType::Exported, int_ty, &[], "answer", false);
    let b = f.new_block(&mut ctx, "entry").unwrap();
    let forty_two = ctx.new_rvalue_from_int(int_ty, 42);
    assert!(b.end_with_return(&mut ctx, None, forty_two).is_ok());
    assert_eq!(
        b.end_with_return(&mut ctx, None, forty_two).err(),
        Some(BuildError::BlockTerminated),
    );
    assert_eq!(b.add_eval(&mut ctx, None, forty_two).err(), Some(BuildError::BlockTerminated));
    assert_eq!(
        b.add_comment(&mut ctx, None, "too late").err(),
        Some(BuildError::BlockTerminated),
    );
}

#[test]
fn call_arity_is_checked() {
    let mut ctx = Context::default();
    let int_ty = ctx.new_type::<i32>();
    let p = ctx.new_parameter(None, int_ty, "n");
    let f = ctx.new_function(None, FunctionType::Internal, int_ty, &[p], "one_arg", false);
    let a = ctx.new_rvalue_from_int(int_ty, 1);
    let b = ctx.new_rvalue_from_int(int_ty, 2);
    assert_eq!(ctx.new_call(None, f, &[a, b]).err(), Some(BuildError::ArityMismatch));
    assert!(ctx.new_call(None, f, &[a]).is_ok());
}

#[test]
fn compile_rejects_unterminated_block() {
    let mut ctx = Context::default();
    let int_ty = ctx.new_type::<i32>();
    let f = ctx.new_function(None, FunctionType::Exported, int_ty, &[], "open_ended", false);
    let _b = f.new_block(&mut ctx, "entry").unwrap();
    assert_eq!(ctx.compile().err(), Some(BuildError::MissingTerminator));
    let first = ctx.get_first_error().unwrap();
    assert_eq!(first, "block has no terminator");
}

#[test]
fn compile_rejects_bodyless_function() {
    let mut ctx = Context::default();
    let int_ty = ctx.new_type::<i32>();
    let _f = ctx.new_function(None, FunctionType::Internal, int_ty, &[], "ghostly", false);
    assert_eq!(ctx.compile().err(), Some(BuildError::BodyMissing));
}

#[test]
fn error_log_keeps_first_and_last() {
    let mut ctx = Context::default();
    assert!(ctx.get_first_error().is_none());
    assert!(ctx.get_last_error().is_none());
    let int_ty = ctx.new_type::<i32>();
    let f = ctx.new_function(None, FunctionType::Extern, int_ty, &[], "ext", false);
    let _ = f.new_block(&mut ctx, "no");
    let p = ctx.new_parameter(None, int_ty, "n");
    let g = ctx.new_function(None, FunctionType::Internal, int_ty, &[p], "g", false);
    let a = ctx.new_rvalue_from_int(int_ty, 1);
    let _ = ctx.new_call(None, g, &[a, a]);
    assert_eq!(ctx.get_first_error().unwrap(), "external function cannot have blocks");
    assert_eq!(ctx.get_last_error().unwrap(), "call has wrong number of arguments");
}

#[test]
fn exported_global_lookup() {
    let mut ctx = Context::default();
    let int_ty = ctx.new_type::<i32>();
    let _g1 = ctx.new_global(None, GlobalKind::Exported, int_ty, "visible");
    let _g2 = ctx.new_global(None, GlobalKind::Internal, int_ty, "hidden");
    let f = ctx.new_function(None, FunctionType::Exported, int_ty, &[], "main_fn", false);
    let b = f.new_block(&mut ctx, "entry").unwrap();
    let z = ctx.new_rvalue_zero(int_ty);
    b.end_with_return(&mut ctx, None, z).unwrap();
    let result = ctx.compile().unwrap();
    assert!(result.get_global("visible").is_some());
    assert!(result.get_global("hidden").is_none());
    assert!(result.get_global("absent").is_none());
}

#[test]
fn options_are_recorded() {
    let mut ctx = Context::default();
    ctx.set_program_name("demo");
    ctx.set_optimization_level(OptimizationLevel::Aggressive);
    ctx.set_debug_info(true);
    ctx.set_keep_intermediates(true);
    ctx.set_dump_everything(true);
    ctx.set_dump_initial_gimple(true);
    ctx.set_dump_code_on_compile(true);
    ctx.add_command_line_option("-fno-strict-aliasing");
    ctx.add_driver_option("-lm");
    assert_eq!(ctx.program_name.as_deref(), Some("demo"));
    assert_eq!(ctx.opt_level, OptimizationLevel::Aggressive);
    assert!(ctx.debug_info);
    assert_eq!(ctx.command_line_options.len(), 1);
    assert_eq!(ctx.driver_options.len(), 1);
}

#[test]
fn objects_carry_identity() {
    let mut ctx = Context::default();
    let int_ty = ctx.new_type::<i32>();
    let f1: Field = ctx.new_field(None, int_ty, "a");
    let f2: Field = ctx.new_field(None, int_ty, "a");
    assert_ne!(f1.to_object(), f2.to_object());
    assert_eq!(f1.to_object(), f1.to_object());
    let s = f1.to_object().get_debug_string(&ctx);
    assert_eq!(s, "field a");
}
