use gccjit::{Context, FunctionType, ToRValue, BinaryOp};

#[test]
fn create_context() {
    let _ctx = Context::default();
}

#[test]
fn create_child_context() {
    let ctx = Context::default();
    let _child = ctx.new_child_context();
}

#[test]
fn create_location() {
    let mut ctx = Context::default();
    let _location = ctx.new_location("hello.rs", 1, 32);
}

#[test]
fn create_type() {
    let mut ctx = Context::default();
    let _int_type = ctx.new_type::<i32>();
}

#[test]
fn create_field() {
    let mut ctx = Context::default();
    let int_type = ctx.new_type::<i32>();
    let _int_field = ctx.new_field(None, int_type, "x");
}

#[test]
fn basic_function() {
    let mut context = Context::default();
    let int_ty = context.new_type::<i32>();
    let parameter = context.new_parameter(None, int_ty, "x");
    let fun = context.new_function(
        None,
        FunctionType::Exported,
        int_ty,
        &[parameter],
        "square",
        false,
    );
    let block = fun.new_block(&mut context, "main_block").unwrap();
    let parm = fun.get_param(&context, 0).to_rvalue();
    let square = context.new_binary_op(None, BinaryOp::Mult, int_ty, parm, parm);
    block.end_with_return(&mut context, None, square).unwrap();

    let result = context.compile().unwrap();
    let func = result.get_function("square");
    assert!(func.is_some());
    let func = func.unwrap();
    assert_eq!(result.invoke(func, &vec![4], 100_000).unwrap(), Some(16));
    assert_eq!(result.invoke(func, &vec![9], 100_000).unwrap(), Some(81));
    assert_eq!(result.invoke(func, &vec![-2], 100_000).unwrap(), Some(4));
}
