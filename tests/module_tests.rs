use llvm::process::{
    initialize_core, is_multithreaded, shutdown, start_multithreaded, stop_multithreaded,
    CoreState,
};
use llvm::ty;
use llvm::value;
use llvm::wrap::Wrapper;
use llvm::{Context, Module};
use std::cell::RefCell;

fn ready() -> CoreState {
    let mut core = CoreState::new();
    initialize_core(&mut core);
    core
}

fn handles(m: &Module, stop_after: usize) -> (bool, Vec<u64>) {
    let seen = RefCell::new(Vec::new());
    let all = m.each_function(|f: value::Function| {
        seen.borrow_mut().push(f.to_ref());
        seen.borrow().len() < stop_after
    });
    (all, seen.into_inner())
}

#[test]
fn new_module_has_empty_target_and_layout() {
    let ctx = Context::new(&mut ready());
    let m = ctx.new_module("m");
    assert_eq!(m.get_target(), "");
    assert_eq!(m.get_data_layout(), "");
}

#[test]
fn target_round_trip() {
    let ctx = Context::new(&mut ready());
    let mut m = ctx.new_module("m");
    m.set_target("x86_64-unknown-linux-gnu");
    assert_eq!(m.get_target(), "x86_64-unknown-linux-gnu");
    m.set_target("");
    assert_eq!(m.get_target(), "");
}

#[test]
fn data_layout_round_trip() {
    let ctx = Context::new(&mut ready());
    let mut m = ctx.new_module("m");
    m.set_data_layout("e-p:64:64:64");
    assert_eq!(m.get_data_layout(), "e-p:64:64:64");
    assert_eq!(m.get_target(), "");
}

#[test]
fn each_function_on_empty_module_visits_nothing() {
    let ctx = Context::new(&mut ready());
    let m = ctx.new_module("m");
    let (all, seen) = handles(&m, usize::MAX);
    assert!(all);
    assert!(seen.is_empty());
}

#[test]
fn each_function_visits_in_declaration_order() {
    let ctx = Context::new(&mut ready());
    let mut m = ctx.new_module("m");
    let fty = ty::Function::from_ref(7);
    let a = m.add_function("a", fty);
    let b = m.add_function("b", fty);
    let c = m.add_function("c", fty);
    let (all, seen) = handles(&m, usize::MAX);
    assert!(all);
    assert_eq!(seen, vec![a.to_ref(), b.to_ref(), c.to_ref()]);
}

#[test]
fn each_function_stops_when_visitor_refuses() {
    let ctx = Context::new(&mut ready());
    let mut m = ctx.new_module("m");
    let fty = ty::Function::from_ref(7);
    let a = m.add_function("a", fty);
    let b = m.add_function("b", fty);
    m.add_function("c", fty);
    m.add_function("d", fty);
    let (all, seen) = handles(&m, 2);
    assert!(!all);
    assert_eq!(seen, vec![a.to_ref(), b.to_ref()]);
}

#[test]
fn added_values_get_distinct_handles() {
    let ctx = Context::new(&mut ready());
    let mut m = ctx.new_module("m");
    let f = m.add_function("f", ty::Function::from_ref(3));
    let g = m.add_global(ty::Type::from_ref(4), "g");
    let h = m.add_function("f", ty::Function::from_ref(3));
    assert_ne!(f.to_ref(), 0);
    assert_ne!(f.to_ref(), g.to_ref());
    assert_ne!(f.to_ref(), h.to_ref());
    assert_ne!(g.to_ref(), h.to_ref());
}

#[test]
fn named_md_add_then_get() {
    let ctx = Context::new(&mut ready());
    let mut m = ctx.new_module("m");
    let md = value::Metadata::from_ref(42);
    m.add_named_md_operand("x", md);
    let ops = m.get_named_md_operands("x");
    assert_eq!(ops.len(), 1);
    assert_eq!(ops[0].to_ref(), 42);
}

#[test]
fn named_md_keeps_operands_in_order_per_node() {
    let ctx = Context::new(&mut ready());
    let mut m = ctx.new_module("m");
    m.add_named_md_operand("x", value::Metadata::from_ref(1));
    m.add_named_md_operand("y", value::Metadata::from_ref(2));
    m.add_named_md_operand("x", value::Metadata::from_ref(3));
    let xs: Vec<u64> = m.get_named_md_operands("x").iter().map(|v| v.to_ref()).collect();
    let ys: Vec<u64> = m.get_named_md_operands("y").iter().map(|v| v.to_ref()).collect();
    assert_eq!(xs, vec![1, 3]);
    assert_eq!(ys, vec![2]);
    assert!(m.get_named_md_operands("z").is_empty());
}

#[test]
fn md_kind_id_is_stable() {
    let mut ctx = Context::new(&mut ready());
    let first = ctx.get_md_kind_id("dbg");
    let again = ctx.get_md_kind_id("dbg");
    assert_eq!(first, again);
    let other = ctx.get_md_kind_id("tbaa");
    assert_ne!(first, other);
    assert_eq!(ctx.get_md_kind_id("tbaa"), other);
    assert_eq!(ctx.get_md_kind_id("dbg"), first);
}

#[test]
fn md_kind_ids_count_up_from_zero() {
    let mut ctx = Context::new(&mut ready());
    assert_eq!(ctx.get_md_kind_id("a"), 0);
    assert_eq!(ctx.get_md_kind_id("b"), 1);
    assert_eq!(ctx.get_md_kind_id("a"), 0);
    assert_eq!(ctx.get_md_kind_id("c"), 2);
}

#[test]
fn context_without_modules_drops() {
    let ctx = Context::new(&mut ready());
    drop(ctx);
}

#[test]
fn module_dropped_before_its_context() {
    let ctx = Context::new(&mut ready());
    let mut m = ctx.new_module("m");
    m.add_function("f", ty::Function::from_ref(1));
    drop(m);
    let m2 = ctx.new_module("again");
    assert_eq!(m2.get_target(), "");
    drop(m2);
    drop(ctx);
}

#[test]
fn get_context_returns_owner() {
    let ctx = Context::from_ref(9);
    let m = ctx.new_module("m");
    assert_eq!(m.get_context().to_ref(), 9);
    assert!(std::ptr::eq(m.get_context(), &ctx));
}

#[test]
fn wrappers_keep_their_handle() {
    assert_eq!(Context::from_ref(5).to_ref(), 5);
    assert_eq!(ty::Type::from_ref(6).to_ref(), 6);
    assert_eq!(ty::Function::from_ref(7).to_ref(), 7);
    assert_eq!(value::Metadata::from_ref(8).to_ref(), 8);
    assert_eq!(value::Function::from_ref(9).to_ref(), 9);
    let g: value::Global<ty::Type> = value::Global::from_ref(10);
    assert_eq!(g.to_ref(), 10);
}

#[test]
fn contexts_get_distinct_handles() {
    let mut core = ready();
    let a = Context::new(&mut core);
    let b = Context::new(&mut core);
    assert_eq!(a.to_ref(), 1);
    assert_eq!(b.to_ref(), 2);
}

#[test]
fn get_type_of_unknown_name_is_none() {
    let ctx = Context::new(&mut ready());
    let m = ctx.new_module("m");
    assert_eq!(m.get_type("struct.point"), None);
}

#[test]
fn named_type_is_found() {
    let ctx = Context::new(&mut ready());
    let mut m = ctx.new_module("m");
    let t = ty::Type::from_ref(11);
    assert!(!m.add_type_name("struct.point", t));
    assert!(m.add_type_name("struct.point", ty::Type::from_ref(12)));
    assert_eq!(m.get_type("struct.point"), Some(t));
    assert_eq!(m.get_type("struct.line"), None);
}

#[test]
fn ir_text_of_fresh_module() {
    let ctx = Context::new(&mut ready());
    let m = ctx.new_module("demo");
    assert_eq!(m.ir_text(), "; ModuleID = 'demo'\n");
}

#[test]
fn ir_text_lists_header_globals_and_functions() {
    let ctx = Context::new(&mut ready());
    let mut m = ctx.new_module("demo");
    m.set_data_layout("e");
    m.set_target("x86_64-pc-linux-gnu");
    m.set_inline_asm("nop");
    m.add_function("main", ty::Function::from_ref(1));
    m.add_global(ty::Type::from_ref(2), "counter");
    m.add_function("helper", ty::Function::from_ref(1));
    assert_eq!(
        m.ir_text(),
        "; ModuleID = 'demo'\n\
         target datalayout = \"e\"\n\
         target triple = \"x86_64-pc-linux-gnu\"\n\
         module asm \"nop\"\n\
         @counter = external global\n\
         declare @main\n\
         declare @helper\n"
    );
}

#[test]
fn inline_asm_is_replaced() {
    let ctx = Context::new(&mut ready());
    let mut m = ctx.new_module("m");
    m.set_inline_asm("first");
    m.set_inline_asm("second");
    assert_eq!(m.ir_text(), "; ModuleID = 'm'\nmodule asm \"second\"\n");
}

#[test]
fn multithreading_toggles() {
    let mut s = CoreState::new();
    initialize_core(&mut s);
    initialize_core(&mut s);
    assert!(!is_multithreaded(&s));
    assert!(start_multithreaded(&mut s));
    assert!(is_multithreaded(&s));
    stop_multithreaded(&mut s);
    assert!(!is_multithreaded(&s));
}

#[test]
fn shutdown_leaves_multithreaded_mode() {
    let mut s = CoreState::new();
    initialize_core(&mut s);
    start_multithreaded(&mut s);
    shutdown(&mut s);
    assert!(!is_multithreaded(&s));
}
