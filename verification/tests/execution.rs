//! Method invocation: result harvesting, argument binding, and the
//! namespace unwind; the namespace store and the execution context; the
//! accessor strategy.

use aml_core::accessor::{Accessor, AccessorOps};
use aml_core::context::{
    return_value_of, AmlExecutionContext, ExecutionState, TermListInterpreter,
};
use aml_core::namespace::Namespace;
use aml_core::value::{AmlValue, Method};

/// An interpreter whose bodies do nothing at all.
struct NullInterpreter;

impl TermListInterpreter for NullInterpreter {
    fn interpret_term_list(&mut self, _term_list: &[u8], _ctx: &mut AmlExecutionContext) {}
}

/// An interpreter whose bodies end in an explicit return of the first
/// argument.
struct ReturnFirstArgument;

impl TermListInterpreter for ReturnFirstArgument {
    fn interpret_term_list(&mut self, _term_list: &[u8], ctx: &mut AmlExecutionContext) {
        let value = aml_core::value::clone_value(ctx.get_arg(0));
        ctx.set_state(ExecutionState::Return(value));
    }
}

/// An interpreter whose bodies declare an object under the running scope
/// and overwrite one pre-existing object, then fall through.
struct DeclareAndTouch;

impl TermListInterpreter for DeclareAndTouch {
    fn interpret_term_list(&mut self, _term_list: &[u8], ctx: &mut AmlExecutionContext) {
        let scope = ctx.scope.clone();
        ctx.add_to_namespace(format!("{}.TMP0", scope), AmlValue::Integer(1));
        ctx.add_to_namespace("\\_SB.CNT0".to_string(), AmlValue::Integer(100));
        ctx.set_state(ExecutionState::Break);
    }
}

fn trivial_method() -> Method {
    Method::new(1, false, 0, vec![])
}

#[test]
fn method_without_explicit_return_yields_the_zero_constant() {
    let mut ns = Namespace::new();
    let r = trivial_method().execute(
        &mut NullInterpreter,
        "\\_SB.MTH0".to_string(),
        vec![AmlValue::Integer(5)],
        &mut ns,
    );
    assert!(matches!(r, AmlValue::IntegerConstant(0)));
}

#[test]
fn unresolved_control_flow_exit_also_yields_the_zero_constant() {
    let mut ns = Namespace::new();
    ns.insert("\\_SB.CNT0".to_string(), AmlValue::Integer(0));
    let r = trivial_method().execute(
        &mut DeclareAndTouch,
        "\\_SB.MTH0".to_string(),
        vec![],
        &mut ns,
    );
    assert!(matches!(r, AmlValue::IntegerConstant(0)));
}

#[test]
fn explicit_return_hands_back_the_value() {
    let mut ns = Namespace::new();
    let r = trivial_method().execute(
        &mut ReturnFirstArgument,
        "\\_SB.MTH0".to_string(),
        vec![AmlValue::String("ARG0".to_string())],
        &mut ns,
    );
    assert_eq!(r.get_as_string(), Ok("ARG0".to_string()));
}

#[test]
fn transient_declarations_never_leak() {
    let mut ns = Namespace::new();
    ns.insert("\\_SB.CNT0".to_string(), AmlValue::Integer(0));
    ns.insert("\\_SB.KEEP".to_string(), AmlValue::Event(9));
    assert_eq!(ns.len(), 2);

    trivial_method().execute(&mut DeclareAndTouch, "\\_SB.MTH0".to_string(), vec![], &mut ns);

    // The same paths as before: the transient object is gone...
    assert_eq!(ns.len(), 2);
    assert!(!ns.contains_path(&"\\_SB.MTH0.TMP0".to_string()));
    // ...the untouched object is unchanged...
    assert_eq!(
        ns.get(&"\\_SB.KEEP".to_string()).unwrap().get_as_event(),
        Ok(9)
    );
    // ...and the method's explicit effect on a pre-existing object stands.
    assert!(matches!(
        ns.get(&"\\_SB.CNT0".to_string()).unwrap(),
        AmlValue::Integer(100)
    ));
}

#[test]
fn harvesting_follows_the_terminal_state() {
    assert!(matches!(
        return_value_of(ExecutionState::Executing),
        AmlValue::IntegerConstant(0)
    ));
    assert!(matches!(
        return_value_of(ExecutionState::Break),
        AmlValue::IntegerConstant(0)
    ));
    assert!(matches!(
        return_value_of(ExecutionState::Continue),
        AmlValue::IntegerConstant(0)
    ));
    assert!(matches!(
        return_value_of(ExecutionState::Return(AmlValue::Integer(77))),
        AmlValue::Integer(77)
    ));
}

#[test]
fn arguments_bind_positionally_and_excess_is_dropped() {
    let mut ctx = AmlExecutionContext::new("\\".to_string(), Namespace::new());
    let mut params: Vec<AmlValue> = Vec::new();
    for i in 0..10u64 {
        params.push(AmlValue::Integer(i));
    }
    ctx.init_arg_vars(params);
    for i in 0..8usize {
        assert!(matches!(ctx.get_arg(i), AmlValue::Integer(n) if *n == i as u64));
    }
}

#[test]
fn unbound_argument_slots_stay_uninitialized() {
    let mut ctx = AmlExecutionContext::new("\\".to_string(), Namespace::new());
    ctx.init_arg_vars(vec![AmlValue::Integer(1)]);
    assert!(matches!(ctx.get_arg(0), AmlValue::Integer(1)));
    for i in 1..8usize {
        assert!(matches!(ctx.get_arg(i), AmlValue::Uninitialized));
    }
}

#[test]
fn local_slots_read_back_what_was_set() {
    let mut ctx = AmlExecutionContext::new("\\".to_string(), Namespace::new());
    assert!(matches!(ctx.get_local(3), AmlValue::Uninitialized));
    ctx.set_local(3, AmlValue::Event(2));
    assert!(matches!(ctx.get_local(3), AmlValue::Event(2)));
    ctx.set_arg(7, AmlValue::DDBHandle(1));
    assert!(matches!(ctx.get_arg(7), AmlValue::DDBHandle(1)));
}

#[test]
fn context_unwind_removes_exactly_what_was_declared() {
    let mut ns = Namespace::new();
    ns.insert("\\PRE0".to_string(), AmlValue::Integer(1));
    let mut ctx = AmlExecutionContext::new("\\".to_string(), ns);
    ctx.add_to_namespace("\\NEW0".to_string(), AmlValue::Integer(2));
    ctx.add_to_namespace("\\PRE0".to_string(), AmlValue::Integer(3));
    assert!(ctx.get_from_namespace(&"\\NEW0".to_string()).is_some());
    ctx.clean_namespace();
    assert!(ctx.get_from_namespace(&"\\NEW0".to_string()).is_none());
    assert!(matches!(
        ctx.get_from_namespace(&"\\PRE0".to_string()).unwrap(),
        AmlValue::Integer(3)
    ));
}

#[test]
fn namespace_bindings_replace_and_remove() {
    let mut ns = Namespace::new();
    assert_eq!(ns.len(), 0);
    ns.insert("\\A000".to_string(), AmlValue::Integer(1));
    ns.insert("\\B000".to_string(), AmlValue::Integer(2));
    ns.insert("\\A000".to_string(), AmlValue::Integer(3));
    assert_eq!(ns.len(), 2);
    assert!(matches!(
        ns.get(&"\\A000".to_string()).unwrap(),
        AmlValue::Integer(3)
    ));
    ns.remove(&"\\A000".to_string());
    assert_eq!(ns.len(), 1);
    assert!(ns.get(&"\\A000".to_string()).is_none());
    // Removing an unbound path leaves the namespace as it was.
    ns.remove(&"\\C000".to_string());
    assert_eq!(ns.len(), 1);
    assert!(ns.contains_path(&"\\B000".to_string()));
}

#[test]
fn copied_accessors_answer_reads_alike() {
    let a = Accessor::new(vec![11, 22, 33]);
    let b = a.clone();
    for offset in 0..4usize {
        assert_eq!(a.read(offset), b.read(offset));
    }
    assert_eq!(b.read(1), 22);
}

#[test]
fn accessor_reads_outside_the_window_yield_zero() {
    let a = Accessor::new(vec![5]);
    assert_eq!(a.read(0), 5);
    assert_eq!(a.read(1), 0);
    assert_eq!(a.window_len(), 1);
}

#[test]
fn accessor_writes_land_in_the_window_and_nowhere_else() {
    let mut a = Accessor::new(vec![0, 0]);
    a.write(1, 99);
    assert_eq!(a.read(1), 99);
    a.write(7, 1);
    assert_eq!(a.read(7), 0);
    assert_eq!(a.window_len(), 2);
}
