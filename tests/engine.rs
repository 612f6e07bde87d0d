use monty::ast::{Expr, Literal, Node};
use monty::boundary::{
    execute_program, fill_buffer, limits_from_raw, monty_version, report_check, report_parse_error,
    report_run, CheckResult, ProgramRun, STATUS_OK, STATUS_PARSE_ERROR, STATUS_RUNTIME_ERROR,
};
use monty::builtins::Builtins;
use monty::exceptions::{ExcType, MontyException, RunError};
use monty::heap::{Heap, HeapData};
use monty::host::{
    exc_monty_to_py, exc_py_to_monty, exc_to_monty_object, host_instance_classes,
    py_err_to_exc_type, HostExcClass,
};
use monty::object::Object;
use monty::operators::{binary_op, compare, CmpOperator, Operator};
use monty::prepare::prepare;
use monty::resource::{LimitedTracker, ResourceLimits};

type RawExpr = Expr<String, String>;
type RawNode = Node<String, String>;

fn lit_int(v: i64) -> RawExpr {
    Expr::Constant(Literal::Int(v))
}

fn text(s: &str) -> RawExpr {
    Expr::Constant(Literal::Str(s.to_string()))
}

fn name(s: &str) -> RawExpr {
    Expr::Name(s.to_string())
}

fn call(f: &str, args: Vec<RawExpr>) -> RawExpr {
    Expr::Call { func: f.to_string(), args }
}

fn op(l: RawExpr, o: Operator, r: RawExpr) -> RawExpr {
    Expr::Op { left: Box::new(l), op: o, right: Box::new(r) }
}

fn run_nodes(nodes: Vec<RawNode>, limits: ResourceLimits) -> ProgramRun {
    let (size, prepared) = prepare(&nodes).expect("prepares");
    execute_program(size, &prepared, limits)
}

fn unbounded() -> ResourceLimits {
    ResourceLimits::new()
}

fn exc_kind(run: &ProgramRun) -> Option<ExcType> {
    match &run.result {
        Err(RunError::Exc(e)) => Some(e.exc_type),
        _ => None,
    }
}

fn new_state() -> (Heap, LimitedTracker) {
    (Heap::new(), LimitedTracker::new(ResourceLimits::new()))
}

fn heap_text(heap: &Heap, o: Object) -> String {
    match o {
        Object::Ref(id) => match heap.get(id) {
            HeapData::Str(s) => s.clone(),
        },
        _ => panic!("not a heap string"),
    }
}

#[test]
fn add_two_ints_gives_their_sum() {
    let (mut heap, mut tracker) = new_state();
    let r = Object::Int(40).add(Object::Int(2), &mut heap, &mut tracker);
    assert_eq!(r, Ok(Object::Int(42)));
    let r = Object::Int(-7).add(Object::Int(3), &mut heap, &mut tracker);
    assert_eq!(r, Ok(Object::Int(-4)));
}

#[test]
fn add_overflow_raises_overflow_error() {
    let (mut heap, mut tracker) = new_state();
    let r = Object::Int(i64::MAX).add(Object::Int(1), &mut heap, &mut tracker);
    match r {
        Err(RunError::Exc(e)) => assert_eq!(e.exc_type, ExcType::OverflowError),
        other => panic!("unexpected {:?}", other),
    }
}

#[test]
fn add_int_and_string_is_type_error() {
    let (mut heap, mut tracker) = new_state();
    let s = Builtins::Str.call(&mut heap, &mut tracker, vec![Object::Int(1)], &mut String::new()).unwrap();
    let r = Object::Int(1).add(s, &mut heap, &mut tracker);
    match r {
        Err(RunError::Exc(e)) => {
            assert_eq!(e.exc_type, ExcType::TypeError);
            assert_eq!(e.message.as_deref(), Some("unsupported operand type(s) for +: 'int' and 'str'"));
        }
        other => panic!("unexpected {:?}", other),
    }
}

#[test]
fn add_two_strings_concatenates() {
    let (mut heap, mut tracker) = new_state();
    let mut out = String::new();
    let a = Builtins::Str.call(&mut heap, &mut tracker, vec![Object::Int(12)], &mut out).unwrap();
    let b = Builtins::Str.call(&mut heap, &mut tracker, vec![Object::Bool(true)], &mut out).unwrap();
    let c = a.add(b, &mut heap, &mut tracker).unwrap();
    assert_eq!(heap_text(&heap, c), "12True");
}

#[test]
fn len_of_string_is_its_length() {
    let (mut heap, mut tracker) = new_state();
    let mut out = String::new();
    let s = Builtins::Repr.call(&mut heap, &mut tracker, vec![Object::Int(12345)], &mut out).unwrap();
    let r = Builtins::Len.call(&mut heap, &mut tracker, vec![s], &mut out);
    assert_eq!(r, Ok(Object::Int(5)));
    let run = run_nodes(vec![Node::Expr(call("len", vec![text("héllo")]))], unbounded());
    assert_eq!(run.result, Ok("5".to_string()));
}

#[test]
fn len_of_int_is_type_error() {
    let (mut heap, mut tracker) = new_state();
    let r = Builtins::Len.call(&mut heap, &mut tracker, vec![Object::Int(3)], &mut String::new());
    match r {
        Err(RunError::Exc(e)) => {
            assert_eq!(e.exc_type, ExcType::TypeError);
            assert_eq!(e.message.as_deref(), Some("object of type 'int' has no len()"));
        }
        other => panic!("unexpected {:?}", other),
    }
}

#[test]
fn len_wrong_arity_is_type_error() {
    let (mut heap, mut tracker) = new_state();
    let r = Builtins::Len.call(&mut heap, &mut tracker, vec![Object::Int(3), Object::Int(4)], &mut String::new());
    match r {
        Err(RunError::Exc(e)) => {
            assert_eq!(e.exc_type, ExcType::TypeError);
            assert_eq!(e.message.as_deref(), Some("len() takes exactly one argument (2 given)"));
        }
        other => panic!("unexpected {:?}", other),
    }
}

#[test]
fn str_and_repr_allocate_equal_text_each_time() {
    let (mut heap, mut tracker) = new_state();
    let mut out = String::new();
    let a = Builtins::Str.call(&mut heap, &mut tracker, vec![Object::Int(-15)], &mut out).unwrap();
    let b = Builtins::Str.call(&mut heap, &mut tracker, vec![Object::Int(-15)], &mut out).unwrap();
    assert!(matches!(a, Object::Ref(_)));
    assert!(matches!(b, Object::Ref(_)));
    assert_ne!(a, b);
    assert_eq!(heap_text(&heap, a), "-15");
    assert_eq!(heap_text(&heap, b), "-15");
    let r1 = Builtins::Repr.call(&mut heap, &mut tracker, vec![a], &mut out).unwrap();
    let r2 = Builtins::Repr.call(&mut heap, &mut tracker, vec![a], &mut out).unwrap();
    assert_eq!(heap_text(&heap, r1), "'-15'");
    assert_eq!(heap_text(&heap, r2), "'-15'");
    assert_eq!(heap.len(), 4);
}

#[test]
fn repr_quotes_and_escapes() {
    let (mut heap, mut tracker) = new_state();
    let mut out = String::new();
    let run = run_nodes(vec![Node::Expr(text("it's"))], unbounded());
    assert_eq!(run.result, Ok("\"it's\"".to_string()));
    let run = run_nodes(vec![Node::Expr(text("a\nb\\"))], unbounded());
    assert_eq!(run.result, Ok("'a\\nb\\\\'".to_string()));
    let r = Builtins::Repr.call(&mut heap, &mut tracker, vec![Object::PyNone], &mut out).unwrap();
    assert_eq!(heap_text(&heap, r), "None");
    let r = Builtins::Repr.call(&mut heap, &mut tracker, vec![Object::Range(3)], &mut out).unwrap();
    assert_eq!(heap_text(&heap, r), "0:3");
}

#[test]
fn instruction_budget_of_one_stops_two_statements() {
    let nodes = vec![Node::Assign { target: "x".to_string(), value: lit_int(1) }, Node::Expr(name("x"))];
    let run = run_nodes(nodes, limits_from_raw(1, 0));
    match &run.result {
        Err(RunError::Exc(e)) => {
            assert_eq!(e.exc_type, ExcType::RuntimeError);
            assert_eq!(e.message.as_deref(), Some("instruction limit exceeded"));
        }
        other => panic!("unexpected {:?}", other),
    }
}

#[test]
fn tiny_memory_budget_refuses_str_and_repr() {
    let limits = ResourceLimits { max_instructions: None, max_memory: Some(1) };
    let mut heap = Heap::new();
    let mut tracker = LimitedTracker::new(limits);
    let mut out = String::new();
    for b in [Builtins::Str, Builtins::Repr] {
        match b.call(&mut heap, &mut tracker, vec![Object::Int(7)], &mut out) {
            Err(RunError::Exc(e)) => assert_eq!(e.exc_type, ExcType::MemoryError),
            other => panic!("unexpected {:?}", other),
        }
    }
    assert_eq!(heap.len(), 0);
    assert_eq!(tracker.memory_used(), 0);
}

#[test]
fn memory_is_charged_per_allocation() {
    let limits = ResourceLimits { max_instructions: None, max_memory: Some(60) };
    let mut heap = Heap::new();
    let mut tracker = LimitedTracker::new(limits);
    let mut out = String::new();
    assert!(Builtins::Str.call(&mut heap, &mut tracker, vec![Object::Int(123)], &mut out).is_ok());
    assert_eq!(tracker.memory_used(), 27);
    assert!(Builtins::Str.call(&mut heap, &mut tracker, vec![Object::Int(123)], &mut out).is_ok());
    assert!(Builtins::Str.call(&mut heap, &mut tracker, vec![Object::Int(1)], &mut out).is_err());
}

#[test]
fn host_key_error_classifies_as_key_error() {
    let classes = host_instance_classes(HostExcClass::KeyError);
    assert!(classes.contains(&HostExcClass::LookupError));
    assert!(classes.contains(&HostExcClass::Exception));
    assert_eq!(py_err_to_exc_type(&classes), ExcType::KeyError);
    assert_eq!(py_err_to_exc_type(&host_instance_classes(HostExcClass::ZeroDivisionError)), ExcType::ZeroDivisionError);
    assert_eq!(py_err_to_exc_type(&host_instance_classes(HostExcClass::LookupError)), ExcType::Exception);
    assert_eq!(py_err_to_exc_type(&vec![]), ExcType::BaseException);
}

#[test]
fn host_round_trip_keeps_kind_and_message() {
    let e = MontyException::new(ExcType::ValueError, Some("bad value".to_string()));
    let host = exc_monty_to_py(e);
    assert_eq!(host.class, HostExcClass::ValueError);
    let back = exc_py_to_monty(&host_instance_classes(host.class), Some(host.message));
    assert_eq!(back, MontyException::new(ExcType::ValueError, Some("bad value".to_string())));
    let e = MontyException::new(ExcType::RecursionError, Some("deep".to_string()));
    let host = exc_monty_to_py(e);
    let back = exc_py_to_monty(&host_instance_classes(host.class), Some(host.message));
    assert_eq!(back.exc_type, ExcType::RuntimeError);
    assert_eq!(back.message.as_deref(), Some("deep"));
}

#[test]
fn host_exception_becomes_exception_object() {
    let (mut heap, mut tracker) = new_state();
    let classes = host_instance_classes(HostExcClass::TypeError);
    let o = exc_to_monty_object(&classes, Some("oops".to_string()), &mut heap, &mut tracker).unwrap();
    assert_eq!(o.py_repr(&heap), "TypeError('oops')");
    assert_eq!(o.py_str(&heap), "oops");
}

#[test]
fn print_then_expression_reports_both() {
    let nodes = vec![
        Node::Expr(call("print", vec![text("hi")])),
        Node::Expr(op(lit_int(1), Operator::Add, lit_int(1))),
    ];
    let run = run_nodes(nodes, unbounded());
    let outcome = report_run(&run);
    assert_eq!(outcome.status, STATUS_OK);
    assert_eq!(outcome.text, "hi\n2");
}

#[test]
fn division_by_zero_fails_the_run() {
    let nodes = vec![Node::Assign { target: "x".to_string(), value: op(lit_int(1), Operator::Div, lit_int(0)) }];
    let run = run_nodes(nodes, unbounded());
    assert_eq!(exc_kind(&run), Some(ExcType::ZeroDivisionError));
    let outcome = report_run(&run);
    assert_eq!(outcome.status, STATUS_RUNTIME_ERROR);
    assert_eq!(outcome.text, "[Native v1.1.0] Runtime Error:\nZeroDivisionError: division by zero");
}

#[test]
fn for_over_range_binds_each_value_then_runs_else() {
    let nodes = vec![Node::For {
        target: "i".to_string(),
        iter: call("range", vec![lit_int(5)]),
        body: vec![Node::Expr(call("print", vec![name("i")]))],
        or_else: vec![Node::Expr(call("print", vec![text("done")]))],
    }];
    let run = run_nodes(nodes, unbounded());
    assert_eq!(run.result, Ok("None".to_string()));
    assert_eq!(run.output, "0\n1\n2\n3\n4\ndone\n");
}

#[test]
fn for_else_skipped_when_body_raises() {
    let nodes = vec![Node::For {
        target: "i".to_string(),
        iter: call("range", vec![lit_int(5)]),
        body: vec![
            Node::Expr(call("print", vec![name("i")])),
            Node::Expr(op(lit_int(1), Operator::FloorDiv, op(lit_int(2), Operator::Sub, name("i")))),
        ],
        or_else: vec![Node::Expr(call("print", vec![text("done")]))],
    }];
    let run = run_nodes(nodes, unbounded());
    assert_eq!(exc_kind(&run), Some(ExcType::ZeroDivisionError));
    assert_eq!(run.output, "0\n1\n2\n");
}

#[test]
fn if_picks_branch_by_truthiness() {
    let nodes = vec![
        Node::Assign { target: "a".to_string(), value: lit_int(1) },
        Node::If {
            test: Expr::Cmp { left: Box::new(name("a")), op: CmpOperator::Eq, right: Box::new(lit_int(1)) },
            body: vec![Node::Expr(call("print", vec![text("yes")]))],
            or_else: vec![Node::Expr(call("print", vec![text("no")]))],
        },
        Node::If {
            test: text(""),
            body: vec![Node::Expr(call("print", vec![text("yes")]))],
            or_else: vec![Node::Expr(call("print", vec![text("no")]))],
        },
    ];
    let run = run_nodes(nodes, unbounded());
    assert_eq!(run.output, "yes\nno\n");
}

#[test]
fn undefined_name_is_name_error() {
    let run = run_nodes(vec![Node::Expr(name("y"))], unbounded());
    match &run.result {
        Err(RunError::Exc(e)) => {
            assert_eq!(e.exc_type, ExcType::NameError);
            assert_eq!(e.message.as_deref(), Some("name 'y' is not defined"));
        }
        other => panic!("unexpected {:?}", other),
    }
}

#[test]
fn iterating_an_int_is_type_error() {
    let nodes = vec![Node::For { target: "i".to_string(), iter: lit_int(3), body: vec![], or_else: vec![] }];
    let run = run_nodes(nodes, unbounded());
    assert_eq!(exc_kind(&run), Some(ExcType::TypeError));
}

#[test]
fn unknown_function_fails_preparation() {
    let nodes = vec![Node::Expr(call("open", vec![]))];
    let err = prepare(&nodes).unwrap_err();
    assert_eq!(err, "unknown function: open");
    let outcome = report_parse_error(&err);
    assert_eq!(outcome.status, STATUS_PARSE_ERROR);
    assert_eq!(outcome.text, "Parse Error:\nunknown function: open");
}

#[test]
fn range_with_two_arguments_is_an_engine_limit() {
    let run = run_nodes(vec![Node::Expr(call("range", vec![lit_int(1), lit_int(2)]))], unbounded());
    assert!(matches!(run.result, Err(RunError::Internal(_))));
    let outcome = report_run(&run);
    assert!(outcome.text.contains("Internal error (not implemented): "));
}

#[test]
fn find_maps_names_to_builtins() {
    for b in [Builtins::Print, Builtins::Len, Builtins::Str, Builtins::Repr, Builtins::Id, Builtins::Range, Builtins::Hash] {
        assert_eq!(Builtins::find(b.name()), Ok(b));
    }
    assert_eq!(Builtins::find("lenx"), Err("unknown function: lenx".to_string()));
}

#[test]
fn operator_symbols_round_trip() {
    let all = [
        Operator::Add, Operator::Sub, Operator::Mult, Operator::MatMult, Operator::Div, Operator::Mod,
        Operator::Pow, Operator::LShift, Operator::RShift, Operator::BitOr, Operator::BitXor,
        Operator::BitAnd, Operator::FloorDiv, Operator::And, Operator::Or,
    ];
    for o in all {
        assert_eq!(Operator::from_symbol(o.symbol()), Some(o));
    }
    assert_eq!(Operator::Pow.symbol(), "**");
    assert_eq!(Operator::from_symbol("<>"), None);
}

#[test]
fn floor_division_and_modulo_follow_the_divisor_sign() {
    let (mut heap, mut tracker) = new_state();
    let cases = [
        (Operator::FloorDiv, -7, 2, -4),
        (Operator::FloorDiv, 7, -2, -4),
        (Operator::FloorDiv, -7, -2, 3),
        (Operator::Mod, -7, 2, 1),
        (Operator::Mod, 7, -2, -1),
        (Operator::Mod, -7, -2, -1),
        (Operator::Div, 6, -3, -2),
        (Operator::Mult, 6, 7, 42),
        (Operator::BitAnd, 12, 10, 8),
        (Operator::BitOr, 12, 10, 14),
        (Operator::BitXor, 12, 10, 6),
        (Operator::Pow, 2, 10, 1024),
        (Operator::Pow, -3, 3, -27),
        (Operator::Pow, -1, 1_000_000_001, -1),
        (Operator::Pow, 0, 0, 1),
        (Operator::Pow, -2, 63, i64::MIN),
        (Operator::LShift, 3, 4, 48),
        (Operator::LShift, 0, 1000, 0),
        (Operator::RShift, -7, 1, -4),
        (Operator::RShift, 5, 100, 0),
        (Operator::RShift, -5, 100, -1),
    ];
    for (o, a, b, want) in cases {
        let r = binary_op(o, Object::Int(a), Object::Int(b), &mut heap, &mut tracker);
        assert_eq!(r, Ok(Object::Int(want)), "{:?} {} {}", o, a, b);
    }
    let r = binary_op(Operator::FloorDiv, Object::Int(i64::MIN), Object::Int(-1), &mut heap, &mut tracker);
    assert!(matches!(r, Err(RunError::Exc(ref e)) if e.exc_type == ExcType::OverflowError));
    for (o, a, b) in [(Operator::Pow, 2, 63), (Operator::LShift, 1, 63), (Operator::LShift, -1, 64)] {
        let r = binary_op(o, Object::Int(a), Object::Int(b), &mut heap, &mut tracker);
        assert!(matches!(r, Err(RunError::Exc(ref e)) if e.exc_type == ExcType::OverflowError), "{:?} {} {}", o, a, b);
    }
    let r = binary_op(Operator::LShift, Object::Int(1), Object::Int(-1), &mut heap, &mut tracker);
    assert!(matches!(r, Err(RunError::Exc(ref e)) if e.exc_type == ExcType::ValueError));
    let r = binary_op(Operator::Div, Object::Int(7), Object::Int(2), &mut heap, &mut tracker);
    assert!(matches!(r, Err(RunError::Internal(_))));
}

#[test]
fn boolean_operators_pick_an_operand() {
    let (mut heap, mut tracker) = new_state();
    let r = binary_op(Operator::And, Object::Int(0), Object::Int(5), &mut heap, &mut tracker);
    assert_eq!(r, Ok(Object::Int(0)));
    let r = binary_op(Operator::Or, Object::Int(0), Object::Int(5), &mut heap, &mut tracker);
    assert_eq!(r, Ok(Object::Int(5)));
}

#[test]
fn comparisons_give_booleans() {
    let (mut heap, mut tracker) = new_state();
    let mut out = String::new();
    let ab = Builtins::Str.call(&mut heap, &mut tracker, vec![Object::Int(12)], &mut out).unwrap();
    let b = Builtins::Str.call(&mut heap, &mut tracker, vec![Object::Int(2)], &mut out).unwrap();
    assert_eq!(compare(CmpOperator::Lt, Object::Int(1), Object::Int(2), &heap), Ok(true));
    assert_eq!(compare(CmpOperator::Eq, Object::Bool(true), Object::Int(1), &heap), Ok(true));
    assert_eq!(compare(CmpOperator::Lt, ab, b, &heap), Ok(true));
    assert_eq!(compare(CmpOperator::In, b, ab, &heap), Ok(true));
    assert_eq!(compare(CmpOperator::In, Object::Int(4), Object::Range(5), &heap), Ok(true));
    assert_eq!(compare(CmpOperator::NotIn, Object::Int(5), Object::Range(5), &heap), Ok(true));
    assert_eq!(compare(CmpOperator::ModEq(1), Object::Int(7), Object::Int(3), &heap), Ok(true));
    assert!(compare(CmpOperator::Lt, Object::Int(1), b, &heap).is_err());
    assert_eq!(Object::Int(3).eq(Object::Int(3), &heap), Object::Bool(true));
    assert_eq!(Object::Bool(true).invert(), Some(Object::Bool(false)));
    assert_eq!(Object::Int(1).invert(), None);
    assert_eq!(Object::Int(5).sub(Object::Int(7), &heap), Ok(Object::Int(-2)));
}

#[test]
fn hash_and_id_of_values() {
    let (mut heap, mut tracker) = new_state();
    let mut out = String::new();
    assert_eq!(Builtins::Hash.call(&mut heap, &mut tracker, vec![Object::Int(-9)], &mut out), Ok(Object::Int(-9)));
    let s = Builtins::Str.call(&mut heap, &mut tracker, vec![Object::Int(1)], &mut out).unwrap();
    assert_eq!(Builtins::Hash.call(&mut heap, &mut tracker, vec![s], &mut out), Ok(Object::Int(49)));
    assert_eq!(Builtins::Id.call(&mut heap, &mut tracker, vec![s], &mut out), Ok(Object::Int(0)));
    let e = Object::Exception { exc_type: ExcType::KeyError, arg: None };
    match Builtins::Hash.call(&mut heap, &mut tracker, vec![e], &mut out) {
        Err(RunError::Exc(x)) => assert_eq!(x.message.as_deref(), Some("unhashable type: 'KeyError'")),
        other => panic!("unexpected {:?}", other),
    }
}

#[test]
fn print_joins_arguments_with_spaces() {
    let (mut heap, mut tracker) = new_state();
    let mut out = String::new();
    let r = Builtins::Print.call(&mut heap, &mut tracker, vec![Object::Int(1), Object::PyNone, Object::Bool(false)], &mut out);
    assert_eq!(r, Ok(Object::PyNone));
    assert_eq!(out, "1 None False\n");
    Builtins::Print.call(&mut heap, &mut tracker, vec![], &mut out).unwrap();
    assert_eq!(out, "1 None False\n\n");
}

#[test]
fn buffer_is_truncated_and_terminated() {
    assert_eq!(fill_buffer("hello", 4), b"hel\0".to_vec());
    assert_eq!(fill_buffer("hi", 10), b"hi\0".to_vec());
    assert_eq!(fill_buffer("hi", 1), vec![0u8]);
}

#[test]
fn raw_limits_treat_zero_as_unbounded() {
    let l = limits_from_raw(0, 0);
    assert_eq!(l, ResourceLimits::new());
    let l = limits_from_raw(10, 20);
    assert_eq!(l.max_instructions, Some(10));
    assert_eq!(l.max_memory, Some(20));
}

#[test]
fn reports_for_checks_and_version() {
    assert_eq!(monty_version(), "Monty Native v1.1.0");
    assert_eq!(report_check(&CheckResult::Clean).text, "No issues found.");
    assert_eq!(report_check(&CheckResult::Issues("x".to_string())).status, 1);
    assert_eq!(report_check(&CheckResult::Failed("boom".to_string())).text, "Type Check Internal Error: boom");
}

#[test]
fn exception_summary_renders_kind_and_message() {
    let e = MontyException::new(ExcType::KeyError, Some("k".to_string()));
    assert_eq!(e.summary(), "KeyError: k");
    assert_eq!(MontyException::new(ExcType::ValueError, None).summary(), "ValueError");
    assert_eq!(ExcType::ZeroDivisionError.name(), "ZeroDivisionError");
}

#[test]
fn booleans_are_not_arithmetic_operands() {
    let (mut heap, mut tracker) = new_state();
    match Object::Bool(true).sub(Object::Int(1), &heap) {
        Err(RunError::Exc(e)) => {
            assert_eq!(e.exc_type, ExcType::TypeError);
            assert_eq!(e.message.as_deref(), Some("unsupported operand type(s) for -: 'bool' and 'int'"));
        }
        other => panic!("unexpected {:?}", other),
    }
    let r = binary_op(Operator::Add, Object::Bool(true), Object::Int(1), &mut heap, &mut tracker);
    assert!(matches!(r, Err(RunError::Exc(ref e)) if e.exc_type == ExcType::TypeError));
    assert_eq!(compare(CmpOperator::Eq, Object::Bool(true), Object::Int(1), &heap), Ok(true));
}

#[test]
fn ranges_show_and_test_as_their_bound() {
    let heap = Heap::new();
    assert_eq!(Object::Range(5).py_str(&heap), "0:5");
    assert_eq!(Object::Range(-1).bool(&heap), Some(true));
    assert_eq!(Object::Range(0).bool(&heap), Some(false));
}

#[test]
fn str_under_tiny_memory_budget_fails_the_run() {
    let nodes = vec![Node::Expr(call("str", vec![lit_int(12345)]))];
    let run = run_nodes(nodes, limits_from_raw(0, 1));
    assert_eq!(exc_kind(&run), Some(ExcType::MemoryError));
    let outcome = report_run(&run);
    assert_eq!(outcome.status, STATUS_RUNTIME_ERROR);
    assert!(outcome.text.contains("MemoryError"));
}

#[test]
fn same_program_runs_alike_twice() {
    let make = || vec![
        Node::Expr(call("print", vec![text("a"), lit_int(3)])),
        Node::Expr(call("repr", vec![text("x")])),
    ];
    let a = report_run(&run_nodes(make(), unbounded()));
    let b = report_run(&run_nodes(make(), unbounded()));
    assert_eq!(a.status, b.status);
    assert_eq!(a.text, b.text);
    assert_eq!(a.text, "a 3\n\"'x'\"");
}
