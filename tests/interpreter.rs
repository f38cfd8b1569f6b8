use jvm_core::class_file::{ClassFile, ConstantType, Instruction, Method, Signature, ValueType};
use jvm_core::frame::{LocalVariable, StackFrame, StackValue};
use jvm_core::runtime::{RunOutcome, Runtime};
use jvm_core::semantics::RuntimeError;

use jvm_core::class_file::Instruction::{
    AConstNull, BIPush, Goto, IAdd, IConst0, IConst1, IConst2, IConst3, IConst4, IConst5, IConstM1, ILoad, ILoad0, ILoad1, ILoad2, IMul, IReturn, IStore, IStore0, IStore1, IStore2, IStore3, ISub, IfICmpGe, InvokeStatic, Return, SIPush,
};

fn method(
    name: &str,
    descriptor: &str,
    arguments: Vec<ValueType>,
    return_type: ValueType,
    max_locals: u16,
    code: Vec<Instruction>,
) -> Method {
    Method {
        name: name.to_string(),
        descriptor: descriptor.to_string(),
        signature: Signature { arguments, return_type },
        max_locals,
        max_stack: 8,
        code,
    }
}

fn int_main(max_locals: u16, code: Vec<Instruction>) -> Method {
    method("main", "()I", vec![], ValueType::Integer, max_locals, code)
}

fn utf8(s: &str) -> ConstantType {
    ConstantType::Utf8 { value: s.to_string() }
}

/// A constant table whose entry 1 is a method reference to `class_name.method_name`
/// with `descriptor`.
fn method_ref_table(class_name: &str, method_name: &str, descriptor: &str) -> Vec<ConstantType> {
    vec![
        ConstantType::Unsupported,
        ConstantType::MethodRef { class_index: 2, name_and_type_index: 4 },
        ConstantType::Class { name_index: 3 },
        utf8(class_name),
        ConstantType::NameAndType { name_index: 5, descriptor_index: 6 },
        utf8(method_name),
        utf8(descriptor),
    ]
}

fn class(name: &str, methods: Vec<Method>, constants: Vec<ConstantType>) -> ClassFile {
    ClassFile { name: name.to_string(), methods, constants }
}

fn run_main(code: Vec<Instruction>, max_locals: u16) -> RunOutcome {
    Runtime::create(class("X", vec![int_main(max_locals, code)], vec![])).run()
}

fn returned(outcome: RunOutcome) -> Option<StackValue> {
    match outcome {
        RunOutcome::Returned(v) => v,
        other => panic!("expected a return value, got {:?}", other),
    }
}

fn failed(outcome: RunOutcome) -> RuntimeError {
    match outcome {
        RunOutcome::Failed(e) => e,
        other => panic!("expected a failure, got {:?}", other),
    }
}

#[test]
fn add_two_constants() {
    let r = run_main(vec![IConst2, IConst3, IAdd, IReturn], 0);
    assert_eq!(returned(r), Some(StackValue::Integer(5)));
}

#[test]
fn load_of_unstored_slot_fails() {
    let r = run_main(vec![ILoad0, IReturn], 1);
    assert_eq!(failed(r), RuntimeError::UndefinedVariable { index: 0 });
}

#[test]
fn missing_main_method() {
    let rt = Runtime::create(class(
        "X",
        vec![method("helper", "()I", vec![], ValueType::Integer, 0, vec![IConst1, IReturn])],
        vec![],
    ));
    match rt.run() {
        RunOutcome::NoMainMethod { class_name } => assert_eq!(class_name, "X"),
        other => panic!("expected a missing main, got {:?}", other),
    }
}

#[test]
fn call_static_add1() {
    let add1 = method(
        "add1",
        "(I)I",
        vec![ValueType::Integer],
        ValueType::Integer,
        1,
        vec![ILoad0, IConst1, IAdd, IReturn],
    );
    let main = int_main(0, vec![IConst4, InvokeStatic(1), IReturn]);
    let rt = Runtime::create(class("Calc", vec![main, add1], method_ref_table("Calc", "add1", "(I)I")));
    assert_eq!(returned(rt.run()), Some(StackValue::Integer(5)));
}

#[test]
fn arithmetic_with_too_few_values() {
    assert_eq!(failed(run_main(vec![IAdd, IReturn], 0)), RuntimeError::EmptyStack);
    assert_eq!(failed(run_main(vec![IConst1, IAdd, IReturn], 0)), RuntimeError::EmptyStack);
    assert_eq!(failed(run_main(vec![IConst1, IMul, IReturn], 0)), RuntimeError::EmptyStack);
}

#[test]
fn subtraction_takes_right_operand_from_top() {
    let r = run_main(vec![IConst5, IConst2, ISub, IReturn], 0);
    assert_eq!(returned(r), Some(StackValue::Integer(3)));
    let r = run_main(vec![IConst2, IConst5, ISub, IReturn], 0);
    assert_eq!(returned(r), Some(StackValue::Integer(-3)));
}

#[test]
fn arithmetic_wraps_at_64_bits() {
    let mut code = vec![SIPush(32767)];
    for _ in 0..4 {
        code.push(SIPush(32767));
        code.push(IMul);
    }
    code.push(IConstM1);
    code.push(IAdd);
    code.push(IReturn);
    let mut expected: i64 = 32767;
    for _ in 0..4 {
        expected = expected.wrapping_mul(32767);
    }
    expected = expected.wrapping_add(-1);
    assert_eq!(returned(run_main(code, 0)), Some(StackValue::Integer(expected)));
}

#[test]
fn push_constants() {
    let r = run_main(vec![BIPush(-100), SIPush(-30000), IAdd, IReturn], 0);
    assert_eq!(returned(r), Some(StackValue::Integer(-30100)));
    let r = run_main(vec![IConstM1, IConst0, IAdd, IReturn], 0);
    assert_eq!(returned(r), Some(StackValue::Integer(-1)));
}

#[test]
fn store_then_load_round_trip() {
    for slot in 0u8..4 {
        let r = run_main(vec![BIPush(-7), IStore(slot), ILoad(slot), IReturn], 4);
        assert_eq!(returned(r), Some(StackValue::Integer(-7)));
    }
    let r = run_main(vec![SIPush(1234), IStore2, ILoad2, IReturn], 3);
    assert_eq!(returned(r), Some(StackValue::Integer(1234)));
}

#[test]
fn load_of_other_unstored_slot_fails() {
    let r = run_main(vec![IConst1, IStore0, ILoad1, IReturn], 2);
    assert_eq!(failed(r), RuntimeError::UndefinedVariable { index: 1 });
}

#[test]
fn slot_out_of_range() {
    let r = run_main(vec![ILoad(5), IReturn], 1);
    assert_eq!(failed(r), RuntimeError::VariableOutOfRange { index: 5 });
    let r = run_main(vec![IConst1, IStore3, IConst1, IReturn], 1);
    assert_eq!(failed(r), RuntimeError::VariableOutOfRange { index: 3 });
}

#[test]
fn wrong_stack_type() {
    let r = run_main(vec![AConstNull, IConst1, IAdd, IReturn], 0);
    assert_eq!(failed(r), RuntimeError::StackType { expected: ValueType::Integer });
    let r = run_main(vec![AConstNull, IStore0, IConst1, IReturn], 1);
    assert_eq!(failed(r), RuntimeError::StackType { expected: ValueType::Integer });
    let r = run_main(vec![AConstNull, IReturn], 0);
    assert_eq!(failed(r), RuntimeError::StackType { expected: ValueType::Integer });
}

#[test]
fn return_on_empty_stack() {
    assert_eq!(failed(run_main(vec![IReturn], 0)), RuntimeError::EmptyStack);
    assert_eq!(failed(run_main(vec![IStore0], 1)), RuntimeError::EmptyStack);
}

#[test]
fn unknown_instruction() {
    let r = run_main(vec![IConst1, Instruction::Unsupported(0xba), IReturn], 0);
    assert_eq!(failed(r), RuntimeError::UnknownInstruction { opcode: 0xba });
}

#[test]
fn return_ends_execution() {
    let r = run_main(vec![IConst1, IReturn, Instruction::Unsupported(0xff)], 0);
    assert_eq!(returned(r), Some(StackValue::Integer(1)));
}

#[test]
fn loop_with_branch() {
    let code = vec![
        IConst0, IStore0, IConst1, IStore1, ILoad1, BIPush(6), IfICmpGe(16), ILoad0, ILoad1,
        IAdd, IStore0, ILoad1, IConst1, IAdd, IStore1, Goto(4), ILoad0, IReturn,
    ];
    assert_eq!(returned(run_main(code, 2)), Some(StackValue::Integer(15)));
}

#[test]
fn branch_out_of_range() {
    assert_eq!(failed(run_main(vec![Goto(9)], 0)), RuntimeError::BranchOutOfRange { target: 9 });
    let r = run_main(vec![IConst2, IConst1, IfICmpGe(40), IConst1, IReturn], 0);
    assert_eq!(failed(r), RuntimeError::BranchOutOfRange { target: 40 });
    let r = run_main(vec![IConst1, IConst2, IfICmpGe(40), IConst1, IReturn], 0);
    assert_eq!(returned(r), Some(StackValue::Integer(1)));
}

#[test]
fn step_budget_stops_endless_loop() {
    let rt = Runtime::create(class("X", vec![int_main(0, vec![Goto(0)])], vec![]));
    assert_eq!(rt.run_method(0, 0, vec![], 50), Err(RuntimeError::StepLimit));
}

#[test]
fn invocation_consumes_arguments_in_declaration_order() {
    let sub = method(
        "sub",
        "(II)I",
        vec![ValueType::Integer, ValueType::Integer],
        ValueType::Integer,
        2,
        vec![ILoad0, ILoad1, ISub, IReturn],
    );
    let main = int_main(0, vec![IConst5, BIPush(10), IConst3, InvokeStatic(1), IAdd, IReturn]);
    let rt = Runtime::create(class("M", vec![main, sub], method_ref_table("M", "sub", "(II)I")));
    assert_eq!(returned(rt.run()), Some(StackValue::Integer(12)));
}

#[test]
fn invocation_without_arguments() {
    let seven = method("seven", "()I", vec![], ValueType::Integer, 0, vec![BIPush(7), IReturn]);
    let main = int_main(0, vec![IConst1, InvokeStatic(1), IAdd, IReturn]);
    let rt = Runtime::create(class("M", vec![main, seven], method_ref_table("M", "seven", "()I")));
    assert_eq!(returned(rt.run()), Some(StackValue::Integer(8)));
}

#[test]
fn invocation_with_too_few_values() {
    let sub = method(
        "sub",
        "(II)I",
        vec![ValueType::Integer, ValueType::Integer],
        ValueType::Integer,
        2,
        vec![ILoad0, ILoad1, ISub, IReturn],
    );
    let main = int_main(0, vec![IConst3, InvokeStatic(1), IReturn]);
    let rt = Runtime::create(class("M", vec![main, sub], method_ref_table("M", "sub", "(II)I")));
    assert_eq!(failed(rt.run()), RuntimeError::EmptyStack);
}

#[test]
fn void_method_leaves_caller_stack() {
    let nop = method("nop", "()V", vec![], ValueType::Void, 0, vec![Return]);
    let main = int_main(0, vec![IConst1, InvokeStatic(1), IReturn]);
    let rt = Runtime::create(class("M", vec![main, nop], method_ref_table("M", "nop", "()V")));
    assert_eq!(returned(rt.run()), Some(StackValue::Integer(1)));

    let falls_off = method("nop", "()V", vec![], ValueType::Void, 0, vec![IConst2, IConst3, IAdd]);
    let main = int_main(0, vec![IConst1, InvokeStatic(1), IReturn]);
    let rt = Runtime::create(class("M", vec![main, falls_off], method_ref_table("M", "nop", "()V")));
    assert_eq!(returned(rt.run()), Some(StackValue::Integer(1)));
}

#[test]
fn declared_return_type_is_checked() {
    let bad = method("bad", "()V", vec![], ValueType::Void, 0, vec![IConst1, IReturn]);
    let main = int_main(0, vec![InvokeStatic(1), IConst1, IReturn]);
    let rt = Runtime::create(class("M", vec![main, bad], method_ref_table("M", "bad", "()V")));
    assert_eq!(failed(rt.run()), RuntimeError::ReturnType { expected: ValueType::Void });

    assert_eq!(
        failed(run_main(vec![IConst1], 0)),
        RuntimeError::ReturnType { expected: ValueType::Integer }
    );
    assert_eq!(
        failed(run_main(vec![Return], 0)),
        RuntimeError::ReturnType { expected: ValueType::Integer }
    );
}

#[test]
fn void_main_returns_nothing() {
    let main = method("main", "()V", vec![], ValueType::Void, 0, vec![IConst1, IConst2, IAdd]);
    let rt = Runtime::create(class("X", vec![main], vec![]));
    assert_eq!(returned(rt.run()), None);
}

#[test]
fn cross_class_invocation() {
    let twice = method(
        "twice",
        "(I)I",
        vec![ValueType::Integer],
        ValueType::Integer,
        1,
        vec![ILoad0, ILoad0, IAdd, IReturn],
    );
    let main = int_main(0, vec![BIPush(21), InvokeStatic(1), IReturn]);
    let mut rt = Runtime::create(class("A", vec![main], method_ref_table("B", "twice", "(I)I")));
    assert_eq!(failed(rt.run()), RuntimeError::ClassNotFound { class_index: 2 });
    rt.load_class(class("B", vec![twice], vec![]));
    assert_eq!(returned(rt.run()), Some(StackValue::Integer(42)));
}

#[test]
fn unresolvable_references() {
    let main = int_main(0, vec![InvokeStatic(3), IReturn]);
    let rt = Runtime::create(class("M", vec![main], method_ref_table("M", "f", "()I")));
    assert_eq!(failed(rt.run()), RuntimeError::InvalidMethodRef { constant_index: 3 });

    let main = int_main(0, vec![InvokeStatic(40), IReturn]);
    let rt = Runtime::create(class("M", vec![main], method_ref_table("M", "f", "()I")));
    assert_eq!(failed(rt.run()), RuntimeError::InvalidMethodRef { constant_index: 40 });

    let main = int_main(0, vec![InvokeStatic(1), IReturn]);
    let rt = Runtime::create(class("M", vec![main], method_ref_table("M", "f", "()I")));
    assert_eq!(failed(rt.run()), RuntimeError::MethodNotFound);

    let mut broken = method_ref_table("M", "f", "()I");
    broken[2] = utf8("not a class");
    let main = int_main(0, vec![InvokeStatic(1), IReturn]);
    let rt = Runtime::create(class("M", vec![main], broken));
    assert_eq!(failed(rt.run()), RuntimeError::ClassNotFound { class_index: 2 });
}

#[test]
fn arguments_beyond_locals_fail() {
    let f = method("f", "(I)I", vec![ValueType::Integer], ValueType::Integer, 0, vec![IConst1, IReturn]);
    let main = int_main(0, vec![IConst1, InvokeStatic(1), IReturn]);
    let rt = Runtime::create(class("M", vec![main, f], method_ref_table("M", "f", "(I)I")));
    assert_eq!(failed(rt.run()), RuntimeError::VariableOutOfRange { index: 0 });
}

#[test]
fn reloading_a_class_replaces_it() {
    let mut rt = Runtime::create(class("X", vec![int_main(0, vec![IConst1, IReturn])], vec![]));
    assert_eq!(returned(rt.run()), Some(StackValue::Integer(1)));
    rt.load_class(class("X", vec![int_main(0, vec![IConst2, IReturn])], vec![]));
    assert_eq!(returned(rt.run()), Some(StackValue::Integer(2)));
}

#[test]
fn symbol_table_skips_broken_chains() {
    let mut consts = method_ref_table("C", "f", "()I");
    consts.push(ConstantType::MethodRef { class_index: 3, name_and_type_index: 4 });
    consts.push(ConstantType::MethodRef { class_index: 40, name_and_type_index: 4 });
    let table = Runtime::build_class_index_map(&class("C", vec![], consts));
    assert!(!table.entries.is_empty());
    for entry in &table.entries {
        assert_eq!(entry.class_index, 2);
        assert_eq!(entry.name, "C");
    }
}

#[test]
fn frame_operations() {
    let mut frame = StackFrame::create(3, 2);
    assert_eq!(frame.local_variables, vec![LocalVariable::Undefined; 3]);
    assert!(frame.set_variable(1, LocalVariable::Integer(9)));
    assert!(!frame.set_variable(3, LocalVariable::Integer(9)));
    assert_eq!(frame.get_variable(1), Some(&LocalVariable::Integer(9)));
    assert_eq!(frame.get_variable(3), None);
    if let Some(slot) = frame.get_variable_mut(2) {
        *slot = LocalVariable::Null;
    }
    assert_eq!(frame.get_variable(2), Some(&LocalVariable::Null));
    assert_eq!(frame.pop_stack(), None);
    frame.push_stack(StackValue::Integer(4));
    frame.push_stack(StackValue::Null);
    assert_eq!(frame.pop_stack(), Some(StackValue::Null));
    assert_eq!(frame.pop_stack(), Some(StackValue::Integer(4)));
}

#[test]
fn frame_for_method_seeds_arguments() {
    let m = method("f", "(II)V", vec![], ValueType::Void, 4, vec![]);
    let frame = StackFrame::for_method(&m, vec![LocalVariable::Integer(1), LocalVariable::Null]);
    assert_eq!(
        frame.local_variables,
        vec![
            LocalVariable::Integer(1),
            LocalVariable::Null,
            LocalVariable::Undefined,
            LocalVariable::Undefined
        ]
    );
    assert!(frame.stack.is_empty());
    assert_eq!(StackFrame::init_variables(0), vec![]);
}
