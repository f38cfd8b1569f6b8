use vstd::prelude::*;

use crate::class_file::{
    constant_at, find_method_from, name_and_type_at, ClassFile, ConstantType, Instruction,
    ValueType,
};
use crate::frame::{seeded_slots, LocalVariable, StackValue};
use crate::symbols::{symbol_of, SymbolTable};

verus! {

/// What can go wrong while interpreting bytecode. Each of these is prevented by a
/// correct compiler, but class descriptors come from an untrusted source.
#[derive(Clone, Copy, Debug, PartialEq, Eq, Structural)]
pub enum RuntimeError {
    /// The top of the stack had the wrong tag.
    StackType { expected: ValueType },
    /// The stack was popped when empty.
    EmptyStack,
    /// A name-and-type reference matched no method of the target class.
    MethodNotFound,
    /// A local-variable slot was read before it was written.
    UndefinedVariable { index: usize },
    /// A local-variable slot held a value of the wrong tag.
    VariableType { index: usize },
    /// A local-variable slot past the frame's last slot was addressed.
    VariableOutOfRange { index: usize },
    /// A method reference's class could not be resolved to a loaded class.
    ClassNotFound { class_index: u16 },
    /// The constant used by an invocation is not a method reference.
    InvalidMethodRef { constant_index: u16 },
    /// A branch names a position outside the method's instructions.
    BranchOutOfRange { target: u16 },
    /// The interpreter does not implement this opcode.
    UnknownInstruction { opcode: u8 },
    /// A method produced a result that does not match its declared return type.
    ReturnType { expected: ValueType },
    /// The interpreter ran out of its step budget.
    StepLimit,
}

/// A class in the registry together with its symbol table.
#[derive(Debug)]
pub struct LoadedClass {
    pub class: ClassFile,
    pub symbols: SymbolTable,
}

/// The outcome of executing one instruction.
pub enum Flow {
    /// Go on at position `pc` with the given slots and stack.
    Next { locals: Seq<LocalVariable>, stack: Seq<StackValue>, pc: int },
    /// The method terminated with this result.
    Finish(Option<StackValue>),
    /// The method failed.
    Fail(RuntimeError),
}

/// The integer that a push-constant instruction pushes.
pub open spec fn pushed_constant(ins: Instruction) -> Option<i64> {
    match ins {
        Instruction::IConstM1 => Some(-1i64),
        Instruction::IConst0 => Some(0i64),
        Instruction::IConst1 => Some(1i64),
        Instruction::IConst2 => Some(2i64),
        Instruction::IConst3 => Some(3i64),
        Instruction::IConst4 => Some(4i64),
        Instruction::IConst5 => Some(5i64),
        Instruction::BIPush(b) => Some(b as i64),
        Instruction::SIPush(s) => Some(s as i64),
        _ => None,
    }
}

/// The slot that a load instruction reads.
pub open spec fn load_slot(ins: Instruction) -> Option<usize> {
    match ins {
        Instruction::ILoad(o) => Some(o as usize),
        Instruction::ILoad0 => Some(0usize),
        Instruction::ILoad1 => Some(1usize),
        Instruction::ILoad2 => Some(2usize),
        Instruction::ILoad3 => Some(3usize),
        _ => None,
    }
}

/// The slot that a store instruction writes.
pub open spec fn store_slot(ins: Instruction) -> Option<usize> {
    match ins {
        Instruction::IStore(o) => Some(o as usize),
        Instruction::IStore0 => Some(0usize),
        Instruction::IStore1 => Some(1usize),
        Instruction::IStore2 => Some(2usize),
        Instruction::IStore3 => Some(3usize),
        _ => None,
    }
}

pub open spec fn is_arithmetic(ins: Instruction) -> bool {
    ins is IAdd || ins is ISub || ins is IMul
}

/// The 64-bit wrapping result of an arithmetic instruction on `left` and `right`.
pub open spec fn arithmetic(ins: Instruction, left: i64, right: i64) -> i64 {
    match ins {
        Instruction::IAdd => left.wrapping_add(right),
        Instruction::ISub => left.wrapping_sub(right),
        _ => left.wrapping_mul(right),
    }
}

/// Pushing the integer in slot `index`.
pub open spec fn load_spec(locals: Seq<LocalVariable>, stack: Seq<StackValue>, index: usize) -> Result<
    Seq<StackValue>,
    RuntimeError,
> {
    if index >= locals.len() {
        Err(RuntimeError::VariableOutOfRange { index })
    } else {
        match locals[index as int] {
            LocalVariable::Integer(v) => Ok(stack.push(StackValue::Integer(v))),
            LocalVariable::Undefined => Err(RuntimeError::UndefinedVariable { index }),
            LocalVariable::Null => Err(RuntimeError::VariableType { index }),
        }
    }
}

/// Popping an integer into slot `index`.
pub open spec fn store_spec(
    locals: Seq<LocalVariable>,
    stack: Seq<StackValue>,
    index: usize,
) -> Result<(Seq<LocalVariable>, Seq<StackValue>), RuntimeError> {
    if stack.len() == 0 {
        Err(RuntimeError::EmptyStack)
    } else {
        match stack.last() {
            StackValue::Integer(v) => if index < locals.len() {
                Ok((locals.update(index as int, LocalVariable::Integer(v)), stack.drop_last()))
            } else {
                Err(RuntimeError::VariableOutOfRange { index })
            },
            _ => Err(RuntimeError::StackType { expected: ValueType::Integer }),
        }
    }
}

/// Popping the right operand, then the left one, and pushing the result.
pub open spec fn arithmetic_spec(ins: Instruction, stack: Seq<StackValue>) -> Result<
    Seq<StackValue>,
    RuntimeError,
> {
    if stack.len() < 2 {
        Err(RuntimeError::EmptyStack)
    } else {
        match (stack[stack.len() - 2], stack[stack.len() - 1]) {
            (StackValue::Integer(l), StackValue::Integer(r)) => Ok(
                stack.subrange(0, stack.len() - 2).push(StackValue::Integer(arithmetic(ins, l, r))),
            ),
            _ => Err(RuntimeError::StackType { expected: ValueType::Integer }),
        }
    }
}

/// A stack value handed over as an argument slot.
pub open spec fn to_local(v: StackValue) -> LocalVariable {
    match v {
        StackValue::Undefined => LocalVariable::Undefined,
        StackValue::Null => LocalVariable::Null,
        StackValue::Integer(i) => LocalVariable::Integer(i),
    }
}

/// The top `k` values of `stack`, bottom first, as argument slots.
pub open spec fn call_arguments(stack: Seq<StackValue>, k: int) -> Seq<LocalVariable> {
    Seq::new(k as nat, |j: int| to_local(stack[stack.len() - k + j]))
}

/// Position of the first class named `name`, at or after `start`.
pub open spec fn class_position(classes: Seq<LoadedClass>, name: Seq<char>, start: int) -> Option<
    int,
>
    decreases classes.len() - start,
{
    if start < 0 || start >= classes.len() {
        None
    } else if classes[start].class.name@ == name {
        Some(start)
    } else {
        class_position(classes, name, start + 1)
    }
}

/// Whether a method's result agrees with its declared return type.
pub open spec fn check_return(t: ValueType, v: Option<StackValue>) -> Result<
    Option<StackValue>,
    RuntimeError,
> {
    match t {
        ValueType::Void => if v is None {
            Ok(v)
        } else {
            Err(RuntimeError::ReturnType { expected: ValueType::Void })
        },
        ValueType::Integer => match v {
            Some(StackValue::Integer(_)) | Some(StackValue::Null) => Ok(v),
            _ => Err(RuntimeError::ReturnType { expected: ValueType::Integer }),
        },
        ValueType::Reference => Ok(v),
    }
}

/// The (class position, method position) that the method-reference constant `index` of
/// class `c` resolves to.
pub open spec fn invoke_target(classes: Seq<LoadedClass>, c: int, index: u16) -> Result<
    (int, int),
    RuntimeError,
> {
    let consts = classes[c].class.constants@;
    match constant_at(consts, index as int) {
        Some(ConstantType::MethodRef { class_index, name_and_type_index }) => {
            match symbol_of(consts, class_index as int) {
                None => Err(RuntimeError::ClassNotFound { class_index }),
                Some(name) => match class_position(classes, name, 0) {
                    None => Err(RuntimeError::ClassNotFound { class_index }),
                    Some(c2) => match name_and_type_at(consts, name_and_type_index as int) {
                        None => Err(RuntimeError::MethodNotFound),
                        Some((n, d)) => match find_method_from(classes[c2].class.methods@, n, d, 0) {
                            None => Err(RuntimeError::MethodNotFound),
                            Some(m2) => Ok((c2, m2)),
                        },
                    },
                },
            }
        },
        _ => Err(RuntimeError::InvalidMethodRef { constant_index: index }),
    }
}

/// The number of declared arguments of method `m` of class `c`.
pub open spec fn arity(classes: Seq<LoadedClass>, c: int, m: int) -> int {
    classes[c].class.methods@[m].signature.arguments@.len() as int
}

/// The caller's stack after a call that left `base` below the arguments returned `result`.
pub open spec fn after_call(
    base: Seq<StackValue>,
    result: Result<Option<StackValue>, RuntimeError>,
) -> Result<Seq<StackValue>, RuntimeError> {
    match result {
        Ok(Some(v)) => Ok(base.push(v)),
        Ok(None) => Ok(base),
        Err(e) => Err(e),
    }
}

/// Executing `invokestatic index` from class `c` on `stack`: the stack afterwards.
pub open spec fn invoke_spec(
    classes: Seq<LoadedClass>,
    c: int,
    stack: Seq<StackValue>,
    index: u16,
    fuel: nat,
) -> Result<Seq<StackValue>, RuntimeError>
    decreases fuel, 3int,
{
    match invoke_target(classes, c, index) {
        Err(e) => Err(e),
        Ok((c2, m2)) => {
            let k = arity(classes, c2, m2);
            if stack.len() < k {
                Err(RuntimeError::EmptyStack)
            } else {
                after_call(
                    stack.subrange(0, stack.len() - k),
                    method_result(classes, c2, m2, call_arguments(stack, k), fuel),
                )
            }
        },
    }
}

/// Executing the instruction at `pc` of method `m` of class `c`.
pub open spec fn step(
    classes: Seq<LoadedClass>,
    c: int,
    m: int,
    locals: Seq<LocalVariable>,
    stack: Seq<StackValue>,
    pc: int,
    fuel: nat,
) -> Flow
    decreases fuel, 4int,
{
    let code = classes[c].class.methods@[m].code@;
    let ins = code[pc];
    match ins {
        Instruction::IConstM1
        | Instruction::IConst0
        | Instruction::IConst1
        | Instruction::IConst2
        | Instruction::IConst3
        | Instruction::IConst4
        | Instruction::IConst5
        | Instruction::BIPush(_)
        | Instruction::SIPush(_) => Flow::Next {
            locals,
            stack: stack.push(StackValue::Integer(pushed_constant(ins)->0)),
            pc: pc + 1,
        },
        Instruction::AConstNull => Flow::Next { locals, stack: stack.push(StackValue::Null), pc: pc + 1 },
        Instruction::ILoad(_)
        | Instruction::ILoad0
        | Instruction::ILoad1
        | Instruction::ILoad2
        | Instruction::ILoad3 => match load_spec(locals, stack, load_slot(ins)->0) {
            Ok(s) => Flow::Next { locals, stack: s, pc: pc + 1 },
            Err(e) => Flow::Fail(e),
        },
        Instruction::IStore(_)
        | Instruction::IStore0
        | Instruction::IStore1
        | Instruction::IStore2
        | Instruction::IStore3 => match store_spec(locals, stack, store_slot(ins)->0) {
            Ok((l, s)) => Flow::Next { locals: l, stack: s, pc: pc + 1 },
            Err(e) => Flow::Fail(e),
        },
        Instruction::IAdd | Instruction::ISub | Instruction::IMul => match arithmetic_spec(ins, stack) {
            Ok(s) => Flow::Next { locals, stack: s, pc: pc + 1 },
            Err(e) => Flow::Fail(e),
        },
        Instruction::IfICmpGe(t) => if stack.len() < 2 {
            Flow::Fail(RuntimeError::EmptyStack)
        } else {
            match (stack[stack.len() - 2], stack[stack.len() - 1]) {
                (StackValue::Integer(a), StackValue::Integer(b)) => {
                    let rest = stack.subrange(0, stack.len() - 2);
                    if a < b {
                        Flow::Next { locals, stack: rest, pc: pc + 1 }
                    } else if t < code.len() {
                        Flow::Next { locals, stack: rest, pc: t as int }
                    } else {
                        Flow::Fail(RuntimeError::BranchOutOfRange { target: t })
                    }
                },
                _ => Flow::Fail(RuntimeError::StackType { expected: ValueType::Integer }),
            }
        },
        Instruction::Goto(t) => if t < code.len() {
            Flow::Next { locals, stack, pc: t as int }
        } else {
            Flow::Fail(RuntimeError::BranchOutOfRange { target: t })
        },
        Instruction::IReturn => if stack.len() == 0 {
            Flow::Fail(RuntimeError::EmptyStack)
        } else {
            match stack.last() {
                StackValue::Integer(v) => Flow::Finish(Some(StackValue::Integer(v))),
                _ => Flow::Fail(RuntimeError::StackType { expected: ValueType::Integer }),
            }
        },
        Instruction::Return => Flow::Finish(None),
        Instruction::InvokeStatic(index) => match invoke_spec(classes, c, stack, index, fuel) {
            Ok(s) => Flow::Next { locals, stack: s, pc: pc + 1 },
            Err(e) => Flow::Fail(e),
        },
        Instruction::Unsupported(op) => Flow::Fail(RuntimeError::UnknownInstruction { opcode: op }),
    }
}

/// Running method `m` of class `c` from position `pc` with at most `fuel` steps:
/// `Ok(None)` when it falls off the end of its instructions.
pub open spec fn run_code(
    classes: Seq<LoadedClass>,
    c: int,
    m: int,
    locals: Seq<LocalVariable>,
    stack: Seq<StackValue>,
    pc: int,
    fuel: nat,
) -> Result<Option<StackValue>, RuntimeError>
    decreases fuel, 1int,
{
    if pc < 0 || pc >= classes[c].class.methods@[m].code@.len() {
        Ok(None)
    } else if fuel == 0 {
        Err(RuntimeError::StepLimit)
    } else {
        match step(classes, c, m, locals, stack, pc, (fuel - 1) as nat) {
            Flow::Next { locals: l, stack: s, pc: p } => run_code(
                classes,
                c,
                m,
                l,
                s,
                p,
                (fuel - 1) as nat,
            ),
            Flow::Finish(v) => Ok(v),
            Flow::Fail(e) => Err(e),
        }
    }
}

/// Calling method `m` of class `c` with `args` and a budget of `fuel` steps.
pub open spec fn method_result(
    classes: Seq<LoadedClass>,
    c: int,
    m: int,
    args: Seq<LocalVariable>,
    fuel: nat,
) -> Result<Option<StackValue>, RuntimeError>
    decreases fuel, 2int,
{
    let method = classes[c].class.methods@[m];
    if args.len() > method.max_locals {
        Err(RuntimeError::VariableOutOfRange { index: method.max_locals as usize })
    } else {
        match run_code(
            classes,
            c,
            m,
            seeded_slots(method.max_locals as nat, args),
            Seq::empty(),
            0,
            fuel,
        ) {
            Ok(v) => check_return(method.signature.return_type, v),
            Err(e) => Err(e),
        }
    }
}

} // verus!
