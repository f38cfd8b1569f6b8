use vstd::prelude::*;

use crate::class_file::{Instruction, ValueType};
use crate::frame::{seeded_slots, LocalVariable, StackValue};
use crate::semantics::{
    after_call, arithmetic, arity, call_arguments, invoke_spec, invoke_target, is_arithmetic,
    load_slot, load_spec, method_result, pushed_constant, run_code, step, store_slot, store_spec,
    Flow, LoadedClass, RuntimeError,
};

verus! {

/// The stack after the first `i` instructions of `code`, all push-constants, ran on an
/// empty stack.
pub open spec fn pushed_values(code: Seq<Instruction>, i: int) -> Seq<StackValue> {
    Seq::new(i as nat, |j: int| StackValue::Integer(pushed_constant(code[j])->0))
}

/// The value that the push-constant instruction at `j` pushes.
pub open spec fn pushed_at(code: Seq<Instruction>, j: int) -> i64 {
    pushed_constant(code[j])->0
}

proof fn lemma_run_pushes(
    classes: Seq<LoadedClass>,
    c: int,
    m: int,
    locals: Seq<LocalVariable>,
    fuel: nat,
    k: int,
    i: int,
)
    requires
        0 <= c < classes.len(),
        0 <= m < classes[c].class.methods@.len(),
        0 <= i <= k < classes[c].class.methods@[m].code@.len(),
        fuel > k,
        forall|j: int| 0 <= j < k ==> (#[trigger] pushed_constant(classes[c].class.methods@[m].code@[j])) is Some,
    ensures
        run_code(classes, c, m, locals, Seq::empty(), 0, fuel) == run_code(
            classes,
            c,
            m,
            locals,
            pushed_values(classes[c].class.methods@[m].code@, i),
            i,
            (fuel - i) as nat,
        ),
    decreases i,
{
    let code = classes[c].class.methods@[m].code@;
    if i > 0 {
        lemma_run_pushes(classes, c, m, locals, fuel, k, i - 1);
        assert(pushed_constant(code[i - 1]) is Some);
        let f = (fuel - (i - 1)) as nat;
        let before = pushed_values(code, i - 1);
        assert(before.push(StackValue::Integer(pushed_at(code, i - 1))) =~= pushed_values(code, i));
        assert(step(classes, c, m, locals, before, i - 1, (f - 1) as nat) == Flow::Next {
            locals,
            stack: pushed_values(code, i),
            pc: i,
        });
    } else {
        assert(pushed_values(code, 0) =~= Seq::<StackValue>::empty());
    }
}

/// A run of push-constants followed by an arithmetic instruction fails with an empty
/// stack exactly when fewer than two values were pushed; otherwise it leaves the two
/// values below the top replaced by their wrapped 64-bit result, the right operand
/// being the one pushed last.
pub proof fn law_pushes_then_arithmetic(
    classes: Seq<LoadedClass>,
    c: int,
    m: int,
    locals: Seq<LocalVariable>,
    fuel: nat,
    k: int,
)
    requires
        0 <= c < classes.len(),
        0 <= m < classes[c].class.methods@.len(),
        0 <= k < classes[c].class.methods@[m].code@.len(),
        fuel > k,
        forall|j: int| 0 <= j < k ==> (#[trigger] pushed_constant(classes[c].class.methods@[m].code@[j])) is Some,
        is_arithmetic(classes[c].class.methods@[m].code@[k]),
    ensures
        ({
            let code = classes[c].class.methods@[m].code@;
            let r = run_code(classes, c, m, locals, Seq::empty(), 0, fuel);
            &&& k < 2 ==> r == Err::<Option<StackValue>, RuntimeError>(RuntimeError::EmptyStack)
            &&& k >= 2 ==> r == run_code(
                classes,
                c,
                m,
                locals,
                pushed_values(code, k - 2).push(
                    StackValue::Integer(
                        arithmetic(code[k], pushed_at(code, k - 2), pushed_at(code, k - 1)),
                    ),
                ),
                k + 1,
                (fuel - k - 1) as nat,
            )
        }),
{
    let code = classes[c].class.methods@[m].code@;
    lemma_run_pushes(classes, c, m, locals, fuel, k, k);
    let s = pushed_values(code, k);
    let f = (fuel - k) as nat;
    if k >= 2 {
        assert(s.subrange(0, k - 2) =~= pushed_values(code, k - 2));
        assert(s[k - 2] == StackValue::Integer(pushed_at(code, k - 2)));
        assert(s[k - 1] == StackValue::Integer(pushed_at(code, k - 1)));
        assert(step(classes, c, m, locals, s, k, (f - 1) as nat) == Flow::Next {
            locals,
            stack: pushed_values(code, k - 2).push(
                StackValue::Integer(arithmetic(code[k], pushed_at(code, k - 2), pushed_at(code, k - 1))),
            ),
            pc: k + 1,
        });
    } else {
        assert(step(classes, c, m, locals, s, k, (f - 1) as nat) == Flow::Fail(RuntimeError::EmptyStack));
    }
}

/// Storing an integer into a slot and then loading that slot yields exactly that integer.
pub proof fn law_store_then_load(
    locals: Seq<LocalVariable>,
    stack: Seq<StackValue>,
    index: usize,
    v: i64,
)
    requires
        index < locals.len(),
    ensures
        store_spec(locals, stack.push(StackValue::Integer(v)), index) matches Ok((l, s)) && s
            == stack && load_spec(l, s, index) == Ok::<Seq<StackValue>, RuntimeError>(
            stack.push(StackValue::Integer(v)),
        ),
{
    assert(stack.push(StackValue::Integer(v)).drop_last() =~= stack);
}

/// Loading a slot that holds no value fails with an undefined-slot error; in a fresh
/// frame every slot past the arguments holds no value.
pub proof fn law_undefined_slot(
    locals: Seq<LocalVariable>,
    stack: Seq<StackValue>,
    index: usize,
    slot_count: nat,
    args: Seq<LocalVariable>,
)
    ensures
        index < locals.len() && locals[index as int] == LocalVariable::Undefined ==> load_spec(
            locals,
            stack,
            index,
        ) == Err::<Seq<StackValue>, RuntimeError>(RuntimeError::UndefinedVariable { index }),
        args.len() <= index < slot_count ==> load_spec(seeded_slots(slot_count, args), stack, index)
            == Err::<Seq<StackValue>, RuntimeError>(RuntimeError::UndefinedVariable { index }),
{
}

/// A static invocation of a method of arity K takes exactly the top K values of the
/// caller's stack, bottom first, as the callee's arguments, and leaves the rest of the
/// stack below the callee's result.
pub proof fn law_invoke_consumes_arity(
    classes: Seq<LoadedClass>,
    c: int,
    stack: Seq<StackValue>,
    index: u16,
    fuel: nat,
)
    requires
        0 <= c < classes.len(),
        invoke_target(classes, c, index) is Ok,
    ensures
        ({
            let (c2, m2) = invoke_target(classes, c, index)->Ok_0;
            let k = arity(classes, c2, m2);
            let args = call_arguments(stack, k);
            &&& stack.len() < k ==> invoke_spec(classes, c, stack, index, fuel) == Err::<
                Seq<StackValue>,
                RuntimeError,
            >(RuntimeError::EmptyStack)
            &&& stack.len() >= k ==> invoke_spec(classes, c, stack, index, fuel) == after_call(
                stack.subrange(0, stack.len() - k),
                method_result(classes, c2, m2, args, fuel),
            )
            &&& args.len() == k
            &&& forall|j: int|
                0 <= j < k ==> match #[trigger] args[j] {
                    LocalVariable::Integer(v) => stack[stack.len() - k + j] == StackValue::Integer(
                        v,
                    ),
                    LocalVariable::Null => stack[stack.len() - k + j] == StackValue::Null,
                    LocalVariable::Undefined => stack[stack.len() - k + j]
                        == StackValue::Undefined,
                }
        }),
{
}

/// A method declared void never returns a value, so a call of it pushes nothing on the
/// caller's stack; a method declared to return an integer never succeeds without a value.
pub proof fn law_declared_result(
    classes: Seq<LoadedClass>,
    c: int,
    m: int,
    args: Seq<LocalVariable>,
    fuel: nat,
)
    requires
        0 <= c < classes.len(),
        0 <= m < classes[c].class.methods@.len(),
    ensures
        classes[c].class.methods@[m].signature.return_type == ValueType::Void ==> (method_result(
            classes,
            c,
            m,
            args,
            fuel,
        ) matches Ok(v) ==> v is None),
        classes[c].class.methods@[m].signature.return_type == ValueType::Integer ==> (
        method_result(classes, c, m, args, fuel) matches Ok(v) ==> v is Some),
        forall|base: Seq<StackValue>|
            classes[c].class.methods@[m].signature.return_type == ValueType::Void ==> (
            #[trigger] after_call(base, method_result(classes, c, m, args, fuel)) matches Ok(s)
                ==> s == base),
{
}

/// A method declared to return an integer whose instructions are push-constants, one
/// arithmetic instruction and `ireturn`, called without arguments, fails with an empty
/// stack when fewer than two constants were pushed, and otherwise returns the wrapped
/// 64-bit result of the last two constants, the last one being the right operand.
pub proof fn law_pushes_arithmetic_return(
    classes: Seq<LoadedClass>,
    c: int,
    m: int,
    fuel: nat,
    k: int,
)
    requires
        0 <= c < classes.len(),
        0 <= m < classes[c].class.methods@.len(),
        0 <= k,
        classes[c].class.methods@[m].code@.len() == k + 2,
        forall|j: int| 0 <= j < k ==> (#[trigger] pushed_constant(classes[c].class.methods@[m].code@[j])) is Some,
        is_arithmetic(classes[c].class.methods@[m].code@[k]),
        classes[c].class.methods@[m].code@[k + 1] == Instruction::IReturn,
        classes[c].class.methods@[m].signature.return_type == ValueType::Integer,
        fuel > k + 1,
    ensures
        ({
            let code = classes[c].class.methods@[m].code@;
            method_result(classes, c, m, Seq::empty(), fuel) == if k < 2 {
                Err::<Option<StackValue>, RuntimeError>(RuntimeError::EmptyStack)
            } else {
                Ok::<Option<StackValue>, RuntimeError>(
                    Some(
                        StackValue::Integer(
                            arithmetic(code[k], pushed_at(code, k - 2), pushed_at(code, k - 1)),
                        ),
                    ),
                )
            }
        }),
{
    let code = classes[c].class.methods@[m].code@;
    let method = classes[c].class.methods@[m];
    let locals = seeded_slots(method.max_locals as nat, Seq::empty());
    law_pushes_then_arithmetic(classes, c, m, locals, fuel, k);
    if k >= 2 {
        let top = StackValue::Integer(arithmetic(code[k], pushed_at(code, k - 2), pushed_at(code, k - 1)));
        let st = pushed_values(code, k - 2).push(top);
        let f = (fuel - k - 1) as nat;
        assert(st.last() == top);
        assert(step(classes, c, m, locals, st, k + 1, (f - 1) as nat) == Flow::Finish(Some(top)));
        assert(run_code(classes, c, m, locals, st, k + 1, f) == Ok::<Option<StackValue>, RuntimeError>(Some(top)));
    }
}

/// A store instruction followed by a load of the same slot, run on a stack whose top is
/// an integer, leaves that integer back on top of the rest of the stack, for every slot
/// of the frame and every integer.
pub proof fn law_store_load_steps(
    classes: Seq<LoadedClass>,
    c: int,
    m: int,
    locals: Seq<LocalVariable>,
    stack: Seq<StackValue>,
    pc: int,
    fuel: nat,
    v: i64,
)
    requires
        0 <= c < classes.len(),
        0 <= m < classes[c].class.methods@.len(),
        0 <= pc,
        pc + 1 < classes[c].class.methods@[m].code@.len(),
        store_slot(classes[c].class.methods@[m].code@[pc]) is Some,
        load_slot(classes[c].class.methods@[m].code@[pc + 1]) == store_slot(
            classes[c].class.methods@[m].code@[pc],
        ),
        store_slot(classes[c].class.methods@[m].code@[pc])->0 < locals.len(),
    ensures
        ({
            let first = step(classes, c, m, locals, stack.push(StackValue::Integer(v)), pc, fuel);
            first matches Flow::Next { locals: l, stack: s, pc: p } && p == pc + 1 && s == stack
                && step(classes, c, m, l, s, pc + 1, fuel) == (Flow::Next {
                locals: l,
                stack: stack.push(StackValue::Integer(v)),
                pc: pc + 2,
            })
        }),
{
    let i = store_slot(classes[c].class.methods@[m].code@[pc])->0;
    law_store_then_load(locals, stack, i, v);
}

} // verus!
