use vstd::prelude::*;

use crate::class_file::{
    class_name_at, find_named_from, name_and_type_at, position, ClassFile, ConstantType,
    Instruction, ValueType,
};
use crate::frame::{LocalVariable, StackFrame, StackValue};
use crate::semantics::{
    arithmetic_spec, call_arguments, check_return, class_position, invoke_spec,
    is_arithmetic, load_slot, load_spec, method_result, pushed_constant, run_code, step,
    store_slot, store_spec, to_local, Flow, LoadedClass, RuntimeError,
};
use crate::symbols::{is_referenced_class, method_ref_class, symbol_of, SymbolEntry, SymbolTable};

verus! {

/// The step budget of a top-level run; no real program exhausts it.
pub const STEP_BUDGET: u64 = 0xffff_ffff_ffff_ffff;

/// What the execution of one instruction asks the interpreter loop to do.
enum Control {
    Next(usize),
    Finish(Option<StackValue>),
    Fail(RuntimeError),
}

/// `ctl` and the frame `locals`/`stack` after it are the executable form of `flow`.
spec fn control_matches(
    ctl: Control,
    locals: Seq<LocalVariable>,
    stack: Seq<StackValue>,
    flow: Flow,
) -> bool {
    match flow {
        Flow::Next { locals: l, stack: s, pc: p } => ctl == Control::Next(p as usize) && 0 <= p
            <= usize::MAX && locals == l && stack == s,
        Flow::Finish(v) => ctl == Control::Finish(v),
        Flow::Fail(e) => ctl == Control::Fail(e),
    }
}

/// Some entry of `entries` records the class index `k`.
spec fn has_entry(entries: Seq<SymbolEntry>, k: int) -> bool {
    exists|j: int| 0 <= j < entries.len() && #[trigger] entries[j].class_index == k
}

/// Every class's symbol table holds exactly the class's resolvable class references.
pub open spec fn tables_valid(classes: Seq<LoadedClass>) -> bool {
    forall|i: int|
        0 <= i < classes.len() ==> (#[trigger] classes[i]).symbols.valid_for(
            classes[i].class.constants@,
        )
}

/// No two classes of `classes` have the same name.
pub open spec fn names_unique(classes: Seq<LoadedClass>) -> bool {
    forall|i: int, j: int|
        0 <= i < classes.len() && 0 <= j < classes.len() && i != j ==> (#[trigger] classes[i]).class.name@
            != (#[trigger] classes[j]).class.name@
}

/// The class that `name` resolves to in `classes`.
pub open spec fn loaded(classes: Seq<LoadedClass>, name: Seq<char>) -> Option<ClassFile> {
    match class_position(classes, name, 0) {
        Some(p) => Some(classes[p].class),
        None => None,
    }
}

proof fn lemma_position_bounds(classes: Seq<LoadedClass>, name: Seq<char>, start: int)
    requires
        0 <= start,
    ensures
        match class_position(classes, name, start) {
            Some(p) => start <= p < classes.len() && classes[p].class.name@ == name,
            None => forall|q: int| start <= q < classes.len() ==> #[trigger] classes[q].class.name@ != name,
        },
    decreases classes.len() - start,
{
    if start < classes.len() {
        lemma_position_bounds(classes, name, start + 1);
    }
}

proof fn lemma_position_update(
    classes: Seq<LoadedClass>,
    name: Seq<char>,
    i: int,
    e: LoadedClass,
    start: int,
)
    requires
        0 <= i < classes.len(),
        e.class.name@ == classes[i].class.name@,
    ensures
        class_position(classes.update(i, e), name, start) == class_position(classes, name, start),
    decreases classes.len() - start,
{
    if 0 <= start < classes.len() {
        lemma_position_update(classes, name, i, e, start + 1);
    }
}

proof fn lemma_position_push(classes: Seq<LoadedClass>, name: Seq<char>, e: LoadedClass, start: int)
    requires
        0 <= start <= classes.len(),
    ensures
        class_position(classes.push(e), name, start) == (match class_position(classes, name, start) {
            Some(p) => Some(p),
            None => if e.class.name@ == name {
                Some(classes.len() as int)
            } else {
                None
            },
        }),
    decreases classes.len() - start,
{
    let pushed = classes.push(e);
    if start < classes.len() {
        assert(pushed[start] == classes[start]);
        lemma_position_push(classes, name, e, start + 1);
    } else {
        assert(pushed[start] == e);
        assert(class_position(pushed, name, start + 1) is None);
    }
}

/// What `run` reports.
#[derive(Debug)]
pub enum RunOutcome {
    /// The entry class has no method named `main`; nothing was executed.
    NoMainMethod { class_name: String },
    /// `main` returned this value.
    Returned(Option<StackValue>),
    /// `main` failed.
    Failed(RuntimeError),
}

/// `r` is what a run of `main` of the entry class `main` of `classes` reports.
pub open spec fn run_reports(classes: Seq<LoadedClass>, main: Seq<char>, r: RunOutcome) -> bool {
    let c = class_position(classes, main, 0)->0;
    match find_named_from(classes[c].class.methods@, "main"@, 0) {
        None => r matches RunOutcome::NoMainMethod { class_name } && class_name@ == main,
        Some(m) => match method_result(classes, c, m, Seq::empty(), STEP_BUDGET as nat) {
            Ok(v) => r == RunOutcome::Returned(v),
            Err(e) => r == RunOutcome::Failed(e),
        },
    }
}

/// The registry of loaded classes and the entry point.
pub struct Runtime {
    classes: Vec<LoadedClass>,
    /// Where a class loader looks for classes; the interpreter itself never reads it.
    classpath: Vec<String>,
    main_class: String,
}

impl Runtime {
    /// The loaded classes, in registry order.
    pub closed spec fn registry(&self) -> Seq<LoadedClass> {
        self.classes@
    }

    /// The name of the entry class.
    pub closed spec fn main_name(&self) -> Seq<char> {
        self.main_class@
    }

    /// The class search list.
    pub closed spec fn classpath_view(&self) -> Seq<Seq<char>> {
        self.classpath@.map_values(|p: String| p@)
    }

    /// Every symbol table matches its class, no two classes share a name, and the entry
    /// class is loaded.
    pub closed spec fn wf(&self) -> bool {
        &&& tables_valid(self.classes@)
        &&& names_unique(self.classes@)
        &&& class_position(self.classes@, self.main_class@, 0) is Some
    }

    /// A registry holding only `main_class`, which is the entry class, with an empty
    /// class search list.
    pub fn create(main_class: ClassFile) -> (rt: Runtime)
        ensures
            rt.wf(),
            rt.main_name() == main_class.name@,
            rt.registry().len() == 1,
            rt.registry()[0].class == main_class,
            tables_valid(rt.registry()),
            rt.classpath_view() == Seq::<Seq<char>>::empty(),
    {
        let name = main_class.name.clone();
        let symbols = Runtime::build_class_index_map(&main_class);
        let mut classes: Vec<LoadedClass> = Vec::new();
        classes.push(LoadedClass { class: main_class, symbols });
        let classpath: Vec<String> = Vec::new();
        let rt = Runtime { classes, classpath, main_class: name };
        assert(class_position(rt.classes@, rt.main_class@, 0) == Some(0int));
        assert(rt.classpath_view() =~= Seq::<Seq<char>>::empty());
        rt
    }

    /// The symbol table of `class`: each class index used by a method reference whose
    /// chain of constants resolves, mapped to the class name; broken chains are skipped.
    pub fn build_class_index_map(class: &ClassFile) -> (r: SymbolTable)
        ensures
            r.valid_for(class.constants@),
    {
        let ghost consts = class.constants@;
        let mut entries: Vec<SymbolEntry> = Vec::new();
        let mut i: usize = 0;
        while i < class.constants.len()
            invariant
                consts == class.constants@,
                i <= consts.len(),
                forall|j: int|
                    #![trigger entries@[j]]
                    0 <= j < entries@.len() ==> symbol_of(consts, entries@[j].class_index as int)
                        == Some(entries@[j].name@),
                forall|p: int|
                    #![trigger method_ref_class(consts[p])]
                    0 <= p < i && method_ref_class(consts[p]) is Some && class_name_at(
                        consts,
                        method_ref_class(consts[p])->0,
                    ) is Some ==> has_entry(entries@, method_ref_class(consts[p])->0),
            decreases consts.len() - i,
        {
            let ghost before = entries@;
            if let ConstantType::MethodRef { class_index, .. } = &class.constants[i] {
                if let Some(ConstantType::Class { name_index }) = class.get_constant(*class_index) {
                    if let Some(value) = class.get_utf8(*name_index) {
                        proof {
                            assert(method_ref_class(consts[i as int]) == Some(*class_index as int));
                            assert(is_referenced_class(consts, *class_index as int));
                        }
                        entries.push(SymbolEntry { class_index: *class_index, name: value.clone() });
                        assert(entries@[entries@.len() - 1].class_index == *class_index);
                        assert(has_entry(entries@, *class_index as int));
                    }
                }
            }
            assert forall|k: int| has_entry(before, k) implies has_entry(entries@, k) by {
                let j = choose|j: int| 0 <= j < before.len() && #[trigger] before[j].class_index == k;
                assert(entries@[j] == before[j]);
            }
            i = i + 1;
        }
        let r = SymbolTable { entries };
        assert forall|k: int| #[trigger] symbol_of(consts, k) is Some implies exists|j: int|
            0 <= j < r.entries@.len() && #[trigger] r.entries@[j].class_index == k by {
            let p = choose|p: int|
                0 <= p < consts.len() && #[trigger] method_ref_class(consts[p]) == Some(k);
            assert(method_ref_class(consts[p]) is Some);
            assert(has_entry(r.entries@, k));
        }
        r
    }

    /// Position of the first loaded class named `name`.
    fn find_class(&self, name: &String) -> (r: Option<usize>)
        ensures
            position(r) == class_position(self.classes@, name@, 0),
    {
        let mut i: usize = 0;
        while i < self.classes.len()
            invariant
                i <= self.classes@.len(),
                class_position(self.classes@, name@, 0) == class_position(
                    self.classes@,
                    name@,
                    i as int,
                ),
            decreases self.classes@.len() - i,
        {
            if self.classes[i].class.name == *name {
                return Some(i);
            }
            i = i + 1;
        }
        None
    }

    /// Registers `class` under its name, replacing a class loaded earlier under that name.
    pub fn load_class(&mut self, class: ClassFile)
        requires
            old(self).wf(),
        ensures
            final(self).wf(),
            final(self).main_name() == old(self).main_name(),
            final(self).classpath_view() == old(self).classpath_view(),
            tables_valid(final(self).registry()),
            loaded(final(self).registry(), class.name@) == Some(class),
            forall|n: Seq<char>|
                n != class.name@ ==> #[trigger] loaded(final(self).registry(), n) == loaded(
                    old(self).registry(),
                    n,
                ),
    {
        let ghost old_classes = self.classes@;
        let ghost name = class.name@;
        let map = Runtime::build_class_index_map(&class);
        let found = self.find_class(&class.name);
        let entry = LoadedClass { class, symbols: map };
        let ghost e = entry;
        match found {
            Some(i) => {
                proof {
                    lemma_position_bounds(old_classes, name, 0);
                }
                self.classes.set(i, entry);
                proof {
                    assert forall|n: Seq<char>| #[trigger]
                        class_position(self.classes@, n, 0) == class_position(old_classes, n, 0) by {
                        lemma_position_update(old_classes, n, i as int, e, 0);
                    }
                    assert forall|n: Seq<char>| #[trigger] loaded(self.classes@, n) == (if n == name {
                        Some(e.class)
                    } else {
                        loaded(old_classes, n)
                    }) by {
                        lemma_position_update(old_classes, n, i as int, e, 0);
                        lemma_position_bounds(old_classes, n, 0);
                    }
                    lemma_position_bounds(old_classes, self.main_class@, 0);
                }
            },
            None => {
                self.classes.push(entry);
                proof {
                    assert forall|n: Seq<char>| #[trigger] class_position(self.classes@, n, 0) == (
                    match class_position(old_classes, n, 0) {
                        Some(p) => Some(p),
                        None => if name == n {
                            Some(old_classes.len() as int)
                        } else {
                            None
                        },
                    }) by {
                        lemma_position_push(old_classes, n, e, 0);
                    }
                    assert forall|n: Seq<char>| #[trigger] loaded(self.classes@, n) == (if n == name {
                        Some(e.class)
                    } else {
                        loaded(old_classes, n)
                    }) by {
                        lemma_position_bounds(old_classes, n, 0);
                    }
                }
            },
        }
        proof {
            assert forall|i: int|
                0 <= i < self.classes@.len() implies (#[trigger] self.classes@[i]).symbols.valid_for(
                self.classes@[i].class.constants@,
            ) by {
                if self.classes@[i] != e {
                    assert(self.classes@[i] == old_classes[i]);
                }
            }
            lemma_position_bounds(old_classes, name, 0);
            assert forall|i: int, j: int|
                0 <= i < self.classes@.len() && 0 <= j < self.classes@.len() && i != j implies (
                #[trigger] self.classes@[i]).class.name@ != (#[trigger] self.classes@[j]).class.name@ by {
                if i < old_classes.len() && j < old_classes.len() {
                    assert(old_classes[i].class.name@ != old_classes[j].class.name@);
                }
            }
        }
    }

    /// Pushes the integer held in slot `offset`.
    fn exec_iload(stack_frame: &mut StackFrame, offset: usize) -> (r: Result<(), RuntimeError>)
        ensures
            match load_spec(old(stack_frame).local_variables@, old(stack_frame).stack@, offset) {
                Ok(s) => r is Ok && final(stack_frame).stack@ == s
                    && final(stack_frame).local_variables@ == old(stack_frame).local_variables@,
                Err(e) => r == Err::<(), RuntimeError>(e) && *final(stack_frame) == *old(stack_frame),
            },
    {
        let intvalue = match stack_frame.get_variable(offset) {
            Some(LocalVariable::Integer(intvalue)) => *intvalue,
            Some(LocalVariable::Undefined) => {
                return Err(RuntimeError::UndefinedVariable { index: offset });
            },
            Some(_) => {
                return Err(RuntimeError::VariableType { index: offset });
            },
            None => {
                return Err(RuntimeError::VariableOutOfRange { index: offset });
            },
        };
        stack_frame.push_stack(StackValue::Integer(intvalue));
        Ok(())
    }

    /// Pops an integer into slot `offset`.
    fn exec_istore(stack_frame: &mut StackFrame, offset: usize) -> (r: Result<(), RuntimeError>)
        ensures
            match store_spec(old(stack_frame).local_variables@, old(stack_frame).stack@, offset) {
                Ok((l, s)) => r is Ok && final(stack_frame).stack@ == s
                    && final(stack_frame).local_variables@ == l,
                Err(e) => r == Err::<(), RuntimeError>(e) && final(stack_frame).local_variables@
                    == old(stack_frame).local_variables@ && (old(stack_frame).stack@.len() == 0
                    ==> final(stack_frame).stack@ == old(stack_frame).stack@),
            },
    {
        match stack_frame.pop_stack() {
            Some(StackValue::Integer(intvalue)) => {
                if stack_frame.set_variable(offset, LocalVariable::Integer(intvalue)) {
                    Ok(())
                } else {
                    Err(RuntimeError::VariableOutOfRange { index: offset })
                }
            },
            Some(_) => Err(RuntimeError::StackType { expected: ValueType::Integer }),
            None => Err(RuntimeError::EmptyStack),
        }
    }

    /// Pops the right operand, then the left one, and pushes the wrapped result.
    fn exec_arithmetic(stack_frame: &mut StackFrame, ins: Instruction) -> (r: Result<
        (),
        RuntimeError,
    >)
        requires
            is_arithmetic(ins),
        ensures
            match arithmetic_spec(ins, old(stack_frame).stack@) {
                Ok(s) => r is Ok && final(stack_frame).stack@ == s
                    && final(stack_frame).local_variables@ == old(stack_frame).local_variables@,
                Err(e) => r == Err::<(), RuntimeError>(e),
            },
    {
        let ghost s0 = stack_frame.stack@;
        let right = stack_frame.pop_stack();
        let left = stack_frame.pop_stack();
        match (left, right) {
            (Some(StackValue::Integer(l)), Some(StackValue::Integer(r))) => {
                let v = match ins {
                    Instruction::IAdd => l.wrapping_add(r),
                    Instruction::ISub => l.wrapping_sub(r),
                    _ => l.wrapping_mul(r),
                };
                assert(stack_frame.stack@ =~= s0.subrange(0, s0.len() - 2));
                stack_frame.push_stack(StackValue::Integer(v));
                Ok(())
            },
            (None, _) | (_, None) => Err(RuntimeError::EmptyStack),
            _ => Err(RuntimeError::StackType { expected: ValueType::Integer }),
        }
    }

    /// Calls the method that the method-reference constant `index` of class `c` names,
    /// with arguments popped off `stack_frame`, and pushes its result, if any.
    fn invoke_static(&self, c: usize, stack_frame: &mut StackFrame, index: u16, fuel: u64) -> (r:
        Result<(), RuntimeError>)
        requires
            self.wf(),
            c < self.classes@.len(),
        ensures
            match invoke_spec(self.classes@, c as int, old(stack_frame).stack@, index, fuel as nat) {
                Ok(s) => r is Ok && final(stack_frame).stack@ == s
                    && final(stack_frame).local_variables@ == old(stack_frame).local_variables@,
                Err(e) => r == Err::<(), RuntimeError>(e),
            },
        decreases fuel, 1int,
    {
        let ghost s0 = stack_frame.stack@;
        let entry = &self.classes[c];
        let class = &entry.class;
        match class.get_constant(index) {
            Some(ConstantType::MethodRef { class_index, name_and_type_index }) => {
                let name = match entry.symbols.lookup(*class_index, Ghost(class.constants@)) {
                    Some(n) => n,
                    None => {
                        return Err(RuntimeError::ClassNotFound { class_index: *class_index });
                    },
                };
                let c2 = match self.find_class(name) {
                    Some(i) => i,
                    None => {
                        return Err(RuntimeError::ClassNotFound { class_index: *class_index });
                    },
                };
                proof {
                    lemma_position_bounds(self.classes@, name@, 0);
                }
                let target = &self.classes[c2].class;
                let m2 = match class.get_method_from_nat(target, *name_and_type_index) {
                    Some(m) => m,
                    None => {
                        return Err(RuntimeError::MethodNotFound);
                    },
                };
                proof {
                    if let Some((n, d)) = name_and_type_at(class.constants@, *name_and_type_index as int) {
                        crate::class_file::lemma_find_method_bounds(target.methods@, n, d, 0);
                    }
                }
                let k = target.methods[m2].signature.arguments.len();
                if stack_frame.stack.len() < k {
                    return Err(RuntimeError::EmptyStack);
                }
                let ghost len0 = s0.len();
                let mut args = StackFrame::init_variables(k);
                let mut i: usize = 0;
                while i < k
                    invariant
                        k <= len0,
                        len0 == s0.len(),
                        i <= k,
                        stack_frame.stack@ == s0.subrange(0, len0 - i),
                        stack_frame.local_variables@ == old(stack_frame).local_variables@,
                        args@ == Seq::new(
                            k as nat,
                            |j: int|
                                if j >= k - i {
                                    to_local(s0[len0 - k + j])
                                } else {
                                    LocalVariable::Undefined
                                },
                        ),
                    decreases k - i,
                {
                    let v = match stack_frame.pop_stack() {
                        Some(v) => v,
                        None => {
                            return Err(RuntimeError::EmptyStack);
                        },
                    };
                    args.set(k - 1 - i, Runtime::argument_of(v));
                    i = i + 1;
                    assert(stack_frame.stack@ =~= s0.subrange(0, len0 - i));
                    assert(args@ =~= Seq::new(
                        k as nat,
                        |j: int|
                            if j >= k - i {
                                to_local(s0[len0 - k + j])
                            } else {
                                LocalVariable::Undefined
                            },
                    ));
                }
                assert(args@ =~= call_arguments(s0, k as int));
                match self.run_method(c2, m2, args, fuel) {
                    Ok(Some(stack_value)) => stack_frame.push_stack(stack_value),
                    Ok(None) => {},
                    Err(err) => {
                        return Err(err);
                    },
                }
                Ok(())
            },
            _ => Err(RuntimeError::InvalidMethodRef { constant_index: index }),
        }
    }

    /// A stack value handed over as an argument slot.
    fn argument_of(v: StackValue) -> (r: LocalVariable)
        ensures
            r == to_local(v),
    {
        match v {
            StackValue::Undefined => LocalVariable::Undefined,
            StackValue::Null => LocalVariable::Null,
            StackValue::Integer(i) => LocalVariable::Integer(i),
        }
    }

    fn constant_of(ins: Instruction) -> (r: Option<i64>)
        ensures
            r == pushed_constant(ins),
    {
        match ins {
            Instruction::IConstM1 => Some(-1),
            Instruction::IConst0 => Some(0),
            Instruction::IConst1 => Some(1),
            Instruction::IConst2 => Some(2),
            Instruction::IConst3 => Some(3),
            Instruction::IConst4 => Some(4),
            Instruction::IConst5 => Some(5),
            Instruction::BIPush(b) => Some(b as i64),
            Instruction::SIPush(v) => Some(v as i64),
            _ => None,
        }
    }

    fn load_slot_of(ins: Instruction) -> (r: Option<usize>)
        ensures
            r == load_slot(ins),
    {
        match ins {
            Instruction::ILoad(o) => Some(o as usize),
            Instruction::ILoad0 => Some(0),
            Instruction::ILoad1 => Some(1),
            Instruction::ILoad2 => Some(2),
            Instruction::ILoad3 => Some(3),
            _ => None,
        }
    }

    fn store_slot_of(ins: Instruction) -> (r: Option<usize>)
        ensures
            r == store_slot(ins),
    {
        match ins {
            Instruction::IStore(o) => Some(o as usize),
            Instruction::IStore0 => Some(0),
            Instruction::IStore1 => Some(1),
            Instruction::IStore2 => Some(2),
            Instruction::IStore3 => Some(3),
            _ => None,
        }
    }

    /// Executes the instruction at `pc` of method `m` of class `c`.
    fn exec_step(&self, c: usize, m: usize, stack_frame: &mut StackFrame, pc: usize, fuel: u64) -> (r:
        Control)
        requires
            self.wf(),
            c < self.classes@.len(),
            m < self.classes@[c as int].class.methods@.len(),
            pc < self.classes@[c as int].class.methods@[m as int].code@.len(),
        ensures
            control_matches(
                r,
                final(stack_frame).local_variables@,
                final(stack_frame).stack@,
                step(
                    self.classes@,
                    c as int,
                    m as int,
                    old(stack_frame).local_variables@,
                    old(stack_frame).stack@,
                    pc as int,
                    fuel as nat,
                ),
            ),
        decreases fuel, 2int,
    {
        let code = &self.classes[c].class.methods[m].code;
        let ins = code[pc];
        assert(pc + 1 <= code.len());
        match ins {
            Instruction::IConstM1
            | Instruction::IConst0
            | Instruction::IConst1
            | Instruction::IConst2
            | Instruction::IConst3
            | Instruction::IConst4
            | Instruction::IConst5
            | Instruction::BIPush(_)
            | Instruction::SIPush(_) => {
                let v = Runtime::constant_of(ins).unwrap();
                stack_frame.push_stack(StackValue::Integer(v));
                Control::Next(pc + 1)
            },
            Instruction::AConstNull => {
                stack_frame.push_stack(StackValue::Null);
                Control::Next(pc + 1)
            },
            Instruction::ILoad(_)
            | Instruction::ILoad0
            | Instruction::ILoad1
            | Instruction::ILoad2
            | Instruction::ILoad3 => {
                match Runtime::exec_iload(stack_frame, Runtime::load_slot_of(ins).unwrap()) {
                    Ok(()) => Control::Next(pc + 1),
                    Err(e) => Control::Fail(e),
                }
            },
            Instruction::IStore(_)
            | Instruction::IStore0
            | Instruction::IStore1
            | Instruction::IStore2
            | Instruction::IStore3 => {
                match Runtime::exec_istore(stack_frame, Runtime::store_slot_of(ins).unwrap()) {
                    Ok(()) => Control::Next(pc + 1),
                    Err(e) => Control::Fail(e),
                }
            },
            Instruction::IAdd | Instruction::ISub | Instruction::IMul => {
                match Runtime::exec_arithmetic(stack_frame, ins) {
                    Ok(()) => Control::Next(pc + 1),
                    Err(e) => Control::Fail(e),
                }
            },
            Instruction::IfICmpGe(t) => {
                let ghost s0 = stack_frame.stack@;
                let right = stack_frame.pop_stack();
                let left = stack_frame.pop_stack();
                match (left, right) {
                    (Some(StackValue::Integer(a)), Some(StackValue::Integer(b))) => {
                        assert(stack_frame.stack@ =~= s0.subrange(0, s0.len() - 2));
                        if a < b {
                            Control::Next(pc + 1)
                        } else if (t as usize) < code.len() {
                            Control::Next(t as usize)
                        } else {
                            Control::Fail(RuntimeError::BranchOutOfRange { target: t })
                        }
                    },
                    (None, _) | (_, None) => Control::Fail(RuntimeError::EmptyStack),
                    _ => Control::Fail(RuntimeError::StackType { expected: ValueType::Integer }),
                }
            },
            Instruction::Goto(t) => {
                if (t as usize) < code.len() {
                    Control::Next(t as usize)
                } else {
                    Control::Fail(RuntimeError::BranchOutOfRange { target: t })
                }
            },
            Instruction::IReturn => match stack_frame.pop_stack() {
                Some(StackValue::Integer(ret)) => Control::Finish(Some(StackValue::Integer(ret))),
                Some(_) => Control::Fail(RuntimeError::StackType { expected: ValueType::Integer }),
                None => Control::Fail(RuntimeError::EmptyStack),
            },
            Instruction::Return => Control::Finish(None),
            Instruction::InvokeStatic(index) => {
                match self.invoke_static(c, stack_frame, index, fuel) {
                    Ok(()) => Control::Next(pc + 1),
                    Err(e) => Control::Fail(e),
                }
            },
            Instruction::Unsupported(op) => Control::Fail(
                RuntimeError::UnknownInstruction { opcode: op },
            ),
        }
    }

    /// Whether `v` agrees with the declared return type `t`.
    fn check_result(t: ValueType, v: Option<StackValue>) -> (r: Result<
        Option<StackValue>,
        RuntimeError,
    >)
        ensures
            r == check_return(t, v),
    {
        match t {
            ValueType::Void => if v.is_some() {
                Err(RuntimeError::ReturnType { expected: ValueType::Void })
            } else {
                Ok(v)
            },
            ValueType::Integer => match v {
                Some(StackValue::Integer(_)) | Some(StackValue::Null) => Ok(v),
                _ => Err(RuntimeError::ReturnType { expected: ValueType::Integer }),
            },
            ValueType::Reference => Ok(v),
        }
    }

    /// Calls method `m` of class `c` with `arguments` in its first slots, running at
    /// most `fuel` instructions in each activation.
    pub fn run_method(&self, c: usize, m: usize, arguments: Vec<LocalVariable>, fuel: u64) -> (r:
        Result<Option<StackValue>, RuntimeError>)
        requires
            self.wf(),
            c < self.registry().len(),
            m < self.registry()[c as int].class.methods@.len(),
        ensures
            r == method_result(self.registry(), c as int, m as int, arguments@, fuel as nat),
        decreases fuel, 0int,
    {
        let method = &self.classes[c].class.methods[m];
        if arguments.len() > method.max_locals as usize {
            return Err(RuntimeError::VariableOutOfRange { index: method.max_locals as usize });
        }
        let mut stack_frame = StackFrame::for_method(method, arguments);
        let ghost l0 = stack_frame.local_variables@;
        let mut pc: usize = 0;
        let mut f: u64 = fuel;
        assert(stack_frame.stack@ =~= Seq::empty());
        loop
            invariant
                self.wf(),
                c < self.classes@.len(),
                m < self.classes@[c as int].class.methods@.len(),
                method == self.classes@[c as int].class.methods@[m as int],
                !(arguments@.len() > method.max_locals),
                l0 == crate::frame::seeded_slots(method.max_locals as nat, arguments@),
                f <= fuel,
                run_code(
                    self.classes@,
                    c as int,
                    m as int,
                    stack_frame.local_variables@,
                    stack_frame.stack@,
                    pc as int,
                    f as nat,
                ) == run_code(self.classes@, c as int, m as int, l0, Seq::empty(), 0, fuel as nat),
            decreases f,
        {
            if pc >= method.code.len() {
                return Runtime::check_result(method.signature.return_type, None);
            }
            if f == 0 {
                return Err(RuntimeError::StepLimit);
            }
            f = f - 1;
            match self.exec_step(c, m, &mut stack_frame, pc, f) {
                Control::Next(p) => {
                    pc = p;
                },
                Control::Finish(v) => {
                    return Runtime::check_result(method.signature.return_type, v);
                },
                Control::Fail(e) => {
                    return Err(e);
                },
            }
        }
    }

    /// Runs `main` of the entry class with no arguments.
    pub fn run(&self) -> (r: RunOutcome)
        requires
            self.wf(),
        ensures
            run_reports(self.registry(), self.main_name(), r),
    {
        proof {
            lemma_position_bounds(self.classes@, self.main_class@, 0);
        }
        // The entry class is always registered, so the lookup succeeds.
        let c = self.find_class(&self.main_class).unwrap();
        let class = &self.classes[c].class;
        let main_name = String::from_str("main");
        match class.find_method_named(&main_name) {
            None => RunOutcome::NoMainMethod { class_name: class.name.clone() },
            Some(m) => {
                proof {
                    crate::class_file::lemma_find_named_bounds(class.methods@, main_name@, 0);
                }
                match self.run_method(c, m, Vec::new(), STEP_BUDGET) {
                    Ok(v) => RunOutcome::Returned(v),
                    Err(e) => RunOutcome::Failed(e),
                }
            },
        }
    }
}

} // verus!
