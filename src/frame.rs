use vstd::prelude::*;

use crate::class_file::Method;

verus! {

/// The content of one local-variable slot.
#[derive(Clone, Copy, Debug, PartialEq, Eq, Structural)]
pub enum LocalVariable {
    /// A slot that was never written.
    Undefined,
    Null,
    Integer(i64),
}

/// One entry of the operand stack.
#[derive(Clone, Copy, Debug, PartialEq, Eq, Structural)]
pub enum StackValue {
    Undefined,
    Null,
    Integer(i64),
}

/// The local-variable slots and the operand stack of one method call.
#[derive(Debug)]
pub struct StackFrame {
    pub local_variables: Vec<LocalVariable>,
    pub stack: Vec<StackValue>,
}

/// The slots of a fresh frame with `count` slots, seeded with `args` from slot 0 on.
pub open spec fn seeded_slots(count: nat, args: Seq<LocalVariable>) -> Seq<LocalVariable> {
    Seq::new(count, |i: int| if i < args.len() { args[i] } else { LocalVariable::Undefined })
}

impl StackFrame {
    /// A frame with `var_count` undefined slots and an empty stack.
    pub fn create(var_count: usize, stack_size: usize) -> (r: StackFrame)
        ensures
            r.local_variables@ == Seq::new(var_count as nat, |i: int| LocalVariable::Undefined),
            r.stack@.len() == 0,
    {
        StackFrame {
            local_variables: StackFrame::init_variables(var_count),
            stack: Vec::with_capacity(stack_size),
        }
    }

    /// `size` undefined slots.
    pub fn init_variables(size: usize) -> (r: Vec<LocalVariable>)
        ensures
            r@ == Seq::new(size as nat, |i: int| LocalVariable::Undefined),
    {
        let mut vec: Vec<LocalVariable> = Vec::with_capacity(size);
        let mut i: usize = 0;
        while i < size
            invariant
                i <= size,
                vec@ == Seq::new(i as nat, |j: int| LocalVariable::Undefined),
            decreases size - i,
        {
            vec.push(LocalVariable::Undefined);
            i = i + 1;
            assert(vec@ =~= Seq::new(i as nat, |j: int| LocalVariable::Undefined));
        }
        vec
    }

    /// A frame shaped by `method`'s declared sizes whose first slots hold `variables`, in order.
    pub fn for_method(method: &Method, variables: Vec<LocalVariable>) -> (r: StackFrame)
        requires
            variables@.len() <= method.max_locals,
        ensures
            r.local_variables@ == seeded_slots(method.max_locals as nat, variables@),
            r.stack@.len() == 0,
    {
        let locals = method.max_locals as usize;
        let stack_size = method.max_stack as usize;
        let mut frame = StackFrame::create(locals, stack_size);
        let mut i: usize = 0;
        while i < variables.len()
            invariant
                variables@.len() <= locals,
                i <= variables@.len(),
                frame.stack@.len() == 0,
                frame.local_variables@ == Seq::new(
                    locals as nat,
                    |j: int| if j < i { variables@[j] } else { LocalVariable::Undefined },
                ),
            decreases variables@.len() - i,
        {
            frame.local_variables.set(i, variables[i]);
            i = i + 1;
            assert(frame.local_variables@ =~= Seq::new(
                locals as nat,
                |j: int| if j < i { variables@[j] } else { LocalVariable::Undefined },
            ));
        }
        assert(frame.local_variables@ =~= seeded_slots(locals as nat, variables@));
        frame
    }

    /// The slot at `index` for writing, or `None` past the last slot.
    pub fn get_variable_mut(&mut self, index: usize) -> (r: Option<&mut LocalVariable>)
        ensures
            match r {
                Some(v) => index < old(self).local_variables@.len() && *v
                    == old(self).local_variables@[index as int] && final(self).local_variables@
                    == old(self).local_variables@.update(index as int, *final(v))
                    && final(self).stack@ == old(self).stack@,
                None => index >= old(self).local_variables@.len() && *final(self) == *old(self),
            },
    {
        if index < self.local_variables.len() {
            Some(&mut self.local_variables[index])
        } else {
            None
        }
    }

    /// The slot at `index`, or `None` past the last slot.
    pub fn get_variable(&self, index: usize) -> (r: Option<&LocalVariable>)
        ensures
            match r {
                Some(v) => index < self.local_variables@.len() && *v
                    == self.local_variables@[index as int],
                None => index >= self.local_variables@.len(),
            },
    {
        if index < self.local_variables.len() {
            Some(&self.local_variables[index])
        } else {
            None
        }
    }

    /// Overwrites the slot at `index`; fails, changing nothing, past the last slot.
    pub fn set_variable(&mut self, index: usize, var: LocalVariable) -> (r: bool)
        ensures
            r == (index < old(self).local_variables@.len()),
            r ==> final(self).local_variables@ == old(self).local_variables@.update(
                index as int,
                var,
            ),
            !r ==> final(self).local_variables@ == old(self).local_variables@,
            final(self).stack@ == old(self).stack@,
    {
        if index < self.local_variables.len() {
            self.local_variables.set(index, var);
            true
        } else {
            false
        }
    }

    /// Removes and returns the top of the stack.
    pub fn pop_stack(&mut self) -> (r: Option<StackValue>)
        ensures
            old(self).stack@.len() == 0 ==> r is None && final(self).stack@ == old(self).stack@,
            old(self).stack@.len() > 0 ==> r == Some(old(self).stack@.last())
                && final(self).stack@ == old(self).stack@.drop_last(),
            final(self).local_variables@ == old(self).local_variables@,
    {
        self.stack.pop()
    }

    /// Pushes `value` on top of the stack.
    pub fn push_stack(&mut self, value: StackValue)
        ensures
            final(self).stack@ == old(self).stack@.push(value),
            final(self).local_variables@ == old(self).local_variables@,
    {
        self.stack.push(value)
    }
}

} // verus!
