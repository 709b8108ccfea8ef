//! Per-call frames: a fixed-size array of local-variable slots and an
//! operand stack of tagged values.

use vstd::prelude::*;
use crate::class_file::Method;
use crate::class_file::spec_first_code;

verus! {

/// One local-variable slot: unset, a null reference, or an integer.
#[derive(Debug, Clone, Copy, PartialEq, Eq)]
pub enum LocalVariable {
    Uninitialized,
    Null,
    Integer(i64),
}

/// One operand-stack entry: unset, a null reference, or an integer.
#[derive(Debug, Clone, Copy, PartialEq, Eq)]
pub enum StackValue {
    Uninitialized,
    Null,
    Integer(i64),
}

/// The per-invocation frame: local variables and the operand stack.
#[derive(Debug)]
pub struct StackFrame {
    pub local_variables: Vec<LocalVariable>,
    pub stack: Vec<StackValue>,
}

/// `count` unset local-variable slots.
pub open spec fn spec_init_locals(count: int) -> Seq<LocalVariable> {
    Seq::new(count as nat, |i: int| LocalVariable::Uninitialized)
}

impl StackFrame {
    /// A frame with `var_count` unset locals and an empty stack.
    pub fn create(var_count: usize, stack_size: usize) -> (r: StackFrame)
        ensures
            r.local_variables@ == spec_init_locals(var_count as int),
            r.stack@ == Seq::<StackValue>::empty(),
    {
        StackFrame {
            local_variables: StackFrame::init_variables(var_count),
            stack: Vec::new(),
        }
    }

    /// `size` unset local-variable slots.
    pub fn init_variables(size: usize) -> (r: Vec<LocalVariable>)
        ensures
            r@ == spec_init_locals(size as int),
    {
        let mut vec: Vec<LocalVariable> = Vec::new();
        let mut i: usize = 0;
        while i < size
            invariant
                0 <= i <= size,
                vec@ == spec_init_locals(i as int),
            decreases size - i,
        {
            vec.push(LocalVariable::Uninitialized);
            proof {
                assert(vec@ =~= spec_init_locals(i + 1));
            }
            i = i + 1;
        }
        vec
    }

    /// A frame for `method`, sized by its code's declared locals and stack,
    /// with the given argument values in the leading local slots.
    pub fn for_method(method: &Method, variables: Vec<LocalVariable>) -> (r: StackFrame)
        requires
            spec_first_code(method.attributes@) matches Some(code) && variables@.len()
                <= code.max_locals,
        ensures
            r.local_variables@.len() == spec_first_code(method.attributes@)->0.max_locals,
            (forall|i: int|
                0 <= i < variables@.len() ==> #[trigger] r.local_variables@[i] == variables@[i]),
            (forall|i: int|
                variables@.len() <= i < r.local_variables@.len()
                    ==> #[trigger] r.local_variables@[i] == LocalVariable::Uninitialized),
            r.stack@ == Seq::<StackValue>::empty(),
    {
        let code = match method.get_code() {
            Some(c) => c,
            None => unreached(),
        };
        let locals = code.max_locals as usize;
        let stack_size = code.max_stack as usize;
        let mut frame = StackFrame::create(locals, stack_size);
        let mut i: usize = 0;
        while i < variables.len()
            invariant
                variables.len() <= locals,
                frame.local_variables@.len() == locals,
                0 <= i <= variables.len(),
                forall|j: int|
                    0 <= j < i ==> #[trigger] frame.local_variables@[j] == variables@[j],
                forall|j: int|
                    i <= j < locals ==> #[trigger] frame.local_variables@[j]
                        == LocalVariable::Uninitialized,
                frame.stack@ == Seq::<StackValue>::empty(),
            decreases variables.len() - i,
        {
            frame.local_variables[i] = variables[i];
            i = i + 1;
        }
        frame
    }

    /// The local at `index`, or none when the index is out of range.
    pub fn get_variable(&self, index: usize) -> (r: Option<&LocalVariable>)
        ensures
            (r matches Some(v) ==> index < self.local_variables@.len() && *v
                == self.local_variables@[index as int]),
            (r is None ==> index >= self.local_variables@.len()),
    {
        if index < self.local_variables.len() {
            Some(&self.local_variables[index])
        } else {
            None
        }
    }

    /// Assigns the local at `index`.
    pub fn set_variable(&mut self, index: usize, var: LocalVariable)
        requires
            index < old(self).local_variables@.len(),
        ensures
            final(self).local_variables@ == old(self).local_variables@.update(index as int, var),
            final(self).stack@ == old(self).stack@,
    {
        self.local_variables[index] = var;
    }

    /// Pops the top of the operand stack, or none when it is empty.
    pub fn pop_stack(&mut self) -> (r: Option<StackValue>)
        ensures
            final(self).local_variables@ == old(self).local_variables@,
            (old(self).stack@.len() > 0 ==> r == Some(old(self).stack@.last())
                && final(self).stack@ == old(self).stack@.drop_last()),
            (old(self).stack@.len() == 0 ==> r is None && final(self).stack@ == old(self).stack@),
    {
        self.stack.pop()
    }

    /// Pushes a value on the operand stack.
    pub fn push_stack(&mut self, value: StackValue)
        ensures
            final(self).local_variables@ == old(self).local_variables@,
            final(self).stack@ == old(self).stack@.push(value),
    {
        self.stack.push(value);
    }
}

} // verus!
