//! An operation of the adapter as the host sees it: a short sequence of steps,
//! each decided by what the steps before it gave back.

use crate::primitive::Primitive;
use vstd::prelude::*;

verus! {

/// What the host does next for an operation.
#[derive(Clone, Copy, Debug, PartialEq, Eq)]
pub enum Step {
    /// Invoke the primitive and resume with what it returned.
    Invoke(Primitive),
    /// Write `len` zero bytes from `ptr` on, then resume.
    Zero { ptr: usize, len: usize },
    /// Copy `len` bytes from `src` to `dst`, two allocations that do not
    /// overlap, then resume.
    Copy { src: usize, dst: usize, len: usize },
    /// Nothing is left to do. The operation returns `ptr`, null where the
    /// allocation failed.
    Done { ptr: usize },
}

/// How far an allocation, a zeroed allocation or a resize has come.
#[derive(Clone, Copy, Debug, PartialEq, Eq)]
pub enum Operation {
    /// `call` is to be invoked; what it returns is the result.
    Forward { call: Primitive },
    /// `call` is to be invoked; the `len` bytes it returns are then to be
    /// zeroed.
    ZeroAfter { call: Primitive, len: usize },
    /// The `len` bytes at `ptr` are to be zeroed; `ptr` is the result.
    Zeroing { ptr: usize, len: usize },
    /// `call` is to be invoked; the allocation of `old_size` bytes at `old`
    /// then moves to what it returns, its first `len` bytes kept.
    MoveAfter { call: Primitive, old: usize, old_size: usize, len: usize },
    /// The first `len` bytes at `old` are to be copied to `new`.
    Copying { old: usize, old_size: usize, new: usize, len: usize },
    /// The allocation of `old_size` bytes at `old` is to be freed; `new` is the
    /// result.
    Releasing { old: usize, old_size: usize, new: usize },
    /// The operation has returned `ptr`.
    Finished { ptr: usize },
}

impl Operation {
    /// The step that the operation waits for.
    pub open spec fn spec_step(&self) -> Step {
        match *self {
            Operation::Forward { call } => Step::Invoke(call),
            Operation::ZeroAfter { call, len } => Step::Invoke(call),
            Operation::Zeroing { ptr, len } => Step::Zero { ptr, len },
            Operation::MoveAfter { call, old, old_size, len } => Step::Invoke(call),
            Operation::Copying { old, old_size, new, len } => Step::Copy {
                src: old,
                dst: new,
                len,
            },
            Operation::Releasing { old, old_size, new } => Step::Invoke(
                Primitive::SizedFree { ptr: old, size: old_size },
            ),
            Operation::Finished { ptr } => Step::Done { ptr },
        }
    }

    /// The operation after its step has been carried out and has given back
    /// `answer`. A failed allocation ends the operation at once, with nothing
    /// zeroed, copied or freed. Steps that return nothing ignore `answer`.
    pub open spec fn spec_resume(self, answer: usize) -> Operation {
        match self {
            Operation::Forward { call } => Operation::Finished { ptr: answer },
            Operation::ZeroAfter { call, len } => if answer == 0 {
                Operation::Finished { ptr: 0 }
            } else {
                Operation::Zeroing { ptr: answer, len }
            },
            Operation::Zeroing { ptr, len } => Operation::Finished { ptr },
            Operation::MoveAfter { call, old, old_size, len } => if answer == 0 {
                Operation::Finished { ptr: 0 }
            } else {
                Operation::Copying { old, old_size, new: answer, len }
            },
            Operation::Copying { old, old_size, new, len } => Operation::Releasing {
                old,
                old_size,
                new,
            },
            Operation::Releasing { old, old_size, new } => Operation::Finished { ptr: new },
            Operation::Finished { ptr } => self,
        }
    }

    /// What the host is to do next.
    #[verifier::when_used_as_spec(spec_step)]
    pub fn step(&self) -> (step: Step)
        ensures
            step == self.spec_step(),
    {
        match *self {
            Operation::Forward { call } => Step::Invoke(call),
            Operation::ZeroAfter { call, .. } => Step::Invoke(call),
            Operation::Zeroing { ptr, len } => Step::Zero { ptr, len },
            Operation::MoveAfter { call, .. } => Step::Invoke(call),
            Operation::Copying { old, new, len, .. } => Step::Copy { src: old, dst: new, len },
            Operation::Releasing { old, old_size, .. } => Step::Invoke(
                Primitive::SizedFree { ptr: old, size: old_size },
            ),
            Operation::Finished { ptr } => Step::Done { ptr },
        }
    }

    /// Takes what the step gave back and moves on to the next one.
    #[verifier::when_used_as_spec(spec_resume)]
    pub fn resume(self, answer: usize) -> (next: Operation)
        ensures
            next == self.spec_resume(answer),
    {
        match self {
            Operation::Forward { .. } => Operation::Finished { ptr: answer },
            Operation::ZeroAfter { len, .. } => {
                if answer == 0 {
                    Operation::Finished { ptr: 0 }
                } else {
                    Operation::Zeroing { ptr: answer, len }
                }
            },
            Operation::Zeroing { ptr, .. } => Operation::Finished { ptr },
            Operation::MoveAfter { old, old_size, len, .. } => {
                if answer == 0 {
                    Operation::Finished { ptr: 0 }
                } else {
                    Operation::Copying { old, old_size, new: answer, len }
                }
            },
            Operation::Copying { old, old_size, new, .. } => Operation::Releasing {
                old,
                old_size,
                new,
            },
            Operation::Releasing { new, .. } => Operation::Finished { ptr: new },
            Operation::Finished { .. } => self,
        }
    }
}

} // verus!
