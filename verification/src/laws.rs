use vstd::prelude::*;

use crate::stack::popped_rest;
use crate::stack::popped_value;

verus! {

/// The values surfaced by `n` successive pops on a stack holding `v`,
/// in the order they come out, paired with the contents left afterwards.
/// A pop on an empty stack surfaces nothing and changes nothing.
pub open spec fn pop_run<T>(v: Seq<T>, n: nat) -> (Seq<T>, Seq<T>)
    decreases n,
{
    if n == 0 {
        (Seq::<T>::empty(), v)
    } else {
        let head = popped_value(v);
        let (tail_out, rest) = pop_run(popped_rest(v), (n - 1) as nat);
        match head {
            Some(x) => (seq![x] + tail_out, rest),
            None => (tail_out, rest),
        }
    }
}

/// One request made of a stack: push the given element, or pop.
pub enum StackOp<T> {
    Push(T),
    Pop,
}

/// The contents after one operation on a stack holding `v`; a pop on an
/// empty stack removes nothing.
pub open spec fn apply_op<T>(v: Seq<T>, op: StackOp<T>) -> Seq<T> {
    match op {
        StackOp::Push(x) => v.push(x),
        StackOp::Pop => popped_rest(v),
    }
}

/// The contents after a run of operations, applied left to right.
pub open spec fn apply_ops<T>(v: Seq<T>, ops: Seq<StackOp<T>>) -> Seq<T>
    decreases ops.len(),
{
    if ops.len() == 0 {
        v
    } else {
        apply_ops(apply_op(v, ops.first()), ops.drop_first())
    }
}

/// How many operations of the run push an element.
pub open spec fn count_pushes<T>(ops: Seq<StackOp<T>>) -> nat
    decreases ops.len(),
{
    if ops.len() == 0 {
        0
    } else {
        let here: nat = match ops.first() {
            StackOp::Push(_) => 1,
            StackOp::Pop => 0,
        };
        here + count_pushes(ops.drop_first())
    }
}

/// How many pops of the run, started on a stack holding `v`, found an
/// element to remove.
pub open spec fn count_successful_pops<T>(v: Seq<T>, ops: Seq<StackOp<T>>) -> nat
    decreases ops.len(),
{
    if ops.len() == 0 {
        0
    } else {
        let here: nat = match ops.first() {
            StackOp::Push(_) => 0,
            StackOp::Pop => if v.len() > 0 {
                1
            } else {
                0
            },
        };
        here + count_successful_pops(apply_op(v, ops.first()), ops.drop_first())
    }
}

/// Size law: after any run of operations, the element count is the count
/// before, plus the pushes, minus the successful pops - and the successful
/// pops never outnumber the pushes plus the starting count, so the count
/// never drops below zero. A pop on an empty stack removes nothing.
pub proof fn lemma_size_after_ops<T>(v: Seq<T>, ops: Seq<StackOp<T>>)
    ensures
        apply_ops(v, ops).len() == v.len() + count_pushes(ops) - count_successful_pops(v, ops),
        count_successful_pops(v, ops) <= v.len() + count_pushes(ops),
    decreases ops.len(),
{
    if ops.len() > 0 {
        lemma_size_after_ops(apply_op(v, ops.first()), ops.drop_first());
    }
}

/// LIFO law: pushing the elements of `xs` in order on top of a stack
/// holding `v`, then popping `xs.len()` times, surfaces exactly the
/// reverse of `xs` and leaves the stack holding `v` again.
pub proof fn lemma_lifo<T>(v: Seq<T>, xs: Seq<T>)
    ensures
        pop_run(v + xs, xs.len()).0 == xs.reverse(),
        pop_run(v + xs, xs.len()).1 == v,
    decreases xs.len(),
{
    if xs.len() == 0 {
        assert(v + xs =~= v);
    } else {
        assert((v + xs).drop_last() =~= v + xs.drop_last());
        lemma_lifo(v, xs.drop_last());
        assert(pop_run(v + xs, xs.len()).0 =~= xs.reverse());
    }
}

} // verus!
