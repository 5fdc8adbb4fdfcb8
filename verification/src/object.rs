//! Object handles, and what the interpreter reads of an object: its
//! prototype and its call capability.

use vstd::prelude::*;
use crate::activation::Activation;
use crate::activation::Invocation;
use crate::activation::InvocationView;
use crate::error::Error;
use crate::heap::Heap;
use crate::heap::HeapView;
use crate::heap::ObjectData;
use crate::method::Method;
use crate::value::Value;

verus! {

/// A reference to an object cell of the heap.
#[derive(Clone, Copy, Debug, PartialEq, Eq, Structural)]
pub struct Object(pub usize);

/// The invocation that calling `callee` amounts to, for a callee whose call
/// capability is `method`: a native function is called directly with the
/// receiver and the arguments; a bytecode function gets a stack frame, with
/// the prototype to start lookups of inherited members from.
pub open spec fn call_of<'gc>(
    method: Method,
    callee: Object,
    receiver: Option<Object>,
    arguments: Seq<Value<'gc>>,
    activation: Activation,
    base_proto: Option<Object>,
) -> InvocationView<'gc> {
    match method {
        Method::Native(function) => InvocationView::Native {
            function,
            activation,
            receiver,
            arguments,
        },
        Method::Entry(method) => InvocationView::FunctionFrame {
            method,
            activation,
            receiver,
            arguments,
            base_proto,
            callee,
        },
    }
}

fn copy_values<'gc>(values: &[Value<'gc>]) -> (copy: Vec<Value<'gc>>)
    ensures
        copy@ == values@,
{
    let mut copy: Vec<Value<'gc>> = Vec::new();
    let mut i: usize = 0;
    while i < values.len()
        invariant
            i <= values@.len(),
            copy@ == values@.take(i as int),
        decreases values@.len() - i,
    {
        copy.push(values[i]);
        assert(values@.take(i + 1) =~= values@.take(i as int).push(values@[i as int]));
        i = i + 1;
    }
    assert(values@.take(i as int) =~= values@);
    copy
}

impl Object {
    /// Allocates an object with the given prototype and call capability.
    pub fn allocate(heap: &mut Heap, proto: Option<Object>, callable: Option<Method>) -> (object:
        Object)
        requires
            old(heap)@.wf(),
            proto matches Some(p) ==> old(heap)@.has_object(p),
        ensures
            object.0 == old(heap)@.objects.len(),
            final(heap)@ == (HeapView {
                objects: old(heap)@.objects.push(ObjectData { proto, callable }),
                ..old(heap)@
            }),
            final(heap)@.wf(),
            old(heap)@.evolves_to(final(heap)@),
    {
        heap.push_object(ObjectData { proto, callable })
    }

    /// The object's prototype, if it has one.
    pub fn proto(self, heap: &Heap) -> (proto: Option<Object>)
        requires
            heap@.has_object(self),
        ensures
            proto == heap@.object(self).proto,
    {
        heap.object_data(self).proto
    }

    /// The method behind the object's call capability; `None` for an object
    /// that cannot be called.
    pub fn as_callable(self, heap: &Heap) -> (method: Option<Method>)
        requires
            heap@.has_object(self),
        ensures
            method == heap@.object(self).callable,
    {
        heap.object_data(self).callable
    }

    /// Calls the object: decides the invocation that the call amounts to.
    /// Fails with `NotCallable` exactly when the object has no call
    /// capability.
    pub fn call<'gc>(
        self,
        receiver: Option<Object>,
        arguments: &[Value<'gc>],
        activation: Activation,
        base_proto: Option<Object>,
        heap: &Heap<'gc>,
    ) -> (result: Result<Invocation<'gc>, Error>)
        requires
            heap@.has_object(self),
        ensures
            match heap@.object(self).callable {
                None => result == Err::<Invocation<'gc>, Error>(Error::NotCallable),
                Some(method) => result matches Ok(invocation) && invocation@ == call_of(
                    method,
                    self,
                    receiver,
                    arguments@,
                    activation,
                    base_proto,
                ),
            },
    {
        match self.as_callable(heap) {
            None => Err(Error::NotCallable),
            Some(Method::Native(function)) => Ok(
                Invocation::Native { function, activation, receiver, arguments: copy_values(arguments) },
            ),
            Some(Method::Entry(method)) => Ok(
                Invocation::FunctionFrame {
                    method,
                    activation,
                    receiver,
                    arguments: copy_values(arguments),
                    base_proto,
                    callee: self,
                },
            ),
        }
    }
}

} // verus!
