//! Activations and invocations. An activation describes one call frame. An
//! invocation is a call that the interpreter has decided on and that the
//! host's execution loop carries out; its outcome comes back as a plain
//! `Result`.

use vstd::prelude::*;
use crate::error::Error;
use crate::heap::Heap;
use crate::heap::HeapView;
use crate::method::BytecodeMethod;
use crate::method::NativeMethod;
use crate::object::Object;
use crate::script::Script;
use crate::value::Value;

verus! {

/// One call frame: the script it runs for, its receiver and its scope.
#[derive(Clone, Copy, Debug)]
pub struct Activation {
    pub script: Option<Script>,
    pub this: Option<Object>,
    pub scope: Option<Object>,
}

impl Activation {
    /// A frame bound to no script, receiver or scope.
    pub open spec fn nothing() -> Activation {
        Activation { script: None, this: None, scope: None }
    }

    /// The frame of a script's initializer: receiver and scope are the
    /// script's global object.
    pub open spec fn of_script(heap: HeapView, script: Script) -> Activation {
        Activation {
            script: Some(script),
            this: Some(heap.script(script).globals),
            scope: Some(heap.script(script).globals),
        }
    }

    /// Makes a frame bound to nothing.
    pub fn from_nothing() -> (activation: Activation)
        ensures
            activation == Activation::nothing(),
    {
        Activation { script: None, this: None, scope: None }
    }

    /// Makes the frame in which a script's initializer runs.
    pub fn from_script(heap: &Heap, script: Script) -> (activation: Activation)
        requires
            heap@.has_script(script),
        ensures
            activation == Activation::of_script(heap@, script),
    {
        let globals = heap.script_data(script).globals;
        Activation { script: Some(script), this: Some(globals), scope: Some(globals) }
    }
}

/// A call for the host to carry out.
pub enum Invocation<'gc> {
    /// Call a native function directly.
    Native {
        function: NativeMethod,
        activation: Activation,
        receiver: Option<Object>,
        arguments: Vec<Value<'gc>>,
    },
    /// Run a script's bytecode initializer through the stack-frame loop.
    ScriptFrame { activation: Activation, script: Script },
    /// Run a bytecode function through the stack-frame loop.
    FunctionFrame {
        method: BytecodeMethod,
        activation: Activation,
        receiver: Option<Object>,
        arguments: Vec<Value<'gc>>,
        base_proto: Option<Object>,
        callee: Object,
    },
}

/// An invocation with its argument list as a sequence.
pub enum InvocationView<'gc> {
    Native {
        function: NativeMethod,
        activation: Activation,
        receiver: Option<Object>,
        arguments: Seq<Value<'gc>>,
    },
    ScriptFrame { activation: Activation, script: Script },
    FunctionFrame {
        method: BytecodeMethod,
        activation: Activation,
        receiver: Option<Object>,
        arguments: Seq<Value<'gc>>,
        base_proto: Option<Object>,
        callee: Object,
    },
}

impl<'gc> View for Invocation<'gc> {
    type V = InvocationView<'gc>;

    open spec fn view(&self) -> InvocationView<'gc> {
        match *self {
            Invocation::Native { function, activation, receiver, arguments } => InvocationView::Native {
                function,
                activation,
                receiver,
                arguments: arguments@,
            },
            Invocation::ScriptFrame { activation, script } => InvocationView::ScriptFrame {
                activation,
                script,
            },
            Invocation::FunctionFrame {
                method,
                activation,
                receiver,
                arguments,
                base_proto,
                callee,
            } => InvocationView::FunctionFrame {
                method,
                activation,
                receiver,
                arguments: arguments@,
                base_proto,
                callee,
            },
        }
    }
}

/// What an entry point reports for the outcome of an invocation: the value
/// that a successful call produced is dropped, a failure is passed on as it
/// is.
pub open spec fn settled<'gc>(outcome: Result<Value<'gc>, Error>) -> Result<(), Error> {
    match outcome {
        Ok(_) => Ok(()),
        Err(error) => Err(error),
    }
}

impl<'gc> Invocation<'gc> {
    /// Turns the outcome of an invocation into the result of the entry point
    /// that asked for it.
    pub fn settle(outcome: Result<Value<'gc>, Error>) -> (result: Result<(), Error>)
        ensures
            result == settled(outcome),
    {
        match outcome {
            Ok(_) => Ok(()),
            Err(error) => Err(error),
        }
    }
}

} // verus!
