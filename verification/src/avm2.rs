//! The interpreter: the shared operand stack, the global domain, the cache of
//! system prototypes, and the entry points through which the host loads
//! content and invokes code.

use vstd::prelude::*;
use std::rc::Rc;
use crate::abc::abc_parse;
use crate::abc::abc_script_inits;
use crate::abc::read_abc;
use crate::activation::Activation;
use crate::activation::Invocation;
use crate::activation::InvocationView;
use crate::domain::Domain;
use crate::error::Error;
use crate::heap::Heap;
use crate::heap::HeapView;
use crate::loader::defers;
use crate::loader::AbcLoad;
use crate::loader::LoadStep;
use crate::method::Method;
use crate::object::call_of;
use crate::object::Object;
use crate::domain::resolve;
use crate::script::fresh_unit;
use crate::script::Script;
use crate::script::TranslationUnit;
use crate::value::Value;

verus! {

/// The prototypes of the built-in classes, as the standard-library loader
/// installs them.
#[derive(Clone, Copy, Debug)]
pub struct SystemPrototypes {
    pub object: Object,
    pub function: Object,
    pub class: Object,
}

/// What the host runs to load the standard library: the loader, in a frame
/// bound to nothing, against the given domain.
#[derive(Clone, Copy, Debug)]
pub struct GlobalsLoad {
    pub activation: Activation,
    pub domain: Domain,
}

/// The state of an interpreter.
pub struct Avm2<'gc> {
    /// Values currently present on the operand stack.
    stack: Vec<Value<'gc>>,
    /// Global scope.
    globals: Domain,
    /// System prototypes.
    system_prototypes: Option<SystemPrototypes>,
    debug_output: bool,
}

/// The interpreter as contracts see it.
pub struct Avm2View<'gc> {
    /// The operand stack, bottom first.
    pub stack: Seq<Value<'gc>>,
    pub globals: Domain,
    pub system_prototypes: Option<SystemPrototypes>,
    pub debug_output: bool,
}

impl<'gc> View for Avm2<'gc> {
    type V = Avm2View<'gc>;

    closed spec fn view(&self) -> Avm2View<'gc> {
        Avm2View {
            stack: self.stack@,
            globals: self.globals,
            system_prototypes: self.system_prototypes,
            debug_output: self.debug_output,
        }
    }
}

/// What one pop does to a stack: the top value and the stack below it, or
/// `Undefined` and the stack as it is where the stack is empty.
pub open spec fn popped<'gc>(stack: Seq<Value<'gc>>) -> (Value<'gc>, Seq<Value<'gc>>) {
    if stack.len() == 0 {
        (Value::Undefined, stack)
    } else {
        (stack.last(), stack.drop_last())
    }
}

/// The `count` topmost values of a stack in the order in which they were
/// pushed. Where the stack holds fewer, the missing leading ones are
/// `Undefined`.
pub open spec fn top_args<'gc>(stack: Seq<Value<'gc>>, count: nat) -> Seq<Value<'gc>> {
    Seq::new(
        count,
        |i: int|
            if stack.len() - count + i >= 0 {
                stack[stack.len() - count + i]
            } else {
                Value::Undefined
            },
    )
}

/// The stack below its `count` topmost values; empty where it holds fewer.
pub open spec fn below_args<'gc>(stack: Seq<Value<'gc>>, count: nat) -> Seq<Value<'gc>> {
    if stack.len() >= count {
        stack.take(stack.len() - count)
    } else {
        Seq::empty()
    }
}

/// The stack after the values have been pushed one by one, first to last.
pub open spec fn pushed_all<'gc>(stack: Seq<Value<'gc>>, values: Seq<Value<'gc>>) -> Seq<Value<'gc>>
    decreases values.len(),
{
    if values.len() == 0 {
        stack
    } else {
        pushed_all(stack, values.drop_last()).push(values.last())
    }
}

/// What `count` pops in a row give: the values in the order in which they
/// come off, and the stack that is left.
pub open spec fn popped_times<'gc>(stack: Seq<Value<'gc>>, count: nat) -> (
    Seq<Value<'gc>>,
    Seq<Value<'gc>>,
)
    decreases count,
{
    if count == 0 {
        (Seq::empty(), stack)
    } else {
        let (value, rest) = popped(stack);
        let (more, end) = popped_times(rest, (count - 1) as nat);
        (seq![value] + more, end)
    }
}

/// As many pops as there were pushes give the pushed values back in exactly
/// the reverse order, and leave the stack as it was before the pushes.
pub proof fn pushes_then_pops_reverse<'gc>(stack: Seq<Value<'gc>>, values: Seq<Value<'gc>>)
    ensures
        popped_times(pushed_all(stack, values), values.len()) == (values.reverse(), stack),
    decreases values.len(),
{
    if values.len() > 0 {
        let front = values.drop_last();
        pushes_then_pops_reverse(stack, front);
        assert(popped(pushed_all(stack, values)).1 =~= pushed_all(stack, front));
        assert(values.reverse() =~= seq![values.last()] + front.reverse());
    } else {
        assert(values.reverse() =~= Seq::empty());
    }
}

/// Popping arguments is popping one by one and putting the values back into
/// the order in which they were pushed.
pub proof fn pop_args_reverses_pops<'gc>(stack: Seq<Value<'gc>>, count: nat)
    ensures
        popped_times(stack, count).0.len() == count,
        top_args(stack, count) == popped_times(stack, count).0.reverse(),
        below_args(stack, count) == popped_times(stack, count).1,
    decreases count,
{
    if count > 0 {
        let (value, rest) = popped(stack);
        let (more, end) = popped_times(rest, (count - 1) as nat);
        pop_args_reverses_pops(rest, (count - 1) as nat);
        assert(below_args(stack, count) =~= below_args(rest, (count - 1) as nat));
        let all = seq![value] + more;
        assert forall|i: int| 0 <= i < count implies top_args(stack, count)[i] == all.reverse()[i] by {
            if i < count - 1 {
                assert(all.reverse()[i] == more[count - 2 - i]);
                assert(more.reverse()[i] == more[count - 2 - i]);
                assert(top_args(rest, (count - 1) as nat)[i] == more.reverse()[i]);
            }
        }
        assert(top_args(stack, count) =~= all.reverse());
    } else {
        assert(below_args(stack, 0) =~= stack);
        assert(top_args(stack, 0) =~= Seq::<Value<'gc>>::empty().reverse());
    }
}

/// The invocation that runs a script's initializer: a native initializer is
/// called directly, with the script's global object as receiver and no
/// arguments; a bytecode initializer gets a stack frame for the script. Either
/// runs in the script's own frame.
pub open spec fn script_initializer<'gc>(heap: HeapView, script: Script) -> InvocationView<'gc> {
    match heap.script(script).init {
        Method::Native(function) => InvocationView::Native {
            function,
            activation: Activation::of_script(heap, script),
            receiver: Some(heap.script(script).globals),
            arguments: Seq::empty(),
        },
        Method::Entry(_) => InvocationView::ScriptFrame {
            activation: Activation::of_script(heap, script),
            script,
        },
    }
}

impl<'gc> Avm2<'gc> {
    /// What a load of a container with the scripts `inits` does to a heap: a
    /// unit for the parsed file is added, bound to `domain` and with no script
    /// made, and the load of all its scripts is run from there; `step` is what
    /// that load reports. A lazy load makes the scripts highest first and
    /// initializes none. An eager load has initialized every script down to
    /// where it stops, and all of them once it has finished.
    pub open spec fn loads(
        heap: HeapView,
        later: HeapView,
        domain: Domain,
        inits: Seq<u32>,
        lazy_init: bool,
        step: LoadStep<'gc>,
    ) -> bool {
        let unit = TranslationUnit(heap.units.len() as usize);
        let file = later.unit(unit).abc;
        let start = HeapView { units: heap.units.push(fresh_unit(file, domain)), ..heap };
        let load = AbcLoad { unit, remaining: inits.len() as u32, lazy_init };
        &&& later.has_unit(unit)
        &&& abc_script_inits(file) == inits
        &&& load.runs_on(start, later, step)
        &&& lazy_init ==> defers(heap, later) && load.made_highest_first(later, heap.scripts.len())
        &&& match step {
            LoadStep::Finished => (AbcLoad { remaining: 0, ..load }).done_above(later),
            LoadStep::Initialize { rest, .. } => rest.done_above(later),
        }
    }

    /// Construct a new interpreter: an empty stack, a fresh global domain and
    /// no system prototypes yet.
    pub fn new(heap: &mut Heap<'gc>) -> (avm2: Self)
        requires
            old(heap)@.wf(),
        ensures
            avm2@ == (Avm2View {
                stack: Seq::empty(),
                globals: Domain(old(heap)@.domains.len() as usize),
                system_prototypes: None,
                debug_output: false,
            }),
            Domain::made_root(old(heap)@, final(heap)@),
            final(heap)@.wf(),
            old(heap)@.evolves_to(final(heap)@),
    {
        let globals = Domain::global_domain(heap);
        Avm2 { stack: Vec::new(), globals, system_prototypes: None, debug_output: false }
    }

    /// What the host must run to load the standard library: the loader,
    /// against the global domain, in a frame bound to nothing.
    pub fn load_player_globals(&self) -> (load: GlobalsLoad)
        ensures
            load.activation == Activation::nothing(),
            load.domain == self@.globals,
    {
        let globals = self.globals;
        let activation = Activation::from_nothing();
        GlobalsLoad { activation, domain: globals }
    }

    /// Takes the outcome of the standard-library loader. A failure is passed
    /// on and changes nothing. On success the prototypes are cached, unless a
    /// cache is already there: it is filled once and then kept.
    pub fn player_globals_loaded(&mut self, outcome: Result<SystemPrototypes, Error>) -> (result:
        Result<(), Error>)
        ensures
            match outcome {
                Err(error) => result == Err::<(), Error>(error) && final(self)@ == old(self)@,
                Ok(prototypes) => result == Ok::<(), Error>(()) && final(self)@ == (Avm2View {
                    system_prototypes: if old(self)@.system_prototypes is Some {
                        old(self)@.system_prototypes
                    } else {
                        Some(prototypes)
                    },
                    ..old(self)@
                }),
            },
    {
        match outcome {
            Err(error) => Err(error),
            Ok(prototypes) => {
                if self.system_prototypes.is_none() {
                    self.system_prototypes = Some(prototypes);
                }
                Ok(())
            },
        }
    }

    /// Whether the system prototypes have been loaded.
    pub fn has_prototypes(&self) -> (loaded: bool)
        ensures
            loaded == self@.system_prototypes.is_some(),
    {
        self.system_prototypes.is_some()
    }

    /// Return the current set of system prototypes.
    ///
    /// Only for an interpreter whose standard library has been loaded.
    pub fn prototypes(&self) -> (prototypes: &SystemPrototypes)
        requires
            self@.system_prototypes is Some,
        ensures
            Some(*prototypes) == self@.system_prototypes,
    {
        self.system_prototypes.as_ref().unwrap()
    }

    /// Decides how a script's initializer is run: in a frame bound to the
    /// script, a native initializer by a direct call with the script's scope
    /// as receiver and no arguments, a bytecode initializer through the
    /// stack-frame loop. The host carries the invocation out; if that fails,
    /// the script is not to be used.
    pub fn run_script_initializer(script: Script, heap: &Heap<'gc>) -> (invocation: Invocation<'gc>)
        requires
            heap@.has_script(script),
        ensures
            invocation@ == script_initializer::<'gc>(heap@, script),
    {
        let init_activation = Activation::from_script(heap, script);

        let (method, scope) = script.init(heap);
        match method {
            Method::Native(nf) => Invocation::Native {
                function: nf,
                activation: init_activation,
                receiver: Some(scope),
                arguments: Vec::new(),
            },
            Method::Entry(_) => Invocation::ScriptFrame { activation: init_activation, script },
        }
    }

    /// Decides the invocation for a call that the host makes (an event
    /// handler, say): the callee's call capability, applied to the receiver
    /// and the arguments in a frame bound to nothing, with the receiver's
    /// prototype as the base prototype (none without a receiver). Fails if
    /// the target is not callable.
    pub fn run_stack_frame_for_callable(
        callable: Object,
        reciever: Option<Object>,
        args: &[Value<'gc>],
        heap: &Heap<'gc>,
    ) -> (result: Result<Invocation<'gc>, Error>)
        requires
            heap@.has_object(callable),
            reciever matches Some(r) ==> heap@.has_object(r),
        ensures
            match heap@.object(callable).callable {
                None => result == Err::<Invocation<'gc>, Error>(Error::NotCallable),
                Some(method) => result matches Ok(invocation) && invocation@ == call_of(
                    method,
                    callable,
                    reciever,
                    args@,
                    Activation::nothing(),
                    match reciever {
                        Some(r) => heap@.object(r).proto,
                        None => None,
                    },
                ),
            },
    {
        let evt_activation = Activation::from_nothing();
        let base_proto = match reciever {
            Some(r) => r.proto(heap),
            None => None,
        };
        callable.call(reciever, args, evt_activation, base_proto, heap)
    }

    /// Load a bytecode container into `domain`.
    ///
    /// The bytes are parsed and wrapped in a new translation unit. Its scripts
    /// are then loaded from the highest index down. With `lazy_init` no
    /// initializer is handed out and the load finishes at once; without it the
    /// load stops at the first script that owes its initializer (see
    /// [`AbcLoad::advance`]). Where the bytes are not a well-formed container
    /// the reader's error is returned and the heap is left as it was.
    pub fn load_abc(
        abc: &[u8],
        _abc_name: &str,
        lazy_init: bool,
        heap: &mut Heap<'gc>,
        domain: Domain,
    ) -> (result: Result<LoadStep<'gc>, Error>)
        requires
            old(heap)@.wf(),
            old(heap)@.has_domain(domain),
            abc@.len() <= u32::MAX,
            u32::MAX < usize::MAX,
        ensures
            match abc_parse(abc@) {
                None => result matches Err(Error::Parse(_)) && final(heap)@ == old(heap)@,
                Some(inits) => result matches Ok(step) && Avm2::loads(
                    old(heap)@,
                    final(heap)@,
                    domain,
                    inits,
                    lazy_init,
                    step,
                ),
            },
            result is Err ==> forall|name: (Seq<char>, Seq<char>)|
                resolve(final(heap)@, domain, name) == resolve(old(heap)@, domain, name),
            final(heap)@.wf(),
            old(heap)@.evolves_to(final(heap)@),
    {
        let abc_file = match read_abc(abc) {
            Ok(file) => Rc::new(file),
            Err(error) => {
                proof {
                    crate::heap::evolution_is_reflexive(heap@);
                }
                return Err(Error::Parse(error));
            },
        };
        let tunit = TranslationUnit::from_abc(abc_file, domain, heap);
        let ghost start = heap@;
        let count = tunit.script_count(heap);
        let load = AbcLoad { unit: tunit, remaining: count as u32, lazy_init };
        let step = load.advance(heap);
        proof {
            crate::heap::evolution_is_transitive(old(heap)@, start, heap@);
            assert(heap@.units[tunit.0 as int].abc == start.units[tunit.0 as int].abc);
            assert(load.done_above(start));
            assert(load.untouched(start));
        }
        Ok(step)
    }

    /// The root domain.
    pub fn global_domain(&self) -> (domain: Domain)
        ensures
            domain == self@.globals,
    {
        self.globals
    }

    /// The number of values on the operand stack. A call leaves the stack
    /// balanced when the depth after it is the depth before it.
    pub fn stack_depth(&self) -> (depth: usize)
        ensures
            depth == self@.stack.len(),
    {
        self.stack.len()
    }

    /// Push a value onto the operand stack.
    pub fn push(&mut self, value: Value<'gc>)
        ensures
            final(self)@ == (Avm2View { stack: old(self)@.stack.push(value), ..old(self)@ }),
    {
        self.stack.push(value);
    }

    /// Retrieve the top-most value on the operand stack. On an empty stack
    /// the value is `Undefined` and the stack stays empty.
    pub fn pop(&mut self) -> (value: Value<'gc>)
        ensures
            value == popped(old(self)@.stack).0,
            final(self)@ == (Avm2View { stack: popped(old(self)@.stack).1, ..old(self)@ }),
    {
        match self.stack.pop() {
            Some(value) => value,
            None => {
                assert(self@.stack =~= old(self)@.stack);
                Value::Undefined
            },
        }
    }

    /// Pops `arg_count` values and returns them in the order in which they
    /// were pushed.
    pub fn pop_args(&mut self, arg_count: u32) -> (args: Vec<Value<'gc>>)
        ensures
            args@ == top_args(old(self)@.stack, arg_count as nat),
            final(self)@ == (Avm2View {
                stack: below_args(old(self)@.stack, arg_count as nat),
                ..old(self)@
            }),
    {
        let count = arg_count as usize;
        let mut args: Vec<Value<'gc>> = Vec::with_capacity(count);
        while args.len() < count
            invariant
                args@.len() <= count,
            decreases count - args@.len(),
        {
            args.push(Value::Undefined);
        }
        let ghost before = self@.stack;
        assert(below_args(before, 0) =~= before);
        let mut at: usize = count;
        while at > 0
            invariant
                at <= count,
                count == arg_count,
                args@.len() == count,
                before == old(self)@.stack,
                self@ == (Avm2View { stack: below_args(before, (count - at) as nat), ..old(self)@ }),
                forall|i: int| at <= i < count ==> args@[i] == top_args(before, count as nat)[i],
            decreases at,
        {
            at = at - 1;
            let value = self.pop();
            args[at] = value;
            proof {
                let taken = (count - at - 1) as nat;
                assert(popped(below_args(before, taken)).1 =~= below_args(before, taken + 1));
            }
        }
        assert(args@ =~= top_args(before, count as nat));
        args
    }

    /// Whether debug output is shown.
    pub fn show_debug_output(&self) -> (visible: bool)
        ensures
            visible == self@.debug_output,
    {
        self.debug_output
    }

    /// Shows or hides debug output.
    pub fn set_show_debug_output(&mut self, visible: bool)
        ensures
            final(self)@ == (Avm2View { debug_output: visible, ..old(self)@ }),
    {
        self.debug_output = visible;
    }
}

} // verus!
