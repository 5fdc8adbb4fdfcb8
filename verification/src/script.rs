//! Translation units and the scripts drawn from them. A unit wraps one parsed
//! container and makes each of its scripts once, on first request. A script
//! hands out its initializer once, on the first request for its globals.

use vstd::prelude::*;
use std::rc::Rc;
use swf::avm2::types::AbcFile;
use crate::abc::abc_script_inits;
use crate::activation::Invocation;
use crate::avm2::script_initializer;
use crate::avm2::Avm2;
use crate::domain::Domain;
use crate::error::Error;
use crate::heap::Heap;
use crate::heap::HeapView;
use crate::heap::ObjectData;
use crate::heap::ScriptData;
use crate::heap::UnitView;
use crate::method::BytecodeMethod;
use crate::method::Method;
use crate::object::Object;

verus! {

/// A reference to a translation unit cell of the heap.
#[derive(Clone, Copy, Debug, PartialEq, Eq, Structural)]
pub struct TranslationUnit(pub usize);

/// A reference to a script cell of the heap.
#[derive(Clone, Copy, Debug, PartialEq, Eq, Structural)]
pub struct Script(pub usize);

/// What a request for a script's globals gives: the global object, and the
/// initializer to run before the object is used, where this request is the
/// one that owes it.
pub struct ScriptGlobals<'gc> {
    pub object: Object,
    pub initializer: Option<Invocation<'gc>>,
}

/// The unit that a heap gets for a parsed file and a domain: no script made
/// yet.
pub open spec fn fresh_unit(abc: AbcFile, domain: Domain) -> UnitView {
    UnitView { abc, domain, scripts: Seq::new(abc_script_inits(abc).len(), |k: int| None) }
}

/// The heap after `unit` has made its script for `index`: one more object
/// (the script's global object, without prototype or call capability), one
/// more script (not initialized, its initializer the bytecode method that the
/// container names for the index), and the unit's cache pointing at it.
pub open spec fn instantiated(heap: HeapView, unit: TranslationUnit, index: int) -> HeapView {
    HeapView {
        objects: heap.objects.push(ObjectData { proto: None, callable: None }),
        scripts: heap.scripts.push(
            ScriptData {
                unit,
                index: index as u32,
                globals: Object(heap.objects.len() as usize),
                init: Method::Entry(
                    BytecodeMethod { unit, method: abc_script_inits(heap.unit(unit).abc)[index] },
                ),
                initialized: false,
            },
        ),
        units: heap.units.update(
            unit.0 as int,
            UnitView {
                scripts: heap.unit(unit).scripts.update(
                    index,
                    Some(Script(heap.scripts.len() as usize)),
                ),
                ..heap.unit(unit)
            },
        ),
        ..heap
    }
}

/// Loading the script for an index that `unit` has: the cached script and the
/// heap as it is, or a new script and the heap with it.
pub open spec fn loaded(heap: HeapView, unit: TranslationUnit, index: int) -> (HeapView, Script) {
    match heap.cached(unit, index) {
        Some(script) => (heap, script),
        None => (instantiated(heap, unit, index), Script(heap.scripts.len() as usize)),
    }
}

/// The heap with `script` marked as initialized.
pub open spec fn initialized(heap: HeapView, script: Script) -> HeapView {
    HeapView {
        scripts: heap.scripts.update(
            script.0 as int,
            ScriptData { initialized: true, ..heap.script(script) },
        ),
        ..heap
    }
}

/// A request for a script's globals as a step of the heap: the heap after it,
/// and whether the request is the one that hands out the initializer. The
/// first request marks the script; a request for a marked script changes
/// nothing.
pub open spec fn requested(heap: HeapView, script: Script) -> (HeapView, bool) {
    if heap.script(script).initialized {
        (heap, false)
    } else {
        (initialized(heap, script), true)
    }
}

/// A script's initializer is handed out at most once: after a request for the
/// script's globals, no later request hands it out again, whatever has been
/// added to the heap in between, and a request that follows at once changes
/// nothing.
pub proof fn initializer_is_owed_once(heap: HeapView, script: Script, later: HeapView)
    requires
        heap.has_script(script),
        requested(heap, script).0.evolves_to(later),
    ensures
        requested(requested(heap, script).0, script) == (requested(heap, script).0, false),
        requested(later, script) == (later, false),
{
    assert(requested(heap, script).0.scripts[script.0 as int].initialized);
    assert(later.scripts[script.0 as int].initialized);
}

/// Loading a script keeps the heap well formed and only adds to it; the
/// script it gives is the one cached for the index from then on, and a script
/// made by the load is not initialized.
pub proof fn loading_extends_heap(heap: HeapView, unit: TranslationUnit, index: int)
    requires
        heap.wf(),
        heap.has_unit(unit),
        0 <= index < heap.unit(unit).script_count(),
        index <= u32::MAX,
        heap.room_for(1),
    ensures
        loaded(heap, unit, index).0.wf(),
        heap.evolves_to(loaded(heap, unit, index).0),
        loaded(heap, unit, index).0.has_script(loaded(heap, unit, index).1),
        loaded(heap, unit, index).0.cached(unit, index) == Some(loaded(heap, unit, index).1),
        heap.cached(unit, index) is None ==> {
            &&& loaded(heap, unit, index).1.0 == heap.scripts.len()
            &&& loaded(heap, unit, index).0.scripts.len() == heap.scripts.len() + 1
            &&& !loaded(heap, unit, index).0.script(loaded(heap, unit, index).1).initialized
            &&& forall|other: int|
                0 <= other < heap.unit(unit).scripts.len() && other != index ==> loaded(
                    heap,
                    unit,
                    index,
                ).0.cached(unit, other) == heap.cached(unit, other)
        },
{
}

/// The same index of the same unit always gives the same script: once a
/// script has been loaded, loading its index again returns that very script
/// and changes nothing, whatever has been added to the heap in between.
pub proof fn loading_again_gives_the_same_script(
    heap: HeapView,
    unit: TranslationUnit,
    index: int,
    later: HeapView,
)
    requires
        heap.wf(),
        heap.has_unit(unit),
        0 <= index < heap.unit(unit).script_count(),
        index <= u32::MAX,
        heap.room_for(1),
        loaded(heap, unit, index).0.evolves_to(later),
    ensures
        loaded(loaded(heap, unit, index).0, unit, index) == loaded(heap, unit, index),
        loaded(later, unit, index) == (later, loaded(heap, unit, index).1),
{
    loading_extends_heap(heap, unit, index);
    let (made, script) = loaded(heap, unit, index);
    assert(later.units[unit.0 as int].scripts[index] == made.units[unit.0 as int].scripts[index]);
}

/// Marking a script as initialized keeps the heap well formed and changes
/// nothing else.
pub proof fn initializing_extends_heap(heap: HeapView, script: Script)
    requires
        heap.wf(),
        heap.has_script(script),
    ensures
        initialized(heap, script).wf(),
        heap.evolves_to(initialized(heap, script)),
        initialized(heap, script).script(script).initialized,
        initialized(heap, script).units == heap.units,
{
}

impl TranslationUnit {
    /// Wraps a parsed file and the domain it installs into. Executes nothing
    /// and makes no script.
    pub fn from_abc(abc: Rc<AbcFile>, domain: Domain, heap: &mut Heap) -> (unit: TranslationUnit)
        requires
            old(heap)@.wf(),
            old(heap)@.has_domain(domain),
        ensures
            unit.0 == old(heap)@.units.len(),
            final(heap)@ == (HeapView {
                units: old(heap)@.units.push(fresh_unit(*abc, domain)),
                ..old(heap)@
            }),
            final(heap)@.wf(),
            old(heap)@.evolves_to(final(heap)@),
    {
        heap.push_unit(abc, domain)
    }

    /// The parsed file.
    pub fn abc<'a>(self, heap: &'a Heap) -> (abc: &'a Rc<AbcFile>)
        requires
            heap@.has_unit(self),
        ensures
            **abc == heap@.unit(self).abc,
    {
        heap.unit_file(self)
    }

    /// The domain that the unit installs into.
    pub fn domain(self, heap: &Heap) -> (domain: Domain)
        requires
            heap@.has_unit(self),
        ensures
            domain == heap@.unit(self).domain,
    {
        heap.unit_domain(self)
    }

    /// The number of scripts in the unit's container.
    pub fn script_count(self, heap: &Heap) -> (count: usize)
        requires
            heap@.wf(),
            heap@.has_unit(self),
        ensures
            count == heap@.unit(self).script_count(),
    {
        heap.unit_slots(self)
    }

    /// Returns the script for `index`. The first request makes the script
    /// and caches it; every later one returns that same script and changes
    /// nothing. Fails, changing nothing, exactly when the container has no
    /// script of that index.
    pub fn load_script(self, index: u32, heap: &mut Heap) -> (result: Result<Script, Error>)
        requires
            old(heap)@.wf(),
            old(heap)@.has_unit(self),
        ensures
            match result {
                Ok(script) => index < old(heap)@.unit(self).script_count() && (final(heap)@, script)
                    == loaded(old(heap)@, self, index as int),
                Err(error) => index >= old(heap)@.unit(self).script_count() && error
                    == Error::InvalidScriptIndex && final(heap)@ == old(heap)@,
            },
            result matches Ok(script) ==> final(heap)@.cached(self, index as int) == Some(script),
            final(heap)@.wf(),
            old(heap)@.evolves_to(final(heap)@),
    {
        if index as usize >= heap.unit_slots(self) {
            return Err(Error::InvalidScriptIndex);
        }
        Ok(self.script_at(index, heap))
    }

    /// [`TranslationUnit::load_script`] for an index that the container has.
    pub(crate) fn script_at(self, index: u32, heap: &mut Heap) -> (script: Script)
        requires
            old(heap)@.wf(),
            old(heap)@.has_unit(self),
            index < old(heap)@.unit(self).script_count(),
        ensures
            (final(heap)@, script) == loaded(old(heap)@, self, index as int),
            final(heap)@.cached(self, index as int) == Some(script),
            final(heap)@.has_script(script),
            final(heap)@.wf(),
            old(heap)@.evolves_to(final(heap)@),
    {
        let at = index as usize;
        if let Some(script) = heap.unit_cached(self, at) {
            return script;
        }
        let init = Method::Entry(BytecodeMethod { unit: self, method: heap.unit_init_method(self, at) });
        let globals = heap.push_object(ObjectData { proto: None, callable: None });
        let script = heap.push_script(
            ScriptData { unit: self, index, globals, init, initialized: false },
        );
        heap.unit_cache(self, at, script);
        script
    }
}

impl Script {
    /// The unit that the script was drawn from.
    pub fn unit(self, heap: &Heap) -> (unit: TranslationUnit)
        requires
            heap@.has_script(self),
        ensures
            unit == heap@.script(self).unit,
    {
        heap.script_data(self).unit
    }

    /// The script's index in its unit.
    pub fn index(self, heap: &Heap) -> (index: u32)
        requires
            heap@.has_script(self),
        ensures
            index == heap@.script(self).index,
    {
        heap.script_data(self).index
    }

    /// Whether the script's initializer has been handed out.
    pub fn is_initialized(self, heap: &Heap) -> (done: bool)
        requires
            heap@.has_script(self),
        ensures
            done == heap@.script(self).initialized,
    {
        heap.script_data(self).initialized
    }

    /// The initializer and the scope it runs in: the script's global object.
    pub fn init(self, heap: &Heap) -> (pair: (Method, Object))
        requires
            heap@.has_script(self),
        ensures
            pair == (heap@.script(self).init, heap@.script(self).globals),
    {
        let data = heap.script_data(self);
        (data.init, data.globals)
    }

    /// Returns the script's global object. The first request marks the
    /// script as initialized and hands out its initializer, which the caller
    /// runs before using the object; every later request hands out nothing
    /// and changes nothing.
    pub fn globals<'gc>(self, heap: &mut Heap<'gc>) -> (globals: ScriptGlobals<'gc>)
        requires
            old(heap)@.wf(),
            old(heap)@.has_script(self),
        ensures
            globals.object == old(heap)@.script(self).globals,
            final(heap)@ == requested(old(heap)@, self).0,
            globals.initializer is Some == requested(old(heap)@, self).1,
            globals.initializer matches Some(invocation) ==> invocation@ == script_initializer::<'gc>(
                old(heap)@,
                self,
            ),
            final(heap)@.script(self).initialized,
            final(heap)@.wf(),
            old(heap)@.evolves_to(final(heap)@),
    {
        let data = heap.script_data(self);
        if !data.initialized {
            heap.script_mark_initialized(self);
            let invocation = Avm2::run_script_initializer(self, heap);
            ScriptGlobals { object: data.globals, initializer: Some(invocation) }
        } else {
            ScriptGlobals { object: data.globals, initializer: None }
        }
    }
}

} // verus!
