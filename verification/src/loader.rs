//! Loading a container's scripts, from the highest index down. With eager
//! initialization the load stops at each script that owes its initializer,
//! hands the initializer out to be run, and goes on when told how it ended.

use vstd::prelude::*;
use crate::activation::Invocation;
use crate::avm2::script_initializer;
use crate::error::Error;
use crate::heap::evolution_is_transitive;
use crate::heap::Heap;
use crate::heap::HeapView;
use crate::script::initialized;
use crate::script::initializing_extends_heap;
use crate::script::loaded;
use crate::script::loading_extends_heap;
use crate::script::Script;
use crate::script::TranslationUnit;
use crate::value::Value;

verus! {

/// A load in progress: the scripts of `unit` with an index of `remaining` or
/// more have been dealt with, those below are still to come.
#[derive(Clone, Copy, Debug)]
pub struct AbcLoad {
    pub unit: TranslationUnit,
    pub remaining: u32,
    pub lazy_init: bool,
}

/// Where a load stands when it hands control back.
pub enum LoadStep<'gc> {
    /// Every script of the container has been dealt with.
    Finished,
    /// `script` has just been marked as initialized: run `initializer`, then
    /// resume `rest` with its outcome.
    Initialize { script: Script, initializer: Invocation<'gc>, rest: AbcLoad },
}

/// Where a load gets to from a heap: the heap it leaves, and the script
/// whose initializer it hands out, with the number of scripts still to come
/// after it; `None` where the load has finished.
pub struct Progress {
    pub heap: HeapView,
    pub pending: Option<(Script, nat)>,
}

/// Runs a load on: the scripts below `remaining` are loaded one by one from
/// the highest index down. A lazy load goes through all of them. An eager
/// load stops at the first script that is not yet initialized and marks it.
pub open spec fn advanced(heap: HeapView, unit: TranslationUnit, remaining: nat, lazy_init: bool) -> Progress
    decreases remaining,
{
    if remaining == 0 {
        Progress { heap, pending: None }
    } else {
        let index = remaining - 1;
        let (made, script) = loaded(heap, unit, index);
        if lazy_init || made.script(script).initialized {
            advanced(made, unit, index as nat, lazy_init)
        } else {
            Progress { heap: initialized(made, script), pending: Some((script, index as nat)) }
        }
    }
}

/// Whether what a load reports is what the model says it gets to.
pub open spec fn reports<'gc>(step: LoadStep<'gc>, load: AbcLoad, progress: Progress) -> bool {
    match progress.pending {
        None => step is Finished,
        Some((owing, left)) => step matches LoadStep::Initialize { script, initializer, rest }
            && script == owing && rest == (AbcLoad { remaining: left as u32, ..load })
            && initializer@ == script_initializer::<'gc>(progress.heap, script),
    }
}

/// No initializer was handed out between `heap` and `later`: a script that
/// was there is initialized in `later` exactly if it was in `heap`, and a
/// script that was added is not initialized.
pub open spec fn defers(heap: HeapView, later: HeapView) -> bool {
    forall|script: int|
        0 <= script < later.scripts.len() ==> (#[trigger] later.scripts[script]).initialized == (
        script < heap.scripts.len() && heap.scripts[script].initialized)
}

impl AbcLoad {
    /// None of the scripts that are still to come has been made.
    pub open spec fn untouched(self, heap: HeapView) -> bool {
        forall|index: int|
            0 <= index < self.remaining ==> (#[trigger] heap.cached(self.unit, index)) is None
    }

    /// The scripts that were still to come have been made one after the
    /// other from the highest index down, the first of them as script number
    /// `first` of the heap and the last of them as its last script.
    pub open spec fn made_highest_first(self, heap: HeapView, first: nat) -> bool {
        &&& heap.scripts.len() == first + self.remaining
        &&& forall|index: int|
            0 <= index < self.remaining ==> (#[trigger] heap.cached(self.unit, index)) == Some(
                Script((first + self.remaining - 1 - index) as usize),
            )
    }

    /// The load speaks of a unit of the heap and of no more scripts than the
    /// unit's container has.
    pub open spec fn valid(self, heap: HeapView) -> bool {
        &&& heap.has_unit(self.unit)
        &&& self.remaining <= heap.unit(self.unit).script_count()
    }

    /// Every script with an index of `remaining` or more has been made, and
    /// in an eager load has been initialized.
    pub open spec fn done_above(self, heap: HeapView) -> bool {
        forall|index: int|
            self.remaining <= index < heap.unit(self.unit).scripts.len() ==> (
            #[trigger] heap.cached(self.unit, index) matches Some(script) && (!self.lazy_init
                ==> heap.script(script).initialized))
    }

    /// What running the load on from `heap` does: it gets the heap to `later`
    /// and reports `step`, as [`advanced`] says. An initializer that it hands
    /// out belongs to a script of a lower index than any dealt with before, and
    /// the load that is left fits the heap. A lazy load finishes and hands out
    /// nothing; where it starts from scripts that have not been made, it makes
    /// them highest first. And what had been dealt with stays so, with the
    /// scripts of this run added: all of them, once the load has finished.
    pub open spec fn runs_on<'gc>(self, heap: HeapView, later: HeapView, step: LoadStep<'gc>) -> bool {
        let progress = advanced(heap, self.unit, self.remaining as nat, self.lazy_init);
        &&& later == progress.heap
        &&& reports(step, self, progress)
        &&& step matches LoadStep::Initialize { script, rest, .. } ==> rest.remaining
            < self.remaining && rest.valid(later) && later.has_script(script)
        &&& self.lazy_init ==> step is Finished && defers(heap, later)
        &&& self.lazy_init && self.untouched(heap) ==> self.made_highest_first(
            later,
            heap.scripts.len(),
        )
        &&& self.done_above(heap) ==> match step {
            LoadStep::Finished => (AbcLoad { remaining: 0, ..self }).done_above(later),
            LoadStep::Initialize { rest, .. } => rest.done_above(later),
        }
    }

    /// Whether the load fits the heap: see [`AbcLoad::valid`].
    pub fn is_valid(&self, heap: &Heap) -> (valid: bool)
        requires
            heap@.wf(),
        ensures
            valid == self.valid(heap@),
    {
        heap.has_unit(self.unit) && self.remaining as usize <= self.unit.script_count(heap)
    }

    /// Goes on with the load until the next initializer is owed or the load
    /// has finished.
    pub fn advance<'gc>(self, heap: &mut Heap<'gc>) -> (step: LoadStep<'gc>)
        requires
            old(heap)@.wf(),
            self.valid(old(heap)@),
        ensures
            self.runs_on(old(heap)@, final(heap)@, step),
            final(heap)@.wf(),
            old(heap)@.evolves_to(final(heap)@),
    {
        let mut remaining = self.remaining;
        proof {
            crate::heap::evolution_is_reflexive(heap@);
        }
        while remaining > 0
            invariant
                heap@.wf(),
                heap@.has_unit(self.unit),
                remaining <= self.remaining,
                self.remaining <= heap@.unit(self.unit).script_count(),
                old(heap)@.evolves_to(heap@),
                advanced(old(heap)@, self.unit, self.remaining as nat, self.lazy_init) == advanced(
                    heap@,
                    self.unit,
                    remaining as nat,
                    self.lazy_init,
                ),
                self.done_above(old(heap)@) ==> (AbcLoad { remaining, ..self }).done_above(heap@),
                self.lazy_init ==> defers(old(heap)@, heap@),
                self.lazy_init && self.untouched(old(heap)@) ==> {
                    &&& heap@.scripts.len() == old(heap)@.scripts.len() + self.remaining - remaining
                    &&& (AbcLoad { remaining, ..self }).untouched(heap@)
                    &&& forall|index: int|
                        remaining <= index < self.remaining ==> (#[trigger] heap@.cached(
                            self.unit,
                            index,
                        )) == Some(
                            Script(
                                (old(heap)@.scripts.len() + self.remaining - 1 - index) as usize,
                            ),
                        )
                },
            decreases remaining,
        {
            let ghost before = heap@;
            let index = remaining - 1;
            let script = self.unit.script_at(index, heap);
            proof {
                evolution_is_transitive(old(heap)@, before, heap@);
                if (AbcLoad { remaining, ..self }).done_above(before) {
                    done_is_stable(AbcLoad { remaining, ..self }, before, heap@);
                }
                if self.lazy_init && self.untouched(old(heap)@) {
                    assert(before.cached(self.unit, index as int) is None);
                    assert forall|other: int| 0 <= other < index implies (#[trigger] heap@.cached(
                        self.unit,
                        other,
                    )) is None by {
                        assert(before.cached(self.unit, other) is None);
                    }
                    assert forall|other: int| index <= other < self.remaining implies (
                    #[trigger] heap@.cached(self.unit, other)) == Some(
                        Script((old(heap)@.scripts.len() + self.remaining - 1 - other) as usize),
                    ) by {
                        if other > index {
                            assert(before.cached(self.unit, other) == Some(
                                Script(
                                    (old(heap)@.scripts.len() + self.remaining - 1 - other) as usize,
                                ),
                            ));
                        }
                    }
                }
            }
            remaining = index;
            if !self.lazy_init {
                let ghost made = heap@;
                let globals = script.globals(heap);
                proof {
                    evolution_is_transitive(old(heap)@, made, heap@);
                    if (AbcLoad { remaining: (index + 1) as u32, ..self }).done_above(made) {
                        done_is_stable(
                            AbcLoad { remaining: (index + 1) as u32, ..self },
                            made,
                            heap@,
                        );
                    }
                }
                if let Some(initializer) = globals.initializer {
                    return LoadStep::Initialize {
                        script,
                        initializer,
                        rest: AbcLoad { remaining, ..self },
                    };
                }
            }
        }
        LoadStep::Finished
    }

    /// Takes the outcome of the initializer that the load handed out last. A
    /// failure ends the load with that error and changes nothing more; after a
    /// success the load goes on.
    pub fn resume<'gc>(self, outcome: Result<Value<'gc>, Error>, heap: &mut Heap<'gc>) -> (result:
        Result<LoadStep<'gc>, Error>)
        requires
            old(heap)@.wf(),
            self.valid(old(heap)@),
        ensures
            match outcome {
                Err(error) => result == Err::<LoadStep<'gc>, Error>(error) && final(heap)@ == old(
                    heap,
                )@,
                Ok(_) => result matches Ok(step) && self.runs_on(old(heap)@, final(heap)@, step),
            },
            final(heap)@.wf(),
            old(heap)@.evolves_to(final(heap)@),
    {
        match outcome {
            Err(error) => {
                proof {
                    crate::heap::evolution_is_reflexive(heap@);
                }
                Err(error)
            },
            Ok(_) => Ok(self.advance(heap)),
        }
    }
}

/// What a load has dealt with stays dealt with, whatever is added to the heap
/// afterwards.
pub proof fn done_is_stable(load: AbcLoad, heap: HeapView, later: HeapView)
    requires
        heap.wf(),
        heap.has_unit(load.unit),
        load.done_above(heap),
        heap.evolves_to(later),
    ensures
        load.done_above(later),
{
    assert forall|index: int|
        load.remaining <= index < later.unit(load.unit).scripts.len() implies (
    #[trigger] later.cached(load.unit, index) matches Some(script) && (!load.lazy_init
        ==> later.script(script).initialized)) by {
        let script = heap.cached(load.unit, index).unwrap();
        assert(later.units[load.unit.0 as int].scripts[index] == heap.units[load.unit.0 as int].scripts[index]);
        assert(heap.has_script(script));
        assert(later.scripts[script.0 as int].unit == heap.scripts[script.0 as int].unit);
    }
}

/// Running a load on keeps the heap well formed and only adds to it. A
/// script whose initializer is handed out is marked as initialized, is the one
/// cached for its index, and leaves fewer scripts to come than there were.
pub proof fn advancing_extends_heap(heap: HeapView, unit: TranslationUnit, remaining: nat, lazy_init: bool)
    requires
        heap.wf(),
        heap.has_unit(unit),
        remaining <= heap.unit(unit).script_count(),
        remaining <= u32::MAX,
        heap.room_for(remaining),
    ensures
        advanced(heap, unit, remaining, lazy_init).heap.wf(),
        heap.evolves_to(advanced(heap, unit, remaining, lazy_init).heap),
        advanced(heap, unit, remaining, lazy_init).pending matches Some((script, left)) ==> {
            &&& !lazy_init
            &&& left < remaining
            &&& advanced(heap, unit, remaining, lazy_init).heap.has_script(script)
            &&& advanced(heap, unit, remaining, lazy_init).heap.script(script).initialized
            &&& advanced(heap, unit, remaining, lazy_init).heap.cached(unit, left as int) == Some(
                script,
            )
        },
    decreases remaining,
{
    if remaining > 0 {
        let index = remaining - 1;
        let (made, script) = loaded(heap, unit, index);
        loading_extends_heap(heap, unit, index);
        if lazy_init || made.script(script).initialized {
            advancing_extends_heap(made, unit, index as nat, lazy_init);
            evolution_is_transitive(heap, made, advanced(made, unit, index as nat, lazy_init).heap);
        } else {
            initializing_extends_heap(made, script);
            evolution_is_transitive(heap, made, initialized(made, script));
        }
    } else {
        crate::heap::evolution_is_reflexive(heap);
    }
}

/// A lazy load hands out no initializer and initializes nothing: it runs
/// through, every script of the load is made, no script that was there
/// changes its state, and every script that the load makes is left
/// uninitialized, until its globals are first asked for.
pub proof fn lazy_load_defers_initializers(heap: HeapView, unit: TranslationUnit, remaining: nat)
    requires
        heap.wf(),
        heap.has_unit(unit),
        remaining <= heap.unit(unit).script_count(),
        remaining <= u32::MAX,
        heap.room_for(remaining),
    ensures
        advanced(heap, unit, remaining, true).pending is None,
        forall|index: int|
            0 <= index < remaining ==> #[trigger] advanced(heap, unit, remaining, true).heap.cached(
                unit,
                index,
            ) is Some,
        forall|script: int|
            0 <= script < advanced(heap, unit, remaining, true).heap.scripts.len() ==> (
            #[trigger] advanced(heap, unit, remaining, true).heap.scripts[script]).initialized == (
            script < heap.scripts.len() && heap.scripts[script].initialized),
    decreases remaining,
{
    if remaining > 0 {
        let index = remaining - 1;
        let (made, script) = loaded(heap, unit, index);
        let end = advanced(made, unit, index as nat, true).heap;
        loading_extends_heap(heap, unit, index);
        lazy_load_defers_initializers(made, unit, index as nat);
        advancing_extends_heap(made, unit, index as nat, true);
        assert(end.units[unit.0 as int].scripts[index] == made.units[unit.0 as int].scripts[index]);
        assert forall|k: int| 0 <= k < end.scripts.len() implies (#[trigger] end.scripts[k]).initialized
            == (k < heap.scripts.len() && heap.scripts[k].initialized) by {
            if k < made.scripts.len() {
                if k < heap.scripts.len() {
                    assert(made.scripts[k] == heap.scripts[k]);
                }
            }
        }
    }
}

/// An eager load leaves every script of its container initialized: where all
/// scripts from `remaining` up have been dealt with, running the load on
/// deals with those down to where it stops, and with all of them when it
/// finishes.
pub proof fn eager_load_initializes_all(heap: HeapView, load: AbcLoad)
    requires
        heap.wf(),
        load.valid(heap),
        load.done_above(heap),
        heap.room_for(load.remaining as nat),
    ensures
        match advanced(heap, load.unit, load.remaining as nat, load.lazy_init).pending {
            None => (AbcLoad { remaining: 0, ..load }).done_above(
                advanced(heap, load.unit, load.remaining as nat, load.lazy_init).heap,
            ),
            Some((_, left)) => (AbcLoad { remaining: left as u32, ..load }).done_above(
                advanced(heap, load.unit, load.remaining as nat, load.lazy_init).heap,
            ),
        },
    decreases load.remaining,
{
    if load.remaining > 0 {
        let index = load.remaining - 1;
        let (made, script) = loaded(heap, load.unit, index);
        let next = AbcLoad { remaining: index as u32, ..load };
        loading_extends_heap(heap, load.unit, index);
        done_is_stable(load, heap, made);
        if load.lazy_init || made.script(script).initialized {
            assert(next.done_above(made));
            eager_load_initializes_all(made, next);
        } else {
            let marked = initialized(made, script);
            initializing_extends_heap(made, script);
            done_is_stable(load, made, marked);
            assert(next.done_above(marked));
        }
    }
}

/// Scripts are made from the highest index down: where none of the scripts
/// below `remaining` has been made yet, a lazy load makes exactly them, in
/// that order, so that of two of them the one with the higher index is the
/// earlier script of the heap.
pub proof fn scripts_are_made_highest_first(heap: HeapView, load: AbcLoad)
    requires
        heap.wf(),
        load.valid(heap),
        load.lazy_init,
        load.untouched(heap),
        heap.room_for(load.remaining as nat),
    ensures
        load.made_highest_first(
            advanced(heap, load.unit, load.remaining as nat, true).heap,
            heap.scripts.len(),
        ),
    decreases load.remaining,
{
    if load.remaining > 0 {
        let index = load.remaining - 1;
        let unit = load.unit;
        let (made, script) = loaded(heap, unit, index);
        let next = AbcLoad { remaining: index as u32, ..load };
        let end = advanced(made, unit, index as nat, true).heap;
        loading_extends_heap(heap, unit, index);
        assert(heap.cached(unit, index) is None);
        assert forall|other: int| 0 <= other < index implies (#[trigger] made.cached(unit, other))
            is None by {
            assert(heap.cached(unit, other) is None);
        }
        scripts_are_made_highest_first(made, next);
        advancing_extends_heap(made, unit, index as nat, true);
        assert(end.units[unit.0 as int].scripts[index] == made.units[unit.0 as int].scripts[index]);
        assert forall|other: int| 0 <= other < load.remaining implies (#[trigger] end.cached(
            unit,
            other,
        )) == Some(Script((heap.scripts.len() + load.remaining - 1 - other) as usize)) by {
            if other < index {
                assert(end.cached(unit, other) == Some(
                    Script((made.scripts.len() + next.remaining - 1 - other) as usize),
                ));
            }
        }
    }
}

} // verus!
