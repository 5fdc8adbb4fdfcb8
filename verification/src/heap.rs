//! The heap: an explicit arena of cells for objects, domains, translation
//! units and scripts. Cells are named by index handles, are never freed, and
//! every function that allocates or changes one takes the heap by `&mut`.

use vstd::prelude::*;
use std::rc::Rc;
use swf::avm2::types::AbcFile;
use crate::abc::abc_script_count;
use crate::abc::abc_script_init;
use crate::abc::abc_script_inits;
use crate::domain::Domain;
use crate::domain::QName;
use crate::method::Method;
use crate::object::Object;
use crate::script::Script;
use crate::script::TranslationUnit;

verus! {

/// What an object cell holds: its prototype, and its call capability if it has
/// one.
#[derive(Clone, Copy)]
pub struct ObjectData {
    pub proto: Option<Object>,
    pub callable: Option<Method>,
}

/// What a script cell holds.
#[derive(Clone, Copy)]
pub struct ScriptData {
    /// The unit the script was drawn from, and its index there.
    pub unit: TranslationUnit,
    pub index: u32,
    /// The script's global object.
    pub globals: Object,
    /// The initializer.
    pub init: Method,
    /// Set when the initializer has been handed out to run.
    pub initialized: bool,
}

struct DomainCell<'gc> {
    defs: Vec<(QName<'gc>, Script)>,
    parent: Option<Domain>,
}

struct UnitCell {
    abc: Rc<AbcFile>,
    domain: Domain,
    scripts: Vec<Option<Script>>,
}

/// The arena.
pub struct Heap<'gc> {
    objects: Vec<ObjectData>,
    domains: Vec<DomainCell<'gc>>,
    units: Vec<UnitCell>,
    scripts: Vec<ScriptData>,
}

/// A domain as contracts see it: the names it binds itself, and its parent.
pub struct DomainView {
    pub defs: Map<(Seq<char>, Seq<char>), Script>,
    pub parent: Option<Domain>,
}

/// A translation unit as contracts see it: the parsed file, the domain it
/// installs into, and for each script index the script made for it, if any.
pub struct UnitView {
    pub abc: AbcFile,
    pub domain: Domain,
    pub scripts: Seq<Option<Script>>,
}

/// The heap as contracts see it. A handle's index is its place in the
/// sequence of its kind.
pub struct HeapView {
    pub objects: Seq<ObjectData>,
    pub domains: Seq<DomainView>,
    pub units: Seq<UnitView>,
    pub scripts: Seq<ScriptData>,
}

/// The bindings that a list of definitions amounts to: a later definition of
/// a name replaces an earlier one.
pub open spec fn bindings(defs: Seq<(QName, Script)>) -> Map<(Seq<char>, Seq<char>), Script>
    decreases defs.len(),
{
    if defs.len() == 0 {
        Map::empty()
    } else {
        bindings(defs.drop_last()).insert(defs.last().0@, defs.last().1)
    }
}

impl UnitView {
    /// The number of scripts in the unit's container.
    pub open spec fn script_count(self) -> nat {
        abc_script_inits(self.abc).len()
    }
}

impl HeapView {
    /// The heap without cells.
    pub open spec fn empty() -> HeapView {
        HeapView { objects: Seq::empty(), domains: Seq::empty(), units: Seq::empty(), scripts: Seq::empty() }
    }

    /// Whether the handle names an object of this heap. The same for the
    /// other kinds of cell.
    pub open spec fn has_object(self, object: Object) -> bool {
        object.0 < self.objects.len()
    }

    pub open spec fn has_domain(self, domain: Domain) -> bool {
        domain.0 < self.domains.len()
    }

    pub open spec fn has_unit(self, unit: TranslationUnit) -> bool {
        unit.0 < self.units.len()
    }

    pub open spec fn has_script(self, script: Script) -> bool {
        script.0 < self.scripts.len()
    }

    /// The cell that the handle names. The same for the other kinds of cell.
    pub open spec fn object(self, object: Object) -> ObjectData {
        self.objects[object.0 as int]
    }

    pub open spec fn domain(self, domain: Domain) -> DomainView {
        self.domains[domain.0 as int]
    }

    pub open spec fn unit(self, unit: TranslationUnit) -> UnitView {
        self.units[unit.0 as int]
    }

    pub open spec fn script(self, script: Script) -> ScriptData {
        self.scripts[script.0 as int]
    }

    /// The script cached by `unit` for `index`, if one has been made.
    pub open spec fn cached(self, unit: TranslationUnit, index: int) -> Option<Script> {
        self.unit(unit).scripts[index]
    }

    /// There is room for `more` further objects and as many scripts: handles
    /// are machine words.
    pub open spec fn room_for(self, more: nat) -> bool {
        &&& self.objects.len() + more <= usize::MAX
        &&& self.scripts.len() + more <= usize::MAX
    }

    /// An object's prototype is an object of this heap.
    pub open spec fn objects_wf(self) -> bool {
        forall|i: int|
            0 <= i < self.objects.len() ==> (#[trigger] self.objects[i].proto matches Some(p)
                ==> self.has_object(p))
    }

    /// A domain's parent was made before the domain, and the scripts that a
    /// domain binds names to are scripts of this heap.
    pub open spec fn domains_wf(self) -> bool {
        forall|i: int|
            0 <= i < self.domains.len() ==> {
                &&& (#[trigger] self.domains[i]).parent matches Some(p) ==> p.0 < i
                &&& forall|name: (Seq<char>, Seq<char>)| #[trigger]
                    self.domains[i].defs.contains_key(name) ==> self.has_script(
                        self.domains[i].defs[name],
                    )
            }
    }

    /// A unit's domain is of this heap; its cache has one slot for each script
    /// of its container; and a cached script is a script of this heap that
    /// was drawn from this unit for this index.
    pub open spec fn units_wf(self) -> bool {
        forall|i: int|
            0 <= i < self.units.len() ==> {
                &&& self.has_domain((#[trigger] self.units[i]).domain)
                &&& self.units[i].scripts.len() == self.units[i].script_count()
                &&& forall|k: int|
                    0 <= k < self.units[i].scripts.len() ==> (
                    #[trigger] self.units[i].scripts[k] matches Some(s) ==> {
                        &&& self.has_script(s)
                        &&& self.script(s).unit.0 == i
                        &&& self.script(s).index == k
                    })
            }
    }

    /// A script's unit is of this heap and caches the script for its index,
    /// and its global object is of this heap.
    pub open spec fn scripts_wf(self) -> bool {
        forall|i: int|
            0 <= i < self.scripts.len() ==> {
                &&& self.has_unit((#[trigger] self.scripts[i]).unit)
                &&& self.scripts[i].index < self.unit(self.scripts[i].unit).scripts.len()
                &&& self.cached(self.scripts[i].unit, self.scripts[i].index as int) == Some(
                    Script(i as usize),
                )
                &&& self.has_object(self.scripts[i].globals)
            }
    }

    /// Every handle held in a cell names a cell of this heap; a domain's
    /// parent was made before the domain; a unit caches one slot per script of
    /// its container; and a unit's cache and its scripts agree on which script
    /// stands for which index.
    pub open spec fn wf(self) -> bool {
        &&& self.objects_wf()
        &&& self.domains_wf()
        &&& self.units_wf()
        &&& self.scripts_wf()
    }

    /// How a heap may look later: cells are added and never removed; an
    /// object, a domain's parent, a unit's file and domain, and a script's
    /// unit, index, global object and initializer stay as they were made; a
    /// bound name stays bound; a cached script stays cached; and an
    /// initialized script stays initialized.
    pub open spec fn evolves_to(self, later: HeapView) -> bool {
        &&& self.objects.len() <= later.objects.len()
        &&& forall|i: int| 0 <= i < self.objects.len() ==> #[trigger] later.objects[i] == self.objects[i]
        &&& self.domains.len() <= later.domains.len()
        &&& forall|i: int|
            0 <= i < self.domains.len() ==> {
                &&& (#[trigger] later.domains[i]).parent == self.domains[i].parent
                &&& self.domains[i].defs.dom().subset_of(later.domains[i].defs.dom())
            }
        &&& self.units.len() <= later.units.len()
        &&& forall|i: int|
            0 <= i < self.units.len() ==> {
                &&& (#[trigger] later.units[i]).abc == self.units[i].abc
                &&& later.units[i].domain == self.units[i].domain
                &&& later.units[i].scripts.len() == self.units[i].scripts.len()
                &&& forall|k: int|
                    0 <= k < self.units[i].scripts.len() && self.units[i].scripts[k] is Some
                        ==> #[trigger] later.units[i].scripts[k] == self.units[i].scripts[k]
            }
        &&& self.scripts.len() <= later.scripts.len()
        &&& forall|i: int|
            0 <= i < self.scripts.len() ==> {
                &&& (#[trigger] later.scripts[i]).unit == self.scripts[i].unit
                &&& later.scripts[i].index == self.scripts[i].index
                &&& later.scripts[i].globals == self.scripts[i].globals
                &&& later.scripts[i].init == self.scripts[i].init
                &&& self.scripts[i].initialized ==> later.scripts[i].initialized
            }
    }
}

/// A heap evolves to itself.
pub proof fn evolution_is_reflexive(heap: HeapView)
    ensures
        heap.evolves_to(heap),
{
}

/// What a heap evolves to, and that to a third, the first evolves to.
pub proof fn evolution_is_transitive(first: HeapView, second: HeapView, third: HeapView)
    requires
        first.evolves_to(second),
        second.evolves_to(third),
    ensures
        first.evolves_to(third),
{
    assert forall|i: int| 0 <= i < first.units.len() implies {
        &&& (#[trigger] third.units[i]).abc == first.units[i].abc
        &&& third.units[i].domain == first.units[i].domain
        &&& third.units[i].scripts.len() == first.units[i].scripts.len()
        &&& forall|k: int|
            0 <= k < first.units[i].scripts.len() && first.units[i].scripts[k] is Some
                ==> #[trigger] third.units[i].scripts[k] == first.units[i].scripts[k]
    } by {
        assert(second.units[i].abc == first.units[i].abc);
        assert forall|k: int|
            0 <= k < first.units[i].scripts.len()
                && first.units[i].scripts[k] is Some implies #[trigger] third.units[i].scripts[k]
            == first.units[i].scripts[k] by {
            assert(second.units[i].scripts[k] == first.units[i].scripts[k]);
        }
    }
    assert forall|i: int| 0 <= i < first.domains.len() implies {
        &&& (#[trigger] third.domains[i]).parent == first.domains[i].parent
        &&& first.domains[i].defs.dom().subset_of(third.domains[i].defs.dom())
    } by {
        assert(second.domains[i].parent == first.domains[i].parent);
    }
    assert forall|i: int| 0 <= i < first.objects.len() implies #[trigger] third.objects[i]
        == first.objects[i] by {
        assert(second.objects[i] == first.objects[i]);
    }
    assert forall|i: int| 0 <= i < first.scripts.len() implies {
        &&& (#[trigger] third.scripts[i]).unit == first.scripts[i].unit
        &&& third.scripts[i].index == first.scripts[i].index
        &&& third.scripts[i].globals == first.scripts[i].globals
        &&& third.scripts[i].init == first.scripts[i].init
        &&& first.scripts[i].initialized ==> third.scripts[i].initialized
    } by {
        assert(second.scripts[i].unit == first.scripts[i].unit);
    }
}

impl<'gc> DomainCell<'gc> {
    spec fn view(&self) -> DomainView {
        DomainView { defs: bindings(self.defs@), parent: self.parent }
    }
}

impl UnitCell {
    spec fn view(&self) -> UnitView {
        UnitView { abc: *self.abc, domain: self.domain, scripts: self.scripts@ }
    }
}

impl<'gc> View for Heap<'gc> {
    type V = HeapView;

    closed spec fn view(&self) -> HeapView {
        HeapView {
            objects: self.objects@,
            domains: Seq::new(self.domains@.len(), |i: int| self.domains@[i].view()),
            units: Seq::new(self.units@.len(), |i: int| self.units@[i].view()),
            scripts: self.scripts@,
        }
    }
}

impl<'gc> Heap<'gc> {
    /// A heap with no cells.
    pub fn new() -> (heap: Self)
        ensures
            heap@ == HeapView::empty(),
            heap@.wf(),
    {
        let heap = Heap { objects: Vec::new(), domains: Vec::new(), units: Vec::new(), scripts: Vec::new() };
        assert(heap@.domains =~= Seq::empty());
        assert(heap@.units =~= Seq::empty());
        heap
    }

    /// Whether `object` names a cell of this heap.
    pub fn has_object(&self, object: Object) -> (held: bool)
        ensures
            held == self@.has_object(object),
    {
        object.0 < self.objects.len()
    }

    /// Whether `domain` names a cell of this heap.
    pub fn has_domain(&self, domain: Domain) -> (held: bool)
        ensures
            held == self@.has_domain(domain),
    {
        domain.0 < self.domains.len()
    }

    /// Whether `unit` names a cell of this heap.
    pub fn has_unit(&self, unit: TranslationUnit) -> (held: bool)
        ensures
            held == self@.has_unit(unit),
    {
        unit.0 < self.units.len()
    }

    /// Whether `script` names a cell of this heap.
    pub fn has_script(&self, script: Script) -> (held: bool)
        ensures
            held == self@.has_script(script),
    {
        script.0 < self.scripts.len()
    }

    /// The number of script cells. Scripts are numbered in the order in which
    /// they were made.
    pub fn script_count(&self) -> (count: usize)
        ensures
            count == self@.scripts.len(),
    {
        self.scripts.len()
    }

    pub(crate) fn push_object(&mut self, data: ObjectData) -> (object: Object)
        ensures
            object.0 == old(self)@.objects.len(),
            final(self)@ == (HeapView { objects: old(self)@.objects.push(data), ..old(self)@ }),
    {
        let object = Object(self.objects.len());
        self.objects.push(data);
        assert(self@.domains =~= old(self)@.domains);
        assert(self@.units =~= old(self)@.units);
        object
    }

    pub(crate) fn object_data(&self, object: Object) -> (data: ObjectData)
        requires
            self@.has_object(object),
        ensures
            data == self@.object(object),
    {
        self.objects[object.0]
    }

    pub(crate) fn push_domain(&mut self, parent: Option<Domain>) -> (domain: Domain)
        ensures
            domain.0 == old(self)@.domains.len(),
            final(self)@ == (HeapView {
                domains: old(self)@.domains.push(DomainView { defs: Map::empty(), parent }),
                ..old(self)@
            }),
    {
        let domain = Domain(self.domains.len());
        self.domains.push(DomainCell { defs: Vec::new(), parent });
        assert(self@.domains =~= old(self)@.domains.push(DomainView { defs: Map::empty(), parent }));
        assert(self@.units =~= old(self)@.units);
        domain
    }

    pub(crate) fn domain_parent(&self, domain: Domain) -> (parent: Option<Domain>)
        requires
            self@.has_domain(domain),
        ensures
            parent == self@.domain(domain).parent,
    {
        self.domains[domain.0].parent
    }

    /// The script that `domain` itself binds `name` to, if it binds it.
    pub(crate) fn domain_local(&self, domain: Domain, name: &QName<'gc>) -> (found: Option<Script>)
        requires
            self@.has_domain(domain),
        ensures
            found == if self@.domain(domain).defs.contains_key(name@) {
                Some(self@.domain(domain).defs[name@])
            } else {
                None
            },
    {
        let defs = &self.domains[domain.0].defs;
        let mut i: usize = defs.len();
        assert(defs@.take(i as int) =~= defs@);
        while i > 0
            invariant
                i <= defs@.len(),
                self@.has_domain(domain),
                *defs == self.domains@[domain.0 as int].defs,
                bindings(defs@).contains_key(name@) == bindings(defs@.take(i as int)).contains_key(
                    name@,
                ),
                bindings(defs@).contains_key(name@) ==> bindings(defs@)[name@] == bindings(
                    defs@.take(i as int),
                )[name@],
            decreases i,
        {
            i = i - 1;
            let entry = &defs[i];
            proof {
                assert(defs@.take(i + 1).drop_last() =~= defs@.take(i as int));
                assert(defs@.take(i + 1).last() == defs@[i as int]);
            }
            if entry.0.namespace == name.namespace && entry.0.name == name.name {
                assert(entry.0@ == name@);
                return Some(entry.1);
            }
        }
        assert(defs@.take(0) =~= Seq::empty());
        None
    }

    pub(crate) fn domain_bind(&mut self, domain: Domain, name: QName<'gc>, script: Script)
        requires
            old(self)@.has_domain(domain),
        ensures
            final(self)@ == (HeapView {
                domains: old(self)@.domains.update(
                    domain.0 as int,
                    DomainView {
                        defs: old(self)@.domain(domain).defs.insert(name@, script),
                        parent: old(self)@.domain(domain).parent,
                    },
                ),
                ..old(self)@
            }),
    {
        self.domains[domain.0].defs.push((name, script));
        proof {
            let before = old(self).domains@[domain.0 as int].defs@;
            let after = self.domains@[domain.0 as int].defs@;
            assert(after.drop_last() =~= before);
            assert(self@.domains =~= old(self)@.domains.update(
                domain.0 as int,
                DomainView {
                    defs: old(self)@.domain(domain).defs.insert(name@, script),
                    parent: old(self)@.domain(domain).parent,
                },
            ));
            assert(self@.units =~= old(self)@.units);
        }
    }

    pub(crate) fn push_unit(&mut self, abc: Rc<AbcFile>, domain: Domain) -> (unit: TranslationUnit)
        ensures
            unit.0 == old(self)@.units.len(),
            final(self)@ == (HeapView {
                units: old(self)@.units.push(
                    UnitView {
                        abc: *abc,
                        domain,
                        scripts: Seq::new(abc_script_inits(*abc).len(), |k: int| None),
                    },
                ),
                ..old(self)@
            }),
    {
        let count = abc_script_count(&abc);
        let mut scripts: Vec<Option<Script>> = Vec::new();
        while scripts.len() < count
            invariant
                scripts@.len() <= count,
                forall|k: int| 0 <= k < scripts@.len() ==> scripts@[k] is None,
            decreases count - scripts@.len(),
        {
            scripts.push(None);
        }
        let unit = TranslationUnit(self.units.len());
        let ghost slots = scripts@;
        self.units.push(UnitCell { abc, domain, scripts });
        proof {
            assert(slots =~= Seq::new(abc_script_inits(*abc).len(), |k: int| None));
            assert(self@.units =~= old(self)@.units.push(
                UnitView {
                    abc: *abc,
                    domain,
                    scripts: Seq::new(abc_script_inits(*abc).len(), |k: int| None),
                },
            ));
            assert(self@.domains =~= old(self)@.domains);
        }
        unit
    }

    pub(crate) fn unit_domain(&self, unit: TranslationUnit) -> (domain: Domain)
        requires
            self@.has_unit(unit),
        ensures
            domain == self@.unit(unit).domain,
    {
        self.units[unit.0].domain
    }

    pub(crate) fn unit_file(&self, unit: TranslationUnit) -> (abc: &Rc<AbcFile>)
        requires
            self@.has_unit(unit),
        ensures
            **abc == self@.unit(unit).abc,
    {
        &self.units[unit.0].abc
    }

    pub(crate) fn unit_slots(&self, unit: TranslationUnit) -> (count: usize)
        requires
            self@.has_unit(unit),
        ensures
            count == self@.unit(unit).scripts.len(),
    {
        self.units[unit.0].scripts.len()
    }

    pub(crate) fn unit_init_method(&self, unit: TranslationUnit, index: usize) -> (method: u32)
        requires
            self@.has_unit(unit),
            index < self@.unit(unit).script_count(),
        ensures
            method == abc_script_inits(self@.unit(unit).abc)[index as int],
    {
        abc_script_init(&self.units[unit.0].abc, index)
    }

    pub(crate) fn unit_cached(&self, unit: TranslationUnit, index: usize) -> (script: Option<Script>)
        requires
            self@.has_unit(unit),
            index < self@.unit(unit).scripts.len(),
        ensures
            script == self@.cached(unit, index as int),
    {
        self.units[unit.0].scripts[index]
    }

    pub(crate) fn unit_cache(&mut self, unit: TranslationUnit, index: usize, script: Script)
        requires
            old(self)@.has_unit(unit),
            index < old(self)@.unit(unit).scripts.len(),
        ensures
            final(self)@ == (HeapView {
                units: old(self)@.units.update(
                    unit.0 as int,
                    UnitView {
                        scripts: old(self)@.unit(unit).scripts.update(index as int, Some(script)),
                        ..old(self)@.unit(unit)
                    },
                ),
                ..old(self)@
            }),
    {
        self.units[unit.0].scripts[index] = Some(script);
        proof {
            assert(self@.units =~= old(self)@.units.update(
                unit.0 as int,
                UnitView {
                    scripts: old(self)@.unit(unit).scripts.update(index as int, Some(script)),
                    ..old(self)@.unit(unit)
                },
            ));
            assert(self@.domains =~= old(self)@.domains);
        }
    }

    pub(crate) fn push_script(&mut self, data: ScriptData) -> (script: Script)
        ensures
            script.0 == old(self)@.scripts.len(),
            final(self)@ == (HeapView { scripts: old(self)@.scripts.push(data), ..old(self)@ }),
    {
        let script = Script(self.scripts.len());
        self.scripts.push(data);
        assert(self@.domains =~= old(self)@.domains);
        assert(self@.units =~= old(self)@.units);
        script
    }

    pub(crate) fn script_data(&self, script: Script) -> (data: ScriptData)
        requires
            self@.has_script(script),
        ensures
            data == self@.script(script),
    {
        self.scripts[script.0]
    }

    pub(crate) fn script_mark_initialized(&mut self, script: Script)
        requires
            old(self)@.has_script(script),
        ensures
            final(self)@ == (HeapView {
                scripts: old(self)@.scripts.update(
                    script.0 as int,
                    ScriptData { initialized: true, ..old(self)@.script(script) },
                ),
                ..old(self)@
            }),
    {
        self.scripts[script.0].initialized = true;
        proof {
            assert(self@.scripts =~= old(self)@.scripts.update(
                script.0 as int,
                ScriptData { initialized: true, ..old(self)@.script(script) },
            ));
            assert(self@.domains =~= old(self)@.domains);
            assert(self@.units =~= old(self)@.units);
        }
    }
}

} // verus!
