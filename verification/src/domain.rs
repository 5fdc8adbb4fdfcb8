//! Domains: namespaces of qualified names, with lookup delegated to the
//! parent.

use vstd::prelude::*;
use crate::heap::DomainView;
use crate::heap::Heap;
use crate::heap::HeapView;
use crate::script::Script;
use crate::text::Avm1String;

verus! {

/// A reference to a domain cell of the heap.
#[derive(Clone, Copy, Debug, PartialEq, Eq, Structural)]
pub struct Domain(pub usize);

/// A qualified name: a namespace and a local name.
#[derive(Clone, Copy)]
pub struct QName<'gc> {
    pub namespace: Avm1String<'gc>,
    pub name: Avm1String<'gc>,
}

impl<'gc> View for QName<'gc> {
    type V = (Seq<char>, Seq<char>);

    open spec fn view(&self) -> (Seq<char>, Seq<char>) {
        (self.namespace@, self.name@)
    }
}

/// The script that defines `name` as seen from `domain`: the domain's own
/// binding if it has one, else what its parent resolves the name to; `None`
/// where the chain ends without a binding.
pub open spec fn resolve(heap: HeapView, domain: Domain, name: (Seq<char>, Seq<char>)) -> Option<
    Script,
>
    decreases domain.0,
{
    if !heap.has_domain(domain) {
        None
    } else if heap.domain(domain).defs.contains_key(name) {
        Some(heap.domain(domain).defs[name])
    } else {
        match heap.domain(domain).parent {
            Some(parent) if parent.0 < domain.0 => resolve(heap, parent, name),
            _ => None,
        }
    }
}

impl Domain {
    /// `later` is `heap` with one more domain: a root that binds nothing.
    pub open spec fn made_root(heap: HeapView, later: HeapView) -> bool {
        later == (HeapView {
            domains: heap.domains.push(DomainView { defs: Map::empty(), parent: None }),
            ..heap
        })
    }

    /// Makes a root domain: one without a parent.
    pub fn global_domain(heap: &mut Heap) -> (domain: Domain)
        requires
            old(heap)@.wf(),
        ensures
            domain.0 == old(heap)@.domains.len(),
            Domain::made_root(old(heap)@, final(heap)@),
            final(heap)@.wf(),
            old(heap)@.evolves_to(final(heap)@),
    {
        heap.push_domain(None)
    }

    /// Makes a domain that falls back on `parent`.
    pub fn movie_domain(heap: &mut Heap, parent: Domain) -> (domain: Domain)
        requires
            old(heap)@.wf(),
            old(heap)@.has_domain(parent),
        ensures
            domain.0 == old(heap)@.domains.len(),
            final(heap)@ == (HeapView {
                domains: old(heap)@.domains.push(
                    DomainView { defs: Map::empty(), parent: Some(parent) },
                ),
                ..old(heap)@
            }),
            final(heap)@.wf(),
            old(heap)@.evolves_to(final(heap)@),
    {
        heap.push_domain(Some(parent))
    }

    /// The domain that lookups fall back on; `None` for a root.
    pub fn parent(self, heap: &Heap) -> (parent: Option<Domain>)
        requires
            heap@.has_domain(self),
        ensures
            parent == heap@.domain(self).parent,
    {
        heap.domain_parent(self)
    }

    /// Finds the script that defines `name`: local bindings first, then the
    /// parent's. `None` is the definite answer that the name is not defined.
    pub fn get_defining_script<'gc>(self, heap: &Heap<'gc>, name: &QName<'gc>) -> (script: Option<
        Script,
    >)
        requires
            heap@.wf(),
            heap@.has_domain(self),
        ensures
            script == resolve(heap@, self, name@),
            script matches Some(s) ==> heap@.has_script(s),
    {
        let mut current = self;
        loop
            invariant
                heap@.wf(),
                heap@.has_domain(current),
                resolve(heap@, self, name@) == resolve(heap@, current, name@),
            decreases current.0,
        {
            let local = heap.domain_local(current, name);
            if local.is_some() {
                return local;
            }
            match heap.domain_parent(current) {
                Some(parent) => {
                    current = parent;
                },
                None => {
                    return None;
                },
            }
        }
    }

    /// Whether `name` is defined as seen from this domain.
    pub fn has_definition<'gc>(self, heap: &Heap<'gc>, name: &QName<'gc>) -> (defined: bool)
        requires
            heap@.wf(),
            heap@.has_domain(self),
        ensures
            defined == resolve(heap@, self, name@).is_some(),
    {
        self.get_defining_script(heap, name).is_some()
    }

    /// Binds `name` to `script` in this domain itself. A binding that the
    /// domain already had for the name is replaced; the parent is not touched.
    pub fn export_definition<'gc>(self, heap: &mut Heap<'gc>, name: QName<'gc>, script: Script)
        requires
            old(heap)@.wf(),
            old(heap)@.has_domain(self),
            old(heap)@.has_script(script),
        ensures
            final(heap)@ == (HeapView {
                domains: old(heap)@.domains.update(
                    self.0 as int,
                    DomainView {
                        defs: old(heap)@.domain(self).defs.insert(name@, script),
                        parent: old(heap)@.domain(self).parent,
                    },
                ),
                ..old(heap)@
            }),
            final(heap)@.wf(),
            old(heap)@.evolves_to(final(heap)@),
            resolve(final(heap)@, self, name@) == Some(script),
    {
        heap.domain_bind(self, name, script);
    }
}

/// A domain's own binding wins over whatever its parent would answer.
pub proof fn local_binding_shadows_parent(heap: HeapView, domain: Domain, name: (Seq<char>, Seq<char>))
    requires
        heap.has_domain(domain),
        heap.domain(domain).defs.contains_key(name),
    ensures
        resolve(heap, domain, name) == Some(heap.domain(domain).defs[name]),
{
}

/// A name that a domain does not bind itself resolves as in its parent, and
/// in a root domain it is not found.
pub proof fn unbound_name_resolves_in_parent(heap: HeapView, domain: Domain, name: (Seq<char>, Seq<char>))
    requires
        heap.wf(),
        heap.has_domain(domain),
        !heap.domain(domain).defs.contains_key(name),
    ensures
        heap.domain(domain).parent matches Some(parent) ==> resolve(heap, domain, name) == resolve(
            heap,
            parent,
            name,
        ),
        heap.domain(domain).parent is None ==> resolve(heap, domain, name) is None,
{
}

} // verus!
