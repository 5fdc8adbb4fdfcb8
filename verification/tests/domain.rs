use avm2_core::domain::Domain;
use avm2_core::domain::QName;
use avm2_core::heap::Heap;
use avm2_core::script::Script;
use avm2_core::script::TranslationUnit;
use avm2_core::text::Avm1String;
use gc_arena::rootless_arena;
use std::rc::Rc;
use swf::avm2::types::AbcFile;
use swf::avm2::types::ConstantPool;
use swf::avm2::types::Index;

fn file_with_scripts(inits: &[u32]) -> Rc<AbcFile> {
    Rc::new(AbcFile {
        major_version: 46,
        minor_version: 16,
        constant_pool: ConstantPool {
            ints: Vec::new(),
            uints: Vec::new(),
            doubles: Vec::new(),
            strings: Vec::new(),
            namespaces: Vec::new(),
            namespace_sets: Vec::new(),
            multinames: Vec::new(),
        },
        methods: Vec::new(),
        metadata: Vec::new(),
        instances: Vec::new(),
        classes: Vec::new(),
        scripts: inits
            .iter()
            .map(|init| swf::avm2::types::Script { init_method: Index::new(*init), traits: Vec::new() })
            .collect(),
        method_bodies: Vec::new(),
    })
}

fn two_scripts(heap: &mut Heap, domain: Domain) -> (Script, Script) {
    let unit = TranslationUnit::from_abc(file_with_scripts(&[0, 1]), domain, heap);
    let first = unit.load_script(0, heap).unwrap();
    let second = unit.load_script(1, heap).unwrap();
    (first, second)
}

fn qname(namespace: &'static str, name: &'static str) -> QName<'static> {
    QName { namespace: Avm1String::from(namespace), name: Avm1String::from(name) }
}

#[test]
fn a_root_domain_has_no_parent() {
    let mut heap = Heap::new();
    let root = Domain::global_domain(&mut heap);
    assert_eq!(root, Domain(0));
    assert_eq!(root.parent(&heap), None);
}

#[test]
fn a_movie_domain_falls_back_on_its_parent() {
    let mut heap = Heap::new();
    let root = Domain::global_domain(&mut heap);
    let child = Domain::movie_domain(&mut heap, root);
    assert_eq!(child, Domain(1));
    assert_eq!(child.parent(&heap), Some(root));
}

#[test]
fn an_unknown_name_is_not_found() {
    let mut heap = Heap::new();
    let root = Domain::global_domain(&mut heap);
    let child = Domain::movie_domain(&mut heap, root);
    let name = qname("flash.display", "Sprite");
    assert_eq!(root.get_defining_script(&heap, &name), None);
    assert_eq!(child.get_defining_script(&heap, &name), None);
    assert!(!root.has_definition(&heap, &name));
    assert!(!child.has_definition(&heap, &name));
}

#[test]
fn an_exported_name_is_found_locally() {
    let mut heap = Heap::new();
    let root = Domain::global_domain(&mut heap);
    let (first, second) = two_scripts(&mut heap, root);
    root.export_definition(&mut heap, qname("", "A"), first);
    root.export_definition(&mut heap, qname("", "B"), second);
    assert_eq!(root.get_defining_script(&heap, &qname("", "A")), Some(first));
    assert_eq!(root.get_defining_script(&heap, &qname("", "B")), Some(second));
    assert_eq!(root.get_defining_script(&heap, &qname("", "C")), None);
    assert!(root.has_definition(&heap, &qname("", "A")));
}

#[test]
fn a_name_is_told_apart_by_its_namespace() {
    let mut heap = Heap::new();
    let root = Domain::global_domain(&mut heap);
    let (first, second) = two_scripts(&mut heap, root);
    root.export_definition(&mut heap, qname("a", "Name"), first);
    root.export_definition(&mut heap, qname("b", "Name"), second);
    assert_eq!(root.get_defining_script(&heap, &qname("a", "Name")), Some(first));
    assert_eq!(root.get_defining_script(&heap, &qname("b", "Name")), Some(second));
    assert_eq!(root.get_defining_script(&heap, &qname("c", "Name")), None);
    assert_eq!(root.get_defining_script(&heap, &qname("Name", "a")), None);
}

#[test]
fn lookup_falls_back_on_the_parent() {
    let mut heap = Heap::new();
    let root = Domain::global_domain(&mut heap);
    let child = Domain::movie_domain(&mut heap, root);
    let grandchild = Domain::movie_domain(&mut heap, child);
    let (first, _) = two_scripts(&mut heap, root);
    root.export_definition(&mut heap, qname("", "Object"), first);
    assert_eq!(child.get_defining_script(&heap, &qname("", "Object")), Some(first));
    assert_eq!(grandchild.get_defining_script(&heap, &qname("", "Object")), Some(first));
    assert!(grandchild.has_definition(&heap, &qname("", "Object")));
}

#[test]
fn a_parent_does_not_see_its_childs_names() {
    let mut heap = Heap::new();
    let root = Domain::global_domain(&mut heap);
    let child = Domain::movie_domain(&mut heap, root);
    let (first, _) = two_scripts(&mut heap, child);
    child.export_definition(&mut heap, qname("", "Main"), first);
    assert_eq!(child.get_defining_script(&heap, &qname("", "Main")), Some(first));
    assert_eq!(root.get_defining_script(&heap, &qname("", "Main")), None);
}

#[test]
fn a_local_binding_shadows_the_parents() {
    let mut heap = Heap::new();
    let root = Domain::global_domain(&mut heap);
    let child = Domain::movie_domain(&mut heap, root);
    let (first, second) = two_scripts(&mut heap, root);
    root.export_definition(&mut heap, qname("", "Shared"), first);
    child.export_definition(&mut heap, qname("", "Shared"), second);
    assert_eq!(child.get_defining_script(&heap, &qname("", "Shared")), Some(second));
    assert_eq!(root.get_defining_script(&heap, &qname("", "Shared")), Some(first));
}

#[test]
fn a_later_export_replaces_the_binding() {
    let mut heap = Heap::new();
    let root = Domain::global_domain(&mut heap);
    let (first, second) = two_scripts(&mut heap, root);
    root.export_definition(&mut heap, qname("", "X"), first);
    root.export_definition(&mut heap, qname("", "Y"), first);
    root.export_definition(&mut heap, qname("", "X"), second);
    assert_eq!(root.get_defining_script(&heap, &qname("", "X")), Some(second));
    assert_eq!(root.get_defining_script(&heap, &qname("", "Y")), Some(first));
}

#[test]
fn names_compare_by_characters_in_either_form() {
    rootless_arena(|mc| {
        let mut heap = Heap::new();
        let root = Domain::global_domain(&mut heap);
        let unit = TranslationUnit::from_abc(file_with_scripts(&[0]), root, &mut heap);
        let script = unit.load_script(0, &mut heap).unwrap();
        let owned = QName {
            namespace: Avm1String::new(mc, String::from("flash.events")),
            name: Avm1String::new(mc, String::from("Event")),
        };
        root.export_definition(&mut heap, owned, script);
        let fixed =
            QName { namespace: Avm1String::from("flash.events"), name: Avm1String::from("Event") };
        assert_eq!(root.get_defining_script(&heap, &fixed), Some(script));
        let other =
            QName { namespace: Avm1String::from("flash.events"), name: Avm1String::from("Even") };
        assert_eq!(root.get_defining_script(&heap, &other), None);
    });
}
