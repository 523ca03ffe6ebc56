//! The walk over the chunk that holds the CSS class mappings: an object of
//! modules by numeric identifier, each an object from class names to the
//! names that the classes have at run time.

use std::collections::HashMap;
use vstd::prelude::*;

use crate::assoc::StrMap;
use crate::syntax::{collect_outer_props, collect_outer_props_of_all};
use crate::syntax::{inner_props, outer_props_of_all, refs_view, Node, Script};
use crate::webpack::{ModuleId, ParseError};

verus! {

broadcast use vstd::std_specs::hash::group_hash_axioms;

/// The class mappings of one module: from class name to run-time name.
pub type ClassMappingMap = StrMap<String>;

/// The class mappings of every module, by module identifier.
pub type ClassModuleMap = HashMap<ModuleId, ClassMappingMap>;

/// The mapping that the property `prop` contributes: its key is an
/// identifier or a string literal, and its value a string literal.
pub open spec fn prop_class(prop: Node) -> Option<(Seq<char>, Seq<char>)> {
    match prop {
        Node::KeyValue { key, value } => match (*key, *value) {
            (Node::Ident(name), Node::Str(class)) => Some((name@, class@)),
            (Node::Str(name), Node::Str(class)) => Some((name@, class@)),
            _ => None,
        },
        _ => None,
    }
}

/// The mappings that the properties `props[..upto]` contribute; of two for
/// one class name, the later stays.
pub open spec fn class_mapping(props: Seq<Node>, upto: nat) -> Map<Seq<char>, Seq<char>>
    decreases upto,
{
    if upto == 0 || upto > props.len() {
        Map::empty()
    } else {
        let rest = class_mapping(props, (upto - 1) as nat);
        match prop_class(props[upto - 1]) {
            Some((name, class)) => rest.insert(name, class),
            None => rest,
        }
    }
}

/// The identifier of the module that the property `prop` opens: its numeric
/// key.
pub open spec fn prop_module(prop: Node) -> Option<ModuleId> {
    match prop {
        Node::KeyValue { key, .. } => match *key {
            Node::Num(id) => Some(id),
            _ => None,
        },
        _ => None,
    }
}

/// The modules that the properties `props[..upto]` open, each with the
/// mappings of the properties directly inside it; of two with one
/// identifier, the later stays.
pub open spec fn class_modules(props: Seq<Node>, upto: nat) -> Map<
    ModuleId,
    Map<Seq<char>, Seq<char>>,
>
    decreases upto,
{
    if upto == 0 || upto > props.len() {
        Map::empty()
    } else {
        let rest = class_modules(props, (upto - 1) as nat);
        let prop = props[upto - 1];
        match prop_module(prop) {
            Some(id) => rest.insert(id, class_mapping(inner_props(prop), inner_props(prop).len())),
            None => rest,
        }
    }
}

/// The class mappings of a script: the outermost `key: value` properties
/// with a numeric key are the modules; the properties directly inside a
/// module are its mappings; deeper properties are not read.
pub open spec fn script_classes(script: Script) -> Map<ModuleId, Map<Seq<char>, Seq<char>>> {
    let props = outer_props_of_all(script.body@, script.body@.len());
    class_modules(props, props.len())
}

/// What a map of modules holds: for each identifier the mappings as
/// mathematics.
pub open spec fn modules_model(modules: Map<ModuleId, ClassMappingMap>) -> Map<
    ModuleId,
    Map<Seq<char>, Seq<char>>,
> {
    Map::new(|id: ModuleId| modules.dom().contains(id), |id: ModuleId| modules[id].model())
}

/// The mappings of the properties directly inside the module `module`.
fn visit_class_mappings(module: &Node) -> (r: ClassMappingMap)
    ensures
        r.wf(),
        r.model() == class_mapping(inner_props(*module), inner_props(*module).len()),
{
    let mut props: Vec<&Node> = Vec::new();
    if let Node::KeyValue { key, value } = module {
        collect_outer_props(key, &mut props);
        collect_outer_props(value, &mut props);
    }
    assert(refs_view(props@) =~= inner_props(*module));
    let mut classes: ClassMappingMap = StrMap::new();
    let mut i: usize = 0;
    while i < props.len()
        invariant
            i <= props@.len(),
            classes.wf(),
            classes.model() == class_mapping(refs_view(props@), i as nat),
        decreases props@.len() - i,
    {
        assert(refs_view(props@)[i as int] == *props@[i as int]);
        if let Node::KeyValue { key, value } = props[i] {
            if let Node::Str(class) = &**value {
                match &**key {
                    Node::Ident(name) => classes.insert(name.clone(), class.clone()),
                    Node::Str(name) => classes.insert(name.clone(), class.clone()),
                    _ => {},
                }
            }
        }
        i += 1;
    }
    classes
}

/// Walks a chunk script that holds class name mappings.
pub fn walk_classes_chunk(script: &Script) -> (r: Result<ClassModuleMap, ParseError>)
    ensures
        r matches Ok(modules) && modules_model(modules@) == script_classes(*script) && forall|
            id: ModuleId,
        | modules@.dom().contains(id) ==> (#[trigger] modules@[id]).wf(),
{
    let mut props: Vec<&Node> = Vec::new();
    collect_outer_props_of_all(&script.body, &mut props);
    assert(refs_view(props@) =~= outer_props_of_all(script.body@, script.body@.len()));
    let mut modules: ClassModuleMap = HashMap::new();
    let mut i: usize = 0;
    assert(modules_model(modules@) =~= class_modules(refs_view(props@), 0));
    while i < props.len()
        invariant
            i <= props@.len(),
            modules_model(modules@) == class_modules(refs_view(props@), i as nat),
            forall|id: ModuleId| modules@.dom().contains(id) ==> (#[trigger] modules@[id]).wf(),
        decreases props@.len() - i,
    {
        assert(refs_view(props@)[i as int] == *props@[i as int]);
        let ghost before = modules@;
        if let Node::KeyValue { key, .. } = props[i] {
            if let Node::Num(id) = &**key {
                let classes = visit_class_mappings(props[i]);
                let ghost mapping = classes.model();
                modules.insert(*id, classes);
                assert(modules_model(modules@) =~= modules_model(before).insert(*id, mapping));
            }
        }
        i += 1;
    }
    Ok(modules)
}

/// Two walks of one script come to the same: the same modules, and for
/// each module the same mappings.
pub proof fn walks_agree(
    script: Script,
    first: Map<ModuleId, ClassMappingMap>,
    second: Map<ModuleId, ClassMappingMap>,
)
    requires
        modules_model(first) == script_classes(script),
        modules_model(second) == script_classes(script),
    ensures
        first.dom() == second.dom(),
        forall|id: ModuleId| #[trigger]
            first.dom().contains(id) ==> first[id].model() == second[id].model(),
{
    assert forall|id: ModuleId| first.dom().contains(id) == second.dom().contains(id) by {
        assert(modules_model(first).dom().contains(id) == first.dom().contains(id));
        assert(modules_model(second).dom().contains(id) == second.dom().contains(id));
    }
    assert(first.dom() =~= second.dom());
    assert forall|id: ModuleId| #[trigger] first.dom().contains(id) implies first[id].model()
        == second[id].model() by {
        assert(modules_model(first)[id] == first[id].model());
        assert(modules_model(second)[id] == second[id].model());
    }
}

} // verus!
