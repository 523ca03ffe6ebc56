use havoc::classes::walk_classes_chunk;
use havoc::syntax::{Node, Script, Span};
use havoc::webpack::{
    module_source, parse_webpack_chunk, source_range, walk_module_listing, walk_webpack_chunk,
    FunctionLike, ParseError, WebpackModule,
};

const ARRAY_CHUNK: &str =
    "w.push([[1],[function(a,b,c){return 1},,function(a,b,c){return 2}],[0]]);";

const CLASSES_CHUNK: &str =
    "w.push([[7],[function(a,b,c){b.exports={1234:{ok:\"class_ok_ab12\",nope:123}}}]]);";

fn span_of(source: &str, text: &str) -> Span {
    let at = source.find(text).unwrap();
    Span { lo: at as u32 + 1, hi: (at + text.len()) as u32 + 1 }
}

fn other(children: Vec<Node>) -> Node {
    Node::Other(children)
}

fn key_value(key: Node, value: Node) -> Node {
    Node::KeyValue { key: Box::new(key), value: Box::new(value) }
}

fn ident(name: &str) -> Node {
    Node::Ident(name.to_owned())
}

fn string(value: &str) -> Node {
    Node::Str(value.to_owned())
}

fn function(span: Span, children: Vec<Node>) -> Node {
    Node::Function { span, children }
}

fn push_call(chunk: Vec<Node>) -> Script {
    let callee = other(vec![other(vec![]), other(vec![])]);
    let call = Node::Call { callee: Box::new(callee), args: vec![Node::Array(chunk)] };
    Script { body: vec![Node::ExprStmt(Box::new(call))] }
}

fn array_chunk() -> Script {
    let first = span_of(ARRAY_CHUNK, "function(a,b,c){return 1}");
    let second = span_of(ARRAY_CHUNK, "function(a,b,c){return 2}");
    push_call(vec![
        Node::Array(vec![Node::Num(1)]),
        Node::Array(vec![
            function(first, vec![other(vec![Node::Num(1)])]),
            Node::Hole,
            function(second, vec![other(vec![Node::Num(2)])]),
        ]),
        Node::Array(vec![Node::Num(0)]),
    ])
}

fn classes_chunk() -> Script {
    let body = span_of(CLASSES_CHUNK, "function(a,b,c){b.exports={1234:{ok:\"class_ok_ab12\",nope:123}}}");
    let mappings = Node::Object(vec![
        key_value(ident("ok"), string("class_ok_ab12")),
        key_value(ident("nope"), Node::Num(123)),
    ]);
    let modules = Node::Object(vec![key_value(Node::Num(1234), mappings)]);
    let assignment = other(vec![other(vec![other(vec![]), other(vec![])]), modules]);
    push_call(vec![
        Node::Array(vec![Node::Num(7)]),
        Node::Array(vec![function(body, vec![other(vec![Node::ExprStmt(Box::new(assignment))])])]),
    ])
}

#[test]
fn webpack_walk_over_array_listing() {
    let chunk = walk_webpack_chunk(&array_chunk()).unwrap();
    assert_eq!(chunk.modules.len(), 2);
    assert!(chunk.modules.contains_key(&0));
    assert!(!chunk.modules.contains_key(&1));
    assert!(chunk.modules.contains_key(&2));
    assert!(chunk.chunks.is_empty());
    assert!(chunk.entrypoints.is_empty());
    let first = chunk.modules[&0];
    let second = chunk.modules[&2];
    assert_eq!(first.id, 0);
    assert_eq!(second.id, 2);
    assert_eq!(module_source(ARRAY_CHUNK, &first), Some("function(a,b,c){return 1}"));
    assert_eq!(module_source(ARRAY_CHUNK, &second), Some("function(a,b,c){return 2}"));
}

#[test]
fn module_texts_are_cut_out_of_the_source() {
    let texts = parse_webpack_chunk(ARRAY_CHUNK, &array_chunk()).unwrap();
    assert_eq!(texts.len(), 2);
    assert_eq!(texts[&0], "function(a,b,c){return 1}");
    assert_eq!(texts[&2], "function(a,b,c){return 2}");
    assert_eq!(
        parse_webpack_chunk("short", &array_chunk()),
        Err(ParseError::MissingNode("module source"))
    );
    assert_eq!(
        parse_webpack_chunk(ARRAY_CHUNK, &Script { body: vec![] }),
        Err(ParseError::MissingNode("failed to walk ast"))
    );
    assert_eq!(
        parse_webpack_chunk(ARRAY_CHUNK, &Script { body: vec![other(vec![])] }),
        Err(ParseError::MissingNode("failed to walk ast"))
    );
}

#[test]
fn object_listing_takes_numeric_keys_and_function_likes() {
    let a = Span { lo: 1, hi: 5 };
    let b = Span { lo: 6, hi: 9 };
    let c = Span { lo: 10, hi: 12 };
    let listing = Node::Object(vec![
        key_value(Node::Num(10), function(a, vec![])),
        key_value(Node::Num(11), string("not a function")),
        key_value(ident("named"), function(b, vec![])),
        other(vec![function(b, vec![])]),
        key_value(Node::Num(12), Node::Arrow { span: b, children: vec![] }),
        key_value(Node::Num(10), Node::Arrow { span: c, children: vec![] }),
    ]);
    assert_eq!(
        walk_module_listing(&listing),
        Some(vec![
            (10, FunctionLike::Function(a)),
            (12, FunctionLike::Arrow(b)),
            (10, FunctionLike::Arrow(c)),
        ])
    );
    let chunk = walk_webpack_chunk(&push_call(vec![Node::Array(vec![]), listing])).unwrap();
    assert_eq!(chunk.modules.len(), 2);
    assert_eq!(chunk.modules[&10], WebpackModule { id: 10, func: FunctionLike::Arrow(c) });
    assert_eq!(chunk.modules[&12], WebpackModule { id: 12, func: FunctionLike::Arrow(b) });
}

#[test]
fn array_listing_passes_over_what_is_no_function() {
    let a = Span { lo: 1, hi: 2 };
    let listing = Node::Array(vec![
        string("x"),
        Node::Hole,
        Node::Arrow { span: a, children: vec![] },
        other(vec![function(a, vec![])]),
        function(a, vec![]),
    ]);
    assert_eq!(
        walk_module_listing(&listing),
        Some(vec![(2, FunctionLike::Arrow(a)), (4, FunctionLike::Function(a))])
    );
    assert_eq!(walk_module_listing(&Node::Array(vec![])), Some(vec![]));
    assert_eq!(walk_module_listing(&string("x")), None);
    assert_eq!(walk_module_listing(&Node::Hole), None);
}

#[test]
fn a_script_of_another_shape_is_refused() {
    let missing_body = Script { body: vec![] };
    assert_eq!(
        walk_webpack_chunk(&missing_body).err(),
        Some(ParseError::MissingNode("failed to walk ast"))
    );
    let shapes = vec![
        Script { body: vec![other(vec![])] },
        Script { body: vec![Node::ExprStmt(Box::new(string("use strict")))] },
        Script {
            body: vec![Node::ExprStmt(Box::new(Node::Call {
                callee: Box::new(other(vec![])),
                args: vec![],
            }))],
        },
        Script {
            body: vec![Node::ExprStmt(Box::new(Node::Call {
                callee: Box::new(other(vec![])),
                args: vec![string("x")],
            }))],
        },
        push_call(vec![]),
        push_call(vec![Node::Array(vec![])]),
        push_call(vec![Node::Hole, Node::Array(vec![])]),
        push_call(vec![Node::Array(vec![]), Node::Hole]),
        push_call(vec![Node::Array(vec![]), string("listing")]),
    ];
    for script in &shapes {
        assert_eq!(
            walk_webpack_chunk(script).err(),
            Some(ParseError::MissingNode("failed to walk ast"))
        );
    }
    let later = Script { body: vec![other(vec![]), Node::ExprStmt(Box::new(other(vec![])))] };
    assert_eq!(walk_webpack_chunk(&later).err(), Some(ParseError::MissingNode("failed to walk ast")));
}

#[test]
fn spans_count_from_one() {
    assert_eq!(source_range(Span { lo: 1, hi: 1 }), Some((0, 0)));
    assert_eq!(source_range(Span { lo: 14, hi: 39 }), Some((13, 38)));
    assert_eq!(source_range(Span { lo: 0, hi: 5 }), None);
    assert_eq!(source_range(Span { lo: 6, hi: 5 }), None);
    let module =
        |lo: u32, hi: u32| WebpackModule { id: 0, func: FunctionLike::Function(Span { lo, hi }) };
    assert_eq!(module_source("abcdef", &module(2, 4)), Some("bc"));
    assert_eq!(module_source("abcdef", &module(1, 7)), Some("abcdef"));
    assert_eq!(module_source("abcdef", &module(7, 7)), Some(""));
    assert_eq!(module_source("abcdef", &module(1, 8)), None);
    assert_eq!(module_source("abcdef", &module(0, 3)), None);
    assert_eq!(module_source("a\u{e9}b", &module(2, 4)), Some("\u{e9}"));
    assert_eq!(module_source("a\u{e9}b", &module(2, 3)), None);
    assert_eq!(module_source("a\u{e9}b", &module(3, 4)), None);
    assert_eq!(FunctionLike::Arrow(Span { lo: 3, hi: 9 }).span(), Span { lo: 3, hi: 9 });
    assert_eq!(FunctionLike::try_from(&Node::Hole), Err(()));
}

#[test]
fn classes_walk() {
    let modules = walk_classes_chunk(&classes_chunk()).unwrap();
    assert_eq!(modules.len(), 1);
    let mapping = &modules[&1234];
    assert_eq!(mapping.len(), 1);
    assert_eq!(mapping.get("ok"), Some(&"class_ok_ab12".to_owned()));
    assert_eq!(mapping.get("nope"), None);
}

#[test]
fn classes_walk_is_the_same_each_time() {
    let script = classes_chunk();
    let once = walk_classes_chunk(&script).unwrap();
    let again = walk_classes_chunk(&script).unwrap();
    assert_eq!(once.len(), again.len());
    for (id, mapping) in &once {
        let other = &again[id];
        assert_eq!(mapping.len(), other.len());
        for i in 0..mapping.len() {
            assert_eq!(mapping.entry(i), other.entry(i));
        }
    }
}

#[test]
fn deeper_keys_open_no_modules_and_give_no_classes() {
    let deep = Node::Object(vec![key_value(Node::Num(2), Node::Object(vec![key_value(
        ident("inner"),
        string("too_deep"),
    )]))]);
    let mappings = Node::Object(vec![
        key_value(ident("a"), string("class_a")),
        key_value(string("b c"), string("class_bc")),
        key_value(ident("nested"), deep),
        key_value(Node::Num(5), string("numeric_key")),
        key_value(other(vec![string("computed")]), string("computed_key")),
        key_value(ident("a"), string("class_a_again")),
    ]);
    let script = Script {
        body: vec![
            other(vec![Node::Object(vec![
                key_value(Node::Num(1), mappings),
                key_value(ident("skipped"), Node::Object(vec![key_value(
                    Node::Num(9),
                    Node::Object(vec![key_value(ident("x"), string("y"))]),
                )])),
                key_value(Node::Num(3), string("no mappings")),
            ])]),
            Node::ExprStmt(Box::new(Node::Array(vec![key_value(
                Node::Num(1),
                Node::Object(vec![key_value(ident("z"), string("replaced"))]),
            )]))),
        ],
    };
    let modules = walk_classes_chunk(&script).unwrap();
    assert_eq!(modules.len(), 2);
    assert!(!modules.contains_key(&2));
    assert!(!modules.contains_key(&9));
    assert_eq!(modules[&3].len(), 0);
    let replaced = &modules[&1];
    assert_eq!(replaced.len(), 1);
    assert_eq!(replaced.get("z"), Some(&"replaced".to_owned()));
}

#[test]
fn class_mappings_keep_the_later_of_two_names() {
    let mappings = Node::Object(vec![
        key_value(ident("a"), string("class_a")),
        key_value(string("b c"), string("class_bc")),
        key_value(ident("a"), string("class_a_again")),
    ]);
    let script = Script { body: vec![key_value(Node::Num(7), mappings)] };
    let modules = walk_classes_chunk(&script).unwrap();
    let mapping = &modules[&7];
    assert_eq!(mapping.len(), 2);
    assert_eq!(mapping.get("a"), Some(&"class_a_again".to_owned()));
    assert_eq!(mapping.get("b c"), Some(&"class_bc".to_owned()));
    assert_eq!(mapping.entry(0), (&"a".to_owned(), &"class_a_again".to_owned()));
    assert!(mapping.contains_key("a"));
    assert!(!mapping.contains_key("c"));
    assert!(walk_classes_chunk(&Script { body: vec![] }).unwrap().is_empty());
}

#[test]
fn parse_errors_have_messages() {
    assert_eq!(
        ParseError::MissingNode("failed to walk ast").to_string(),
        "missing ast node: failed to walk ast"
    );
    assert_eq!(ParseError::Swc("unexpected token".to_owned()).to_string(), "parsing error");
}
