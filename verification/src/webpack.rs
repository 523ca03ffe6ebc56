//! The walk over a bundler chunk: a top-level call whose first argument is
//! an array of chunk ids, a module listing and, optionally, entry points.

use std::collections::HashMap;
use vstd::prelude::*;
use vstd::string::StringSliceAdditionalSpecFns;
use vstd::utf8::{
    decode_utf8, encode_utf8_decode_utf8, encode_utf8_valid_utf8, is_char_boundary,
    is_char_boundary_iff_not_is_continuation_byte, is_char_boundary_start_end_of_seq,
    valid_utf8_split,
};

use crate::syntax::{Node, Script, Span};

verus! {

broadcast use vstd::std_specs::hash::group_hash_axioms;

/// A chunk identifier.
pub type ChunkId = u32;

/// A module identifier. In practice module identifiers are unique over all
/// the chunks of a build.
pub type ModuleId = u32;

/// Why a script could not be read as what was looked for.
#[derive(Debug, Clone, PartialEq, Eq)]
pub enum ParseError {
    /// The tree lacks a node that the walk needs.
    MissingNode(&'static str),
    /// The parser refused the source text; the message is the parser's.
    Swc(String),
}

impl ParseError {
    /// The message of the error.
    pub fn to_string(&self) -> (r: String)
        ensures
            r@ == match *self {
                ParseError::MissingNode(what) => "missing ast node: "@ + what@,
                ParseError::Swc(_) => "parsing error"@,
            },
    {
        match self {
            ParseError::MissingNode(what) => {
                let mut out = "missing ast node: ".to_owned();
                vstd::string::StringExecFns::append(&mut out, what);
                out
            },
            ParseError::Swc(_) => "parsing error".to_owned(),
        }
    }
}

/// A function-like node: a function expression or an arrow expression, with
/// the extent of its text.
#[derive(Debug, Clone, Copy, PartialEq, Eq, Hash, Structural)]
pub enum FunctionLike {
    Function(Span),
    Arrow(Span),
}

impl FunctionLike {
    /// The function-like that `node` is, if it is one.
    pub open spec fn of(node: Node) -> Option<FunctionLike> {
        match node {
            Node::Function { span, .. } => Some(FunctionLike::Function(span)),
            Node::Arrow { span, .. } => Some(FunctionLike::Arrow(span)),
            _ => None,
        }
    }

    /// The extent of the node.
    pub open spec fn extent(self) -> Span {
        match self {
            FunctionLike::Function(span) => span,
            FunctionLike::Arrow(span) => span,
        }
    }

    /// Returns the span of this function-like node.
    pub fn span(&self) -> (r: Span)
        ensures
            r == self.extent(),
    {
        match self {
            FunctionLike::Function(span) => *span,
            FunctionLike::Arrow(span) => *span,
        }
    }

    /// Reads a node as a function-like; any other node is refused.
    pub fn try_from(node: &Node) -> (r: Result<FunctionLike, ()>)
        ensures
            match FunctionLike::of(*node) {
                Some(f) => r == Ok::<FunctionLike, ()>(f),
                None => r is Err,
            },
    {
        match node {
            Node::Function { span, .. } => Ok(FunctionLike::Function(*span)),
            Node::Arrow { span, .. } => Ok(FunctionLike::Arrow(*span)),
            _ => Err(()),
        }
    }
}

/// A module of a chunk.
#[derive(Debug, Clone, Copy, PartialEq, Eq, Hash, Structural)]
pub struct WebpackModule {
    /// The module's identifier.
    pub id: ModuleId,
    /// The module's function.
    pub func: FunctionLike,
}

/// A chunk: a file that holds several modules and that the chunk loader can
/// load on demand.
#[derive(Debug)]
pub struct WebpackChunk {
    /// The identifiers of the chunks included in the script.
    pub chunks: Vec<ChunkId>,
    /// The modules within the chunk, by identifier.
    pub modules: HashMap<ModuleId, WebpackModule>,
    /// The entry-point modules within the chunk.
    pub entrypoints: Vec<ModuleId>,
}

/// The modules of the array elements `elems[..upto]`: each function-like
/// element under its index. An index that no identifier can hold names no
/// module.
pub open spec fn array_entries(elems: Seq<Node>, upto: nat) -> Seq<(ModuleId, FunctionLike)>
    decreases upto,
{
    if upto == 0 || upto > elems.len() {
        Seq::empty()
    } else {
        let rest = array_entries(elems, (upto - 1) as nat);
        match FunctionLike::of(elems[upto - 1]) {
            Some(f) => if upto - 1 <= u32::MAX {
                rest.push(((upto - 1) as u32, f))
            } else {
                rest
            },
            None => rest,
        }
    }
}

/// The module that the property `prop` lists: a `key: value` property with
/// a numeric key and a function-like value.
pub open spec fn prop_entry(prop: Node) -> Option<(ModuleId, FunctionLike)> {
    match prop {
        Node::KeyValue { key, value } => match (*key, FunctionLike::of(*value)) {
            (Node::Num(id), Some(f)) => Some((id, f)),
            _ => None,
        },
        _ => None,
    }
}

/// The modules of the object properties `props[..upto]`, in their order.
pub open spec fn object_entries(props: Seq<Node>, upto: nat) -> Seq<(ModuleId, FunctionLike)>
    decreases upto,
{
    if upto == 0 || upto > props.len() {
        Seq::empty()
    } else {
        let rest = object_entries(props, (upto - 1) as nat);
        match prop_entry(props[upto - 1]) {
            Some(entry) => rest.push(entry),
            None => rest,
        }
    }
}

/// The modules that a listing names, in its order: those of an array by
/// index, those of an object by key. Nothing else is a listing.
pub open spec fn listing_entries(listing: Node) -> Option<Seq<(ModuleId, FunctionLike)>> {
    match listing {
        Node::Array(elems) => Some(array_entries(elems@, elems@.len())),
        Node::Object(props) => Some(object_entries(props@, props@.len())),
        _ => None,
    }
}

/// The modules `entries[..upto]` by identifier; of two that share one, the
/// later stays.
pub open spec fn entries_map(entries: Seq<(ModuleId, FunctionLike)>, upto: nat) -> Map<
    ModuleId,
    WebpackModule,
>
    decreases upto,
{
    if upto == 0 || upto > entries.len() {
        Map::empty()
    } else {
        let (id, func) = entries[upto - 1];
        entries_map(entries, (upto - 1) as nat).insert(id, WebpackModule { id, func })
    }
}

/// The module listing of a chunk script: the script starts with an
/// expression statement that is a call; the call's first argument is an
/// array literal; that array has at least two elements, neither left out;
/// the second is the listing.
pub open spec fn chunk_listing(script: Script) -> Option<Node> {
    if script.body@.len() == 0 {
        None
    } else {
        match script.body@[0] {
            Node::ExprStmt(expr) => match *expr {
                Node::Call { args, .. } => if args@.len() == 0 {
                    None
                } else {
                    match args@[0] {
                        Node::Array(elems) => if elems@.len() >= 2 && !(elems@[0] is Hole) && !(
                        elems@[1] is Hole) {
                            Some(elems@[1])
                        } else {
                            None
                        },
                        _ => None,
                    }
                },
                _ => None,
            },
            _ => None,
        }
    }
}

/// The modules that a chunk script lists, in the order of its listing, if
/// it has the shape of a chunk.
pub open spec fn chunk_entries(script: Script) -> Option<Seq<(ModuleId, FunctionLike)>> {
    match chunk_listing(script) {
        Some(listing) => listing_entries(listing),
        None => None,
    }
}

/// The modules of a chunk script by identifier, if it has the shape of a
/// chunk.
pub open spec fn chunk_modules(script: Script) -> Option<Map<ModuleId, WebpackModule>> {
    match chunk_entries(script) {
        Some(entries) => Some(entries_map(entries, entries.len())),
        None => None,
    }
}

/// Walks a module listing. The listing is an array, whose function-like
/// elements are modules under their indices, or an object, whose
/// function-like values are modules under their numeric keys. Elements that
/// are no modules are passed over; any other node is no listing.
pub fn walk_module_listing(modules: &Node) -> (r: Option<Vec<(ModuleId, FunctionLike)>>)
    ensures
        match listing_entries(*modules) {
            Some(entries) => r matches Some(found) && found@ == entries,
            None => r is None,
        },
{
    match modules {
        Node::Array(elems) => {
            let mut out: Vec<(ModuleId, FunctionLike)> = Vec::new();
            let mut i: usize = 0;
            while i < elems.len()
                invariant
                    i <= elems@.len(),
                    out@ == array_entries(elems@, i as nat),
                decreases elems@.len() - i,
            {
                if let Ok(function_like) = FunctionLike::try_from(&elems[i]) {
                    if i <= u32::MAX as usize {
                        out.push((i as u32, function_like));
                    }
                }
                i += 1;
            }
            Some(out)
        },
        Node::Object(props) => {
            let mut out: Vec<(ModuleId, FunctionLike)> = Vec::new();
            let mut i: usize = 0;
            while i < props.len()
                invariant
                    i <= props@.len(),
                    out@ == object_entries(props@, i as nat),
                decreases props@.len() - i,
            {
                if let Node::KeyValue { key, value } = &props[i] {
                    if let Ok(function_like) = FunctionLike::try_from(value) {
                        if let Node::Num(id) = &**key {
                            out.push((*id, function_like));
                        }
                    }
                }
                i += 1;
            }
            Some(out)
        },
        _ => None,
    }
}

/// The second element of the array that is the first argument of the call
/// that the script starts with.
fn find_listing(script: &Script) -> (r: Option<&Node>)
    ensures
        match chunk_listing(*script) {
            Some(listing) => r matches Some(found) && *found == listing,
            None => r is None,
        },
{
    if script.body.len() == 0 {
        return None;
    }
    if let Node::ExprStmt(expr) = &script.body[0] {
        if let Node::Call { args, .. } = &**expr {
            if args.len() > 0 {
                if let Node::Array(elems) = &args[0] {
                    if elems.len() >= 2 {
                        let chunk_ids = &elems[0];
                        let listing = &elems[1];
                        if !matches!(chunk_ids, Node::Hole) && !matches!(listing, Node::Hole) {
                            return Some(listing);
                        }
                    }
                }
            }
        }
    }
    None
}

/// The modules that a chunk script lists, in the order of its listing, if
/// it has the shape of a chunk.
fn walk_chunk_entries(script: &Script) -> (r: Option<Vec<(ModuleId, FunctionLike)>>)
    ensures
        match chunk_entries(*script) {
            Some(entries) => r matches Some(found) && found@ == entries,
            None => r is None,
        },
{
    match find_listing(script) {
        Some(listing) => walk_module_listing(listing),
        None => None,
    }
}

/// Walks a chunk script and returns its modules by identifier. A script of
/// any other shape than that of a chunk, a script without statements among
/// them, is refused as a failure to walk the tree. The chunk ids and the
/// entry points are not read: both lists come back empty.
pub fn walk_webpack_chunk(script: &Script) -> (r: Result<WebpackChunk, ParseError>)
    ensures
        match r {
            Ok(chunk) => chunk_modules(*script) == Some(chunk.modules@) && chunk.chunks@.len() == 0
                && chunk.entrypoints@.len() == 0,
            Err(ParseError::MissingNode(what)) => chunk_modules(*script) is None && what@
                == "failed to walk ast"@,
            Err(ParseError::Swc(_)) => false,
        },
{
    let entries = match walk_chunk_entries(script) {
        Some(entries) => entries,
        None => {
            return Err(ParseError::MissingNode("failed to walk ast"));
        },
    };
    let mut modules: HashMap<ModuleId, WebpackModule> = HashMap::new();
    let mut i: usize = 0;
    while i < entries.len()
        invariant
            i <= entries@.len(),
            modules@ == entries_map(entries@, i as nat),
        decreases entries@.len() - i,
    {
        let (id, func) = entries[i];
        modules.insert(id, WebpackModule { id, func });
        i += 1;
    }
    Ok(WebpackChunk { chunks: Vec::new(), modules, entrypoints: Vec::new() })
}

/// The byte range of the source text that a span covers: both ends less
/// one, as the parser counts from 1. A span that starts at 0 or ends before
/// it starts covers nothing.
pub open spec fn span_range(span: Span) -> Option<(nat, nat)> {
    if 1 <= span.lo <= span.hi {
        Some(((span.lo - 1) as nat, (span.hi - 1) as nat))
    } else {
        None
    }
}

/// The byte range of the source text that a span covers.
pub fn source_range(span: Span) -> (r: Option<(usize, usize)>)
    ensures
        match span_range(span) {
            Some((lo, hi)) => r == Some((lo as usize, hi as usize)) && lo <= hi,
            None => r is None,
        },
{
    if 1 <= span.lo && span.lo <= span.hi {
        Some(((span.lo - 1) as usize, (span.hi - 1) as usize))
    } else {
        None
    }
}

/// The bytes of `source` that the span of `module` covers, if the span lies
/// within the text and cuts no character in two.
pub open spec fn module_bytes(source: Seq<u8>, module: WebpackModule) -> Option<Seq<u8>> {
    match span_range(module.func.extent()) {
        Some((lo, hi)) => if hi <= source.len() && is_char_boundary(source, lo as int)
            && is_char_boundary(source, hi as int) {
            Some(source.subrange(lo as int, hi as int))
        } else {
            None
        },
        None => None,
    }
}

/// The text of a module: the part of the source that its span covers.
pub fn module_source<'a>(source: &'a str, module: &WebpackModule) -> (r: Option<&'a str>)
    ensures
        match module_bytes(source.spec_bytes(), *module) {
            Some(bytes) => r matches Some(text) && text.spec_bytes() == bytes,
            None => r is None,
        },
{
    let (lo, hi) = match source_range(module.func.span()) {
        Some(range) => range,
        None => {
            return None;
        },
    };
    if !source.is_char_boundary(lo) || !source.is_char_boundary(hi) {
        return None;
    }
    proof {
        let bytes = source.spec_bytes();
        encode_utf8_valid_utf8(source@);
        assert(hi <= bytes.len());
        valid_utf8_split(bytes, hi as int);
        let head = bytes.subrange(0, hi as int);
        if lo < hi {
            is_char_boundary_iff_not_is_continuation_byte(bytes, lo as int);
            is_char_boundary_iff_not_is_continuation_byte(head, lo as int);
        } else {
            is_char_boundary_start_end_of_seq(head);
        }
    }
    let (head, _) = source.split_at(hi);
    let (_, text) = head.split_at(lo);
    assert(text.spec_bytes() =~= source.spec_bytes().subrange(lo as int, hi as int));
    Some(text)
}

/// The text of a module: what the bytes that its span covers spell.
pub open spec fn module_text(source: Seq<u8>, module: WebpackModule) -> Option<Seq<char>> {
    match module_bytes(source, module) {
        Some(bytes) => Some(decode_utf8(bytes)),
        None => None,
    }
}

/// Whether the span of each of the modules `entries[..upto]` lies within the
/// text and cuts no character in two.
pub open spec fn spans_fit(source: Seq<u8>, entries: Seq<(ModuleId, FunctionLike)>, upto: nat)
    -> bool
    decreases upto,
{
    if upto == 0 || upto > entries.len() {
        true
    } else {
        let (id, func) = entries[upto - 1];
        spans_fit(source, entries, (upto - 1) as nat) && module_text(
            source,
            WebpackModule { id, func },
        ) is Some
    }
}

/// The texts of the modules `entries[..upto]` by identifier; of two that
/// share one, the later stays.
pub open spec fn entry_texts(source: Seq<u8>, entries: Seq<(ModuleId, FunctionLike)>, upto: nat)
    -> Map<ModuleId, Seq<char>>
    decreases upto,
{
    if upto == 0 || upto > entries.len() {
        Map::empty()
    } else {
        let (id, func) = entries[upto - 1];
        entry_texts(source, entries, (upto - 1) as nat).insert(
            id,
            module_text(source, WebpackModule { id, func })->0,
        )
    }
}

/// What a map of module texts holds: for each identifier the characters of
/// the text.
pub open spec fn texts_model(texts: Map<ModuleId, String>) -> Map<ModuleId, Seq<char>> {
    Map::new(|id: ModuleId| texts.dom().contains(id), |id: ModuleId| texts[id]@)
}

/// Walks a chunk script and returns the text of each of its modules by
/// identifier, cut out of the source that the script was parsed from. A
/// script that has not the shape of a chunk is refused as a failure to walk
/// the tree; a span that does not fit the source, as a missing
/// `module source`.
pub fn parse_webpack_chunk(source: &str, script: &Script) -> (r: Result<
    HashMap<ModuleId, String>,
    ParseError,
>)
    ensures
        match r {
            Ok(texts) => chunk_entries(*script) is Some && ({
                let entries = chunk_entries(*script)->0;
                spans_fit(source.spec_bytes(), entries, entries.len()) && texts_model(texts@)
                    == entry_texts(source.spec_bytes(), entries, entries.len())
            }),
            Err(ParseError::MissingNode(what)) => if chunk_entries(*script) is None {
                what@ == "failed to walk ast"@
            } else {
                let entries = chunk_entries(*script)->0;
                what@ == "module source"@ && !spans_fit(
                    source.spec_bytes(),
                    entries,
                    entries.len(),
                )
            },
            Err(ParseError::Swc(_)) => false,
        },
{
    let entries = match walk_chunk_entries(script) {
        Some(entries) => entries,
        None => {
            return Err(ParseError::MissingNode("failed to walk ast"));
        },
    };
    let mut texts: HashMap<ModuleId, String> = HashMap::new();
    let mut i: usize = 0;
    assert(texts_model(texts@) =~= entry_texts(source.spec_bytes(), entries@, 0));
    while i < entries.len()
        invariant
            i <= entries@.len(),
            spans_fit(source.spec_bytes(), entries@, i as nat),
            texts_model(texts@) == entry_texts(source.spec_bytes(), entries@, i as nat),
        ensures
            i <= entries@.len(),
            i < entries@.len() ==> !spans_fit(source.spec_bytes(), entries@, (i + 1) as nat),
            i == entries@.len() ==> spans_fit(source.spec_bytes(), entries@, i as nat)
                && texts_model(texts@) == entry_texts(source.spec_bytes(), entries@, i as nat),
        decreases entries@.len() - i,
    {
        let (id, func) = entries[i];
        let module = WebpackModule { id, func };
        match module_source(source, &module) {
            Some(text) => {
                proof {
                    encode_utf8_decode_utf8(text@);
                }
                let ghost before = texts@;
                let owned = text.to_owned();
                texts.insert(id, owned);
                assert(texts_model(texts@) =~= texts_model(before).insert(id, text@));
            },
            None => {
                break ;
            },
        }
        i += 1;
    }
    if i < entries.len() {
        proof {
            spans_fit_prefix(source.spec_bytes(), entries@, (i + 1) as nat, entries@.len());
        }
        return Err(ParseError::MissingNode("module source"));
    }
    Ok(texts)
}

/// Where the spans of the first modules do not fit, those of more modules
/// do not either.
pub proof fn spans_fit_prefix(
    source: Seq<u8>,
    entries: Seq<(ModuleId, FunctionLike)>,
    a: nat,
    b: nat,
)
    requires
        a <= b <= entries.len(),
        !spans_fit(source, entries, a),
    ensures
        !spans_fit(source, entries, b),
    decreases b,
{
    if a < b {
        spans_fit_prefix(source, entries, a, (b - 1) as nat);
    }
}

} // verus!
