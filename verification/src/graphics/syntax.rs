use core::str::Utf8Error;
use tree_sitter::{Language, LanguageError, Node, Parser, Tree};
use vstd::prelude::*;
use vstd::string::StringSliceAdditionalSpecFns;
use vstd::utf8::valid_utf8;

verus! {

#[verifier::external_type_specification]
#[verifier::external_body]
pub struct ExParser(Parser);

#[verifier::external_type_specification]
#[verifier::external_body]
pub struct ExTree(Tree);

#[verifier::external_type_specification]
#[verifier::external_body]
pub struct ExLanguage(Language);

#[verifier::external_type_specification]
#[verifier::external_body]
pub struct ExLanguageError(LanguageError);

#[verifier::external_type_specification]
#[verifier::external_body]
pub struct ExNode<'tree>(Node<'tree>);

#[verifier::external_type_specification]
#[verifier::external_body]
pub struct ExUtf8Error(Utf8Error);

/// Number of children of the node that `path` (child indices from the root) leads to, in the
/// tree that the WGSL grammar gives for `source`.
pub uninterp spec fn wgsl_child_count(source: Seq<u8>, path: Seq<usize>) -> nat;

/// Grammar kind of the node that `path` leads to in the WGSL tree of `source`.
pub uninterp spec fn wgsl_node_kind(source: Seq<u8>, path: Seq<usize>) -> Seq<char>;

/// Whether the node that `path` leads to in the WGSL tree of `source` is a named node.
pub uninterp spec fn wgsl_node_is_named(source: Seq<u8>, path: Seq<usize>) -> bool;

/// First byte of the node that `path` leads to in the WGSL tree of `source`.
pub uninterp spec fn wgsl_node_start(source: Seq<u8>, path: Seq<usize>) -> nat;

/// Byte after the last one of the node that `path` leads to in the WGSL tree of `source`.
pub uninterp spec fn wgsl_node_end(source: Seq<u8>, path: Seq<usize>) -> nat;

/// A syntax tree of WGSL source, with the bytes it was parsed from.
pub struct WgslTree {
    tree: Tree,
    source: Ghost<Seq<u8>>,
}

impl View for WgslTree {
    type V = Seq<u8>;

    closed spec fn view(&self) -> Seq<u8> {
        self.source@
    }
}

/// A node of a `WgslTree`, with the child indices that lead to it from the root.
pub struct WgslNode<'tree> {
    node: Node<'tree>,
    source: Ghost<Seq<u8>>,
    path: Ghost<Seq<usize>>,
}

impl<'tree> View for WgslNode<'tree> {
    /// The source bytes and the path from the root.
    type V = (Seq<u8>, Seq<usize>);

    closed spec fn view(&self) -> (Seq<u8>, Seq<usize>) {
        (self.source@, self.path@)
    }
}

/// A tree-sitter parser that has the WGSL grammar, made by `set_wgsl_language` from a parser
/// that `Parser::new` made (so with no timeout and no cancellation flag).
pub(crate) struct WgslParser {
    parser: Parser,
}

/// The WGSL grammar: the one value of this type is what `tree_sitter_wgsl::language` gives.
pub(crate) struct WgslLanguage {
    language: Language,
}

impl WgslLanguage {
    pub(crate) fn new() -> Self {
        WgslLanguage { language: tree_sitter_wgsl::language() }
    }
}

/// `tree_sitter::Parser::new`: a parser with no language, no timeout and no cancellation flag.
pub assume_specification[ Parser::new ]() -> Parser;

/// `tree_sitter_wgsl::language`: the WGSL grammar.
pub assume_specification[ tree_sitter_wgsl::language ]() -> Language;

/// Calls `tree_sitter::Parser::set_language` with the WGSL grammar. That call refuses a grammar
/// only when the grammar's version lies outside the versions the tree-sitter library reads
/// (13 to 14 in tree-sitter 0.20.10); tree-sitter-wgsl 0.0.6 is generated at version 13, so
/// the call succeeds and the parser has the grammar.
#[verifier::external_body]
pub(crate) fn set_wgsl_language(parser: Parser, language: WgslLanguage) -> (r: Result<WgslParser, LanguageError>)
    ensures
        r is Ok,
{
    let mut parser = parser;
    match parser.set_language(language.language) {
        Ok(()) => Ok(WgslParser { parser }),
        Err(e) => Err(e),
    }
}

/// Calls `tree_sitter::Parser::parse` on the bytes of `source`. That call gives no tree only
/// when the parser has no language, its timeout expired or its cancellation flag was raised;
/// a `WgslParser` has the WGSL grammar and neither of the others, so the call gives a tree,
/// the tree of those bytes. Tree-sitter counts byte offsets in `u32`, so the source must fit.
#[verifier::external_body]
pub(crate) fn parse_source(parser: &mut WgslParser, source: &str) -> (tree: Option<WgslTree>)
    requires
        source.spec_bytes().len() <= u32::MAX,
    ensures
        tree is Some,
        tree matches Some(t) ==> t@ == source.spec_bytes(),
{
    match parser.parser.parse(source, None) {
        Some(tree) => Some(WgslTree { tree, source: Ghost(source.spec_bytes()) }),
        None => None,
    }
}

/// Calls `tree_sitter::Tree::root_node`: the node that the empty path leads to.
#[verifier::external_body]
pub(crate) fn root_node<'tree>(tree: &'tree WgslTree) -> (node: WgslNode<'tree>)
    ensures
        node@ == (tree@, Seq::<usize>::empty()),
{
    WgslNode { node: tree.tree.root_node(), source: Ghost(tree.source@), path: Ghost(Seq::empty()) }
}

/// Calls `tree_sitter::Node::child_count`.
#[verifier::external_body]
pub(crate) fn child_count(node: &WgslNode) -> (count: usize)
    ensures
        count == wgsl_child_count(node@.0, node@.1),
{
    node.node.child_count()
}

/// Calls `tree_sitter::Node::child`: below the child count there is a child, the node one
/// index further down. (The call hands the index to C as a `u32`, so nothing is stated of an
/// index at or above the child count, which is itself a `u32`.)
#[verifier::external_body]
pub(crate) fn child<'tree>(node: &WgslNode<'tree>, index: usize) -> (c: Option<WgslNode<'tree>>)
    ensures
        index < wgsl_child_count(node@.0, node@.1) ==> (c matches Some(c) && c@ == (node@.0, node@.1.push(index))),
{
    match node.node.child(index) {
        Some(c) => Some(WgslNode { node: c, source: Ghost(node.source@), path: Ghost(node.path@.push(index)) }),
        None => None,
    }
}

/// Calls `tree_sitter::Node::kind`.
#[verifier::external_body]
pub(crate) fn kind(node: &WgslNode) -> (k: &'static str)
    ensures
        k@ == wgsl_node_kind(node@.0, node@.1),
{
    node.node.kind()
}

/// Calls `tree_sitter::Node::is_named`.
#[verifier::external_body]
pub(crate) fn is_named(node: &WgslNode) -> (named: bool)
    ensures
        named == wgsl_node_is_named(node@.0, node@.1),
{
    node.node.is_named()
}

/// Calls `tree_sitter::Node::start_byte`.
#[verifier::external_body]
pub(crate) fn start_byte(node: &WgslNode) -> (start: usize)
    ensures
        start == wgsl_node_start(node@.0, node@.1),
{
    node.node.start_byte()
}

/// Calls `tree_sitter::Node::end_byte`.
#[verifier::external_body]
pub(crate) fn end_byte(node: &WgslNode) -> (end: usize)
    ensures
        end == wgsl_node_end(node@.0, node@.1),
{
    node.node.end_byte()
}

/// Calls `core::str::from_utf8`: text exactly when the bytes are valid UTF-8, and then the text
/// is made of these bytes.
#[verifier::external_body]
pub(crate) fn str_from_utf8(bytes: &[u8]) -> (text: Result<&str, Utf8Error>)
    ensures
        text is Ok <==> valid_utf8(bytes@),
        text matches Ok(t) ==> t.spec_bytes() == bytes@,
{
    core::str::from_utf8(bytes)
}

} // verus!
