use crate::graphics::syntax::{
    child, child_count, end_byte, is_named, kind, parse_source, root_node, set_wgsl_language,
    start_byte,
    str_from_utf8, wgsl_child_count, wgsl_node_end, wgsl_node_is_named, wgsl_node_kind,
    wgsl_node_start, WgslLanguage, WgslNode, WgslTree,
};
use crate::graphics::{GraphicsError, GraphicsErrorView};
use tree_sitter::Parser;
use crate::text::{decimal_value, parse_u32, str_eq, str_starts_with};
use vstd::prelude::*;
use vstd::string::StringSliceAdditionalSpecFns;
use vstd::utf8::{decode_utf8, valid_utf8};

verus! {

/// A global variable of a WGSL shader that has attributes.
pub struct Variable {
    pub attributes: Attributes,
    pub address_space: Option<AddressSpace>,
    pub access_mode: Option<AccessMode>,
    pub identifier: String,
    pub kind: VariableKind,
}

/// The `@group` and `@binding` attributes of a variable.
pub struct Attributes {
    pub group: u32,
    pub binding: u32,
}

#[derive(Debug, Clone, Copy, PartialEq, Eq, Structural)]
pub enum AddressSpace {
    Uniform,
    Storage,
}

#[derive(Debug, Clone, Copy, PartialEq, Eq, Structural)]
pub enum AccessMode {
    Read,
    Write,
    ReadWrite,
}

#[derive(Debug, Clone, Copy, PartialEq, Eq, Structural)]
pub enum VariableKind {
    Texture,
    Sampler,
    Other,
}

/// A `Variable` with its identifier taken by its characters.
pub struct VariableView {
    pub group: u32,
    pub binding: u32,
    pub address_space: Option<AddressSpace>,
    pub access_mode: Option<AccessMode>,
    pub identifier: Seq<char>,
    pub kind: VariableKind,
}

impl View for Variable {
    type V = VariableView;

    open spec fn view(&self) -> VariableView {
        VariableView {
            group: self.attributes.group,
            binding: self.attributes.binding,
            address_space: self.address_space,
            access_mode: self.access_mode,
            identifier: self.identifier@,
            kind: self.kind,
        }
    }
}

/// The address space that a qualifier names.
pub open spec fn address_space_of(text: Seq<char>) -> Option<AddressSpace> {
    if text == "uniform"@ {
        Some(AddressSpace::Uniform)
    } else if text == "storage"@ {
        Some(AddressSpace::Storage)
    } else {
        None
    }
}

/// The access mode that a qualifier names.
pub open spec fn access_mode_of(text: Seq<char>) -> Option<AccessMode> {
    if text == "read"@ {
        Some(AccessMode::Read)
    } else if text == "write"@ {
        Some(AccessMode::Write)
    } else if text == "read_write"@ {
        Some(AccessMode::ReadWrite)
    } else {
        None
    }
}

/// The kind of variable that a type name denotes.
pub open spec fn variable_kind_of(text: Seq<char>) -> VariableKind {
    if "texture_2d<"@.is_prefix_of(text) {
        VariableKind::Texture
    } else if text == "sampler"@ {
        VariableKind::Sampler
    } else {
        VariableKind::Other
    }
}

impl<'a> TryFrom<&'a str> for AddressSpace {
    type Error = GraphicsError;

    fn try_from(value: &'a str) -> (r: Result<Self, Self::Error>) {
        if str_eq(value, "uniform") {
            Ok(AddressSpace::Uniform)
        } else if str_eq(value, "storage") {
            Ok(AddressSpace::Storage)
        } else {
            Err(GraphicsError::WgslAddressSpaceParseError)
        }
    }
}

impl<'a> vstd::std_specs::convert::TryFromSpecImpl<&'a str> for AddressSpace {
    open spec fn obeys_try_from_spec() -> bool {
        true
    }

    open spec fn try_from_spec(value: &'a str) -> Result<Self, GraphicsError> {
        match address_space_of(value@) {
            Some(space) => Ok(space),
            None => Err(GraphicsError::WgslAddressSpaceParseError),
        }
    }
}

impl<'a> TryFrom<&'a str> for AccessMode {
    type Error = GraphicsError;

    fn try_from(value: &'a str) -> (r: Result<Self, Self::Error>) {
        if str_eq(value, "read") {
            Ok(AccessMode::Read)
        } else if str_eq(value, "write") {
            Ok(AccessMode::Write)
        } else if str_eq(value, "read_write") {
            Ok(AccessMode::ReadWrite)
        } else {
            Err(GraphicsError::WgslAccessModeParseError)
        }
    }
}

impl<'a> vstd::std_specs::convert::TryFromSpecImpl<&'a str> for AccessMode {
    open spec fn obeys_try_from_spec() -> bool {
        true
    }

    open spec fn try_from_spec(value: &'a str) -> Result<Self, GraphicsError> {
        match access_mode_of(value@) {
            Some(mode) => Ok(mode),
            None => Err(GraphicsError::WgslAccessModeParseError),
        }
    }
}

impl<'a> From<&'a str> for VariableKind {
    fn from(value: &'a str) -> (r: Self) {
        if str_starts_with(value, "texture_2d<") {
            VariableKind::Texture
        } else if str_eq(value, "sampler") {
            VariableKind::Sampler
        } else {
            VariableKind::Other
        }
    }
}

impl<'a> vstd::std_specs::convert::FromSpecImpl<&'a str> for VariableKind {
    open spec fn obeys_from_spec() -> bool {
        true
    }

    open spec fn from_spec(value: &'a str) -> Self {
        variable_kind_of(value@)
    }
}

/// Kind of child `i` of the node at `p`, if it has such a child.
pub open spec fn child_kind(src: Seq<u8>, p: Seq<usize>, i: int) -> Option<Seq<char>> {
    if 0 <= i < wgsl_child_count(src, p) {
        Some(wgsl_node_kind(src, p.push(i as usize)))
    } else {
        None
    }
}

/// Child `i` of the node at `p`, which must be of kind `expected`.
pub open spec fn expect_child(src: Seq<u8>, p: Seq<usize>, i: int, expected: Seq<char>) -> Result<
    Seq<usize>,
    GraphicsErrorView,
> {
    match child_kind(src, p, i) {
        Some(k) => if k == expected {
            Ok(p.push(i as usize))
        } else {
            Err(GraphicsErrorView::WgslParseError { expected, encountered: Some(k) })
        },
        None => Err(GraphicsErrorView::WgslParseError { expected, encountered: None }),
    }
}

/// Child `i` of the node at `p`, when it is of kind `expected`.
pub open spec fn optional_child(src: Seq<u8>, p: Seq<usize>, i: int, expected: Seq<char>) -> Option<
    Seq<usize>,
> {
    match child_kind(src, p, i) {
        Some(k) => if k == expected {
            Some(p.push(i as usize))
        } else {
            None
        },
        None => None,
    }
}

/// The source bytes that the node at `p` covers; `None` when its range does not lie in the
/// source.
pub open spec fn node_bytes(src: Seq<u8>, p: Seq<usize>) -> Option<Seq<u8>> {
    let start = wgsl_node_start(src, p);
    let end = wgsl_node_end(src, p);
    if start <= end && end <= src.len() {
        Some(src.subrange(start as int, end as int))
    } else {
        None
    }
}

/// The text of the node at `p`, where a range outside the source or bytes that are not UTF-8
/// stop the parse (`None`).
pub open spec fn required_text(src: Seq<u8>, p: Seq<usize>) -> Option<Seq<char>> {
    match node_bytes(src, p) {
        Some(b) => if valid_utf8(b) {
            Some(decode_utf8(b))
        } else {
            None
        },
        None => None,
    }
}

/// The text of the node at `p`: bytes that are not UTF-8 are an error, a range outside the
/// source stops the parse (`None`).
pub open spec fn source_text(src: Seq<u8>, p: Seq<usize>) -> Option<Result<Seq<char>, GraphicsErrorView>> {
    match node_bytes(src, p) {
        Some(b) => if valid_utf8(b) {
            Some(Ok(decode_utf8(b)))
        } else {
            Some(Err(GraphicsErrorView::WgslParseSourceStringError))
        },
        None => None,
    }
}

/// The name and the value bytes of the attribute node at `c`: `@`, name, `(`, value, `)`.
pub open spec fn attribute_entry(src: Seq<u8>, c: Seq<usize>) -> Option<Result<(Seq<char>, Seq<u8>), GraphicsErrorView>> {
    match expect_child(src, c, 0, "attr"@) {
        Err(e) => Some(Err(e)),
        Ok(_) => match expect_child(src, c, 1, "ident"@) {
            Err(e) => Some(Err(e)),
            Ok(ident) => match expect_child(src, c, 2, "paren_left"@) {
                Err(e) => Some(Err(e)),
                Ok(_) => match expect_child(src, c, 3, "literal_or_ident"@) {
                    Err(e) => Some(Err(e)),
                    Ok(value) => match expect_child(src, c, 4, "paren_right"@) {
                        Err(e) => Some(Err(e)),
                        Ok(_) => match required_text(src, ident) {
                            Some(name) => match node_bytes(src, value) {
                                Some(vb) => if valid_utf8(vb) {
                                    Some(Ok((name, vb)))
                                } else {
                                    None
                                },
                                None => None,
                            },
                            None => None,
                        },
                    },
                },
            },
        },
    }
}

/// Group and binding found going through the children of the node at `p` from child `j` on,
/// starting from `group` and `binding`.
pub open spec fn attributes_from(
    src: Seq<u8>,
    p: Seq<usize>,
    j: int,
    group: Option<u32>,
    binding: Option<u32>,
) -> Option<Result<(Option<u32>, Option<u32>), GraphicsErrorView>>
    decreases wgsl_child_count(src, p) - j,
{
    if j < 0 || j >= wgsl_child_count(src, p) {
        Some(Ok((group, binding)))
    } else if wgsl_node_kind(src, p.push(j as usize)) != "attribute"@ {
        attributes_from(src, p, j + 1, group, binding)
    } else {
        match attribute_entry(src, p.push(j as usize)) {
            None => None,
            Some(Err(e)) => Some(Err(e)),
            Some(Ok((name, value))) => if name == "group"@ {
                match decimal_value(value, u32::MAX as nat) {
                    Some(v) => attributes_from(src, p, j + 1, Some(v as u32), binding),
                    None => None,
                }
            } else if name == "binding"@ {
                match decimal_value(value, u32::MAX as nat) {
                    Some(v) => attributes_from(src, p, j + 1, group, Some(v as u32)),
                    None => None,
                }
            } else {
                attributes_from(src, p, j + 1, group, binding)
            },
        }
    }
}

/// The group and the binding of the declaration at `p`; both must be present.
pub open spec fn attributes_of(src: Seq<u8>, p: Seq<usize>) -> Option<Result<(u32, u32), GraphicsErrorView>> {
    match attributes_from(src, p, 0, None, None) {
        None => None,
        Some(Err(e)) => Some(Err(e)),
        Some(Ok((group, binding))) => match (group, binding) {
            (Some(g), Some(b)) => Some(Ok((g, b))),
            _ => Some(Err(GraphicsErrorView::WgslMissingAttribute)),
        },
    }
}

/// The kind of the type declaration at `t`: its first child, an identifier or a built-in type.
pub open spec fn type_decl_kind(src: Seq<u8>, t: Seq<usize>) -> Option<Result<VariableKind, GraphicsErrorView>> {
    let ident = match optional_child(src, t, 0, "ident"@) {
        Some(n) => Some(n),
        None => optional_child(src, t, 0, "type_decl_without_ident"@),
    };
    match ident {
        None => Some(Err(GraphicsErrorView::WgslMissingTypeDecl)),
        Some(n) => match source_text(src, n) {
            None => None,
            Some(Err(e)) => Some(Err(e)),
            Some(Ok(text)) => Some(Ok(variable_kind_of(text))),
        },
    }
}

/// The identifier and the kind that the node at `n` declares: identifier, `:`, type.
pub open spec fn identifier_and_kind(src: Seq<u8>, n: Seq<usize>) -> Option<Result<(Seq<char>, VariableKind), GraphicsErrorView>> {
    match expect_child(src, n, 0, "ident"@) {
        Err(e) => Some(Err(e)),
        Ok(i) => match source_text(src, i) {
            None => None,
            Some(Err(e)) => Some(Err(e)),
            Some(Ok(name)) => match expect_child(src, n, 1, "colon"@) {
                Err(e) => Some(Err(e)),
                Ok(_) => match expect_child(src, n, 2, "type_decl"@) {
                    Err(e) => Some(Err(e)),
                    Ok(t) => match type_decl_kind(src, t) {
                        None => None,
                        Some(Err(e)) => Some(Err(e)),
                        Some(Ok(k)) => Some(Ok((name, k))),
                    },
                },
            },
        },
    }
}

/// The address space and the access mode of the qualifier at `q`: `<`, space, and optionally
/// `,` and mode.
pub open spec fn qualifier_of(src: Seq<u8>, q: Seq<usize>) -> Option<Result<(Option<AddressSpace>, Option<AccessMode>), GraphicsErrorView>> {
    match expect_child(src, q, 0, "less_than"@) {
        Err(e) => Some(Err(e)),
        Ok(_) => match expect_child(src, q, 1, "address_space"@) {
            Err(e) => Some(Err(e)),
            Ok(a) => match required_text(src, a) {
                None => None,
                Some(text) => match address_space_of(text) {
                    None => Some(Err(GraphicsErrorView::WgslAddressSpaceParseError)),
                    Some(space) => match child_kind(src, q, 2) {
                        Some(k) => if k == "comma"@ {
                            match expect_child(src, q, 3, "access_mode"@) {
                                Err(e) => Some(Err(e)),
                                Ok(m) => match required_text(src, m) {
                                    None => None,
                                    Some(mt) => match access_mode_of(mt) {
                                        None => Some(Err(GraphicsErrorView::WgslAccessModeParseError)),
                                        Some(mode) => Some(Ok((Some(space), Some(mode)))),
                                    },
                                },
                            }
                        } else {
                            Some(Ok((Some(space), None)))
                        },
                        None => Some(Ok((Some(space), None))),
                    },
                },
            },
        },
    }
}

/// What a declaration has found so far: address space, access mode, identifier and kind.
pub type DeclarationParts = (Option<AddressSpace>, Option<AccessMode>, Option<Seq<char>>, Option<VariableKind>);

/// The parts that the `variable_decl` node at `c` gives: `var`, an optional qualifier, then
/// the identifier and its type; a missing qualifier keeps the address space and access mode
/// of `parts`.
pub open spec fn variable_decl_parts(src: Seq<u8>, c: Seq<usize>, parts: DeclarationParts) -> Option<Result<DeclarationParts, GraphicsErrorView>> {
    match expect_child(src, c, 0, "var"@) {
        Err(e) => Some(Err(e)),
        Ok(_) => {
            let q = optional_child(src, c, 1, "variable_qualifier"@);
            let k: int = if q is Some { 2 } else { 1 };
            let qualified = match q {
                Some(qn) => qualifier_of(src, qn),
                None => Some(Ok((parts.0, parts.1))),
            };
            match qualified {
                None => None,
                Some(Err(e)) => Some(Err(e)),
                Some(Ok((space, mode))) => match expect_child(src, c, k, "variable_ident_decl"@) {
                    Err(e) => Some(Err(e)),
                    Ok(n) => match identifier_and_kind(src, n) {
                        None => None,
                        Some(Err(e)) => Some(Err(e)),
                        Some(Ok((name, kind))) => Some(Ok((space, mode, Some(name), Some(kind)))),
                    },
                },
            }
        },
    }
}

/// The parts found going through the children of the declaration at `p` from child `j` on.
pub open spec fn declaration_from(src: Seq<u8>, p: Seq<usize>, j: int, parts: DeclarationParts) -> Option<Result<DeclarationParts, GraphicsErrorView>>
    decreases wgsl_child_count(src, p) - j,
{
    if j < 0 || j >= wgsl_child_count(src, p) {
        Some(Ok(parts))
    } else if wgsl_node_kind(src, p.push(j as usize)) != "variable_decl"@ {
        declaration_from(src, p, j + 1, parts)
    } else {
        match variable_decl_parts(src, p.push(j as usize), parts) {
            None => None,
            Some(Err(e)) => Some(Err(e)),
            Some(Ok(next)) => declaration_from(src, p, j + 1, next),
        }
    }
}

/// The variable that the global declaration at `p` declares: its attributes, then its
/// declaration, which must name an identifier.
pub open spec fn variable_of(src: Seq<u8>, p: Seq<usize>) -> Option<Result<VariableView, GraphicsErrorView>> {
    match attributes_of(src, p) {
        None => None,
        Some(Err(e)) => Some(Err(e)),
        Some(Ok((group, binding))) => match declaration_from(src, p, 0, (None, None, None, None)) {
            None => None,
            Some(Err(e)) => Some(Err(e)),
            Some(Ok((space, mode, name, kind))) => match (name, kind) {
                (Some(identifier), Some(kind)) => Some(
                    Ok(
                        VariableView {
                            group,
                            binding,
                            address_space: space,
                            access_mode: mode,
                            identifier,
                            kind,
                        },
                    ),
                ),
                _ => None,
            },
        },
    }
}

/// Whether the node at `p` has an attribute child.
pub open spec fn has_attribute(src: Seq<u8>, p: Seq<usize>) -> bool {
    exists|j: usize| j < wgsl_child_count(src, p) && #[trigger] wgsl_node_kind(src, p.push(j)) == "attribute"@
}

/// Whether top-level child `j` of the tree is a global variable declaration with attributes.
pub open spec fn declares_global_variable(src: Seq<u8>, j: int) -> bool {
    let c = Seq::<usize>::empty().push(j as usize);
    &&& wgsl_node_is_named(src, c)
    &&& wgsl_node_kind(src, c) == "global_variable_decl"@
    &&& has_attribute(src, c)
}

/// The variables declared by the top-level children of the tree from child `j` on, after
/// `found`.
pub open spec fn global_variables_from(src: Seq<u8>, j: int, found: Seq<VariableView>) -> Option<Result<Seq<VariableView>, GraphicsErrorView>>
    decreases wgsl_child_count(src, Seq::<usize>::empty()) - j,
{
    if j < 0 || j >= wgsl_child_count(src, Seq::<usize>::empty()) {
        Some(Ok(found))
    } else if !declares_global_variable(src, j) {
        global_variables_from(src, j + 1, found)
    } else {
        match variable_of(src, Seq::<usize>::empty().push(j as usize)) {
            None => None,
            Some(Err(e)) => Some(Err(e)),
            Some(Ok(v)) => global_variables_from(src, j + 1, found.push(v)),
        }
    }
}

/// The global variables with attributes that the WGSL tree of `src` declares, in order; the
/// first error stops the walk, and `None` stands for a tree on which the walk cannot go on
/// (a value that is no `u32`, a declaration without identifier, a node outside the source).
pub open spec fn global_variables(src: Seq<u8>) -> Option<Result<Seq<VariableView>, GraphicsErrorView>> {
    global_variables_from(src, 0, Seq::empty())
}

/// `r` is the outcome `s` describes: `None` for `None`, the same error, or a value whose
/// view by `f` is the described one.
pub open spec fn same_outcome<A, B>(
    r: Option<Result<A, GraphicsError>>,
    s: Option<Result<B, GraphicsErrorView>>,
    f: spec_fn(A) -> B,
) -> bool {
    match s {
        None => r is None,
        Some(Err(e)) => r matches Some(Err(x)) && x@ == e,
        Some(Ok(v)) => r matches Some(Ok(a)) && f(a) == v,
    }
}

/// The node's child `index`, which must be of kind `expected`.
fn expect<'t>(node: &WgslNode<'t>, index: usize, expected: &'static str) -> (r: Result<WgslNode<'t>, GraphicsError>)
    ensures
        match expect_child(node@.0, node@.1, index as int, expected@) {
            Ok(p) => r matches Ok(n) && n@ == (node@.0, p),
            Err(e) => r matches Err(x) && x@ == e,
        },
{
    if index < child_count(node) {
        match child(node, index) {
            Some(c) => {
                let k = kind(&c);
                if str_eq(k, expected) {
                    Ok(c)
                } else {
                    Err(GraphicsError::WgslParseError { expected, encountered: Some(k) })
                }
            },
            None => Err(GraphicsError::WgslParseError { expected, encountered: None }),
        }
    } else {
        Err(GraphicsError::WgslParseError { expected, encountered: None })
    }
}

/// The node's child `index`, when it is of kind `expected`.
fn optional<'t>(node: &WgslNode<'t>, index: usize, expected: &'static str) -> (r: Option<WgslNode<'t>>)
    ensures
        match optional_child(node@.0, node@.1, index as int, expected@) {
            Some(p) => r matches Some(n) && n@ == (node@.0, p),
            None => r is None,
        },
{
    if index < child_count(node) {
        match child(node, index) {
            Some(c) => if str_eq(kind(&c), expected) {
                Some(c)
            } else {
                None
            },
            None => None,
        }
    } else {
        None
    }
}

/// The source bytes that `node` covers.
fn bytes_of<'a>(source: &'a [u8], node: &WgslNode) -> (r: Option<&'a [u8]>)
    requires
        node@.0 == source@,
    ensures
        match node_bytes(node@.0, node@.1) {
            Some(b) => r matches Some(x) && x@ == b,
            None => r is None,
        },
{
    let start = start_byte(node);
    let end = end_byte(node);
    if start <= end && end <= source.len() {
        Some(&source[start..end])
    } else {
        None
    }
}

/// The text of `node`; `None` where the parse cannot go on.
fn required_text_of<'a>(source: &'a [u8], node: &WgslNode) -> (r: Option<&'a str>)
    requires
        node@.0 == source@,
    ensures
        match required_text(node@.0, node@.1) {
            Some(t) => r matches Some(x) && x@ == t,
            None => r is None,
        },
{
    match bytes_of(source, node) {
        Some(b) => match str_from_utf8(b) {
            Ok(t) => {
                proof {
                    vstd::utf8::encode_utf8_decode_utf8(t@);
                }
                Some(t)
            },
            Err(_) => None,
        },
        None => None,
    }
}

/// The text of `node`, with bytes that are not UTF-8 as an error.
fn source_text_of<'a>(source: &'a [u8], node: &WgslNode) -> (r: Option<Result<&'a str, GraphicsError>>)
    requires
        node@.0 == source@,
    ensures
        same_outcome(r, source_text(node@.0, node@.1), |t: &'a str| t@),
{
    match bytes_of(source, node) {
        Some(b) => match str_from_utf8(b) {
            Ok(t) => {
                proof {
                    vstd::utf8::encode_utf8_decode_utf8(t@);
                }
                Some(Ok(t))
            },
            Err(_) => Some(Err(GraphicsError::WgslParseSourceStringError)),
        },
        None => None,
    }
}

/// The name and the value of an attribute node.
fn parse_attribute_entry<'a>(source: &'a [u8], node: &WgslNode) -> (r: Option<Result<(&'a str, &'a str), GraphicsError>>)
    requires
        node@.0 == source@,
    ensures
        same_outcome(r, attribute_entry(node@.0, node@.1), |e: (&'a str, &'a str)| (e.0@, e.1.spec_bytes())),
{
    if let Err(e) = expect(node, 0, "attr") {
        return Some(Err(e));
    }
    let ident = match expect(node, 1, "ident") {
        Ok(n) => n,
        Err(e) => return Some(Err(e)),
    };
    if let Err(e) = expect(node, 2, "paren_left") {
        return Some(Err(e));
    }
    let value = match expect(node, 3, "literal_or_ident") {
        Ok(n) => n,
        Err(e) => return Some(Err(e)),
    };
    if let Err(e) = expect(node, 4, "paren_right") {
        return Some(Err(e));
    }
    let name = match required_text_of(source, &ident) {
        Some(t) => t,
        None => return None,
    };
    match bytes_of(source, &value) {
        Some(b) => match str_from_utf8(b) {
            Ok(t) => Some(Ok((name, t))),
            Err(_) => None,
        },
        None => None,
    }
}

/// The group and the binding attributes of a global declaration node.
fn parse_attributes(source: &[u8], node: &WgslNode) -> (r: Option<Result<Attributes, GraphicsError>>)
    requires
        node@.0 == source@,
    ensures
        same_outcome(r, attributes_of(node@.0, node@.1), |a: Attributes| (a.group, a.binding)),
{
    let count = child_count(node);
    let mut group: Option<u32> = None;
    let mut binding: Option<u32> = None;
    let mut j: usize = 0;
    while j < count
        invariant
            node@.0 == source@,
            count == wgsl_child_count(node@.0, node@.1),
            j <= count,
            attributes_from(node@.0, node@.1, 0, None, None) == attributes_from(node@.0, node@.1, j as int, group, binding),
        decreases count - j,
    {
        let c = child(node, j).unwrap();
        if str_eq(kind(&c), "attribute") {
            match parse_attribute_entry(source, &c) {
                None => return None,
                Some(Err(e)) => return Some(Err(e)),
                Some(Ok((name, value))) => {
                    if str_eq(name, "group") {
                        match parse_u32(value) {
                            Ok(v) => group = Some(v),
                            Err(_) => return None,
                        }
                    } else if str_eq(name, "binding") {
                        match parse_u32(value) {
                            Ok(v) => binding = Some(v),
                            Err(_) => return None,
                        }
                    }
                },
            }
        }
        j = j + 1;
    }
    match (group, binding) {
        (Some(group), Some(binding)) => Some(Ok(Attributes { group, binding })),
        _ => Some(Err(GraphicsError::WgslMissingAttribute)),
    }
}

/// The kind of a type declaration node.
fn parse_type_decl(source: &[u8], node: &WgslNode) -> (r: Option<Result<VariableKind, GraphicsError>>)
    requires
        node@.0 == source@,
    ensures
        same_outcome(r, type_decl_kind(node@.0, node@.1), |k: VariableKind| k),
{
    let mut ident = optional(node, 0, "ident");
    if ident.is_none() {
        ident = optional(node, 0, "type_decl_without_ident");
    }
    let ident = match ident {
        Some(n) => n,
        None => return Some(Err(GraphicsError::WgslMissingTypeDecl)),
    };
    match source_text_of(source, &ident) {
        None => None,
        Some(Err(e)) => Some(Err(e)),
        Some(Ok(text)) => Some(Ok(VariableKind::from(text))),
    }
}

/// The identifier and the kind that a `variable_ident_decl` node declares.
fn parse_identifier_and_kind(source: &[u8], node: &WgslNode) -> (r: Option<Result<(String, VariableKind), GraphicsError>>)
    requires
        node@.0 == source@,
    ensures
        same_outcome(r, identifier_and_kind(node@.0, node@.1), |e: (String, VariableKind)| (e.0@, e.1)),
{
    let ident = match expect(node, 0, "ident") {
        Ok(n) => n,
        Err(e) => return Some(Err(e)),
    };
    let name = match source_text_of(source, &ident) {
        None => return None,
        Some(Err(e)) => return Some(Err(e)),
        Some(Ok(text)) => text,
    };
    if let Err(e) = expect(node, 1, "colon") {
        return Some(Err(e));
    }
    let type_decl = match expect(node, 2, "type_decl") {
        Ok(n) => n,
        Err(e) => return Some(Err(e)),
    };
    match parse_type_decl(source, &type_decl) {
        None => None,
        Some(Err(e)) => Some(Err(e)),
        Some(Ok(kind)) => Some(Ok((name.to_owned(), kind))),
    }
}

/// The address space and the access mode of a `variable_qualifier` node.
fn parse_qualifier(source: &[u8], node: &WgslNode) -> (r: Option<Result<(Option<AddressSpace>, Option<AccessMode>), GraphicsError>>)
    requires
        node@.0 == source@,
    ensures
        same_outcome(r, qualifier_of(node@.0, node@.1), |q: (Option<AddressSpace>, Option<AccessMode>)| q),
{
    if let Err(e) = expect(node, 0, "less_than") {
        return Some(Err(e));
    }
    let space_node = match expect(node, 1, "address_space") {
        Ok(n) => n,
        Err(e) => return Some(Err(e)),
    };
    let space_text = match required_text_of(source, &space_node) {
        Some(t) => t,
        None => return None,
    };
    let space = match AddressSpace::try_from(space_text) {
        Ok(space) => space,
        Err(e) => return Some(Err(e)),
    };
    if 2 < child_count(node) {
        let next = child(node, 2).unwrap();
        if str_eq(kind(&next), "comma") {
            let mode_node = match expect(node, 3, "access_mode") {
                Ok(n) => n,
                Err(e) => return Some(Err(e)),
            };
            let mode_text = match required_text_of(source, &mode_node) {
                Some(t) => t,
                None => return None,
            };
            return match AccessMode::try_from(mode_text) {
                Ok(mode) => Some(Ok((Some(space), Some(mode)))),
                Err(e) => Some(Err(e)),
            };
        }
    }
    Some(Ok((Some(space), None)))
}

/// The parts that a `variable_decl` node gives, keeping `space` and `mode` when it has no
/// qualifier.
fn parse_variable_decl(
    source: &[u8],
    node: &WgslNode,
    space: Option<AddressSpace>,
    mode: Option<AccessMode>,
) -> (r: Option<Result<(Option<AddressSpace>, Option<AccessMode>, String, VariableKind), GraphicsError>>)
    requires
        node@.0 == source@,
    ensures
        forall|name: Option<Seq<char>>, kind: Option<VariableKind>|
            same_outcome(
                r,
                #[trigger] variable_decl_parts(node@.0, node@.1, (space, mode, name, kind)),
                |e: (Option<AddressSpace>, Option<AccessMode>, String, VariableKind)| (e.0, e.1, Some(e.2@), Some(e.3)),
            ),
{
    if let Err(e) = expect(node, 0, "var") {
        return Some(Err(e));
    }
    let qualifier = optional(node, 1, "variable_qualifier");
    let next: usize = if qualifier.is_some() { 2 } else { 1 };
    let (space, mode) = match qualifier {
        Some(q) => match parse_qualifier(source, &q) {
            None => return None,
            Some(Err(e)) => return Some(Err(e)),
            Some(Ok(parts)) => parts,
        },
        None => (space, mode),
    };
    let ident_decl = match expect(node, next, "variable_ident_decl") {
        Ok(n) => n,
        Err(e) => return Some(Err(e)),
    };
    match parse_identifier_and_kind(source, &ident_decl) {
        None => None,
        Some(Err(e)) => Some(Err(e)),
        Some(Ok((name, kind))) => Some(Ok((space, mode, name, kind))),
    }
}

/// The address space, access mode, identifier and kind that a global declaration node
/// declares.
fn parse_declaration(source: &[u8], node: &WgslNode) -> (r: Option<Result<(Option<AddressSpace>, Option<AccessMode>, String, VariableKind), GraphicsError>>)
    requires
        node@.0 == source@,
    ensures
        match declaration_from(node@.0, node@.1, 0, (None, None, None, None)) {
            None => r is None,
            Some(Err(e)) => r matches Some(Err(x)) && x@ == e,
            Some(Ok((space, mode, name, kind))) => match (name, kind) {
                (Some(name), Some(kind)) => r matches Some(Ok(d)) && d.0 == space && d.1 == mode && d.2@ == name && d.3 == kind,
                _ => r is None,
            },
        },
{
    let count = child_count(node);
    let mut space: Option<AddressSpace> = None;
    let mut mode: Option<AccessMode> = None;
    let mut identifier: Option<String> = None;
    let mut variable_kind: Option<VariableKind> = None;
    let ghost name_view: Option<Seq<char>> = None;
    let mut j: usize = 0;
    while j < count
        invariant
            node@.0 == source@,
            count == wgsl_child_count(node@.0, node@.1),
            j <= count,
            name_view == (match identifier {
                Some(s) => Some(s@),
                None => None::<Seq<char>>,
            }),
            declaration_from(node@.0, node@.1, 0, (None, None, None, None))
                == declaration_from(node@.0, node@.1, j as int, (space, mode, name_view, variable_kind)),
        decreases count - j,
    {
        let c = child(node, j).unwrap();
        if str_eq(kind(&c), "variable_decl") {
            proof {
                assert(variable_decl_parts(c@.0, c@.1, (space, mode, name_view, variable_kind))
                    == variable_decl_parts(node@.0, node@.1.push(j), (space, mode, name_view, variable_kind)));
            }
            match parse_variable_decl(source, &c, space, mode) {
                None => return None,
                Some(Err(e)) => return Some(Err(e)),
                Some(Ok((s, m, name, k))) => {
                    space = s;
                    mode = m;
                    proof {
                        name_view = Some(name@);
                    }
                    identifier = Some(name);
                    variable_kind = Some(k);
                },
            }
        }
        j = j + 1;
    }
    match (identifier, variable_kind) {
        (Some(name), Some(k)) => Some(Ok((space, mode, name, k))),
        _ => None,
    }
}

/// The variable that a global declaration node declares.
fn parse_variable(source: &[u8], node: &WgslNode) -> (r: Option<Result<Variable, GraphicsError>>)
    requires
        node@.0 == source@,
    ensures
        same_outcome(r, variable_of(node@.0, node@.1), |v: Variable| v@),
{
    let attributes = match parse_attributes(source, node) {
        None => return None,
        Some(Err(e)) => return Some(Err(e)),
        Some(Ok(a)) => a,
    };
    match parse_declaration(source, node) {
        None => None,
        Some(Err(e)) => Some(Err(e)),
        Some(Ok((address_space, access_mode, identifier, kind))) => Some(
            Ok(Variable { attributes, address_space, access_mode, identifier, kind }),
        ),
    }
}

/// Whether a node has an attribute child.
fn has_attribute_child(node: &WgslNode) -> (r: bool)
    ensures
        r == has_attribute(node@.0, node@.1),
{
    let count = child_count(node);
    let mut j: usize = 0;
    while j < count
        invariant
            count == wgsl_child_count(node@.0, node@.1),
            j <= count,
            forall|i: usize| i < j ==> #[trigger] wgsl_node_kind(node@.0, node@.1.push(i)) != "attribute"@,
        decreases count - j,
    {
        let c = child(node, j).unwrap();
        if str_eq(kind(&c), "attribute") {
            assert(wgsl_node_kind(node@.0, node@.1.push(j)) == "attribute"@);
            return true;
        }
        j = j + 1;
    }
    false
}

/// The global variables with attributes that `tree` declares, in order; `None` where the
/// walk cannot go on.
pub fn extract_global_variables_from_tree(tree: &WgslTree, source: &str) -> (r: Option<Result<Vec<Variable>, GraphicsError>>)
    requires
        tree@ == source.spec_bytes(),
    ensures
        same_outcome(r, global_variables(tree@), |v: Vec<Variable>| v@.map_values(|x: Variable| x@)),
{
    let bytes = source.as_bytes();
    let root = root_node(tree);
    let count = child_count(&root);
    let mut variables: Vec<Variable> = Vec::new();
    assert(variables@.map_values(|x: Variable| x@) =~= Seq::<VariableView>::empty());
    let mut j: usize = 0;
    while j < count
        invariant
            root@ == (tree@, Seq::<usize>::empty()),
            bytes@ == tree@,
            count == wgsl_child_count(tree@, Seq::<usize>::empty()),
            j <= count,
            global_variables(tree@) == global_variables_from(tree@, j as int, variables@.map_values(|x: Variable| x@)),
        decreases count - j,
    {
        let c = child(&root, j).unwrap();
        if is_named(&c) && str_eq(kind(&c), "global_variable_decl") && has_attribute_child(&c) {
            match parse_variable(bytes, &c) {
                None => return None,
                Some(Err(e)) => return Some(Err(e)),
                Some(Ok(v)) => {
                    let ghost before = variables@;
                    variables.push(v);
                    proof {
                        assert(variables@.map_values(|x: Variable| x@) =~= before.map_values(|x: Variable| x@).push(v@));
                    }
                },
            }
        }
        j = j + 1;
    }
    Some(Ok(variables))
}

/// Parses the global variables of a WGSL shader: those declared with attributes, in order,
/// as `global_variables` describes them for the source's bytes. (Tree-sitter counts byte
/// offsets in `u32`, so the source must fit.)
pub fn extract_global_variables_from_shader_source(source: &str) -> (r: Result<Vec<Variable>, GraphicsError>)
    requires
        source.spec_bytes().len() <= u32::MAX,
        global_variables(source.spec_bytes()) is Some,
    ensures
        global_variables(source.spec_bytes()) matches Some(Ok(vars)) ==> (r matches Ok(v)
            && v@.map_values(|x: Variable| x@) == vars),
        global_variables(source.spec_bytes()) matches Some(Err(e)) ==> (r matches Err(x) && x@ == e),
{
    let mut parser = match set_wgsl_language(Parser::new(), WgslLanguage::new()) {
        Ok(parser) => parser,
        Err(_) => return Err(GraphicsError::WgslTreeSitterLanguageError),
    };
    let tree = match parse_source(&mut parser, source) {
        Some(tree) => tree,
        None => return Err(GraphicsError::WgslTreeSitterParseError),
    };
    match extract_global_variables_from_tree(&tree, source) {
        Some(r) => r,
        None => Err(GraphicsError::WgslTreeSitterParseError),
    }
}

/// Like `extract_global_variables_from_shader_source`, but `None` where the walk of the
/// source's tree cannot go on. (Tree-sitter counts byte offsets in `u32`, so the source must
/// fit.)
pub fn checked_extract_global_variables(source: &str) -> (r: Option<Result<Vec<Variable>, GraphicsError>>)
    requires
        source.spec_bytes().len() <= u32::MAX,
    ensures
        same_outcome(r, global_variables(source.spec_bytes()), |v: Vec<Variable>| v@.map_values(|x: Variable| x@)),
{
    let mut parser = match set_wgsl_language(Parser::new(), WgslLanguage::new()) {
        Ok(parser) => parser,
        Err(_) => return Some(Err(GraphicsError::WgslTreeSitterLanguageError)),
    };
    let tree = match parse_source(&mut parser, source) {
        Some(tree) => tree,
        None => return Some(Err(GraphicsError::WgslTreeSitterParseError)),
    };
    match extract_global_variables_from_tree(&tree, source) {
        None => None,
        Some(_) => Some(extract_global_variables_from_shader_source(source)),
    }
}

} // verus!
