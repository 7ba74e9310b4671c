//! Declarations of the language and the decisions its parser takes when it
//! reads one: which declaration comes next, and which leading attributes and
//! modifiers that declaration accepts.

use vstd::prelude::*;

verus! {

/// A range of source text.
#[derive(Debug, Clone, Copy, PartialEq, Eq, Structural)]
pub struct Span {
    pub start: usize,
    pub end: usize,
}

/// The kind of a token.
#[derive(Debug, Clone, Copy, PartialEq, Eq, Structural)]
pub enum Kind {
    /// The end of the input.
    Eof,
    /// An identifier.
    Ident,
    /// The `use` keyword.
    Use,
    /// The `enum` keyword.
    Enum,
    /// The `struct` keyword.
    Struct,
    /// The `impl` keyword.
    Impl,
    /// The `async` keyword.
    Async,
    /// The `fn` keyword.
    Fn,
    /// The `mod` keyword.
    Mod,
    /// The `const` keyword.
    Const,
    /// The `pub` keyword.
    Pub,
    /// `#`.
    Pound,
    /// `;`.
    SemiColon,
    /// `::`.
    ColonColon,
    /// Any other token.
    Other,
}

/// A token: its kind and where it stands.
#[derive(Debug, Clone, Copy, PartialEq, Eq, Structural)]
pub struct Token {
    pub span: Span,
    pub kind: Kind,
}

/// Looks ahead in a stream of tokens without consuming them.
pub struct Peeker {
    tokens: Vec<Token>,
}

/// The kind of the `n`th token ahead, or end of input past the last one.
pub open spec fn spec_nth(tokens: Seq<Token>, n: int) -> Kind {
    if 0 <= n < tokens.len() {
        tokens[n].kind
    } else {
        Kind::Eof
    }
}

impl View for Peeker {
    type V = Seq<Token>;

    closed spec fn view(&self) -> Seq<Token> {
        self.tokens@
    }
}

impl Peeker {
    /// A peeker over the given tokens.
    pub fn new(tokens: Vec<Token>) -> (p: Peeker)
        ensures
            p@ == tokens@,
    {
        Peeker { tokens }
    }

    /// The kind of the `n`th token ahead.
    pub fn nth(&self, n: usize) -> (kind: Kind)
        ensures
            kind == spec_nth(self@, n as int),
    {
        if n < self.tokens.len() {
            self.tokens[n].kind
        } else {
            Kind::Eof
        }
    }
}

/// Whether the tokens ahead begin a declaration.
pub open spec fn spec_starts_item(first: Kind, second: Kind) -> bool {
    match first {
        Kind::Use | Kind::Enum | Kind::Struct | Kind::Impl | Kind::Fn | Kind::Mod | Kind::Const => true,
        Kind::Async => second == Kind::Fn,
        _ => false,
    }
}

/// An attribute, such as `#[test]`.
#[derive(Debug, Clone, Copy, PartialEq, Eq, Structural)]
pub struct Attribute {
    pub span: Span,
}

/// A visibility modifier.
#[derive(Debug, Clone, Copy, PartialEq, Eq, Structural)]
pub enum Visibility {
    /// No modifier.
    Inherited,
    /// `pub`, or a restricted form of it.
    Public(Span),
}

impl Visibility {
    /// The span of the modifier, if there is one.
    pub open spec fn spec_span(self) -> Option<Span> {
        match self {
            Visibility::Inherited => None,
            Visibility::Public(span) => Some(span),
        }
    }
}

/// The body of a struct declaration.
#[derive(Debug, Clone, Copy, PartialEq, Eq, Structural)]
pub enum StructBody {
    /// `struct Foo;`
    Empty,
    /// `struct Foo(a, b);`
    Tuple,
    /// `struct Foo { a, b }`
    Named,
}

/// A path, such as `foo::bar`, by its extent.
#[derive(Debug, Clone, Copy, PartialEq, Eq, Structural)]
pub struct Path {
    pub span: Span,
}

/// A parsed declaration: what was read before it (its attributes, its
/// visibility, its `const` and `async` modifiers and, for a macro call, its
/// path) and its extent.
#[derive(Debug)]
pub struct Decl {
    pub attributes: Vec<Attribute>,
    pub visibility: Visibility,
    pub const_token: Option<Span>,
    pub async_token: Option<Span>,
    pub path: Option<Path>,
    pub span: Span,
}

/// What a declaration parser read of the declaration proper: its extent, the
/// body of a struct, and the path of a macro call that it read itself.
#[derive(Debug, Clone, Copy, PartialEq, Eq, Structural)]
pub struct DeclBody {
    pub span: Span,
    pub struct_body: StructBody,
    pub path: Option<Path>,
}

/// A declaration.
#[derive(Debug)]
pub enum Item {
    /// A use declaration.
    Use(Decl),
    /// A function declaration.
    Fn(Decl),
    /// An enum declaration.
    Enum(Decl),
    /// A struct declaration.
    Struct(Decl, StructBody),
    /// An impl declaration.
    Impl(Decl),
    /// A module declaration.
    Mod(Decl),
    /// A const declaration.
    Const(Decl),
    /// A macro call expanding into an item.
    MacroCall(Decl),
}

impl Item {
    /// The declaration part of the item.
    pub open spec fn spec_decl(&self) -> Decl {
        match self {
            Item::Use(d) => *d,
            Item::Fn(d) => *d,
            Item::Enum(d) => *d,
            Item::Struct(d, _) => *d,
            Item::Impl(d) => *d,
            Item::Mod(d) => *d,
            Item::Const(d) => *d,
            Item::MacroCall(d) => *d,
        }
    }

    /// The attributes of the item.
    pub fn attributes(&self) -> (attributes: &Vec<Attribute>)
        ensures
            attributes@ == self.spec_decl().attributes@,
    {
        match self {
            Item::Use(d) => &d.attributes,
            Item::Fn(d) => &d.attributes,
            Item::Enum(d) => &d.attributes,
            Item::Struct(d, _) => &d.attributes,
            Item::Impl(d) => &d.attributes,
            Item::Mod(d) => &d.attributes,
            Item::Const(d) => &d.attributes,
            Item::MacroCall(d) => &d.attributes,
        }
    }

    /// Whether the declaration is terminated by a semicolon: uses, consts, and
    /// structs without a body or with a tuple body.
    pub open spec fn spec_needs_semi_colon(&self) -> bool {
        match self {
            Item::Use(_) => true,
            Item::Struct(_, body) => body != StructBody::Named,
            Item::Const(_) => true,
            _ => false,
        }
    }

    /// Whether the declaration needs a semicolon after it.
    pub fn needs_semi_colon(&self) -> (b: bool)
        ensures
            b == self.spec_needs_semi_colon(),
    {
        match self {
            Item::Use(_) => true,
            Item::Struct(_, body) => match body {
                StructBody::Empty => true,
                StructBody::Tuple => true,
                StructBody::Named => false,
            },
            Item::Const(_) => true,
            _ => false,
        }
    }

    /// Whether the tokens ahead begin a declaration that may stand in a file.
    pub fn peek_as_item(p: &Peeker) -> (b: bool)
        ensures
            b == spec_starts_item(spec_nth(p@, 0), spec_nth(p@, 1)),
    {
        match p.nth(0) {
            Kind::Use => true,
            Kind::Enum => true,
            Kind::Struct => true,
            Kind::Impl => true,
            Kind::Async => match p.nth(1) {
                Kind::Fn => true,
                _ => false,
            },
            Kind::Fn => true,
            Kind::Mod => true,
            Kind::Const => true,
            _ => false,
        }
    }
}

/// What the parser expected when it found something else.
#[derive(Debug, Clone, Copy, PartialEq, Eq, Structural)]
pub enum Expectation {
    /// The start of a declaration.
    ItemDeclaration,
}

impl Expectation {
    /// A description for diagnostics.
    pub open spec fn spec_description(self) -> &'static str {
        match self {
            Expectation::ItemDeclaration => "`fn`, `mod`, `struct`, `enum`, `use`, or macro call",
        }
    }

    /// A description for diagnostics.
    pub fn description(self) -> (d: &'static str)
        ensures
            d == self.spec_description(),
    {
        match self {
            Expectation::ItemDeclaration => "`fn`, `mod`, `struct`, `enum`, `use`, or macro call",
        }
    }
}

/// Something the parser read but does not support where it stands.
#[derive(Debug, Clone, Copy, PartialEq, Eq, Structural)]
pub enum Unsupported {
    ConstModifier,
    AsyncModifier,
    Attribute,
    VisibilityModifier,
}

impl Unsupported {
    /// A description for diagnostics.
    pub open spec fn spec_description(self) -> &'static str {
        match self {
            Unsupported::ConstModifier => "const modifier",
            Unsupported::AsyncModifier => "async modifier",
            Unsupported::Attribute => "attribute",
            Unsupported::VisibilityModifier => "visibility modifier",
        }
    }

    /// A description for diagnostics.
    pub fn description(self) -> (d: &'static str)
        ensures
            d == self.spec_description(),
    {
        match self {
            Unsupported::ConstModifier => "const modifier",
            Unsupported::AsyncModifier => "async modifier",
            Unsupported::Attribute => "attribute",
            Unsupported::VisibilityModifier => "visibility modifier",
        }
    }
}

/// An error raised while parsing.
#[derive(Debug)]
pub enum ParseError {
    /// A token was found where something else was expected.
    Expected { span: Span, actual: Kind, expected: Expectation },
    /// Something was found that is not supported where it stands.
    Unsupported { span: Span, what: Unsupported },
    /// Any other error, with a message.
    Message { span: Span, message: String },
}

/// The declaration parser that the next token selects.
#[derive(Debug, Clone, Copy, PartialEq, Eq, Structural)]
pub enum ItemTarget {
    /// A macro call whose path was read before the modifiers.
    MacroCallWithPath,
    Use,
    Enum,
    Struct,
    Impl,
    Fn,
    Mod,
    Const,
    /// A macro call whose path is still to be read.
    MacroCall,
}

impl ItemTarget {
    /// The declaration parser for the next token `next`, after a `const`
    /// modifier was read or not; none if no declaration starts with it.
    pub open spec fn spec_select(has_path: bool, has_const: bool, next: Kind) -> Option<ItemTarget> {
        if has_path {
            Some(ItemTarget::MacroCallWithPath)
        } else {
            match next {
                Kind::Use => Some(ItemTarget::Use),
                Kind::Enum => Some(ItemTarget::Enum),
                Kind::Struct => Some(ItemTarget::Struct),
                Kind::Impl => Some(ItemTarget::Impl),
                Kind::Fn => Some(ItemTarget::Fn),
                Kind::Mod => Some(ItemTarget::Mod),
                Kind::Ident => if has_const {
                    Some(ItemTarget::Const)
                } else {
                    Some(ItemTarget::MacroCall)
                },
                _ => None,
            }
        }
    }

    /// Whether the declaration takes the attributes read before it.
    pub open spec fn spec_takes_attributes(self) -> bool {
        self != ItemTarget::MacroCall
    }

    /// Whether the declaration takes the visibility read before it.
    pub open spec fn spec_takes_visibility(self) -> bool {
        match self {
            ItemTarget::Use | ItemTarget::Enum | ItemTarget::Struct | ItemTarget::Fn
            | ItemTarget::Mod | ItemTarget::Const => true,
            _ => false,
        }
    }

    /// Whether the declaration takes a `const` modifier.
    pub open spec fn spec_takes_const(self) -> bool {
        self == ItemTarget::Fn || self == ItemTarget::Const
    }

    /// Whether the declaration takes an `async` modifier.
    pub open spec fn spec_takes_async(self) -> bool {
        self == ItemTarget::Fn
    }
}

/// What the parser has read before the declaration proper: the attributes,
/// the visibility, the `const` and `async` modifiers if present, and a
/// macro path if one was read first.
#[derive(Debug)]
pub struct ItemMeta {
    pub attributes: Vec<Attribute>,
    pub visibility: Visibility,
    pub const_token: Option<Span>,
    pub async_token: Option<Span>,
    pub path: Option<Path>,
}

/// The span of a run of attributes: from the start of the first to the end
/// of the last; none if there are none.
pub open spec fn spec_attributes_span(attributes: Seq<Attribute>) -> Option<Span> {
    if attributes.len() == 0 {
        None
    } else {
        Some(Span { start: attributes[0].span.start, end: attributes.last().span.end })
    }
}

/// The first leading part that the selected declaration left unused, as the
/// error it is reported by, checked in the order `const`, `async`, attributes,
/// visibility. A macro call whose path was read first reads no modifiers.
pub open spec fn spec_leftover_error(meta: ItemMeta, target: ItemTarget) -> Option<ParseError> {
    let has_path = meta.path is Some;
    let const_left = if has_path || target.spec_takes_const() {
        None
    } else {
        meta.const_token
    };
    let async_left = if has_path || target.spec_takes_async() {
        None
    } else {
        meta.async_token
    };
    let attributes_left = if target.spec_takes_attributes() {
        None
    } else {
        spec_attributes_span(meta.attributes@)
    };
    let visibility_left = if target.spec_takes_visibility() {
        None
    } else {
        meta.visibility.spec_span()
    };
    if let Some(span) = const_left {
        Some(ParseError::Unsupported { span, what: Unsupported::ConstModifier })
    } else if let Some(span) = async_left {
        Some(ParseError::Unsupported { span, what: Unsupported::AsyncModifier })
    } else if let Some(span) = attributes_left {
        Some(ParseError::Unsupported { span, what: Unsupported::Attribute })
    } else if let Some(span) = visibility_left {
        Some(ParseError::Unsupported { span, what: Unsupported::VisibilityModifier })
    } else {
        None
    }
}

/// The declaration that the parser selected by `target` yields from what was
/// read before it and from `body`: it carries the attributes, the visibility
/// and the modifiers (none after a macro path, which reads none), and the
/// macro path read first or else the one its parser read.
pub open spec fn spec_build_item(meta: ItemMeta, target: ItemTarget, body: DeclBody) -> Item {
    let has_path = meta.path is Some;
    let decl = Decl {
        attributes: meta.attributes,
        visibility: meta.visibility,
        const_token: if has_path { None } else { meta.const_token },
        async_token: if has_path { None } else { meta.async_token },
        path: if has_path { meta.path } else { body.path },
        span: body.span,
    };
    match target {
        ItemTarget::Use => Item::Use(decl),
        ItemTarget::Enum => Item::Enum(decl),
        ItemTarget::Struct => Item::Struct(decl, body.struct_body),
        ItemTarget::Impl => Item::Impl(decl),
        ItemTarget::Fn => Item::Fn(decl),
        ItemTarget::Mod => Item::Mod(decl),
        ItemTarget::Const => Item::Const(decl),
        ItemTarget::MacroCall | ItemTarget::MacroCallWithPath => Item::MacroCall(decl),
    }
}

/// The outcome of parsing a declaration: the selected declaration parser runs
/// and yields `parsed`; the leading parts the declaration does not take are
/// refused; otherwise the declaration is built with what was read before it.
pub open spec fn spec_parse_item(meta: ItemMeta, next: Token, parsed: Result<DeclBody, ParseError>) -> Result<
    Item,
    ParseError,
> {
    match ItemTarget::spec_select(meta.path is Some, meta.const_token is Some, next.kind) {
        None => Err(
            ParseError::Expected {
                span: next.span,
                actual: next.kind,
                expected: Expectation::ItemDeclaration,
            },
        ),
        Some(target) => match parsed {
            Err(e) => Err(e),
            Ok(body) => match spec_leftover_error(meta, target) {
                Some(e) => Err(e),
                None => Ok(spec_build_item(meta, target, body)),
            },
        },
    }
}

impl ItemTarget {
    /// Select the declaration parser for the token `next`.
    pub fn select(has_path: bool, has_const: bool, next: Kind) -> (target: Option<ItemTarget>)
        ensures
            target == ItemTarget::spec_select(has_path, has_const, next),
    {
        if has_path {
            return Some(ItemTarget::MacroCallWithPath);
        }
        match next {
            Kind::Use => Some(ItemTarget::Use),
            Kind::Enum => Some(ItemTarget::Enum),
            Kind::Struct => Some(ItemTarget::Struct),
            Kind::Impl => Some(ItemTarget::Impl),
            Kind::Fn => Some(ItemTarget::Fn),
            Kind::Mod => Some(ItemTarget::Mod),
            Kind::Ident => if has_const {
                Some(ItemTarget::Const)
            } else {
                Some(ItemTarget::MacroCall)
            },
            _ => None,
        }
    }
}

/// The span of a run of attributes: from the start of the first to the end
/// of the last; none if there are none.
pub fn attributes_span(attributes: &Vec<Attribute>) -> (span: Option<Span>)
    ensures
        span == spec_attributes_span(attributes@),
{
    let n = attributes.len();
    if n == 0 {
        None
    } else {
        Some(Span { start: attributes[0].span.start, end: attributes[n - 1].span.end })
    }
}

impl Visibility {
    /// The span of the modifier, if there is one.
    pub fn span(&self) -> (span: Option<Span>)
        ensures
            span == self.spec_span(),
    {
        match self {
            Visibility::Inherited => None,
            Visibility::Public(span) => Some(*span),
        }
    }
}

impl Item {
    /// Finish parsing a declaration. `meta` holds what was read before it,
    /// `next` is the token that selects the declaration parser, and `parsed` is
    /// what the selected parser read of the declaration proper. The leading
    /// parts that the declaration does not take are refused; the declaration
    /// is built with those it takes.
    pub fn parse_with_meta_path(meta: ItemMeta, next: Token, parsed: Result<DeclBody, ParseError>) -> (r:
        Result<Item, ParseError>)
        ensures
            r == spec_parse_item(meta, next, parsed),
    {
        let has_path = meta.path.is_some();
        let target = match ItemTarget::select(has_path, meta.const_token.is_some(), next.kind) {
            Some(target) => target,
            None => {
                return Err(
                    ParseError::Expected {
                        span: next.span,
                        actual: next.kind,
                        expected: Expectation::ItemDeclaration,
                    },
                );
            },
        };
        let body = match parsed {
            Ok(body) => body,
            Err(e) => {
                return Err(e);
            },
        };
        // What the selected declaration leaves of the leading parts.
        let (takes_attributes, takes_visibility, takes_const, takes_async) = match target {
            ItemTarget::MacroCallWithPath => (true, false, true, true),
            ItemTarget::Use | ItemTarget::Enum | ItemTarget::Struct | ItemTarget::Mod => (
                true,
                true,
                false,
                false,
            ),
            ItemTarget::Impl => (true, false, false, false),
            ItemTarget::Fn => (true, true, true, true),
            ItemTarget::Const => (true, true, true, false),
            ItemTarget::MacroCall => (false, false, false, false),
        };
        if !takes_const {
            if let Some(span) = meta.const_token {
                return Err(ParseError::Unsupported { span, what: Unsupported::ConstModifier });
            }
        }
        if !takes_async {
            if let Some(span) = meta.async_token {
                return Err(ParseError::Unsupported { span, what: Unsupported::AsyncModifier });
            }
        }
        if !takes_attributes {
            if let Some(span) = attributes_span(&meta.attributes) {
                return Err(ParseError::Unsupported { span, what: Unsupported::Attribute });
            }
        }
        if !takes_visibility {
            if let Some(span) = meta.visibility.span() {
                return Err(ParseError::Unsupported { span, what: Unsupported::VisibilityModifier });
            }
        }
        let ItemMeta { attributes, visibility, const_token, async_token, path } = meta;
        let decl = Decl {
            attributes,
            visibility,
            const_token: if has_path {
                None
            } else {
                const_token
            },
            async_token: if has_path {
                None
            } else {
                async_token
            },
            path: if has_path {
                path
            } else {
                body.path
            },
            span: body.span,
        };
        let item = match target {
            ItemTarget::Use => Item::Use(decl),
            ItemTarget::Enum => Item::Enum(decl),
            ItemTarget::Struct => Item::Struct(decl, body.struct_body),
            ItemTarget::Impl => Item::Impl(decl),
            ItemTarget::Fn => Item::Fn(decl),
            ItemTarget::Mod => Item::Mod(decl),
            ItemTarget::Const => Item::Const(decl),
            ItemTarget::MacroCall | ItemTarget::MacroCallWithPath => Item::MacroCall(decl),
        };
        Ok(item)
    }
}

} // verus!
