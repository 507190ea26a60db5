//! Schema parser: turns schema text into a repository name and a list of raw
//! object declarations.
//!
//! Grammar: `<RepositoryName> ';' (<kind> <Name> '{' (<key> ':' <names> (',')?)* '}')*`,
//! where `<names>` is one identifier or a comma-separated list of them.
use vstd::prelude::*;
use crate::ident::{is_upper, is_lower, is_alnum, is_upper_char, is_alnum_char};
use crate::text::{chars_of, extend_chars, string_of};

verus! {

/// A range of character positions in the schema text.
#[derive(Clone, Copy, PartialEq, Eq, Structural, Debug)]
pub struct Span {
    pub start: usize,
    pub end: usize,
}

#[derive(Clone, Copy, PartialEq, Eq, Structural, Debug)]
pub enum TokenKind {
    Ident,
    Semi,
    Colon,
    Comma,
    OpenBrace,
    CloseBrace,
}

#[derive(Clone, Copy, PartialEq, Eq, Structural, Debug)]
pub struct Token {
    pub kind: TokenKind,
    pub span: Span,
}

pub open spec fn span_text(s: Seq<char>, sp: Span) -> Seq<char> {
    s.subrange(sp.start as int, sp.end as int)
}

pub open spec fn span_in(sp: Span, len: nat) -> bool {
    sp.start <= sp.end <= len
}

pub open spec fn is_ident_start(c: char) -> bool {
    is_upper(c) || is_lower(c) || c == '_'
}

pub open spec fn is_ident_continue(c: char) -> bool {
    is_alnum(c) || c == '_'
}

pub open spec fn is_space(c: char) -> bool {
    c == ' ' || c == '\t' || c == '\n' || c == '\r'
}

pub open spec fn punct_kind(c: char) -> Option<TokenKind> {
    if c == ';' {
        Some(TokenKind::Semi)
    } else if c == ':' {
        Some(TokenKind::Colon)
    } else if c == ',' {
        Some(TokenKind::Comma)
    } else if c == '{' {
        Some(TokenKind::OpenBrace)
    } else if c == '}' {
        Some(TokenKind::CloseBrace)
    } else {
        None
    }
}

/// The lexer after a prefix of the text: the tokens so far, the start of the
/// identifier being read, and the position of a character that no token can
/// hold.
pub struct LexState {
    pub tokens: Seq<Token>,
    pub open: Option<usize>,
    pub failed: Option<usize>,
}

/// The tokens, with the identifier being read (if any) ended at `i`.
pub open spec fn close_ident(st: LexState, i: usize) -> Seq<Token> {
    match st.open {
        Some(b) => st.tokens.push(Token { kind: TokenKind::Ident, span: Span { start: b, end: i } }),
        None => st.tokens,
    }
}

pub open spec fn lex_step(st: LexState, c: char, i: usize) -> LexState {
    if st.failed is Some {
        st
    } else if st.open is Some && is_ident_continue(c) {
        st
    } else {
        let toks = close_ident(st, i);
        if is_space(c) {
            LexState { tokens: toks, open: None, failed: None }
        } else if is_ident_start(c) {
            LexState { tokens: toks, open: Some(i), failed: None }
        } else {
            match punct_kind(c) {
                Some(k) => LexState {
                    tokens: toks.push(Token { kind: k, span: Span { start: i, end: (i + 1) as usize } }),
                    open: None,
                    failed: None,
                },
                None => LexState { tokens: toks, open: None, failed: Some(i) },
            }
        }
    }
}

pub open spec fn lex_scan(s: Seq<char>, n: nat) -> LexState
    decreases n,
{
    if n == 0 {
        LexState { tokens: Seq::empty(), open: None, failed: None }
    } else {
        lex_step(lex_scan(s, (n - 1) as nat), s[n - 1], (n - 1) as usize)
    }
}

/// The tokens of the text; when some character belongs to no token, the
/// tokens before it.
pub open spec fn lex_tokens(s: Seq<char>) -> Seq<Token> {
    let st = lex_scan(s, s.len());
    match st.failed {
        Some(_) => st.tokens,
        None => close_ident(st, s.len() as usize),
    }
}

/// The position of the first character that belongs to no token.
pub open spec fn lex_failure(s: Seq<char>) -> Option<usize> {
    lex_scan(s, s.len()).failed
}

fn is_ident_start_char(c: char) -> (r: bool)
    ensures
        r == is_ident_start(c),
{
    ('A' <= c && c <= 'Z') || ('a' <= c && c <= 'z') || c == '_'
}

fn is_ident_continue_char(c: char) -> (r: bool)
    ensures
        r == is_ident_continue(c),
{
    is_alnum_char(c) || c == '_'
}

fn punct_kind_char(c: char) -> (r: Option<TokenKind>)
    ensures
        r == punct_kind(c),
{
    if c == ';' {
        Some(TokenKind::Semi)
    } else if c == ':' {
        Some(TokenKind::Colon)
    } else if c == ',' {
        Some(TokenKind::Comma)
    } else if c == '{' {
        Some(TokenKind::OpenBrace)
    } else if c == '}' {
        Some(TokenKind::CloseBrace)
    } else {
        None
    }
}

/// Splits the text into tokens, up to the first character that belongs to
/// no token; returns the tokens and that character's position, if any.
pub fn tokenize(s: &Vec<char>) -> (r: (Vec<Token>, Option<usize>))
    ensures
        r.0@ == lex_tokens(s@),
        r.1 == lex_failure(s@),
        forall|j: int| 0 <= j < r.0@.len() ==> span_in(#[trigger] r.0@[j].span, s@.len()),
{
    let mut tokens: Vec<Token> = Vec::new();
    let mut open: Option<usize> = None;
    let mut failed: Option<usize> = None;
    let mut i: usize = 0;
    while i < s.len()
        invariant
            i <= s.len(),
            lex_scan(s@, i as nat) == (LexState { tokens: tokens@, open, failed }),
            forall|j: int| 0 <= j < tokens@.len() ==> span_in(#[trigger] tokens@[j].span, i as nat),
            match open {
                Some(b) => b < i,
                None => true,
            },
        decreases s.len() - i,
    {
        let c = s[i];
        if failed.is_some() {
        } else if open.is_some() && is_ident_continue_char(c) {
        } else {
            if let Some(b) = open {
                tokens.push(Token { kind: TokenKind::Ident, span: Span { start: b, end: i } });
            }
            if c == ' ' || c == '\t' || c == '\n' || c == '\r' {
                open = None;
            } else if is_ident_start_char(c) {
                open = Some(i);
            } else {
                match punct_kind_char(c) {
                    Some(k) => {
                        tokens.push(Token { kind: k, span: Span { start: i, end: i + 1 } });
                        open = None;
                    },
                    None => {
                        open = None;
                        failed = Some(i);
                    },
                }
            }
        }
        i += 1;
    }
    if failed.is_none() {
        if let Some(b) = open {
            tokens.push(Token { kind: TokenKind::Ident, span: Span { start: b, end: i } });
        }
    }
    (tokens, failed)
}

/// The six kinds of object a schema can declare.
#[derive(Clone, Copy, PartialEq, Eq, Structural, Debug)]
pub enum ObjectKind {
    Root,
    OrderedChild,
    UnorderedChild,
    Batch,
    Singleton,
    SingletonFamily,
}

/// The kind that a keyword names.
pub open spec fn kind_of_word(w: Seq<char>) -> Option<ObjectKind> {
    if w == "root"@ {
        Some(ObjectKind::Root)
    } else if w == "ordered_child"@ {
        Some(ObjectKind::OrderedChild)
    } else if w == "unordered_child"@ {
        Some(ObjectKind::UnorderedChild)
    } else if w == "batch"@ {
        Some(ObjectKind::Batch)
    } else if w == "singleton"@ {
        Some(ObjectKind::Singleton)
    } else if w == "singleton_family"@ {
        Some(ObjectKind::SingletonFamily)
    } else {
        None
    }
}

/// Whether the text at two spans is the same.
pub fn same_text(s: &Vec<char>, a: Span, b: Span) -> (r: bool)
    requires
        span_in(a, s@.len()),
        span_in(b, s@.len()),
    ensures
        r == (span_text(s@, a) == span_text(s@, b)),
{
    let n = a.end - a.start;
    if b.end - b.start != n {
        assert(span_text(s@, a).len() != span_text(s@, b).len());
        return false;
    }
    let mut i: usize = 0;
    while i < n
        invariant
            a.start + n == a.end <= s@.len(),
            b.start + n == b.end <= s@.len(),
            i <= n,
            forall|j: int| 0 <= j < i ==> span_text(s@, a)[j] == #[trigger] span_text(s@, b)[j],
        decreases n - i,
    {
        if s[a.start + i] != s[b.start + i] {
            assert(span_text(s@, a)[i as int] != span_text(s@, b)[i as int]);
            return false;
        }
        i += 1;
    }
    assert(span_text(s@, a) =~= span_text(s@, b));
    true
}

/// Whether `s@.subrange(start, end)` is the text `lit`.
fn text_is(s: &Vec<char>, start: usize, end: usize, lit: &str) -> (r: bool)
    requires
        start <= end <= s@.len(),
    ensures
        r == (s@.subrange(start as int, end as int) == lit@),
{
    let n = lit.unicode_len();
    if end - start != n {
        return false;
    }
    let mut i: usize = 0;
    while i < n
        invariant
            n == lit@.len(),
            start + n == end <= s@.len(),
            i <= n,
            forall|j: int| 0 <= j < i ==> s@[start + j] == lit@[j],
        decreases n - i,
    {
        if s[start + i] != lit.get_char(i) {
            assert(s@.subrange(start as int, end as int)[i as int] != lit@[i as int]);
            return false;
        }
        i += 1;
    }
    assert(s@.subrange(start as int, end as int) =~= lit@);
    true
}

fn kind_of_text(s: &Vec<char>, sp: Span) -> (r: Option<ObjectKind>)
    requires
        span_in(sp, s@.len()),
    ensures
        r == kind_of_word(span_text(s@, sp)),
{
    if text_is(s, sp.start, sp.end, "root") {
        Some(ObjectKind::Root)
    } else if text_is(s, sp.start, sp.end, "ordered_child") {
        Some(ObjectKind::OrderedChild)
    } else if text_is(s, sp.start, sp.end, "unordered_child") {
        Some(ObjectKind::UnorderedChild)
    } else if text_is(s, sp.start, sp.end, "batch") {
        Some(ObjectKind::Batch)
    } else if text_is(s, sp.start, sp.end, "singleton") {
        Some(ObjectKind::Singleton)
    } else if text_is(s, sp.start, sp.end, "singleton_family") {
        Some(ObjectKind::SingletonFamily)
    } else {
        None
    }
}

impl ObjectKind {
    /// The keywords, as a diagnostic lists them.
    pub fn expected_list() -> (r: &'static str)
        ensures
            r@ == "`root`, `ordered_child`, `unordered_child`, `batch`, `singleton`, or `singleton_family`"@,
    {
        "`root`, `ordered_child`, `unordered_child`, `batch`, `singleton`, or `singleton_family`"
    }

    /// The kind that the keyword `s` names.
    pub fn from_str(s: &str) -> (r: Option<ObjectKind>)
        ensures
            r == kind_of_word(s@),
    {
        let cs = chars_of(s);
        let r = kind_of_text(&cs, Span { start: 0, end: cs.len() });
        assert(cs@.subrange(0, cs@.len() as int) =~= s@);
        r
    }

    /// Whether `s` is one of the kind keywords.
    pub fn is_keyword_ident(s: &str) -> (r: bool)
        ensures
            r == (kind_of_word(s@) is Some),
    {
        Self::from_str(s).is_some()
    }

    /// The keyword that names this kind.
    pub fn keyword(&self) -> (r: &'static str)
        ensures
            kind_of_word(r@) == Some(*self),
    {
        proof {
            reveal_strlit("root");
            reveal_strlit("ordered_child");
            reveal_strlit("unordered_child");
            reveal_strlit("batch");
            reveal_strlit("singleton");
            reveal_strlit("singleton_family");
        }
        let r = match self {
            ObjectKind::Root => "root",
            ObjectKind::OrderedChild => "ordered_child",
            ObjectKind::UnorderedChild => "unordered_child",
            ObjectKind::Batch => "batch",
            ObjectKind::Singleton => "singleton",
            ObjectKind::SingletonFamily => "singleton_family",
        };
        // The keywords differ in length, which tells them apart.
        assert("root"@.len() == 4 && "batch"@.len() == 5 && "singleton"@.len() == 9 && "ordered_child"@.len()
            == 13 && "unordered_child"@.len() == 15 && "singleton_family"@.len() == 16);
        r
    }
}

/// The property keys of an object declaration.
#[derive(Clone, Copy, PartialEq, Eq, Structural, Debug)]
pub enum Prop {
    Parent,
    OrderedChildren,
    UnorderedChildren,
    BatchChildren,
    SingletonChildren,
    SingletonFamilyChildren,
}

pub open spec fn prop_of_word(w: Seq<char>) -> Option<Prop> {
    if w == "parent"@ {
        Some(Prop::Parent)
    } else if w == "ordered_children"@ {
        Some(Prop::OrderedChildren)
    } else if w == "unordered_children"@ {
        Some(Prop::UnorderedChildren)
    } else if w == "batch_children"@ {
        Some(Prop::BatchChildren)
    } else if w == "singleton_children"@ {
        Some(Prop::SingletonChildren)
    } else if w == "singleton_family_children"@ {
        Some(Prop::SingletonFamilyChildren)
    } else {
        None
    }
}

fn prop_of_text(s: &Vec<char>, sp: Span) -> (r: Option<Prop>)
    requires
        span_in(sp, s@.len()),
    ensures
        r == prop_of_word(span_text(s@, sp)),
{
    if text_is(s, sp.start, sp.end, "parent") {
        Some(Prop::Parent)
    } else if text_is(s, sp.start, sp.end, "ordered_children") {
        Some(Prop::OrderedChildren)
    } else if text_is(s, sp.start, sp.end, "unordered_children") {
        Some(Prop::UnorderedChildren)
    } else if text_is(s, sp.start, sp.end, "batch_children") {
        Some(Prop::BatchChildren)
    } else if text_is(s, sp.start, sp.end, "singleton_children") {
        Some(Prop::SingletonChildren)
    } else if text_is(s, sp.start, sp.end, "singleton_family_children") {
        Some(Prop::SingletonFamilyChildren)
    } else {
        None
    }
}

/// What went wrong while reading or validating a schema.
#[derive(Clone, Copy, PartialEq, Eq, Structural, Debug)]
pub enum SchemaErrorKind {
    /// A character that starts no token.
    UnexpectedChar,
    /// An identifier was expected here.
    ExpectedIdent,
    /// The schema starts with a kind keyword instead of a repository name.
    MissingRepositoryName,
    /// The repository name is not followed by `;`.
    ExpectedSemicolon,
    /// The word in kind position is no kind keyword.
    UnknownKind,
    /// The object name is not followed by `{`.
    ExpectedOpenBrace,
    /// A property key is not followed by `:`.
    ExpectedColon,
    /// A property key that no object takes.
    UnknownProperty,
    /// A property given twice in one object.
    DuplicateProperty(Prop),
    /// A name list ends in a comma.
    ExpectedIdentAfterComma,
    /// The text ends inside a declaration.
    UnexpectedEnd,
    /// A `root` object with a `parent` property.
    RootWithParent,
    /// A child or batch object without a `parent` property.
    MissingParent,
    /// A `parent` property that names no object.
    EmptyParent,
    /// A batch, singleton or singleton-family object with child properties.
    LeafWithChildren,
    /// A parent or child name that no declaration in the schema has.
    UnknownObject,
}

/// A schema error and the position of the text it points at.
#[derive(Clone, Copy, PartialEq, Eq, Structural, Debug)]
pub struct SchemaError {
    pub kind: SchemaErrorKind,
    pub pos: usize,
}

/// One object declaration as written: its kind, its name, and its
/// properties. A child list that was not written is empty.
#[derive(Debug)]
pub struct ObjectDecl {
    pub kind: ObjectKind,
    pub name: Span,
    pub parent: Option<Vec<Span>>,
    pub ordered_children: Vec<Span>,
    pub unordered_children: Vec<Span>,
    pub batch_children: Vec<Span>,
    pub singleton_children: Vec<Span>,
    pub singleton_family_children: Vec<Span>,
}

pub struct ObjectDeclView {
    pub kind: ObjectKind,
    pub name: Span,
    pub parent: Option<Seq<Span>>,
    pub ordered_children: Seq<Span>,
    pub unordered_children: Seq<Span>,
    pub batch_children: Seq<Span>,
    pub singleton_children: Seq<Span>,
    pub singleton_family_children: Seq<Span>,
}

pub open spec fn opt_view(o: Option<Vec<Span>>) -> Option<Seq<Span>> {
    match o {
        Some(v) => Some(v@),
        None => None,
    }
}

impl View for ObjectDecl {
    type V = ObjectDeclView;

    open spec fn view(&self) -> ObjectDeclView {
        ObjectDeclView {
            kind: self.kind,
            name: self.name,
            parent: opt_view(self.parent),
            ordered_children: self.ordered_children@,
            unordered_children: self.unordered_children@,
            batch_children: self.batch_children@,
            singleton_children: self.singleton_children@,
            singleton_family_children: self.singleton_family_children@,
        }
    }
}

/// A parsed schema: the repository name and the declarations in order.
#[derive(Debug)]
pub struct ConfigAst {
    pub text: Vec<char>,
    pub repository_name: Span,
    pub objects: Vec<ObjectDecl>,
}

pub struct ConfigAstView {
    pub text: Seq<char>,
    pub repository_name: Span,
    pub objects: Seq<ObjectDeclView>,
}

pub open spec fn decls_view(v: Seq<ObjectDecl>) -> Seq<ObjectDeclView> {
    v.map_values(|d: ObjectDecl| d@)
}

impl View for ConfigAst {
    type V = ConfigAstView;

    open spec fn view(&self) -> ConfigAstView {
        ConfigAstView {
            text: self.text@,
            repository_name: self.repository_name,
            objects: decls_view(self.objects@),
        }
    }
}

/// The properties read so far in one declaration.
pub struct PropsView {
    pub parent: Option<Seq<Span>>,
    pub ordered_children: Option<Seq<Span>>,
    pub unordered_children: Option<Seq<Span>>,
    pub batch_children: Option<Seq<Span>>,
    pub singleton_children: Option<Seq<Span>>,
    pub singleton_family_children: Option<Seq<Span>>,
}

pub open spec fn no_props() -> PropsView {
    PropsView {
        parent: None,
        ordered_children: None,
        unordered_children: None,
        batch_children: None,
        singleton_children: None,
        singleton_family_children: None,
    }
}

pub open spec fn prop_get(ps: PropsView, p: Prop) -> Option<Seq<Span>> {
    match p {
        Prop::Parent => ps.parent,
        Prop::OrderedChildren => ps.ordered_children,
        Prop::UnorderedChildren => ps.unordered_children,
        Prop::BatchChildren => ps.batch_children,
        Prop::SingletonChildren => ps.singleton_children,
        Prop::SingletonFamilyChildren => ps.singleton_family_children,
    }
}

pub open spec fn prop_set(ps: PropsView, p: Prop, v: Seq<Span>) -> PropsView {
    match p {
        Prop::Parent => PropsView { parent: Some(v), ..ps },
        Prop::OrderedChildren => PropsView { ordered_children: Some(v), ..ps },
        Prop::UnorderedChildren => PropsView { unordered_children: Some(v), ..ps },
        Prop::BatchChildren => PropsView { batch_children: Some(v), ..ps },
        Prop::SingletonChildren => PropsView { singleton_children: Some(v), ..ps },
        Prop::SingletonFamilyChildren => PropsView { singleton_family_children: Some(v), ..ps },
    }
}

pub open spec fn or_empty(o: Option<Seq<Span>>) -> Seq<Span> {
    match o {
        Some(v) => v,
        None => Seq::empty(),
    }
}

pub open spec fn decl_of(kind: ObjectKind, name: Span, ps: PropsView) -> ObjectDeclView {
    ObjectDeclView {
        kind,
        name,
        parent: ps.parent,
        ordered_children: or_empty(ps.ordered_children),
        unordered_children: or_empty(ps.unordered_children),
        batch_children: or_empty(ps.batch_children),
        singleton_children: or_empty(ps.singleton_children),
        singleton_family_children: or_empty(ps.singleton_family_children),
    }
}

/// Where the parser stands between two tokens.
#[derive(Clone, Copy, PartialEq, Eq, Structural, Debug)]
pub enum Phase {
    /// Before the repository name.
    RepoName,
    /// After the repository name, before `;`.
    Semi,
    /// Between declarations: a kind keyword or the end may follow.
    Kind,
    /// After the kind keyword.
    Name,
    /// After the object name, before `{`.
    Open,
    /// Inside the braces, where a key or `}` may follow.
    Key,
    /// After a key, before `:`.
    Colon,
    /// After `:`, where the first name of the list follows.
    Item,
    /// After a name of the list.
    AfterItem,
    /// After a comma that follows a name of the list.
    AfterComma,
}

/// The parser after a prefix of the tokens.
pub struct ParseState {
    pub phase: Phase,
    pub repo: Span,
    pub objects: Seq<ObjectDeclView>,
    pub kind: ObjectKind,
    pub name: Span,
    pub props: PropsView,
    pub key: Prop,
    pub list: Seq<Span>,
    pub err: Option<SchemaError>,
}

pub open spec fn all_in(v: Seq<Span>, len: nat) -> bool {
    forall|k: int| 0 <= k < v.len() ==> span_in(#[trigger] v[k], len)
}

pub open spec fn opt_all_in(o: Option<Seq<Span>>, len: nat) -> bool {
    match o {
        Some(v) => all_in(v, len),
        None => true,
    }
}

/// Every span of the declaration lies within a text of length `len`.
pub open spec fn decl_spans_in(d: ObjectDeclView, len: nat) -> bool {
    &&& span_in(d.name, len)
    &&& opt_all_in(d.parent, len)
    &&& all_in(d.ordered_children, len)
    &&& all_in(d.unordered_children, len)
    &&& all_in(d.batch_children, len)
    &&& all_in(d.singleton_children, len)
    &&& all_in(d.singleton_family_children, len)
}

pub open spec fn props_spans_in(p: PropsView, len: nat) -> bool {
    &&& opt_all_in(p.parent, len)
    &&& opt_all_in(p.ordered_children, len)
    &&& opt_all_in(p.unordered_children, len)
    &&& opt_all_in(p.batch_children, len)
    &&& opt_all_in(p.singleton_children, len)
    &&& opt_all_in(p.singleton_family_children, len)
}

pub open spec fn state_spans_in(st: ParseState, len: nat) -> bool {
    &&& span_in(st.repo, len)
    &&& span_in(st.name, len)
    &&& all_in(st.list, len)
    &&& props_spans_in(st.props, len)
    &&& forall|k: int| 0 <= k < st.objects.len() ==> decl_spans_in(#[trigger] st.objects[k], len)
}

/// Every span of a parsed schema lies within its text.
pub open spec fn ast_spans_in(a: ConfigAstView) -> bool {
    &&& span_in(a.repository_name, a.text.len())
    &&& forall|k: int| 0 <= k < a.objects.len() ==> decl_spans_in(#[trigger] a.objects[k], a.text.len())
}

pub open spec fn fail(st: ParseState, kind: SchemaErrorKind, pos: usize) -> ParseState {
    ParseState { err: Some(SchemaError { kind, pos }), ..st }
}

/// The list being read, stored under its key.
pub open spec fn store_list(st: ParseState) -> ParseState {
    ParseState { props: prop_set(st.props, st.key, st.list), list: Seq::empty(), ..st }
}

/// A token where a key or the closing brace is expected.
pub open spec fn on_key(s: Seq<char>, st: ParseState, t: Token) -> ParseState {
    match t.kind {
        TokenKind::CloseBrace => ParseState {
            phase: Phase::Kind,
            objects: st.objects.push(decl_of(st.kind, st.name, st.props)),
            props: no_props(),
            ..st
        },
        TokenKind::Ident => match prop_of_word(span_text(s, t.span)) {
            None => fail(st, SchemaErrorKind::UnknownProperty, t.span.start),
            Some(p) => if prop_get(st.props, p) is Some {
                fail(st, SchemaErrorKind::DuplicateProperty(p), t.span.start)
            } else {
                ParseState { phase: Phase::Colon, key: p, ..st }
            },
        },
        _ => fail(st, SchemaErrorKind::ExpectedIdent, t.span.start),
    }
}

/// One token, with the token after it (if any) as lookahead.
pub open spec fn parse_step(s: Seq<char>, st: ParseState, t: Token, next: Option<Token>) -> ParseState {
    if st.err is Some {
        st
    } else {
        match st.phase {
            Phase::RepoName => if t.kind == TokenKind::Ident {
                ParseState { phase: Phase::Semi, repo: t.span, ..st }
            } else {
                fail(st, SchemaErrorKind::ExpectedIdent, t.span.start)
            },
            Phase::Semi => if t.kind == TokenKind::Semi {
                ParseState { phase: Phase::Kind, ..st }
            } else if kind_of_word(span_text(s, st.repo)) is Some {
                fail(st, SchemaErrorKind::MissingRepositoryName, st.repo.start)
            } else {
                fail(st, SchemaErrorKind::ExpectedSemicolon, st.repo.start)
            },
            Phase::Kind => if t.kind == TokenKind::Ident {
                match kind_of_word(span_text(s, t.span)) {
                    Some(k) => ParseState { phase: Phase::Name, kind: k, ..st },
                    None => fail(st, SchemaErrorKind::UnknownKind, t.span.start),
                }
            } else {
                fail(st, SchemaErrorKind::ExpectedIdent, t.span.start)
            },
            Phase::Name => if t.kind == TokenKind::Ident {
                ParseState { phase: Phase::Open, name: t.span, ..st }
            } else {
                fail(st, SchemaErrorKind::ExpectedIdent, t.span.start)
            },
            Phase::Open => if t.kind == TokenKind::OpenBrace {
                ParseState { phase: Phase::Key, props: no_props(), ..st }
            } else {
                fail(st, SchemaErrorKind::ExpectedOpenBrace, t.span.start)
            },
            Phase::Key => on_key(s, st, t),
            Phase::Colon => if t.kind == TokenKind::Colon {
                ParseState { phase: Phase::Item, list: Seq::empty(), ..st }
            } else {
                fail(st, SchemaErrorKind::ExpectedColon, t.span.start)
            },
            Phase::Item => if t.kind == TokenKind::Ident {
                ParseState { phase: Phase::AfterItem, list: st.list.push(t.span), ..st }
            } else {
                fail(st, SchemaErrorKind::ExpectedIdent, t.span.start)
            },
            Phase::AfterItem => if t.kind == TokenKind::Comma {
                ParseState { phase: Phase::AfterComma, ..st }
            } else {
                on_key(s, store_list(st), t)
            },
            Phase::AfterComma => match t.kind {
                TokenKind::Ident => if next is Some && next->0.kind == TokenKind::Colon {
                    on_key(s, store_list(st), t)
                } else {
                    ParseState { phase: Phase::AfterItem, list: st.list.push(t.span), ..st }
                },
                TokenKind::CloseBrace => fail(st, SchemaErrorKind::ExpectedIdentAfterComma, t.span.start),
                _ => fail(st, SchemaErrorKind::ExpectedIdent, t.span.start),
            },
        }
    }
}

pub open spec fn start_state() -> ParseState {
    ParseState {
        phase: Phase::RepoName,
        repo: Span { start: 0, end: 0 },
        objects: Seq::empty(),
        kind: ObjectKind::Root,
        name: Span { start: 0, end: 0 },
        props: no_props(),
        key: Prop::Parent,
        list: Seq::empty(),
        err: None,
    }
}

pub open spec fn lookahead(toks: Seq<Token>, n: int) -> Option<Token> {
    if 0 <= n < toks.len() { Some(toks[n]) } else { None }
}

pub open spec fn parse_scan(s: Seq<char>, toks: Seq<Token>, n: nat) -> ParseState
    decreases n,
{
    if n == 0 {
        start_state()
    } else {
        parse_step(s, parse_scan(s, toks, (n - 1) as nat), toks[n - 1], lookahead(toks, n as int))
    }
}

/// The error for a repository name that no `;` follows.
pub open spec fn missing_semicolon(s: Seq<char>, repo: Span) -> SchemaError {
    if kind_of_word(span_text(s, repo)) is Some {
        SchemaError { kind: SchemaErrorKind::MissingRepositoryName, pos: repo.start }
    } else {
        SchemaError { kind: SchemaErrorKind::ExpectedSemicolon, pos: repo.start }
    }
}

/// The schema that a token sequence spells, or the first error in it.
pub open spec fn parse_tokens(s: Seq<char>, toks: Seq<Token>) -> Result<ConfigAstView, SchemaError> {
    let st = parse_scan(s, toks, toks.len());
    match st.err {
        Some(e) => Err(e),
        None => match st.phase {
            Phase::Kind => Ok(ConfigAstView { text: s, repository_name: st.repo, objects: st.objects }),
            Phase::RepoName => Err(SchemaError { kind: SchemaErrorKind::ExpectedIdent, pos: s.len() as usize }),
            Phase::Semi => Err(missing_semicolon(s, st.repo)),
            _ => Err(SchemaError { kind: SchemaErrorKind::UnexpectedEnd, pos: s.len() as usize }),
        },
    }
}

/// The error for a character at `p` that starts no token, met where the
/// parser stands in `st`: it says what was expected there when one thing
/// was.
pub open spec fn foreign_char_error(s: Seq<char>, st: ParseState, p: usize) -> SchemaError {
    match st.phase {
        Phase::Semi => missing_semicolon(s, st.repo),
        Phase::Open => SchemaError { kind: SchemaErrorKind::ExpectedOpenBrace, pos: p },
        Phase::Colon => SchemaError { kind: SchemaErrorKind::ExpectedColon, pos: p },
        Phase::Name | Phase::Item => SchemaError { kind: SchemaErrorKind::ExpectedIdent, pos: p },
        _ => SchemaError { kind: SchemaErrorKind::UnexpectedChar, pos: p },
    }
}

/// The schema that the text spells, or the first error in it: a grammar
/// error among the tokens before a character that starts no token comes
/// before that character's error.
pub open spec fn parse_schema(s: Seq<char>) -> Result<ConfigAstView, SchemaError> {
    let toks = lex_tokens(s);
    match lex_failure(s) {
        None => parse_tokens(s, toks),
        Some(p) => {
            let st = parse_scan(s, toks, toks.len());
            match st.err {
                Some(e) => Err(e),
                None => Err(foreign_char_error(s, st, p)),
            }
        },
    }
}

proof fn lemma_error_sticks(s: Seq<char>, toks: Seq<Token>, m: nat, n: nat)
    requires
        m <= n,
        parse_scan(s, toks, m).err is Some,
    ensures
        parse_scan(s, toks, n).err == parse_scan(s, toks, m).err,
    decreases n - m,
{
    if m < n {
        lemma_error_sticks(s, toks, m, (n - 1) as nat);
    }
}

/// The first error the parser meets among the tokens is the result of the
/// whole parse.
pub proof fn lemma_first_error_is_reported(s: Seq<char>, n: nat)
    requires
        n <= lex_tokens(s).len(),
        parse_scan(s, lex_tokens(s), n).err is Some,
    ensures
        parse_schema(s) == Err::<ConfigAstView, SchemaError>(parse_scan(s, lex_tokens(s), n).err->0),
{
    lemma_error_sticks(s, lex_tokens(s), n, lex_tokens(s).len());
}

/// Token `n` of the text stands where a property key may start: inside a
/// declaration's braces, after `{`, after a complete property, or after the
/// names of a list that no comma ends; and no error came before it.
pub open spec fn at_key(s: Seq<char>, n: nat) -> bool {
    let st = parse_scan(s, lex_tokens(s), n);
    &&& n < lex_tokens(s).len()
    &&& st.err is None
    &&& (st.phase == Phase::Key || st.phase == Phase::AfterItem)
}

/// Property `p` was already given in the declaration being read when token
/// `n` comes.
pub open spec fn key_given(s: Seq<char>, n: nat, p: Prop) -> bool {
    let st = parse_scan(s, lex_tokens(s), n);
    prop_get(st.props, p) is Some || (st.phase == Phase::AfterItem && st.key == p)
}

/// A property key given twice in one declaration fails the parse at its
/// second occurrence.
pub proof fn lemma_duplicate_key_fails(s: Seq<char>, n: nat, p: Prop)
    requires
        at_key(s, n),
        lex_tokens(s)[n as int].kind == TokenKind::Ident,
        prop_of_word(span_text(s, lex_tokens(s)[n as int].span)) == Some(p),
        key_given(s, n, p),
    ensures
        parse_schema(s) == Err::<ConfigAstView, SchemaError>(
            SchemaError { kind: SchemaErrorKind::DuplicateProperty(p), pos: lex_tokens(s)[n as int].span.start },
        ),
{
    lemma_first_error_is_reported(s, n + 1);
}

/// A word in key position that names no property fails the parse at that
/// word.
pub proof fn lemma_unknown_key_fails(s: Seq<char>, n: nat)
    requires
        at_key(s, n),
        lex_tokens(s)[n as int].kind == TokenKind::Ident,
        prop_of_word(span_text(s, lex_tokens(s)[n as int].span)) is None,
    ensures
        parse_schema(s) == Err::<ConfigAstView, SchemaError>(
            SchemaError { kind: SchemaErrorKind::UnknownProperty, pos: lex_tokens(s)[n as int].span.start },
        ),
{
    lemma_first_error_is_reported(s, n + 1);
}

/// A name list that ends in a comma right before `}` fails the parse at the
/// brace.
pub proof fn lemma_trailing_comma_fails(s: Seq<char>, n: nat)
    requires
        0 < n < lex_tokens(s).len(),
        parse_scan(s, lex_tokens(s), (n - 1) as nat).err is None,
        parse_scan(s, lex_tokens(s), (n - 1) as nat).phase == Phase::AfterItem,
        lex_tokens(s)[n - 1].kind == TokenKind::Comma,
        lex_tokens(s)[n as int].kind == TokenKind::CloseBrace,
    ensures
        parse_schema(s) == Err::<ConfigAstView, SchemaError>(
            SchemaError { kind: SchemaErrorKind::ExpectedIdentAfterComma, pos: lex_tokens(s)[n as int].span.start },
        ),
{
    let toks = lex_tokens(s);
    assert(parse_scan(s, toks, n).phase == Phase::AfterComma && parse_scan(s, toks, n).err is None);
    assert(parse_scan(s, toks, n + 1).err == Some(
        SchemaError { kind: SchemaErrorKind::ExpectedIdentAfterComma, pos: toks[n as int].span.start },
    ));
    lemma_first_error_is_reported(s, n + 1);
}

/// The order in which a declaration gives its properties does not matter:
/// storing two different keys in either order gives the same properties,
/// hence the same declaration.
pub proof fn lemma_property_order(ps: PropsView, p: Prop, a: Seq<Span>, q: Prop, b: Seq<Span>, kind: ObjectKind, name: Span)
    requires
        p != q,
    ensures
        prop_set(prop_set(ps, p, a), q, b) == prop_set(prop_set(ps, q, b), p, a),
        decl_of(kind, name, prop_set(prop_set(ps, p, a), q, b)) == decl_of(kind, name, prop_set(prop_set(ps, q, b), p, a)),
{
}

/// The properties read so far in one declaration.
struct Props {
    parent: Option<Vec<Span>>,
    ordered_children: Option<Vec<Span>>,
    unordered_children: Option<Vec<Span>>,
    batch_children: Option<Vec<Span>>,
    singleton_children: Option<Vec<Span>>,
    singleton_family_children: Option<Vec<Span>>,
}

impl View for Props {
    type V = PropsView;

    closed spec fn view(&self) -> PropsView {
        PropsView {
            parent: opt_view(self.parent),
            ordered_children: opt_view(self.ordered_children),
            unordered_children: opt_view(self.unordered_children),
            batch_children: opt_view(self.batch_children),
            singleton_children: opt_view(self.singleton_children),
            singleton_family_children: opt_view(self.singleton_family_children),
        }
    }
}

fn vec_or_empty(o: Option<Vec<Span>>) -> (r: Vec<Span>)
    ensures
        r@ == or_empty(opt_view(o)),
{
    match o {
        Some(v) => v,
        None => Vec::new(),
    }
}

impl Props {
    fn new() -> (r: Props)
        ensures
            r@ == no_props(),
    {
        Props {
            parent: None,
            ordered_children: None,
            unordered_children: None,
            batch_children: None,
            singleton_children: None,
            singleton_family_children: None,
        }
    }

    fn has(&self, p: Prop) -> (r: bool)
        ensures
            r == (prop_get(self@, p) is Some),
    {
        match p {
            Prop::Parent => self.parent.is_some(),
            Prop::OrderedChildren => self.ordered_children.is_some(),
            Prop::UnorderedChildren => self.unordered_children.is_some(),
            Prop::BatchChildren => self.batch_children.is_some(),
            Prop::SingletonChildren => self.singleton_children.is_some(),
            Prop::SingletonFamilyChildren => self.singleton_family_children.is_some(),
        }
    }

    fn set(&mut self, p: Prop, v: Vec<Span>)
        ensures
            final(self)@ == prop_set(old(self)@, p, v@),
    {
        match p {
            Prop::Parent => self.parent = Some(v),
            Prop::OrderedChildren => self.ordered_children = Some(v),
            Prop::UnorderedChildren => self.unordered_children = Some(v),
            Prop::BatchChildren => self.batch_children = Some(v),
            Prop::SingletonChildren => self.singleton_children = Some(v),
            Prop::SingletonFamilyChildren => self.singleton_family_children = Some(v),
        }
    }

    fn into_decl(self, kind: ObjectKind, name: Span) -> (r: ObjectDecl)
        ensures
            r@ == decl_of(kind, name, self@),
    {
        ObjectDecl {
            kind,
            name,
            parent: self.parent,
            ordered_children: vec_or_empty(self.ordered_children),
            unordered_children: vec_or_empty(self.unordered_children),
            batch_children: vec_or_empty(self.batch_children),
            singleton_children: vec_or_empty(self.singleton_children),
            singleton_family_children: vec_or_empty(self.singleton_family_children),
        }
    }
}

struct Parser {
    phase: Phase,
    repo: Span,
    objects: Vec<ObjectDecl>,
    kind: ObjectKind,
    name: Span,
    props: Props,
    key: Prop,
    list: Vec<Span>,
    err: Option<SchemaError>,
}

impl View for Parser {
    type V = ParseState;

    closed spec fn view(&self) -> ParseState {
        ParseState {
            phase: self.phase,
            repo: self.repo,
            objects: decls_view(self.objects@),
            kind: self.kind,
            name: self.name,
            props: self.props@,
            key: self.key,
            list: self.list@,
            err: self.err,
        }
    }
}

impl Parser {
    fn new() -> (r: Parser)
        ensures
            r@ == start_state(),
    {
        let r = Parser {
            phase: Phase::RepoName,
            repo: Span { start: 0, end: 0 },
            objects: Vec::new(),
            kind: ObjectKind::Root,
            name: Span { start: 0, end: 0 },
            props: Props::new(),
            key: Prop::Parent,
            list: Vec::new(),
            err: None,
        };
        assert(decls_view(r.objects@) =~= Seq::empty());
        r
    }

    fn fail(&mut self, kind: SchemaErrorKind, pos: usize, Ghost(len): Ghost<nat>)
        requires
            state_spans_in(old(self)@, len),
        ensures
            final(self)@ == fail(old(self)@, kind, pos),
            state_spans_in(final(self)@, len),
    {
        self.err = Some(SchemaError { kind, pos });
    }

    fn store_list(&mut self, Ghost(len): Ghost<nat>)
        requires
            state_spans_in(old(self)@, len),
        ensures
            final(self)@ == store_list(old(self)@),
            state_spans_in(final(self)@, len),
    {
        let mut list: Vec<Span> = Vec::new();
        std::mem::swap(&mut list, &mut self.list);
        self.props.set(self.key, list);
    }

    fn on_key(&mut self, s: &Vec<char>, t: Token)
        requires
            span_in(t.span, s@.len()),
            state_spans_in(old(self)@, s@.len()),
        ensures
            final(self)@ == on_key(s@, old(self)@, t),
            state_spans_in(final(self)@, s@.len()),
    {
        match t.kind {
            TokenKind::CloseBrace => {
                let mut props = Props::new();
                std::mem::swap(&mut props, &mut self.props);
                let d = props.into_decl(self.kind, self.name);
                let ghost before = self.objects@;
                self.objects.push(d);
                assert(decls_view(self.objects@) =~= decls_view(before).push(d@));
                self.phase = Phase::Kind;
            },
            TokenKind::Ident => match prop_of_text(s, t.span) {
                None => self.fail(SchemaErrorKind::UnknownProperty, t.span.start, Ghost(s@.len())),
                Some(p) => {
                    if self.props.has(p) {
                        self.fail(SchemaErrorKind::DuplicateProperty(p), t.span.start, Ghost(s@.len()));
                    } else {
                        self.phase = Phase::Colon;
                        self.key = p;
                    }
                },
            },
            _ => self.fail(SchemaErrorKind::ExpectedIdent, t.span.start, Ghost(s@.len())),
        }
    }

    fn step(&mut self, s: &Vec<char>, t: Token, next: Option<Token>)
        requires
            span_in(t.span, s@.len()),
            state_spans_in(old(self)@, s@.len()),
        ensures
            final(self)@ == parse_step(s@, old(self)@, t, next),
            state_spans_in(final(self)@, s@.len()),
    {
        if self.err.is_some() {
            return;
        }
        match self.phase {
            Phase::RepoName => {
                if t.kind == TokenKind::Ident {
                    self.phase = Phase::Semi;
                    self.repo = t.span;
                } else {
                    self.fail(SchemaErrorKind::ExpectedIdent, t.span.start, Ghost(s@.len()));
                }
            },
            Phase::Semi => {
                if t.kind == TokenKind::Semi {
                    self.phase = Phase::Kind;
                } else if kind_of_text(s, self.repo).is_some() {
                    let pos = self.repo.start;
                    self.fail(SchemaErrorKind::MissingRepositoryName, pos, Ghost(s@.len()));
                } else {
                    let pos = self.repo.start;
                    self.fail(SchemaErrorKind::ExpectedSemicolon, pos, Ghost(s@.len()));
                }
            },
            Phase::Kind => {
                if t.kind == TokenKind::Ident {
                    match kind_of_text(s, t.span) {
                        Some(k) => {
                            self.phase = Phase::Name;
                            self.kind = k;
                        },
                        None => self.fail(SchemaErrorKind::UnknownKind, t.span.start, Ghost(s@.len())),
                    }
                } else {
                    self.fail(SchemaErrorKind::ExpectedIdent, t.span.start, Ghost(s@.len()));
                }
            },
            Phase::Name => {
                if t.kind == TokenKind::Ident {
                    self.phase = Phase::Open;
                    self.name = t.span;
                } else {
                    self.fail(SchemaErrorKind::ExpectedIdent, t.span.start, Ghost(s@.len()));
                }
            },
            Phase::Open => {
                if t.kind == TokenKind::OpenBrace {
                    self.phase = Phase::Key;
                    self.props = Props::new();
                } else {
                    self.fail(SchemaErrorKind::ExpectedOpenBrace, t.span.start, Ghost(s@.len()));
                }
            },
            Phase::Key => self.on_key(s, t),
            Phase::Colon => {
                if t.kind == TokenKind::Colon {
                    self.phase = Phase::Item;
                    self.list = Vec::new();
                } else {
                    self.fail(SchemaErrorKind::ExpectedColon, t.span.start, Ghost(s@.len()));
                }
            },
            Phase::Item => {
                if t.kind == TokenKind::Ident {
                    self.phase = Phase::AfterItem;
                    self.list.push(t.span);
                } else {
                    self.fail(SchemaErrorKind::ExpectedIdent, t.span.start, Ghost(s@.len()));
                }
            },
            Phase::AfterItem => {
                if t.kind == TokenKind::Comma {
                    self.phase = Phase::AfterComma;
                } else {
                    self.store_list(Ghost(s@.len()));
                    self.on_key(s, t);
                }
            },
            Phase::AfterComma => match t.kind {
                TokenKind::Ident => {
                    let key_follows = match next {
                        Some(n) => n.kind == TokenKind::Colon,
                        None => false,
                    };
                    if key_follows {
                        self.store_list(Ghost(s@.len()));
                        self.on_key(s, t);
                    } else {
                        self.phase = Phase::AfterItem;
                        self.list.push(t.span);
                    }
                },
                TokenKind::CloseBrace => self.fail(SchemaErrorKind::ExpectedIdentAfterComma, t.span.start, Ghost(s@.len())),
                _ => self.fail(SchemaErrorKind::ExpectedIdent, t.span.start, Ghost(s@.len())),
            },
        }
    }
}

impl ConfigAst {
    /// Parses schema text into a repository name and the object declarations,
    /// or reports the first error with the position it points at.
    pub fn parse(text: &str) -> (r: Result<ConfigAst, SchemaError>)
        ensures
            match r {
                Ok(ast) => parse_schema(text@) == Ok::<ConfigAstView, SchemaError>(ast@) && ast_spans_in(ast@),
                Err(e) => parse_schema(text@) == Err::<ConfigAstView, SchemaError>(e),
            },
    {
        let s = chars_of(text);
        let (toks, failed) = tokenize(&s);
        let mut parser = Parser::new();
        let mut i: usize = 0;
        while i < toks.len()
            invariant
                s@ == text@,
                toks@ == lex_tokens(s@),
                failed == lex_failure(s@),
                forall|j: int| 0 <= j < toks@.len() ==> span_in(#[trigger] toks@[j].span, s@.len()),
                i <= toks.len(),
                parser@ == parse_scan(s@, toks@, i as nat),
                state_spans_in(parser@, s@.len()),
            decreases toks.len() - i,
        {
            let next = if i + 1 < toks.len() { Some(toks[i + 1]) } else { None };
            assert(next == lookahead(toks@, i + 1));
            parser.step(&s, toks[i], next);
            i += 1;
        }
        if let Some(e) = parser.err {
            return Err(e);
        }
        if let Some(p) = failed {
            let kind = match parser.phase {
                Phase::Semi => {
                    if kind_of_text(&s, parser.repo).is_some() {
                        return Err(SchemaError { kind: SchemaErrorKind::MissingRepositoryName, pos: parser.repo.start });
                    } else {
                        return Err(SchemaError { kind: SchemaErrorKind::ExpectedSemicolon, pos: parser.repo.start });
                    }
                },
                Phase::Open => SchemaErrorKind::ExpectedOpenBrace,
                Phase::Colon => SchemaErrorKind::ExpectedColon,
                Phase::Name | Phase::Item => SchemaErrorKind::ExpectedIdent,
                _ => SchemaErrorKind::UnexpectedChar,
            };
            return Err(SchemaError { kind, pos: p });
        }
        match parser.phase {
            Phase::Kind => Ok(ConfigAst { text: s, repository_name: parser.repo, objects: parser.objects }),
            Phase::RepoName => Err(SchemaError { kind: SchemaErrorKind::ExpectedIdent, pos: s.len() }),
            Phase::Semi => {
                let pos = parser.repo.start;
                if kind_of_text(&s, parser.repo).is_some() {
                    Err(SchemaError { kind: SchemaErrorKind::MissingRepositoryName, pos })
                } else {
                    Err(SchemaError { kind: SchemaErrorKind::ExpectedSemicolon, pos })
                }
            },
            _ => Err(SchemaError { kind: SchemaErrorKind::UnexpectedEnd, pos: s.len() }),
        }
    }
}


/// The diagnostic text of each error.
pub open spec fn message_of(k: SchemaErrorKind) -> Seq<char> {
    match k {
        SchemaErrorKind::UnexpectedChar => "unexpected character"@,
        SchemaErrorKind::ExpectedIdent => "expected identifier"@,
        SchemaErrorKind::MissingRepositoryName => "expected repository name before object definitions; add an identifier and `;` (e.g., `MyRepo;`)"@,
        SchemaErrorKind::ExpectedSemicolon => "expected `;` after repository name (e.g., `MyRepo;`)"@,
        SchemaErrorKind::UnknownKind => "unknown object kind; expected `root`, `ordered_child`, `unordered_child`, `batch`, `singleton`, or `singleton_family`"@,
        SchemaErrorKind::ExpectedOpenBrace => "expected `{` after the object name"@,
        SchemaErrorKind::ExpectedColon => "expected `:` after the property name"@,
        SchemaErrorKind::UnknownProperty => "unknown property; expected one of: `parent`, `ordered_children`, `unordered_children`, `batch_children`, `singleton_children`, `singleton_family_children`"@,
        SchemaErrorKind::DuplicateProperty(Prop::Parent) => "duplicate `parent` property"@,
        SchemaErrorKind::DuplicateProperty(Prop::OrderedChildren) => "duplicate `ordered_children` property"@,
        SchemaErrorKind::DuplicateProperty(Prop::UnorderedChildren) => "duplicate `unordered_children` property"@,
        SchemaErrorKind::DuplicateProperty(Prop::BatchChildren) => "duplicate `batch_children` property"@,
        SchemaErrorKind::DuplicateProperty(Prop::SingletonChildren) => "duplicate `singleton_children` property"@,
        SchemaErrorKind::DuplicateProperty(Prop::SingletonFamilyChildren) => "duplicate `singleton_family_children` property"@,
        SchemaErrorKind::ExpectedIdentAfterComma => "expected identifier after `,`"@,
        SchemaErrorKind::UnexpectedEnd => "unexpected end of input"@,
        SchemaErrorKind::RootWithParent => "`root` objects cannot have a `parent` property"@,
        SchemaErrorKind::MissingParent => "objects of this kind require a `parent`"@,
        SchemaErrorKind::EmptyParent => "objects of this kind require at least one `parent`"@,
        SchemaErrorKind::LeafWithChildren => "objects of this kind cannot have children (`ordered_children`, `unordered_children`, `batch_children`, `singleton_children`, or `singleton_family_children`)"@,
        SchemaErrorKind::UnknownObject => "unknown object; every parent and child must be declared in the schema"@,
    }
}

impl SchemaErrorKind {
    /// The diagnostic text of this error.
    pub fn message(&self) -> (r: &'static str)
        ensures
            r@ == message_of(*self),
    {
        match self {
            SchemaErrorKind::UnexpectedChar => "unexpected character",
            SchemaErrorKind::ExpectedIdent => "expected identifier",
            SchemaErrorKind::MissingRepositoryName => "expected repository name before object definitions; add an identifier and `;` (e.g., `MyRepo;`)",
            SchemaErrorKind::ExpectedSemicolon => "expected `;` after repository name (e.g., `MyRepo;`)",
            SchemaErrorKind::UnknownKind => "unknown object kind; expected `root`, `ordered_child`, `unordered_child`, `batch`, `singleton`, or `singleton_family`",
            SchemaErrorKind::ExpectedOpenBrace => "expected `{` after the object name",
            SchemaErrorKind::ExpectedColon => "expected `:` after the property name",
            SchemaErrorKind::UnknownProperty => "unknown property; expected one of: `parent`, `ordered_children`, `unordered_children`, `batch_children`, `singleton_children`, `singleton_family_children`",
            SchemaErrorKind::DuplicateProperty(Prop::Parent) => "duplicate `parent` property",
            SchemaErrorKind::DuplicateProperty(Prop::OrderedChildren) => "duplicate `ordered_children` property",
            SchemaErrorKind::DuplicateProperty(Prop::UnorderedChildren) => "duplicate `unordered_children` property",
            SchemaErrorKind::DuplicateProperty(Prop::BatchChildren) => "duplicate `batch_children` property",
            SchemaErrorKind::DuplicateProperty(Prop::SingletonChildren) => "duplicate `singleton_children` property",
            SchemaErrorKind::DuplicateProperty(Prop::SingletonFamilyChildren) => "duplicate `singleton_family_children` property",
            SchemaErrorKind::ExpectedIdentAfterComma => "expected identifier after `,`",
            SchemaErrorKind::UnexpectedEnd => "unexpected end of input",
            SchemaErrorKind::RootWithParent => "`root` objects cannot have a `parent` property",
            SchemaErrorKind::MissingParent => "objects of this kind require a `parent`",
            SchemaErrorKind::EmptyParent => "objects of this kind require at least one `parent`",
            SchemaErrorKind::LeafWithChildren => "objects of this kind cannot have children (`ordered_children`, `unordered_children`, `batch_children`, `singleton_children`, or `singleton_family_children`)",
            SchemaErrorKind::UnknownObject => "unknown object; every parent and child must be declared in the schema",
        }
    }
}

/// The length of the identifier that starts at position `i` of the text.
pub open spec fn word_len(s: Seq<char>, i: int) -> nat
    decreases s.len() - i,
{
    if 0 <= i < s.len() && is_ident_continue(s[i]) {
        1 + word_len(s, i + 1)
    } else {
        0
    }
}

/// The identifier that starts at position `i` of the text (empty if none).
pub open spec fn word_at(s: Seq<char>, i: int) -> Seq<char> {
    if word_len(s, i) == 0 { Seq::empty() } else { s.subrange(i, i + word_len(s, i)) }
}

/// The diagnostic of an error against the schema text: an unknown kind or
/// property names the word found, then what was expected; any other error
/// reads as its [`message_of`].
pub open spec fn rendered(e: SchemaError, s: Seq<char>) -> Seq<char> {
    match e.kind {
        SchemaErrorKind::UnknownKind => "unknown type `"@ + word_at(s, e.pos as int) + "`; expected "@
            + "`root`, `ordered_child`, `unordered_child`, `batch`, `singleton`, or `singleton_family`"@,
        SchemaErrorKind::UnknownProperty => "unknown property `"@ + word_at(s, e.pos as int)
            + "`; expected one of: `parent`, `ordered_children`, `unordered_children`, `batch_children`, `singleton_children`, `singleton_family_children`"@,
        _ => message_of(e.kind),
    }
}

fn word_at_of(s: &Vec<char>, i: usize) -> (r: Vec<char>)
    ensures
        r@ == word_at(s@, i as int),
{
    let mut j: usize = i;
    let mut r: Vec<char> = Vec::new();
    if i >= s.len() {
        assert(word_len(s@, i as int) == 0);
        return r;
    }
    while j < s.len() && is_ident_continue_char(s[j])
        invariant
            i <= j <= s.len(),
            word_len(s@, i as int) == (j - i) + word_len(s@, j as int),
            r@ == s@.subrange(i as int, j as int),
        decreases s.len() - j,
    {
        r.push(s[j]);
        assert(s@.subrange(i as int, j + 1) =~= s@.subrange(i as int, j as int).push(s@[j as int]));
        j += 1;
    }
    assert(word_len(s@, j as int) == 0);
    assert(s@.subrange(i as int, i as int) =~= Seq::<char>::empty());
    r
}

impl SchemaError {
    /// The diagnostic of this error against the schema text it came from.
    pub fn message_in(&self, text: &str) -> (r: String)
        ensures
            r@ == rendered(*self, text@),
    {
        let s = chars_of(text);
        match self.kind {
            SchemaErrorKind::UnknownKind => {
                let mut out = chars_of("unknown type `");
                let w = word_at_of(&s, self.pos);
                extend_chars(&mut out, &w);
                let tail = chars_of("`; expected ");
                extend_chars(&mut out, &tail);
                let list = chars_of(ObjectKind::expected_list());
                extend_chars(&mut out, &list);
                string_of(&out)
            },
            SchemaErrorKind::UnknownProperty => {
                let mut out = chars_of("unknown property `");
                let w = word_at_of(&s, self.pos);
                extend_chars(&mut out, &w);
                let tail = chars_of(
                    "`; expected one of: `parent`, `ordered_children`, `unordered_children`, `batch_children`, `singleton_children`, `singleton_family_children`",
                );
                extend_chars(&mut out, &tail);
                string_of(&out)
            },
            _ => self.kind.message().to_owned(),
        }
    }
}

} // verus!
