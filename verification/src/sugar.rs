//! The two surface-syntax conveniences: `inline_attr`, which rewrites an
//! attribute-style use into the bang-style calling convention of a generated
//! wrapper, and the derive multiplexer `inline_derive`, which fans one
//! annotated item out to several wrapper macros.
//!
//! Both work on plain representations of what the host frontend hands over:
//! a flat token list for attribute parameters, and an item split into its
//! outer attributes and body text.

use vstd::prelude::*;

verus! {

/// Why a sugar expansion failed.
#[derive(Clone, Copy, PartialEq, Eq, Structural, Debug)]
pub enum SugarError {
    /// The attribute parameters are not a macro path optionally followed by
    /// one delimited group.
    ArgumentParseError,
    /// The item carries no `inline_derive` attribute.
    AttributeMissing,
    /// The item is not a struct, enum or union.
    UnsupportedItemKind,
}

/// The delimiter of a token group.
#[derive(Clone, Copy, PartialEq, Eq, Structural, Debug)]
pub enum GroupDelim {
    Paren,
    Bracket,
    Brace,
}

/// One token of the host frontend's stream, with a group's interior kept as
/// rendered text.
#[derive(Debug, PartialEq, Eq)]
pub enum Token {
    Ident(String),
    Punct(char),
    Literal(String),
    Group { delim: GroupDelim, content: String },
}

/// Spec-level mirror of `Token`.
#[verifier::ext_equal]
pub ghost enum TokenV {
    Ident(Seq<char>),
    Punct(char),
    Literal(Seq<char>),
    Group { delim: GroupDelim, content: Seq<char> },
}

impl DeepView for Token {
    type V = TokenV;

    open spec fn deep_view(&self) -> TokenV {
        match self {
            Token::Ident(s) => TokenV::Ident(s@),
            Token::Punct(c) => TokenV::Punct(*c),
            Token::Literal(s) => TokenV::Literal(s@),
            Token::Group { delim, content } => TokenV::Group { delim: *delim, content: content@ },
        }
    }
}

/// A macro path parsed from a token list starting at `i`: its text and the
/// index after it. A path is an identifier, or identifiers joined by `::`.
pub open spec fn spec_path_from(s: Seq<TokenV>, i: int) -> Option<(Seq<char>, int)>
    decreases s.len() - i,
{
    if 0 <= i < s.len() && s[i] is Ident {
        let seg = s[i]->Ident_0;
        if i + 2 < s.len() && s[i + 1] == TokenV::Punct(':') && s[i + 2] == TokenV::Punct(':') {
            match spec_path_from(s, i + 3) {
                Some((rest, j)) => Some((seg + "::"@ + rest, j)),
                None => None,
            }
        } else {
            Some((seg, i + 1))
        }
    } else {
        None
    }
}

/// Whether a token is one `:` punct.
fn is_colon(t: &Token) -> (b: bool)
    ensures
        b == (t.deep_view() == TokenV::Punct(':')),
{
    match t {
        Token::Punct(c) => *c == ':',
        _ => false,
    }
}

/// Parses a macro path from `toks` starting at `i`, as `spec_path_from`
/// describes.
fn parse_path_from(toks: &Vec<Token>, i: usize) -> (r: Option<(String, usize)>)
    requires
        i <= toks@.len(),
    ensures
        match (r, spec_path_from(toks.deep_view(), i as int)) {
            (Some((t, j)), Some(sv)) => t@ == sv.0 && j == sv.1 && i < j <= toks@.len(),
            (None, None) => true,
            _ => false,
        },
    decreases toks@.len() - i,
{
    if i >= toks.len() {
        return None;
    }
    let seg: &String = match &toks[i] {
        Token::Ident(s) => s,
        _ => {
            return None;
        },
    };
    assert(toks.deep_view()[i as int] == toks@[i as int].deep_view());
    if toks.len() - i > 2 && is_colon(&toks[i + 1]) && is_colon(&toks[i + 2]) {
        assert(toks.deep_view()[i + 1] == toks@[i + 1].deep_view());
        assert(toks.deep_view()[i + 2] == toks@[i + 2].deep_view());
        match parse_path_from(toks, i + 3) {
            Some((rest, j)) => {
                let mut t = seg.clone();
                t.append("::");
                t.append(rest.as_str());
                assert(t@ =~= seg@ + "::"@ + rest@);
                Some((t, j))
            },
            None => None,
        }
    } else {
        assert(!(i + 2 < toks@.len() && toks.deep_view()[i + 1] == TokenV::Punct(':')
            && toks.deep_view()[i + 2] == TokenV::Punct(':'))) by {
            if i + 2 < toks@.len() {
                assert(toks.deep_view()[i + 1] == toks@[i + 1].deep_view());
                assert(toks.deep_view()[i + 2] == toks@[i + 2].deep_view());
            }
        }
        Some((seg.clone(), i + 1))
    }
}

/// The expansion `inline_attr` rewrites to: the attribute macro's calling
/// convention, spelled as one bang-style statement
/// `path!((params) item);`.
pub open spec fn attr_expansion(path: Seq<char>, params: Seq<char>, item: Seq<char>) -> Seq<char> {
    path + "!(("@ + params + ") "@ + item + ");"@
}

/// What `inline_attr` produces from its parameter tokens: the parameters
/// must be one macro path, optionally followed by exactly one delimited
/// group, whose interior becomes the forwarded parameter text.
pub open spec fn spec_inline_attr(params: Seq<TokenV>, item: Seq<char>) -> Option<Seq<char>> {
    match spec_path_from(params, 0) {
        None => None,
        Some((path, j)) => {
            if j == params.len() {
                Some(attr_expansion(path, Seq::empty(), item))
            } else if j == params.len() - 1 && params[j] is Group {
                Some(attr_expansion(path, params[j]->Group_content, item))
            } else {
                None
            }
        },
    }
}

/// Rewrites an attribute-style use into a bang-style call of the generated
/// wrapper: `inline_attr` parameters `p(a, b)` on an item become
/// `p!((a, b) item);`, and a bare path `p` becomes `p!(() item);`. Fails
/// with `ArgumentParseError` exactly when the parameters are not a path
/// optionally followed by one group.
pub fn inline_attr(params: &Vec<Token>, item_text: &str) -> (r: Result<String, SugarError>)
    ensures
        match (r, spec_inline_attr(params.deep_view(), item_text@)) {
            (Ok(t), Some(tv)) => t@ == tv,
            (Err(e), None) => e == SugarError::ArgumentParseError,
            _ => false,
        },
{
    let parsed = parse_path_from(params, 0);
    let (path, j) = match parsed {
        Some(p) => p,
        None => {
            return Err(SugarError::ArgumentParseError);
        },
    };
    let params_text: String;
    if j == params.len() {
        params_text = String::new();
    } else if j == params.len() - 1 {
        match &params[j] {
            Token::Group { delim: _, content } => {
                params_text = content.clone();
                assert(params.deep_view()[j as int] == params@[j as int].deep_view());
            },
            _ => {
                assert(params.deep_view()[j as int] == params@[j as int].deep_view());
                return Err(SugarError::ArgumentParseError);
            },
        }
    } else {
        return Err(SugarError::ArgumentParseError);
    }
    let mut out = path;
    out.append("!((");
    out.append(params_text.as_str());
    out.append(") ");
    out.append(item_text);
    out.append(");");
    assert(out@ =~= spec_inline_attr(params.deep_view(), item_text@)->0);
    Ok(out)
}

/// One outer attribute of an item: `#[name]` or `#[name(arg, arg)]`, with
/// the comma-separated argument texts already split apart.
#[derive(Debug, PartialEq, Eq)]
pub struct ItemAttribute {
    pub name: String,
    pub args: Vec<String>,
}

/// Spec-level mirror of `ItemAttribute`.
#[verifier::ext_equal]
pub ghost struct ItemAttributeV {
    pub name: Seq<char>,
    pub args: Seq<Seq<char>>,
}

impl DeepView for ItemAttribute {
    type V = ItemAttributeV;

    open spec fn deep_view(&self) -> ItemAttributeV {
        ItemAttributeV { name: self.name@, args: self.args.deep_view() }
    }
}

/// An item as the derive multiplexer sees it: its outer attributes, the
/// keyword that opens the item proper, and the item's full text without the
/// outer attributes.
#[derive(Debug, PartialEq, Eq)]
pub struct AnnotatedItem {
    pub attrs: Vec<ItemAttribute>,
    pub kind_word: String,
    pub body_text: String,
}

/// Spec-level mirror of `AnnotatedItem`.
#[verifier::ext_equal]
pub ghost struct AnnotatedItemV {
    pub attrs: Seq<ItemAttributeV>,
    pub kind_word: Seq<char>,
    pub body_text: Seq<char>,
}

impl DeepView for AnnotatedItem {
    type V = AnnotatedItemV;

    open spec fn deep_view(&self) -> AnnotatedItemV {
        AnnotatedItemV {
            attrs: self.attrs.deep_view(),
            kind_word: self.kind_word@,
            body_text: self.body_text@,
        }
    }
}

/// Whether a keyword opens a struct, enum or union.
pub open spec fn is_adt_kind(kw: Seq<char>) -> bool {
    kw == "struct"@ || kw == "enum"@ || kw == "union"@
}

/// The first attribute with the given name, scanning from `i`.
pub open spec fn spec_find_attr_from(s: Seq<ItemAttributeV>, name: Seq<char>, i: int) -> Option<
    int,
>
    decreases s.len() - i,
{
    if 0 <= i < s.len() {
        if s[i].name == name {
            Some(i)
        } else {
            spec_find_attr_from(s, name, i + 1)
        }
    } else {
        None
    }
}

/// The argument texts of one attribute, joined with `", "`.
pub open spec fn join_args(s: Seq<Seq<char>>) -> Seq<char>
    decreases s.len(),
{
    if s.len() == 0 {
        Seq::empty()
    } else if s.len() == 1 {
        s[0]
    } else {
        join_args(s.drop_last()) + ", "@ + s.last()
    }
}

/// The rendered text of one attribute.
pub open spec fn attr_text(a: ItemAttributeV) -> Seq<char> {
    if a.args.len() == 0 {
        "#["@ + a.name + "]"@
    } else {
        "#["@ + a.name + "("@ + join_args(a.args) + ")]"@
    }
}

/// The rendered attribute list with the attribute at `skip` left out.
pub open spec fn attrs_text_skip(s: Seq<ItemAttributeV>, skip: int) -> Seq<char>
    decreases s.len(),
{
    if s.len() == 0 {
        Seq::empty()
    } else if s.len() - 1 == skip {
        attrs_text_skip(s.drop_last(), skip)
    } else {
        attrs_text_skip(s.drop_last(), skip) + attr_text(s.last())
    }
}

/// The item's text with the attribute at `skip` removed: the remaining
/// attributes, then the body.
pub open spec fn item_text_without(item: AnnotatedItemV, skip: int) -> Seq<char> {
    attrs_text_skip(item.attrs, skip) + item.body_text
}

/// One multiplexed statement per named path, in declared order, each a
/// bang-style call over the stripped item.
pub open spec fn derive_calls(paths: Seq<Seq<char>>, item: Seq<char>) -> Seq<char>
    decreases paths.len(),
{
    if paths.len() == 0 {
        Seq::empty()
    } else {
        derive_calls(paths.drop_last(), item) + paths.last() + "!("@ + item + ");"@
    }
}

/// What the derive multiplexer produces: the item must be a struct, enum or
/// union carrying an `inline_derive` attribute; that attribute is removed,
/// and each path it names is invoked, left to right, over the stripped item.
pub open spec fn spec_inline_derive(item: AnnotatedItemV) -> Result<Seq<char>, SugarError> {
    if !is_adt_kind(item.kind_word) {
        Err(SugarError::UnsupportedItemKind)
    } else {
        match spec_find_attr_from(item.attrs, "inline_derive"@, 0) {
            None => Err(SugarError::AttributeMissing),
            Some(idx) => Ok(derive_calls(item.attrs[idx].args, item_text_without(item, idx))),
        }
    }
}

/// Joins argument texts with `", "`.
fn render_join_args(args: &Vec<String>) -> (r: String)
    ensures
        r@ == join_args(args.deep_view()),
{
    let mut r = String::new();
    let n = args.len();
    let mut i: usize = 0;
    while i < n
        invariant
            0 <= i <= n,
            n == args.len(),
            r@ == join_args(args.deep_view().take(i as int)),
        decreases n - i,
    {
        if i > 0 {
            r.append(", ");
        }
        r.append(args[i].as_str());
        proof {
            let pre = args.deep_view().take(i as int);
            let cur = args.deep_view().take(i + 1);
            assert(cur.drop_last() =~= pre);
            assert(cur.last() == args.deep_view()[i as int]);
            assert(r@ =~= join_args(cur));
        }
        i = i + 1;
    }
    assert(args.deep_view().take(n as int) =~= args.deep_view());
    r
}

/// Renders the attribute list, leaving the attribute at `skip` out.
fn render_attrs_skip(attrs: &Vec<ItemAttribute>, skip: usize) -> (r: String)
    ensures
        r@ == attrs_text_skip(attrs.deep_view(), skip as int),
{
    let mut r = String::new();
    let n = attrs.len();
    let mut i: usize = 0;
    while i < n
        invariant
            0 <= i <= n,
            n == attrs.len(),
            r@ == attrs_text_skip(attrs.deep_view().take(i as int), skip as int),
        decreases n - i,
    {
        if i != skip {
            let a = &attrs[i];
            r.append("#[");
            r.append(a.name.as_str());
            if a.args.len() > 0 {
                r.append("(");
                r.append(render_join_args(&a.args).as_str());
                r.append(")]");
            } else {
                r.append("]");
            }
            assert(attrs.deep_view()[i as int] == attrs@[i as int].deep_view());
        }
        proof {
            let pre = attrs.deep_view().take(i as int);
            let cur = attrs.deep_view().take(i + 1);
            assert(cur.drop_last() =~= pre);
            assert(cur.last() == attrs.deep_view()[i as int]);
            assert(r@ =~= attrs_text_skip(cur, skip as int));
        }
        i = i + 1;
    }
    assert(attrs.deep_view().take(n as int) =~= attrs.deep_view());
    r
}

/// Fans an annotated item out to the named derive wrappers: removes the
/// `inline_derive` attribute and emits, for each path it names in order, one
/// statement invoking that path over the stripped item. The `helper`
/// attribute name is reserved as a pass-through marker: it stays on the item
/// untouched, for the user's own derive logic to consume. Fails with
/// `UnsupportedItemKind` when the item is not a struct, enum or union, and
/// with `AttributeMissing` when no `inline_derive` attribute is present.
pub fn inline_derive(item: &AnnotatedItem) -> (r: Result<String, SugarError>)
    ensures
        match (r, spec_inline_derive(item.deep_view())) {
            (Ok(t), Ok(tv)) => t@ == tv,
            (Err(e), Err(ev)) => e == ev,
            _ => false,
        },
{
    let is_adt = item.kind_word.eq(&String::from_str("struct")) || item.kind_word.eq(
        &String::from_str("enum"),
    ) || item.kind_word.eq(&String::from_str("union"));
    if !is_adt {
        return Err(SugarError::UnsupportedItemKind);
    }
    let needle = String::from_str("inline_derive");
    let n = item.attrs.len();
    let mut idx: usize = 0;
    let mut found = false;
    while idx < n && !found
        invariant
            0 <= idx <= n,
            n == item.attrs@.len(),
            needle@ == "inline_derive"@,
            !found ==> spec_find_attr_from(item.attrs.deep_view(), "inline_derive"@, 0)
                == spec_find_attr_from(item.attrs.deep_view(), "inline_derive"@, idx as int),
            found ==> spec_find_attr_from(item.attrs.deep_view(), "inline_derive"@, 0) == Some(
                idx as int,
            ) && idx < n,
        decreases n - idx, if found { 0int } else { 1int },
    {
        if item.attrs[idx].name.eq(&needle) {
            found = true;
            assert(item.attrs.deep_view()[idx as int] == item.attrs@[idx as int].deep_view());
        } else {
            assert(item.attrs.deep_view()[idx as int] == item.attrs@[idx as int].deep_view());
            idx = idx + 1;
        }
    }
    if !found {
        return Err(SugarError::AttributeMissing);
    }
    let mut stripped = render_attrs_skip(&item.attrs, idx);
    stripped.append(item.body_text.as_str());
    assert(stripped@ =~= item_text_without(item.deep_view(), idx as int));
    let paths = &item.attrs[idx].args;
    let mut out = String::new();
    let m = paths.len();
    let mut i: usize = 0;
    while i < m
        invariant
            0 <= i <= m,
            m == paths.len(),
            stripped@ == item_text_without(item.deep_view(), idx as int),
            out@ == derive_calls(paths.deep_view().take(i as int), stripped@),
        decreases m - i,
    {
        out.append(paths[i].as_str());
        out.append("!(");
        out.append(stripped.as_str());
        out.append(");");
        proof {
            let pre = paths.deep_view().take(i as int);
            let cur = paths.deep_view().take(i + 1);
            assert(cur.drop_last() =~= pre);
            assert(cur.last() == paths.deep_view()[i as int]);
            assert(out@ =~= derive_calls(cur, stripped@));
        }
        i = i + 1;
    }
    assert(paths.deep_view().take(m as int) =~= paths.deep_view());
    assert(paths.deep_view() == item.attrs.deep_view()[idx as int].args) by {
        assert(item.attrs.deep_view()[idx as int] == item.attrs@[idx as int].deep_view());
    }
    Ok(out)
}

} // verus!
