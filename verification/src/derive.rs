//! What the `StatType` derive makes of a type definition: the implementation
//! of [`crate::StatType`] for the type, with the data type that its
//! `stat_type` attribute names, or an error.
//!
//! The definition is given by the parts that the derive reads: the type's
//! name, and each attribute's path and arguments as written.

use vstd::prelude::*;

verus! {

/// The form of an attribute's arguments.
pub enum AttrMeta {
    /// No arguments: `#[path]`.
    Path,
    /// A value after `=`: `#[path = value]`.
    NameValue,
    /// Arguments in a delimited group, given by their tokens as printed:
    /// `#[path(tokens)]`.
    List(String),
}

/// The abstract form of an attribute's arguments.
pub enum AttrMetaView {
    Path,
    NameValue,
    List(Seq<char>),
}

impl View for AttrMeta {
    type V = AttrMetaView;

    open spec fn view(&self) -> AttrMetaView {
        match self {
            AttrMeta::Path => AttrMetaView::Path,
            AttrMeta::NameValue => AttrMetaView::NameValue,
            AttrMeta::List(tokens) => AttrMetaView::List(tokens@),
        }
    }
}

/// An attribute of the type definition.
pub struct Attribute {
    /// The attribute's path, as printed.
    pub path: String,
    pub meta: AttrMeta,
}

impl View for Attribute {
    type V = (Seq<char>, AttrMetaView);

    open spec fn view(&self) -> (Seq<char>, AttrMetaView) {
        (self.path@, self.meta@)
    }
}

/// The parts of a type definition that the derive reads.
pub struct DeriveInput {
    /// The name of the type.
    pub ident: String,
    pub attrs: Vec<Attribute>,
}

/// The attributes of a definition, by their views.
pub open spec fn attrs_view(attrs: Seq<Attribute>) -> Seq<(Seq<char>, AttrMetaView)> {
    attrs.map_values(|a: Attribute| a@)
}

/// The implementation that the derive makes: `impl StatType for ident { type
/// DataType = data_type; }`.
pub struct StatTypeImpl {
    pub ident: String,
    /// The data type, as tokens.
    pub data_type: String,
}

/// What parsing `tokens` as a Rust type gives: the type as printed tokens, or
/// the parser's error message.
pub uninterp spec fn parsed_type(tokens: Seq<char>) -> Result<Seq<char>, Seq<char>>;

/// Parses `tokens` as a Rust type with `syn::parse_str::<syn::Type>`, and
/// prints the type back as tokens with `quote::ToTokens`; an error gives the
/// error's message. The result is named, not stated: it is `parsed_type` of
/// the tokens. Before the call, `proc_macro2::fallback::force` switches
/// proc-macro2 to its own lexer and printer for the rest of the process, so
/// that the result depends on the tokens alone and never on a compiler's
/// implementation of `proc_macro`.
#[verifier::external_body]
fn parse_type(tokens: &String) -> (r: Result<String, String>)
    ensures
        match r {
            Ok(ty) => parsed_type(tokens@) == Ok::<Seq<char>, Seq<char>>(ty@),
            Err(message) => parsed_type(tokens@) == Err::<Seq<char>, Seq<char>>(message@),
        },
{
    proc_macro2::fallback::force();
    match syn::parse_str::<syn::Type>(tokens) {
        Ok(ty) => Ok(quote::ToTokens::to_token_stream(&ty).to_string()),
        Err(err) => Err(err.to_string()),
    }
}

/// What parsing `tokens` as a type definition (a struct, enum or union, with
/// its attributes) gives: the type's name and its attributes, each with its
/// path and arguments as printed tokens; or the parser's error message.
pub uninterp spec fn parsed_definition(tokens: Seq<char>) -> Result<
    (Seq<char>, Seq<(Seq<char>, AttrMetaView)>),
    Seq<char>,
>;

/// Parses `tokens` as a type definition with
/// `syn::parse_str::<syn::DeriveInput>`, and gives the name and, for each
/// attribute, its path printed with `quote::ToTokens` and its arguments: the
/// form of `syn::Meta`, and for a list its tokens printed; an error gives the
/// error's message. The result is named, not stated: it is
/// `parsed_definition` of the tokens. As in `parse_type`, proc-macro2 prints
/// through its own fallback implementation.
#[verifier::external_body]
fn parse_definition(tokens: &String) -> (r: Result<DeriveInput, String>)
    ensures
        match r {
            Ok(d) => parsed_definition(tokens@) == Ok::<
                (Seq<char>, Seq<(Seq<char>, AttrMetaView)>),
                Seq<char>,
            >((d.ident@, attrs_view(d.attrs@))),
            Err(message) => parsed_definition(tokens@) == Err::<
                (Seq<char>, Seq<(Seq<char>, AttrMetaView)>),
                Seq<char>,
            >(message@),
        },
{
    proc_macro2::fallback::force();
    let d = match syn::parse_str::<syn::DeriveInput>(tokens) {
        Ok(d) => d,
        Err(err) => return Err(err.to_string()),
    };
    let attrs = d.attrs.iter().map(|a| Attribute {
        path: quote::ToTokens::to_token_stream(a.path()).to_string(),
        meta: match &a.meta {
            syn::Meta::Path(_) => AttrMeta::Path,
            syn::Meta::NameValue(_) => AttrMeta::NameValue,
            syn::Meta::List(list) => AttrMeta::List(list.tokens.to_string()),
        },
    });
    Ok(DeriveInput { ident: d.ident.to_string(), attrs: attrs.collect() })
}

/// Whether an attribute is the `stat_type` attribute.
pub open spec fn is_stat_type_attr(attr: (Seq<char>, AttrMetaView)) -> bool {
    attr.0 == "stat_type"@
}

/// The index of the first `stat_type` attribute at `from` or after it.
pub open spec fn first_stat_type_attr(attrs: Seq<(Seq<char>, AttrMetaView)>, from: int) -> Option<int>
    decreases attrs.len() - from,
{
    if from < 0 || from >= attrs.len() {
        None
    } else if is_stat_type_attr(attrs[from]) {
        Some(from)
    } else {
        first_stat_type_attr(attrs, from + 1)
    }
}

/// The error for a `stat_type` attribute without arguments.
pub open spec fn missing_arguments_message() -> Seq<char> {
    "expected attribute arguments in parentheses: #[stat_type(...)]"@
}

/// The error for a `stat_type` attribute with a value after `=`.
pub open spec fn missing_parentheses_message() -> Seq<char> {
    "expected parentheses: #[stat_type(...)]"@
}

/// The data type that the attributes give: the type in the first `stat_type`
/// attribute, or the default, `f32`, without one; or the error message.
pub open spec fn derived_data_type(attrs: Seq<(Seq<char>, AttrMetaView)>) -> Result<Seq<char>, Seq<char>> {
    match first_stat_type_attr(attrs, 0) {
        None => Ok("f32"@),
        Some(i) => match attrs[i].1 {
            AttrMetaView::Path => Err(missing_arguments_message()),
            AttrMetaView::NameValue => Err(missing_parentheses_message()),
            AttrMetaView::List(tokens) => parsed_type(tokens),
        },
    }
}

/// The first `stat_type` attribute decides the data type: its type, as the
/// parser gives it, when its arguments are a list of tokens; without
/// arguments, or with a value after `=`, the matching error.
pub proof fn lemma_first_stat_type_attr_decides(attrs: Seq<(Seq<char>, AttrMetaView)>, i: int)
    requires
        0 <= i < attrs.len(),
        attrs[i].0 == "stat_type"@,
        forall|j: int| 0 <= j < i ==> attrs[j].0 != "stat_type"@,
    ensures
        attrs[i].1 matches AttrMetaView::List(tokens) ==> derived_data_type(attrs) == parsed_type(
            tokens,
        ),
        attrs[i].1 matches AttrMetaView::Path ==> derived_data_type(attrs) == Err::<
            Seq<char>,
            Seq<char>,
        >("expected attribute arguments in parentheses: #[stat_type(...)]"@),
        attrs[i].1 matches AttrMetaView::NameValue ==> derived_data_type(attrs) == Err::<
            Seq<char>,
            Seq<char>,
        >("expected parentheses: #[stat_type(...)]"@),
{
    lemma_first_stat_type_attr_found(attrs, 0, i);
}

/// Searching from `from`, with no `stat_type` attribute before `i` and one at
/// `i`, finds `i`.
proof fn lemma_first_stat_type_attr_found(attrs: Seq<(Seq<char>, AttrMetaView)>, from: int, i: int)
    requires
        0 <= from <= i < attrs.len(),
        attrs[i].0 == "stat_type"@,
        forall|j: int| from <= j < i ==> attrs[j].0 != "stat_type"@,
    ensures
        first_stat_type_attr(attrs, from) == Some(i),
    decreases i - from,
{
    if from < i {
        lemma_first_stat_type_attr_found(attrs, from + 1, i);
    }
}

/// Searching from `from`, with no `stat_type` attribute at or after it, finds
/// none.
proof fn lemma_first_stat_type_attr_none(attrs: Seq<(Seq<char>, AttrMetaView)>, from: int)
    requires
        0 <= from <= attrs.len(),
        forall|j: int| from <= j < attrs.len() ==> attrs[j].0 != "stat_type"@,
    ensures
        first_stat_type_attr(attrs, from) == None::<int>,
    decreases attrs.len() - from,
{
    if from < attrs.len() {
        lemma_first_stat_type_attr_none(attrs, from + 1);
    }
}

/// The data type is `f32` exactly when no attribute is a `stat_type`
/// attribute; otherwise the first one decides it.
pub proof fn lemma_default_data_type_only_without_attribute(attrs: Seq<(Seq<char>, AttrMetaView)>)
    ensures
        (forall|j: int| 0 <= j < attrs.len() ==> attrs[j].0 != "stat_type"@) ==> derived_data_type(
            attrs,
        ) == Ok::<Seq<char>, Seq<char>>("f32"@),
        (exists|j: int| 0 <= j < attrs.len() && attrs[j].0 == "stat_type"@) ==> (exists|i: int|
            0 <= i < attrs.len() && attrs[i].0 == "stat_type"@ && (forall|j: int|
                0 <= j < i ==> attrs[j].0 != "stat_type"@) && first_stat_type_attr(attrs, 0) == Some(
                i,
            )),
{
    if forall|j: int| 0 <= j < attrs.len() ==> attrs[j].0 != "stat_type"@ {
        lemma_first_stat_type_attr_none(attrs, 0);
    } else {
        let k = choose|j: int| 0 <= j < attrs.len() && attrs[j].0 == "stat_type"@;
        let i = lemma_least_stat_type_index(attrs, k);
        lemma_first_stat_type_attr_found(attrs, 0, i);
    }
}

/// The least index of a `stat_type` attribute, given one at `k`.
proof fn lemma_least_stat_type_index(attrs: Seq<(Seq<char>, AttrMetaView)>, k: int) -> (i: int)
    requires
        0 <= k < attrs.len(),
        attrs[k].0 == "stat_type"@,
    ensures
        0 <= i <= k,
        attrs[i].0 == "stat_type"@,
        forall|j: int| 0 <= j < i ==> attrs[j].0 != "stat_type"@,
    decreases k,
{
    if exists|j: int| 0 <= j < k && attrs[j].0 == "stat_type"@ {
        let j = choose|j: int| 0 <= j < k && attrs[j].0 == "stat_type"@;
        lemma_least_stat_type_index(attrs, j)
    } else {
        k
    }
}

/// The implementation for the type named `ident`, from the result of parsing
/// the data type: the parsed type, or the parser's error message.
pub fn stat_type_impl(ident: &String, parsed: Result<String, String>) -> (r: Result<StatTypeImpl, String>)
    ensures
        match parsed {
            Ok(ty) => r matches Ok(imp) && imp.ident@ == ident@ && imp.data_type@ == ty@,
            Err(message) => r matches Err(m) && m@ == message@,
        },
{
    match parsed {
        Ok(data_type) => Ok(StatTypeImpl { ident: ident.clone(), data_type }),
        Err(message) => Err(message),
    }
}

/// Makes the implementation of `StatType` for a type definition.
pub fn action(input: &DeriveInput) -> (r: Result<StatTypeImpl, String>)
    ensures
        match r {
            Ok(imp) => imp.ident@ == input.ident@ && derived_data_type(attrs_view(input.attrs@))
                == Ok::<Seq<char>, Seq<char>>(imp.data_type@),
            Err(message) => derived_data_type(attrs_view(input.attrs@)) == Err::<
                Seq<char>,
                Seq<char>,
            >(message@),
        },
{
    let stat_type = String::from_str("stat_type");
    let mut i: usize = 0;
    while i < input.attrs.len()
        invariant
            i <= input.attrs.len(),
            stat_type@ == "stat_type"@,
            first_stat_type_attr(attrs_view(input.attrs@), 0) == first_stat_type_attr(
                attrs_view(input.attrs@),
                i as int,
            ),
        decreases input.attrs.len() - i,
    {
        let attr = &input.attrs[i];
        if attr.path == stat_type {
            return match &attr.meta {
                AttrMeta::Path => Err(String::from_str("expected attribute arguments in parentheses: #[stat_type(...)]")),
                AttrMeta::NameValue => Err(String::from_str("expected parentheses: #[stat_type(...)]")),
                AttrMeta::List(tokens) => stat_type_impl(&input.ident, parse_type(tokens)),
            };
        }
        i = i + 1;
    }
    Ok(StatTypeImpl { ident: input.ident.clone(), data_type: String::from_str("f32") })
}

/// The `StatType` derive: parses the tokens of a type definition, and makes
/// the implementation of `StatType` for it, or gives the error message.
pub fn derive_stat_type(tokens: &String) -> (r: Result<StatTypeImpl, String>)
    ensures
        match parsed_definition(tokens@) {
            Err(message) => r matches Err(e) && e@ == message,
            Ok((ident, attrs)) => match r {
                Ok(imp) => imp.ident@ == ident && derived_data_type(attrs) == Ok::<
                    Seq<char>,
                    Seq<char>,
                >(imp.data_type@),
                Err(message) => derived_data_type(attrs) == Err::<Seq<char>, Seq<char>>(
                    message@,
                ),
            },
        },
{
    match parse_definition(tokens) {
        Ok(input) => action(&input),
        Err(message) => Err(message),
    }
}

} // verus!
