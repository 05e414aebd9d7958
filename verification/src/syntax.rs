use proc_macro2::{LexError, TokenStream};
use syn::punctuated::Punctuated;
use syn::token::Comma;
use syn::{Attribute, DeriveInput, Field, Type};
use vstd::prelude::*;

verus! {

/// A character that a string literal holds without an escape: an ASCII letter
/// or digit, `_` or `#`.
pub open spec fn plain_char(c: char) -> bool {
    ('a' <= c && c <= 'z') || ('A' <= c && c <= 'Z') || ('0' <= c && c <= '9') || c == '_' || c
        == '#'
}

pub open spec fn plain_text(s: Seq<char>) -> bool {
    forall|i: int| 0 <= i < s.len() ==> plain_char(#[trigger] s[i])
}

/// `proc_macro2::Literal::string`, rendered with `Display`: the source text of
/// a string literal whose value is `s`.  Outside a procedural macro the crate
/// writes `"`, then each character through `char::escape_debug` (a `'` as it
/// is, a NUL as `\0` or `\x00`), then `"`; inside one the compiler escapes.
/// Either way the result is a string literal whose value is `s`, and a string
/// of ASCII letters, digits, `_` and `#` comes out between two `"` unchanged.
/// Not stated: which escapes other characters get, which differs between the
/// two implementations.
#[verifier::external_body]
pub fn string_literal_text(s: &str) -> (res: String)
    ensures
        string_literal_value(res@) == Some(s@),
        plain_text(s@) ==> res@ == seq!['"'] + s@ + seq!['"'],
{
    proc_macro2::Literal::string(s).to_string()
}


// ---------------------------------------------------------------------------
// The outside types that the input is read from.  Their contents are read by
// the functions below.
// ---------------------------------------------------------------------------

#[verifier::external_type_specification]
#[verifier::external_body]
pub struct ExTokenStream(proc_macro2::TokenStream);

#[verifier::external_type_specification]
#[verifier::external_body]
pub struct ExLexError(proc_macro2::LexError);

#[verifier::external_type_specification]
#[verifier::external_body]
pub struct ExDeriveInput(syn::DeriveInput);

#[verifier::external_type_specification]
#[verifier::external_body]
pub struct ExField(syn::Field);

#[verifier::external_type_specification]
#[verifier::external_body]
pub struct ExType(syn::Type);

#[verifier::external_type_specification]
#[verifier::external_body]
pub struct ExAttribute(syn::Attribute);

#[verifier::external_type_specification]
#[verifier::external_body]
pub struct ExSynError(syn::Error);

#[verifier::external_type_specification]
#[verifier::external_body]
pub struct ExComma(syn::token::Comma);

#[verifier::external_type_specification]
#[verifier::external_body]
#[verifier::reject_recursive_types(T)]
#[verifier::reject_recursive_types(P)]
pub struct ExPunctuated<T, P>(syn::punctuated::Punctuated<T, P>);

// ---------------------------------------------------------------------------
// What is read of the input, as plain values
// ---------------------------------------------------------------------------

/// What is read of one field: its name (`None` for a tuple field), the text of
/// its type, the first path segment of its type (`None` for a type that is not
/// a path), and the single-identifier path of each of its attributes.
pub struct FieldShape {
    pub name: Option<Seq<char>>,
    pub ty: Seq<char>,
    pub head: Option<Seq<char>>,
    pub attrs: Seq<Option<Seq<char>>>,
}

/// What is read of an item: its name, the single-identifier path of each of
/// its attributes, and its named fields (`None` for anything but a struct with
/// named fields).
pub struct ItemShape {
    pub name: Seq<char>,
    pub attrs: Seq<Option<Seq<char>>>,
    pub fields: Option<Seq<FieldShape>>,
}

/// The text of an optional string.
pub open spec fn text_opt(s: Option<String>) -> Option<Seq<char>> {
    match s {
        Some(t) => Some(t@),
        None => None,
    }
}

/// What `syn` reads of `item`: `None` when the tokens are not an item that a
/// derive applies to.
pub uninterp spec fn derive_input_shape(item: TokenStream) -> Option<ItemShape>;

/// The name of a parsed item.
pub uninterp spec fn item_name_of(ast: DeriveInput) -> Seq<char>;

/// The attributes of a parsed item.
pub uninterp spec fn item_attrs_of(ast: DeriveInput) -> Seq<Attribute>;

/// The named fields of a parsed item, `None` unless it is a struct with named fields.
pub uninterp spec fn named_fields_of(ast: DeriveInput) -> Option<Punctuated<Field, Comma>>;

/// The number of fields in a list of fields.
pub uninterp spec fn punctuated_count(fields: Punctuated<Field, Comma>) -> nat;

/// The field at an index of a list of fields.
pub uninterp spec fn punctuated_item(fields: Punctuated<Field, Comma>, index: int) -> Field;

/// The name of a field, `None` for a tuple field.
pub uninterp spec fn field_name_of(field: Field) -> Option<Seq<char>>;

/// The type of a field.
pub uninterp spec fn field_type_of(field: Field) -> Type;

/// The attributes of a field.
pub uninterp spec fn field_attrs_of(field: Field) -> Seq<Attribute>;

/// The text of a type's tokens.
pub uninterp spec fn type_text_of(ty: Type) -> Seq<char>;

/// The first path segment of a path type, `None` for another kind of type.
pub uninterp spec fn type_head_of(ty: Type) -> Option<Seq<char>>;

/// The path of an attribute when it is a single identifier.
pub uninterp spec fn attribute_name_of(attr: Attribute) -> Option<Seq<char>>;

/// Whether `proc-macro2`'s own lexer accepts a source text.
pub uninterp spec fn lexes(text: Seq<char>) -> bool;

/// `tokens` are the tokens that lexing `text` produced.
pub uninterp spec fn lexed_from(tokens: TokenStream, text: Seq<char>) -> bool;

/// The value of a Rust string literal written as `lit` (its text between the
/// quotes, escapes resolved); `None` when `lit` is not a string literal.
pub uninterp spec fn string_literal_value(lit: Seq<char>) -> Option<Seq<char>>;

pub open spec fn attrs_shape(attrs: Seq<Attribute>) -> Seq<Option<Seq<char>>> {
    Seq::new(attrs.len(), |j: int| attribute_name_of(attrs[j]))
}

pub open spec fn field_shape(field: Field) -> FieldShape {
    FieldShape {
        name: field_name_of(field),
        ty: type_text_of(field_type_of(field)),
        head: type_head_of(field_type_of(field)),
        attrs: attrs_shape(field_attrs_of(field)),
    }
}

pub open spec fn fields_shape(fields: Punctuated<Field, Comma>) -> Seq<FieldShape> {
    Seq::new(punctuated_count(fields), |i: int| field_shape(punctuated_item(fields, i)))
}

/// What is read of a parsed item.
pub open spec fn shape_of(ast: DeriveInput) -> ItemShape {
    ItemShape {
        name: item_name_of(ast),
        attrs: attrs_shape(item_attrs_of(ast)),
        fields: match named_fields_of(ast) {
            Some(fields) => Some(fields_shape(fields)),
            None => None,
        },
    }
}

// ---------------------------------------------------------------------------
// Reading the outside values
// ---------------------------------------------------------------------------

/// `syn::parse2::<DeriveInput>`: parses the tokens of an item that a derive is
/// applied to.  It succeeds exactly when `derive_input_shape` is `Some`, and
/// then the item read is what that shape describes.  What `syn` reads depends
/// on the tokens alone.
#[verifier::external_body]
pub fn parse_derive_input(item: TokenStream) -> (res: Result<DeriveInput, syn::Error>)
    ensures
        res is Ok <==> derive_input_shape(item) is Some,
        res matches Ok(ast) ==> derive_input_shape(item) == Some(shape_of(ast)),
{
    syn::parse2::<DeriveInput>(item)
}

/// The field `ident` of a `DeriveInput`, rendered with `Display`: the name of
/// the item (`r#` kept for a raw identifier), never empty (`proc-macro2` makes
/// no empty identifier).
#[verifier::external_body]
pub fn derive_input_name_text(ast: &DeriveInput) -> (res: String)
    ensures
        res@ == item_name_of(*ast),
        res@.len() > 0,
{
    ast.ident.to_string()
}

/// The field `attrs` of a `DeriveInput`.
#[verifier::external_body]
pub fn derive_input_attrs(ast: &DeriveInput) -> (res: &Vec<Attribute>)
    ensures
        res@ == item_attrs_of(*ast),
{
    &ast.attrs
}

/// The named fields of a `DeriveInput` that is a struct with named fields
/// (`Data::Struct` holding `Fields::Named`); `None` for an enum, a union, a
/// tuple struct or a unit struct.
#[verifier::external_body]
pub fn derive_input_named_fields(ast: &DeriveInput) -> (res: Option<&Punctuated<Field, Comma>>)
    ensures
        res is None <==> named_fields_of(*ast) is None,
        res matches Some(p) ==> named_fields_of(*ast) == Some(*p),
{
    match &ast.data {
        syn::Data::Struct(syn::DataStruct { fields: syn::Fields::Named(named), .. }) => Some(
            &named.named,
        ),
        _ => None,
    }
}

/// `Punctuated::len`: the number of fields.
#[verifier::external_body]
pub fn punctuated_len(fields: &Punctuated<Field, Comma>) -> (res: usize)
    ensures
        res == punctuated_count(*fields),
{
    fields.len()
}

/// `Punctuated::get`: the field at `index`, which exists exactly below `len`.
#[verifier::external_body]
pub fn punctuated_get(fields: &Punctuated<Field, Comma>, index: usize) -> (res: Option<&Field>)
    ensures
        res is Some <==> index < punctuated_count(*fields),
        res matches Some(f) ==> *f == punctuated_item(*fields, index as int),
{
    fields.get(index)
}

/// The field `ident` of a `syn::Field`, rendered with `Display`: its name
/// (`r#` kept for a raw identifier, never empty), `None` for a tuple field.
#[verifier::external_body]
pub fn field_name_text(field: &Field) -> (res: Option<String>)
    ensures
        text_opt(res) == field_name_of(*field),
        res matches Some(t) ==> t@.len() > 0,
{
    field.ident.as_ref().map(|id| id.to_string())
}

/// The field `ty` of a `syn::Field`.
#[verifier::external_body]
pub fn field_type(field: &Field) -> (res: &Type)
    ensures
        *res == field_type_of(*field),
{
    &field.ty
}

/// The field `attrs` of a `syn::Field`.
#[verifier::external_body]
pub fn field_attrs(field: &Field) -> (res: &Vec<Attribute>)
    ensures
        res@ == field_attrs_of(*field),
{
    &field.attrs
}

/// `quote::ToTokens::to_token_stream` on a type, rendered with `Display`: the
/// source text of the type's tokens.
#[verifier::external_body]
pub fn type_tokens_text(ty: &Type) -> (res: String)
    ensures
        res@ == type_text_of(*ty),
{
    quote::ToTokens::to_token_stream(ty).to_string()
}

/// For a `Type::Path`, the identifier of the first segment of its path
/// (`Punctuated::first`), rendered with `Display` (never empty); `None` for any
/// other kind of type.
#[verifier::external_body]
pub fn type_path_head_text(ty: &Type) -> (res: Option<String>)
    ensures
        text_opt(res) == type_head_of(*ty),
        res matches Some(t) ==> t@.len() > 0,
{
    match ty {
        Type::Path(p) => p.path.segments.first().map(|seg| seg.ident.to_string()),
        _ => None,
    }
}

/// `Attribute::path` then `Path::get_ident`, rendered with `Display` (never
/// empty): the attribute's path when it is a single identifier with no leading
/// `::` and no arguments.
#[verifier::external_body]
pub fn attribute_name_text(attr: &Attribute) -> (res: Option<String>)
    ensures
        text_opt(res) == attribute_name_of(*attr),
        res matches Some(t) ==> t@.len() > 0,
{
    attr.path().get_ident().map(|id| id.to_string())
}

/// `TokenStream::from_str`: lexes source text into tokens.  It fails on text
/// that `proc-macro2`'s own lexer refuses (an unclosed delimiter or literal,
/// for one): outside a procedural macro that lexer does the work, and inside
/// one it checks the text before the compiler lexes it.  Not stated: the
/// tokens themselves, and whether the compiler's lexer refuses a text that
/// `proc-macro2`'s accepts.
#[verifier::external_body]
pub fn tokens_from_source(text: &str) -> (res: Result<TokenStream, LexError>)
    ensures
        res is Ok ==> lexes(text@),
        res matches Ok(t) ==> lexed_from(t, text@),
{
    <TokenStream as std::str::FromStr>::from_str(text)
}

} // verus!
