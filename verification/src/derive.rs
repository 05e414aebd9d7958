use proc_macro2::{LexError, TokenStream};
use syn::punctuated::Punctuated;
use syn::token::Comma;
use syn::{Attribute, Field};
use vstd::prelude::*;

use crate::fields::{
    builder_definitions, builder_definitions_text, builder_impl_for_struct, builder_impl_text,
    builder_methods, builder_methods_text, marker_trait_and_structs, methods_with, unwraps_fields,
    marker_trait_and_structs_text, plain_names, setters_from,
};
use crate::model::{attr_is_ident, AttrDef, FieldDef, StructDef, TypeDef};
use crate::syntax::{
    attribute_name_text, attrs_shape, derive_input_attrs, derive_input_name_text,
    derive_input_named_fields, derive_input_shape, field_attrs, field_name_text, field_shape,
    field_type, fields_shape, lexed_from, lexes, parse_derive_input, punctuated_count, punctuated_get,
    punctuated_len, shape_of, text_opt, tokens_from_source, type_path_head_text,
    type_tokens_text, FieldShape, ItemShape,
};
use crate::util::builder_ident;

verus! {

/// The struct attribute that asks for `Default` in place of a panic for fields
/// that were never set.
pub const DEFAULTS_ATTRIBUTES_NAME: &'static str = "builder_defaults";

/// Why no builder could be derived.
#[derive(Debug)]
pub enum DeriveError {
    /// The tokens are not an item that a derive applies to.
    Parse(syn::Error),
    /// The item is not a struct with named fields.
    NotNamedStruct,
    /// A field has no name.
    UnnamedField,
    /// The generated source did not lex.
    Lex(LexError),
}

/// The whole output of the derive: the builder struct, its entry point on the
/// struct, the marker types, then the setters and `build`.
pub open spec fn expansion_text(name: Seq<char>, fields: Seq<FieldDef>) -> Seq<char> {
    builder_definitions_text(name, fields) + builder_impl_text(name, fields)
        + marker_trait_and_structs_text(name, fields) + builder_methods_text(name, fields)
}

/// The whole output, `build`'s field unwrappings being `setters`.
pub open spec fn expansion_with(name: Seq<char>, fields: Seq<FieldDef>, setters: Seq<Seq<char>>) -> Seq<
    char,
> {
    builder_definitions_text(name, fields) + builder_impl_text(name, fields)
        + marker_trait_and_structs_text(name, fields) + methods_with(name, fields, setters)
}

/// `text` is the whole output for the struct `name` with `fields`, `build`'s
/// field unwrappings using some string literal of each field's name.
pub open spec fn is_expansion(name: Seq<char>, fields: Seq<FieldDef>, text: Seq<char>) -> bool {
    exists|ss: Seq<Seq<char>>| unwraps_fields(fields, ss) && text == #[trigger] expansion_with(name, fields, ss)
}

/// Whether any of the attributes is `#[builder_defaults]`.
pub fn use_defaults(attrs: &Vec<AttrDef>) -> (res: bool)
    ensures
        res == exists|i: int|
            0 <= i < attrs@.len() && attr_is_ident(#[trigger] attrs@[i], DEFAULTS_ATTRIBUTES_NAME@),
{
    let mut i: usize = 0;
    while i < attrs.len()
        invariant
            i <= attrs.len(),
            forall|j: int|
                0 <= j < i ==> !attr_is_ident(#[trigger] attrs@[j], DEFAULTS_ATTRIBUTES_NAME@),
        decreases attrs.len() - i,
    {
        if crate::fields::attr_path_is(&attrs[i], DEFAULTS_ATTRIBUTES_NAME) {
            return true;
        }
        i += 1;
    }
    false
}

/// The source of the builder for `def`.
pub fn expand(def: &StructDef) -> (res: String)
    ensures
        is_expansion(def.name@, def.fields@, res@),
        plain_names(def.fields@) ==> res@ == expansion_text(def.name@, def.fields@),
{
    let name = def.name.as_str();
    let builder = builder_definitions(name, &def.fields);
    let builder_method_for_struct = builder_impl_for_struct(name, &def.fields);
    let marker_and_structs = marker_trait_and_structs(name, &def.fields);
    let builder_methods = builder_methods(name, &def.fields);
    let ghost ss = choose|ss: Seq<Seq<char>>|
        unwraps_fields(def.fields@, ss) && builder_methods@ == methods_with(def.name@, def.fields@, ss);
    let mut res = builder;
    res.append(builder_method_for_struct.as_str());
    res.append(marker_and_structs.as_str());
    res.append(builder_methods.as_str());
    assert(res@ == expansion_with(def.name@, def.fields@, ss));
    res
}

/// Every identifier read out of the attributes has a non-empty text.
pub open spec fn attrs_well_named(attrs: Seq<AttrDef>) -> bool {
    forall|j: int|
        0 <= j < attrs.len() ==> ((#[trigger] attrs[j]).path_ident matches Some(p) ==> p@.len()
            > 0)
}

/// Every identifier read out of the field (its name, the head of its type's
/// path, its attributes' paths) has a non-empty text.
pub open spec fn field_well_named(f: FieldDef) -> bool {
    &&& f.name@.len() > 0
    &&& (f.ty.path_head matches Some(h) ==> h@.len() > 0)
    &&& attrs_well_named(f.attrs@)
}

/// Every identifier read out of the struct has a non-empty text.
pub open spec fn struct_well_named(def: StructDef) -> bool {
    &&& def.name@.len() > 0
    &&& attrs_well_named(def.attrs@)
    &&& forall|i: int| 0 <= i < def.fields@.len() ==> field_well_named(#[trigger] def.fields@[i])
}

/// The field assembled from what was read of it.
pub open spec fn field_of(
    name: String,
    tokens: String,
    path_head: Option<String>,
    attrs: Vec<AttrDef>,
) -> FieldDef {
    FieldDef { name, ty: TypeDef { tokens, path_head }, attrs }
}

/// Assembles a field from what was read of it: its name (`None` for a field
/// with none), its type's text and path head, and its attributes.
pub fn field_from_parts(
    name: Option<String>,
    tokens: String,
    path_head: Option<String>,
    attrs: Vec<AttrDef>,
) -> (res: Option<FieldDef>)
    ensures
        name is None ==> res is None,
        name matches Some(n) ==> res == Some(field_of(n, tokens, path_head, attrs)),
{
    match name {
        Some(name) => Some(FieldDef { name, ty: TypeDef { tokens, path_head }, attrs }),
        None => None,
    }
}

/// Assembles the struct from what was read of it: `NotNamedStruct` when it has
/// no named fields (`fields` is `None`), `UnnamedField` when one of its fields
/// has no name, and otherwise the struct with these fields in this order.
pub fn struct_from_parts(
    name: String,
    attrs: Vec<AttrDef>,
    fields: Option<Vec<Option<FieldDef>>>,
) -> (res: Result<StructDef, DeriveError>)
    ensures
        fields is None <==> res matches Err(DeriveError::NotNamedStruct),
        fields matches Some(fs) ==> ((exists|i: int| 0 <= i < fs@.len() && #[trigger] fs@[i] is None)
            <==> res matches Err(DeriveError::UnnamedField)),
        fields matches Some(fs) ==> (res matches Ok(def) ==> {
            &&& def.name == name
            &&& def.attrs == attrs
            &&& def.fields@.len() == fs@.len()
            &&& forall|i: int| 0 <= i < fs@.len() ==> fs@[i] == Some(#[trigger] def.fields@[i])
        }),
        res is Ok || res matches Err(DeriveError::NotNamedStruct) || res matches Err(
            DeriveError::UnnamedField,
        ),
{
    let mut rest = match fields {
        Some(fs) => fs,
        None => return Err(DeriveError::NotNamedStruct),
    };
    let ghost all = rest@;
    let mut out: Vec<FieldDef> = Vec::new();
    while rest.len() > 0
        invariant
            fields matches Some(fs) && fs@ == all,
            out@.len() + rest@.len() == all.len(),
            rest@ == all.skip(out@.len() as int),
            forall|j: int| 0 <= j < out@.len() ==> all[j] == Some(#[trigger] out@[j]),
        decreases rest.len(),
    {
        let ghost k = out@.len();
        match rest.remove(0) {
            Some(f) => {
                out.push(f);
                assert(rest@ =~= all.skip(out@.len() as int));
            },
            None => {
                assert(all[k as int] is None);
                return Err(DeriveError::UnnamedField);
            },
        }
    }
    assert forall|i: int| 0 <= i < all.len() implies !(#[trigger] all[i] is None) by {
        assert(all[i] == Some(out@[i]));
    }
    Ok(StructDef { name, attrs, fields: out })
}

/// The attributes read match what `syn` read of them, in order.
pub open spec fn attrs_match(defs: Seq<AttrDef>, shape: Seq<Option<Seq<char>>>) -> bool {
    &&& defs.len() == shape.len()
    &&& forall|j: int| 0 <= j < defs.len() ==> text_opt(#[trigger] defs[j].path_ident) == shape[j]
}

/// The field read matches what `syn` read of it.
pub open spec fn field_matches(d: FieldDef, s: FieldShape) -> bool {
    &&& s.name == Some(d.name@)
    &&& d.ty.tokens@ == s.ty
    &&& text_opt(d.ty.path_head) == s.head
    &&& attrs_match(d.attrs@, s.attrs)
}

/// The struct read matches what `syn` read of the item: its name, attributes
/// and named fields, in order.
pub open spec fn struct_matches(def: StructDef, s: ItemShape) -> bool {
    &&& def.name@ == s.name
    &&& attrs_match(def.attrs@, s.attrs)
    &&& s.fields matches Some(fs)
    &&& def.fields@.len() == fs.len()
    &&& forall|i: int| 0 <= i < fs.len() ==> field_matches(#[trigger] def.fields@[i], fs[i])
}

/// Some field of `fs` has no name.
pub open spec fn has_unnamed(fs: Seq<FieldShape>) -> bool {
    exists|i: int| 0 <= i < fs.len() && (#[trigger] fs[i]).name is None
}

/// The attributes as the generator reads them.
fn attr_defs(attrs: &Vec<Attribute>) -> (res: Vec<AttrDef>)
    ensures
        attrs_match(res@, attrs_shape(attrs@)),
        attrs_well_named(res@),
{
    let mut res: Vec<AttrDef> = Vec::new();
    let mut i: usize = 0;
    while i < attrs.len()
        invariant
            i <= attrs.len(),
            res.len() == i,
            attrs_well_named(res@),
            forall|j: int| 0 <= j < i ==> text_opt(#[trigger] res@[j].path_ident) == attrs_shape(attrs@)[j],
        decreases attrs.len() - i,
    {
        let path_ident = attribute_name_text(&attrs[i]);
        res.push(AttrDef { path_ident });
        i += 1;
    }
    res
}

/// A named field as the generator reads it; `None` for a field with no name.
fn field_def(field: &Field) -> (res: Option<FieldDef>)
    ensures
        res is None <==> field_shape(*field).name is None,
        res matches Some(f) ==> field_matches(f, field_shape(*field)) && field_well_named(f),
{
    let name = field_name_text(field);
    let ty = field_type(field);
    let path_head = type_path_head_text(ty);
    let tokens = type_tokens_text(ty);
    let attrs = attr_defs(field_attrs(field));
    field_from_parts(name, tokens, path_head, attrs)
}

/// The fields of a struct as the generator reads them, in order; `None` for a
/// field with no name.
pub fn read_fields(named: &Punctuated<Field, Comma>) -> (res: Vec<Option<FieldDef>>)
    ensures
        res@.len() == punctuated_count(*named),
        forall|i: int|
            0 <= i < res@.len() ==> (#[trigger] res@[i] is None <==> fields_shape(*named)[i].name is None),
        forall|i: int|
            0 <= i < res@.len() ==> (#[trigger] res@[i] matches Some(f) ==> field_matches(
                f,
                fields_shape(*named)[i],
            ) && field_well_named(f)),
{
    let len = punctuated_len(named);
    let mut read: Vec<Option<FieldDef>> = Vec::new();
    let mut i: usize = 0;
    while i < len
        invariant
            i <= len,
            len == punctuated_count(*named),
            read@.len() == i,
            forall|j: int|
                0 <= j < i ==> (#[trigger] read@[j] is None <==> fields_shape(*named)[j].name is None),
            forall|j: int|
                0 <= j < i ==> (#[trigger] read@[j] matches Some(f) ==> field_matches(
                    f,
                    fields_shape(*named)[j],
                ) && field_well_named(f)),
        decreases len - i,
    {
        match punctuated_get(named, i) {
            Some(field) => {
                let f = field_def(field);
                read.push(f);
            },
            None => {
                // `get` returns a field at every index below `len`
                assert(false);
            },
        }
        i += 1;
    }
    read
}

/// Reads the struct that the derive is applied to: `Parse` when `syn` reads no
/// item from the tokens, `NotNamedStruct` when the item is not a struct with
/// named fields, `UnnamedField` when one of its fields has no name, and
/// otherwise the struct `syn` read, fields in order.
pub fn parse_struct(item: TokenStream) -> (res: Result<StructDef, DeriveError>)
    ensures
        res matches Err(DeriveError::Parse(_)) <==> derive_input_shape(item) is None,
        derive_input_shape(item) matches Some(s) ==> (res matches Err(DeriveError::NotNamedStruct)
            <==> s.fields is None),
        derive_input_shape(item) matches Some(s) ==> (s.fields matches Some(fs) ==> (res matches Err(
            DeriveError::UnnamedField,
        ) <==> has_unnamed(fs))),
        res matches Ok(def) ==> derive_input_shape(item) matches Some(s) && struct_matches(def, s),
        !(res matches Err(DeriveError::Lex(_))),
        res matches Ok(def) ==> struct_well_named(def),
{
    let ast = match parse_derive_input(item) {
        Ok(ast) => ast,
        Err(e) => return Err(DeriveError::Parse(e)),
    };
    let ghost s = shape_of(ast);
    let name = derive_input_name_text(&ast);
    let attrs = attr_defs(derive_input_attrs(&ast));
    let fields = match derive_input_named_fields(&ast) {
        Some(named) => Some(read_fields(named)),
        None => None,
    };
    let ghost read = fields;
    let res = struct_from_parts(name, attrs, fields);
    proof {
        if let Some(fs) = read {
            let p = crate::syntax::named_fields_of(ast).unwrap();
            let shapes = fields_shape(p);
            assert(s.fields == Some(shapes));
            if has_unnamed(shapes) {
                let i = choose|i: int| 0 <= i < shapes.len() && (#[trigger] shapes[i]).name is None;
                assert(fs@[i] is None);
            }
            if exists|i: int| 0 <= i < fs@.len() && #[trigger] fs@[i] is None {
                let i = choose|i: int| 0 <= i < fs@.len() && #[trigger] fs@[i] is None;
                assert(shapes[i].name is None);
            }
        }
        if res is Ok {
            let def = res->Ok_0;
            let fs = read.unwrap();
            assert forall|i: int| 0 <= i < def.fields@.len() implies field_well_named(
                #[trigger] def.fields@[i],
            ) && field_matches(def.fields@[i], s.fields.unwrap()[i]) by {
                assert(fs@[i] == Some(def.fields@[i]));
            }
        }
    }
    res
}

/// The derive: reads the struct, generates the source of its builder and lexes
/// it into tokens.  It fails as `parse_struct` does on the item, and with `Lex`
/// when the source does not lex; on success the tokens returned are what the
/// lexer made of the source of the builder of the struct read.
pub fn create_builder(item: TokenStream) -> (res: Result<TokenStream, DeriveError>)
    ensures
        res matches Err(DeriveError::Parse(_)) <==> derive_input_shape(item) is None,
        derive_input_shape(item) matches Some(s) ==> (res matches Err(DeriveError::NotNamedStruct)
            <==> s.fields is None),
        derive_input_shape(item) matches Some(s) ==> (s.fields matches Some(fs) ==> (res matches Err(
            DeriveError::UnnamedField,
        ) <==> has_unnamed(fs))),
        (res is Ok || res matches Err(DeriveError::Lex(_))) ==> (derive_input_shape(item) is Some
            && exists|def: StructDef| #[trigger] struct_matches(def, derive_input_shape(item)->Some_0)),
        res matches Ok(t) ==> exists|def: StructDef, text: Seq<char>|
            #[trigger] struct_matches(def, derive_input_shape(item)->Some_0) && #[trigger] is_expansion(
                def.name@,
                def.fields@,
                text,
            ) && lexes(text) && lexed_from(t, text),
{
    let def = match parse_struct(item) {
        Ok(def) => def,
        Err(e) => return Err(e),
    };
    let source = expand(&def);
    match tokens_from_source(source.as_str()) {
        Ok(tokens) => {
            assert(struct_matches(def, derive_input_shape(item)->Some_0));
            assert(is_expansion(def.name@, def.fields@, source@));
            Ok(tokens)
        },
        Err(e) => {
            assert(struct_matches(def, derive_input_shape(item)->Some_0));
            Err(DeriveError::Lex(e))
        },
    }
}

} // verus!
