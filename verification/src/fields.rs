use vstd::prelude::*;

use crate::laws::{
    build_opening, builder_struct_opening, entry_opening, lemma_builder_slots_wrap_field_types,
    lemma_builder_starts_unset, lemma_every_state_is_a_marker, lemma_methods_hold_every_setter,
    marker_declaration, marker_of, setter_opening,
};
use crate::model::{
    attr_is_ident, join_terminated, occurs_in, terminated, texts, AttrDef, FieldDef, TypeDef,
};
use crate::syntax::{plain_text, string_literal_text, string_literal_value};
use crate::util::{
    builder_ident, create_builder_ident, create_field_struct_name, field_struct_ident, unraw,
    unraw_fragment,
};

verus! {

// ---------------------------------------------------------------------------
// The text of each generated piece
// ---------------------------------------------------------------------------

/// `name: Option<Type>`, a field of the builder struct.
pub open spec fn option_field_text(f: FieldDef) -> Seq<char> {
    f.name@ + ": Option<"@ + f.ty.tokens@ + ">"@
}

pub open spec fn option_field_texts(fields: Seq<FieldDef>) -> Seq<Seq<char>> {
    Seq::new(fields.len(), |i: int| option_field_text(fields[i]))
}

/// `pub name: Option<Type>`.
pub open spec fn public_option_field_text(f: FieldDef) -> Seq<char> {
    "pub "@ + f.name@ + ": Option<"@ + f.ty.tokens@ + ">"@
}

pub open spec fn public_option_field_texts(fields: Seq<FieldDef>) -> Seq<Seq<char>> {
    Seq::new(fields.len(), |i: int| public_option_field_text(fields[i]))
}

/// `name:None`, a field of the builder in its initial state.
pub open spec fn init_none_text(f: FieldDef) -> Seq<char> {
    f.name@ + ":None"@
}

pub open spec fn init_none_texts(fields: Seq<FieldDef>) -> Seq<Seq<char>> {
    Seq::new(fields.len(), |i: int| init_none_text(fields[i]))
}

/// `name: self.name`, carrying a field over to the builder's next state.
pub open spec fn carry_over_text(f: FieldDef) -> Seq<char> {
    f.name@ + ": self."@ + f.name@
}

pub open spec fn carry_over_texts(fields: Seq<FieldDef>) -> Seq<Seq<char>> {
    Seq::new(fields.len(), |i: int| carry_over_text(fields[i]))
}

/// A string literal whose value is `s`, written with no escape.
pub open spec fn quoted(s: Seq<char>) -> Seq<char> {
    seq!['"'] + s + seq!['"']
}

/// `expect(concat!("field not set: ", lit))`, for the string literal `lit`.
pub open spec fn expect_text_with(lit: Seq<char>) -> Seq<char> {
    "expect(concat!(\"field not set: \", "@ + lit + "))"@
}

/// `expect(concat!("field not set: ", "name"))`.
pub open spec fn expect_text(name: Seq<char>) -> Seq<char> {
    expect_text_with(quoted(name))
}

/// `lit` is the text of a string literal whose value is `s`, written as
/// `quoted(s)` when `s` has no character that needs an escape.
pub open spec fn literal_of(lit: Seq<char>, s: Seq<char>) -> bool {
    &&& string_literal_value(lit) == Some(s)
    &&& plain_text(s) ==> lit == quoted(s)
}

/// `name: self.name.expect(concat!("field not set: ", lit))`.
pub open spec fn unwrap_field_text_with(f: FieldDef, lit: Seq<char>) -> Seq<char> {
    f.name@ + ": self."@ + f.name@ + "."@ + expect_text_with(lit)
}

/// `text` is the unwrapping of `f` with some string literal of its name.
pub open spec fn unwraps_field(f: FieldDef, text: Seq<char>) -> bool {
    exists|lit: Seq<char>|
        literal_of(lit, f.name@) && text == #[trigger] unwrap_field_text_with(f, lit)
}

/// `texts` holds, for each field in order, its unwrapping with a string literal
/// of its name.
pub open spec fn unwraps_fields(fields: Seq<FieldDef>, texts: Seq<Seq<char>>) -> bool {
    &&& texts.len() == fields.len()
    &&& forall|i: int| 0 <= i < fields.len() ==> #[trigger] unwraps_field(fields[i], texts[i])
}

/// `name: self.name.expect(concat!("field not set: ", "name"))`, a field of
/// the built struct.
pub open spec fn unwrap_field_text(f: FieldDef) -> Seq<char> {
    unwrap_field_text_with(f, quoted(f.name@))
}

pub open spec fn unwrap_field_texts(fields: Seq<FieldDef>) -> Seq<Seq<char>> {
    Seq::new(fields.len(), |i: int| unwrap_field_text(fields[i]))
}

/// Every field name is spelled with ASCII letters, digits, `_` and `#` only.
pub open spec fn plain_names(fields: Seq<FieldDef>) -> bool {
    forall|i: int| 0 <= i < fields.len() ==> plain_text(#[trigger] fields[i].name@)
}

/// `struct __nameDefaultAssertion where Type: core::default:Default;`
pub open spec fn default_assertion_text(f: FieldDef) -> Seq<char> {
    "struct "@ + "__"@ + unraw(f.name@) + "DefaultAssertion"@ + " where "@ + f.ty.tokens@
        + ": core::default:Default;"@
}

pub open spec fn default_assertion_texts(fields: Seq<FieldDef>) -> Seq<Seq<char>> {
    Seq::new(fields.len(), |i: int| default_assertion_text(fields[i]))
}

/// The marker type of one field and its `MarkerTraitForBuilder` impl.
pub open spec fn marker_text(builder: Seq<char>, f: FieldDef) -> Seq<char> {
    "pub struct "@ + field_struct_ident(builder, f.name@) + "{} impl MarkerTraitForBuilder for "@
        + field_struct_ident(builder, f.name@) + "{} "@
}

pub open spec fn marker_texts(builder: Seq<char>, fields: Seq<FieldDef>) -> Seq<Seq<char>> {
    Seq::new(fields.len(), |i: int| marker_text(builder, fields[i]))
}

// ---------------------------------------------------------------------------
// The type-state machine of the generated builder
// ---------------------------------------------------------------------------

/// The marker type the builder carries when the setter of field `i` is the
/// next one to call; past the last field it is `FinalBuilder`.
pub open spec fn typestate(builder: Seq<char>, fields: Seq<FieldDef>, i: int) -> Seq<char> {
    if 0 <= i < fields.len() {
        field_struct_ident(builder, fields[i].name@)
    } else {
        "FinalBuilder"@
    }
}

/// `impl B<From>{ pub fn method(mut self, input: Type)->B<To>{ ... } }`: a setter
/// that stores `input` and moves the builder from state `from` to state `to`,
/// carrying every field over.
pub open spec fn setter_impl_text(
    builder: Seq<char>,
    from: Seq<char>,
    method: Seq<char>,
    ty: Seq<char>,
    to: Seq<char>,
    assignments: Seq<Seq<char>>,
) -> Seq<char> {
    "impl "@ + builder + "<"@ + from + ">{ pub fn "@ + method + "(mut self, input: "@ + ty
        + ")->"@ + builder + "<"@ + to + ">{ self."@ + method + "=Some(input); "@ + builder
        + "{ marker:Default::default(), "@ + terminated(assignments, ","@) + "} } }"@
}

/// The setter of field `i`.
pub open spec fn setter_at(builder: Seq<char>, fields: Seq<FieldDef>, i: int) -> Seq<char> {
    setter_impl_text(
        builder,
        typestate(builder, fields, i),
        fields[i].name@,
        fields[i].ty.tokens@,
        typestate(builder, fields, i + 1),
        carry_over_texts(fields),
    )
}

/// The setters of fields `lo..`, last field first.
pub open spec fn setters_from(builder: Seq<char>, fields: Seq<FieldDef>, lo: int) -> Seq<char>
    decreases fields.len() - lo,
{
    if lo < 0 || lo >= fields.len() {
        Seq::empty()
    } else {
        setters_from(builder, fields, lo + 1) + setter_at(builder, fields, lo)
    }
}

/// `impl<T:MarkerTraitForBuilder> B<T>{ pub fn build(self)->Name{ Name{ ... } } }`:
/// `build` exists in every state; a field never set makes it panic.
pub open spec fn build_impl_text(
    name: Seq<char>,
    builder: Seq<char>,
    setters: Seq<Seq<char>>,
) -> Seq<char> {
    "impl<T:MarkerTraitForBuilder> "@ + builder + "<T>{ pub fn build(self)->"@ + name + "{ "@ + name + "{ "@
        + terminated(setters, ","@) + "} } }"@
}

// ---------------------------------------------------------------------------
// The text of each public generator
// ---------------------------------------------------------------------------

pub open spec fn builder_definitions_text(name: Seq<char>, fields: Seq<FieldDef>) -> Seq<char> {
    "pub struct "@ + builder_ident(name) + "<T:MarkerTraitForBuilder>{ marker: std::marker::PhantomData<T>, "@
        + terminated(option_field_texts(fields), ","@) + "}"@
}

pub open spec fn builder_impl_text(name: Seq<char>, fields: Seq<FieldDef>) -> Seq<char> {
    "impl "@ + name + "{ pub fn builder()->"@ + builder_ident(name) + "<"@ + typestate(
        builder_ident(name),
        fields,
        0,
    ) + ">{ "@ + builder_ident(name) + "{ marker:Default::default(), "@ + terminated(
        init_none_texts(fields),
        ","@,
    ) + "} } }"@
}

pub open spec fn marker_trait_and_structs_text(name: Seq<char>, fields: Seq<FieldDef>) -> Seq<char> {
    "pub trait MarkerTraitForBuilder{} "@ + terminated(marker_texts(builder_ident(name), fields), ""@)
        + "pub struct FinalBuilder{} impl MarkerTraitForBuilder for FinalBuilder{} "@
}

/// The setters, then `build` with the field unwrappings `setters`.
pub open spec fn methods_with(name: Seq<char>, fields: Seq<FieldDef>, setters: Seq<Seq<char>>) -> Seq<
    char,
> {
    setters_from(builder_ident(name), fields, 0) + build_impl_text(name, builder_ident(name), setters)
}

/// `text` is the setters then `build`, whose field unwrappings use some string
/// literal of each field's name.
pub open spec fn is_builder_methods(name: Seq<char>, fields: Seq<FieldDef>, text: Seq<char>) -> bool {
    exists|ss: Seq<Seq<char>>| unwraps_fields(fields, ss) && text == #[trigger] methods_with(name, fields, ss)
}

pub open spec fn builder_methods_text(name: Seq<char>, fields: Seq<FieldDef>) -> Seq<char> {
    methods_with(name, fields, unwrap_field_texts(fields))
}


// ---------------------------------------------------------------------------
// Per-field pieces
// ---------------------------------------------------------------------------

/// `name: Option<Type>` for each field (the fields of the builder struct).
fn builder_fields(fields: &Vec<FieldDef>) -> (res: Vec<String>)
    ensures
        texts(res@) == option_field_texts(fields@),
{
    let mut res: Vec<String> = Vec::new();
    let mut i: usize = 0;
    while i < fields.len()
        invariant
            i <= fields.len(),
            res.len() == i,
            forall|j: int| 0 <= j < i ==> #[trigger] res@[j]@ == option_field_text(fields@[j]),
        decreases fields.len() - i,
    {
        let f = &fields[i];
        let mut s = String::from_str(f.name.as_str());
        s.append(": Option<");
        s.append(f.ty.tokens.as_str());
        s.append(">");
        res.push(s);
        i += 1;
    }
    proof {
        assert(texts(res@) =~= option_field_texts(fields@));
    }
    res
}

/// `pub name: Option<Type>` for each field.
pub fn builder_field_definitions(fields: &Vec<FieldDef>) -> (res: Vec<String>)
    ensures
        texts(res@) == public_option_field_texts(fields@),
{
    let mut res: Vec<String> = Vec::new();
    let mut i: usize = 0;
    while i < fields.len()
        invariant
            i <= fields.len(),
            res.len() == i,
            forall|j: int|
                0 <= j < i ==> #[trigger] res@[j]@ == public_option_field_text(fields@[j]),
        decreases fields.len() - i,
    {
        let f = &fields[i];
        let mut s = String::from_str("pub ");
        s.append(f.name.as_str());
        s.append(": Option<");
        s.append(f.ty.tokens.as_str());
        s.append(">");
        res.push(s);
        i += 1;
    }
    proof {
        assert(texts(res@) =~= public_option_field_texts(fields@));
    }
    res
}

/// `name:None` for each field (the builder's initial state).
pub fn builder_init_values(fields: &Vec<FieldDef>) -> (res: Vec<String>)
    ensures
        texts(res@) == init_none_texts(fields@),
{
    let mut res: Vec<String> = Vec::new();
    let mut i: usize = 0;
    while i < fields.len()
        invariant
            i <= fields.len(),
            res.len() == i,
            forall|j: int| 0 <= j < i ==> #[trigger] res@[j]@ == init_none_text(fields@[j]),
        decreases fields.len() - i,
    {
        let mut s = String::from_str(fields[i].name.as_str());
        s.append(":None");
        res.push(s);
        i += 1;
    }
    proof {
        assert(texts(res@) =~= init_none_texts(fields@));
    }
    res
}

/// `name: self.name` for each field (a setter carries every field over).
pub fn get_assignments_for_fields(fields: &Vec<FieldDef>) -> (res: Vec<String>)
    ensures
        texts(res@) == carry_over_texts(fields@),
{
    let mut res: Vec<String> = Vec::new();
    let mut i: usize = 0;
    while i < fields.len()
        invariant
            i <= fields.len(),
            res.len() == i,
            forall|j: int| 0 <= j < i ==> #[trigger] res@[j]@ == carry_over_text(fields@[j]),
        decreases fields.len() - i,
    {
        let f = &fields[i];
        let mut s = String::from_str(f.name.as_str());
        s.append(": self.");
        s.append(f.name.as_str());
        res.push(s);
        i += 1;
    }
    proof {
        assert(texts(res@) =~= carry_over_texts(fields@));
    }
    res
}

/// `expect(concat!("field not set: ", <literal of the name>))`: the call that
/// turns a field that was never set into a panic naming it.
pub fn panic_fallback(field_name_as_string: &str) -> (res: String)
    ensures
        plain_text(field_name_as_string@) ==> res@ == expect_text(field_name_as_string@),
        exists|lit: Seq<char>|
            literal_of(lit, field_name_as_string@) && res@ == expect_text_with(lit),
{
    let lit = string_literal_text(field_name_as_string);
    let mut res = String::from_str("expect(concat!(\"field not set: \", ");
    res.append(lit.as_str());
    res.append("))");
    assert(res@ == expect_text_with(lit@));
    assert(literal_of(lit@, field_name_as_string@));
    res
}

/// `unwrap_or_default()`.
pub fn default_fallback() -> (res: String)
    ensures
        res@ == "unwrap_or_default()"@,
{
    String::from_str("unwrap_or_default()")
}

/// `name: self.name.expect(...)` for each field (the fields of the built struct).
pub fn original_struct_setters(fields: &Vec<FieldDef>) -> (res: Vec<String>)
    ensures
        res.len() == fields.len(),
        unwraps_fields(fields@, texts(res@)),
        plain_names(fields@) ==> texts(res@) == unwrap_field_texts(fields@),
{
    let mut res: Vec<String> = Vec::new();
    let mut i: usize = 0;
    while i < fields.len()
        invariant
            i <= fields.len(),
            res.len() == i,
            forall|j: int| 0 <= j < i ==> #[trigger] unwraps_field(fields@[j], res@[j]@),
            forall|j: int|
                0 <= j < i && plain_text(fields@[j].name@) ==> #[trigger] res@[j]@
                    == unwrap_field_text(fields@[j]),
        decreases fields.len() - i,
    {
        let f = &fields[i];
        let handle_type = panic_fallback(f.name.as_str());
        let ghost lit = choose|lit: Seq<char>|
            literal_of(lit, f.name@) && handle_type@ == expect_text_with(lit);
        let mut s = String::from_str(f.name.as_str());
        s.append(": self.");
        s.append(f.name.as_str());
        s.append(".");
        s.append(handle_type.as_str());
        assert(s@ == unwrap_field_text_with(*f, lit));
        assert(unwraps_field(*f, s@));
        res.push(s);
        i += 1;
    }
    proof {
        assert(texts(res@).len() == fields@.len());
        assert forall|i: int| 0 <= i < fields@.len() implies #[trigger] unwraps_field(
            fields@[i],
            texts(res@)[i],
        ) by {
            assert(texts(res@)[i] == res@[i]@);
            assert(unwraps_field(fields@[i], res@[i]@));
        }
        if plain_names(fields@) {
            assert(texts(res@) =~= unwrap_field_texts(fields@));
        }
    }
    res
}


// ---------------------------------------------------------------------------
// The generated items
// ---------------------------------------------------------------------------

/// `pub struct NameBuilder<T:MarkerTraitForBuilder>{ marker: ..., name: Option<Type>, ... }`.
pub fn builder_definitions(name: &str, fields: &Vec<FieldDef>) -> (res: String)
    ensures
        res@ == builder_definitions_text(name@, fields@),
        builder_struct_opening(name@).is_prefix_of(res@),
        forall|i: int|
            0 <= i < fields@.len() ==> occurs_in(
                #[trigger] fields@[i].name@ + ": Option<"@ + fields@[i].ty.tokens@ + ">"@ + ","@,
                res@,
            ),
{
    proof {
        lemma_builder_slots_wrap_field_types(name@, fields@);
    }
    let builder_fields = builder_fields(fields);
    let builder_name = create_builder_ident(name);
    let body = join_terminated(&builder_fields, ",");
    let mut res = String::from_str("pub struct ");
    res.append(builder_name.as_str());
    res.append("<T:MarkerTraitForBuilder>{ marker: std::marker::PhantomData<T>, ");
    res.append(body.as_str());
    res.append("}");
    res
}

/// `impl Name{ pub fn builder()->NameBuilder<First>{ ... } }`: the entry point,
/// in the state of the first field, or in `FinalBuilder` for a struct without
/// fields.
pub fn builder_impl_for_struct(name: &str, fields: &Vec<FieldDef>) -> (res: String)
    ensures
        res@ == builder_impl_text(name@, fields@),
        entry_opening(name@, fields@).is_prefix_of(res@),
        forall|i: int|
            0 <= i < fields@.len() ==> occurs_in(#[trigger] fields@[i].name@ + ":None"@ + ","@, res@),
{
    proof {
        lemma_builder_starts_unset(name@, fields@);
    }
    let builder_inits = builder_init_values(fields);
    let builder_name = create_builder_ident(name);
    let generic = if fields.len() > 0 {
        create_field_struct_name(builder_name.as_str(), fields[0].name.as_str())
    } else {
        String::from_str("FinalBuilder")
    };
    let inits = join_terminated(&builder_inits, ",");
    let mut res = String::from_str("impl ");
    res.append(name);
    res.append("{ pub fn builder()->");
    res.append(builder_name.as_str());
    res.append("<");
    res.append(generic.as_str());
    res.append(">{ ");
    res.append(builder_name.as_str());
    res.append("{ marker:Default::default(), ");
    res.append(inits.as_str());
    res.append("} } }");
    res
}

/// The setter of a field that is followed by `next_field_in_list`.
pub fn builder_for_field(
    builder_name: &str,
    field_assignments: &Vec<String>,
    current_field: &FieldDef,
    next_field_in_list: &FieldDef,
) -> (res: String)
    ensures
        res@ == setter_impl_text(
            builder_name@,
            field_struct_ident(builder_name@, current_field.name@),
            current_field.name@,
            current_field.ty.tokens@,
            field_struct_ident(builder_name@, next_field_in_list.name@),
            texts(field_assignments@),
        ),
{
    let (field_name, field_type) = get_name_and_type(current_field);
    let (next_field_name, _) = get_name_and_type(next_field_in_list);
    let current_field_struct_name = create_field_struct_name(builder_name, field_name.as_str());
    let next_field_struct_name = create_field_struct_name(builder_name, next_field_name.as_str());
    setter_impl(
        builder_name,
        current_field_struct_name.as_str(),
        field_name.as_str(),
        field_type.tokens.as_str(),
        next_field_struct_name.as_str(),
        field_assignments,
    )
}

/// The setter of the last field: it moves the builder to `FinalBuilder`.
pub fn builder_for_final_field(
    builder_name: &str,
    field_assignments: &Vec<String>,
    field: &FieldDef,
) -> (res: String)
    ensures
        res@ == setter_impl_text(
            builder_name@,
            field_struct_ident(builder_name@, field.name@),
            field.name@,
            field.ty.tokens@,
            "FinalBuilder"@,
            texts(field_assignments@),
        ),
{
    let (field_name, field_type) = get_name_and_type(field);
    let field_struct_name = create_field_struct_name(builder_name, field_name.as_str());
    setter_impl(
        builder_name,
        field_struct_name.as_str(),
        field_name.as_str(),
        field_type.tokens.as_str(),
        "FinalBuilder",
        field_assignments,
    )
}

fn setter_impl(
    builder: &str,
    from: &str,
    method: &str,
    ty: &str,
    to: &str,
    assignments: &Vec<String>,
) -> (res: String)
    ensures
        res@ == setter_impl_text(builder@, from@, method@, ty@, to@, texts(assignments@)),
{
    let carried = join_terminated(assignments, ",");
    let mut res = String::from_str("impl ");
    res.append(builder);
    res.append("<");
    res.append(from);
    res.append(">{ pub fn ");
    res.append(method);
    res.append("(mut self, input: ");
    res.append(ty);
    res.append(")->");
    res.append(builder);
    res.append("<");
    res.append(to);
    res.append(">{ self.");
    res.append(method);
    res.append("=Some(input); ");
    res.append(builder);
    res.append("{ marker:Default::default(), ");
    res.append(carried.as_str());
    res.append("} } }");
    res
}

/// The setters, last field first, then `build`, available in every state.
pub fn builder_methods(name: &str, fields: &Vec<FieldDef>) -> (res: String)
    ensures
        is_builder_methods(name@, fields@, res@),
        plain_names(fields@) ==> res@ == builder_methods_text(name@, fields@),
        forall|i: int|
            0 <= i < fields@.len() ==> occurs_in(#[trigger] setter_opening(name@, fields@, i), res@),
        occurs_in(build_opening(name@), res@),
{
    let builder_name = create_builder_ident(name);
    let set_fields = original_struct_setters(fields);
    let assignments_for_all_fields = get_assignments_for_fields(fields);
    let ghost b = builder_name@;
    let mut methods = String::new();
    let mut i: usize = fields.len();
    while i > 0
        invariant
            i <= fields.len(),
            b == builder_name@,
            texts(assignments_for_all_fields@) == carry_over_texts(fields@),
            methods@ == setters_from(b, fields@, i as int),
        decreases i,
    {
        let method = if i == fields.len() {
            builder_for_final_field(builder_name.as_str(), &assignments_for_all_fields, &fields[i - 1])
        } else {
            builder_for_field(
                builder_name.as_str(),
                &assignments_for_all_fields,
                &fields[i - 1],
                &fields[i],
            )
        };
        methods.append(method.as_str());
        i -= 1;
    }
    let setters = join_terminated(&set_fields, ",");
    let mut build = String::from_str("impl<T:MarkerTraitForBuilder> ");
    build.append(builder_name.as_str());
    build.append("<T>{ pub fn build(self)->");
    build.append(name);
    build.append("{ ");
    build.append(name);
    build.append("{ ");
    build.append(setters.as_str());
    build.append("} } }");
    assert(build@ == build_impl_text(name@, b, texts(set_fields@)));
    methods.append(build.as_str());
    assert(methods@ == methods_with(name@, fields@, texts(set_fields@)));
    proof {
        lemma_methods_hold_every_setter(name@, fields@, methods@);
    }
    methods
}

/// The marker trait, one marker type per field, and `FinalBuilder`.
pub fn marker_trait_and_structs(name: &str, fields: &Vec<FieldDef>) -> (res: String)
    ensures
        res@ == marker_trait_and_structs_text(name@, fields@),
        "pub trait MarkerTraitForBuilder{} "@.is_prefix_of(res@),
        forall|i: int|
            0 <= i < fields@.len() ==> occurs_in(
                marker_declaration(#[trigger] marker_of(name@, fields@, i)),
                res@,
            ),
        marker_declaration("FinalBuilder"@).is_suffix_of(res@),
{
    proof {
        lemma_every_state_is_a_marker(name@, fields@);
    }
    let builder_name = create_builder_ident(name);
    let mut structs_and_impls: Vec<String> = Vec::new();
    let mut i: usize = 0;
    while i < fields.len()
        invariant
            i <= fields.len(),
            structs_and_impls.len() == i,
            forall|j: int|
                0 <= j < i ==> #[trigger] structs_and_impls@[j]@ == marker_text(
                    builder_name@,
                    fields@[j],
                ),
        decreases fields.len() - i,
    {
        let struct_name = create_field_struct_name(builder_name.as_str(), fields[i].name.as_str());
        let mut s = String::from_str("pub struct ");
        s.append(struct_name.as_str());
        s.append("{} impl MarkerTraitForBuilder for ");
        s.append(struct_name.as_str());
        s.append("{} ");
        structs_and_impls.push(s);
        i += 1;
    }
    assert(texts(structs_and_impls@) =~= marker_texts(builder_name@, fields@));
    let body = join_terminated(&structs_and_impls, "");
    let mut res = String::from_str("pub trait MarkerTraitForBuilder{} ");
    res.append(body.as_str());
    res.append("pub struct FinalBuilder{} impl MarkerTraitForBuilder for FinalBuilder{} ");
    res
}

/// One `struct __nameDefaultAssertion where Type: core::default:Default;` per
/// field.  This is source text: once lexed, its tokens carry the call-site
/// span, not the span of the field's type.
pub fn optional_default_asserts(fields: &Vec<FieldDef>) -> (res: Vec<String>)
    ensures
        texts(res@) == default_assertion_texts(fields@),
{
    let mut res: Vec<String> = Vec::new();
    let mut i: usize = 0;
    while i < fields.len()
        invariant
            i <= fields.len(),
            res.len() == i,
            forall|j: int|
                0 <= j < i ==> #[trigger] res@[j]@ == default_assertion_text(fields@[j]),
        decreases fields.len() - i,
    {
        let f = &fields[i];
        let name = unraw_fragment(f.name.as_str());
        let mut s = String::from_str("struct ");
        s.append("__");
        s.append(name.as_str());
        s.append("DefaultAssertion");
        s.append(" where ");
        s.append(f.ty.tokens.as_str());
        s.append(": core::default:Default;");
        res.push(s);
        i += 1;
    }
    proof {
        assert(texts(res@) =~= default_assertion_texts(fields@));
    }
    res
}

// ---------------------------------------------------------------------------
// Reading the input
// ---------------------------------------------------------------------------

/// Whether `ty` is a path type whose first segment is `head_name`.
pub fn matches_type(ty: &TypeDef, head_name: &str) -> (res: bool)
    ensures
        res == (ty.path_head matches Some(head) && head@ == head_name@),
{
    match &ty.path_head {
        Some(head) => *head == String::from_str(head_name),
        None => false,
    }
}

/// The name and the type of a field.
pub fn get_name_and_type(field: &FieldDef) -> (res: (&String, &TypeDef))
    ensures
        *res.0 == field.name,
        *res.1 == field.ty,
{
    (&field.name, &field.ty)
}

/// The first attribute of `f` whose path is the identifier `name`.
pub fn extract_attribute_from_field<'a>(f: &'a FieldDef, name: &str) -> (res: Option<&'a AttrDef>)
    ensures
        res is None <==> forall|j: int| 0 <= j < f.attrs@.len() ==> !attr_is_ident(#[trigger] f.attrs@[j], name@),
        res matches Some(a) ==> exists|i: int|
            0 <= i < f.attrs@.len() && *a == f.attrs@[i] && attr_is_ident(f.attrs@[i], name@)
                && forall|j: int| 0 <= j < i ==> !attr_is_ident(#[trigger] f.attrs@[j], name@),
{
    let mut i: usize = 0;
    while i < f.attrs.len()
        invariant
            i <= f.attrs.len(),
            forall|j: int| 0 <= j < i ==> !attr_is_ident(#[trigger] f.attrs@[j], name@),
        decreases f.attrs.len() - i,
    {
        if attr_path_is(&f.attrs[i], name) {
            return Some(&f.attrs[i]);
        }
        i += 1;
    }
    None
}

/// Whether the attribute's path is the identifier `name`.
pub fn attr_path_is(attr: &AttrDef, name: &str) -> (res: bool)
    ensures
        res == attr_is_ident(*attr, name@),
{
    match &attr.path_ident {
        Some(id) => *id == String::from_str(name),
        None => false,
    }
}

} // verus!
