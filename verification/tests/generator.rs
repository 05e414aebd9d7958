use builder_code::derive::{
    create_builder, expand, field_from_parts, parse_struct, read_fields, struct_from_parts, use_defaults,
    DeriveError, DEFAULTS_ATTRIBUTES_NAME,
};
use builder_code::fields::{
    builder_definitions, builder_field_definitions, builder_for_field, builder_for_final_field,
    builder_impl_for_struct, builder_init_values, builder_methods, default_fallback,
    extract_attribute_from_field, get_assignments_for_fields, get_name_and_type,
    marker_trait_and_structs, matches_type, optional_default_asserts, original_struct_setters,
    panic_fallback,
};
use builder_code::model::{AttrDef, FieldDef, StructDef, TypeDef};
use builder_code::util::{create_builder_ident, create_field_struct_name, unraw_fragment};
use proc_macro2::TokenStream;
use std::str::FromStr;

fn field(name: &str, ty: &str) -> FieldDef {
    FieldDef {
        name: name.to_string(),
        ty: TypeDef { tokens: ty.to_string(), path_head: Some(ty.to_string()) },
        attrs: vec![],
    }
}

fn attr(path: Option<&str>) -> AttrDef {
    AttrDef { path_ident: path.map(|p| p.to_string()) }
}

fn tokens(src: &str) -> TokenStream {
    TokenStream::from_str(src).unwrap()
}

#[test]
fn builder_ident_appends_builder() {
    assert_eq!(create_builder_ident("GleipnirA"), "GleipnirABuilder");
    assert_eq!(create_builder_ident("r#async"), "asyncBuilder");
}

#[test]
fn field_struct_name_joins_field_and_builder() {
    assert_eq!(create_field_struct_name("GleipnirABuilder", "roots_of"), "roots_ofOfGleipnirABuilder");
    assert_eq!(create_field_struct_name("KwBuilder", "r#type"), "typeOfKwBuilder");
}

#[test]
fn unraw_strips_only_the_raw_prefix() {
    assert_eq!(unraw_fragment("r#type"), "type");
    assert_eq!(unraw_fragment("roots_of"), "roots_of");
    assert_eq!(unraw_fragment("r"), "r");
    assert_eq!(unraw_fragment(""), "");
}

#[test]
fn panic_fallback_names_the_field() {
    assert_eq!(panic_fallback("roots_of"), "expect(concat!(\"field not set: \", \"roots_of\"))");
}

#[test]
fn panic_fallback_escapes_the_literal() {
    assert_eq!(panic_fallback("a\"b"), "expect(concat!(\"field not set: \", \"a\\\"b\"))");
}

#[test]
fn default_fallback_is_unwrap_or_default() {
    assert_eq!(default_fallback(), "unwrap_or_default()");
}

#[test]
fn matches_type_reads_the_first_segment() {
    let string = TypeDef { tokens: "String".to_string(), path_head: Some("String".to_string()) };
    let vec = TypeDef { tokens: "std :: vec :: Vec < u8 >".to_string(), path_head: Some("std".to_string()) };
    let tuple = TypeDef { tokens: "(u8 , u8)".to_string(), path_head: None };
    assert!(matches_type(&string, "String"));
    assert!(!matches_type(&string, "Str"));
    assert!(matches_type(&vec, "std"));
    assert!(!matches_type(&vec, "Vec"));
    assert!(!matches_type(&tuple, "u8"));
}

#[test]
fn get_name_and_type_give_back_name() {
    let f = field("example", "string");
    let (actual_name, actual_type) = get_name_and_type(&f);
    assert_eq!(actual_name.to_string(), "example".to_string());
    assert_eq!(actual_type.tokens, "string");
}

#[test]
fn extract_attribute_finds_the_first_match() {
    let mut f = field("roots_of", "String");
    f.attrs = vec![attr(None), attr(Some("doc")), attr(Some("rename")), attr(Some("rename"))];
    let found = extract_attribute_from_field(&f, "rename").unwrap();
    assert!(std::ptr::eq(found, &f.attrs[2]));
    assert!(extract_attribute_from_field(&f, "missing").is_none());
}

#[test]
fn use_defaults_looks_for_builder_defaults() {
    assert_eq!(DEFAULTS_ATTRIBUTES_NAME, "builder_defaults");
    assert!(use_defaults(&vec![attr(Some("derive")), attr(Some("builder_defaults"))]));
    assert!(!use_defaults(&vec![attr(Some("derive")), attr(None)]));
    assert!(!use_defaults(&vec![]));
}

#[test]
fn per_field_lists() {
    let fields = vec![field("roots_of", "String"), field("breath_of_a_fish", "u8")];
    assert_eq!(builder_init_values(&fields), vec!["roots_of:None", "breath_of_a_fish:None"]);
    assert_eq!(
        builder_field_definitions(&fields),
        vec!["pub roots_of: Option<String>", "pub breath_of_a_fish: Option<u8>"]
    );
    assert_eq!(
        get_assignments_for_fields(&fields),
        vec!["roots_of: self.roots_of", "breath_of_a_fish: self.breath_of_a_fish"]
    );
    assert_eq!(
        original_struct_setters(&fields),
        vec![
            "roots_of: self.roots_of.expect(concat!(\"field not set: \", \"roots_of\"))",
            "breath_of_a_fish: self.breath_of_a_fish.expect(concat!(\"field not set: \", \"breath_of_a_fish\"))",
        ]
    );
    assert_eq!(
        optional_default_asserts(&fields),
        vec![
            "struct __roots_ofDefaultAssertion where String: core::default:Default;",
            "struct __breath_of_a_fishDefaultAssertion where u8: core::default:Default;",
        ]
    );
}

#[test]
fn builder_struct_definition() {
    let fields = vec![field("roots_of", "String"), field("breath_of_a_fish", "u8")];
    assert_eq!(
        builder_definitions("GleipnirB", &fields),
        "pub struct GleipnirBBuilder<T:MarkerTraitForBuilder>{ marker: std::marker::PhantomData<T>, roots_of: Option<String>,breath_of_a_fish: Option<u8>,}"
    );
}

#[test]
fn builder_entry_point_starts_at_the_first_field() {
    let fields = vec![field("roots_of", "String"), field("breath_of_a_fish", "u8")];
    assert_eq!(
        builder_impl_for_struct("GleipnirB", &fields),
        "impl GleipnirB{ pub fn builder()->GleipnirBBuilder<roots_ofOfGleipnirBBuilder>{ GleipnirBBuilder{ marker:Default::default(), roots_of:None,breath_of_a_fish:None,} } }"
    );
    assert_eq!(
        builder_impl_for_struct("Empty", &vec![]),
        "impl Empty{ pub fn builder()->EmptyBuilder<FinalBuilder>{ EmptyBuilder{ marker:Default::default(), } } }"
    );
}

#[test]
fn one_marker_type_per_field() {
    let fields = vec![field("roots_of", "String"), field("breath_of_a_fish", "u8")];
    assert_eq!(
        marker_trait_and_structs("GleipnirB", &fields),
        "pub trait MarkerTraitForBuilder{} pub struct roots_ofOfGleipnirBBuilder{} impl MarkerTraitForBuilder for roots_ofOfGleipnirBBuilder{} pub struct breath_of_a_fishOfGleipnirBBuilder{} impl MarkerTraitForBuilder for breath_of_a_fishOfGleipnirBBuilder{} pub struct FinalBuilder{} impl MarkerTraitForBuilder for FinalBuilder{} "
    );
}

#[test]
fn setters_move_to_the_next_state() {
    let a = field("roots_of", "String");
    let b = field("breath_of_a_fish", "u8");
    let carried = vec!["roots_of: self.roots_of".to_string(), "breath_of_a_fish: self.breath_of_a_fish".to_string()];
    assert_eq!(
        builder_for_field("GleipnirBBuilder", &carried, &a, &b),
        "impl GleipnirBBuilder<roots_ofOfGleipnirBBuilder>{ pub fn roots_of(mut self, input: String)->GleipnirBBuilder<breath_of_a_fishOfGleipnirBBuilder>{ self.roots_of=Some(input); GleipnirBBuilder{ marker:Default::default(), roots_of: self.roots_of,breath_of_a_fish: self.breath_of_a_fish,} } }"
    );
    assert_eq!(
        builder_for_final_field("GleipnirBBuilder", &carried, &b),
        "impl GleipnirBBuilder<breath_of_a_fishOfGleipnirBBuilder>{ pub fn breath_of_a_fish(mut self, input: u8)->GleipnirBBuilder<FinalBuilder>{ self.breath_of_a_fish=Some(input); GleipnirBBuilder{ marker:Default::default(), roots_of: self.roots_of,breath_of_a_fish: self.breath_of_a_fish,} } }"
    );
}

#[test]
fn methods_are_last_field_first_then_build() {
    let fields = vec![field("a", "u8"), field("b", "u16")];
    assert_eq!(
        builder_methods("P", &fields),
        "impl PBuilder<bOfPBuilder>{ pub fn b(mut self, input: u16)->PBuilder<FinalBuilder>{ self.b=Some(input); PBuilder{ marker:Default::default(), a: self.a,b: self.b,} } }\
impl PBuilder<aOfPBuilder>{ pub fn a(mut self, input: u8)->PBuilder<bOfPBuilder>{ self.a=Some(input); PBuilder{ marker:Default::default(), a: self.a,b: self.b,} } }\
impl<T:MarkerTraitForBuilder> PBuilder<T>{ pub fn build(self)->P{ P{ a: self.a.expect(concat!(\"field not set: \", \"a\")),b: self.b.expect(concat!(\"field not set: \", \"b\")),} } }"
    );
}

#[test]
fn markers_form_a_chain_of_distinct_states() {
    // The states visited by the setters of a three-field struct: each marker
    // differs from the others and from `FinalBuilder`.
    let states = vec![
        create_field_struct_name("GleipnirCBuilder", "roots_of"),
        create_field_struct_name("GleipnirCBuilder", "breath_of_a_fish"),
        create_field_struct_name("GleipnirCBuilder", "other_necessities"),
        "FinalBuilder".to_string(),
    ];
    for i in 0..states.len() {
        for j in 0..states.len() {
            assert_eq!(i == j, states[i] == states[j]);
        }
    }
    let methods = builder_methods(
        "GleipnirC",
        &vec![field("roots_of", "String"), field("breath_of_a_fish", "u8"), field("other_necessities", "Vec<String>")],
    );
    for i in 0..3 {
        let step = format!("GleipnirCBuilder<{}>{{ pub fn", states[i]);
        let to = format!("->GleipnirCBuilder<{}>{{", states[i + 1]);
        let at = methods.find(&step).unwrap();
        assert!(methods[at..].find(&to).is_some());
        assert_eq!(methods.matches(&step).count(), 1);
    }
}

#[test]
fn parse_struct_reads_names_types_and_attributes() {
    let def = parse_struct(tokens(
        "#[builder_defaults] struct Kw { #[doc = \"x\"] #[rename] r#type: std::vec::Vec<u8>, pair: (u8, u8), }",
    ))
    .unwrap();
    assert_eq!(def.name, "Kw");
    assert!(use_defaults(&def.attrs));
    assert_eq!(def.fields.len(), 2);
    assert_eq!(def.fields[0].name, "r#type");
    assert_eq!(def.fields[0].ty.tokens, "std :: vec :: Vec < u8 >");
    assert_eq!(def.fields[0].ty.path_head, Some("std".to_string()));
    assert_eq!(def.fields[0].attrs.len(), 2);
    assert_eq!(def.fields[0].attrs[0].path_ident, Some("doc".to_string()));
    assert!(extract_attribute_from_field(&def.fields[0], "rename").is_some());
    assert_eq!(def.fields[1].ty.path_head, None);
}

#[test]
fn parse_struct_rejects_other_items() {
    assert!(matches!(parse_struct(tokens("enum E { A, B }")), Err(DeriveError::NotNamedStruct)));
    assert!(matches!(parse_struct(tokens("struct T(u8);")), Err(DeriveError::NotNamedStruct)));
    assert!(matches!(parse_struct(tokens("struct U;")), Err(DeriveError::NotNamedStruct)));
    assert!(matches!(parse_struct(tokens("fn f() {}")), Err(DeriveError::Parse(_))));
    assert!(matches!(create_builder(tokens("enum E { A }")), Err(DeriveError::NotNamedStruct)));
}

#[test]
fn raw_field_names_keep_their_prefix_in_methods() {
    let def = StructDef { name: "Kw".to_string(), attrs: vec![], fields: vec![field("r#type", "u8")] };
    let text = expand(&def);
    assert!(text.contains("pub struct typeOfKwBuilder{}"));
    assert!(text.contains("pub fn r#type(mut self, input: u8)->KwBuilder<FinalBuilder>"));
    assert!(text.contains("r#type: self.r#type.expect(concat!(\"field not set: \", \"r#type\"))"));
    let generated = create_builder(tokens("struct Kw { r#type: u8 }")).unwrap();
    assert_eq!(generated.to_string(), tokens(&text).to_string());
}

#[test]
fn field_from_parts_needs_a_name() {
    assert!(field_from_parts(None, "u8".to_string(), Some("u8".to_string()), vec![]).is_none());
    let f = field_from_parts(Some("a".to_string()), "u8".to_string(), Some("u8".to_string()), vec![attr(Some("doc"))])
        .unwrap();
    assert_eq!(f.name, "a");
    assert_eq!(f.ty.tokens, "u8");
    assert_eq!(f.ty.path_head, Some("u8".to_string()));
    assert_eq!(f.attrs.len(), 1);
}

#[test]
fn struct_from_parts_decides_the_outcome() {
    assert!(matches!(struct_from_parts("S".to_string(), vec![], None), Err(DeriveError::NotNamedStruct)));
    assert!(matches!(
        struct_from_parts("S".to_string(), vec![], Some(vec![Some(field("a", "u8")), None])),
        Err(DeriveError::UnnamedField)
    ));
    let def = struct_from_parts(
        "S".to_string(),
        vec![attr(Some("builder_defaults"))],
        Some(vec![Some(field("a", "u8")), Some(field("b", "u16"))]),
    )
    .unwrap();
    assert_eq!(def.name, "S");
    assert_eq!(def.attrs.len(), 1);
    assert_eq!(def.fields.len(), 2);
    assert_eq!(def.fields[0].name, "a");
    assert_eq!(def.fields[1].name, "b");
    let empty = struct_from_parts("E".to_string(), vec![], Some(vec![])).unwrap();
    assert_eq!(empty.fields.len(), 0);
}

#[test]
fn read_fields_keeps_declaration_order() {
    let ast: syn::DeriveInput = syn::parse_str("struct S { b: u16, a: Vec<u8>, #[doc = \"x\"] c: (u8, u8) }").unwrap();
    let named = match &ast.data {
        syn::Data::Struct(syn::DataStruct { fields: syn::Fields::Named(named), .. }) => &named.named,
        _ => unreachable!(),
    };
    let read = read_fields(named);
    assert_eq!(read.len(), 3);
    let names: Vec<String> = read.iter().map(|f| f.as_ref().unwrap().name.clone()).collect();
    assert_eq!(names, vec!["b", "a", "c"]);
    assert_eq!(read[1].as_ref().unwrap().ty.tokens, "Vec < u8 >");
    assert_eq!(read[1].as_ref().unwrap().ty.path_head, Some("Vec".to_string()));
    assert_eq!(read[2].as_ref().unwrap().attrs[0].path_ident, Some("doc".to_string()));
}

#[test]
fn panic_fallback_literal_holds_any_name() {
    let text = panic_fallback("größe\u{301}");
    let prefix = "expect(concat!(\"field not set: \", ";
    assert!(text.starts_with(prefix) && text.ends_with("))"));
    let lit = &text[prefix.len()..text.len() - 2];
    let value = syn::parse_str::<syn::LitStr>(lit).unwrap().value();
    assert_eq!(value, "größe\u{301}");
}

#[test]
fn no_setter_for_an_undeclared_field() {
    let generated = create_builder(tokens(
        "struct Gleipnir { roots_of: String, breath_of_a_fish: u8, anything_else: bool }",
    ))
    .unwrap()
    .to_string();
    assert!(!generated.contains("tops_of"));
    assert!(generated.contains("pub fn roots_of"));
    assert!(generated.contains("pub fn anything_else"));
}
