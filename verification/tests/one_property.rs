#![allow(non_camel_case_types, dead_code, private_bounds, private_interfaces)]

use builder_code::derive::create_builder;
use proc_macro2::TokenStream;
use std::str::FromStr;

struct GleipnirA {
    roots_of: String,
}

// The expansion of the derive on `GleipnirA`, as `create_builder` produces it
// (checked below), so that the generated builder can be run here.
const EXPANSION: &str = r#"
pub struct GleipnirABuilder<T: MarkerTraitForBuilder> {
    marker: std::marker::PhantomData<T>,
    roots_of: Option<String>,
}
impl GleipnirA {
    pub fn builder() -> GleipnirABuilder<roots_ofOfGleipnirABuilder> {
        GleipnirABuilder { marker: Default::default(), roots_of: None, }
    }
}
pub trait MarkerTraitForBuilder {}
pub struct roots_ofOfGleipnirABuilder {}
impl MarkerTraitForBuilder for roots_ofOfGleipnirABuilder {}
pub struct FinalBuilder {}
impl MarkerTraitForBuilder for FinalBuilder {}
impl GleipnirABuilder<roots_ofOfGleipnirABuilder> {
    pub fn roots_of(mut self, input: String) -> GleipnirABuilder<FinalBuilder> {
        self.roots_of = Some(input);
        GleipnirABuilder { marker: Default::default(), roots_of: self.roots_of, }
    }
}
impl<T: MarkerTraitForBuilder> GleipnirABuilder<T> {
    pub fn build(self) -> GleipnirA {
        GleipnirA { roots_of: self.roots_of.expect(concat!("field not set: ", "roots_of")), }
    }
}
"#;

// The same items, compiled; `concat!` of the two literals is written as the one
// literal it expands to.
pub struct GleipnirABuilder<T: MarkerTraitForBuilder> {
    marker: std::marker::PhantomData<T>,
    roots_of: Option<String>,
}
impl GleipnirA {
    pub fn builder() -> GleipnirABuilder<roots_ofOfGleipnirABuilder> {
        GleipnirABuilder { marker: Default::default(), roots_of: None, }
    }
}
pub trait MarkerTraitForBuilder {}
pub struct roots_ofOfGleipnirABuilder {}
impl MarkerTraitForBuilder for roots_ofOfGleipnirABuilder {}
pub struct FinalBuilder {}
impl MarkerTraitForBuilder for FinalBuilder {}
impl GleipnirABuilder<roots_ofOfGleipnirABuilder> {
    pub fn roots_of(mut self, input: String) -> GleipnirABuilder<FinalBuilder> {
        self.roots_of = Some(input);
        GleipnirABuilder { marker: Default::default(), roots_of: self.roots_of, }
    }
}
impl<T: MarkerTraitForBuilder> GleipnirABuilder<T> {
    pub fn build(self) -> GleipnirA {
        GleipnirA { roots_of: self.roots_of.expect("field not set: roots_of"), }
    }
}

#[test]
fn should_generate_builder_for_struct_with_one_property() {
    let input = TokenStream::from_str("struct GleipnirA { roots_of: String, }").unwrap();
    let generated = create_builder(input).unwrap();
    assert_eq!(generated.to_string(), TokenStream::from_str(EXPANSION).unwrap().to_string());

    let gleipnir = GleipnirA::builder()
        .roots_of("mountains".to_string())
        .build();

    assert_eq!(gleipnir.roots_of, "mountains".to_string());
}
