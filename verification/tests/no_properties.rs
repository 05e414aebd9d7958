#![allow(non_camel_case_types, dead_code, private_bounds, private_interfaces)]

use builder_code::derive::create_builder;
use proc_macro2::TokenStream;
use std::str::FromStr;

struct ExampleStructNoFields {}

// The expansion of the derive on `ExampleStructNoFields`, as `create_builder`
// produces it (checked below): with no field to set, `builder()` starts in the
// final state.
const EXPANSION: &str = r#"
pub struct ExampleStructNoFieldsBuilder<T: MarkerTraitForBuilder> {
    marker: std::marker::PhantomData<T>,
}
impl ExampleStructNoFields {
    pub fn builder() -> ExampleStructNoFieldsBuilder<FinalBuilder> {
        ExampleStructNoFieldsBuilder { marker: Default::default(), }
    }
}
pub trait MarkerTraitForBuilder {}
pub struct FinalBuilder {}
impl MarkerTraitForBuilder for FinalBuilder {}
impl<T: MarkerTraitForBuilder> ExampleStructNoFieldsBuilder<T> {
    pub fn build(self) -> ExampleStructNoFields {
        ExampleStructNoFields {}
    }
}
"#;

// The same items, compiled.
pub struct ExampleStructNoFieldsBuilder<T: MarkerTraitForBuilder> {
    marker: std::marker::PhantomData<T>,
}
impl ExampleStructNoFields {
    pub fn builder() -> ExampleStructNoFieldsBuilder<FinalBuilder> {
        ExampleStructNoFieldsBuilder { marker: Default::default(), }
    }
}
pub trait MarkerTraitForBuilder {}
pub struct FinalBuilder {}
impl MarkerTraitForBuilder for FinalBuilder {}
impl<T: MarkerTraitForBuilder> ExampleStructNoFieldsBuilder<T> {
    pub fn build(self) -> ExampleStructNoFields {
        ExampleStructNoFields {}
    }
}

#[test]
fn should_generate_builder_for_struct_with_no_properties() {
    let input = TokenStream::from_str("struct ExampleStructNoFields {}").unwrap();
    let generated = create_builder(input).unwrap();
    assert_eq!(generated.to_string(), TokenStream::from_str(EXPANSION).unwrap().to_string());

    let _: ExampleStructNoFields = ExampleStructNoFields::builder().build();
}
