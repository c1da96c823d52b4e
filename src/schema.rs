use vstd::prelude::*;

verus! {

#[verifier::external_type_specification]
#[verifier::external_body]
pub struct ExRootSchema(schemars::schema::RootSchema);

/// Relies on schemars' `SchemaGenerator::into_root_schema_for` with the default
/// settings (what `schema_for!` expands to): the schema document of type `T`.
#[verifier::external_body]
pub(crate) fn schema_of<T: schemars::JsonSchema>() -> (r: schemars::schema::RootSchema) {
    schemars::gen::SchemaGenerator::default().into_root_schema_for::<T>()
}

} // verus!
