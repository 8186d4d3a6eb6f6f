use vstd::prelude::*;
use heck::ToUpperCamelCase;
use crate::emit::{emit_unit, unit_text};
use crate::schema::{schema_error, validate, ContainerSchema, MetricDescriptor, SchemaError};

verus! {

/// What heck's upper camel case makes of `s`.
pub uninterp spec fn upper_camel_of(s: Seq<char>) -> Seq<char>;

/// Relies on heck's `ToUpperCamelCase::to_upper_camel_case` for `str`, whose
/// result depends on the characters of the input alone.
#[verifier::external_body]
fn upper_camel(s: &str) -> (r: String)
    ensures
        r@ == upper_camel_of(s@),
{
    s.to_upper_camel_case()
}

/// The label-set type names of the descriptors: each field name in upper
/// camel case.
pub open spec fn label_set_names(ds: Seq<MetricDescriptor>) -> Seq<Seq<char>> {
    Seq::new(ds.len(), |i: int| upper_camel_of(ds[i].field_name@))
}

/// The label-set type name of every descriptor, in order.
pub fn label_set_type_names(ds: &Vec<MetricDescriptor>) -> (r: Vec<String>)
    ensures
        r@.len() == ds@.len(),
        r.deep_view() == label_set_names(ds@),
{
    let mut r: Vec<String> = Vec::new();
    let mut i: usize = 0;
    while i < ds.len()
        invariant
            i <= ds@.len(),
            r@.len() == i,
            forall|k: int| 0 <= k < i ==> #[trigger] r@[k]@ == upper_camel_of(ds@[k].field_name@),
        decreases ds@.len() - i,
    {
        let name = upper_camel(ds[i].field_name.as_str());
        r.push(name);
        i = i + 1;
    }
    assert(r.deep_view() =~= label_set_names(ds@));
    r
}

/// Generates the typed metrics API of a schema: `Err` with the first fault
/// exactly when the schema has one, else the source text of the label-set
/// types, the constructor and the accessors.
pub fn generate(schema: &ContainerSchema) -> (r: Result<String, SchemaError>)
    ensures
        match schema_error(*schema) {
            Some(e) => r == Err::<String, SchemaError>(e),
            None => r matches Ok(text) && text@ == unit_text(
                *schema,
                label_set_names(schema.descriptors@),
            ),
        },
{
    match validate(schema) {
        Err(e) => Err(e),
        Ok(()) => {
            let names = label_set_type_names(&schema.descriptors);
            Ok(emit_unit(schema, &names))
        },
    }
}

} // verus!
