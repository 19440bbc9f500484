use crate::fields_data::{FieldPlanView, NamedFieldData};
use vstd::prelude::*;

verus! {

/// Which direction the generator is working for.  It decides the name
/// of the field attribute that names an override function, and which
/// slot of a [`NamedFieldData`] that function goes into.
pub enum Target {
    ForSerialization,
    ForDeserialization,
}

/// The field-attribute name belonging to a direction.
pub open spec fn spec_attribute_name(t: Target) -> Seq<char> {
    match t {
        Target::ForSerialization => "serialize"@,
        Target::ForDeserialization => "deserialize"@,
    }
}

/// The override slot of `d` belonging to direction `t`, set to `f`.
pub open spec fn spec_set_serialization_fn(t: Target, d: FieldPlanView, f: Seq<char>) -> FieldPlanView {
    match t {
        Target::ForSerialization => FieldPlanView { serialization_fn: Some(f), ..d },
        Target::ForDeserialization => FieldPlanView { deserialization_fn: Some(f), ..d },
    }
}

impl Target {
    pub fn attribute_name(&self) -> (r: &'static str)
        ensures
            r@ == spec_attribute_name(*self),
    {
        match self {
            Target::ForSerialization => "serialize",
            Target::ForDeserialization => "deserialize",
        }
    }

    pub fn set_serialization_fn(&self, field_data: &mut NamedFieldData, fn_name: String)
        ensures
            final(field_data)@ == spec_set_serialization_fn(*self, old(field_data)@, fn_name@),
    {
        match self {
            Target::ForSerialization => field_data.serialization_fn = Some(fn_name),
            Target::ForDeserialization => field_data.deserialization_fn = Some(fn_name),
        }
    }
}

} // verus!
