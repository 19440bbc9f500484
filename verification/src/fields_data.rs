use vstd::prelude::*;

verus! {

/// What the attribute collector learns about one named field: the
/// field's identifier and, per direction, the override function named
/// by a field attribute, if any.
#[derive(Debug)]
pub struct NamedFieldData {
    pub field: String,
    pub deserialization_fn: Option<String>,
    pub serialization_fn: Option<String>,
}

/// The mathematical contents of a [`NamedFieldData`].
pub struct FieldPlanView {
    pub field: Seq<char>,
    pub deserialization_fn: Option<Seq<char>>,
    pub serialization_fn: Option<Seq<char>>,
}

impl View for NamedFieldData {
    type V = FieldPlanView;

    open spec fn view(&self) -> FieldPlanView {
        FieldPlanView {
            field: self.field@,
            deserialization_fn: match self.deserialization_fn {
                Some(s) => Some(s@),
                None => None,
            },
            serialization_fn: match self.serialization_fn {
                Some(s) => Some(s@),
                None => None,
            },
        }
    }
}

impl NamedFieldData {
    pub fn new(field: String) -> (r: Self)
        ensures
            r@ == (FieldPlanView { field: field@, deserialization_fn: None, serialization_fn: None }),
    {
        Self { field, deserialization_fn: None, serialization_fn: None }
    }
}

/// The views of a sequence of collected field data.
pub open spec fn view_plans(s: Seq<NamedFieldData>) -> Seq<FieldPlanView> {
    s.map_values(|d: NamedFieldData| d@)
}

/// What the variant collector learns about one enumeration variant:
/// its identifier and the source text of its integer discriminant.
#[derive(Debug)]
pub struct VariantData {
    pub variant: String,
    pub discriminant: String,
}

/// The mathematical contents of a [`VariantData`].
pub struct VariantPlanView {
    pub variant: Seq<char>,
    pub discriminant: Seq<char>,
}

impl View for VariantData {
    type V = VariantPlanView;

    open spec fn view(&self) -> VariantPlanView {
        VariantPlanView { variant: self.variant@, discriminant: self.discriminant@ }
    }
}

/// The views of a sequence of collected variant data.
pub open spec fn view_variant_plans(s: Seq<VariantData>) -> Seq<VariantPlanView> {
    s.map_values(|d: VariantData| d@)
}

impl VariantData {
    pub fn new(variant: String, discriminant: String) -> (r: Self)
        ensures
            r@ == (VariantPlanView { variant: variant@, discriminant: discriminant@ }),
    {
        Self { variant, discriminant }
    }
}

} // verus!
