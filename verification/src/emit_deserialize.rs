use crate::ast::{DataDecl, DataView, TypeDecl, TypeDeclView};
use crate::collection::{collect_named_fields_data, collect_variants_data, find_type_numeric_repr,
    spec_collect_named_fields, spec_collect_variants, spec_find_type_numeric_repr};
use crate::diag::{Diag, DiagView};
use crate::fields_data::{view_plans, view_variant_plans, FieldPlanView, NamedFieldData,
    VariantData, VariantPlanView};
use crate::target::Target;
use vstd::prelude::*;
use vstd::string::StringExecFns;

verus! {

// ////////////////////////////////////////////////////////////////////
// EMITTED TEXT, DECODE SIDE
// ////////////////////////////////////////////////////////////////////
// The generator emits source text.  The source binding is the
// generator-controlled name `__serdine_r`, which cannot collide with
// a user identifier.

/// One field's fragment: a local bound to the override call when the
/// field carries one, to the generic capability call otherwise.
pub open spec fn spec_deserialize_field_line(p: FieldPlanView) -> Seq<char> {
    match p.deserialization_fn {
        Some(g) => "        let "@ + p.field + " = "@ + g + "(__serdine_r)?;\n"@,
        None => "        let "@ + p.field
            + " = serdine::Deserialize::deserialize(__serdine_r)?;\n"@,
    }
}

/// The fields' fragments, in declaration order.
pub open spec fn spec_deserialize_field_lines(plans: Seq<FieldPlanView>) -> Seq<char>
    decreases plans.len(),
{
    if plans.len() == 0 {
        Seq::empty()
    } else {
        spec_deserialize_field_lines(plans.drop_last()) + spec_deserialize_field_line(plans.last())
    }
}

/// The field names listed in the record constructor, in declaration
/// order.
pub open spec fn spec_constructor_names(plans: Seq<FieldPlanView>) -> Seq<char>
    decreases plans.len(),
{
    if plans.len() == 0 {
        Seq::empty()
    } else {
        spec_constructor_names(plans.drop_last()) + plans.last().field + ", "@
    }
}

/// The decode implementation emitted for a named-fields struct: one
/// local per field in declaration order, then construction of the
/// record from those locals.
pub open spec fn spec_emit_deserialize_struct(name: Seq<char>, plans: Seq<FieldPlanView>) -> Seq<
    char,
> {
    "impl serdine::Deserialize for "@ + name
        + " {\n    fn deserialize(__serdine_r: &mut serdine::ByteSource) -> Result<Self, serdine::CodecError> {\n"@
        + spec_deserialize_field_lines(plans) + "        let result = Self { "@
        + spec_constructor_names(plans) + "};\n        Ok(result)\n    }\n}\n"@
}

/// One variant's match arm, mapping the declared discriminant literal
/// back to the variant.
pub open spec fn spec_deserialize_variant_arm(v: VariantPlanView) -> Seq<char> {
    "            "@ + v.discriminant + " => Self::"@ + v.variant + ",\n"@
}

/// The variants' match arms, in declaration order.
pub open spec fn spec_deserialize_variant_arms(vs: Seq<VariantPlanView>) -> Seq<char>
    decreases vs.len(),
{
    if vs.len() == 0 {
        Seq::empty()
    } else {
        spec_deserialize_variant_arms(vs.drop_last()) + spec_deserialize_variant_arm(vs.last())
    }
}

/// The decode implementation emitted for an enumeration: read the
/// storage-representation integer, then map it back to a variant by
/// exhaustive case analysis; a value matching no variant is the
/// unrecoverable unknown-discriminant failure.
pub open spec fn spec_emit_deserialize_enum(
    name: Seq<char>,
    repr: Seq<char>,
    vs: Seq<VariantPlanView>,
) -> Seq<char> {
    "impl serdine::Deserialize for "@ + name
        + " {\n    fn deserialize(__serdine_r: &mut serdine::ByteSource) -> Result<Self, serdine::CodecError> {\n        let __serdine_value = "@
        + repr + "::deserialize(__serdine_r)?;\n        let result = match __serdine_value {\n"@
        + spec_deserialize_variant_arms(vs)
        + "            __serdine_other => return Err(serdine::CodecError::UnknownDiscriminant(__serdine_other as u128)),\n        };\n        Ok(result)\n    }\n}\n"@
}

/// What the decode-side generator produces for a type declaration:
/// the emitted implementation, or the first diagnostic.
pub open spec fn spec_impl_deserialize(d: TypeDeclView) -> Result<Seq<char>, DiagView> {
    match d.data {
        DataView::NamedStruct(fields) => match spec_collect_named_fields(
            fields,
            Target::ForDeserialization,
            Seq::empty(),
        ) {
            Err(dg) => Err(dg),
            Ok(plans) => Ok(spec_emit_deserialize_struct(d.ident, plans)),
        },
        DataView::UnnamedStruct => Err(
            DiagView { message: "Unnamed fields not supported"@, span: d.span },
        ),
        DataView::UnitStruct => Err(
            DiagView { message: "Unit fields not supported"@, span: d.span },
        ),
        DataView::EnumData(variants) => match spec_find_type_numeric_repr(d.attrs, d.span) {
            Err(dg) => Err(dg),
            Ok(repr) => match spec_collect_variants(variants, Seq::empty()) {
                Err(dg) => Err(dg),
                Ok(vplans) => Ok(spec_emit_deserialize_enum(d.ident, repr, vplans)),
            },
        },
        DataView::UnionData => Err(DiagView { message: "Unions not supported"@, span: d.span }),
    }
}

/// Emit the decode implementation for a named-fields struct.
pub fn impl_trait_with_named_fields(decl_name: &String, fields_data: Vec<NamedFieldData>) -> (res:
    String)
    ensures
        res@ == spec_emit_deserialize_struct(decl_name@, view_plans(fields_data@)),
{
    let mut out = String::new();
    out.append("impl serdine::Deserialize for ");
    out.append(decl_name.as_str());
    out.append(
        " {\n    fn deserialize(__serdine_r: &mut serdine::ByteSource) -> Result<Self, serdine::CodecError> {\n",
    );
    let ghost header = out@;
    let ghost pv = view_plans(fields_data@);
    proof {
        assert(pv.take(0) =~= Seq::<FieldPlanView>::empty());
        assert(out@ =~= header + spec_deserialize_field_lines(pv.take(0)));
    }
    let mut i: usize = 0;
    while i < fields_data.len()
        invariant
            i <= fields_data.len(),
            pv == view_plans(fields_data@),
            out@ == header + spec_deserialize_field_lines(pv.take(i as int)),
        decreases fields_data.len() - i,
    {
        let fd = &fields_data[i];
        match &fd.deserialization_fn {
            Some(g) => {
                out.append("        let ");
                out.append(fd.field.as_str());
                out.append(" = ");
                out.append(g.as_str());
                out.append("(__serdine_r)?;\n");
            },
            None => {
                out.append("        let ");
                out.append(fd.field.as_str());
                out.append(" = serdine::Deserialize::deserialize(__serdine_r)?;\n");
            },
        }
        proof {
            assert(pv.take(i + 1).drop_last() =~= pv.take(i as int));
            assert(pv.take(i + 1).last() == pv[i as int]);
            assert(out@ =~= header + spec_deserialize_field_lines(pv.take(i + 1)));
        }
        i = i + 1;
    }
    out.append("        let result = Self { ");
    let ghost mid = out@;
    proof {
        assert(pv.take(fields_data@.len() as int) =~= pv);
        assert(mid =~= header + spec_deserialize_field_lines(pv) + "        let result = Self { "@);
        assert(out@ =~= mid + spec_constructor_names(pv.take(0)));
    }
    let mut i: usize = 0;
    while i < fields_data.len()
        invariant
            i <= fields_data.len(),
            pv == view_plans(fields_data@),
            out@ == mid + spec_constructor_names(pv.take(i as int)),
        decreases fields_data.len() - i,
    {
        let fd = &fields_data[i];
        out.append(fd.field.as_str());
        out.append(", ");
        proof {
            assert(pv.take(i + 1).drop_last() =~= pv.take(i as int));
            assert(pv.take(i + 1).last() == pv[i as int]);
            assert(out@ =~= mid + spec_constructor_names(pv.take(i + 1)));
        }
        i = i + 1;
    }
    out.append("};\n        Ok(result)\n    }\n}\n");
    proof {
        assert(pv.take(fields_data@.len() as int) =~= pv);
        assert(out@ =~= spec_emit_deserialize_struct(decl_name@, pv));
    }
    out
}

/// Emit the decode implementation for an enumeration.
pub fn impl_trait_with_enum_variants(
    decl_name: &String,
    enum_repr: String,
    variants_data: Vec<VariantData>,
) -> (res: String)
    ensures
        res@ == spec_emit_deserialize_enum(decl_name@, enum_repr@, view_variant_plans(
            variants_data@,
        )),
{
    let mut out = String::new();
    out.append("impl serdine::Deserialize for ");
    out.append(decl_name.as_str());
    out.append(
        " {\n    fn deserialize(__serdine_r: &mut serdine::ByteSource) -> Result<Self, serdine::CodecError> {\n        let __serdine_value = ",
    );
    out.append(enum_repr.as_str());
    out.append("::deserialize(__serdine_r)?;\n        let result = match __serdine_value {\n");
    let ghost header = out@;
    let ghost vv = view_variant_plans(variants_data@);
    proof {
        assert(vv.take(0) =~= Seq::<VariantPlanView>::empty());
        assert(out@ =~= header + spec_deserialize_variant_arms(vv.take(0)));
    }
    let mut i: usize = 0;
    while i < variants_data.len()
        invariant
            i <= variants_data.len(),
            vv == view_variant_plans(variants_data@),
            out@ == header + spec_deserialize_variant_arms(vv.take(i as int)),
        decreases variants_data.len() - i,
    {
        let vd = &variants_data[i];
        out.append("            ");
        out.append(vd.discriminant.as_str());
        out.append(" => Self::");
        out.append(vd.variant.as_str());
        out.append(",\n");
        proof {
            assert(vv.take(i + 1).drop_last() =~= vv.take(i as int));
            assert(vv.take(i + 1).last() == vv[i as int]);
            assert(out@ =~= header + spec_deserialize_variant_arms(vv.take(i + 1)));
        }
        i = i + 1;
    }
    out.append(
        "            __serdine_other => return Err(serdine::CodecError::UnknownDiscriminant(__serdine_other as u128)),\n        };\n        Ok(result)\n    }\n}\n",
    );
    proof {
        assert(vv.take(variants_data@.len() as int) =~= vv);
        assert(out@ =~= spec_emit_deserialize_enum(decl_name@, enum_repr@, vv));
    }
    out
}

/// The decode-side generator: inspect a type declaration and emit the
/// source text of its decode implementation, or the first build-time
/// diagnostic for malformed or unsupported input.
pub fn impl_deserialize(decl: &TypeDecl) -> (res: Result<String, Diag>)
    ensures
        match res {
            Ok(s) => spec_impl_deserialize(decl@) == Ok::<Seq<char>, DiagView>(s@),
            Err(d) => spec_impl_deserialize(decl@) == Err::<Seq<char>, DiagView>(d@),
        },
{
    match &decl.data {
        DataDecl::NamedStruct(fields) => match collect_named_fields_data(
            fields,
            Target::ForDeserialization,
        ) {
            Ok(named_fields_data) => Ok(impl_trait_with_named_fields(&decl.ident, named_fields_data)),
            Err(d) => Err(d),
        },
        DataDecl::UnnamedStruct => Err(
            Diag { message: String::from_str("Unnamed fields not supported"), span: decl.span },
        ),
        DataDecl::UnitStruct => Err(
            Diag { message: String::from_str("Unit fields not supported"), span: decl.span },
        ),
        DataDecl::EnumData(variants) => match find_type_numeric_repr(decl) {
            Err(d) => Err(d),
            Ok(enum_repr) => match collect_variants_data(variants) {
                Err(d) => Err(d),
                Ok(variants_data) => Ok(
                    impl_trait_with_enum_variants(&decl.ident, enum_repr, variants_data),
                ),
            },
        },
        DataDecl::UnionData => Err(
            Diag { message: String::from_str("Unions not supported"), span: decl.span },
        ),
    }
}

} // verus!
