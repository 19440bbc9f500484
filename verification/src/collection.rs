use crate::ast::{view_attrs, view_fields, view_variants, AttrView, DiscriminantView, FieldDecl,
    FieldView, MetaDecl, MetaView, TypeDecl, TypeDeclView, VariantDecl, VariantView};
use crate::diag::{Diag, DiagView};
use crate::fields_data::{view_plans, view_variant_plans, FieldPlanView, NamedFieldData,
    VariantData, VariantPlanView};
use crate::target::{spec_attribute_name, spec_set_serialization_fn, Target};
use vstd::prelude::*;
use vstd::string::StrSliceExecFns;
use vstd::string::StringExecFns;

verus! {

// ////////////////////////////////////////////////////////////////////
// STRUCT WITH NAMED FIELDS
// ////////////////////////////////////////////////////////////////////

/// The diagnostic raised when an override attribute carries anything
/// but a string literal.
pub open spec fn spec_lit_diag_message(t: Target) -> Seq<char> {
    "The `"@ + spec_attribute_name(t) + "` attribute requires a string literal"@
}

/// One field's attributes, scanned in order.  An attribute that does
/// not parse aborts the collection with the parser's message; an
/// attribute `<name> = <lit>` whose path is the direction's name must
/// carry a string literal, which names the override function; every
/// other attribute is ignored.
pub open spec fn spec_collect_field_attrs(
    attrs: Seq<AttrView>,
    t: Target,
    acc: FieldPlanView,
) -> Result<FieldPlanView, DiagView>
    decreases attrs.len(),
{
    if attrs.len() == 0 {
        Ok(acc)
    } else {
        let a = attrs[0];
        match a.meta {
            MetaView::ParseFailed(msg) => Err(DiagView { message: msg, span: a.span }),
            MetaView::NameValue(lit) => if a.path == spec_attribute_name(t) {
                match lit {
                    crate::ast::LitView::Str(f) => spec_collect_field_attrs(
                        attrs.skip(1),
                        t,
                        spec_set_serialization_fn(t, acc, f),
                    ),
                    _ => Err(DiagView { message: spec_lit_diag_message(t), span: a.span }),
                }
            } else {
                spec_collect_field_attrs(attrs.skip(1), t, acc)
            },
            MetaView::OtherMeta => spec_collect_field_attrs(attrs.skip(1), t, acc),
        }
    }
}

/// The fields of a named-fields struct, scanned in declaration order;
/// the first failing field aborts the collection.
pub open spec fn spec_collect_named_fields(
    fields: Seq<FieldView>,
    t: Target,
    acc: Seq<FieldPlanView>,
) -> Result<Seq<FieldPlanView>, DiagView>
    decreases fields.len(),
{
    if fields.len() == 0 {
        Ok(acc)
    } else {
        let init = FieldPlanView {
            field: fields[0].ident,
            deserialization_fn: None,
            serialization_fn: None,
        };
        match spec_collect_field_attrs(fields[0].attrs, t, init) {
            Err(d) => Err(d),
            Ok(plan) => spec_collect_named_fields(fields.skip(1), t, acc.push(plan)),
        }
    }
}

/// Scan one field's attributes for this direction's override.
fn collect_field_attrs(field: &FieldDecl, target: &Target) -> (res: Result<NamedFieldData, Diag>)
    ensures
        match res {
            Ok(d) => spec_collect_field_attrs(
                field@.attrs,
                *target,
                FieldPlanView {
                    field: field@.ident,
                    deserialization_fn: None,
                    serialization_fn: None,
                },
            ) == Ok::<FieldPlanView, DiagView>(d@),
            Err(d) => spec_collect_field_attrs(
                field@.attrs,
                *target,
                FieldPlanView {
                    field: field@.ident,
                    deserialization_fn: None,
                    serialization_fn: None,
                },
            ) == Err::<FieldPlanView, DiagView>(d@),
        },
{
    let mut field_data = NamedFieldData::new(field.ident.clone());
    let attr_name = String::from_str(target.attribute_name());
    let ghost av = field@.attrs;
    proof {
        assert(av.skip(0) =~= av);
    }
    let mut j: usize = 0;
    while j < field.attrs.len()
        invariant
            j <= field.attrs.len(),
            av == view_attrs(field.attrs@),
            attr_name@ == spec_attribute_name(*target),
            spec_collect_field_attrs(
                av,
                *target,
                FieldPlanView {
                    field: field@.ident,
                    deserialization_fn: None,
                    serialization_fn: None,
                },
            ) == spec_collect_field_attrs(av.skip(j as int), *target, field_data@),
        decreases field.attrs.len() - j,
    {
        proof {
            assert(av.skip(j as int)[0] == av[j as int]);
            assert(av.skip(j as int).skip(1) =~= av.skip(j + 1));
        }
        let attr = &field.attrs[j];
        match &attr.meta {
            MetaDecl::ParseFailed(msg) => {
                return Err(Diag { message: msg.clone(), span: attr.span });
            },
            MetaDecl::NameValue(lit) => {
                if attr.path == attr_name {
                    match lit {
                        crate::ast::LitDecl::Str(f) => {
                            target.set_serialization_fn(&mut field_data, f.clone());
                        },
                        _ => {
                            let mut message = String::new();
                            message.append("The `");
                            message.append(target.attribute_name());
                            message.append("` attribute requires a string literal");
                            proof {
                                assert(message@ =~= spec_lit_diag_message(*target));
                            }
                            return Err(Diag { message, span: attr.span });
                        },
                    }
                }
            },
            MetaDecl::OtherMeta => {},
        }
        j = j + 1;
    }
    proof {
        assert(av.skip(field.attrs@.len() as int) =~= Seq::<AttrView>::empty());
    }
    Ok(field_data)
}

/// Walk the named fields of a struct declaration, normalizing each
/// field's override attributes for the given direction.
pub fn collect_named_fields_data(fields: &Vec<FieldDecl>, target: Target) -> (res: Result<
    Vec<NamedFieldData>,
    Diag,
>)
    ensures
        match res {
            Ok(v) => spec_collect_named_fields(view_fields(fields@), target, Seq::empty()) == Ok::<
                Seq<FieldPlanView>,
                DiagView,
            >(view_plans(v@)),
            Err(d) => spec_collect_named_fields(view_fields(fields@), target, Seq::empty())
                == Err::<Seq<FieldPlanView>, DiagView>(d@),
        },
{
    let mut fields_data: Vec<NamedFieldData> = Vec::new();
    let ghost fv = view_fields(fields@);
    proof {
        assert(fv.skip(0) =~= fv);
        assert(view_plans(fields_data@) =~= Seq::<FieldPlanView>::empty());
    }
    let mut i: usize = 0;
    while i < fields.len()
        invariant
            i <= fields.len(),
            fv == view_fields(fields@),
            spec_collect_named_fields(fv, target, Seq::empty()) == spec_collect_named_fields(
                fv.skip(i as int),
                target,
                view_plans(fields_data@),
            ),
        decreases fields.len() - i,
    {
        proof {
            assert(fv.skip(i as int)[0] == fv[i as int]);
            assert(fv.skip(i as int).skip(1) =~= fv.skip(i + 1));
        }
        let field = &fields[i];
        match collect_field_attrs(field, &target) {
            Ok(field_data) => {
                let ghost before = view_plans(fields_data@);
                fields_data.push(field_data);
                proof {
                    assert(view_plans(fields_data@) =~= before.push(fields_data@.last()@));
                }
            },
            Err(d) => {
                return Err(d);
            },
        }
        i = i + 1;
    }
    proof {
        assert(fv.skip(fields@.len() as int) =~= Seq::<FieldView>::empty());
    }
    Ok(fields_data)
}

// ////////////////////////////////////////////////////////////////////
// ENUMS
// ////////////////////////////////////////////////////////////////////

/// The decimal value of a digit string, most significant first.
pub open spec fn spec_dec_value(s: Seq<char>) -> int
    decreases s.len(),
{
    if s.len() == 0 {
        0
    } else {
        spec_dec_value(s.drop_last()) * 10 + (s.last() as u32 - '0' as u32)
    }
}

pub open spec fn spec_all_digits(s: Seq<char>) -> bool {
    forall|i: int| 0 <= i < s.len() ==> '0' <= #[trigger] s[i] <= '9'
}

/// What `str::parse::<u8>` accepts: an optional leading `+`, then at
/// least one decimal digit, with a value of at most 255.
pub open spec fn spec_parses_as_u8(s: Seq<char>) -> bool {
    let digits = if s.len() >= 1 && s[0] == '+' {
        s.skip(1)
    } else {
        s
    };
    digits.len() >= 1 && spec_all_digits(digits) && spec_dec_value(digits) <= 255
}

/// A storage-representation identifier: first character `i` or `u`,
/// and the remainder parses as an unsigned 8-bit width.
pub open spec fn spec_is_numeric_repr_ident(id: Seq<char>) -> bool {
    id.len() >= 1 && (id[0] == 'i' || id[0] == 'u') && spec_parses_as_u8(id.skip(1))
}

proof fn lemma_dec_value_nonneg(s: Seq<char>)
    requires
        spec_all_digits(s),
    ensures
        spec_dec_value(s) >= 0,
    decreases s.len(),
{
    if s.len() > 0 {
        assert(forall|i: int| 0 <= i < s.drop_last().len() ==> s.drop_last()[i] == s[i]);
        lemma_dec_value_nonneg(s.drop_last());
    }
}

/// Extending a digit string never lowers its value.
proof fn lemma_dec_value_monotone(s: Seq<char>, m: int)
    requires
        spec_all_digits(s),
        0 <= m <= s.len(),
    ensures
        spec_dec_value(s.take(m)) <= spec_dec_value(s),
    decreases s.len() - m,
{
    assert(forall|k: int, i: int|
        0 <= k <= s.len() && 0 <= i < k ==> s.take(k)[i] == s[i]);
    if m == s.len() {
        assert(s.take(m) =~= s);
    } else {
        lemma_dec_value_monotone(s, m + 1);
        let t = s.take(m + 1);
        assert(t.drop_last() =~= s.take(m));
        lemma_dec_value_nonneg(s.take(m));
    }
}

/// Decide [`spec_is_numeric_repr_ident`] for a string.
fn is_numeric_repr_ident(id: &str) -> (b: bool)
    ensures
        b == spec_is_numeric_repr_ident(id@),
{
    let n = id.unicode_len();
    if n == 0 {
        return false;
    }
    let c0 = id.get_char(0);
    if !(c0 == 'i' || c0 == 'u') {
        return false;
    }
    let mut j: usize = 1;
    if n >= 2 && id.get_char(1) == '+' {
        j = 2;
    }
    let ghost digits = id@.skip(j as int);
    proof {
        let s = id@.skip(1);
        if s.len() >= 1 && s[0] == '+' {
            assert(digits =~= s.skip(1));
        } else {
            assert(digits =~= s);
        }
    }
    if j >= n {
        return false;
    }
    let mut value: u32 = 0;
    let mut k: usize = j;
    while k < n
        invariant
            j <= k <= n,
            n == id@.len(),
            digits == id@.skip(j as int),
            spec_all_digits(id@.subrange(j as int, k as int)),
            value == spec_dec_value(id@.subrange(j as int, k as int)),
            value <= 255,
            spec_parses_as_u8(id@.skip(1)) == (spec_all_digits(digits) && spec_dec_value(digits)
                <= 255),
        decreases n - k,
    {
        let c = id.get_char(k);
        if !('0' <= c && c <= '9') {
            proof {
                assert(digits[k - j] == id@[k as int]);
            }
            return false;
        }
        let d = (c as u32) - ('0' as u32);
        let v2 = value * 10 + d;
        proof {
            assert(id@.subrange(j as int, k + 1).drop_last() =~= id@.subrange(
                j as int,
                k as int,
            ));
            assert(id@.subrange(j as int, k + 1).last() == id@[k as int]);
        }
        if v2 > 255 {
            proof {
                if spec_all_digits(digits) {
                    assert(digits.take(k + 1 - j) =~= id@.subrange(j as int, k + 1));
                    lemma_dec_value_monotone(digits, k + 1 - j);
                }
            }
            return false;
        }
        value = v2;
        k = k + 1;
        proof {
            assert(forall|i: int|
                0 <= i < k - j ==> id@.subrange(j as int, k as int)[i] == id@[j + i]);
        }
    }
    proof {
        assert(id@.subrange(j as int, n as int) =~= digits);
    }
    true
}

/// Find the storage-representation declaration among the type-level
/// attributes: the first attribute named `repr` whose argument is a
/// numeric-width identifier.  Attributes that do not qualify are
/// passed over; when none qualifies the enumeration has no usable
/// storage representation.
pub open spec fn spec_find_type_numeric_repr(
    attrs: Seq<AttrView>,
    decl_span: nat,
) -> Result<Seq<char>, DiagView>
    decreases attrs.len(),
{
    if attrs.len() == 0 {
        Err(DiagView { message: "Enum repr() not found"@, span: decl_span })
    } else {
        let a = attrs[0];
        match a.arg_ident {
            Some(id) => if a.path == "repr"@ && spec_is_numeric_repr_ident(id) {
                Ok(id)
            } else {
                spec_find_type_numeric_repr(attrs.skip(1), decl_span)
            },
            None => spec_find_type_numeric_repr(attrs.skip(1), decl_span),
        }
    }
}

/// Discover an enumeration's storage representation from its
/// type-level attributes.
pub fn find_type_numeric_repr(decl: &TypeDecl) -> (res: Result<String, Diag>)
    ensures
        match res {
            Ok(id) => spec_find_type_numeric_repr(decl@.attrs, decl@.span) == Ok::<
                Seq<char>,
                DiagView,
            >(id@),
            Err(d) => spec_find_type_numeric_repr(decl@.attrs, decl@.span) == Err::<
                Seq<char>,
                DiagView,
            >(d@),
        },
{
    let repr_name = String::from_str("repr");
    let ghost av = decl@.attrs;
    proof {
        assert(av.skip(0) =~= av);
    }
    let mut i: usize = 0;
    while i < decl.attrs.len()
        invariant
            i <= decl.attrs.len(),
            av == view_attrs(decl.attrs@),
            repr_name@ == "repr"@,
            spec_find_type_numeric_repr(av, decl@.span) == spec_find_type_numeric_repr(
                av.skip(i as int),
                decl@.span,
            ),
        decreases decl.attrs.len() - i,
    {
        proof {
            assert(av.skip(i as int)[0] == av[i as int]);
            assert(av.skip(i as int).skip(1) =~= av.skip(i + 1));
        }
        let attr = &decl.attrs[i];
        if attr.path == repr_name {
            match &attr.arg_ident {
                Some(id) => {
                    if is_numeric_repr_ident(id.as_str()) {
                        return Ok(id.clone());
                    }
                },
                None => {},
            }
        }
        i = i + 1;
    }
    proof {
        assert(av.skip(decl.attrs@.len() as int) =~= Seq::<AttrView>::empty());
    }
    let message = String::from_str("Enum repr() not found");
    Err(Diag { message, span: decl.span })
}

/// The diagnostic raised when a variant lacks an explicit integer
/// literal discriminant.
pub open spec fn spec_variant_diag_message(name: Seq<char>) -> Seq<char> {
    "'"@ + name + "' variant discriminant not found"@
}

/// The variants of an enumeration, scanned in declaration order; each
/// must carry an explicit integer literal discriminant.
pub open spec fn spec_collect_variants(
    variants: Seq<VariantView>,
    acc: Seq<VariantPlanView>,
) -> Result<Seq<VariantPlanView>, DiagView>
    decreases variants.len(),
{
    if variants.len() == 0 {
        Ok(acc)
    } else {
        let v = variants[0];
        match v.discriminant {
            Some(DiscriminantView::IntLit(text)) => spec_collect_variants(
                variants.skip(1),
                acc.push(VariantPlanView { variant: v.ident, discriminant: text }),
            ),
            _ => Err(DiagView { message: spec_variant_diag_message(v.ident), span: v.span }),
        }
    }
}

/// Extract each variant's identifier and discriminant literal.
pub fn collect_variants_data(variants: &Vec<VariantDecl>) -> (res: Result<Vec<VariantData>, Diag>)
    ensures
        match res {
            Ok(v) => spec_collect_variants(view_variants(variants@), Seq::empty()) == Ok::<
                Seq<VariantPlanView>,
                DiagView,
            >(view_variant_plans(v@)),
            Err(d) => spec_collect_variants(view_variants(variants@), Seq::empty()) == Err::<
                Seq<VariantPlanView>,
                DiagView,
            >(d@),
        },
{
    let mut variants_data: Vec<VariantData> = Vec::new();
    let ghost vv = view_variants(variants@);
    proof {
        assert(vv.skip(0) =~= vv);
        assert(view_variant_plans(variants_data@) =~= Seq::<VariantPlanView>::empty());
    }
    let mut i: usize = 0;
    while i < variants.len()
        invariant
            i <= variants.len(),
            vv == view_variants(variants@),
            spec_collect_variants(vv, Seq::empty()) == spec_collect_variants(
                vv.skip(i as int),
                view_variant_plans(variants_data@),
            ),
        decreases variants.len() - i,
    {
        proof {
            assert(vv.skip(i as int)[0] == vv[i as int]);
            assert(vv.skip(i as int).skip(1) =~= vv.skip(i + 1));
        }
        let variant = &variants[i];
        match &variant.discriminant {
            Some(crate::ast::DiscriminantDecl::IntLit(text)) => {
                let ghost before = view_variant_plans(variants_data@);
                variants_data.push(VariantData::new(variant.ident.clone(), text.clone()));
                proof {
                    assert(view_variant_plans(variants_data@) =~= before.push(
                        variants_data@.last()@,
                    ));
                }
            },
            _ => {
                let mut message = String::new();
                message.append("'");
                message.append(variant.ident.as_str());
                message.append("' variant discriminant not found");
                proof {
                    assert(message@ =~= spec_variant_diag_message(variant@.ident));
                }
                return Err(Diag { message, span: variant.span });
            },
        }
        i = i + 1;
    }
    proof {
        assert(vv.skip(variants@.len() as int) =~= Seq::<VariantView>::empty());
    }
    Ok(variants_data)
}

} // verus!
