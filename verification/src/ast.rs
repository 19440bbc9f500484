use vstd::prelude::*;

verus! {

// The generator's input: a syntactic description of one type
// declaration, as plain values.  The host front end parses the real
// source text and fills these records; every `span` is an index the
// host can map back to the source location it came from.

/// A literal appearing in an attribute or a discriminant position.
pub enum LitDecl {
    /// A string literal, with its contents.
    Str(String),
    /// An integer literal, with its source text.
    Int(String),
    /// Any other kind of literal.
    OtherLit,
}

pub enum LitView {
    Str(Seq<char>),
    Int(Seq<char>),
    OtherLit,
}

impl View for LitDecl {
    type V = LitView;

    open spec fn view(&self) -> LitView {
        match self {
            LitDecl::Str(s) => LitView::Str(s@),
            LitDecl::Int(s) => LitView::Int(s@),
            LitDecl::OtherLit => LitView::OtherLit,
        }
    }
}

/// An attribute parsed as a meta item.
pub enum MetaDecl {
    /// The form `name = <literal>`, where `name` is the attribute's
    /// path.
    NameValue(LitDecl),
    /// A bare path or a list form.
    OtherMeta,
    /// The attribute does not parse as a meta item; the parser's
    /// message.
    ParseFailed(String),
}

pub enum MetaView {
    NameValue(LitView),
    OtherMeta,
    ParseFailed(Seq<char>),
}

impl View for MetaDecl {
    type V = MetaView;

    open spec fn view(&self) -> MetaView {
        match self {
            MetaDecl::NameValue(l) => MetaView::NameValue(l@),
            MetaDecl::OtherMeta => MetaView::OtherMeta,
            MetaDecl::ParseFailed(s) => MetaView::ParseFailed(s@),
        }
    }
}

/// One attribute of a field or of the type declaration.
pub struct AttrDecl {
    /// The attribute's path, rendered as text (`repr`, `serialize`,
    /// ...).
    pub path: String,
    /// The attribute parsed as a meta item.
    pub meta: MetaDecl,
    /// The attribute's argument parsed as a lone identifier, when it
    /// is one (as in `repr(u16)`).
    pub arg_ident: Option<String>,
    /// Host-side anchor of the attribute.
    pub span: usize,
}

pub struct AttrView {
    pub path: Seq<char>,
    pub meta: MetaView,
    pub arg_ident: Option<Seq<char>>,
    pub span: nat,
}

impl View for AttrDecl {
    type V = AttrView;

    open spec fn view(&self) -> AttrView {
        AttrView {
            path: self.path@,
            meta: self.meta@,
            arg_ident: match self.arg_ident {
                Some(s) => Some(s@),
                None => None,
            },
            span: self.span as nat,
        }
    }
}

/// The views of a sequence of attributes.
pub open spec fn view_attrs(s: Seq<AttrDecl>) -> Seq<AttrView> {
    s.map_values(|a: AttrDecl| a@)
}

/// A named field of a struct declaration.
pub struct FieldDecl {
    pub ident: String,
    pub attrs: Vec<AttrDecl>,
}

pub struct FieldView {
    pub ident: Seq<char>,
    pub attrs: Seq<AttrView>,
}

impl View for FieldDecl {
    type V = FieldView;

    open spec fn view(&self) -> FieldView {
        FieldView { ident: self.ident@, attrs: view_attrs(self.attrs@) }
    }
}

/// The views of a sequence of fields.
pub open spec fn view_fields(s: Seq<FieldDecl>) -> Seq<FieldView> {
    s.map_values(|f: FieldDecl| f@)
}

/// The explicit discriminant expression of an enumeration variant.
pub enum DiscriminantDecl {
    /// An integer literal, with its source text.
    IntLit(String),
    /// Any other expression.
    OtherExpr,
}

pub enum DiscriminantView {
    IntLit(Seq<char>),
    OtherExpr,
}

impl View for DiscriminantDecl {
    type V = DiscriminantView;

    open spec fn view(&self) -> DiscriminantView {
        match self {
            DiscriminantDecl::IntLit(s) => DiscriminantView::IntLit(s@),
            DiscriminantDecl::OtherExpr => DiscriminantView::OtherExpr,
        }
    }
}

/// A unit variant of an enumeration declaration.
pub struct VariantDecl {
    pub ident: String,
    /// The explicit discriminant, when the variant declares one.
    pub discriminant: Option<DiscriminantDecl>,
    /// Host-side anchor of the variant.
    pub span: usize,
}

pub struct VariantView {
    pub ident: Seq<char>,
    pub discriminant: Option<DiscriminantView>,
    pub span: nat,
}

impl View for VariantDecl {
    type V = VariantView;

    open spec fn view(&self) -> VariantView {
        VariantView {
            ident: self.ident@,
            discriminant: match &self.discriminant {
                Some(d) => Some(d@),
                None => None,
            },
            span: self.span as nat,
        }
    }
}

/// The views of a sequence of variants.
pub open spec fn view_variants(s: Seq<VariantDecl>) -> Seq<VariantView> {
    s.map_values(|v: VariantDecl| v@)
}

/// The shape of the declaration.
pub enum DataDecl {
    /// A struct with named fields.
    NamedStruct(Vec<FieldDecl>),
    /// A struct with positional fields.
    UnnamedStruct,
    /// A unit struct.
    UnitStruct,
    /// An enumeration.
    EnumData(Vec<VariantDecl>),
    /// A union.
    UnionData,
}

pub enum DataView {
    NamedStruct(Seq<FieldView>),
    UnnamedStruct,
    UnitStruct,
    EnumData(Seq<VariantView>),
    UnionData,
}

impl View for DataDecl {
    type V = DataView;

    open spec fn view(&self) -> DataView {
        match self {
            DataDecl::NamedStruct(fields) => DataView::NamedStruct(view_fields(fields@)),
            DataDecl::UnnamedStruct => DataView::UnnamedStruct,
            DataDecl::UnitStruct => DataView::UnitStruct,
            DataDecl::EnumData(variants) => DataView::EnumData(view_variants(variants@)),
            DataDecl::UnionData => DataView::UnionData,
        }
    }
}

/// A full type declaration: name, type-level attributes, and shape.
pub struct TypeDecl {
    pub ident: String,
    pub attrs: Vec<AttrDecl>,
    pub data: DataDecl,
    /// Host-side anchor of the declaration itself.
    pub span: usize,
}

pub struct TypeDeclView {
    pub ident: Seq<char>,
    pub attrs: Seq<AttrView>,
    pub data: DataView,
    pub span: nat,
}

impl View for TypeDecl {
    type V = TypeDeclView;

    open spec fn view(&self) -> TypeDeclView {
        TypeDeclView {
            ident: self.ident@,
            attrs: view_attrs(self.attrs@),
            data: self.data@,
            span: self.span as nat,
        }
    }
}

} // verus!
