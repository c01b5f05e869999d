//! The definition handed to the generator, as plain values.

use quote::ToTokens;
use vstd::prelude::*;

verus! {

/// One field of a struct with named fields.
#[derive(Debug, PartialEq, Eq)]
pub struct Field {
    /// The field's name.
    pub ident: String,
    /// The declared type, as source text.
    pub ty: String,
    /// The field's attributes in order, each as the source text between `#[`
    /// and `]`, such as `validate(mandatory)`.
    pub attrs: Vec<String>,
}

/// Mathematical value of a [`Field`].
pub struct FieldView {
    pub ident: Seq<char>,
    pub ty: Seq<char>,
    pub attrs: Seq<Seq<char>>,
}

impl DeepView for Field {
    type V = FieldView;

    open spec fn deep_view(&self) -> FieldView {
        FieldView { ident: self.ident@, ty: self.ty@, attrs: self.attrs.deep_view() }
    }
}

impl View for Field {
    type V = FieldView;

    open spec fn view(&self) -> FieldView {
        self.deep_view()
    }
}

/// The fields of a struct.
#[derive(Debug, PartialEq, Eq)]
pub enum Fields {
    /// `struct S { a: A, b: B }`, fields in declaration order.
    Named(Vec<Field>),
    /// `struct S(A, B);`
    Unnamed,
    /// `struct S;`
    Unit,
}

/// Mathematical value of [`Fields`].
pub enum FieldsView {
    Named(Seq<FieldView>),
    Unnamed,
    Unit,
}

impl DeepView for Fields {
    type V = FieldsView;

    open spec fn deep_view(&self) -> FieldsView {
        match self {
            Fields::Named(fields) => FieldsView::Named(fields.deep_view()),
            Fields::Unnamed => FieldsView::Unnamed,
            Fields::Unit => FieldsView::Unit,
        }
    }
}

impl View for Fields {
    type V = FieldsView;

    open spec fn view(&self) -> FieldsView {
        self.deep_view()
    }
}

/// What kind of item a derive was put on.
#[derive(Debug, PartialEq, Eq)]
pub enum Data {
    Struct(Fields),
    Enum,
    Union,
}

/// Mathematical value of [`Data`].
pub enum DataView {
    Struct(FieldsView),
    Enum,
    Union,
}

impl DeepView for Data {
    type V = DataView;

    open spec fn deep_view(&self) -> DataView {
        match self {
            Data::Struct(fields) => DataView::Struct(fields.deep_view()),
            Data::Enum => DataView::Enum,
            Data::Union => DataView::Union,
        }
    }
}

impl View for Data {
    type V = DataView;

    open spec fn view(&self) -> DataView {
        self.deep_view()
    }
}

/// The item a derive was put on: its name and its body.
#[derive(Debug, PartialEq, Eq)]
pub struct DeriveInput {
    pub ident: String,
    pub data: Data,
}

/// Mathematical value of a [`DeriveInput`].
pub struct DeriveInputView {
    pub ident: Seq<char>,
    pub data: DataView,
}

impl DeepView for DeriveInput {
    type V = DeriveInputView;

    open spec fn deep_view(&self) -> DeriveInputView {
        DeriveInputView { ident: self.ident@, data: self.data.deep_view() }
    }
}

impl View for DeriveInput {
    type V = DeriveInputView;

    open spec fn view(&self) -> DeriveInputView {
        self.deep_view()
    }
}

/// The kinds of item that a derive can be put on.
#[derive(Clone, Copy, Debug, PartialEq, Eq, Structural)]
pub enum ItemKind {
    /// `struct S { a: A }`
    NamedStruct,
    /// `struct S(A);`
    TupleStruct,
    /// `struct S;`
    UnitStruct,
    Enum,
    Union,
}

/// The name and the kind of an item.
#[derive(Debug, PartialEq, Eq)]
pub struct ItemHeader {
    pub ident: String,
    pub kind: ItemKind,
}

/// Mathematical value of an [`ItemHeader`].
pub struct ItemHeaderView {
    pub ident: Seq<char>,
    pub kind: ItemKind,
}

impl DeepView for ItemHeader {
    type V = ItemHeaderView;

    open spec fn deep_view(&self) -> ItemHeaderView {
        ItemHeaderView { ident: self.ident@, kind: self.kind }
    }
}

impl View for ItemHeader {
    type V = ItemHeaderView;

    open spec fn view(&self) -> ItemHeaderView {
        self.deep_view()
    }
}

/// What `syn` reads `source` as when it is parsed as the input of a derive,
/// with every type and every attribute printed back as text: `None` when
/// `syn` rejects the text.
pub uninterp spec fn parsed_derive_input(source: Seq<char>) -> Option<DeriveInputView>;

/// The kind of an item with the body `data`.
pub open spec fn kind_of(data: DataView) -> ItemKind {
    match data {
        DataView::Struct(FieldsView::Named(_)) => ItemKind::NamedStruct,
        DataView::Struct(FieldsView::Unnamed) => ItemKind::TupleStruct,
        DataView::Struct(FieldsView::Unit) => ItemKind::UnitStruct,
        DataView::Enum => ItemKind::Enum,
        DataView::Union => ItemKind::Union,
    }
}

/// The name and the kind of a parsed item.
pub open spec fn header_of(parsed: Option<DeriveInputView>) -> Option<ItemHeaderView> {
    match parsed {
        Some(ast) => Some(ItemHeaderView { ident: ast.ident, kind: kind_of(ast.data) }),
        None => None,
    }
}

/// The fields of a parsed item when it is a struct with named fields, and no
/// fields otherwise.
pub open spec fn named_fields_of(parsed: Option<DeriveInputView>) -> Seq<FieldView> {
    match parsed {
        Some(DeriveInputView { data: DataView::Struct(FieldsView::Named(fields)), .. }) => fields,
        _ => Seq::empty(),
    }
}

/// Parses `source` with `syn::parse_str::<syn::DeriveInput>` and hands out
/// the item's name and kind. Trusted: the result is only named, as the header
/// of [`parsed_derive_input`] of the text.
#[verifier::external_body]
fn parse_header(source: &str) -> (header: Option<ItemHeader>)
    ensures
        header.deep_view() == header_of(parsed_derive_input(source@)),
{
    let ast = syn::parse_str::<syn::DeriveInput>(source).ok()?;
    let kind = match &ast.data {
        syn::Data::Struct(data) => match &data.fields {
            syn::Fields::Named(_) => ItemKind::NamedStruct,
            syn::Fields::Unnamed(_) => ItemKind::TupleStruct,
            syn::Fields::Unit => ItemKind::UnitStruct,
        },
        syn::Data::Enum(_) => ItemKind::Enum,
        syn::Data::Union(_) => ItemKind::Union,
    };
    Some(ItemHeader { ident: ast.ident.to_string(), kind })
}

/// Parses `source` with `syn::parse_str::<syn::DeriveInput>` and, for a
/// struct with named fields, hands out each field's name, its type and its
/// attributes, the last two printed back as text. Trusted: the result is only
/// named, as the named fields of [`parsed_derive_input`] of the text.
#[verifier::external_body]
fn parse_named_fields(source: &str) -> (fields: Vec<Field>)
    ensures
        fields.deep_view() == named_fields_of(parsed_derive_input(source@)),
{
    let parsed = syn::parse_str::<syn::DeriveInput>(source);
    let Ok(syn::Data::Struct(data)) = parsed.map(|ast| ast.data) else {
        return Vec::new();
    };
    let syn::Fields::Named(named) = data.fields else {
        return Vec::new();
    };
    named.named.iter().map(|field| Field {
        ident: field.ident.as_ref().map(|ident| ident.to_string()).unwrap_or_default(),
        ty: field.ty.to_token_stream().to_string(),
        attrs: field.attrs.iter().map(|a| a.meta.to_token_stream().to_string()).collect(),
    }).collect()
}

/// Reads the definition written as `source`: the item that a derive was put
/// on. `None` when the text is no such item.
pub fn parse_definition(source: &str) -> (ast: Option<DeriveInput>)
    ensures
        ast.deep_view() == parsed_derive_input(source@),
{
    match parse_header(source) {
        Some(header) => {
            let data = match header.kind {
                ItemKind::NamedStruct => Data::Struct(Fields::Named(parse_named_fields(source))),
                ItemKind::TupleStruct => Data::Struct(Fields::Unnamed),
                ItemKind::UnitStruct => Data::Struct(Fields::Unit),
                ItemKind::Enum => Data::Enum,
                ItemKind::Union => Data::Union,
            };
            Some(DeriveInput { ident: header.ident, data })
        },
        None => None,
    }
}

} // verus!
