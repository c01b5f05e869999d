//! Type shape analysis: is a declared type the optional wrapper, and around
//! which inner type?

use quote::ToTokens;
use vstd::prelude::*;

verus! {

/// The first segment of a path type, as far as the analysis reads it.
#[derive(Debug, PartialEq, Eq)]
pub struct LeadingSegment {
    /// The segment's identifier, `Option` in `Option<String>`.
    pub ident: String,
    /// The segment's generic arguments when they stand in angle brackets, in
    /// order. An entry is the argument's source text when the argument is a
    /// type and `None` when it is anything else (a lifetime, a constant, a
    /// binding).
    pub arguments: Option<Vec<Option<String>>>,
}

/// Mathematical value of a [`LeadingSegment`].
pub struct LeadingSegmentView {
    pub ident: Seq<char>,
    pub arguments: Option<Seq<Option<Seq<char>>>>,
}

impl DeepView for LeadingSegment {
    type V = LeadingSegmentView;

    open spec fn deep_view(&self) -> LeadingSegmentView {
        LeadingSegmentView { ident: self.ident@, arguments: self.arguments.deep_view() }
    }
}

impl View for LeadingSegment {
    type V = LeadingSegmentView;

    open spec fn view(&self) -> LeadingSegmentView {
        self.deep_view()
    }
}

/// How a declared type looks to the generator.
#[derive(Debug, PartialEq, Eq)]
pub enum Shape {
    /// `Option<T>`: the payload is the source text of `T`.
    OptionalWrapper(String),
    /// Any other type.
    Opaque,
}

/// Mathematical value of a [`Shape`].
pub enum ShapeView {
    OptionalWrapper(Seq<char>),
    Opaque,
}

impl View for Shape {
    type V = ShapeView;

    open spec fn view(&self) -> ShapeView {
        match self {
            Shape::OptionalWrapper(inner) => ShapeView::OptionalWrapper(inner@),
            Shape::Opaque => ShapeView::Opaque,
        }
    }
}

/// What `syn` reads as the first path segment of the type written as
/// `declared_type`: `None` when the text is not a type or the type is not a
/// path.
pub uninterp spec fn leading_segment(declared_type: Seq<char>) -> Option<LeadingSegmentView>;

/// The shape of a type whose first path segment is `segment`: the optional
/// wrapper exactly when the segment is named `Option` and carries a single
/// generic argument that is a type.
pub open spec fn shape_of_segment(segment: Option<LeadingSegmentView>) -> ShapeView {
    match segment {
        Some(s) => match s.arguments {
            Some(arguments) => if s.ident == "Option"@ && arguments.len() == 1
                && arguments[0] is Some {
                ShapeView::OptionalWrapper(arguments[0]->0)
            } else {
                ShapeView::Opaque
            },
            None => ShapeView::Opaque,
        },
        None => ShapeView::Opaque,
    }
}

/// The shape of the type written as `declared_type`.
pub open spec fn shape_of(declared_type: Seq<char>) -> ShapeView {
    shape_of_segment(leading_segment(declared_type))
}

/// Parses `declared_type` with `syn::parse_str::<syn::Type>` and hands out the
/// first segment of the path when the type is a path. Trusted: the result is
/// only named, as [`leading_segment`] of the text; nothing is claimed of what
/// `syn` accepts.
#[verifier::external_body]
fn parse_leading_segment(declared_type: &str) -> (segment: Option<LeadingSegment>)
    ensures
        segment.deep_view() == leading_segment(declared_type@),
{
    let syn::Type::Path(type_path) = syn::parse_str::<syn::Type>(declared_type).ok()? else {
        return None;
    };
    let first = type_path.path.segments.first()?;
    let arguments = match &first.arguments {
        syn::PathArguments::AngleBracketed(list) => Some(
            list.args.iter().map(|argument| match argument {
                syn::GenericArgument::Type(inner) => Some(inner.to_token_stream().to_string()),
                _ => None,
            }).collect(),
        ),
        _ => None,
    };
    Some(LeadingSegment { ident: first.ident.to_string(), arguments })
}

/// Classifies a type from its first path segment.
pub fn classify(segment: Option<LeadingSegment>) -> (shape: Shape)
    ensures
        shape@ == shape_of_segment(segment.deep_view()),
{
    match segment {
        Some(LeadingSegment { ident, arguments: Some(arguments) }) => {
            if arguments.len() == 1 && ident == String::from_str("Option") {
                match &arguments[0] {
                    Some(inner) => Shape::OptionalWrapper(inner.clone()),
                    None => Shape::Opaque,
                }
            } else {
                Shape::Opaque
            }
        },
        _ => Shape::Opaque,
    }
}

/// Classifies the type written as `declared_type`.
pub fn analyze(declared_type: &str) -> (shape: Shape)
    ensures
        shape@ == shape_of(declared_type@),
{
    classify(parse_leading_segment(declared_type))
}

} // verus!
