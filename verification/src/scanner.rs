//! Attribute scanning: does a field carry `#[validate(mandatory)]`?

use vstd::prelude::*;

verus! {

/// An attribute, as far as the scan reads it.
#[derive(Debug, PartialEq, Eq)]
pub struct ParsedAttribute {
    /// The attribute's path when it is a single identifier, `validate` in
    /// `#[validate(mandatory)]`.
    pub key: Option<String>,
    /// The attribute's arguments when they are a list of nested meta items,
    /// in order. An entry is the item's path when that is a single
    /// identifier, and `None` for a longer path.
    pub items: Option<Vec<Option<String>>>,
}

/// Mathematical value of a [`ParsedAttribute`].
pub struct ParsedAttributeView {
    pub key: Option<Seq<char>>,
    pub items: Option<Seq<Option<Seq<char>>>>,
}

impl DeepView for ParsedAttribute {
    type V = ParsedAttributeView;

    open spec fn deep_view(&self) -> ParsedAttributeView {
        ParsedAttributeView { key: self.key.deep_view(), items: self.items.deep_view() }
    }
}

impl View for ParsedAttribute {
    type V = ParsedAttributeView;

    open spec fn view(&self) -> ParsedAttributeView {
        self.deep_view()
    }
}

/// What `syn` reads in the attribute whose content, the text between `#[`
/// and `]`, is `meta`: `None` when `syn` rejects the text.
pub uninterp spec fn parsed_attribute(meta: Seq<char>) -> Option<ParsedAttributeView>;

/// Whether an attribute read as `parsed` has the key `key` and carries the
/// token `value`: its arguments are a list of nested items, there is at least
/// one, and each is `value`.
pub open spec fn carries(
    parsed: Option<ParsedAttributeView>,
    key: Seq<char>,
    value: Seq<char>,
) -> bool {
    match parsed {
        Some(attribute) => {
            &&& attribute.key == Some(key)
            &&& attribute.items matches Some(items)
            &&& items.len() > 0
            &&& forall|i: int| 0 <= i < items.len() ==> #[trigger] items[i] == Some(value)
        },
        None => false,
    }
}

/// Whether the attribute written as `meta` has the key `key` and carries the
/// token `value`.
pub open spec fn attribute_carries(meta: Seq<char>, key: Seq<char>, value: Seq<char>) -> bool {
    carries(parsed_attribute(meta), key, value)
}

/// Whether one of `attrs` has the key `key` and carries the token `value`.
pub open spec fn some_attribute_carries(
    attrs: Seq<Seq<char>>,
    key: Seq<char>,
    value: Seq<char>,
) -> bool {
    exists|i: int| 0 <= i < attrs.len() && attribute_carries(#[trigger] attrs[i], key, value)
}

/// Whether a field with the attributes `attrs` is marked mandatory.
pub open spec fn is_mandatory(attrs: Seq<Seq<char>>) -> bool {
    some_attribute_carries(attrs, "validate"@, "mandatory"@)
}

/// Parses `meta` with `syn::parse_str::<syn::Meta>`, takes the path's single
/// identifier with `syn::Path::get_ident`, and runs
/// `syn::Attribute::parse_nested_meta` over the arguments, collecting each
/// nested item's single identifier. Trusted: the result is only named, as
/// [`parsed_attribute`] of the text; nothing is claimed of what `syn`
/// accepts.
#[verifier::external_body]
fn parse_attribute(meta: &str) -> (parsed: Option<ParsedAttribute>)
    ensures
        parsed.deep_view() == parsed_attribute(meta@),
{
    let meta = syn::parse_str::<syn::Meta>(meta).ok()?;
    let key = meta.path().get_ident().map(|ident| ident.to_string());
    let attribute = syn::Attribute {
        pound_token: Default::default(),
        style: syn::AttrStyle::Outer,
        bracket_token: Default::default(),
        meta,
    };
    let mut items = Vec::new();
    let listed = attribute.parse_nested_meta(|nested| {
        items.push(nested.path.get_ident().map(|ident| ident.to_string()));
        Ok(())
    });
    Some(ParsedAttribute { key, items: listed.ok().map(|_| items) })
}

fn is_name(found: &Option<String>, name: &String) -> (same: bool)
    ensures
        same == (found.deep_view() == Some(name@)),
{
    match found {
        Some(text) => *text == *name,
        None => false,
    }
}

/// Whether an attribute read as `parsed` has the key `key` and carries the
/// token `value`.
pub fn carries_token(parsed: &Option<ParsedAttribute>, key: &str, value: &str) -> (found: bool)
    ensures
        found == carries(parsed.deep_view(), key@, value@),
{
    let wanted_key = String::from_str(key);
    let wanted_item = String::from_str(value);
    match parsed {
        Some(ParsedAttribute { key: found_key, items: Some(items) }) => {
            if !is_name(found_key, &wanted_key) || items.len() == 0 {
                return false;
            }
            let mut i: usize = 0;
            while i < items.len()
                invariant
                    i <= items.len(),
                    wanted_item@ == value@,
                    parsed.deep_view() matches Some(attribute) && attribute.items == Some(
                        items.deep_view(),
                    ),
                    forall|j: int|
                        0 <= j < i ==> #[trigger] items.deep_view()[j] == Some(value@),
                decreases items.len() - i,
            {
                if !is_name(&items[i], &wanted_item) {
                    assert(items.deep_view()[i as int] != Some(value@));
                    return false;
                }
                i += 1;
            }
            true
        },
        _ => false,
    }
}

/// Whether one of `attrs` has the key `key` and carries the token `value`.
/// Attributes that `syn` cannot read count as not carrying it.
pub fn verify_attribute_token(attrs: &Vec<String>, key: &str, value: &str) -> (found: bool)
    ensures
        found == some_attribute_carries(attrs.deep_view(), key@, value@),
{
    let mut i: usize = 0;
    while i < attrs.len()
        invariant
            i <= attrs.len(),
            forall|j: int|
                0 <= j < i ==> !attribute_carries(#[trigger] attrs.deep_view()[j], key@, value@),
        decreases attrs.len() - i,
    {
        let meta = attrs[i].as_str();
        assert(attrs.deep_view()[i as int] == meta@);
        if carries_token(&parse_attribute(meta), key, value) {
            return true;
        }
        i += 1;
    }
    false
}

/// Whether a field with the attributes `attrs` is marked mandatory.
pub fn is_field_mandatory(attrs: &Vec<String>) -> (mandatory: bool)
    ensures
        mandatory == is_mandatory(attrs.deep_view()),
{
    verify_attribute_token(attrs, "validate", "mandatory")
}

} // verus!
