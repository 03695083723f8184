//! Property records and their categories.

use vstd::prelude::*;

verus! {

/// The category of a registered property: one of three fixed kinds, or any
/// other kind under a free-form label.
#[derive(Debug, PartialEq, Eq)]
pub enum PropertyType {
    RealEstate,
    Car,
    Art,
    Other(String),
}

/// The mathematical value of a [`PropertyType`].
pub enum PropertyTypeView {
    RealEstate,
    Car,
    Art,
    Other(Seq<char>),
}

impl View for PropertyType {
    type V = PropertyTypeView;

    open spec fn view(&self) -> PropertyTypeView {
        match self {
            PropertyType::RealEstate => PropertyTypeView::RealEstate,
            PropertyType::Car => PropertyTypeView::Car,
            PropertyType::Art => PropertyTypeView::Art,
            PropertyType::Other(label) => PropertyTypeView::Other(label@),
        }
    }
}

/// How the standard library renders `text` under `{:?}`: in double quotes,
/// with the characters that need it escaped.
pub uninterp spec fn debug_text(text: Seq<char>) -> Seq<char>;

impl PropertyTypeView {
    /// The category as it is shown in a listing: the name of the kind, and
    /// for `Other` the label after it, quoted and in parentheses.
    pub open spec fn display(self) -> Seq<char> {
        match self {
            PropertyTypeView::RealEstate => "RealEstate"@,
            PropertyTypeView::Car => "Car"@,
            PropertyTypeView::Art => "Art"@,
            PropertyTypeView::Other(label) => "Other("@ + debug_text(label) + ")"@,
        }
    }
}

/// Formats `text` with `{:?}`, which calls the standard library's `Debug` for
/// `str`. Trusted: the outcome depends on the characters of `text` alone.
#[verifier::external_body]
fn debug_string(text: &String) -> (quoted: String)
    ensures
        quoted@ == debug_text(text@),
{
    format!("{:?}", text)
}

impl Clone for PropertyType {
    fn clone(&self) -> (copy: Self)
        ensures
            copy == *self,
    {
        match self {
            PropertyType::RealEstate => PropertyType::RealEstate,
            PropertyType::Car => PropertyType::Car,
            PropertyType::Art => PropertyType::Art,
            PropertyType::Other(label) => PropertyType::Other(label.clone()),
        }
    }
}

impl PropertyType {
    /// Renders the category for a listing.
    pub fn display(&self) -> (text: String)
        ensures
            text@ == self@.display(),
    {
        match self {
            PropertyType::RealEstate => String::from_str("RealEstate"),
            PropertyType::Car => String::from_str("Car"),
            PropertyType::Art => String::from_str("Art"),
            PropertyType::Other(label) => {
                let quoted = debug_string(label);
                let mut text = String::from_str("Other(");
                text.append(quoted.as_str());
                text.append(")");
                text
            },
        }
    }
}

/// One registered property. Only the digest of its image is kept.
#[derive(Debug, PartialEq, Eq)]
pub struct Property {
    /// The key under which the registry holds the record.
    pub id: String,
    pub property_type: PropertyType,
    /// The digest of the uploaded image, in lowercase hexadecimal.
    pub image_hash: String,
    pub description: String,
    pub owner: String,
}

/// The mathematical value of a [`Property`].
pub struct PropertyView {
    pub id: Seq<char>,
    pub property_type: PropertyTypeView,
    pub image_hash: Seq<char>,
    pub description: Seq<char>,
    pub owner: Seq<char>,
}

impl View for Property {
    type V = PropertyView;

    open spec fn view(&self) -> PropertyView {
        PropertyView {
            id: self.id@,
            property_type: self.property_type@,
            image_hash: self.image_hash@,
            description: self.description@,
            owner: self.owner@,
        }
    }
}

impl PropertyView {
    /// The row that a listing shows for the record: its identifier, its
    /// category as displayed, and the digest of its image.
    pub open spec fn summary(self) -> (Seq<char>, Seq<char>, Seq<char>) {
        (self.id, self.property_type.display(), self.image_hash)
    }
}

impl Clone for Property {
    fn clone(&self) -> (copy: Self)
        ensures
            copy == *self,
    {
        Property {
            id: self.id.clone(),
            property_type: self.property_type.clone(),
            image_hash: self.image_hash.clone(),
            description: self.description.clone(),
            owner: self.owner.clone(),
        }
    }
}

impl Property {
    /// The row that a listing shows for this record.
    pub fn summary(&self) -> (row: (String, String, String))
        ensures
            (row.0@, row.1@, row.2@) == self@.summary(),
    {
        (self.id.clone(), self.property_type.display(), self.image_hash.clone())
    }
}

} // verus!
