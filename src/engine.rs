//! Types of the accesskit engine that the library carries through without
//! looking inside, and the few calls it makes on them.

use vstd::prelude::*;

verus! {

#[verifier::external_type_specification]
#[verifier::external_body]
pub struct ExRole(accesskit::Role);

#[verifier::external_type_specification]
#[verifier::external_body]
pub struct ExAction(accesskit::Action);

#[verifier::external_type_specification]
#[verifier::external_body]
pub struct ExNameFrom(accesskit::NameFrom);

#[verifier::external_type_specification]
#[verifier::external_body]
pub struct ExDescriptionFrom(accesskit::DescriptionFrom);

#[verifier::external_type_specification]
#[verifier::external_body]
pub struct ExInvalid(accesskit::Invalid);

#[verifier::external_type_specification]
#[verifier::external_body]
pub struct ExCheckedState(accesskit::CheckedState);

#[verifier::external_type_specification]
#[verifier::external_body]
pub struct ExLive(accesskit::Live);

#[verifier::external_type_specification]
#[verifier::external_body]
pub struct ExDefaultActionVerb(accesskit::DefaultActionVerb);

#[verifier::external_type_specification]
#[verifier::external_body]
pub struct ExTextDirection(accesskit::TextDirection);

#[verifier::external_type_specification]
#[verifier::external_body]
pub struct ExOrientation(accesskit::Orientation);

#[verifier::external_type_specification]
#[verifier::external_body]
pub struct ExSortDirection(accesskit::SortDirection);

#[verifier::external_type_specification]
#[verifier::external_body]
pub struct ExAriaCurrent(accesskit::AriaCurrent);

#[verifier::external_type_specification]
#[verifier::external_body]
pub struct ExHasPopup(accesskit::HasPopup);

#[verifier::external_type_specification]
#[verifier::external_body]
pub struct ExListStyle(accesskit::ListStyle);

#[verifier::external_type_specification]
#[verifier::external_body]
pub struct ExTextAlign(accesskit::TextAlign);

#[verifier::external_type_specification]
#[verifier::external_body]
pub struct ExVerticalOffset(accesskit::VerticalOffset);

#[verifier::external_type_specification]
#[verifier::external_body]
pub struct ExTextDecoration(accesskit::TextDecoration);

#[verifier::external_type_specification]
#[verifier::external_body]
pub struct ExAffine(accesskit::Affine);

#[verifier::external_type_specification]
#[verifier::external_body]
pub struct ExRect(accesskit::Rect);

#[verifier::external_type_specification]
#[verifier::external_body]
pub struct ExPoint(accesskit::Point);

/// Relies on the derived `PartialEq` of `accesskit::Role`, a fieldless enum:
/// two roles compare equal exactly when they are the same variant.
#[verifier::external_body]
pub(crate) fn same_role(a: &accesskit::Role, b: &accesskit::Role) -> (r: bool)
    ensures
        r == (*a == *b),
{
    *a == *b
}

/// Relies on the derived `PartialEq` of `accesskit::Action`, a fieldless enum:
/// two actions compare equal exactly when they are the same variant.
#[verifier::external_body]
pub(crate) fn same_action(a: &accesskit::Action, b: &accesskit::Action) -> (r: bool)
    ensures
        r == (*a == *b),
{
    *a == *b
}

} // verus!
