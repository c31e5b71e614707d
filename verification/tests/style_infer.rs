use polyhorn::macros::style::{PropertyKind, StyleCompound, StyleKind};
use polyhorn::styles::{Align, FlexDirection, Inherited, ObjectFit, ParseValue, TextAlign};

#[test]
fn test_compound() {
    assert_eq!(StyleCompound::infer(vec![]), Some(StyleCompound::Unit));

    assert_eq!(
        StyleCompound::infer(vec![StyleKind::View]),
        Some(StyleCompound::View)
    );

    assert_eq!(
        StyleCompound::infer(vec![StyleKind::View, StyleKind::Text]),
        Some(StyleCompound::TextView)
    );

    assert_eq!(
        StyleCompound::infer(vec![StyleKind::Image, StyleKind::View, StyleKind::Image]),
        Some(StyleCompound::ImageView)
    );
}

#[test]
fn incompatible_kinds_have_no_compound() {
    assert_eq!(StyleCompound::infer(vec![StyleKind::Image, StyleKind::Text]), None);
    assert_eq!(
        StyleCompound::infer(vec![StyleKind::View, StyleKind::Scrollable, StyleKind::Text]),
        None
    );
    assert_eq!(
        StyleCompound::infer(vec![StyleKind::Scrollable]),
        Some(StyleCompound::Scrollable)
    );
    assert_eq!(
        StyleCompound::infer(vec![StyleKind::Text, StyleKind::Text]),
        Some(StyleCompound::Text)
    );
}

#[test]
fn property_kinds_follow_their_names() {
    assert_eq!(PropertyKind::from_name("tint-color"), Some(PropertyKind::TintColor));
    assert_eq!(PropertyKind::from_name("font-size"), Some(PropertyKind::FontSize));
    assert_eq!(PropertyKind::from_name("width"), Some(PropertyKind::Width));
    assert_eq!(PropertyKind::from_name("widths"), None);
    assert_eq!(PropertyKind::from_name(""), None);
    assert_eq!(StyleKind::infer(&PropertyKind::TintColor), StyleKind::Image);
    assert_eq!(StyleKind::infer(&PropertyKind::ObjectFit), StyleKind::Image);
    assert_eq!(StyleKind::infer(&PropertyKind::FontWeight), StyleKind::Text);
    assert_eq!(StyleKind::infer(&PropertyKind::Opacity), StyleKind::View);
}

#[test]
fn keywords_parse_to_values() {
    assert_eq!(FlexDirection::parse("column-reverse"), Some(FlexDirection::ColumnReverse));
    assert_eq!(Align::parse("flex-end"), Some(Align::FlexEnd));
    assert_eq!(ObjectFit::parse("contain"), Some(ObjectFit::Contain));
    assert_eq!(ObjectFit::parse("none"), Some(ObjectFit::Unscaled));
    assert_eq!(TextAlign::parse("middle"), None);
    assert_eq!(Inherited::<TextAlign>::parse("inherit"), Some(Inherited::Inherited));
    assert_eq!(
        Inherited::<TextAlign>::parse("right"),
        Some(Inherited::Specified(TextAlign::Right))
    );
    assert_eq!(Inherited::<TextAlign>::parse("up"), None);
}
