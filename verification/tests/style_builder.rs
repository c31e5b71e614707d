use polyhorn::geometry::{ByDirection, Dimension, Size};
use polyhorn::layout::{ByCorner, ByEdge, LayoutAxisX, LayoutAxisY, LayoutDirection};
use polyhorn::macros::style::{Diagnostic, Driver, Error, ParseError, Property, PropertyValue, Style, StyleBuilder, Token};
use polyhorn::macros::style::infer::PropertyKind;
use polyhorn::macros::style::driver::parse_value;
use polyhorn::macros::style::parser::Parser;
use polyhorn::scalar::Scalar;
use polyhorn::styles::position::{Absolute, Position, Relative};
use polyhorn::styles::{
    Align, Border, BorderStyle, Color, FlexDirection, FontFamily, FontSize, FontStyle, FontWeight,
    GenericFontFamily, ImageStyle, ImageViewStyle, Inherited, Justify, ObjectFit, TextAlign, TextStyle,
    ViewStyle,
};

#[derive(Copy, Clone, Debug, PartialEq, PartialOrd)]
struct F32(f32);

impl Scalar for F32 {
    fn zero() -> Self { F32(0.0) }
    fn one() -> Self { F32(1.0) }
    fn from_int(n: i32) -> Self { F32(n as f32) }
    fn pi() -> Self { F32(std::f32::consts::PI) }
    fn add(self, o: Self) -> Self { F32(self.0 + o.0) }
    fn sub(self, o: Self) -> Self { F32(self.0 - o.0) }
    fn mul(self, o: Self) -> Self { F32(self.0 * o.0) }
    fn div(self, o: Self) -> Self { F32(self.0 / o.0) }
    fn neg(self) -> Self { F32(-self.0) }
    fn recip(self) -> Self { F32(self.0.recip()) }
    fn abs(self) -> Self { F32(self.0.abs()) }
    fn sqrt(self) -> Self { F32(self.0.sqrt()) }
    fn sin(self) -> Self { F32(self.0.sin()) }
    fn cos(self) -> Self { F32(self.0.cos()) }
    fn tan(self) -> Self { F32(self.0.tan()) }
    fn acos(self) -> Self { F32(self.0.acos()) }
    fn exp(self) -> Self { F32(self.0.exp()) }
    fn sinh(self) -> Self { F32(self.0.sinh()) }
    fn cosh(self) -> Self { F32(self.0.cosh()) }
    fn min(self, o: Self) -> Self { F32(self.0.min(o.0)) }
    fn max(self, o: Self) -> Self { F32(self.0.max(o.0)) }
    fn lt(self, o: Self) -> bool { self.0 < o.0 }
    fn le(self, o: Self) -> bool { self.0 <= o.0 }
    fn num_eq(self, o: Self) -> bool { self.0 == o.0 }
    fn spec_zero() -> Self { Self::zero() }
    fn spec_one() -> Self { Self::one() }
    fn spec_from_int(n: i32) -> Self { Self::from_int(n) }
    fn spec_pi() -> Self { Self::pi() }
    fn spec_add(self, o: Self) -> Self { self.add(o) }
    fn spec_sub(self, o: Self) -> Self { self.sub(o) }
    fn spec_mul(self, o: Self) -> Self { self.mul(o) }
    fn spec_div(self, o: Self) -> Self { self.div(o) }
    fn spec_neg(self) -> Self { self.neg() }
    fn spec_recip(self) -> Self { self.recip() }
    fn spec_abs(self) -> Self { self.abs() }
    fn spec_sqrt(self) -> Self { self.sqrt() }
    fn spec_sin(self) -> Self { self.sin() }
    fn spec_cos(self) -> Self { self.cos() }
    fn spec_tan(self) -> Self { self.tan() }
    fn spec_acos(self) -> Self { self.acos() }
    fn spec_exp(self) -> Self { self.exp() }
    fn spec_sinh(self) -> Self { self.sinh() }
    fn spec_cosh(self) -> Self { self.cosh() }
    fn spec_min(self, o: Self) -> Self { self.min(o) }
    fn spec_max(self, o: Self) -> Self { self.max(o) }
    fn spec_lt(self, o: Self) -> bool { self.lt(o) }
    fn spec_le(self, o: Self) -> bool { self.le(o) }
    fn spec_num_eq(self, o: Self) -> bool { self.num_eq(o) }
}


type Span = (usize, usize);

/// Reads one value token: a string, a number with its unit, or a name.
fn token(text: &str) -> Token<F32> {
    if text.starts_with('"') {
        let inner = &text[1..text.len() - 1];
        let mut out = String::new();
        let mut escaped = false;
        for c in inner.chars() {
            if escaped {
                out.push(c);
                escaped = false;
            } else if c == '\\' {
                escaped = true;
            } else {
                out.push(c);
            }
        }
        return Token::Literal(out);
    }
    let first = text.chars().next().unwrap();
    if first.is_ascii_digit() || first == '.' || first == '-' && text.len() > 1 {
        let split = text
            .find(|c: char| !(c.is_ascii_digit() || c == '.' || c == '-'))
            .unwrap_or(text.len());
        let value: f32 = text[..split].parse().unwrap();
        return Token::Number(F32(value), text[split..].to_string());
    }
    Token::Ident(text.to_string())
}

/// Splits a value into its tokens at spaces outside strings.
fn tokens(text: &str) -> Vec<Token<F32>> {
    let mut parts = vec![];
    let mut current = String::new();
    let mut quoted = false;
    let mut escaped = false;
    for c in text.chars() {
        if quoted {
            current.push(c);
            if escaped {
                escaped = false;
            } else if c == '\\' {
                escaped = true;
            } else if c == '"' {
                quoted = false;
            }
        } else if c == ' ' {
            if !current.is_empty() {
                parts.push(token(&current));
                current.clear();
            }
        } else {
            if c == '"' {
                quoted = true;
            }
            current.push(c);
        }
    }
    if !current.is_empty() {
        parts.push(token(&current));
    }
    parts
}

/// Reads the properties of a style sheet `name: value; ...`, each with the
/// character offsets of its name and its value as spans.
fn properties(input: &str) -> Vec<Property<Span, F32>> {
    let driver = Driver::<Span, F32>::new();
    let mut result = vec![];
    let mut offset = 0;
    for item in input.split(';') {
        let colon = match item.find(':') {
            Some(colon) => colon,
            None => {
                offset += item.len() + 1;
                continue;
            }
        };
        let name = item[..colon].trim();
        let name_start = offset + item.find(name).unwrap();
        let value = item[colon + 1..].trim();
        let value_start = offset + colon + 1 + item[colon + 1..].find(value).unwrap();
        let property = driver
            .parse_property(
                &[Token::Ident(name.to_string())],
                &tokens(value),
                (name_start, name_start + name.len()),
                (value_start, value_start + value.len()),
            )
            .unwrap();
        result.push(property);
        offset += item.len() + 1;
    }
    result
}

fn build(input: &str) -> (Style<F32>, Vec<Diagnostic<Span>>) {
    StyleBuilder::new().build(&properties(input))
}

fn points(v: f32) -> Dimension<F32> {
    Dimension::Points(F32(v))
}

fn absolute(top: Dimension<F32>, right: Dimension<F32>, bottom: Dimension<F32>, left: Dimension<F32>) -> Position<F32> {
    Position::Absolute(Absolute {
        distances: ByEdge {
            horizontal: LayoutAxisX::DirectionIndependent { left, right },
            vertical: LayoutAxisY { top, bottom },
        },
    })
}

fn view(style: ViewStyle<F32>) -> (Style<F32>, Vec<Diagnostic<Span>>) {
    (Style::View(style), vec![])
}

fn text(style: TextStyle<F32>) -> (Style<F32>, Vec<Diagnostic<Span>>) {
    (Style::Text(style), vec![])
}

#[test]
fn test_unused_property_warning() {
    assert_eq!(
        build("tint-color: red; tint-color: green;"),
        (
            Style::Image(ImageStyle { tint_color: Some(Color::rgb(0, 128, 0)), ..Default::default() }),
            vec![Diagnostic::UnusedProperty((12, 15))]
        )
    );
}

#[test]
fn test_object_fit() {
    assert_eq!(
        build("object-fit: contain;"),
        (Style::Image(ImageStyle { object_fit: ObjectFit::Contain, ..Default::default() }), vec![])
    );
}

#[test]
fn test_tint_color() {
    assert_eq!(
        build("tint-color: red;"),
        (Style::Image(ImageStyle { tint_color: Some(Color::rgb(255, 0, 0)), ..Default::default() }), vec![])
    );
}

#[test]
fn test_color() {
    assert_eq!(
        build("color: brown;"),
        text(TextStyle { color: Inherited::Specified(Color::rgb(165, 42, 42)), ..Default::default() })
    );
}

#[test]
fn test_generic_font_family() {
    assert_eq!(
        build("font-family: monospace;"),
        text(TextStyle {
            font_family: Inherited::Specified(FontFamily::Generic(GenericFontFamily::Monospace)),
            ..Default::default()
        })
    );
}

#[test]
fn test_named_font_family() {
    assert_eq!(
        build("font-family: \"Helvetica \\\"Neue\\\"\";"),
        text(TextStyle {
            font_family: Inherited::Specified(FontFamily::Named("Helvetica \"Neue\"".to_owned())),
            ..Default::default()
        })
    );
}

#[test]
fn test_named_font_weight() {
    assert_eq!(
        build("font-weight: extra-bold;"),
        text(TextStyle { font_weight: Inherited::Specified(FontWeight::ExtraBold), ..Default::default() })
    );
}

#[test]
fn test_integer_font_weight() {
    assert_eq!(
        build("font-weight: 450;"),
        text(TextStyle { font_weight: Inherited::Specified(FontWeight::Number(F32(450.0))), ..Default::default() })
    );
}

#[test]
fn test_font_style() {
    assert_eq!(
        build("font-style: oblique;"),
        text(TextStyle { font_style: Inherited::Specified(FontStyle::Oblique), ..Default::default() })
    );
}

#[test]
fn test_named_font_size() {
    assert_eq!(
        build("font-size: extra-extra-large;"),
        text(TextStyle { font_size: Inherited::Specified(FontSize::ExtraExtraLarge), ..Default::default() })
    );
}

#[test]
fn test_pixel_font_size() {
    assert_eq!(
        build("font-size: 12px;"),
        text(TextStyle {
            font_size: Inherited::Specified(FontSize::Dimension(points(12.0))),
            ..Default::default()
        })
    );
}

#[test]
fn test_text_align() {
    assert_eq!(
        build("text-align: right;"),
        text(TextStyle { text_align: Inherited::Specified(TextAlign::Right), ..Default::default() })
    );
}

#[test]
fn test_position() {
    let u = Dimension::Undefined;
    assert_eq!(
        build("position: absolute;"),
        view(ViewStyle { position: absolute(u, u, u, u), ..Default::default() })
    );
}

#[test]
fn test_top() {
    let u = Dimension::Undefined;
    assert_eq!(
        build("position: absolute; top: 20px;"),
        view(ViewStyle { position: absolute(points(20.0), u, u, u), ..Default::default() })
    );
}

#[test]
fn test_right() {
    let u = Dimension::Undefined;
    assert_eq!(
        build("position: absolute; right: 30px;"),
        view(ViewStyle { position: absolute(u, points(30.0), u, u), ..Default::default() })
    );
}

#[test]
fn test_bottom() {
    let u = Dimension::Undefined;
    assert_eq!(
        build("position: absolute; bottom: 40px;"),
        view(ViewStyle { position: absolute(u, u, points(40.0), u), ..Default::default() })
    );
}

#[test]
fn test_left() {
    let u = Dimension::Undefined;
    assert_eq!(
        build("position: absolute; left: 50px;"),
        view(ViewStyle { position: absolute(u, u, u, points(50.0)), ..Default::default() })
    );
}

#[test]
fn test_flex_basis() {
    assert_eq!(
        build("flex-basis: 20px;"),
        view(ViewStyle {
            position: Position::Relative(Relative { flex_basis: points(20.0), ..Default::default() }),
            ..Default::default()
        })
    );
}

#[test]
fn test_flex_grow() {
    assert_eq!(
        build("flex-grow: 2.0;"),
        view(ViewStyle {
            position: Position::Relative(Relative { flex_grow: F32(2.0), ..Default::default() }),
            ..Default::default()
        })
    );
}

#[test]
fn test_flex_shrink() {
    assert_eq!(
        build("flex-shrink: 0.5;"),
        view(ViewStyle {
            position: Position::Relative(Relative { flex_shrink: F32(0.5), ..Default::default() }),
            ..Default::default()
        })
    );
}

#[test]
fn test_direction() {
    assert_eq!(
        build("direction: rtl;"),
        view(ViewStyle { direction: Inherited::Specified(LayoutDirection::RTL), ..Default::default() })
    );
}

#[test]
fn test_height() {
    assert_eq!(
        build("height: 15.5px;"),
        view(ViewStyle { size: Size::new(Dimension::Auto, points(15.5)), ..Default::default() })
    );
}

#[test]
fn test_width() {
    assert_eq!(
        build("width: 25.5px;"),
        view(ViewStyle { size: Size::new(points(25.5), Dimension::Auto), ..Default::default() })
    );
}

#[test]
fn test_min_height() {
    assert_eq!(
        build("min-height: 15.5px;"),
        view(ViewStyle { min_size: Size::new(Dimension::Auto, points(15.5)), ..Default::default() })
    );
}

#[test]
fn test_min_width() {
    assert_eq!(
        build("min-width: 25.5px;"),
        view(ViewStyle { min_size: Size::new(points(25.5), Dimension::Auto), ..Default::default() })
    );
}

#[test]
fn test_max_height() {
    assert_eq!(
        build("max-height: 15.5px;"),
        view(ViewStyle { max_size: Size::new(Dimension::Auto, points(15.5)), ..Default::default() })
    );
}

#[test]
fn test_max_width() {
    assert_eq!(
        build("max-width: 25.5px;"),
        view(ViewStyle { max_size: Size::new(points(25.5), Dimension::Auto), ..Default::default() })
    );
}

#[test]
fn test_flex_direction() {
    assert_eq!(
        build("flex-direction: column-reverse;"),
        view(ViewStyle { flex_direction: FlexDirection::ColumnReverse, ..Default::default() })
    );
}

#[test]
fn test_align_items() {
    assert_eq!(
        build("align-items: flex-end;"),
        view(ViewStyle { align_items: Align::FlexEnd, ..Default::default() })
    );
}

#[test]
fn test_justify_content() {
    assert_eq!(
        build("justify-content: space-evenly;"),
        view(ViewStyle { justify_content: Justify::SpaceEvenly, ..Default::default() })
    );
}

fn edges(top: f32, right: f32, bottom: f32, left: f32) -> ByEdge<Dimension<F32>> {
    ByEdge {
        horizontal: LayoutAxisX::independent(points(left), points(right)),
        vertical: LayoutAxisY { top: points(top), bottom: points(bottom) },
    }
}

#[test]
fn test_margin_single() {
    assert_eq!(build("margin: 5px;"), view(ViewStyle { margin: edges(5.0, 5.0, 5.0, 5.0), ..Default::default() }));
}

#[test]
fn test_margin_double() {
    assert_eq!(
        build("margin: 5px 10px;"),
        view(ViewStyle { margin: edges(5.0, 10.0, 5.0, 10.0), ..Default::default() })
    );
}

#[test]
fn test_margin_quadruple() {
    assert_eq!(
        build("margin: 1px 2px 3px 4px;"),
        view(ViewStyle { margin: edges(1.0, 2.0, 3.0, 4.0), ..Default::default() })
    );
}

#[test]
fn test_border() {
    let border = Border { width: points(1.0), style: BorderStyle::Solid, color: Color::rgb(255, 0, 0) };
    assert_eq!(
        build("border: 1px solid red;"),
        view(ViewStyle {
            border: ByEdge {
                horizontal: LayoutAxisX::DirectionIndependent { left: border, right: border },
                vertical: LayoutAxisY { top: border, bottom: border },
            },
            ..Default::default()
        })
    );
}

#[test]
fn test_padding_single() {
    assert_eq!(build("padding: 5px;"), view(ViewStyle { padding: edges(5.0, 5.0, 5.0, 5.0), ..Default::default() }));
}

#[test]
fn test_padding_double() {
    assert_eq!(
        build("padding: 5px 10px;"),
        view(ViewStyle { padding: edges(5.0, 10.0, 5.0, 10.0), ..Default::default() })
    );
}

#[test]
fn test_padding_quadruple() {
    assert_eq!(
        build("padding: 1px 2px 3px 4px;"),
        view(ViewStyle { padding: edges(1.0, 2.0, 3.0, 4.0), ..Default::default() })
    );
}

#[test]
fn test_background_color() {
    assert_eq!(
        build("background-color: beige;"),
        view(ViewStyle { background_color: Color::rgb(245, 245, 220), ..Default::default() })
    );
}

#[test]
fn test_opacity() {
    assert_eq!(build("opacity: 0.5;"), view(ViewStyle { opacity: F32(0.5), ..Default::default() }));
}

#[test]
fn later_view_properties_override_earlier_ones() {
    assert_eq!(
        build("opacity: 0.5; width: 10px; opacity: 0.25; opacity: 1.0;"),
        (
            Style::View(ViewStyle {
                opacity: F32(1.0),
                size: Size::new(points(10.0), Dimension::Auto),
                ..Default::default()
            }),
            vec![Diagnostic::UnusedProperty((9, 12)), Diagnostic::UnusedProperty((36, 40))]
        )
    );
}

#[test]
fn image_and_view_properties_make_an_image_view() {
    assert_eq!(
        build("object-fit: cover; opacity: 0.5; object-fit: fill;"),
        (
            Style::ImageView(ImageViewStyle {
                image: ImageStyle { object_fit: ObjectFit::Fill, tint_color: None },
                view: ViewStyle { opacity: F32(0.5), ..Default::default() },
            }),
            vec![Diagnostic::UnusedProperty((12, 17))]
        )
    );
}

#[test]
fn image_and_text_properties_make_no_style() {
    assert_eq!(build("object-fit: cover; color: red; color: blue;"), (Style::Unit, vec![]));
}

#[test]
fn border_radius_is_the_same_in_both_directions() {
    let r = |v: f32| ByDirection { horizontal: points(v), vertical: points(v) };
    assert_eq!(
        build("border-radius: 1px 2px 3px 4px;"),
        view(ViewStyle {
            border_radius: ByCorner {
                all: LayoutAxisY {
                    top: LayoutAxisX::DirectionIndependent { left: r(1.0), right: r(2.0) },
                    bottom: LayoutAxisX::DirectionIndependent { left: r(4.0), right: r(3.0) },
                },
            },
            ..Default::default()
        })
    );
}

#[test]
fn inherited_and_transparent_colors() {
    assert_eq!(
        build("color: inherit;"),
        text(TextStyle { color: Inherited::Inherited, ..Default::default() })
    );
    assert_eq!(
        build("background-color: transparent;"),
        view(ViewStyle { background_color: Color::transparent(), ..Default::default() })
    );
}

#[test]
fn property_errors() {
    let driver = Driver::<Span, F32>::new();
    assert_eq!(
        driver.parse_property(&[Token::Ident("colour".to_string())], &tokens("red"), (0, 6), (8, 11)),
        Err(Error::UnrecognizedProperty((0, 6)))
    );
    assert_eq!(
        driver.parse_property(&[Token::Ident("color".to_string())], &tokens("reddish"), (0, 5), (7, 14)),
        Err(Error::Parse(ParseError::UnknownVariant(0, 1)))
    );
    assert_eq!(
        driver.parse_property(&[Token::Punct('*')], &tokens("red"), (0, 1), (3, 6)),
        Err(Error::UnexpectedToken(1))
    );
    assert_eq!(
        driver.parse_property(&[], &tokens("red"), (0, 0), (2, 5)),
        Err(Error::UnexpectedToken(0))
    );
    assert_eq!(
        driver.parse_property(&[Token::Ident("opacity".to_string())], &tokens("1 2"), (0, 7), (9, 12)),
        Err(Error::Parse(ParseError::UnexpectedToken(1)))
    );
    assert_eq!(driver.parse_rule((0, 4), (5, 9)), Error::UnexpectedRule((0, 4), (5, 9)));
}

#[test]
fn border_errors_point_into_the_value() {
    assert_eq!(Parser::<F32>::parse_border(&tokens("red solid 1px")), Err(ParseError::UnexpectedToken(0)));
    assert_eq!(Parser::<F32>::parse_border(&tokens("1px wavy red")), Err(ParseError::UnexpectedToken(1)));
    assert_eq!(Parser::<F32>::parse_border(&tokens("1px solid reddish")), Err(ParseError::UnknownVariant(2, 3)));
    assert_eq!(Parser::<F32>::parse_border(&tokens("1px solid red blue")), Err(ParseError::UnexpectedToken(3)));
}

#[test]
fn font_values() {
    assert_eq!(
        Parser::<F32>::parse_font_family(&tokens("\"Menlo\" serif")),
        Err(ParseError::UnexpectedToken(1))
    );
    assert_eq!(Parser::<F32>::parse_font_family(&tokens("12")), Err(ParseError::UnexpectedToken(0)));
    assert_eq!(Parser::<F32>::parse_font_size(&tokens("inherit")), Ok(Inherited::Inherited));
    assert_eq!(Parser::<F32>::parse_font_weight(&tokens("bold")), Ok(Inherited::Specified(FontWeight::Bold)));
    assert_eq!(
        parse_value(PropertyKind::FontStyle, &tokens("italic")),
        Ok(PropertyValue::FontStyle(Inherited::Specified(FontStyle::Italic)))
    );
}
