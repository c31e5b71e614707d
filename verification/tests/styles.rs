use polyhorn::animation::bezier::{Bezier, BezierCoefficients};
use polyhorn::animation::decay::Decay;
use polyhorn::animation::spring::Spring;
use polyhorn::animation::{Curve, Sampler};
use polyhorn::geometry::{Dimension, Size};
use polyhorn::layout::{ByCorner, ByEdge, LayoutAxisX, LayoutAxisY};
use polyhorn::linalg::{Quaternion3D, Transform3D};
use polyhorn::macros::style::parser::{Parser, TransformFunction, transform_function};
use polyhorn::macros::style::{Delimiter, ParseError, Token};
use polyhorn::physics::Angle;
use polyhorn::scalar::Scalar;
use polyhorn::styles::transform::{Transform, TransformBuilder};
use polyhorn::yoyo::{
    Automaton, Diagnostic, Driver, Edge, Error, Item, Property, PropertyValue, Rule, Selector,
    Spring as SpringTransition, Style, StyleBuilder, TransformTransition, Transition, Transitions,
};
use polyhorn::yoyo::codegen::{sort_variants, variant_name, Codegen};

#[derive(Copy, Clone, Debug, PartialEq, PartialOrd)]
struct F32(f32);

impl Scalar for F32 {
    fn zero() -> Self { F32(0.0) }
    fn one() -> Self { F32(1.0) }
    fn from_int(n: i32) -> Self { F32(n as f32) }
    fn pi() -> Self { F32(std::f32::consts::PI) }
    fn add(self, o: Self) -> Self { F32(self.0 + o.0) }
    fn sub(self, o: Self) -> Self { F32(self.0 - o.0) }
    fn mul(self, o: Self) -> Self { F32(self.0 * o.0) }
    fn div(self, o: Self) -> Self { F32(self.0 / o.0) }
    fn neg(self) -> Self { F32(-self.0) }
    fn recip(self) -> Self { F32(self.0.recip()) }
    fn abs(self) -> Self { F32(self.0.abs()) }
    fn sqrt(self) -> Self { F32(self.0.sqrt()) }
    fn sin(self) -> Self { F32(self.0.sin()) }
    fn cos(self) -> Self { F32(self.0.cos()) }
    fn tan(self) -> Self { F32(self.0.tan()) }
    fn acos(self) -> Self { F32(self.0.acos()) }
    fn exp(self) -> Self { F32(self.0.exp()) }
    fn sinh(self) -> Self { F32(self.0.sinh()) }
    fn cosh(self) -> Self { F32(self.0.cosh()) }
    fn min(self, o: Self) -> Self { F32(self.0.min(o.0)) }
    fn max(self, o: Self) -> Self { F32(self.0.max(o.0)) }
    fn lt(self, o: Self) -> bool { self.0 < o.0 }
    fn le(self, o: Self) -> bool { self.0 <= o.0 }
    fn num_eq(self, o: Self) -> bool { self.0 == o.0 }
    fn spec_zero() -> Self { Self::zero() }
    fn spec_one() -> Self { Self::one() }
    fn spec_from_int(n: i32) -> Self { Self::from_int(n) }
    fn spec_pi() -> Self { Self::pi() }
    fn spec_add(self, o: Self) -> Self { self.add(o) }
    fn spec_sub(self, o: Self) -> Self { self.sub(o) }
    fn spec_mul(self, o: Self) -> Self { self.mul(o) }
    fn spec_div(self, o: Self) -> Self { self.div(o) }
    fn spec_neg(self) -> Self { self.neg() }
    fn spec_recip(self) -> Self { self.recip() }
    fn spec_abs(self) -> Self { self.abs() }
    fn spec_sqrt(self) -> Self { self.sqrt() }
    fn spec_sin(self) -> Self { self.sin() }
    fn spec_cos(self) -> Self { self.cos() }
    fn spec_tan(self) -> Self { self.tan() }
    fn spec_acos(self) -> Self { self.acos() }
    fn spec_exp(self) -> Self { self.exp() }
    fn spec_sinh(self) -> Self { self.sinh() }
    fn spec_cosh(self) -> Self { self.cosh() }
    fn spec_min(self, o: Self) -> Self { self.min(o) }
    fn spec_max(self, o: Self) -> Self { self.max(o) }
    fn spec_lt(self, o: Self) -> bool { self.lt(o) }
    fn spec_le(self, o: Self) -> bool { self.le(o) }
    fn spec_num_eq(self, o: Self) -> bool { self.num_eq(o) }
}


fn s(v: f32) -> F32 {
    F32(v)
}

fn ident(name: &str) -> Token<F32> {
    Token::Ident(name.to_string())
}

fn num(v: f32, unit: &str) -> Token<F32> {
    Token::Number(F32(v), unit.to_string())
}

fn comma() -> Token<F32> {
    Token::Punct(',')
}

fn group(tokens: Vec<Token<F32>>) -> Token<F32> {
    Token::Group(Delimiter::Parenthesis, tokens)
}

fn close(a: F32, b: f32) -> bool {
    (a.0 - b).abs() < 1e-4
}

#[test]
fn test_transform() {
    assert_eq!(
        Transform::with_rotation(s(1.0), s(0.0), s(0.0), Angle::with_degrees(s(45.0))).is_resolved(),
        true
    );

    assert_eq!(Transform::with_scale(s(1.0), s(2.0), s(3.0)).is_resolved(), true);

    assert_eq!(
        Transform::with_translation(Dimension::Points(s(10.0)), Dimension::Points(s(20.0)), s(30.0))
            .is_resolved(),
        true
    );

    assert_eq!(
        Transform::with_translation(Dimension::Percentage(s(10.0)), Dimension::Points(s(20.0)), s(30.0))
            .is_resolved(),
        false
    );

    assert_eq!(
        Transform::with_translation(Dimension::Points(s(10.0)), Dimension::Percentage(s(20.0)), s(30.0))
            .is_resolved(),
        false
    );

    assert_eq!(
        Transform::with_translation(Dimension::Percentage(s(0.0)), Dimension::Percentage(s(0.0)), s(30.0))
            .is_resolved(),
        true
    );
}

#[test]
fn test_transform_builder() {
    let builder = TransformBuilder::new()
        .push(Transform::with_scale(s(2.0), s(3.0), s(1.0)))
        .unwrap()
        .push(Transform::with_translation(
            Dimension::Percentage(s(0.5)),
            Dimension::Percentage(s(0.3)),
            s(20.0),
        ))
        .unwrap()
        .push(Transform::with_rotation(s(1.0), s(0.0), s(0.0), Angle::with_degrees(s(45.0))))
        .unwrap();

    assert_eq!(builder.len(), 2);

    let resolved = Transform::squash(builder.into_transforms(), Size::new(s(320.0), s(480.0)));

    assert_eq!(
        resolved,
        Transform3D::with_scale(s(2.0), s(3.0), s(1.0))
            .translate(s(160.0), s(144.0), s(20.0))
            .rotate(Quaternion3D::with_angle(
                Angle::with_degrees(s(45.0)).to_radians(),
                s(-1.0),
                s(0.0),
                s(0.0)
            ))
    );
}

#[test]
fn test_transform_builder_full() {
    let relative = Transform::with_translation(Dimension::Percentage(s(0.5)), Dimension::Undefined, s(0.0));
    let mut builder = TransformBuilder::new();
    for _ in 0..8 {
        builder = builder.push(relative).unwrap();
    }
    assert_eq!(builder.len(), 8);
    assert!(builder.push(relative).is_err());
}

#[test]
fn test_2nd_derivative() {
    let coeffs = BezierCoefficients::new([(s(0.0), s(0.0)), (s(1.0), s(1.0))]);
    assert_eq!((coeffs.sample_dydx(s(0.0)).0 * 1000.0).round() / 1000.0, 1.0);
    assert_eq!((coeffs.sample_dydx(s(0.5)).0 * 1000.0).round() / 1000.0, 1.0);
}

#[test]
fn test_3rd_derivative() {
    let coeffs = BezierCoefficients::new([(s(0.0), s(0.0)), (s(0.0), s(1.0))]);
    assert!(coeffs.sample_dydx(s(0.0)).0.is_finite());
}

#[test]
fn test_infinite_gradient() {
    let coeffs = BezierCoefficients::new([(s(1.0), s(0.0)), (s(0.0), s(1.0))]);
    assert!(coeffs.sample_dydx(s(0.5)).0.is_finite());
}

#[test]
fn test_zero_gradient() {
    let coeffs = BezierCoefficients::new([(s(0.0), s(1.0)), (s(1.0), s(0.0))]);
    assert_eq!((coeffs.sample_dydx(s(0.5)).0 * 100.0).round() / 100.0, 0.0);
}

#[test]
fn test_ideal_target() {
    assert_eq!(Decay::ideal_target(s(4.0), s(0.8), s(32.0)), s(4.0 + 0.8 * 32.0));
}

#[test]
fn test_spring() {
    let spring = Spring {
        from_value: s(0.0),
        to_value: s(320.0),
        stiffness: s(100.0),
        damping: s(10.0),
        mass: s(1.0),
        initial_velocity: s(0.0),
        overshoot_clamping: false,
        allows_overdamping: false,
    };

    let mut sampler = Sampler::new(&spring, s(20.0));
    let mut y = vec![];
    while let Some(approx) = sampler.next() {
        y.push(approx.value);
    }

    println!("y: {:?}", y);
    println!("y: {:?}", y.len());
    assert_eq!(*y.last().unwrap(), s(320.0));
}

#[test]
fn clamped_spring_does_not_pass_its_target() {
    let mut spring = Spring {
        from_value: s(0.0),
        to_value: s(320.0),
        stiffness: s(100.0),
        damping: s(10.0),
        mass: s(1.0),
        initial_velocity: s(0.0),
        overshoot_clamping: false,
        allows_overdamping: false,
    };
    let free = (0..100).map(|i| spring.approximate(s(i as f32 * 0.02)).value.0).fold(0.0f32, f32::max);
    assert!(free > 320.0);
    spring.overshoot_clamping = true;
    for i in 0..100 {
        let approx = spring.approximate(s(i as f32 * 0.02));
        assert!(approx.value.0 <= 320.0);
        if approx.value.0 == 320.0 {
            assert_eq!(approx.velocity, s(0.0));
        }
    }
    assert_eq!(spring.approximate(s(0.0)).value, s(0.0));
}

#[test]
fn test_parse_transform_none() {
    let tokens = vec![ident("none")];
    let parsed = Parser::<F32>::parse_transform(&tokens).unwrap();
    assert_eq!(parsed, [Transform::default(); 8]);
}

#[test]
fn test_parse_transform_functions() {
    let tokens = vec![
        ident("scale"),
        group(vec![num(2.0, ""), comma(), num(3.0, "")]),
        ident("translate"),
        group(vec![num(50.0, "%"), comma(), num(10.0, "px")]),
        ident("rotate"),
        group(vec![num(90.0, "deg")]),
    ];
    let parsed = Parser::<F32>::parse_transform(&tokens).unwrap();
    let first = Transform::with_scale(s(2.0), s(3.0), s(1.0))
        .concat(Transform::with_translation(Dimension::Percentage(s(50.0)), Dimension::Points(s(10.0)), s(0.0)))
        .unwrap();
    assert_eq!(parsed[0], first);
    assert_eq!(
        parsed[1],
        Transform::with_rotation(s(0.0), s(0.0), s(1.0), Angle::with_degrees(s(90.0)))
    );
    assert_eq!(parsed[2], Transform::default());
}

#[test]
fn test_parse_transform_errors() {
    let unknown = vec![ident("twist"), group(vec![num(1.0, "")])];
    assert_eq!(Parser::<F32>::parse_transform(&unknown), Err(ParseError::UnexpectedToken(0)));

    let arity = vec![ident("scale"), group(vec![num(1.0, "")]), ident("rotateX"), group(vec![num(1.0, "")])];
    assert_eq!(Parser::<F32>::parse_transform(&arity), Err(ParseError::UnexpectedToken(0)));

    let unit = vec![ident("rotateX"), group(vec![num(1.0, "rad")]), ident("rotateY"), group(vec![num(1.0, "px")])];
    assert_eq!(Parser::<F32>::parse_transform(&unit), Err(ParseError::UnexpectedToken(2)));

    let skew = vec![ident("skew"), group(vec![num(0.0, "")])];
    assert_eq!(Parser::<F32>::parse_transform(&skew), Err(ParseError::Deprecated(0, 2)));

    let missing_group = vec![ident("scaleX")];
    assert_eq!(Parser::<F32>::parse_transform(&missing_group), Err(ParseError::UnexpectedToken(0)));
}

#[test]
fn test_parse_transform_matrix() {
    let mut args = vec![];
    for k in 0..6 {
        if k > 0 {
            args.push(comma());
        }
        args.push(num((k + 1) as f32, ""));
    }
    let tokens = vec![ident("matrix"), group(args)];
    let parsed = Parser::<F32>::parse_transform(&tokens).unwrap();
    assert_eq!(
        parsed[0],
        Transform::with_matrix([s(1.0), s(2.0), s(3.0), s(4.0), s(5.0), s(6.0)])
    );
    assert_eq!(parsed[0].matrix.columns[3][0], s(5.0));
}

#[test]
fn test_transform_function_names() {
    assert_eq!(transform_function("rotateZ"), Some(TransformFunction::Rotate));
    assert_eq!(transform_function("translate3d"), Some(TransformFunction::Translate3d));
    assert_eq!(transform_function("shear"), None);
}

#[test]
fn test_parse_dimension() {
    assert_eq!(Parser::<F32>::parse_dimension(&[num(50.0, "%")]), Ok(Dimension::Percentage(s(0.5))));
    assert_eq!(Parser::<F32>::parse_dimension(&[num(12.0, "px")]), Ok(Dimension::Points(s(12.0))));
    assert_eq!(Parser::<F32>::parse_dimension(&[num(0.0, "")]), Ok(Dimension::Points(s(0.0))));
    assert_eq!(Parser::<F32>::parse_dimension(&[ident("auto")]), Ok(Dimension::Auto));
    assert_eq!(Parser::<F32>::parse_dimension(&[num(3.0, "vw")]), Err(ParseError::UnrecognizedUnit(0)));
    assert_eq!(
        Parser::<F32>::parse_dimension(&[num(3.0, "px"), num(4.0, "px")]),
        Err(ParseError::UnexpectedToken(1))
    );
    assert_eq!(Parser::<F32>::parse_dimension(&[comma()]), Err(ParseError::UnexpectedToken(0)));
    assert_eq!(Parser::<F32>::take_dimension(&[num(5.0, "%"), comma()]), (Some(Dimension::Percentage(s(5.0))), 1));
    assert_eq!(Parser::<F32>::take_dimension(&[comma()]), (None, 0));
}

#[test]
fn test_parse_angle_and_number() {
    let a = Parser::<F32>::parse_angle(&[num(180.0, "deg")]).unwrap();
    assert!(close(a.to_radians(), std::f32::consts::PI));
    assert_eq!(Parser::<F32>::parse_angle(&[num(2.0, "rad")]), Ok(Angle::with_radians(s(2.0))));
    assert_eq!(Parser::<F32>::parse_angle(&[num(2.0, "")]), Err(ParseError::UnrecognizedUnit(0)));
    assert_eq!(Parser::<F32>::parse_number(&[num(0.5, "")]), Ok(s(0.5)));
    assert_eq!(Parser::<F32>::parse_number(&[ident("half")]), Err(ParseError::UnexpectedToken(0)));
    assert_eq!(
        Parser::<F32>::parse_enum::<Dimension<F32>>(&[ident("sideways")]),
        Err(ParseError::UnknownVariant(0, 1))
    );
}

#[test]
fn test_parse_by_edge() {
    let p = |v: f32| Dimension::Points(s(v));
    assert_eq!(
        Parser::<F32>::parse_by_edge(&[num(5.0, "px")]),
        Ok(ByEdge {
            horizontal: LayoutAxisX::independent(p(5.0), p(5.0)),
            vertical: LayoutAxisY { top: p(5.0), bottom: p(5.0) },
        })
    );
    assert_eq!(
        Parser::<F32>::parse_by_edge(&[num(5.0, "px"), num(10.0, "px")]),
        Ok(ByEdge {
            horizontal: LayoutAxisX::independent(p(10.0), p(10.0)),
            vertical: LayoutAxisY { top: p(5.0), bottom: p(5.0) },
        })
    );
    let four = [num(1.0, "px"), num(2.0, "px"), num(3.0, "px"), num(4.0, "px")];
    assert_eq!(
        Parser::<F32>::parse_by_edge(&four),
        Ok(ByEdge {
            horizontal: LayoutAxisX::independent(p(4.0), p(2.0)),
            vertical: LayoutAxisY { top: p(1.0), bottom: p(3.0) },
        })
    );
    assert_eq!(
        Parser::<F32>::parse_by_edge(&four[0..3]),
        Err(ParseError::TooFewArguments(0, 3))
    );
    assert_eq!(Parser::<F32>::parse_by_edge(&[]), Err(ParseError::TooManyArguments(0, 0)));
    assert_eq!(
        Parser::<F32>::parse_by_edge(&[num(1.0, "px"), comma()]),
        Err(ParseError::UnexpectedToken(1))
    );
    assert_eq!(
        Parser::<F32>::parse_by_corner(&four),
        Ok(ByCorner {
            all: LayoutAxisY {
                top: LayoutAxisX::independent(p(1.0), p(2.0)),
                bottom: LayoutAxisX::independent(p(4.0), p(3.0)),
            },
        })
    );
}

fn property(span: usize, value: PropertyValue<F32>) -> Property<usize, F32> {
    Property { name_span: span, value_span: span, value }
}

#[test]
fn test_build_style_last_wins() {
    let properties = [
        property(1, PropertyValue::Opacity(s(0.5))),
        property(2, PropertyValue::TransitionOpacity(Transition::Delay(s(0.4)))),
        property(3, PropertyValue::Opacity(s(0.25))),
        property(4, PropertyValue::TransitionTransform(Transition::EaseInOut(s(0.3)))),
    ];
    let mut builder = StyleBuilder::new();
    let style = builder.build_style(&properties, Style::default());
    assert_eq!(style.opacity, s(0.25));
    assert_eq!(style.transform, [Transform::default(); 8]);
    assert_eq!(style.transitions.opacity, Transition::Delay(s(0.4)));
    assert_eq!(style.transitions.transform.rotation, Transition::EaseInOut(s(0.3)));
    assert_eq!(builder.into_diagnostics(), vec![Diagnostic::UnusedProperty(1)]);
}

#[test]
fn test_build_transitions_defaults() {
    let mut builder = StyleBuilder::<usize>::new();
    let transitions = builder.build_transitions::<F32>(&[], Transitions::default());
    assert_eq!(transitions.opacity, Transition::Step);
    assert_eq!(transitions.transform, TransformTransition::default());
    assert!(builder.into_diagnostics().is_empty());
}

#[test]
fn test_parse_selector() {
    let driver = Driver::<usize, F32>::new();
    assert_eq!(driver.parse_selector(&[Token::Punct('&')]), Ok(Selector::Ampersand));
    assert_eq!(
        driver.parse_selector(&[Token::Punct(':'), ident("initial")]),
        Ok(Selector::State("initial".to_string()))
    );
    assert_eq!(
        driver.parse_selector(&[Token::Punct('.'), ident("idle")]),
        Ok(Selector::ClassName("idle".to_string()))
    );
    assert_eq!(
        driver.parse_selector(&[Token::Punct(':'), ident("from"), group(vec![Token::Punct('.'), ident("idle")])]),
        Ok(Selector::FromClassName("idle".to_string()))
    );
    assert_eq!(
        driver.parse_selector(&[Token::Punct(':'), ident("from"), ident("idle")]),
        Err(Error::UnexpectedToken(2))
    );
    assert_eq!(driver.parse_selector(&[Token::Punct('#')]), Err(Error::UnexpectedToken(0)));
    assert_eq!(driver.parse_selectors(&[Token::Punct('&')]), Ok(vec![Selector::Ampersand]));
}

#[test]
fn test_parse_transition() {
    let driver = Driver::<usize, F32>::new();
    assert_eq!(driver.parse_transition(&[ident("step")]), Ok(Transition::Step));
    assert_eq!(
        driver.parse_transition(&[ident("ease-in-out"), group(vec![num(0.4, "")])]),
        Ok(Transition::EaseInOut(s(0.4)))
    );
    assert_eq!(
        driver.parse_transition(&[ident("delay"), group(vec![num(0.4, "")])]),
        Ok(Transition::Delay(s(0.4)))
    );
    let spring = group(vec![
        num(1000.0, ""), comma(), num(500.0, ""), comma(), num(3.0, ""), comma(), ident("false"), comma(), ident("true"),
    ]);
    assert_eq!(
        driver.parse_transition(&[ident("spring"), spring]),
        Ok(Transition::Spring(SpringTransition {
            stiffness: s(1000.0),
            damping: s(500.0),
            mass: s(3.0),
            allows_overdamping: false,
            overshoot_clamping: true,
        }))
    );
    assert_eq!(driver.parse_transition(&[ident("delay")]), Err(Error::UnexpectedToken(0)));
    assert_eq!(driver.parse_transition(&[ident("delay"), ident("soon")]), Err(Error::UnexpectedToken(1)));
    assert_eq!(
        driver.parse_transition(&[ident("delay"), group(vec![num(0.4, "")]), comma()]),
        Err(Error::UnexpectedToken(2))
    );
    assert_eq!(driver.parse_transition(&[ident("bounce")]), Err(Error::UnexpectedToken(0)));
}

#[test]
fn test_parse_property() {
    let driver = Driver::<usize, F32>::new();
    assert_eq!(
        driver.parse_property(&[ident("opacity")], &[num(0.5, "")], 1, 2),
        Ok(Property { name_span: 1, value_span: 2, value: PropertyValue::Opacity(s(0.5)) })
    );
    assert_eq!(
        driver.parse_property(&[ident("color")], &[ident("red")], 7, 8),
        Err(Error::UnrecognizedProperty(7))
    );
    assert_eq!(
        driver.parse_property(&[ident("opacity")], &[ident("half")], 1, 2),
        Err(Error::Parse(ParseError::UnexpectedToken(0)))
    );
    let transform = driver.parse_property(&[ident("transform")], &[ident("none")], 1, 2).unwrap();
    assert_eq!(transform.value, PropertyValue::Transform([Transform::default(); 8]));
}

fn rule(selectors: Vec<Selector>, items: Vec<Item<usize, F32>>) -> Item<usize, F32> {
    Item::Rule(Rule { selectors_span: 0, properties_span: 0, selectors, items })
}

#[test]
fn test_automaton() {
    let items = vec![
        Item::Property(property(1, PropertyValue::Opacity(s(1.0)))),
        rule(
            vec![Selector::ClassName("background".to_string())],
            vec![
                Item::Property(property(2, PropertyValue::Opacity(s(0.5)))),
                rule(
                    vec![Selector::Ampersand, Selector::FromClassName("idle".to_string())],
                    vec![Item::Property(property(3, PropertyValue::TransitionOpacity(Transition::Delay(s(0.4)))))],
                ),
            ],
        ),
        rule(
            vec![Selector::State("initial".to_string())],
            vec![Item::Property(property(4, PropertyValue::Opacity(s(0.0))))],
        ),
    ];
    assert!(Automaton::is_buildable(&items));
    let automaton = Automaton::new(&items);
    let variants = automaton.variants();
    assert_eq!(variants.len(), 4);
    assert_eq!(variants[0].0, Edge::new(Some("idle"), Some("background")));
    assert_eq!(variants[1].0, Edge::new(None, Some("background")));
    assert_eq!(variants[2].0, Edge::new(None, Some("initial")));
    assert_eq!(variants[3].0, Edge::asterisk());

    let from_idle = automaton.style(Edge::new(Some("idle"), Some("background")));
    assert_eq!(from_idle.opacity, s(0.5));
    assert_eq!(from_idle.transitions.opacity, Transition::Delay(s(0.4)));

    let initial = automaton.style(Edge::new(None, Some("initial")));
    assert_eq!(initial.opacity, s(0.0));
    assert_eq!(initial.transitions.opacity, Transition::Step);

    let sorted = sort_variants(variants.clone());
    let precedences: Vec<usize> = sorted.iter().map(|(e, _)| e.presedence()).collect();
    assert_eq!(precedences, vec![3, 2, 2, 0]);
    assert_eq!(sorted[1].0, Edge::new(None, Some("initial")));
    assert_eq!(sorted[2].0, Edge::new(None, Some("background")));

    let codegen = Codegen::new(&sorted);
    assert_eq!(codegen.state_names(), vec!["initial", "idle", "background"]);
    assert_eq!(codegen.variant_names(), vec!["Initial".to_string(), "Idle".to_string(), "Background".to_string()]);
    assert!(!codegen.has_press());
    assert!(!codegen.has_exit());
    let arms = codegen.style_arms();
    assert_eq!(arms.len(), 3);
    assert_eq!(arms[0].0, Some("initial"));
    assert_eq!(arms[2].0, None);
    let transitions = codegen.transition_arms();
    assert_eq!(transitions[0].0, Some("idle"));
    assert_eq!(transitions[0].2.opacity, Transition::Delay(s(0.4)));
}

#[test]
fn test_edge() {
    let edge = Edge::new(Some("a"), Some("b"));
    assert_eq!(edge.presedence(), 3);
    assert_eq!(edge.without_from().presedence(), 2);
    assert_eq!(edge.without_to().presedence(), 1);
    assert_eq!(Edge::asterisk().presedence(), 0);
    assert_eq!(edge.from(), Some("a"));
    assert_eq!(edge.to(), Some("b"));
}

#[test]
fn test_unsupported_selector() {
    let items = vec![rule(vec![Selector::Ampersand], vec![])];
    assert!(!Automaton::<usize, F32>::is_buildable(&items));
    let nested = vec![rule(
        vec![Selector::State("press".to_string())],
        vec![rule(vec![], vec![])],
    )];
    assert!(!Automaton::<usize, F32>::is_buildable(&nested));
    let fine = vec![rule(
        vec![Selector::State("press".to_string())],
        vec![rule(vec![Selector::Ampersand], vec![])],
    )];
    assert!(Automaton::<usize, F32>::is_buildable(&fine));
}

#[test]
fn test_relative_default() {
    let relative = polyhorn::styles::position::Relative::<F32>::default();
    assert_eq!(relative.flex_basis, Dimension::Undefined);
    assert_eq!(relative.flex_grow, s(0.0));
    assert_eq!(relative.flex_shrink, s(1.0));
}

#[test]
fn test_error_messages() {
    assert_eq!(ParseError::TooFewArguments(0, 3).message(), "Too few arguments.");
    assert_eq!(
        ParseError::UnrecognizedUnit(0).message(),
        "Unrecognized CSS unit. Only `px` and `%` are supported at this moment."
    );
    assert_eq!(
        ParseError::Deprecated(0, 2).message(),
        "Skew has been deprecated due to ambiguous behavior."
    );
    assert_eq!(Error::<usize>::UnrecognizedProperty(4).message(), "Unrecognized property.");
    assert_eq!(Error::<usize>::Parse(ParseError::UnknownVariant(0, 1)).message(), "Unknown variant.");
    assert_eq!(
        Diagnostic::UnusedProperty(1usize).message(),
        "Property value is unused because it is later redefined."
    );
}

#[test]
fn variant_names_are_pascal_case() {
    assert_eq!(variant_name("press"), "Press");
    assert_eq!(variant_name("slide-in_out"), "SlideInOut");
}

#[test]
fn bezier_progress_and_approximation() {
    let bezier = Bezier {
        from_value: s(10.0),
        to_value: s(30.0),
        duration: s(2.0),
        control_points: [(s(0.0), s(0.0)), (s(1.0), s(1.0))],
    };
    assert_eq!(bezier.progress(s(-1.0)), s(0.0));
    assert_eq!(bezier.progress(s(1.0)), s(0.5));
    assert_eq!(bezier.progress(s(3.0)), s(1.0));
    let coeffs = bezier.coefficients();
    let middle = bezier.approximation_at(&coeffs, s(0.5), s(0.5));
    assert!((middle.value.0 - 20.0).abs() < 1e-5);
    assert!((middle.velocity.0 - 20.0).abs() < 1e-4);
    let end = bezier.approximation_at(&coeffs, s(1.0), s(1.0));
    assert!((end.value.0 - 30.0).abs() < 1e-5);
    assert_eq!(end.velocity, s(0.0));
}
