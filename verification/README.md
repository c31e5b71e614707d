# polyhorn

The verified core of the Polyhorn UI toolkit, written in Verus.

`src/` is the library; every function in it carries a contract that Verus
proves:

- `linalg`: 3D transformation matrices, quaternions, and the decomposition of
  a matrix into translation, scale, skew, perspective and rotation, with its
  interpolation and recomposition. `linalg::laws` states algebraic
  properties of these operations. Each law names the arithmetic facts it
  rests on as hypotheses (`unit_laws`, `zero_angle_laws`, `arc_laws`, and
  `start_laws` for springs), stated with exact equality: the laws hold for
  number types that meet those facts exactly. IEEE floats do not (adding
  `-0.0` and `0.0` gives `0.0`, `-1 * 0` gives `-0.0`, and trigonometric
  identities hold only up to rounding), so for floats the laws describe the
  computation up to rounding, and are not proved of it.
- `scalar`: the number type that all numeric code is generic over. The
  contracts say which arithmetic expression each routine evaluates; an
  application instantiates it with a float.
- `styles`, `geometry`, `layout`, `physics`: style values and their keywords,
  CSS transforms and the builder that compresses them, dimensions, sizes and
  angles.
- `macros::style`: `style! { .. }`: property names and style inference, the
  parser of property values (which reads a slice of tokens), the driver that
  reads a property from its name and value, and the style builder, in which
  a later property overrides an earlier one of its kind and each overridden
  property is reported.
- `animation`: curves (springs, decays, delays, cubic Bezier coefficients),
  rest thresholds and the sampler that steps through a curve.
- `yoyo`: the animation variants of `yoyo! { .. }`: selectors, properties,
  the style builder in which a later property overrides an earlier one, the
  automaton of edges between states, and what the generated code declares.
- `taxi`: navigation state: the stack of screens, modal screens and tabs.
- `cli`: the decisions of the `polyhorn` launcher.

`app/` holds what the library leaves to ordinary Rust: the launcher's `main`
(arguments, files, processes), the float type, Bezier easing (which solves
for its parameter by float iteration) and the generation of Rust tokens for
`yoyo!` variants.

`tests/` runs the library on concrete values.
