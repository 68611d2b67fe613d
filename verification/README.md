# palette

Color types and the calculations between them, with their behaviour stated in
contracts and proved.

## Layout

- `src/` is the verified library. It holds the color types (HSV, HWB, HSLuv,
  CIE L\*a\*b\* and L\*C\*h°, L\*C\*uv h°, LMS, luma, Oklab, Oklch, Oklrab,
  Oklrch, Okhsl, Okhsv, Okhwb), the hue types, the alpha wrapper, component
  conversions between integer types, angle normalization, 3x3 matrix
  operations (products, the inverse, and the RGB to XYZ matrix built from
  primaries and a white point), and the traits that tie them together.
  Component arithmetic, clamping, mixing, hue handling and the conversions
  that need no floating point are specified over the operator specifications
  of the component type, which are exact for the primitive integers. The laws
  that relate them are proof functions next to the code they speak of: round
  trips of components and conversions, clamping gives valid colors (for the
  generic clamps in any total order, and for HWB and Okhwb with `u32`
  components, where clamping divides), mixing ends at its two colors, and
  normalized angles stay in their range and keep their direction (`i32` and
  `i64`). For `i128` elements, where the reciprocal of the determinant is
  exact (`determinant * reciprocal == 1`), a matrix times the inverse that
  `matrix_inverse` builds is the unit matrix, and the RGB to XYZ matrix maps
  RGB white to the white point. Hues compare equal when their angles differ
  by whole turns (`i32` and `i64` angles), and the colors with hues compare
  their hues that way.
- `tests/` runs the library on concrete values.
- `app/` holds what works with floats (component conversions between float
  and integer types, the Okhsl and Okhsv gamut approximations, polar and
  cartesian conversions, L\*a\*b\* from XYZ, the CIEDE2000 color difference,
  lightening and saturating by float factors, the von Kries and Bradford
  matrices) and serializable copies of the color types.
