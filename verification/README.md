# spectrace

A small spectral renderer, split in two:

- `src/` is the verified library.
  - `math`: the generic vectors `Vec2<T>` and `Vec3<T>` with their arithmetic
    (dot and cross products, lengths, normalisation, interpolation, scalar and
    vector operators). Each operation is specified through the specifications
    that `vstd` gives the scalar operators of `T` (`add_spec`, `mul_spec`, ...),
    so for integer scalars every result is pinned down exactly; for any other
    scalar type each result is stated as what `T`'s own operators return.
    `math::laws` proves algebraic laws of these operations.
  - `spectrum`: the wavelength grid that is sampled, the lookup of tabulated
    spectra, and the choice between a daylight table row, an interpolation
    between two rows, or zero.
- `app/` is the renderer itself: it works on `f64` (through the scalar type
  `Real`), reads the CIE tables from `cie/xyz.csv` and `cie/daylight.csv`, and
  writes `render.png`.
