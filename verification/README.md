# niri_hdr

The verified core of an HDR colour-management stack for a Wayland compositor.

- `src/icc.rs` — ICC v2/v4 display-profile parsing on raw bytes: header fields,
  tag table, colorants, white point and ASCII description, with the sRGB/D65
  fallback. Fixed-point values are kept exactly as rationals.
- `src/edid.rs` — HDR capabilities from a display's HDR static metadata, and
  the suggested KDL configuration block.
- `src/color_management.rs` — image descriptions and the per-output and
  per-surface description state, with its read-after-write laws.
- `src/hdr_output.rs` — which texture program and uniforms an HDR render
  element installs before drawing.
- `src/ieee.rs` — binary32/binary64 values carried by their bit patterns.

`app/` holds what stays outside verification: reading profiles from disk,
logging, the floating-point matrix math, EDID decoding, and the mapping of the
compositor's outputs and surfaces to the library's integer handles.

The `Element`/`RenderElement` impls of the HDR render elements (geometry,
damage and drawing delegated to the wrapped element, program override around
the draw, no direct scanout) are not in `app/`: they are written against the
compositor's own renderer and element types, which this crate does not have.
The no-op corner-clipping uniforms that an unclipped element passes are
supplied by that compositor code, which knows the shader's uniform names.
