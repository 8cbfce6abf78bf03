# labcolors_core

Verified core of the Lab Colors runtime, written in Verus.

`src/` is the library; every function in it carries a contract that Verus
proves. Floating-point values that the library only classifies, orders or
carries are held as binary64 bit patterns (`f64::to_bits`), and the
arithmetic that produces them stays with the callers.

| module | what it holds |
| --- | --- |
| `binary64` | reading sign, exponent and magnitude from a binary64 pattern; the nearest-value characterisation of a rational |
| `hex` | exact sRGB8 colours, `#RRGGBB` parsing and printing, decimal text |
| `sha256` | SHA-256, proved against its specification |
| `field_effect`, `field_technical_quality`, `field_presentation` | content-addressed whole-field evidence and the exact/conservative footprint taxonomy |
| `glow` | wire keys, the exact encoded-sRGB8 screen no-op predicate, the stable decision, the legacy target-or-first-maximum selection, the glow source plan and the correctly rounded boundary seed |
| `glow_stream` | the search for each channel's first passing alpha and the bookkeeping of the stream of reachable sRGB8 states, around a caller's binary64 compositor, with the whole-run history law |
| `ladder`, `material` | per-theme anchor selection, ladder keys, backdrop boxes and material guarantee keys |
| `incremental_runtime` | stamps, stamp transitions and the phase state machine |
| `joint`, `joint_preflight` | mixed-radix joint orders: materialisation, admission, cardinality preflight |
| `lcs_occurrence`, `lcs_freeze` | context-bound LCS occurrence identity, modeled provenance, derived views, the frozen release |
| `rust_source` | comment-free view of Rust source text for architecture guards |

`tests/` exercises the library on concrete values. `app/` holds the
binary64 parts of the glow and ladder recipes (the screen composite that
answers the stream's probes, ramp alphas, refusal texts that print a
binary64 value), which call into the library.
