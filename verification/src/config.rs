use vstd::prelude::*;

use crate::geometry::MAX_DIMENSION;

verus! {

/// Default window width in logical pixels, applied when configuration is
/// absent.
pub const DEFAULT_WIDTH: i64 = 400;

/// Default window height in logical pixels, applied when configuration is
/// absent.
pub const DEFAULT_HEIGHT: i64 = 500;

/// The window-size configuration as plain integers: what the configuration
/// service answered for `window_width` and `window_height`, `None` where the
/// key is absent or held no integer.
#[derive(Clone, Copy, Debug, PartialEq, Eq)]
pub struct WindowConfig {
    pub window_width: Option<i64>,
    pub window_height: Option<i64>,
}

impl WindowConfig {
    /// A configuration with neither key present: both defaults apply.
    pub fn empty() -> (r: WindowConfig)
        ensures
            r.window_width is None,
            r.window_height is None,
    {
        WindowConfig { window_width: None, window_height: None }
    }
}

/// What one configured dimension resolves to: the configured value where it
/// is a usable size (strictly positive, within the core's cap), the default
/// otherwise.
pub open spec fn resolved_dimension(raw: Option<i64>, default: i64) -> int {
    match raw {
        Some(v) => if 1 <= v <= MAX_DIMENSION {
            v as int
        } else {
            default as int
        },
        None => default as int,
    }
}

/// Resolves one configured dimension against its default. Values outside
/// `1..=MAX_DIMENSION` are ignored in favor of the default, which keeps the
/// strictly-positive size invariant.
pub fn dimension_or_default(raw: Option<i64>, default: i64) -> (r: i64)
    requires
        1 <= default <= MAX_DIMENSION,
    ensures
        r == resolved_dimension(raw, default),
        1 <= r <= MAX_DIMENSION,
{
    match raw {
        Some(v) => if 1 <= v && v <= MAX_DIMENSION {
            v
        } else {
            default
        },
        None => default,
    }
}

/// The configured window size with the `400 x 500` defaults applied, width
/// first.
pub fn get_window_size(config: &WindowConfig) -> (r: (i64, i64))
    ensures
        r.0 == resolved_dimension(config.window_width, DEFAULT_WIDTH),
        r.1 == resolved_dimension(config.window_height, DEFAULT_HEIGHT),
        1 <= r.0 <= MAX_DIMENSION,
        1 <= r.1 <= MAX_DIMENSION,
{
    let width = dimension_or_default(config.window_width, DEFAULT_WIDTH);
    let height = dimension_or_default(config.window_height, DEFAULT_HEIGHT);
    (width, height)
}

#[verifier::external_type_specification]
#[verifier::external_body]
pub struct ExTomlValue(toml::Value);

/// What `toml::Value::as_integer` extracts from a configuration value: the
/// payload of the integer variant, `None` for every other variant. The TOML
/// value is opaque here, so the extraction has a name rather than a
/// definition.
pub uninterp spec fn integer_of(value: toml::Value) -> Option<i64>;

/// Relies on toml::Value::as_integer: `Some(i)` exactly when the value is
/// the TOML integer `i`, `None` for every other variant; the result is a
/// match on the value's variant and depends on the value alone.
#[verifier::external_body]
fn value_as_integer(value: &toml::Value) -> (r: Option<i64>)
    ensures
        r == integer_of(*value),
{
    value.as_integer()
}

/// Reads one window dimension out of a configuration service answer. `None`
/// stands for an absent key; a present value that is not a usable integer
/// size falls back to the default, so the result is always a valid
/// dimension.
pub fn dimension_from_value(value: Option<&toml::Value>, default: i64) -> (r: i64)
    requires
        1 <= default <= MAX_DIMENSION,
    ensures
        1 <= r <= MAX_DIMENSION,
        value matches Some(v) ==> r == resolved_dimension(integer_of(*v), default),
        value is None ==> r == default,
{
    let raw: Option<i64> = match value {
        Some(v) => value_as_integer(v),
        None => None,
    };
    dimension_or_default(raw, default)
}

} // verus!
