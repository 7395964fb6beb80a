//! Coercion of one cell of unknown type into display text.
//!
//! A cell is decoded as each candidate type in a fixed order: text, then the
//! signed integers of 8, 16, 32 and 64 bits, then the reals of single and
//! double precision, then boolean. The first candidate that decodes gives
//! the text; a cell that decodes as none is refused.

use crate::text::{bool_text, null_marker, null_text, render_bool, render_signed, signed_decimal};
use vstd::prelude::*;
use vstd::string::*;

verus! {

/// What decoding a cell as one candidate type gave.
pub enum Probe<T> {
    /// The cell does not decode as this type.
    Failed,
    /// The cell decodes and holds no value.
    Null,
    /// The cell decodes to this value.
    Value(T),
}

/// What decoding a cell as each candidate type gave. A real arrives as the
/// display text of its value.
pub struct Probes {
    pub text: Probe<String>,
    pub tiny: Probe<i8>,
    pub small: Probe<i16>,
    pub int: Probe<i32>,
    pub big: Probe<i64>,
    pub single: Probe<String>,
    pub double: Probe<String>,
    pub boolean: Probe<bool>,
}

/// What [`Probes`] holds, as plain values.
pub struct ProbesView {
    pub text: Probe<Seq<char>>,
    pub tiny: Probe<int>,
    pub small: Probe<int>,
    pub int: Probe<int>,
    pub big: Probe<int>,
    pub single: Probe<Seq<char>>,
    pub double: Probe<Seq<char>>,
    pub boolean: Probe<bool>,
}

/// The text of a probe for a string.
pub open spec fn text_view(probe: Probe<String>) -> Probe<Seq<char>> {
    match probe {
        Probe::Failed => Probe::Failed,
        Probe::Null => Probe::Null,
        Probe::Value(text) => Probe::Value(text@),
    }
}

/// A probe for an 8-bit integer, as a probe for an integer.
pub open spec fn tiny_view(probe: Probe<i8>) -> Probe<int> {
    match probe {
        Probe::Failed => Probe::Failed,
        Probe::Null => Probe::Null,
        Probe::Value(v) => Probe::Value(v as int),
    }
}

/// A probe for a 16-bit integer, as a probe for an integer.
pub open spec fn small_view(probe: Probe<i16>) -> Probe<int> {
    match probe {
        Probe::Failed => Probe::Failed,
        Probe::Null => Probe::Null,
        Probe::Value(v) => Probe::Value(v as int),
    }
}

/// A probe for a 32-bit integer, as a probe for an integer.
pub open spec fn int_view(probe: Probe<i32>) -> Probe<int> {
    match probe {
        Probe::Failed => Probe::Failed,
        Probe::Null => Probe::Null,
        Probe::Value(v) => Probe::Value(v as int),
    }
}

/// A probe for a 64-bit integer, as a probe for an integer.
pub open spec fn big_view(probe: Probe<i64>) -> Probe<int> {
    match probe {
        Probe::Failed => Probe::Failed,
        Probe::Null => Probe::Null,
        Probe::Value(v) => Probe::Value(v as int),
    }
}

impl View for Probes {
    type V = ProbesView;

    open spec fn view(&self) -> ProbesView {
        ProbesView {
            text: text_view(self.text),
            tiny: tiny_view(self.tiny),
            small: small_view(self.small),
            int: int_view(self.int),
            big: big_view(self.big),
            single: text_view(self.single),
            double: text_view(self.double),
            boolean: self.boolean,
        }
    }
}

/// The display text of a decoded text or real: the text itself, or the null
/// marker.
pub open spec fn shown_text(probe: Probe<Seq<char>>) -> Seq<char> {
    match probe {
        Probe::Value(text) => text,
        _ => null_text(),
    }
}

/// The display text of a decoded integer: its decimal text, or the null
/// marker.
pub open spec fn shown_integer(probe: Probe<int>) -> Seq<char> {
    match probe {
        Probe::Value(v) => signed_decimal(v),
        _ => null_text(),
    }
}

/// The display text of a decoded boolean: `true` or `false`, or the null
/// marker.
pub open spec fn shown_boolean(probe: Probe<bool>) -> Seq<char> {
    match probe {
        Probe::Value(b) => bool_text(b),
        _ => null_text(),
    }
}

/// The display text of a cell: that of the first candidate that decoded, or
/// `None` where none did.
pub open spec fn coerced(probes: ProbesView) -> Option<Seq<char>> {
    if probes.text !is Failed {
        Some(shown_text(probes.text))
    } else if probes.tiny !is Failed {
        Some(shown_integer(probes.tiny))
    } else if probes.small !is Failed {
        Some(shown_integer(probes.small))
    } else if probes.int !is Failed {
        Some(shown_integer(probes.int))
    } else if probes.big !is Failed {
        Some(shown_integer(probes.big))
    } else if probes.single !is Failed {
        Some(shown_text(probes.single))
    } else if probes.double !is Failed {
        Some(shown_text(probes.double))
    } else if probes.boolean !is Failed {
        Some(shown_boolean(probes.boolean))
    } else {
        None
    }
}

/// Whether no candidate type decodes the cell.
pub open spec fn all_failed(probes: ProbesView) -> bool {
    &&& probes.text is Failed
    &&& probes.tiny is Failed
    &&& probes.small is Failed
    &&& probes.int is Failed
    &&& probes.big is Failed
    &&& probes.single is Failed
    &&& probes.double is Failed
    &&& probes.boolean is Failed
}

/// A cell is refused if and only if no candidate type decodes it.
pub proof fn lemma_refused_iff_all_failed(probes: ProbesView)
    ensures
        coerced(probes) is None <==> all_failed(probes),
{
}

/// A cell without a value is shown as the null marker, whichever candidate
/// type is the first to decode it.
pub proof fn lemma_absent_value_is_null(probes: ProbesView)
    ensures
        probes.text is Null ==> coerced(probes) == Some(null_text()),
        probes.text is Failed && probes.tiny is Null ==> coerced(probes) == Some(null_text()),
        probes.text is Failed && probes.tiny is Failed && probes.small is Null ==> coerced(probes)
            == Some(null_text()),
        probes.text is Failed && probes.tiny is Failed && probes.small is Failed && probes.int
            is Null ==> coerced(probes) == Some(null_text()),
        probes.text is Failed && probes.tiny is Failed && probes.small is Failed && probes.int
            is Failed && probes.big is Null ==> coerced(probes) == Some(null_text()),
        probes.text is Failed && probes.tiny is Failed && probes.small is Failed && probes.int
            is Failed && probes.big is Failed && probes.single is Null ==> coerced(probes) == Some(
            null_text(),
        ),
        probes.text is Failed && probes.tiny is Failed && probes.small is Failed && probes.int
            is Failed && probes.big is Failed && probes.single is Failed && probes.double is Null
            ==> coerced(probes) == Some(null_text()),
        probes.text is Failed && probes.tiny is Failed && probes.small is Failed && probes.int
            is Failed && probes.big is Failed && probes.single is Failed && probes.double is Failed
            && probes.boolean is Null ==> coerced(probes) == Some(null_text()),
{
}

/// A value is shown as the text of the first candidate type that decodes
/// the cell: a text as it is, an integer in decimal, a real as the caller
/// rendered it, a boolean as `true` or `false`.
pub proof fn lemma_present_value_is_shown(probes: ProbesView)
    ensures
        probes.text matches Probe::Value(v) ==> coerced(probes) == Some(v),
        probes.text is Failed ==> (probes.tiny matches Probe::Value(v) ==> coerced(probes) == Some(
            signed_decimal(v),
        )),
        probes.text is Failed && probes.tiny is Failed ==> (probes.small matches Probe::Value(v)
            ==> coerced(probes) == Some(signed_decimal(v))),
        probes.text is Failed && probes.tiny is Failed && probes.small is Failed ==> (
        probes.int matches Probe::Value(v) ==> coerced(probes) == Some(signed_decimal(v))),
        probes.text is Failed && probes.tiny is Failed && probes.small is Failed && probes.int
            is Failed ==> (probes.big matches Probe::Value(v) ==> coerced(probes) == Some(
            signed_decimal(v),
        )),
        probes.text is Failed && probes.tiny is Failed && probes.small is Failed && probes.int
            is Failed && probes.big is Failed ==> (probes.single matches Probe::Value(v)
            ==> coerced(probes) == Some(v)),
        probes.text is Failed && probes.tiny is Failed && probes.small is Failed && probes.int
            is Failed && probes.big is Failed && probes.single is Failed ==> (
        probes.double matches Probe::Value(v) ==> coerced(probes) == Some(v)),
        probes.text is Failed && probes.tiny is Failed && probes.small is Failed && probes.int
            is Failed && probes.big is Failed && probes.single is Failed && probes.double is Failed
            ==> (probes.boolean matches Probe::Value(v) ==> coerced(probes) == Some(bool_text(v))),
{
}

/// A cell that decodes as none of the candidate types.
pub struct UnsupportedColumnType {
    /// Name of the column the cell stands in.
    pub column: String,
    /// Name the driver gives to the type of the column.
    pub reported_type: String,
}

/// The message of [`UnsupportedColumnType`] for a column and its type.
pub open spec fn unsupported_message(column: Seq<char>, reported_type: Seq<char>) -> Seq<char> {
    "column type not implemented: `"@ + column + "` "@ + reported_type
}

impl UnsupportedColumnType {
    /// The error for a column and the name of its type.
    pub fn new(column: &str, reported_type: &str) -> (error: UnsupportedColumnType)
        ensures
            error.column@ == column@,
            error.reported_type@ == reported_type@,
    {
        UnsupportedColumnType {
            column: String::from_str(column),
            reported_type: String::from_str(reported_type),
        }
    }

    /// What the error says: the column and the type that was not decoded.
    pub fn message(&self) -> (text: String)
        ensures
            text@ == unsupported_message(self.column@, self.reported_type@),
    {
        let mut text = String::from_str("column type not implemented: `");
        text.append(self.column.as_str());
        text.append("` ");
        text.append(self.reported_type.as_str());
        text
    }
}

/// Coerces a cell to display text from what decoding it gave: the text of
/// the first candidate that decoded, and an error that names the column and
/// its type where none did.
pub fn coerce(column: &str, reported_type: &str, probes: &Probes) -> (result: Result<
    String,
    UnsupportedColumnType,
>)
    ensures
        match coerced(probes@) {
            Some(text) => result matches Ok(shown) && shown@ == text,
            None => result matches Err(error) && error.column@ == column@ && error.reported_type@
                == reported_type@,
        },
{
    match &probes.text {
        Probe::Value(v) => {
            return Ok(v.clone());
        },
        Probe::Null => {
            return Ok(null_marker());
        },
        Probe::Failed => {},
    }
    match probes.tiny {
        Probe::Value(v) => {
            return Ok(render_signed(v as i64));
        },
        Probe::Null => {
            return Ok(null_marker());
        },
        Probe::Failed => {},
    }
    match probes.small {
        Probe::Value(v) => {
            return Ok(render_signed(v as i64));
        },
        Probe::Null => {
            return Ok(null_marker());
        },
        Probe::Failed => {},
    }
    match probes.int {
        Probe::Value(v) => {
            return Ok(render_signed(v as i64));
        },
        Probe::Null => {
            return Ok(null_marker());
        },
        Probe::Failed => {},
    }
    match probes.big {
        Probe::Value(v) => {
            return Ok(render_signed(v));
        },
        Probe::Null => {
            return Ok(null_marker());
        },
        Probe::Failed => {},
    }
    match &probes.single {
        Probe::Value(v) => {
            return Ok(v.clone());
        },
        Probe::Null => {
            return Ok(null_marker());
        },
        Probe::Failed => {},
    }
    match &probes.double {
        Probe::Value(v) => {
            return Ok(v.clone());
        },
        Probe::Null => {
            return Ok(null_marker());
        },
        Probe::Failed => {},
    }
    match probes.boolean {
        Probe::Value(v) => {
            return Ok(render_bool(v));
        },
        Probe::Null => {
            return Ok(null_marker());
        },
        Probe::Failed => {},
    }
    Err(UnsupportedColumnType::new(column, reported_type))
}

} // verus!
