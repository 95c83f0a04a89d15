//! App activation helpers: normalizing a display label into a canonical
//! app id, and composing the toast message shown for an activation.

use vstd::prelude::*;

use crate::str_eq;

verus! {

/// The canonical app id for a display label. A fixed table maps the English
/// keyword and its localized label to one slug; any other label passes
/// through unchanged as its own id, never partially transformed.
pub open spec fn spec_normalize(label: Seq<char>) -> Seq<char> {
    if label == "settings"@ || label == "Настройки"@ {
        "settings"@
    } else if label == "terminal"@ || label == "Терминал"@ {
        "terminal"@
    } else if label == "apps"@ || label == "Приложения"@ {
        "apps"@
    } else {
        label
    }
}

/// Normalizes a tile label to its canonical app id.
pub fn normalize_app_id<'a>(raw: &'a str) -> (r: &'a str)
    ensures
        r@ == spec_normalize(raw@),
{
    if str_eq(raw, "settings") || str_eq(raw, "Настройки") {
        "settings"
    } else if str_eq(raw, "terminal") || str_eq(raw, "Терминал") {
        "terminal"
    } else if str_eq(raw, "apps") || str_eq(raw, "Приложения") {
        "apps"
    } else {
        raw
    }
}

/// The toast message for an activation: the fixed prefix followed by the
/// original, unnormalized label (the toast shows what the user saw).
pub open spec fn spec_toast_text(label: Seq<char>) -> Seq<char> {
    "Открыто: "@ + label
}

/// Composes the toast message for the given label.
pub fn toast_message(label: &str) -> (r: String)
    ensures
        r@ == spec_toast_text(label@),
{
    let mut out = String::from_str("Открыто: ");
    out.append(label);
    out
}

} // verus!
