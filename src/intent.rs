use vstd::prelude::*;

use crate::text::{has_prefix, split_words, starts_with_text, same_text, trim, trimmed, words};

verus! {

/// What one line typed at the command prompt asks for.
#[derive(Clone, Debug)]
pub enum Intent {
    /// `p`: show the latest status.
    PrintStatus,
    /// `soc_max`: ask for a value, then command it as the upper state of charge.
    SetMaxSoc,
    /// `soc_min`: ask for a value, then command it as the lower state of charge.
    SetMinSoc,
    /// `get <key>`: read one configuration value from the remote service.
    ConfigGet { key: String },
    /// `set <key> <value>`: write one configuration value.
    ConfigSet { key: String, value: String },
    /// `exit`: leave the prompt.
    Quit,
    /// `set` without both a key and a value.
    Malformed,
    /// Anything else.
    Unknown,
}

/// The mathematical value of an [`Intent`]: the same variants, over texts.
pub enum IntentModel {
    PrintStatus,
    SetMaxSoc,
    SetMinSoc,
    ConfigGet { key: Seq<char> },
    ConfigSet { key: Seq<char>, value: Seq<char> },
    Quit,
    Malformed,
    Unknown,
}

impl View for Intent {
    type V = IntentModel;

    open spec fn view(&self) -> IntentModel {
        match self {
            Intent::PrintStatus => IntentModel::PrintStatus,
            Intent::SetMaxSoc => IntentModel::SetMaxSoc,
            Intent::SetMinSoc => IntentModel::SetMinSoc,
            Intent::ConfigGet { key } => IntentModel::ConfigGet { key: key@ },
            Intent::ConfigSet { key, value } => IntentModel::ConfigSet { key: key@, value: value@ },
            Intent::Quit => IntentModel::Quit,
            Intent::Malformed => IntentModel::Malformed,
            Intent::Unknown => IntentModel::Unknown,
        }
    }
}

/// What `line` asks for. The whole trimmed line must be `p`, `soc_max`,
/// `soc_min` or `exit`; `get ` and `set ` are prefixes of the trimmed line,
/// whose second and third words are then the key and the value (further words
/// are ignored).
pub open spec fn intent_of(line: Seq<char>) -> IntentModel {
    let t = trim(line);
    let w = words(line);
    if t == "p"@ {
        IntentModel::PrintStatus
    } else if t == "soc_max"@ {
        IntentModel::SetMaxSoc
    } else if t == "soc_min"@ {
        IntentModel::SetMinSoc
    } else if has_prefix(t, "get "@) {
        if w.len() >= 2 {
            IntentModel::ConfigGet { key: w[1] }
        } else {
            IntentModel::Malformed
        }
    } else if has_prefix(t, "set "@) {
        if w.len() >= 3 {
            IntentModel::ConfigSet { key: w[1], value: w[2] }
        } else {
            IntentModel::Malformed
        }
    } else if t == "exit"@ {
        IntentModel::Quit
    } else {
        IntentModel::Unknown
    }
}

/// Reads one line of operator input as an [`Intent`].
pub fn parse_intent(line: &str) -> (r: Intent)
    ensures
        r@ == intent_of(line@),
{
    let t = trimmed(line);
    if same_text(t, "p") {
        Intent::PrintStatus
    } else if same_text(t, "soc_max") {
        Intent::SetMaxSoc
    } else if same_text(t, "soc_min") {
        Intent::SetMinSoc
    } else if starts_with_text(t, "get ") {
        let w = split_words(line);
        if w.len() >= 2 {
            assert(w@.map_values(|s: String| s@)[1] == w@[1]@);
            Intent::ConfigGet { key: w[1].clone() }
        } else {
            Intent::Malformed
        }
    } else if starts_with_text(t, "set ") {
        let w = split_words(line);
        if w.len() >= 3 {
            assert(w@.map_values(|s: String| s@)[1] == w@[1]@);
            assert(w@.map_values(|s: String| s@)[2] == w@[2]@);
            Intent::ConfigSet { key: w[1].clone(), value: w[2].clone() }
        } else {
            Intent::Malformed
        }
    } else if same_text(t, "exit") {
        Intent::Quit
    } else {
        Intent::Unknown
    }
}

} // verus!
