//! The configuration dump's decisions: how a stored item's value is to be
//! produced, and which vault secret a secret identifier names.  Talking to
//! the configuration store and to the vault stays outside the library.

use vstd::prelude::*;

use crate::text::spec_contains;
use crate::text::spec_tail_after_slash;
use crate::text::str_contains;
use crate::text::tail_after_last_slash;

verus! {

/// How one configuration item's value is to be produced.
#[derive(Debug, PartialEq, Eq)]
pub enum ConfigValue {
    /// The item carries no value: an error for the caller to report.
    Missing,
    /// The stored text is the value itself.
    Plain(String),
    /// The stored text is a reference document naming a vault secret; the
    /// value must be fetched from the vault.
    VaultReference(String),
}

/// Whether a content type marks an item as a key-vault reference.
pub open spec fn spec_is_vault_reference(content_type: Option<Seq<char>>) -> bool {
    content_type matches Some(ct) && spec_contains(ct, "keyvaultref"@)
}

/// Classifies one configuration item by its stored text and content type:
/// an item without text is an error; one whose content type names the
/// key-vault reference format is resolved through the vault; any other
/// item's text is the value itself.
pub fn classify_config_value(value: Option<&String>, content_type: Option<&String>) -> (r:
    ConfigValue)
    ensures
        (r is Missing) <==> value is None,
        (r is VaultReference) <==> (value is Some && spec_is_vault_reference(
            match content_type {
                Some(ct) => Some(ct@),
                None => None,
            },
        )),
        r matches ConfigValue::VaultReference(t) ==> (value matches Some(v) && t@ == v@),
        r matches ConfigValue::Plain(t) ==> (value matches Some(v) && t@ == v@),
{
    let v = match value {
        None => {
            return ConfigValue::Missing;
        },
        Some(v) => v,
    };
    match content_type {
        Some(ct) => {
            if str_contains(ct.as_str(), "keyvaultref") {
                ConfigValue::VaultReference(v.clone())
            } else {
                ConfigValue::Plain(v.clone())
            }
        },
        None => ConfigValue::Plain(v.clone()),
    }
}

/// The vault secret a secret identifier's path names: the text after the
/// final slash; an identifier whose path ends in a slash, or is empty,
/// names none.
pub fn secret_name_from_path(path: &str) -> (r: Option<String>)
    ensures
        (r is Some) <==> spec_tail_after_slash(path@).len() > 0,
        r matches Some(n) ==> n@ == spec_tail_after_slash(path@),
{
    let tail = tail_after_last_slash(path);
    if tail.unicode_len() == 0 {
        None
    } else {
        Some(tail.to_owned())
    }
}

} // verus!
