//! The per-block configuration, a JSON value, and the one entry of it that a
//! remote-call block reads: the `use_cache` toggle.

use serde_json::Value;
use vstd::prelude::*;

verus! {

/// A JSON value of `serde_json`. Nothing of its inside is visible here: it is
/// read through [`member`] and [`as_bool`] and otherwise carried along.
#[verifier::external_type_specification]
#[verifier::external_body]
pub struct ExValue(serde_json::Value);

/// The entry that a JSON value holds under the string key `key`: `None`
/// unless the value is an object that has the key.
pub uninterp spec fn json_member(value: Value, key: Seq<char>) -> Option<Value>;

/// The boolean that a JSON value is: `None` unless it is `true` or `false`.
pub uninterp spec fn json_bool(value: Value) -> Option<bool>;

/// `serde_json::Value::get` with a string index: the entry under `key` where
/// `value` is an object that has the key, and `None` for every other value.
#[verifier::external_body]
fn member<'a>(value: &'a Value, key: &str) -> (entry: Option<&'a Value>)
    ensures
        match entry {
            Some(entry) => json_member(*value, key@) == Some(*entry),
            None => json_member(*value, key@) is None,
        },
{
    value.get(key)
}

/// `serde_json::Value::as_bool`: the boolean where `value` is one, and `None`
/// for every other value.
#[verifier::external_body]
fn as_bool(value: &Value) -> (flag: Option<bool>)
    ensures
        flag == json_bool(*value),
{
    value.as_bool()
}

/// `Clone` for `serde_json::Value`: the copy is the same JSON value.
pub assume_specification[ <serde_json::Value as Clone>::clone ](value: &Value) -> (copy: Value)
    ensures
        copy == *value,
;

/// The key of the cache toggle in a block's configuration.
pub open spec fn toggle_key() -> Seq<char> {
    "use_cache"@
}

/// What a block's configuration says of the cache: the boolean under
/// `use_cache`, where there is a configuration, it has that entry and the
/// entry is a boolean.
pub open spec fn cache_toggle(config: Option<Value>) -> Option<bool> {
    match config {
        Some(config) => match json_member(config, toggle_key()) {
            Some(entry) => json_bool(entry),
            None => None,
        },
        None => None,
    }
}

/// The policy for a missing toggle: the cache is used unless the
/// configuration says `false`.
pub open spec fn default_on(toggle: Option<bool>) -> bool {
    match toggle {
        Some(flag) => flag,
        None => true,
    }
}

/// Whether the block with this configuration uses the cache.
pub open spec fn use_cache_of(config: Option<Value>) -> bool {
    default_on(cache_toggle(config))
}

/// The value behind an optional reference.
pub open spec fn deref_option(config: Option<&Value>) -> Option<Value> {
    match config {
        Some(config) => Some(*config),
        None => None,
    }
}

/// Reads the cache toggle out of a block's configuration.
pub fn read_cache_toggle(config: Option<&Value>) -> (toggle: Option<bool>)
    ensures
        toggle == cache_toggle(deref_option(config)),
{
    match config {
        Some(config) => match member(config, "use_cache") {
            Some(entry) => as_bool(entry),
            None => None,
        },
        None => None,
    }
}

/// Applies the policy for a missing toggle.
pub fn use_cache_or_default(toggle: Option<bool>) -> (flag: bool)
    ensures
        flag == default_on(toggle),
{
    match toggle {
        Some(flag) => flag,
        None => true,
    }
}

/// Decides whether the block with this configuration uses the cache: it
/// does, unless the configuration holds the boolean `false` under
/// `use_cache`.
pub fn resolve_use_cache(config: Option<&Value>) -> (flag: bool)
    ensures
        flag == use_cache_of(deref_option(config)),
{
    use_cache_or_default(read_cache_toggle(config))
}

/// Without a boolean under `use_cache` the cache is used: where the block
/// has no configuration, where the configuration lacks the entry, and where
/// the entry is no boolean.
pub proof fn cache_is_used_by_default(config: Option<Value>)
    requires
        config is None || json_member(config->0, toggle_key()) is None || json_bool(
            json_member(config->0, toggle_key())->0,
        ) is None,
    ensures
        use_cache_of(config),
{
}

/// With a boolean under `use_cache` that boolean decides.
pub proof fn cache_toggle_decides(config: Value, entry: Value, flag: bool)
    requires
        json_member(config, toggle_key()) == Some(entry),
        json_bool(entry) == Some(flag),
    ensures
        use_cache_of(Some(config)) == flag,
{
}

} // verus!
