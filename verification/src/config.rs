//! Decoding the untyped configuration value into typed settings.
//!
//! The host runtime hands over an opaque configuration value.  The decoder
//! only ever reads three things of it: whether it is an object, whether that
//! object has a `repository` member, and whether that member is a string.
//! [`ConfigValue`] models the value to exactly that depth, as plain data.

use vstd::prelude::*;

verus! {

use crate::error::Error;
use vstd::string::StringExecFns;

/// A configuration value, modelled to the depth the decoder reads it.
pub enum ConfigValue {
    /// An object: a sequence of members in source order.  Keys are not
    /// assumed unique; the first `repository` member wins.
    Object(Vec<ConfigEntry>),
    /// Any non-object value (string, number, array, ...).
    Other,
}

/// One member of a configuration object.
pub struct ConfigEntry {
    pub key: String,
    pub value: FieldValue,
}

/// The value of one configuration member, to the depth the decoder reads it.
pub enum FieldValue {
    /// A string value.
    Text(String),
    /// A value of any other type.
    Other,
}

/// The typed settings record: the configured repository path, passed through
/// verbatim (no trimming, no normalization).
pub struct Settings {
    pub repository: String,
}

/// The value of the first `repository` member of an object's members, if any.
pub open spec fn find_repository(entries: Seq<ConfigEntry>) -> Option<FieldValue>
    decreases entries.len(),
{
    if entries.len() == 0 {
        None
    } else if entries[0].key@ == "repository"@ {
        Some(entries[0].value)
    } else {
        find_repository(entries.drop_first())
    }
}

/// The repository string a configuration value decodes to, when it has the
/// expected shape: an object with a string-valued `repository` member.
pub open spec fn decoded_repository(config: Option<ConfigValue>) -> Option<Seq<char>> {
    match config {
        Some(ConfigValue::Object(entries)) => match find_repository(entries@) {
            Some(FieldValue::Text(s)) => Some(s@),
            _ => None,
        },
        _ => None,
    }
}

/// The decode-error detail reported for a present but malformed value.
pub open spec fn invalid_detail(config: ConfigValue) -> Seq<char> {
    match config {
        ConfigValue::Object(entries) => match find_repository(entries@) {
            Some(FieldValue::Text(_)) => Seq::empty(),
            Some(FieldValue::Other) => "the `repository` field must be a string"@,
            None => "missing field `repository`"@,
        },
        ConfigValue::Other => "expected a configuration object"@,
    }
}

/// Decodes an optional untyped configuration value into a [`Settings`]
/// record.  An absent value fails with [`Error::MissingConfiguration`]; a
/// present value of the wrong shape fails with
/// [`Error::InvalidConfiguration`] carrying the decode detail; otherwise the
/// repository string is returned verbatim.
#[verifier::loop_isolation(false)]
pub fn decode_settings(config: &Option<ConfigValue>) -> (r: Result<Settings, Error>)
    ensures
        config is None ==> (r matches Err(e) && e is MissingConfiguration),
        config matches Some(v) ==> (decoded_repository(*config) is None ==> (r matches Err(e)
            && e matches Error::InvalidConfiguration { detail } && detail@ == invalid_detail(*v))),
        decoded_repository(*config) matches Some(repo) ==> (r matches Ok(s) && s.repository@
            == repo),
{
    let value = match config {
        Some(v) => v,
        None => {
            return Err(Error::MissingConfiguration);
        },
    };
    let entries = match value {
        ConfigValue::Object(entries) => entries,
        ConfigValue::Other => {
            return Err(
                Error::InvalidConfiguration {
                    detail: String::from_str("expected a configuration object"),
                },
            );
        },
    };
    let needle: String = String::from_str("repository");
    let n = entries.len();
    proof {
        assert(entries@.skip(0) =~= entries@);
    }
    for i in 0..n
        invariant
            n == entries.len(),
            needle@ == "repository"@,
            find_repository(entries@) == find_repository(entries@.skip(i as int)),
    {
        proof {
            assert(entries@.skip(i as int)[0] == entries@[i as int]);
        }
        let entry = &entries[i];
        if entry.key == needle {
            proof {
                assert(find_repository(entries@.skip(i as int)) == Some(
                    entries@[i as int].value,
                ));
            }
            match &entry.value {
                FieldValue::Text(s) => {
                    return Ok(Settings { repository: s.clone() });
                },
                FieldValue::Other => {
                    return Err(
                        Error::InvalidConfiguration {
                            detail: String::from_str("the `repository` field must be a string"),
                        },
                    );
                },
            }
        }
        proof {
            assert(entries@.skip(i as int).drop_first() =~= entries@.skip(i + 1));
        }
    }
    Err(Error::InvalidConfiguration { detail: String::from_str("missing field `repository`") })
}

} // verus!
