//! Per-provider API key resolution: an environment override always beats a
//! persisted value, and blank keys count as absent.

use vstd::prelude::*;
use crate::text::opt_str_view;

verus! {

/// The optional API keys of the three transcription providers.
#[derive(Clone, Debug, Default)]
pub struct ApiKeys {
    pub openai: Option<String>,
    pub groq: Option<String>,
    pub gladia: Option<String>,
}

/// What key resolution yields from an environment reading and a persisted
/// value: the environment wins when it is set and non-empty.
pub open spec fn resolved_key(env_value: Option<Seq<char>>, stored: Option<Seq<char>>) -> Option<
    Seq<char>,
> {
    match env_value {
        Option::Some(k) => if k.len() > 0 {
            Option::Some(k)
        } else {
            stored
        },
        Option::None => stored,
    }
}

/// Resolves one provider's key from the environment reading and the
/// persisted store, environment first.
pub fn resolve_api_key(env_value: Option<String>, stored: Option<String>) -> (r: Option<String>)
    ensures
        opt_str_view(r) == resolved_key(opt_str_view(env_value), opt_str_view(stored)),
{
    match env_value {
        Option::Some(k) => {
            if k.as_str().is_empty() {
                stored
            } else {
                Option::Some(k)
            }
        },
        Option::None => stored,
    }
}

/// A key that is present but blank counts as absent.
pub open spec fn usable_key_spec(k: Option<Seq<char>>) -> Option<Seq<char>> {
    match k {
        Option::Some(s) => if s.len() > 0 {
            Option::Some(s)
        } else {
            Option::None
        },
        Option::None => Option::None,
    }
}

/// Drops a blank key.
pub fn usable_key(k: Option<String>) -> (r: Option<String>)
    ensures
        opt_str_view(r) == usable_key_spec(opt_str_view(k)),
{
    match k {
        Option::Some(s) => {
            if s.as_str().is_empty() {
                Option::None
            } else {
                Option::Some(s)
            }
        },
        Option::None => Option::None,
    }
}

impl ApiKeys {
    /// How many providers have a key at all.
    pub open spec fn provider_count_spec(&self) -> int {
        (if self.openai is Some {
            1int
        } else {
            0int
        }) + (if self.groq is Some {
            1int
        } else {
            0int
        }) + (if self.gladia is Some {
            1int
        } else {
            0int
        })
    }

    /// The copy of the key set with blank keys dropped.
    pub fn usable(self) -> (r: ApiKeys)
        ensures
            opt_str_view(r.openai) == usable_key_spec(opt_str_view(self.openai)),
            opt_str_view(r.groq) == usable_key_spec(opt_str_view(self.groq)),
            opt_str_view(r.gladia) == usable_key_spec(opt_str_view(self.gladia)),
    {
        ApiKeys {
            openai: usable_key(self.openai),
            groq: usable_key(self.groq),
            gladia: usable_key(self.gladia),
        }
    }

    /// Counts the providers that have a key.
    pub fn provider_count(&self) -> (n: usize)
        ensures
            n == self.provider_count_spec(),
    {
        let mut n: usize = 0;
        if self.openai.is_some() {
            n = n + 1;
        }
        if self.groq.is_some() {
            n = n + 1;
        }
        if self.gladia.is_some() {
            n = n + 1;
        }
        n
    }
}

} // verus!
