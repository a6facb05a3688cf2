//! The settings of an agent: where the model backend listens and which model
//! answers.

use vstd::prelude::*;
use vstd::string::StringExecFns;

verus! {

/// The backend's address and the model's name.
pub struct Config {
    pub ollama_base_url: String,
    pub model: String,
}

/// The address used where none is given.
pub open spec fn default_url() -> Seq<char> {
    "http://localhost:11434"@
}

/// The model used where none is given.
pub open spec fn default_model() -> Seq<char> {
    "gemma3"@
}

impl Config {
    /// The settings from the two values of the environment, each replaced by
    /// its default where it is absent.
    pub fn load(url: Option<String>, model: Option<String>) -> (r: Config)
        ensures
            r.ollama_base_url@ == match url {
                Some(u) => u@,
                None => default_url(),
            },
            r.model@ == match model {
                Some(m) => m@,
                None => default_model(),
            },
    {
        let ollama_base_url = match url {
            Some(u) => u,
            None => String::from_str("http://localhost:11434"),
        };
        let model = match model {
            Some(m) => m,
            None => String::from_str("gemma3"),
        };
        Config { ollama_base_url, model }
    }
}

} // verus!
