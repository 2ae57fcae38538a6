//! The failures that reach the caller of the allocator.

use vstd::prelude::*;
use vstd::string::StringExecFns;

verus! {

#[derive(Debug)]
pub enum Error {
    /// A number in the configuration is not an integer.
    ParseInt,
    /// A number in the configuration does not fit its type.
    TryFromInt,
    /// The allocation engine failed.
    Allocation(crate::resources::Error),
    /// The command-line tool reported a failure.
    NitroCli(String),
    /// A request names both `cpu_count` and `cpu_pool`.
    BothOptionsForCpu,
    /// The configuration is not a list of requests.
    ConfigFileCorruption,
}

impl Error {
    pub open spec fn spec_message(&self) -> Seq<char> {
        match *self {
            Error::ParseInt => "invalid digit found in string"@,
            Error::TryFromInt => "out of range integral type conversion attempted"@,
            Error::Allocation(inner) => inner.spec_message(),
            Error::NitroCli(text) => "Nitro CLI error: "@ + text@,
            Error::BothOptionsForCpu => "Config file cannot include cpu_count and cpu_pool tag at the same time"@,
            Error::ConfigFileCorruption => "Invalid config file: This might happened due to old config file or config file corruption. See release notes :"@,
        }
    }

    /// The message shown to the operator.
    pub fn message(&self) -> (text: String)
        ensures
            text@ == self.spec_message(),
    {
        match self {
            Error::ParseInt => "invalid digit found in string".to_owned(),
            Error::TryFromInt => "out of range integral type conversion attempted".to_owned(),
            Error::Allocation(inner) => inner.message(),
            Error::NitroCli(text) => {
                "Nitro CLI error: ".to_owned().concat(text.as_str())
            },
            Error::BothOptionsForCpu => "Config file cannot include cpu_count and cpu_pool tag at the same time".to_owned(),
            Error::ConfigFileCorruption => "Invalid config file: This might happened due to old config file or config file corruption. See release notes :".to_owned(),
        }
    }
}

} // verus!
