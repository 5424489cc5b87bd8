//! Configuration of the xHCI USB controller.

use vstd::prelude::*;
use vstd::string::StringExecFns;
use vstd::utf8::encode_utf8;

verus! {

/// Longest string accepted in a device option, in bytes.
pub const MAX_STRING_LENGTH: usize = 255;

/// Why a device configuration is refused.
#[derive(Debug, Clone)]
pub enum ConfigError {
    /// The option `name` is longer than `max` bytes.
    StringLengthTooLong { name: String, max: usize },
}

/// xHCI controller configuration.
pub struct XhciConfig {
    /// Device id.
    pub id: String,
}

impl XhciConfig {
    /// A configuration with an empty id.
    pub fn new() -> (r: XhciConfig)
        ensures
            r.id@ == Seq::<char>::empty(),
    {
        XhciConfig { id: String::new() }
    }

    /// Checks that the id fits the length limit.
    pub fn check(&self) -> (r: Result<(), ConfigError>)
        ensures
            r is Ok <==> encode_utf8(self.id@).len() <= MAX_STRING_LENGTH,
            r matches Err(ConfigError::StringLengthTooLong { name, max }) ==> name@ == "id"@ && max
                == MAX_STRING_LENGTH,
    {
        if self.id.as_str().as_bytes().len() > MAX_STRING_LENGTH {
            return Err(
                ConfigError::StringLengthTooLong {
                    name: String::from_str("id"),
                    max: MAX_STRING_LENGTH,
                },
            );
        }
        Ok(())
    }
}

} // verus!
