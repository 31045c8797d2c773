//! What is written to the platform log: one line, under one tag, at one
//! priority. The platform takes the tag and the line as C strings.

use crate::c_str::c_string;
use crate::c_str::c_string_of;
use vstd::prelude::*;
use vstd::string::is_ascii_spec_bytes;
use vstd::string::StringSliceAdditionalSpecFns;

verus! {

/// The priority of every line that is written to the platform log.
pub const LOG_PRIORITY: i32 = 3;

/// The tag of every line that is written to the platform log.
pub const LOG_TAG: &'static str = "RustAndroidGlueStdouterr";

/// One line for the platform log.
#[derive(Debug, PartialEq, Eq)]
pub struct LogRecord {
    /// The priority of the line.
    pub priority: i32,
    /// The tag of the line, as a C string.
    pub tag: Vec<u8>,
    /// The line itself, as a C string.
    pub text: Vec<u8>,
}

/// The line that stands for `message` in the platform log: the message as a C
/// string, under the tag and at the priority of this crate. There is none for a
/// message that holds a zero byte.
pub fn log_record(message: &[u8]) -> (record: Option<LogRecord>)
    ensures
        (match record {
            Some(line) => {
                &&& line.priority == LOG_PRIORITY
                &&& c_string_of(LOG_TAG.spec_bytes()) == Some(line.tag@)
                &&& c_string_of(message@) == Some(line.text@)
            },
            None => c_string_of(message@) is None,
        }),
{
    let text = c_string(message);
    let tag = c_string(LOG_TAG.as_bytes());
    proof {
        lemma_tag_has_no_zero();
    }
    match (tag, text) {
        (Some(tag), Some(text)) => Some(LogRecord { priority: LOG_PRIORITY, tag, text }),
        _ => None,
    }
}

/// The tag can be held by a C string.
pub proof fn lemma_tag_has_no_zero()
    ensures
        c_string_of(LOG_TAG.spec_bytes()) is Some,
        LOG_TAG.spec_bytes().len() == 24,
{
    reveal_strlit("RustAndroidGlueStdouterr");
    let tag = LOG_TAG;
    assert(tag@.len() == 24);
    assert(vstd::string::is_ascii(tag)) by {
        assert forall|i: int| 0 <= i < tag@.len() implies (tag@[i] as u32) < 128 by {}
    }
    is_ascii_spec_bytes(tag);
    let bytes = tag.spec_bytes();
    assert forall|i: int| 0 <= i < bytes.len() implies bytes[i] != 0u8 by {
        assert(bytes[i] == tag@[i] as u8);
    }
}

} // verus!
