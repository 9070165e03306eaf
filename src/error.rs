use vstd::prelude::*;
use vstd::string::*;

verus! {

/// What went wrong while decoding a row into a domain object.
#[derive(Debug, Clone, PartialEq, Eq)]
pub enum DecodeCause {
    /// The metadata blob is not a well-formed JSON document; `detail` is the
    /// JSON reader's own description.
    MalformedJson { detail: String },
    /// The metadata blob lacks the member `field`, or holds a value of the
    /// wrong type there.
    MissingField { field: String },
    /// The split state column holds `value`, which names no lifecycle state.
    UnknownSplitState { value: String },
}

/// The single error of this layer: a row could not be turned into a domain
/// object. It carries a message for operators and the underlying cause.
#[derive(Debug, Clone, PartialEq, Eq)]
pub struct DeserializationError {
    pub message: String,
    pub cause: DecodeCause,
}

pub open spec fn index_failure_message() -> Seq<char> {
    "Failed to deserialize index metadata."@
}

pub open spec fn split_metadata_failure_message(index_id: Seq<char>, split_id: Seq<char>) -> Seq<char> {
    "Failed to deserialize split metadata. index_id=`"@ + index_id + "`, split_id=`"@ + split_id
        + "`."@
}

pub open spec fn split_state_failure_message(
    split_state: Seq<char>,
    index_id: Seq<char>,
    split_id: Seq<char>,
) -> Seq<char> {
    "Failed to deserialize split state: `"@ + split_state + "`. index_id=`"@ + index_id
        + "`, split_id=`"@ + split_id + "`."@
}

pub fn index_failure(cause: DecodeCause) -> (r: DeserializationError)
    ensures
        r.message@ == index_failure_message(),
        r.cause == cause,
{
    DeserializationError { message: String::from_str("Failed to deserialize index metadata."), cause }
}

pub fn split_metadata_failure(index_id: &str, split_id: &str, cause: DecodeCause) -> (r:
    DeserializationError)
    ensures
        r.message@ == split_metadata_failure_message(index_id@, split_id@),
        r.cause == cause,
{
    let mut message = String::from_str("Failed to deserialize split metadata. index_id=`");
    message.append(index_id);
    message.append("`, split_id=`");
    message.append(split_id);
    message.append("`.");
    DeserializationError { message, cause }
}

pub fn split_state_failure(split_state: &str, index_id: &str, split_id: &str) -> (r:
    DeserializationError)
    ensures
        r.message@ == split_state_failure_message(split_state@, index_id@, split_id@),
        r.cause matches DecodeCause::UnknownSplitState { value } && value@ == split_state@,
{
    let mut message = String::from_str("Failed to deserialize split state: `");
    message.append(split_state);
    message.append("`. index_id=`");
    message.append(index_id);
    message.append("`, split_id=`");
    message.append(split_id);
    message.append("`.");
    DeserializationError {
        message,
        cause: DecodeCause::UnknownSplitState { value: String::from_str(split_state) },
    }
}

} // verus!
