//! The plain field bags that carry an operation's arguments.

use vstd::prelude::*;

verus! {

/// A value sent to the host to see whether it answers.
#[derive(Debug)]
pub struct PingRequest {
    pub value: Option<String>,
}

/// What the host sends back for a `PingRequest`.
#[derive(Debug, Clone)]
pub struct PingResponse {
    pub value: Option<String>,
}

impl Default for PingResponse {
    /// A response that carries no value.
    fn default() -> (response: Self)
        ensures
            response.value is None,
    {
        PingResponse { value: None }
    }
}

/// One request to print a file. An empty `id` stands for the default printer;
/// `print_setting` is handed to the print helper as it is.
pub struct PrintOptions {
    pub id: String,
    pub path: String,
    pub print_setting: String,
    pub remove_after_print: bool,
}

} // verus!
