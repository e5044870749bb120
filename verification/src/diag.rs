//! Two connectivity checks the host application exposes: a fixed
//! confirmation string, and an echo that prefixes its input with a label.

use vstd::prelude::*;
use vstd::string::StringExecFns;

verus! {

/// Returns the fixed confirmation string.
pub fn test_proxy() -> (r: Result<String, String>)
    ensures
        r matches Ok(s) && s@ == "Proxy is working!"@,
{
    Ok(String::from_str("Proxy is working!"))
}

/// Returns the given message behind the fixed echo label.
pub fn test_echo(message: String) -> (r: String)
    ensures
        r@ == "Echo: "@ + message@,
{
    let mut s = String::from_str("Echo: ");
    s.append(message.as_str());
    s
}

} // verus!
