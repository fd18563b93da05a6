//! A verified core for a clipboard typo-fixing tray utility.
//!
//! The library holds the decision logic of the tool: building the prompt and
//! the request for the text-correction service, interpreting its reply,
//! normalizing escape sequences in the corrected text, filtering the model
//! catalogue, planning synthetic key events for turbo mode, and the overlay
//! timing rules. All I/O (HTTP, clipboard, key injection, notifications,
//! windows) stays outside the library and consumes the plans and values
//! produced here.

use vstd::prelude::*;

pub mod client;
pub mod json;
pub mod keysim;
pub mod models;
pub mod overlay;
pub mod response;
pub mod settings;
pub mod text;

verus! {

/// Greeting echoed back to the UI layer.
pub fn greet(name: &str) -> (r: String)
    ensures
        r@ == "Hello, "@ + name@ + "! You've been greeted from Rust!"@,
{
    let mut out = String::new();
    out.append("Hello, ");
    out.append(name);
    out.append("! You've been greeted from Rust!");
    proof {
        assert(out@ =~= "Hello, "@ + name@ + "! You've been greeted from Rust!"@);
    }
    out
}

} // verus!
