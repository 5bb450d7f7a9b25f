//! Verified export dispatcher for a Markdown document exporter.
//!
//! The library decides, per export request, which converter to run and how
//! to react to each converter's outcome: a PDF export first tries the
//! in-process Markdown renderer and falls back to the external conversion
//! tool only on one specific parse-failure signature; a DOCX export always
//! goes straight to the external tool. All decision logic and diagnostic
//! composition is verified; the surrounding process I/O (writing the
//! produced bytes, running the external tool) stays with the caller.

use vstd::prelude::*;

pub mod dispatch;
pub mod text;

verus! {

/// The fixed greeting built for a name.
pub open spec fn greeting(name: Seq<char>) -> Seq<char> {
    "Hello, "@ + name + "! You've been greeted!"@
}

/// Greets a caller by name with the fixed template.
pub fn greet(name: &str) -> (r: String)
    ensures
        r@ == greeting(name@),
{
    let mut s = String::from_str("Hello, ");
    s.append(name);
    s.append("! You've been greeted!");
    s
}

} // verus!
