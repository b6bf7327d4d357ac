//! Results of a store garbage collection and how freed space reads.

use vstd::prelude::*;
use vstd::string::StringExecFns;
use crate::numfmt::{decimal, fixed_text, push_decimal, push_fixed};

verus! {

/// A byte count in B, KiB or MiB (one digit after the point) or GiB (two).
pub open spec fn binary_size_text(bytes: nat) -> Seq<char> {
    if bytes < 1024 {
        decimal(bytes) + " B"@
    } else if bytes < 1048576 {
        fixed_text(bytes, 1024, 1) + " KiB"@
    } else if bytes < 1073741824 {
        fixed_text(bytes, 1048576, 1) + " MiB"@
    } else {
        fixed_text(bytes, 1073741824, 2) + " GiB"@
    }
}

/// A byte count as text (see `binary_size_text`).
pub fn format_bytes(bytes: u64) -> (r: String)
    ensures
        r@ == binary_size_text(bytes as nat),
{
    let mut s = String::new();
    if bytes < 1024 {
        push_decimal(&mut s, bytes);
        s.append(" B");
    } else if bytes < 1048576 {
        push_fixed(&mut s, bytes, 1024, 1);
        s.append(" KiB");
    } else if bytes < 1073741824 {
        push_fixed(&mut s, bytes, 1048576, 1);
        s.append(" MiB");
    } else {
        push_fixed(&mut s, bytes, 1073741824, 2);
        s.append(" GiB");
    }
    assert(s@ =~= binary_size_text(bytes as nat));
    s
}

/// Runs store garbage collection; the runs themselves are made by the
/// application.
pub struct GarbageCollector;

/// Outcome of a garbage collection.
#[derive(Debug)]
pub struct GCResult {
    pub success: bool,
    pub bytes_freed: u64,
    pub message: String,
}

impl GCResult {
    /// The space freed, as text (see `binary_size_text`).
    pub fn freed_human(&self) -> (r: String)
        ensures
            r@ == binary_size_text(self.bytes_freed as nat),
    {
        format_bytes(self.bytes_freed)
    }
}

} // verus!
