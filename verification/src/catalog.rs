//! The fixed catalogs of simulated messages: normal commands, warnings,
//! and error/success pairs.
use vstd::prelude::*;

verus! {

pub const NUM_COMMANDS: usize = 9;

pub const NUM_WARNINGS: usize = 4;

pub const NUM_ERRORS: usize = 3;

/// The catalog of normal command names.
pub open spec fn command_text(i: int) -> Seq<char> {
    if i == 0 {
        "Analyzing data streams"@
    } else if i == 1 {
        "Compiling resources"@
    } else if i == 2 {
        "Running diagnostic checks"@
    } else if i == 3 {
        "Optimizing performance metrics"@
    } else if i == 4 {
        "Decrypting secure partitions"@
    } else if i == 5 {
        "Validating encryption keys"@
    } else if i == 6 {
        "Synchronizing with remote server"@
    } else if i == 7 {
        "Checking system logs"@
    } else {
        "Indexing database records"@
    }
}

/// The catalog of warnings.
pub open spec fn warning_text(i: int) -> Seq<char> {
    if i == 0 {
        "Memory usage exceeded threshold"@
    } else if i == 1 {
        "Unusual network activity detected"@
    } else if i == 2 {
        "Packet loss detected in secure channel"@
    } else {
        "Performance bottleneck identified"@
    }
}

/// The failure half of each error/success pair.
pub open spec fn error_text(i: int) -> Seq<char> {
    if i == 0 {
        "Unable to establish a secure connection"@
    } else if i == 1 {
        "Corrupted database index found"@
    } else {
        "Indexing Error: Out of Memory"@
    }
}

/// The success half of each error/success pair.
pub open spec fn success_text(i: int) -> Seq<char> {
    if i == 0 {
        "Connection established successfully"@
    } else if i == 1 {
        "Database re-indexed successfully"@
    } else {
        "Indexing resumed with optimized memory usage"@
    }
}

pub fn command(i: usize) -> (r: String)
    requires
        i < NUM_COMMANDS,
    ensures
        r@ == command_text(i as int),
{
    let s: &str = if i == 0 {
        "Analyzing data streams"
    } else if i == 1 {
        "Compiling resources"
    } else if i == 2 {
        "Running diagnostic checks"
    } else if i == 3 {
        "Optimizing performance metrics"
    } else if i == 4 {
        "Decrypting secure partitions"
    } else if i == 5 {
        "Validating encryption keys"
    } else if i == 6 {
        "Synchronizing with remote server"
    } else if i == 7 {
        "Checking system logs"
    } else {
        "Indexing database records"
    };
    s.to_owned()
}

pub fn warning(i: usize) -> (r: String)
    requires
        i < NUM_WARNINGS,
    ensures
        r@ == warning_text(i as int),
{
    let s: &str = if i == 0 {
        "Memory usage exceeded threshold"
    } else if i == 1 {
        "Unusual network activity detected"
    } else if i == 2 {
        "Packet loss detected in secure channel"
    } else {
        "Performance bottleneck identified"
    };
    s.to_owned()
}

pub fn error_failure(i: usize) -> (r: String)
    requires
        i < NUM_ERRORS,
    ensures
        r@ == error_text(i as int),
{
    let s: &str = if i == 0 {
        "Unable to establish a secure connection"
    } else if i == 1 {
        "Corrupted database index found"
    } else {
        "Indexing Error: Out of Memory"
    };
    s.to_owned()
}

pub fn error_success(i: usize) -> (r: String)
    requires
        i < NUM_ERRORS,
    ensures
        r@ == success_text(i as int),
{
    let s: &str = if i == 0 {
        "Connection established successfully"
    } else if i == 1 {
        "Database re-indexed successfully"
    } else {
        "Indexing resumed with optimized memory usage"
    };
    s.to_owned()
}

} // verus!
