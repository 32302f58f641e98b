//! Scan of a process-table snapshot.
//!
//! The platform layer walks the operating system's process table and hands
//! the result over as a vector of entries. Executable names come from
//! fixed-size buffers, so they carry trailing zero padding; a name matches
//! when the padded buffer, trimmed, equals it exactly (case-sensitive).

use vstd::prelude::*;

use crate::bytes::{equals_trimmed, trim_trailing_nuls};

verus! {

/// One row of a process-table snapshot.
pub struct ProcessEntry {
    /// Process identifier.
    pub pid: u32,
    /// Executable base name, possibly padded with trailing zero bytes.
    pub exe_file: Vec<u8>,
}

/// The entry's padded executable name, trimmed, equals `name`.
pub open spec fn entry_matches(entry: ProcessEntry, name: Seq<u8>) -> bool {
    trim_trailing_nuls(entry.exe_file@) == name
}

/// Process id of the first entry whose executable name equals `name`.
pub open spec fn first_pid_match(table: Seq<ProcessEntry>, name: Seq<u8>) -> Option<u32>
    decreases table.len(),
{
    if table.len() == 0 {
        None
    } else if entry_matches(table[0], name) {
        Some(table[0].pid)
    } else {
        first_pid_match(table.skip(1), name)
    }
}

/// Process id of the first entry in the snapshot whose executable name
/// equals `proc_name`, if any.
pub fn get_pid_by_name(table: &Vec<ProcessEntry>, proc_name: &Vec<u8>) -> (r: Option<u32>)
    ensures
        r == first_pid_match(table@, proc_name@),
{
    let mut i: usize = 0;
    proof {
        assert(table@.skip(0) =~= table@);
    }
    while i < table.len()
        invariant
            i <= table@.len(),
            first_pid_match(table@, proc_name@)
                == first_pid_match(table@.skip(i as int), proc_name@),
        decreases table@.len() - i,
    {
        proof {
            assert(table@.skip(i as int)[0] == table@[i as int]);
        }
        if equals_trimmed(&table[i].exe_file, proc_name) {
            return Some(table[i].pid);
        }
        proof {
            assert(table@.skip(i as int).skip(1) =~= table@.skip(i + 1));
        }
        i += 1;
    }
    None
}

} // verus!
