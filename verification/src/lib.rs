//! A greedy buffered reader over an abstract byte source.
//!
//! The reader owns a growable byte buffer split into a consumed prefix, a
//! pending region, and spare room.  It refills the pending region on demand
//! from a [`source::Source`] and guarantees that the region handed to the
//! source is always deterministically zero-filled, so no caller or source
//! ever observes bytes that nobody wrote.

use vstd::prelude::*;

pub mod reader;
pub mod source;

verus! {

use crate::reader::GreedyAccessReader;
use crate::source::MemSource;

/// Smoke check: with a once-failing source the first fill reports the
/// failure and leaves no bytes behind, and a retry on the same reader
/// serves the data.  Returns `true`; verification shows it can return
/// nothing else.
pub fn t() -> (ok: bool)
    ensures
        ok,
{
    let mut data: Vec<u8> = Vec::new();
    data.push(7u8);
    let source = MemSource::new(data, 1, 1);
    let mut reader = GreedyAccessReader::new(source);
    let first_failed = reader.fill_buf().is_err();
    let served = match reader.fill_buf() {
        Ok(s) => s.len() == 1,
        Err(_) => false,
    };
    first_failed && served
}

/// End-to-end exercise: drains a four-byte in-memory source through a fresh
/// reader and returns the pending bytes of the first fill.
pub fn demo() -> (out: Vec<u8>)
    ensures
        out@ == seq![1u8, 2u8, 3u8, 4u8],
{
    let mut data: Vec<u8> = Vec::new();
    data.push(1u8);
    data.push(2u8);
    data.push(3u8);
    data.push(4u8);
    proof {
        assert(data@ =~= seq![1u8, 2u8, 3u8, 4u8]);
    }
    let source = MemSource::new(data, 4, 0);
    let mut reader = GreedyAccessReader::new(source);
    match reader.fill_buf() {
        Ok(s) => {
            proof {
                assert(s@ =~= seq![1u8, 2u8, 3u8, 4u8]);
            }
            vstd::slice::slice_to_vec(s)
        },
        Err(_) => {
            proof {
                assert(false);
            }
            Vec::new()
        },
    }
}

} // verus!
