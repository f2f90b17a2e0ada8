//! In-memory bus transports that record every frame instead of driving
//! hardware.
//!
//! They let the driver run without a device — the traffic it would have put
//! on the wire can be read back from `frames` — and they can be told to
//! fail, to exercise the communication-error path.

use vstd::prelude::*;
use vstd::assert_seqs_equal;
use vstd::slice::slice_to_vec;

use crate::interface::{I2cWrite, SpiWrite};

verus! {

/// An SPI-style bus that keeps every frame in memory.
#[derive(Debug, PartialEq, Eq)]
pub struct SpiRecorder {
    /// The frames written so far, oldest first.
    pub frames: Vec<Vec<u8>>,
    /// While set, every write fails and records nothing.
    pub fail_writes: bool,
}

impl SpiWrite for SpiRecorder {
    type BusError = ();

    open spec fn written(&self) -> Seq<Seq<u8>> {
        self.frames@.map_values(|frame: Vec<u8>| frame@)
    }

    fn write(&mut self, data: &[u8]) -> (result: Result<(), ()>)
        ensures
            result matches Ok(()) <==> !old(self).fail_writes,
            final(self).fail_writes == old(self).fail_writes,
    {
        if self.fail_writes {
            Err(())
        } else {
            let frame: Vec<u8> = slice_to_vec(data);
            self.frames.push(frame);
            proof {
                assert_seqs_equal!(final(self).written(), old(self).written().push(data@));
            }
            Ok(())
        }
    }
}

/// A two-wire bus that keeps every frame, with its address, in memory.
#[derive(Debug, PartialEq, Eq)]
pub struct I2cRecorder {
    /// The frames written so far, oldest first, each with the 7-bit address
    /// it went to.
    pub frames: Vec<(u8, Vec<u8>)>,
    /// While set, every write fails and records nothing.
    pub fail_writes: bool,
}

impl I2cWrite for I2cRecorder {
    type BusError = ();

    open spec fn written(&self) -> Seq<(u8, Seq<u8>)> {
        self.frames@.map_values(|entry: (u8, Vec<u8>)| (entry.0, entry.1@))
    }

    fn write(&mut self, address: u8, data: &[u8]) -> (result: Result<(), ()>)
        ensures
            result matches Ok(()) <==> !old(self).fail_writes,
            final(self).fail_writes == old(self).fail_writes,
    {
        if self.fail_writes {
            Err(())
        } else {
            let frame: Vec<u8> = slice_to_vec(data);
            self.frames.push((address, frame));
            proof {
                assert_seqs_equal!(
                    final(self).written(),
                    old(self).written().push((address, data@))
                );
            }
            Ok(())
        }
    }
}

} // verus!
