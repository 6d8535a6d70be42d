//! What the session reads of its buffers.

use vstd::prelude::*;

verus! {

/// A measurement of one buffer: how full it is, what of it is parsed, and
/// what of it waits to be sent.
#[derive(Debug, Clone, Copy, PartialEq, Eq, Structural)]
pub struct BufferState {
    /// Where in the stream the buffer starts.
    pub buffer_position: usize,
    /// Bytes that can still be read into the buffer.
    pub available_space: usize,
    /// Bytes that wait to be parsed.
    pub input_data_size: usize,
    /// Where in the stream parsing has to start again.
    pub start_parsing_position: usize,
    /// Where in the stream parsing stands.
    pub parsed_position: usize,
    /// Bytes that are to be sent, those included that are still to come.
    pub output_data_size: usize,
    /// Bytes that can be sent at once.
    pub next_output_size: usize,
    /// More bytes have to be read before the planned ones can be sent.
    pub needs_input: bool,
    /// Everything up to the place where parsing starts again has been sent.
    pub can_restart_parsing: bool,
    /// The buffer holds nothing.
    pub empty: bool,
}

impl BufferState {
    /// Nothing can be sent now.
    pub open spec fn has_no_output(self) -> bool {
        self.output_data_size == 0 || self.next_output_size == 0
    }

    /// How many of the bytes just read belong to data that was parsed before
    /// it came, if parsing is to start again behind the place where it stands.
    pub open spec fn parsed_ahead(self) -> Option<usize> {
        if self.start_parsing_position > self.parsed_position {
            let ahead = self.start_parsing_position - self.parsed_position;
            Some(if self.input_data_size <= ahead { self.input_data_size } else { ahead as usize })
        } else {
            None
        }
    }

    pub fn nothing_to_send(&self) -> (r: bool)
        ensures
            r == self.has_no_output(),
    {
        self.output_data_size == 0 || self.next_output_size == 0
    }

    /// How many parsed bytes to consume after a read, if any.
    pub fn to_consume(&self) -> (r: Option<usize>)
        ensures
            r == self.parsed_ahead(),
    {
        if self.start_parsing_position > self.parsed_position {
            let ahead: usize = self.start_parsing_position - self.parsed_position;
            if self.input_data_size <= ahead {
                Some(self.input_data_size)
            } else {
                Some(ahead)
            }
        } else {
            None
        }
    }
}

} // verus!
