//! The steps of mapping a buffer.
//!
//! Mapping is asynchronous on the device: a request is made, the device is
//! driven, and at some later time the completion arrives. The caller makes
//! the request and delivers the completion; this module decides what each
//! poll does and returns.

use crate::buffers::BufferError;
use vstd::prelude::*;

verus! {

/// Whether a buffer is mapped for reading or for writing.
#[derive(Clone, Copy, Debug, PartialEq, Eq, Structural)]
pub enum MapMode {
    /// The host reads the mapped bytes.
    Read,
    /// The host writes the mapped bytes.
    Write,
}

/// What a poll of a map future tells its caller.
#[derive(Clone, Copy, Debug)]
pub enum MapPoll {
    /// The mapping has to be requested from the device in the given mode,
    /// and the device polled once. The future is not ready.
    Request(MapMode),
    /// The request was made and no completion has arrived.
    Pending,
    /// The mapping completed with the given result.
    Ready(Result<(), BufferError>),
}

/// The state of one mapping of a buffer.
#[derive(Clone, Copy, Debug)]
pub struct GpuMapFuture {
    /// The mode that the mapping is requested in.
    pub map_mode: MapMode,
    /// Whether the request was made.
    pub is_invoked: bool,
    /// The completion, once it has arrived and until a poll takes it.
    pub output: Option<Result<(), BufferError>>,
}

impl GpuMapFuture {
    /// A mapping in the given mode that was not requested yet.
    pub fn new(map_mode: MapMode) -> (future: GpuMapFuture)
        ensures
            future == (GpuMapFuture { map_mode, is_invoked: false, output: None }),
    {
        GpuMapFuture { map_mode, is_invoked: false, output: None }
    }

    /// Records that the device completed the mapping: with success where
    /// `mapped` holds, else with a map error.
    pub fn complete(&mut self, mapped: bool)
        ensures
            *final(self) == (GpuMapFuture {
                output: Some(
                    if mapped {
                        Ok(())
                    } else {
                        Err(BufferError::AsyncMapError)
                    },
                ),
                ..*old(self)
            }),
    {
        self.output = Some(
            if mapped {
                Ok(())
            } else {
                Err(BufferError::AsyncMapError)
            },
        );
    }

    /// One poll. The first poll asks for the request and marks it as made.
    /// Every later poll hands out the completion if one has arrived, and
    /// takes it from the state; else it reports that the mapping is pending.
    pub fn poll(&mut self) -> (poll: MapPoll)
        ensures
            !old(self).is_invoked ==> poll == MapPoll::Request(old(self).map_mode) && *final(self)
                == (GpuMapFuture { is_invoked: true, ..*old(self) }),
            old(self).is_invoked && old(self).output is Some ==> poll == MapPoll::Ready(
                old(self).output->Some_0,
            ) && *final(self) == (GpuMapFuture { output: None, ..*old(self) }),
            old(self).is_invoked && old(self).output is None ==> poll == MapPoll::Pending
                && *final(self) == *old(self),
    {
        if !self.is_invoked {
            self.is_invoked = true;
            MapPoll::Request(self.map_mode)
        } else {
            match self.output {
                Some(value) => {
                    self.output = None;
                    MapPoll::Ready(value)
                },
                None => MapPoll::Pending,
            }
        }
    }
}

} // verus!
