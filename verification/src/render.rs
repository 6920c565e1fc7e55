//! The cross-modal rendering shells: the sonification queue logic and
//! the visualization sizing rule. Producing actual audio or images is
//! left to the caller.

use vstd::prelude::*;
use std::collections::VecDeque;
use vstd::string::StringExecFns;
use crate::numfmt::{spec_digits, u64_to_string};

verus! {

/// The sonification queue: at most two messages in flight.
pub struct FractalSonification {
    pub queue: VecDeque<String>,
}

impl FractalSonification {
    pub fn new() -> (r: Self)
        ensures
            r.queue@.len() == 0,
    {
        FractalSonification { queue: VecDeque::new() }
    }

    /// Queues a hum for the given coherence, unless two messages are
    /// already in flight. Returns the queued message for the caller to
    /// emit.
    pub fn sonify(&mut self, coherence: u64) -> (r: Option<String>)
        ensures
            match r {
                Option::Some(msg) => {
                    &&& old(self).queue@.len() < 2
                    &&& msg@ == "Cosmic hum: "@ + spec_digits(coherence as nat)
                    &&& final(self).queue@.len() == old(self).queue@.len() + 1
                    &&& final(self).queue@.last()@ == msg@
                },
                Option::None => old(self).queue@.len() >= 2 && final(self).queue@
                    == old(self).queue@,
            },
    {
        if self.queue.len() < 2 {
            let mut msg = String::from_str("Cosmic hum: ");
            msg.append(u64_to_string(coherence).as_str());
            let copy = msg.clone();
            self.queue.push_back(copy);
            Some(msg)
        } else {
            None
        }
    }

    /// Retires the oldest queued message once it has played.
    pub fn pop_message(&mut self) -> (r: Option<String>)
        ensures
            match r {
                Option::Some(msg) => old(self).queue@.len() > 0 && msg == old(self).queue@.first()
                    && final(self).queue@ == old(self).queue@.drop_first(),
                Option::None => old(self).queue@.len() == 0 && final(self).queue@
                    == old(self).queue@,
            },
    {
        self.queue.pop_front()
    }
}

/// The visualization shell: owns no state, only the sizing rule.
#[derive(Clone)]
pub struct FractalVisualization;

impl FractalVisualization {
    pub fn new() -> (r: Self) {
        FractalVisualization
    }

    /// The side length of each rendered plane: halved for very large
    /// fields.
    pub fn plane_size(&self, field_len: usize) -> (r: usize)
        ensures
            r == if field_len > 400_000 {
                200int
            } else {
                400int
            },
    {
        if field_len > 400_000 {
            200
        } else {
            400
        }
    }
}

} // verus!
