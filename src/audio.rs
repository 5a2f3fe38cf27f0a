use vstd::prelude::*;
use crate::event::{EventChannel, ReaderId};

verus! {

/// Requests to play a sound effect.
#[derive(Clone, Copy, PartialEq, Eq, Debug, Structural)]
pub enum SoundEvent {
    Score,
    Bounce,
}

/// Builds an `AudioSystem` subscribed to a sound channel.
#[derive(Clone, Copy, Debug, Default)]
pub struct AudioSystemDesc;

impl AudioSystemDesc {
    pub fn build(self, channel: &EventChannel<SoundEvent>) -> (s: AudioSystem)
        ensures
            s.reader.position() == channel.events().len(),
    {
        AudioSystem { reader: channel.register_reader() }
    }
}

/// Hands the sound requests of each tick to the audio output.
pub struct AudioSystem {
    pub reader: ReaderId,
}

impl AudioSystem {
    /// The sounds to play this tick: every sound event published since the
    /// last run, in publish order.
    pub fn run(&mut self, channel: &EventChannel<SoundEvent>) -> (r: Vec<SoundEvent>)
        requires
            old(self).reader.position() <= channel.events().len(),
        ensures
            r@ == channel.unread(old(self).reader),
            final(self).reader.position() == channel.events().len(),
    {
        channel.read(&mut self.reader)
    }
}

} // verus!
