use vstd::prelude::*;
use vstd::std_specs::convert::IntoSpec;

verus! {

/// Settings for spawning an actor in the system `S`: an optional name and
/// an optional mailbox capacity.
pub struct ActorBuilder<S> {
    pub channel_size: Option<u16>,
    pub name: Option<String>,
    pub system: S,
}

impl<S> ActorBuilder<S> {
    /// A builder with no name and the system's default mailbox capacity.
    pub fn new(system: S) -> (r: ActorBuilder<S>)
        ensures
            r.channel_size is None,
            r.name is None,
            r.system == system,
    {
        ActorBuilder { channel_size: None, name: None, system }
    }

    /// The same builder, naming the actor.
    pub fn name<N: Into<String>>(self, name: N) -> (r: ActorBuilder<S>)
        ensures
            r.channel_size == self.channel_size,
            r.system == self.system,
            r.name is Some,
            N::obeys_into_spec() ==> r.name == Some(name.into_spec()),
    {
        ActorBuilder { channel_size: self.channel_size, name: Some(name.into()), system: self.system }
    }

    /// The same builder, with a mailbox of `channel_size` messages.
    pub fn channel_size(self, channel_size: u16) -> (r: ActorBuilder<S>)
        ensures
            r.channel_size == Some(channel_size),
            r.name == self.name,
            r.system == self.system,
    {
        ActorBuilder { channel_size: Some(channel_size), name: self.name, system: self.system }
    }

    /// The mailbox capacity to use: the builder's, or else the system's
    /// default `default_size`.
    pub fn mailbox_size(&self, default_size: u16) -> (r: u16)
        ensures
            r == (match self.channel_size {
                Some(c) => c,
                None => default_size,
            }),
    {
        match self.channel_size {
            Some(c) => c,
            None => default_size,
        }
    }
}

} // verus!
