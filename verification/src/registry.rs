//! The channel registry: a mapping from an allocated integer id to a
//! channel.
//!
//! Ids are allocated by `new_channel`, stay valid until
//! `remove_channel`, and are recycled afterwards.  The registry owns
//! its channels; callers act on a channel through its id, which is how
//! every shared handle to the registry observes the same underlying
//! state.

use vstd::prelude::*;
use crate::arena::{Arena, insert_post, remove_post};
use crate::channel::{broadcast_post, Channel, Endpoint};
use crate::errors::Error;

verus! {

/// Whether `id` is an allocated channel id of the registry view `reg`.
pub open spec fn channel_present(reg: Seq<Option<Channel>>, id: int) -> bool {
    0 <= id < reg.len() && reg[id] is Some
}

/// Whether `after` differs from `before` at most in slot `id`.
pub open spec fn updated_at(before: Seq<Option<Channel>>, after: Seq<Option<Channel>>, id: int) -> bool {
    &&& after.len() == before.len()
    &&& forall|j: int| 0 <= j < before.len() && j != id ==> after[j] == before[j]
}

/// The table of channels, keyed by recyclable integer ids.
pub struct ChannelRegistry {
    channels: Arena<Channel>,
}

impl View for ChannelRegistry {
    type V = Seq<Option<Channel>>;

    closed spec fn view(&self) -> Seq<Option<Channel>> {
        self.channels@
    }
}

impl ChannelRegistry {
    /// A registry with no channels.
    pub fn new() -> (r: Self)
        ensures
            r@ == Seq::<Option<Channel>>::empty(),
    {
        ChannelRegistry { channels: Arena::new() }
    }

    /// Allocates an empty channel under the first free id and returns
    /// that id.
    pub fn new_channel(&mut self) -> (id: usize)
        ensures
            channel_present(final(self)@, id as int),
            final(self)@[id as int] matches Some(c) ==> c@ == Seq::<Option<Endpoint>>::empty(),
            updated_at(old(self)@, final(self)@, id as int) || (id as int == old(self)@.len()
                && final(self)@.len() == old(self)@.len() + 1
                && (forall|j: int| 0 <= j < old(self)@.len() ==> final(self)@[j] == old(self)@[j])),
            forall|j: int| 0 <= j < id ==> old(self)@[j] is Some,
            (id as int) < old(self)@.len() ==> old(self)@[id as int] is None,
    {
        let channel = Channel::new();
        self.channels.insert(channel)
    }

    /// Looks the channel under `id` up; an unknown or removed id fails
    /// with `NotFound`.
    pub fn get_channel(&self, id: usize) -> (r: Result<&Channel, Error>)
        ensures
            r is Ok <==> channel_present(self@, id as int),
            r matches Ok(c) ==> self@[id as int] == Some(*c),
            r is Err ==> r == Err::<&Channel, Error>(Error::NotFound),
    {
        match self.channels.get(id) {
            Some(channel) => Ok(channel),
            None => Err(Error::NotFound),
        }
    }

    /// Deregisters every subscriber of the channel under `id`, closing
    /// its endpoints, then deletes the id; subsequent lookups of the id
    /// fail with `NotFound`.
    pub fn remove_channel(&mut self, id: usize) -> (r: Result<(), Error>)
        ensures
            r is Ok <==> channel_present(old(self)@, id as int),
            r is Ok ==> final(self)@ == old(self)@.update(id as int, None::<Channel>),
            r is Ok ==> !channel_present(final(self)@, id as int),
            r is Err ==> final(self)@ == old(self)@ && r == Err::<(), Error>(Error::NotFound),
    {
        match self.channels.remove(id) {
            Some(mut channel) => {
                channel.deregister_all();
                Ok(())
            },
            None => Err(Error::NotFound),
        }
    }

    /// Registers `endpoint` on the channel under `id`; yields the slot
    /// index the channel assigned, or `NotFound` for an unknown id.
    pub fn register(&mut self, id: usize, endpoint: Endpoint) -> (r: Result<usize, Error>)
        ensures
            r is Ok <==> channel_present(old(self)@, id as int),
            r is Err ==> final(self)@ == old(self)@ && r == Err::<usize, Error>(Error::NotFound),
            r matches Ok(i) ==> ({
                &&& updated_at(old(self)@, final(self)@, id as int)
                &&& channel_present(final(self)@, id as int)
                &&& insert_post(old(self)@[id as int]->0@, final(self)@[id as int]->0@, i as int, endpoint)
            }),
    {
        match self.channels.remove(id) {
            Some(mut channel) => {
                let i = channel.register(endpoint);
                self.channels.put(id, channel);
                Ok(i)
            },
            None => Err(Error::NotFound),
        }
    }

    /// Deregisters slot `index` of the channel under `id` and returns
    /// the endpoint that was registered there, if any; `NotFound` for
    /// an unknown id.
    pub fn deregister(&mut self, id: usize, index: usize) -> (r: Result<Option<Endpoint>, Error>)
        ensures
            r is Ok <==> channel_present(old(self)@, id as int),
            r is Err ==> final(self)@ == old(self)@ && r == Err::<Option<Endpoint>, Error>(Error::NotFound),
            r matches Ok(out) ==> ({
                &&& updated_at(old(self)@, final(self)@, id as int)
                &&& channel_present(final(self)@, id as int)
                &&& remove_post(old(self)@[id as int]->0@, final(self)@[id as int]->0@, index as int, out)
            }),
    {
        match self.channels.remove(id) {
            Some(mut channel) => {
                let out = channel.deregister(index);
                self.channels.put(id, channel);
                Ok(out)
            },
            None => Err(Error::NotFound),
        }
    }

    /// Evicts and closes every subscriber of the channel under `id`,
    /// which itself stays allocated; `NotFound` for an unknown id.
    pub fn deregister_all(&mut self, id: usize) -> (r: Result<(), Error>)
        ensures
            r is Ok <==> channel_present(old(self)@, id as int),
            r is Err ==> final(self)@ == old(self)@ && r == Err::<(), Error>(Error::NotFound),
            r is Ok ==> ({
                &&& updated_at(old(self)@, final(self)@, id as int)
                &&& channel_present(final(self)@, id as int)
                &&& forall|j: int| 0 <= j < final(self)@[id as int]->0@.len()
                    ==> final(self)@[id as int]->0@[j] is None
            }),
    {
        match self.channels.remove(id) {
            Some(mut channel) => {
                channel.deregister_all();
                self.channels.put(id, channel);
                Ok(())
            },
            None => Err(Error::NotFound),
        }
    }

    /// Broadcasts `message` on the channel under `id`, evicting the
    /// subscribers whose send failed and yielding their indices;
    /// `NotFound` for an unknown id.
    pub fn broadcast(&mut self, id: usize, message: &Vec<u8>) -> (r: Result<Vec<usize>, Error>)
        ensures
            r is Ok <==> channel_present(old(self)@, id as int),
            r is Err ==> final(self)@ == old(self)@ && r == Err::<Vec<usize>, Error>(Error::NotFound),
            r matches Ok(evicted) ==> ({
                &&& updated_at(old(self)@, final(self)@, id as int)
                &&& channel_present(final(self)@, id as int)
                &&& broadcast_post(old(self)@[id as int]->0@, final(self)@[id as int]->0@, evicted@)
            }),
    {
        match self.channels.remove(id) {
            Some(mut channel) => {
                let evicted = channel.broadcast(message);
                self.channels.put(id, channel);
                Ok(evicted)
            },
            None => Err(Error::NotFound),
        }
    }
}

/// A channel id that was just removed is not present any more, so a
/// lookup of that id fails with `NotFound`.
pub proof fn lemma_removed_channel_absent(before: Seq<Option<Channel>>, after: Seq<Option<Channel>>, id: int)
    requires
        0 <= id < before.len(),
        after == before.update(id, None::<Channel>),
    ensures
        !channel_present(after, id),
{
}

} // verus!
