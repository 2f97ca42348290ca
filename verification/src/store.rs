use vstd::prelude::*;
use crate::address::same_address;
use crate::address::Address;
use crate::stream::PaymentStream;

verus! {

/// The key under which a stream is kept: its sender and its recipient.
pub open spec fn key_of(stream: PaymentStream) -> (Address, Address) {
    (stream.sender, stream.recipient)
}

/// The streams that the engine has opened, each under the pair of its sender
/// and its recipient. No pair has more than one stream.
#[derive(Clone, Debug)]
pub struct StreamStore {
    streams: Vec<PaymentStream>,
}

impl View for StreamStore {
    type V = Map<(Address, Address), PaymentStream>;

    /// The store as a map from each pair of sender and recipient to the
    /// stream that is recorded for it.
    closed spec fn view(&self) -> Map<(Address, Address), PaymentStream> {
        Map::new(
            |key: (Address, Address)| self.holds(key),
            |key: (Address, Address)| self.streams@[self.place(key)],
        )
    }
}

impl StreamStore {
    /// Whether the stream at index `i` lies under `key`.
    spec fn holds_at(&self, key: (Address, Address), i: int) -> bool {
        0 <= i < self.streams@.len() && key_of(self.streams@[i]) == key
    }

    /// Whether some stream lies under `key`.
    spec fn holds(&self, key: (Address, Address)) -> bool {
        exists|i: int| self.holds_at(key, i)
    }

    /// An index at which a stream lies under `key`, where there is one.
    spec fn place(&self, key: (Address, Address)) -> int {
        choose|i: int| self.holds_at(key, i)
    }

    /// What the engine keeps true of the store: every stream in it is well
    /// formed, and no two share their sender and their recipient.
    pub closed spec fn well_formed(&self) -> bool {
        &&& forall|i: int|
            0 <= i < self.streams@.len() ==> (#[trigger] self.streams@[i]).well_formed()
        &&& forall|i: int, j: int|
            0 <= i < self.streams@.len() && 0 <= j < self.streams@.len() && key_of(
                self.streams@[i],
            ) == key_of(self.streams@[j]) ==> i == j
        &&& self@.dom().finite()
        &&& self@.dom().len() == self.streams@.len()
    }

    /// In a well-formed store every stream is well formed and lies under its
    /// own sender and recipient.
    pub proof fn lemma_entries(&self, key: (Address, Address))
        requires
            self.well_formed(),
            self@.contains_key(key),
        ensures
            self@[key].well_formed(),
            key_of(self@[key]) == key,
    {
        assert(self.holds_at(key, self.place(key)));
    }

    /// In a well-formed store the stream at each index is the one that the
    /// view shows under its key.
    proof fn lemma_place(&self, i: int)
        requires
            self.well_formed(),
            0 <= i < self.streams@.len(),
        ensures
            self@.contains_key(key_of(self.streams@[i])),
            self@[key_of(self.streams@[i])] == self.streams@[i],
    {
        let key = key_of(self.streams@[i]);
        assert(self.holds_at(key, i));
        assert(self.holds_at(key, self.place(key)));
    }

    /// A store without streams.
    pub fn new() -> (store: StreamStore)
        ensures
            store.well_formed(),
            store@ == Map::<(Address, Address), PaymentStream>::empty(),
    {
        let store = StreamStore { streams: Vec::new() };
        assert forall|key: (Address, Address)| !store@.contains_key(key) by {
            if store.holds(key) {
                assert(store.holds_at(key, store.place(key)));
            }
        }
        assert(store@ =~= Map::<(Address, Address), PaymentStream>::empty());
        store
    }

    /// How many streams are recorded.
    pub fn len(&self) -> (count: usize)
        requires
            self.well_formed(),
        ensures
            count == self@.dom().len(),
    {
        self.streams.len()
    }

    /// The index of the stream from `sender` to `recipient`, if one is
    /// recorded.
    fn position(&self, sender: &Address, recipient: &Address) -> (found: Option<usize>)
        ensures
            match found {
                Some(i) => self.holds_at((*sender, *recipient), i as int),
                None => !self.holds((*sender, *recipient)),
            },
    {
        let mut i: usize = 0;
        while i < self.streams.len()
            invariant
                i <= self.streams@.len(),
                forall|j: int| 0 <= j < i ==> !self.holds_at((*sender, *recipient), j),
            decreases self.streams@.len() - i,
        {
            let stream: &PaymentStream = &self.streams[i];
            if same_address(&stream.sender, sender) && same_address(&stream.recipient, recipient) {
                return Some(i);
            }
            i += 1;
        }
        None
    }

    /// The stream from `sender` to `recipient`, if one is recorded.
    pub fn get(&self, sender: &Address, recipient: &Address) -> (found: Option<PaymentStream>)
        requires
            self.well_formed(),
        ensures
            found == (if self@.contains_key((*sender, *recipient)) {
                Some(self@[(*sender, *recipient)])
            } else {
                None
            }),
    {
        match self.position(sender, recipient) {
            Some(i) => {
                proof {
                    self.lemma_place(i as int);
                }
                Some(self.streams[i])
            },
            None => None,
        }
    }

    /// Records `stream` under its sender and recipient, in place of the
    /// stream that was recorded for them, if there was one.
    pub(crate) fn put(&mut self, stream: PaymentStream)
        requires
            old(self).well_formed(),
            stream.well_formed(),
        ensures
            final(self).well_formed(),
            final(self)@ == old(self)@.insert(key_of(stream), stream),
    {
        let ghost before = *self;
        let ghost at: int;
        match self.position(&stream.sender, &stream.recipient) {
            Some(i) => {
                self.streams[i] = stream;
                proof {
                    at = i as int;
                }
            },
            None => {
                self.streams.push(stream);
                proof {
                    at = self.streams@.len() - 1;
                }
            },
        }
        assert(self.holds_at(key_of(stream), at));
        assert forall|j: int| 0 <= j < self.streams@.len() && j != at implies j
            < before.streams@.len() && self.streams@[j] == before.streams@[j] && key_of(
            self.streams@[j],
        ) != key_of(stream) by {
            if key_of(before.streams@[j]) == key_of(stream) {
                assert(before.holds_at(key_of(stream), j));
            }
        }
        assert forall|key: (Address, Address)|
            self@.contains_key(key) <==> before@.insert(key_of(stream), stream).contains_key(
                key,
            ) by {
            if before.holds(key) && key != key_of(stream) {
                assert(self.holds_at(key, before.place(key)));
            }
            if self.holds(key) && key != key_of(stream) {
                assert(before.holds_at(key, self.place(key)));
            }
        }
        assert forall|key: (Address, Address)| self@.contains_key(key) implies self@[key]
            == before@.insert(key_of(stream), stream)[key] by {
            let j = self.place(key);
            assert(self.holds_at(key, j));
            if key != key_of(stream) {
                assert(before.holds_at(key, j));
                before.lemma_place(j);
            }
        }
        assert(self@ =~= before@.insert(key_of(stream), stream));
    }
}

} // verus!
