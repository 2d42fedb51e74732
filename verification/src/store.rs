//! A credential store in memory. It answers requests as the platform's store
//! is expected to: one secret per pair of service and user, created or
//! replaced by a save, read by a get, removed by a delete.

use crate::auth::{StoreError, StoreErrorView, TokenReply, TokenReplyView, TokenRequest, TokenRequestView, NO_ENTRY};
use vstd::prelude::*;

verus! {

/// What a store answers to a request, given the secrets it holds.
pub open spec fn answer(
    secrets: Map<(Seq<char>, Seq<char>), Seq<char>>,
    request: TokenRequestView,
) -> TokenReplyView {
    match request {
        TokenRequestView::Save { service, user, secret } => TokenReplyView::Done,
        TokenRequestView::Get { service, user } => if secrets.dom().contains((service, user)) {
            TokenReplyView::Secret(secrets[(service, user)])
        } else {
            TokenReplyView::Failed(StoreErrorView::NotFound(NO_ENTRY@))
        },
        TokenRequestView::Delete { service, user } => if secrets.dom().contains((service, user)) {
            TokenReplyView::Done
        } else {
            TokenReplyView::Failed(StoreErrorView::NotFound(NO_ENTRY@))
        },
    }
}

/// The secrets that a store holds after a request.
pub open spec fn after(
    secrets: Map<(Seq<char>, Seq<char>), Seq<char>>,
    request: TokenRequestView,
) -> Map<(Seq<char>, Seq<char>), Seq<char>> {
    match request {
        TokenRequestView::Save { service, user, secret } => secrets.insert((service, user), secret),
        TokenRequestView::Get { service, user } => secrets,
        TokenRequestView::Delete { service, user } => secrets.remove((service, user)),
    }
}

struct Credential {
    service: String,
    user: String,
    secret: String,
}

impl Credential {
    spec fn address(&self) -> (Seq<char>, Seq<char>) {
        (self.service@, self.user@)
    }
}

/// The store. No two of its entries have the same service and user.
pub struct CredentialStore {
    entries: Vec<Credential>,
}

impl View for CredentialStore {
    type V = Map<(Seq<char>, Seq<char>), Seq<char>>;

    /// The secrets held, each under its service and user.
    closed spec fn view(&self) -> Map<(Seq<char>, Seq<char>), Seq<char>> {
        Map::new(
            |address: (Seq<char>, Seq<char>)| self.index_of(address) is Some,
            |address: (Seq<char>, Seq<char>)| self.entries[self.index_of(address)->0].secret@,
        )
    }
}

impl CredentialStore {
    spec fn holds_at(&self, i: int, address: (Seq<char>, Seq<char>)) -> bool {
        0 <= i < self.entries.len() && self.entries[i].address() == address
    }

    spec fn index_of(&self, address: (Seq<char>, Seq<char>)) -> Option<int> {
        if exists|i: int| self.holds_at(i, address) {
            Some(choose|i: int| self.holds_at(i, address))
        } else {
            None
        }
    }

    /// No address occurs twice.
    pub closed spec fn well_formed(&self) -> bool {
        forall|i: int, j: int|
            0 <= i < j < self.entries.len() ==> self.entries[i].address()
                != self.entries[j].address()
    }

    proof fn index_is_unique(&self, i: int, address: (Seq<char>, Seq<char>))
        requires
            self.well_formed(),
            self.holds_at(i, address),
        ensures
            self.index_of(address) == Some(i),
            self@.dom().contains(address),
            self@[address] == self.entries[i].secret@,
    {
        let j = choose|j: int| self.holds_at(j, address);
        assert(self.holds_at(j, address));
        if i < j {
            assert(self.entries[i].address() != self.entries[j].address());
        } else if j < i {
            assert(self.entries[j].address() != self.entries[i].address());
        }
    }

    /// A store that holds nothing.
    pub fn new() -> (store: Self)
        ensures
            store.well_formed(),
            store@ == Map::<(Seq<char>, Seq<char>), Seq<char>>::empty(),
    {
        let store = CredentialStore { entries: Vec::new() };
        assert(store@ =~= Map::<(Seq<char>, Seq<char>), Seq<char>>::empty());
        store
    }

    fn find(&self, service: &String, user: &String) -> (found: Option<usize>)
        requires
            self.well_formed(),
        ensures
            match found {
                Some(i) => self.holds_at(i as int, (service@, user@)),
                None => !self@.dom().contains((service@, user@)),
            },
    {
        let mut i: usize = 0;
        while i < self.entries.len()
            invariant
                i <= self.entries.len(),
                forall|k: int| 0 <= k < i ==> !self.holds_at(k, (service@, user@)),
            decreases self.entries.len() - i,
        {
            if self.entries[i].service == *service && self.entries[i].user == *user {
                return Some(i);
            }
            i = i + 1;
        }
        None
    }

    /// Answers a request and keeps what it changes.
    pub fn perform(&mut self, request: &TokenRequest) -> (reply: TokenReply)
        requires
            old(self).well_formed(),
        ensures
            final(self).well_formed(),
            final(self)@ == after(old(self)@, request@),
            reply@ == answer(old(self)@, request@),
    {
        match request {
            TokenRequest::Save { service, user, secret } => {
                let entry = Credential {
                    service: service.clone(),
                    user: user.clone(),
                    secret: secret.clone(),
                };
                match self.find(service, user) {
                    Some(i) => {
                        self.entries.set(i, entry);
                        proof {
                            self.save_replaces(*old(self), i as int);
                        }
                    },
                    None => {
                        self.entries.push(entry);
                        proof {
                            self.save_appends(*old(self));
                        }
                    },
                }
                TokenReply::Done
            },
            TokenRequest::Get { service, user } => match self.find(service, user) {
                Some(i) => {
                    proof {
                        self.index_is_unique(i as int, (service@, user@));
                    }
                    TokenReply::Secret(self.entries[i].secret.clone())
                },
                None => TokenReply::Failed(StoreError::NotFound(NO_ENTRY.to_owned())),
            },
            TokenRequest::Delete { service, user } => match self.find(service, user) {
                Some(i) => {
                    proof {
                        self.index_is_unique(i as int, (service@, user@));
                    }
                    self.entries.remove(i);
                    proof {
                        self.delete_removes(*old(self), i as int);
                    }
                    TokenReply::Done
                },
                None => {
                    assert(self@ =~= self@.remove((service@, user@)));
                    TokenReply::Failed(StoreError::NotFound(NO_ENTRY.to_owned()))
                },
            },
        }
    }

    proof fn save_replaces(&self, before: Self, i: int)
        requires
            before.well_formed(),
            0 <= i < before.entries.len(),
            self.entries.len() == before.entries.len(),
            self.entries[i].address() == before.entries[i].address(),
            forall|k: int| 0 <= k < before.entries.len() && k != i ==> self.entries[k] == before.entries[k],
        ensures
            self.well_formed(),
            self@ == before@.insert(self.entries[i].address(), self.entries[i].secret@),
    {
        assert forall|a: int, b: int| 0 <= a < b < self.entries.len() implies self.entries[a].address()
            != self.entries[b].address() by {
            assert(before.entries[a].address() != before.entries[b].address());
        }
        let target = before@.insert(self.entries[i].address(), self.entries[i].secret@);
        assert forall|address: (Seq<char>, Seq<char>)| self@.dom().contains(address) implies #[trigger] target.dom().contains(address)
            && target[address] == self@[address] by {
            let k = self.index_of(address)->0;
            assert(self.holds_at(k, address));
            self.index_is_unique(k, address);
            if k != i {
                assert(before.holds_at(k, address));
                before.index_is_unique(k, address);
            }
        }
        assert forall|address: (Seq<char>, Seq<char>)| target.dom().contains(address) implies #[trigger] self@.dom().contains(address) by {
            if address == self.entries[i].address() {
                self.index_is_unique(i, address);
            } else {
                let k = before.index_of(address)->0;
                assert(before.holds_at(k, address));
                assert(self.holds_at(k, address));
                self.index_is_unique(k, address);
            }
        }
        assert(self@ =~= target);
    }

    proof fn save_appends(&self, before: Self)
        requires
            before.well_formed(),
            self.entries@.len() == before.entries@.len() + 1,
            forall|k: int| 0 <= k < before.entries.len() ==> self.entries[k] == before.entries[k],
            !before@.dom().contains(self.entries@.last().address()),
        ensures
            self.well_formed(),
            self@ == before@.insert(self.entries@.last().address(), self.entries@.last().secret@),
    {
        let n = before.entries.len() as int;
        assert forall|a: int, b: int| 0 <= a < b < self.entries.len() implies self.entries[a].address()
            != self.entries[b].address() by {
            if b == n {
                if self.entries[a].address() == self.entries[b].address() {
                    assert(before.holds_at(a, self.entries[b].address()));
                    before.index_is_unique(a, self.entries[b].address());
                }
            } else {
                assert(before.entries[a].address() != before.entries[b].address());
            }
        }
        let target = before@.insert(self.entries@.last().address(), self.entries@.last().secret@);
        assert forall|address: (Seq<char>, Seq<char>)| self@.dom().contains(address) implies #[trigger] target.dom().contains(address)
            && target[address] == self@[address] by {
            let k = self.index_of(address)->0;
            assert(self.holds_at(k, address));
            self.index_is_unique(k, address);
            if k != n {
                assert(before.holds_at(k, address));
                before.index_is_unique(k, address);
            }
        }
        assert forall|address: (Seq<char>, Seq<char>)| target.dom().contains(address) implies #[trigger] self@.dom().contains(address) by {
            if address == self.entries@.last().address() {
                self.index_is_unique(n, address);
            } else {
                let k = before.index_of(address)->0;
                assert(before.holds_at(k, address));
                assert(self.holds_at(k, address));
                self.index_is_unique(k, address);
            }
        }
        assert(self@ =~= target);
    }

    proof fn delete_removes(&self, before: Self, i: int)
        requires
            before.well_formed(),
            0 <= i < before.entries.len(),
            self.entries@ == before.entries@.remove(i),
        ensures
            self.well_formed(),
            self@ == before@.remove(before.entries[i].address()),
    {
        assert forall|a: int, b: int| 0 <= a < b < self.entries.len() implies self.entries[a].address()
            != self.entries[b].address() by {
            let a0 = if a < i { a } else { a + 1 };
            let b0 = if b < i { b } else { b + 1 };
            assert(before.entries[a0].address() != before.entries[b0].address());
        }
        let gone = before.entries[i].address();
        let target = before@.remove(gone);
        assert forall|address: (Seq<char>, Seq<char>)| self@.dom().contains(address) implies #[trigger] target.dom().contains(address)
            && target[address] == self@[address] by {
            let k = self.index_of(address)->0;
            assert(self.holds_at(k, address));
            self.index_is_unique(k, address);
            let k0 = if k < i { k } else { k + 1 };
            assert(before.holds_at(k0, address));
            before.index_is_unique(k0, address);
            if address == gone {
                before.index_is_unique(i, address);
            }
        }
        assert forall|address: (Seq<char>, Seq<char>)| target.dom().contains(address) implies #[trigger] self@.dom().contains(address) by {
            let k0 = before.index_of(address)->0;
            assert(before.holds_at(k0, address));
            assert(k0 != i);
            let k = if k0 < i { k0 } else { k0 - 1 };
            assert(self.holds_at(k, address));
            self.index_is_unique(k, address);
        }
        assert(self@ =~= target);
    }
}

} // verus!
