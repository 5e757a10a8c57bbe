//! Call sessions and the registry of reachable endpoints.
use vstd::prelude::*;

use crate::router::decision::ServiceId;
use crate::switch::negotiation::{AudioNegotiationState, StateView};
use crate::text_map::TextMap;

verus! {

/// Where registered endpoints can be reached: from the address of record to the contact.
#[derive(Debug)]
pub struct LocationStore {
    contacts: TextMap<String>,
}

impl View for LocationStore {
    type V = Map<Seq<char>, Seq<char>>;

    closed spec fn view(&self) -> Map<Seq<char>, Seq<char>> {
        self.contacts@.map_values(|contact: String| contact@)
    }
}

impl LocationStore {
    /// Nobody is registered.
    pub fn new() -> (store: LocationStore)
        ensures
            store@ == Map::<Seq<char>, Seq<char>>::empty(),
    {
        let store = LocationStore { contacts: TextMap::new() };
        proof {
            assert(store@ =~= Map::<Seq<char>, Seq<char>>::empty());
        }
        store
    }

    /// Registers where an address of record can be reached, in place of what was known.
    pub fn register(&mut self, aor: String, contact: String)
        ensures
            final(self)@ == old(self)@.insert(aor@, contact@),
    {
        self.contacts.insert(aor, contact);
        proof {
            assert(self@ =~= old(self)@.insert(aor@, contact@));
        }
    }

    /// Where an address of record can be reached, if it is registered.
    pub fn lookup(&self, aor: &str) -> (contact: Option<&String>)
        ensures
            contact is Some <==> self@.dom().contains(aor@),
            contact is Some ==> contact->0@ == self@[aor@],
    {
        self.contacts.get(aor)
    }
}

/// One call: its two legs and what was negotiated between them.
#[derive(Debug)]
pub struct CallSession {
    pub call_id: String,
    pub b_leg: Option<ServiceId>,
    pub offer_sdp: Option<String>,
    pub audio: Option<AudioNegotiationState>,
    pub b_leg_offer_sdp: Option<String>,
    pub b_leg_answer_sdp: Option<String>,
}

/// What a call is, for the contracts.
#[verifier::ext_equal]
pub struct CallView {
    pub call_id: Seq<char>,
    pub b_leg: Option<ServiceId>,
    pub offer_sdp: Option<Seq<char>>,
    pub audio: Option<StateView>,
    pub b_leg_offer_sdp: Option<Seq<char>>,
    pub b_leg_answer_sdp: Option<Seq<char>>,
}

/// What an optional text says.
pub open spec fn text_view(text: Option<String>) -> Option<Seq<char>> {
    match text {
        Some(text) => Some(text@),
        None => None,
    }
}

impl View for CallSession {
    type V = CallView;

    open spec fn view(&self) -> CallView {
        CallView {
            call_id: self.call_id@,
            b_leg: self.b_leg,
            offer_sdp: text_view(self.offer_sdp),
            audio: match self.audio {
                Some(state) => Some(state@),
                None => None,
            },
            b_leg_offer_sdp: text_view(self.b_leg_offer_sdp),
            b_leg_answer_sdp: text_view(self.b_leg_answer_sdp),
        }
    }
}

/// A call about which only its id is known.
pub open spec fn fresh_call(call_id: Seq<char>) -> CallView {
    CallView {
        call_id,
        b_leg: None,
        offer_sdp: None,
        audio: None,
        b_leg_offer_sdp: None,
        b_leg_answer_sdp: None,
    }
}

impl CallSession {
    /// A call about which only its id is known. Its first leg is a placeholder.
    pub fn new(call_id: String) -> (session: CallSession)
        ensures
            session@ == fresh_call(call_id@),
    {
        CallSession {
            call_id,
            b_leg: None,
            offer_sdp: None,
            audio: None,
            b_leg_offer_sdp: None,
            b_leg_answer_sdp: None,
        }
    }
}

} // verus!
