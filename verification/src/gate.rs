//! The initialization gate: a slot for the shared secret that is written at
//! most once.
//!
//! The slot starts out empty. A candidate is checked in a fixed order, and
//! only the expected key, offered while the slot is empty, is stored. From
//! then on every attempt is turned away and the stored value stays as it is.
//!
//! A gate is changed through `&mut`, so two attempts on one gate never
//! overlap: a host that serves several threads keeps its gate behind a lock.

use once_cell::sync::OnceCell;
use vstd::prelude::*;
use vstd::utf8::*;

use crate::codec::{same_bytes, utf8_text};
use crate::response::{plain_text, OwnedResponse};
use crate::status::{lemma_status_reply_plain, status_reply, status_reply_text};

verus! {

/// The key that the host has to present.
pub const EXPECTED_KEY: &'static str = "e80b5017098950fc58aad83c8c14978e";

/// The cell of `once_cell` that can be set once. What it holds is known as
/// [`slot_value`].
#[verifier::external_type_specification]
#[verifier::external_body]
#[verifier::reject_recursive_types(T)]
pub struct ExOnceCell<T>(once_cell::sync::OnceCell<T>);

/// What a cell of `once_cell` holds: the text that it was set to, or nothing.
pub uninterp spec fn slot_value(cell: OnceCell<String>) -> Option<Seq<char>>;

/// `OnceCell::new` of `once_cell`: the new cell is empty.
#[verifier::external_body]
fn empty_slot() -> (cell: OnceCell<String>)
    ensures
        slot_value(cell) is None,
{
    OnceCell::new()
}

/// `OnceCell::set` of `once_cell`, called by the only holder of the cell. An
/// empty cell takes the value and the call returns `Ok`. A full cell stays as
/// it is, and the value comes back in `Err`.
#[verifier::external_body]
fn slot_set(cell: &mut OnceCell<String>, value: String) -> (outcome: Result<(), String>)
    ensures
        slot_value(*old(cell)) is None ==> outcome is Ok,
        slot_value(*old(cell)) is None ==> slot_value(*final(cell)) == Some(value@),
        slot_value(*old(cell)) is Some ==> (outcome matches Err(rejected) && rejected@ == value@),
        slot_value(*old(cell)) is Some ==> slot_value(*final(cell)) == slot_value(*old(cell)),
    no_unwind
{
    cell.set(value)
}

/// `OnceCell::get` of `once_cell`: the value that the cell holds, if any.
#[verifier::external_body]
fn slot_get(cell: &OnceCell<String>) -> (value: Option<&String>)
    ensures
        match value {
            Some(text) => slot_value(*cell) == Some(text@),
            None => slot_value(*cell) is None,
        },
{
    cell.get()
}

/// How an attempt to set the key ended.
#[derive(Clone, Copy, Debug, PartialEq, Eq, Structural)]
pub enum KeyOutcome {
    /// The candidate is not UTF-8 text.
    InvalidUtf8,
    /// The candidate is the empty text.
    Empty,
    /// The candidate is not the expected key.
    Invalid,
    /// The candidate is the expected key and the slot took it.
    Accepted,
    /// The candidate is the expected key, but the slot was taken already.
    AlreadyInitialized,
}

impl KeyOutcome {
    /// The message of the reply for this outcome.
    pub open spec fn message_text(self) -> Seq<char> {
        match self {
            KeyOutcome::InvalidUtf8 => "Invalid UTF-8 sequence"@,
            KeyOutcome::Empty => "Key cannot be empty"@,
            KeyOutcome::Invalid => "Invalid key"@,
            KeyOutcome::Accepted => "Success"@,
            KeyOutcome::AlreadyInitialized => "Key already initialized"@,
        }
    }

    /// True for every outcome but the one that stored the key.
    pub open spec fn failed(self) -> bool {
        !(self is Accepted)
    }

    /// The text of the reply for this outcome.
    pub open spec fn reply_text(self) -> Seq<char> {
        status_reply_text(self.message_text(), self.failed())
    }

    /// The status of the reply: zero where the key was stored, one otherwise.
    pub fn status(&self) -> (status: u8)
        ensures
            status == (if self.failed() {
                1u8
            } else {
                0u8
            }),
    {
        match self {
            KeyOutcome::Accepted => 0,
            _ => 1,
        }
    }

    /// The message of the reply.
    pub fn message(&self) -> (message: &'static str)
        ensures
            message@ == self.message_text(),
            plain_text(message@),
    {
        proof {
            reveal_strlit("Invalid UTF-8 sequence");
            reveal_strlit("Key cannot be empty");
            reveal_strlit("Invalid key");
            reveal_strlit("Success");
            reveal_strlit("Key already initialized");
        }
        match self {
            KeyOutcome::InvalidUtf8 => "Invalid UTF-8 sequence",
            KeyOutcome::Empty => "Key cannot be empty",
            KeyOutcome::Invalid => "Invalid key",
            KeyOutcome::Accepted => "Success",
            KeyOutcome::AlreadyInitialized => "Key already initialized",
        }
    }

    /// The reply for this outcome.
    pub fn reply(&self) -> (reply: String)
        ensures
            reply@ == self.reply_text(),
            plain_text(reply@),
    {
        let message = self.message();
        proof {
            lemma_status_reply_plain(message@, self.failed());
        }
        status_reply(message, self.status() != 0)
    }
}

/// The outcome of offering `candidate` to a slot that holds `stored`. The
/// checks are made in this order, and the first that fails decides.
pub open spec fn key_outcome(stored: Option<Seq<char>>, candidate: Seq<u8>) -> KeyOutcome {
    if !valid_utf8(candidate) {
        KeyOutcome::InvalidUtf8
    } else if candidate.len() == 0 {
        KeyOutcome::Empty
    } else if candidate != encode_utf8(EXPECTED_KEY@) {
        KeyOutcome::Invalid
    } else if stored is Some {
        KeyOutcome::AlreadyInitialized
    } else {
        KeyOutcome::Accepted
    }
}

/// What the slot holds after `candidate` was offered to a slot that held
/// `stored`.
pub open spec fn stored_after(stored: Option<Seq<char>>, candidate: Seq<u8>) -> Option<Seq<char>> {
    if key_outcome(stored, candidate) is Accepted {
        Some(EXPECTED_KEY@)
    } else {
        stored
    }
}

/// The outcomes of offering the candidates, one after the other, to a slot
/// that holds `stored` before the first.
pub open spec fn outcomes_of(stored: Option<Seq<char>>, candidates: Seq<Seq<u8>>) -> Seq<
    KeyOutcome,
>
    decreases candidates.len(),
{
    if candidates.len() == 0 {
        Seq::empty()
    } else {
        seq![key_outcome(stored, candidates[0])] + outcomes_of(
            stored_after(stored, candidates[0]),
            candidates.drop_first(),
        )
    }
}

/// How many of the outcomes are `which`.
pub open spec fn count_of(outcomes: Seq<KeyOutcome>, which: KeyOutcome) -> nat
    decreases outcomes.len(),
{
    if outcomes.len() == 0 {
        0
    } else if outcomes[0] == which {
        1 + count_of(outcomes.drop_first(), which)
    } else {
        count_of(outcomes.drop_first(), which)
    }
}

/// The expected key, as the host sends it, passes every check on the
/// candidate itself: an empty slot takes it, a full one says that it is taken.
pub proof fn lemma_expected_key(stored: Option<Seq<char>>)
    ensures
        key_outcome(stored, encode_utf8(EXPECTED_KEY@)) == (if stored is None {
            KeyOutcome::Accepted
        } else {
            KeyOutcome::AlreadyInitialized
        }),
        stored_after(None, encode_utf8(EXPECTED_KEY@)) == Some(EXPECTED_KEY@),
{
    reveal_strlit("e80b5017098950fc58aad83c8c14978e");
    assert(is_ascii_chars(EXPECTED_KEY@));
    is_ascii_chars_encode_utf8(EXPECTED_KEY@);
    encode_utf8_valid_utf8(EXPECTED_KEY@);
}

/// Once the slot holds a value, every attempt fails and the value stays.
pub proof fn lemma_set_once(stored: Option<Seq<char>>, candidate: Seq<u8>)
    requires
        stored is Some,
    ensures
        key_outcome(stored, candidate).failed(),
        stored_after(stored, candidate) == stored,
{
}

/// An attempt changes the slot only where it is accepted, and an accepted
/// attempt found the slot empty and leaves the expected key in it.
pub proof fn lemma_only_accepted_stores(stored: Option<Seq<char>>, candidate: Seq<u8>)
    ensures
        key_outcome(stored, candidate).failed() ==> stored_after(stored, candidate) == stored,
        !key_outcome(stored, candidate).failed() ==> stored is None && stored_after(
            stored,
            candidate,
        ) == Some(EXPECTED_KEY@),
{
}

/// Offered to a slot that holds a value, no run of candidates is accepted.
pub proof fn lemma_none_accepted_when_set(stored: Option<Seq<char>>, candidates: Seq<Seq<u8>>)
    requires
        stored is Some,
    ensures
        count_of(outcomes_of(stored, candidates), KeyOutcome::Accepted) == 0,
    decreases candidates.len(),
{
    if candidates.len() > 0 {
        let rest = outcomes_of(stored_after(stored, candidates[0]), candidates.drop_first());
        let all = outcomes_of(stored, candidates);
        assert(all.drop_first() == rest);
        lemma_none_accepted_when_set(stored, candidates.drop_first());
    }
}

/// Out of any run of attempts on an empty slot, at most one is accepted, and
/// exactly one where the expected key is among the candidates.
pub proof fn lemma_single_winner(candidates: Seq<Seq<u8>>)
    ensures
        count_of(outcomes_of(None, candidates), KeyOutcome::Accepted) == (if exists|i: int|
            0 <= i < candidates.len() && #[trigger] candidates[i] == encode_utf8(EXPECTED_KEY@) {
            1nat
        } else {
            0nat
        }),
    decreases candidates.len(),
{
    if candidates.len() > 0 {
        let first = candidates[0];
        let tail = candidates.drop_first();
        let all = outcomes_of(None, candidates);
        let rest = outcomes_of(stored_after(None, first), tail);
        assert(all.drop_first() == rest);
        lemma_expected_key(None);
        if first == encode_utf8(EXPECTED_KEY@) {
            lemma_none_accepted_when_set(Some(EXPECTED_KEY@), tail);
        } else {
            lemma_single_winner(tail);
            assert forall|i: int| 0 <= i < tail.len() implies #[trigger] tail[i] == candidates[i
                + 1] by {}
            if exists|i: int|
                0 <= i < candidates.len() && #[trigger] candidates[i] == encode_utf8(
                    EXPECTED_KEY@,
                ) {
                let i = choose|i: int|
                    0 <= i < candidates.len() && #[trigger] candidates[i] == encode_utf8(
                        EXPECTED_KEY@,
                    );
                assert(tail[i - 1] == encode_utf8(EXPECTED_KEY@));
            }
        }
    }
}

/// Where every candidate is the expected key, the first attempt on an empty
/// slot is accepted and each of the others is told that the key is set.
pub proof fn lemma_repeated_key(candidates: Seq<Seq<u8>>)
    requires
        candidates.len() > 0,
        forall|i: int|
            0 <= i < candidates.len() ==> #[trigger] candidates[i] == encode_utf8(EXPECTED_KEY@),
    ensures
        outcomes_of(None, candidates).len() == candidates.len(),
        outcomes_of(None, candidates)[0] == KeyOutcome::Accepted,
        forall|i: int|
            1 <= i < candidates.len() ==> #[trigger] outcomes_of(None, candidates)[i]
                == KeyOutcome::AlreadyInitialized,
        count_of(outcomes_of(None, candidates), KeyOutcome::Accepted) == 1,
        count_of(outcomes_of(None, candidates), KeyOutcome::AlreadyInitialized)
            == candidates.len() - 1,
{
    lemma_expected_key(None);
    let tail = candidates.drop_first();
    let all = outcomes_of(None, candidates);
    let rest = outcomes_of(Some(EXPECTED_KEY@), tail);
    assert(all.drop_first() == rest);
    lemma_all_told_set(Some(EXPECTED_KEY@), tail);
    lemma_none_accepted_when_set(Some(EXPECTED_KEY@), tail);
    assert forall|i: int| 1 <= i < candidates.len() implies #[trigger] all[i]
        == KeyOutcome::AlreadyInitialized by {
        assert(all[i] == rest[i - 1]);
    }
}

/// Offered to a slot that holds a value, each expected key is told that the
/// key is set.
proof fn lemma_all_told_set(stored: Option<Seq<char>>, candidates: Seq<Seq<u8>>)
    requires
        stored is Some,
        forall|i: int|
            0 <= i < candidates.len() ==> #[trigger] candidates[i] == encode_utf8(EXPECTED_KEY@),
    ensures
        outcomes_of(stored, candidates).len() == candidates.len(),
        forall|i: int|
            0 <= i < candidates.len() ==> #[trigger] outcomes_of(stored, candidates)[i]
                == KeyOutcome::AlreadyInitialized,
        count_of(outcomes_of(stored, candidates), KeyOutcome::AlreadyInitialized)
            == candidates.len(),
    decreases candidates.len(),
{
    if candidates.len() > 0 {
        lemma_expected_key(stored);
        let tail = candidates.drop_first();
        let all = outcomes_of(stored, candidates);
        let rest = outcomes_of(stored, tail);
        assert(all.drop_first() == rest);
        lemma_all_told_set(stored, tail);
        assert forall|i: int| 0 <= i < candidates.len() implies #[trigger] all[i]
            == KeyOutcome::AlreadyInitialized by {
            if i > 0 {
                assert(all[i] == rest[i - 1]);
            }
        }
    }
}

/// A gate in front of the shared secret. The slot behind it is empty or holds
/// the expected key: nothing else is ever stored.
pub struct KeyGate {
    slot: OnceCell<String>,
}

impl KeyGate {
    #[verifier::type_invariant]
    spec fn holds_nothing_else(self) -> bool {
        slot_value(self.slot) is None || slot_value(self.slot) == Some(EXPECTED_KEY@)
    }

    /// The secret that was stored, if one was.
    pub closed spec fn stored(&self) -> Option<Seq<char>> {
        slot_value(self.slot)
    }

    /// A gate whose slot is empty.
    pub fn new() -> (gate: KeyGate)
        ensures
            gate.stored() is None,
    {
        KeyGate { slot: empty_slot() }
    }

    /// The secret that was stored, if one was. It is the expected key.
    pub fn secret(&self) -> (secret: Option<&String>)
        ensures
            match secret {
                Some(text) => self.stored() == Some(text@) && text@ == EXPECTED_KEY@,
                None => self.stored() is None,
            },
    {
        proof {
            use_type_invariant(self);
        }
        slot_get(&self.slot)
    }

    /// Offers `candidate` and says how that ended.
    pub fn attempt(&mut self, candidate: &[u8]) -> (outcome: KeyOutcome)
        ensures
            outcome == key_outcome(old(self).stored(), candidate@),
            final(self).stored() == stored_after(old(self).stored(), candidate@),
    {
        match utf8_text(candidate) {
            None => KeyOutcome::InvalidUtf8,
            Some(text) => {
                if candidate.len() == 0 {
                    KeyOutcome::Empty
                } else if !same_bytes(candidate, EXPECTED_KEY.as_bytes()) {
                    KeyOutcome::Invalid
                } else {
                    proof {
                        use_type_invariant(&*self);
                        encode_utf8_decode_utf8(text@);
                        encode_utf8_decode_utf8(EXPECTED_KEY@);
                        assert(text@ == EXPECTED_KEY@);
                    }
                    match slot_set(&mut self.slot, text.to_owned()) {
                        Ok(_) => KeyOutcome::Accepted,
                        Err(_) => KeyOutcome::AlreadyInitialized,
                    }
                }
            },
        }
    }
}

/// Sets the key, once. A null candidate is a call that should not have been
/// made: nothing is returned and nothing changes. Every other candidate is
/// offered to `gate`, and the reply says how that ended.
pub fn key(gate: &mut KeyGate, candidate: Option<&[u8]>) -> (reply: Option<OwnedResponse>)
    ensures
        candidate is None ==> reply is None && final(gate).stored() == old(gate).stored(),
        candidate matches Some(bytes) ==> {
            &&& final(gate).stored() == stored_after(old(gate).stored(), bytes@)
            &&& reply matches Some(response)
            &&& response@ == encode_utf8(key_outcome(old(gate).stored(), bytes@).reply_text())
        },
{
    match candidate {
        None => None,
        Some(bytes) => {
            let outcome = gate.attempt(bytes);
            let text = outcome.reply();
            Some(OwnedResponse::from_plain(text.as_str()))
        },
    }
}

} // verus!
