//! The external signer adapter.
//!
//! The adapter satisfies the signing capability set — public-key retrieval,
//! event signing, and two pairwise-encryption schemes — by delegating every
//! operation to caller-supplied foreign callbacks, one invocation and one
//! response per operation. It holds no private key material: the public key
//! is supplied at construction, and everything else is the foreign side's
//! work. The foreign callback may involve out-of-band human approval, so
//! the adapter imposes no timeout, no retry and no fallback.
//!
//! Each callback set carries a ghost history of its invocations, so the
//! adapter's contracts say exactly which foreign call each operation makes,
//! with which arguments, and that its result is the response verbatim.
//!
//! Signing is the one operation with structure: the unsigned event is
//! framed in the canonical transport form of [`crate::event_json`], and the
//! response must denote a valid signed event. A response in the canonical
//! form is checked by the verified parser and handed back field for field;
//! any other JSON form a real signer might produce is accepted through the
//! `serde_json`/`nostr-sdk` parser behind trusted wrappers, with the
//! event's identity fields still validated here. Anything else is a
//! signing failure with no partial event.

use crate::error::ApiError;
use crate::event_json::{
    EventData, UnsignedEventData, event_json, event_matches_parts, event_parts_of,
    lemma_event_json_round_trip, lemma_parse_event_json_valid, parse_event, parse_event_json,
    serialize_unsigned_event, unsigned_event_json, well_formed_event,
};
use vstd::prelude::*;
use vstd::string::StrSliceExecFns;

verus! {

/// One recorded foreign invocation: the operation, its arguments, and the
/// foreign side's response.
pub enum SignerCall {
    /// A signing request and its response, both in transport bytes.
    SignEvent {
        /// The framed unsigned event handed to the foreign signer.
        request: Seq<u8>,
        /// The foreign signer's answer.
        response: Seq<u8>,
    },
    /// An encryption under the first scheme.
    Nip04Encrypt {
        /// The plaintext handed over.
        content: Seq<char>,
        /// The counterparty's public key, hex form.
        counterparty: Seq<char>,
        /// The foreign side's ciphertext.
        response: Seq<char>,
    },
    /// A decryption under the first scheme.
    Nip04Decrypt {
        /// The ciphertext handed over.
        content: Seq<char>,
        /// The counterparty's public key, hex form.
        counterparty: Seq<char>,
        /// The foreign side's plaintext.
        response: Seq<char>,
    },
    /// An encryption under the second scheme.
    Nip44Encrypt {
        /// The plaintext handed over.
        content: Seq<char>,
        /// The counterparty's public key, hex form.
        counterparty: Seq<char>,
        /// The foreign side's ciphertext.
        response: Seq<char>,
    },
    /// A decryption under the second scheme.
    Nip44Decrypt {
        /// The payload handed over.
        content: Seq<char>,
        /// The counterparty's public key, hex form.
        counterparty: Seq<char>,
        /// The foreign side's plaintext.
        response: Seq<char>,
    },
}

/// The five foreign operations the host supplies. Each is asynchronous and
/// possibly human-mediated on the foreign side; here each is one call that
/// returns one response. Nothing is assumed about the responses — the
/// foreign side is the authority for all of them — but every call appends
/// exactly one record to the ghost history, so callers know each operation
/// invokes its callback exactly once, with which arguments, and returns
/// the response verbatim.
pub trait SignerCallbacks: Sized {
    /// The foreign invocations made so far, in order.
    spec fn calls(&self) -> Seq<SignerCall>;

    /// Signs an unsigned event given in canonical transport form and
    /// returns the signed event as the foreign side serializes it.
    fn sign_event(&mut self, unsigned_json: Vec<u8>) -> (r: Vec<u8>)
        ensures
            final(self).calls() == old(self).calls().push(
                SignerCall::SignEvent { request: unsigned_json@, response: r@ },
            ),
    ;

    /// Encrypts `content` for `counterparty` under the first scheme.
    fn nip04_encrypt(&mut self, content: String, counterparty: String) -> (r: String)
        ensures
            final(self).calls() == old(self).calls().push(
                SignerCall::Nip04Encrypt {
                    content: content@,
                    counterparty: counterparty@,
                    response: r@,
                },
            ),
    ;

    /// Decrypts `content` from `counterparty` under the first scheme.
    fn nip04_decrypt(&mut self, content: String, counterparty: String) -> (r: String)
        ensures
            final(self).calls() == old(self).calls().push(
                SignerCall::Nip04Decrypt {
                    content: content@,
                    counterparty: counterparty@,
                    response: r@,
                },
            ),
    ;

    /// Encrypts `content` for `counterparty` under the second scheme.
    fn nip44_encrypt(&mut self, content: String, counterparty: String) -> (r: String)
        ensures
            final(self).calls() == old(self).calls().push(
                SignerCall::Nip44Encrypt {
                    content: content@,
                    counterparty: counterparty@,
                    response: r@,
                },
            ),
    ;

    /// Decrypts `content` from `counterparty` under the second scheme.
    fn nip44_decrypt(&mut self, content: String, counterparty: String) -> (r: String)
        ensures
            final(self).calls() == old(self).calls().push(
                SignerCall::Nip44Decrypt {
                    content: content@,
                    counterparty: counterparty@,
                    response: r@,
                },
            ),
    ;
}

/// Clones a byte string.
fn clone_bytes(v: &Vec<u8>) -> (r: Vec<u8>)
    ensures
        r@ == v@,
{
    let mut r: Vec<u8> = Vec::new();
    let mut i: usize = 0;
    while i < v.len()
        invariant
            i <= v@.len(),
            r@ == v@.take(i as int),
        decreases v@.len() - i,
    {
        r.push(v[i]);
        proof {
            assert(r@ =~= v@.take(i + 1));
        }
        i = i + 1;
    }
    proof {
        assert(v@.take(v@.len() as int) =~= v@);
    }
    r
}

/// A callback set answering every operation with a fixed response and
/// recording each invocation: the in-memory stand-in for the foreign
/// signer.
#[derive(Clone)]
pub struct FixedResponseCallbacks {
    /// The response handed back for signing requests.
    pub sign_response: Vec<u8>,
    /// The response handed back for the four encryption operations.
    pub text_response: String,
    /// The signing requests received, in order.
    pub sign_requests: Vec<Vec<u8>>,
    /// The full invocation history.
    pub history: Ghost<Seq<SignerCall>>,
}

impl FixedResponseCallbacks {
    /// A callback set with the given responses and no calls yet.
    pub fn new(sign_response: Vec<u8>, text_response: String) -> (s: Self)
        ensures
            s.sign_response == sign_response,
            s.text_response == text_response,
            s.sign_requests@ == Seq::<Vec<u8>>::empty(),
            s.calls() == Seq::<SignerCall>::empty(),
    {
        FixedResponseCallbacks {
            sign_response,
            text_response,
            sign_requests: Vec::new(),
            history: Ghost(Seq::empty()),
        }
    }
}

impl SignerCallbacks for FixedResponseCallbacks {
    open spec fn calls(&self) -> Seq<SignerCall> {
        self.history@
    }

    fn sign_event(&mut self, unsigned_json: Vec<u8>) -> (r: Vec<u8>) {
        let ghost request = unsigned_json@;
        let r = clone_bytes(&self.sign_response);
        self.history = Ghost(self.history@.push(SignerCall::SignEvent { request, response: r@ }));
        self.sign_requests.push(unsigned_json);
        r
    }

    fn nip04_encrypt(&mut self, content: String, counterparty: String) -> (r: String) {
        let r = self.text_response.clone();
        self.history = Ghost(
            self.history@.push(
                SignerCall::Nip04Encrypt {
                    content: content@,
                    counterparty: counterparty@,
                    response: r@,
                },
            ),
        );
        r
    }

    fn nip04_decrypt(&mut self, content: String, counterparty: String) -> (r: String) {
        let r = self.text_response.clone();
        self.history = Ghost(
            self.history@.push(
                SignerCall::Nip04Decrypt {
                    content: content@,
                    counterparty: counterparty@,
                    response: r@,
                },
            ),
        );
        r
    }

    fn nip44_encrypt(&mut self, content: String, counterparty: String) -> (r: String) {
        let r = self.text_response.clone();
        self.history = Ghost(
            self.history@.push(
                SignerCall::Nip44Encrypt {
                    content: content@,
                    counterparty: counterparty@,
                    response: r@,
                },
            ),
        );
        r
    }

    fn nip44_decrypt(&mut self, content: String, counterparty: String) -> (r: String) {
        let r = self.text_response.clone();
        self.history = Ghost(
            self.history@.push(
                SignerCall::Nip44Decrypt {
                    content: content@,
                    counterparty: counterparty@,
                    response: r@,
                },
            ),
        );
        r
    }
}

/// Builds the signing request for an unsigned event: its canonical
/// transport form.
pub fn build_sign_request(unsigned: &UnsignedEventData) -> (out: Vec<u8>)
    ensures
        out@ == unsigned_event_json(*unsigned),
{
    serialize_unsigned_event(unsigned)
}

/// The outside type carrying a signed event parsed by the foreign-form
/// parser.
#[verifier::external_type_specification]
#[verifier::external_body]
pub struct ExForeignEvent(nostr_sdk::prelude::Event);

/// Relies on `serde_json::from_slice` for `nostr_sdk::prelude::Event`:
/// accepts any JSON text denoting a signed event — any field order,
/// whitespace or escape style — as the original transport did.
#[verifier::external_body]
fn parse_event_serde(bytes: &Vec<u8>) -> (r: Option<nostr_sdk::prelude::Event>) {
    serde_json::from_slice::<nostr_sdk::prelude::Event>(bytes).ok()
}

/// Relies on `EventId::to_hex` on the event's id field.
#[verifier::external_body]
fn foreign_event_id_hex(e: &nostr_sdk::prelude::Event) -> (r: String) {
    e.id.to_hex()
}

/// Relies on `PublicKey::to_hex` on the event's pubkey field.
#[verifier::external_body]
fn foreign_event_pubkey_hex(e: &nostr_sdk::prelude::Event) -> (r: String) {
    e.pubkey.to_hex()
}

/// Relies on `Timestamp::as_secs` on the event's creation time.
#[verifier::external_body]
fn foreign_event_created_at(e: &nostr_sdk::prelude::Event) -> (r: u64) {
    e.created_at.as_secs()
}

/// Relies on `Kind::as_u16` on the event's kind.
#[verifier::external_body]
fn foreign_event_kind(e: &nostr_sdk::prelude::Event) -> (r: u16) {
    e.kind.as_u16()
}

/// Relies on `String::clone` on the event's content field.
#[verifier::external_body]
fn foreign_event_content(e: &nostr_sdk::prelude::Event) -> (r: String) {
    e.content.clone()
}

/// Relies on `ToString` for `Signature` on the event's signature field.
#[verifier::external_body]
fn foreign_event_sig_hex(e: &nostr_sdk::prelude::Event) -> (r: String) {
    e.sig.to_string()
}

/// Relies on `Tags::to_vec` on a clone of the event's tag list.
#[verifier::external_body]
fn foreign_event_tags(e: &nostr_sdk::prelude::Event) -> (r: Vec<nostr_sdk::prelude::Tag>) {
    e.tags.clone().to_vec()
}

/// Relies on `Tag::to_vec`: the tag's entries in order.
#[verifier::external_body]
fn foreign_tag_entries(t: nostr_sdk::prelude::Tag) -> (r: Vec<String>) {
    t.to_vec()
}

/// Rebuilds the library's event model from a foreign-parsed signed event,
/// checking the identity fields' shape here; nothing about the field
/// values is taken from the foreign parser on trust beyond what the
/// wrappers hand through.
fn event_from_foreign(e: &nostr_sdk::prelude::Event) -> (r: Option<EventData>)
    ensures
        r matches Some(ev) ==> well_formed_event(ev),
{
    let id = foreign_event_id_hex(e).as_str().as_bytes_vec();
    let pubkey = foreign_event_pubkey_hex(e).as_str().as_bytes_vec();
    let sig = foreign_event_sig_hex(e).as_str().as_bytes_vec();
    if !(id.len() == 64 && crate::event_json::all_hex_exec(&id) && pubkey.len() == 64
        && crate::event_json::all_hex_exec(&pubkey) && sig.len() == 128
        && crate::event_json::all_hex_exec(&sig)) {
        return None;
    }
    let mut tags: Vec<Vec<Vec<u8>>> = Vec::new();
    let mut source_tags = foreign_event_tags(e);
    while source_tags.len() > 0
        decreases source_tags@.len(),
    {
        let tag = source_tags.remove(0);
        let entries = foreign_tag_entries(tag);
        let mut tag_bytes: Vec<Vec<u8>> = Vec::new();
        let mut i: usize = 0;
        while i < entries.len()
            invariant
                i <= entries@.len(),
            decreases entries@.len() - i,
        {
            tag_bytes.push(entries[i].as_str().as_bytes_vec());
            i = i + 1;
        }
        tags.push(tag_bytes);
    }
    Some(
        EventData {
            id,
            pubkey,
            created_at: foreign_event_created_at(e),
            kind: foreign_event_kind(e),
            tags,
            content: foreign_event_content(e).as_str().as_bytes_vec(),
            sig,
        },
    )
}

/// Checks a foreign signing response. A response in the crate's canonical
/// transport form is checked by the verified parser and returned field for
/// field; any other JSON form denoting a signed event is accepted through
/// the foreign-form parser, with the identity fields validated here. A
/// response that denotes no signed event fails as a signing error with no
/// partial event.
pub fn handle_sign_response(response: &Vec<u8>) -> (r: Result<EventData, ApiError>)
    ensures
        parse_event_json(response@) matches Some(p) ==> r matches Ok(e) && event_matches_parts(
            e,
            p,
        ),
        r matches Ok(e) ==> well_formed_event(e),
        r matches Err(err) ==> err is SignerFailure && parse_event_json(response@) is None,
{
    proof {
        lemma_parse_event_json_valid(response@);
    }
    match parse_event(response) {
        Some(e) => Ok(e),
        None => match parse_event_serde(response) {
            Some(foreign) => match event_from_foreign(&foreign) {
                Some(e) => Ok(e),
                None => Err(ApiError::SignerFailure),
            },
            None => Err(ApiError::SignerFailure),
        },
    }
}

/// Law: a foreign signer that echoes back a well-formed signed event in
/// canonical transport form hands the event through unchanged, field for
/// field; and a response that is not a canonical signed event never yields
/// an event from the canonical parser. Together with the contract of
/// [`handle_sign_response`], signing returns exactly what a well-behaved
/// signer produced and fails cleanly on anything else.
pub proof fn lemma_sign_echo_unchanged(ev: EventData, response: Seq<u8>)
    requires
        well_formed_event(ev),
        response == event_json(ev),
    ensures
        parse_event_json(response) == Some(event_parts_of(ev)),
{
    lemma_event_json_round_trip(ev);
}

/// The adapter: the account's public key plus the foreign callback set.
/// Construction invokes no callback; it only stores the handles. Cloning
/// shares the capability set, so several operations may run against one
/// signer. Every cryptographic operation is one foreign call, awaited
/// once, as its contract records.
#[derive(Clone)]
pub struct ExternalSigner<C: SignerCallbacks> {
    /// The account's public key, 64 hex digits, known at construction.
    pub pubkey: String,
    /// The foreign callbacks.
    pub callbacks: C,
}

impl<C: SignerCallbacks> ExternalSigner<C> {
    /// Builds an adapter from a public key and the callback set. The
    /// result holds exactly what was given: in particular the callback
    /// history is untouched, so no foreign call runs during construction.
    pub fn new(pubkey: String, callbacks: C) -> (s: Self)
        ensures
            s.pubkey == pubkey,
            s.callbacks == callbacks,
    {
        ExternalSigner { pubkey, callbacks }
    }

    /// The public key supplied at construction; no foreign call is made.
    pub fn get_public_key(&self) -> (r: String)
        ensures
            r == self.pubkey,
    {
        self.pubkey.clone()
    }

    /// Signs an unsigned event: exactly one foreign signing call, whose
    /// request is the event's canonical transport form. The response is
    /// accepted exactly when it denotes a valid signed event — a response
    /// in canonical form comes back field for field, so a signer that
    /// echoes a signed event of the same content returns it with that
    /// content unchanged. Anything else fails as a signing error.
    pub fn sign_event(&mut self, unsigned: &UnsignedEventData) -> (r: Result<EventData, ApiError>)
        ensures
            final(self).pubkey == old(self).pubkey,
            final(self).callbacks.calls().len() == old(self).callbacks.calls().len() + 1,
            final(self).callbacks.calls().drop_last() == old(self).callbacks.calls(),
            final(self).callbacks.calls().last() matches SignerCall::SignEvent {
                request,
                response,
            } && request == unsigned_event_json(*unsigned) && (parse_event_json(response) matches
            Some(p) ==> r matches Ok(e) && event_matches_parts(e, p)) && (r matches Err(err)
                ==> err is SignerFailure && parse_event_json(response) is None),
            r matches Ok(e) ==> well_formed_event(e),
    {
        let request = build_sign_request(unsigned);
        let response = self.callbacks.sign_event(request);
        let r = handle_sign_response(&response);
        proof {
            assert(final(self).callbacks.calls().drop_last() =~= old(self).callbacks.calls());
        }
        r
    }

    /// Encrypts under the first scheme: exactly one foreign call with
    /// `(content, counterparty)`, its response returned verbatim. The
    /// adapter validates nothing here — the foreign side is the authority
    /// for ciphertext shape.
    pub fn nip04_encrypt(&mut self, counterparty: String, content: String) -> (r: String)
        ensures
            final(self).pubkey == old(self).pubkey,
            final(self).callbacks.calls() == old(self).callbacks.calls().push(
                SignerCall::Nip04Encrypt {
                    content: content@,
                    counterparty: counterparty@,
                    response: r@,
                },
            ),
    {
        self.callbacks.nip04_encrypt(content, counterparty)
    }

    /// Decrypts under the first scheme: exactly one foreign call with
    /// `(content, counterparty)`, its response returned verbatim.
    pub fn nip04_decrypt(&mut self, counterparty: String, content: String) -> (r: String)
        ensures
            final(self).pubkey == old(self).pubkey,
            final(self).callbacks.calls() == old(self).callbacks.calls().push(
                SignerCall::Nip04Decrypt {
                    content: content@,
                    counterparty: counterparty@,
                    response: r@,
                },
            ),
    {
        self.callbacks.nip04_decrypt(content, counterparty)
    }

    /// Encrypts under the second scheme: exactly one foreign call with
    /// `(content, counterparty)`, its response returned verbatim.
    pub fn nip44_encrypt(&mut self, counterparty: String, content: String) -> (r: String)
        ensures
            final(self).pubkey == old(self).pubkey,
            final(self).callbacks.calls() == old(self).callbacks.calls().push(
                SignerCall::Nip44Encrypt {
                    content: content@,
                    counterparty: counterparty@,
                    response: r@,
                },
            ),
    {
        self.callbacks.nip44_encrypt(content, counterparty)
    }

    /// Decrypts under the second scheme: exactly one foreign call with
    /// `(content, counterparty)`, its response returned verbatim.
    pub fn nip44_decrypt(&mut self, counterparty: String, content: String) -> (r: String)
        ensures
            final(self).pubkey == old(self).pubkey,
            final(self).callbacks.calls() == old(self).callbacks.calls().push(
                SignerCall::Nip44Decrypt {
                    content: content@,
                    counterparty: counterparty@,
                    response: r@,
                },
            ),
    {
        self.callbacks.nip44_decrypt(content, counterparty)
    }
}

} // verus!
