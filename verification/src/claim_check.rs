//! The claim-check operator: large payloads are put in storage and replaced
//! by a claim, which can later be redeemed or cleared. Storage itself is the
//! caller's part (`CheckStorage`); this module decides what to store, fetch
//! or clear, and how each outcome is answered.

use vstd::prelude::*;
use crate::configs::ClaimCheckAction;
use crate::json::{Json, JsonView, jview, member, str_of, members_view, object, json_print, print_json};
use crate::message::Message;
use crate::operators::{is_error_message, is_json_message, is_standard_message, unexpected, unexpected_text};

verus! {

/// Where a claimed payload is kept, and under which claim.
#[derive(Debug, Clone, PartialEq, Eq)]
pub struct ClaimCheckReference {
    pub claim_type: String,
    pub claim_value: String,
}

/// A claim that does not (or no longer) refer to a stored payload.
#[derive(Debug)]
pub struct ClaimCheckInvalidError;

impl ClaimCheckInvalidError {
    /// The error's description.
    pub fn message(&self) -> (res: String)
        ensures
            res@ == invalid_claim_text(),
    {
        String::from_str("Claim check is either invalid or has expired.")
    }
}

/// The description of an invalid claim.
pub open spec fn invalid_claim_text() -> Seq<char> {
    "Claim check is either invalid or has expired."@
}

/// A store of claimed payloads. What a store keeps, and which claims it
/// hands out, is its own matter: the two relations below name, for each
/// store, the claims it issues for payloads and the payloads it gives for
/// claim ids, and `put` and `get` answer within them. A store that does not
/// describe them keeps the defaults, which admit every claim and payload.
pub trait CheckStorage {
    /// Whether `reference` is a claim this store issues for `message`.
    open spec fn issues(&self, message: Seq<u8>, reference: ClaimCheckReference) -> bool {
        true
    }

    /// Whether this store gives `payload` for the claim id `claim_id`.
    open spec fn redeems(&self, claim_id: Seq<char>, payload: Seq<u8>) -> bool {
        true
    }

    /// Stores a payload and returns its claim.
    fn put(&self, message: Vec<u8>) -> (reference: ClaimCheckReference)
        ensures
            self.issues(message@, reference);

    /// The payload of a claim.
    fn get(&self, claim_id: &str) -> (res: Result<Vec<u8>, ClaimCheckInvalidError>)
        ensures
            res matches Ok(payload) ==> self.redeems(claim_id@, payload@);

    /// Whether this store has forgotten the claim id `claim_id`.
    open spec fn clears(&self, claim_id: Seq<char>) -> bool {
        true
    }

    /// Forgets a claim.
    fn clear(&self, claim_id: &str)
        ensures
            self.clears(claim_id@);
}

/// Whether a character is a lower-case hexadecimal digit.
pub open spec fn is_lower_hex(c: char) -> bool {
    ('0' <= c && c <= '9') || ('a' <= c && c <= 'f')
}

/// A fresh claim id: a random (version 4) UUID from `uuid::Uuid::new_v4`,
/// printed in its hyphenated lower-case form (8-4-4-4-12 hexadecimal digits).
/// Which UUID is drawn is not stated.
#[verifier::external_body]
pub fn new_claim_id() -> (res: String)
    ensures
        res@.len() == 36,
        forall|i: int| 0 <= i < 36 ==> if i == 8 || i == 13 || i == 18 || i == 23 {
            #[trigger] res@[i] == '-'
        } else {
            is_lower_hex(res@[i])
        },
{
    uuid::Uuid::new_v4().to_string()
}

/// The file of a claim: `/tmp/claim_check_ID.bin`.
pub open spec fn claim_path_text(id: Seq<char>) -> Seq<char> {
    "/tmp/claim_check_"@ + id + ".bin"@
}

/// The file that holds the payload of claim `id`.
pub fn claim_path(id: &str) -> (res: String)
    ensures
        res@ == claim_path_text(id@),
{
    let mut p = String::from_str("/tmp/claim_check_");
    p.append(id);
    p.append(".bin");
    p
}

/// The claim of a payload kept in the file system under `id`.
pub fn filesystem_reference(id: String) -> (res: ClaimCheckReference)
    ensures
        res.claim_type@ == "filesystem"@,
        res.claim_value == id,
{
    ClaimCheckReference { claim_type: String::from_str("filesystem"), claim_value: id }
}

/// Whether a text is a UUID in its hyphenated lower-case form: 36
/// characters, hyphens at positions 8, 13, 18 and 23, lower-case
/// hexadecimal digits elsewhere.
pub open spec fn is_uuid_text(s: Seq<char>) -> bool {
    s.len() == 36 && forall|i: int| 0 <= i < 36 ==> if i == 8 || i == 13 || i == 18 || i == 23 {
        #[trigger] s[i] == '-'
    } else {
        is_lower_hex(s[i])
    }
}

/// Access to the files claimed payloads are kept in; reading and writing
/// them is the caller's part. What the files hold is the file system's
/// matter: the two relations below name, for each file access, what a write
/// leaves in a file and what a read may give; the defaults admit anything.
pub trait ClaimFiles {
    /// Whether the file at `path` holds `data` after it was written.
    open spec fn wrote(&self, path: Seq<char>, data: Seq<u8>) -> bool {
        true
    }

    /// Whether a read of the file at `path` may give `data`.
    open spec fn reads(&self, path: Seq<char>, data: Seq<u8>) -> bool {
        true
    }

    /// Writes `data` to the file at `path`.
    fn write(&self, path: &str, data: &Vec<u8>)
        ensures
            self.wrote(path@, data@);

    /// The contents of the file at `path` (`None` when it cannot be read).
    fn read(&self, path: &str) -> (res: Option<Vec<u8>>)
        ensures
            res matches Some(data) ==> self.reads(path@, data@);

    /// Whether the file at `path` is gone after it was removed.
    open spec fn removed(&self, path: Seq<char>) -> bool {
        true
    }

    /// Removes the file at `path`; `false` when there was none.
    fn remove(&self, path: &str) -> (res: bool)
        ensures
            self.removed(path@);
}

/// The file-system store of claimed payloads: each payload is kept in the
/// file of a fresh UUID (`claim_path`), and its claim is of type
/// `filesystem` with that UUID as value.
pub struct CheckFs<F> {
    pub files: F,
}

impl<F: ClaimFiles> CheckStorage for CheckFs<F> {
    /// A claim issued for a payload is of type `filesystem`, its value a
    /// UUID whose file holds the payload.
    open spec fn issues(&self, message: Seq<u8>, reference: ClaimCheckReference) -> bool {
        &&& reference.claim_type@ == "filesystem"@
        &&& is_uuid_text(reference.claim_value@)
        &&& self.files.wrote(claim_path_text(reference.claim_value@), message)
    }

    /// The payload of a claim id is what its file gives.
    open spec fn redeems(&self, claim_id: Seq<char>, payload: Seq<u8>) -> bool {
        self.files.reads(claim_path_text(claim_id), payload)
    }

    fn put(&self, message: Vec<u8>) -> (reference: ClaimCheckReference) {
        let id = new_claim_id();
        assert(is_uuid_text(id@));
        let path = claim_path(id.as_str());
        self.files.write(path.as_str(), &message);
        filesystem_reference(id)
    }

    fn get(&self, claim_id: &str) -> (res: Result<Vec<u8>, ClaimCheckInvalidError>) {
        let path = claim_path(claim_id);
        match self.files.read(path.as_str()) {
            Some(data) => Ok(data),
            None => Err(ClaimCheckInvalidError),
        }
    }

    /// A claim id is forgotten when its file is removed.
    open spec fn clears(&self, claim_id: Seq<char>) -> bool {
        self.files.removed(claim_path_text(claim_id))
    }

    fn clear(&self, claim_id: &str) {
        let path = claim_path(claim_id);
        let _ = self.files.remove(path.as_str());
    }
}

/// What a claim-check node must do with a message.
pub enum ClaimStep<O, C> {
    /// Store the bytes, then answer with `put_reply`.
    Put { data: Vec<u8>, origin: Option<O> },
    /// Fetch the payload of a claim, then answer with `get_reply`.
    Get { claim_id: String, origin: Option<O> },
    /// Forget a claim, then answer with `clear_reply`.
    Clear { claim_id: String, origin: Option<O> },
    /// Answer at once.
    Reply { message: Message<O, C> },
}

/// The error text of a request without a claim id, for node `fqn`.
pub open spec fn no_claim_id_text(fqn: Seq<char>) -> Seq<char> {
    "ClaimCheckInvalidError: ["@ + fqn + "] No claim id provided"@
}

/// The error text of a claim that cannot be redeemed, for node `fqn`.
pub open spec fn expired_claim_text(fqn: Seq<char>) -> Seq<char> {
    "ClaimCheckInvalidError: ["@ + fqn + "] "@ + invalid_claim_text()
}

/// The error text of a standard message sent to a getter.
pub open spec fn standard_getter_text() -> Seq<char> {
    "Can not use a Standard message for Getters"@
}

fn claim_error_text(fqn: &str, tail: &str) -> (res: String)
    ensures
        res@ == "ClaimCheckInvalidError: ["@ + fqn@ + tail@,
{
    let mut t = String::from_str("ClaimCheckInvalidError: [");
    t.append(fqn);
    t.append(tail);
    t
}

/// What node `fqn` with `action` does with `msg`: a standard message is put
/// (getters refuse it); a JSON document is put as its printed bytes, or its
/// `claim_id` is fetched or cleared (an error when it has none); any other
/// message is answered with "Unexpected message type".
pub fn claim_check_plan<O, C>(action: ClaimCheckAction, fqn: &str, msg: Message<O, C>) -> (res: ClaimStep<O, C>)
    ensures
        match msg {
            Message::Standard { message, origin } => match action {
                ClaimCheckAction::Put => res matches ClaimStep::Put { data, origin: o } && data@ == message@ && o == origin,
                _ => res matches ClaimStep::Reply { message: m } && is_error_message(m, standard_getter_text(), origin),
            },
            Message::JSON { message, origin } => match action {
                ClaimCheckAction::Put => res matches ClaimStep::Put { data, origin: o }
                    && data@ == json_print(jview(message)) && o == origin,
                ClaimCheckAction::Get => match str_of(member(jview(message), "claim_id"@)) {
                    Some(id) => res matches ClaimStep::Get { claim_id, origin: o } && claim_id@ == id && o == origin,
                    None => res matches ClaimStep::Reply { message: m } && is_error_message(m, no_claim_id_text(fqn@), origin),
                },
                ClaimCheckAction::Clear => match str_of(member(jview(message), "claim_id"@)) {
                    Some(id) => res matches ClaimStep::Clear { claim_id, origin: o } && claim_id@ == id && o == origin,
                    None => res matches ClaimStep::Reply { message: m } && is_error_message(m, no_claim_id_text(fqn@), origin),
                },
            },
            _ => res matches ClaimStep::Reply { message: m } && is_error_message(m, unexpected_text(), None),
        },
{
    match msg {
        Message::Standard { message, origin } => match action {
            ClaimCheckAction::Put => ClaimStep::Put { data: message, origin },
            _ => ClaimStep::Reply {
                message: Message::Error { error: String::from_str("Can not use a Standard message for Getters"), origin },
            },
        },
        Message::JSON { message, origin } => match action {
            ClaimCheckAction::Put => ClaimStep::Put { data: print_json(&message), origin },
            _ => {
                let id = match message.get("claim_id") {
                    Some(v) => match v.as_str() {
                        Some(s) => Some(s.clone()),
                        None => None,
                    },
                    None => None,
                };
                match id {
                    Some(claim_id) => if action == ClaimCheckAction::Get {
                        ClaimStep::Get { claim_id, origin }
                    } else {
                        ClaimStep::Clear { claim_id, origin }
                    },
                    None => ClaimStep::Reply {
                        message: Message::Error { error: claim_error_text(fqn, "] No claim id provided"), origin },
                    },
                }
            },
        },
        _ => ClaimStep::Reply { message: unexpected(None) },
    }
}

/// The document of a claim: `{"claim_type": ..., "claim_value": ...}`.
pub open spec fn reference_view(claim_type: Seq<char>, claim_value: Seq<char>) -> JsonView {
    JsonView::Object(seq![
        ("claim_type"@, JsonView::Str(claim_type)),
        ("claim_value"@, JsonView::Str(claim_value)),
    ])
}

/// The answer to a put: the claim, as a JSON document.
pub fn put_reply<O, C>(reference: ClaimCheckReference, origin: Option<O>) -> (res: Message<O, C>)
    ensures
        is_json_message(res, reference_view(reference.claim_type@, reference.claim_value@), origin),
{
    let ghost t = reference.claim_type@;
    let ghost v = reference.claim_value@;
    let mut fields: Vec<(String, Json)> = Vec::new();
    fields.push((String::from_str("claim_type"), Json::Str(reference.claim_type)));
    fields.push((String::from_str("claim_value"), Json::Str(reference.claim_value)));
    let doc = object(fields);
    assert(members_view(fields@) =~= seq![("claim_type"@, JsonView::Str(t)), ("claim_value"@, JsonView::Str(v))]);
    Message::JSON { message: doc, origin }
}

/// The answer to a get: the payload as a standard message, or, when the
/// claim cannot be redeemed (`None`), the error "ClaimCheckInvalidError:
/// [FQN] Claim check is either invalid or has expired.".
pub fn get_reply<O, C>(payload: Option<Vec<u8>>, fqn: &str, origin: Option<O>) -> (res: Message<O, C>)
    ensures
        match payload {
            Some(m) => is_standard_message(res, m@, origin),
            None => is_error_message(res, expired_claim_text(fqn@), origin),
        },
{
    match payload {
        Some(m) => Message::Standard { message: m, origin },
        None => {
            let mut t = claim_error_text(fqn, "] ");
            let e = ClaimCheckInvalidError;
            let text = e.message();
            t.append(text.as_str());
            Message::Error { error: t, origin }
        },
    }
}

/// The answer to a clear: an empty standard message.
pub fn clear_reply<O, C>(origin: Option<O>) -> (res: Message<O, C>)
    ensures
        is_standard_message(res, Seq::empty(), origin),
{
    Message::Standard { message: Vec::new(), origin }
}

/// A claim-check node: what it does (`action`) and its fully qualified name.
#[derive(Debug)]
pub struct ClaimCheck {
    pub action: ClaimCheckAction,
    pub fqn: String,
}

impl crate::graph::NodeInit for ClaimCheck {
    /// After `init` the node is named after its metadata and keeps its action.
    open spec fn inits(self, meta: crate::meta::NodeMeta, after: Self) -> bool {
        &&& after.fqn@ == crate::meta::fqn_text(meta.graph@, meta.name@, meta.operator@, meta.engine_view())
        &&& after.action == self.action
    }

    fn init(&mut self, meta: &crate::meta::NodeMeta) {
        self.fqn = meta.fqn();
    }
}

/// Whether `m` answers the put of `data` into `storage`: a claim the
/// storage issues for `data`, as a JSON document, with origin `o`.
pub open spec fn is_put_answer<S: CheckStorage, O, C>(storage: S, data: Seq<u8>, m: Message<O, C>, o: Option<O>) -> bool {
    exists|r: ClaimCheckReference|
        #[trigger] storage.issues(data, r) && is_json_message(m, reference_view(r.claim_type@, r.claim_value@), o)
}

/// A put into the file-system store is answered with a claim of type
/// `filesystem` whose value is a UUID, and the file of that UUID was
/// written with the payload.
pub proof fn fs_put_answer<F: ClaimFiles, O, C>(storage: CheckFs<F>, data: Seq<u8>, m: Message<O, C>, o: Option<O>)
    requires
        is_put_answer(storage, data, m, o),
    ensures
        exists|u: Seq<char>|
            #[trigger] is_json_message(m, reference_view("filesystem"@, u), o) && is_uuid_text(u)
                && storage.files.wrote(claim_path_text(u), data),
{
    let r = choose|r: ClaimCheckReference|
        #[trigger] storage.issues(data, r) && is_json_message(m, reference_view(r.claim_type@, r.claim_value@), o);
    assert(is_json_message(m, reference_view("filesystem"@, r.claim_value@), o));
}

/// Whether `m` answers node `fqn`'s get of `claim_id` from `storage`: a
/// payload the storage gives for that claim id, or the expired-claim error,
/// with origin `o`.
pub open spec fn is_get_answer<S: CheckStorage, O, C>(storage: S, claim_id: Seq<char>, m: Message<O, C>, fqn: Seq<char>, o: Option<O>) -> bool {
    (exists|b: Seq<u8>| #[trigger] storage.redeems(claim_id, b) && is_standard_message(m, b, o))
        || is_error_message(m, expired_claim_text(fqn), o)
}

impl ClaimCheck {
    /// A claim-check node as configured (see `ClaimCheckAction::from_config`),
    /// not yet named.
    pub fn from_config(config: &Json) -> (res: Self)
        ensures
            res.action == match str_of(member(jview(*config), "action"@)) {
                Some(s) => crate::configs::action_named(s),
                None => ClaimCheckAction::Put,
            },
            res.fqn@ == Seq::<char>::empty(),
    {
        ClaimCheck { action: ClaimCheckAction::from_config(config), fqn: String::new() }
    }

    /// Names the node after its metadata (its fully qualified name).
    pub fn init(&mut self, meta: &crate::meta::NodeMeta)
        ensures
            final(self).fqn@ == crate::meta::fqn_text(meta.graph@, meta.name@, meta.operator@, meta.engine_view()),
            final(self).action == old(self).action,
    {
        self.fqn = meta.fqn();
    }

    /// Stores a payload and answers with its claim.
    pub fn put<S: CheckStorage, O, C>(&self, storage: &S, message: Vec<u8>, origin: Option<O>) -> (res: Message<O, C>)
        ensures
            is_put_answer(*storage, message@, res, origin),
    {
        let ghost data = message@;
        let reference = storage.put(message);
        let ghost r = reference;
        let res = put_reply(reference, origin);
        assert(storage.issues(data, r) && is_json_message(res, reference_view(r.claim_type@, r.claim_value@), origin));
        res
    }

    /// Answers with the payload of a claim, or the expired-claim error.
    pub fn get<S: CheckStorage, O, C>(&self, storage: &S, claim_id: &str, origin: Option<O>) -> (res: Message<O, C>)
        ensures
            is_get_answer(*storage, claim_id@, res, self.fqn@, origin),
    {
        let payload = match storage.get(claim_id) {
            Ok(m) => Some(m),
            Err(_) => None,
        };
        let ghost p = payload;
        let res = get_reply(payload, self.fqn.as_str(), origin);
        proof {
            match p {
                Some(m) => { assert(storage.redeems(claim_id@, m@) && is_standard_message(res, m@, origin)); },
                None => {},
            }
        }
        res
    }

    /// Forgets a claim.
    pub fn clear<S: CheckStorage>(&self, storage: &S, claim_id: &str)
        ensures
            storage.clears(claim_id@),
    {
        storage.clear(claim_id);
    }

    /// Handles a message (see `claim_check_plan`), using `storage`.
    pub fn handle<S: CheckStorage, O, C>(&self, storage: &S, msg: Message<O, C>) -> (res: Message<O, C>)
        ensures
            match msg {
                Message::Standard { message, origin } => match self.action {
                    ClaimCheckAction::Put => is_put_answer(*storage, message@, res, origin),
                    _ => is_error_message(res, standard_getter_text(), origin),
                },
                Message::JSON { message, origin } => match self.action {
                    ClaimCheckAction::Put => is_put_answer(*storage, json_print(jview(message)), res, origin),
                    ClaimCheckAction::Get => match str_of(member(jview(message), "claim_id"@)) {
                        Some(id) => is_get_answer(*storage, id, res, self.fqn@, origin),
                        None => is_error_message(res, no_claim_id_text(self.fqn@), origin),
                    },
                    ClaimCheckAction::Clear => match str_of(member(jview(message), "claim_id"@)) {
                        Some(id) => is_standard_message(res, Seq::empty(), origin) && storage.clears(id),
                        None => is_error_message(res, no_claim_id_text(self.fqn@), origin),
                    },
                },
                _ => is_error_message(res, unexpected_text(), None),
            },
    {
        match claim_check_plan(self.action, self.fqn.as_str(), msg) {
            ClaimStep::Put { data, origin } => self.put(storage, data, origin),
            ClaimStep::Get { claim_id, origin } => self.get(storage, claim_id.as_str(), origin),
            ClaimStep::Clear { claim_id, origin } => {
                self.clear(storage, claim_id.as_str());
                clear_reply(origin)
            },
            ClaimStep::Reply { message } => message,
        }
    }
}

} // verus!
