//! The decisions of resolution: which slots and tokens a URI accepts, which
//! single slot and object are chosen, where the PIN comes from, and what is
//! searched for.

use vstd::prelude::*;
use vstd::string::StrSliceExecFns;
use crate::attributes::{PathAttributesView, QueryAttributesView};
use crate::text::{chars_of, first_index, same_text, split_once};
use crate::uri::{is_white_space, Pkcs11Uri};

verus! {

/// What a module reports of a slot.
#[derive(Clone, Debug, PartialEq, Eq)]
pub struct SlotInfo {
    pub description: String,
    pub manufacturer: String,
}

/// What a [`SlotInfo`] holds, as mathematical values.
pub struct SlotInfoView {
    pub description: Seq<char>,
    pub manufacturer: Seq<char>,
}

impl View for SlotInfo {
    type V = SlotInfoView;

    open spec fn view(&self) -> SlotInfoView {
        SlotInfoView { description: self.description@, manufacturer: self.manufacturer@ }
    }
}

/// What a module reports of the token in a slot.
#[derive(Clone, Debug, PartialEq, Eq)]
pub struct TokenInfo {
    pub manufacturer: String,
    pub model: String,
    pub label: String,
    /// The serial number, blank-padded to 16 bytes.
    pub serial: [u8; 16],
}

/// What a [`TokenInfo`] holds, as mathematical values.
pub struct TokenInfoView {
    pub manufacturer: Seq<char>,
    pub model: Seq<char>,
    pub label: Seq<char>,
    pub serial: Seq<u8>,
}

impl View for TokenInfo {
    type V = TokenInfoView;

    open spec fn view(&self) -> TokenInfoView {
        TokenInfoView {
            manufacturer: self.manufacturer@,
            model: self.model@,
            label: self.label@,
            serial: self.serial@,
        }
    }
}

/// `pkcs11::errors::Error`, the error of a module call, is carried through
/// as it is.
#[verifier::external_type_specification]
#[verifier::external_body]
pub struct ExModuleError(pkcs11::errors::Error);

/// Why a URI did not resolve to an object.
#[derive(Debug)]
pub enum ResolutionError {
    /// No slot matches the URI.
    NoSlot,
    /// More than one slot matches the URI.
    AmbiguousSlot,
    /// No object matches the URI.
    NoObject,
    /// More than one object matches the URI.
    AmbiguousObject,
    /// The token refused the PIN.
    LoginFailed,
    /// Another call into the module failed.
    ModuleCallFailed(pkcs11::errors::Error),
}

/// An attribute that is absent accepts anything; one that is present accepts
/// only its own value.
pub open spec fn accepts<T>(wanted: Option<T>, reported: T) -> bool {
    wanted matches Some(w) ==> w == reported
}

/// Whether the path attributes accept a slot by its identifier.
pub open spec fn slot_id_accepted(path: PathAttributesView, slot_id: u64) -> bool {
    accepts(path.slot_id, slot_id)
}

/// Whether the path attributes accept a slot: by its identifier, its
/// description and its manufacturer.
pub open spec fn slot_accepted(path: PathAttributesView, slot_id: u64, info: SlotInfoView) -> bool {
    &&& slot_id_accepted(path, slot_id)
    &&& accepts(path.slot_description, info.description)
    &&& accepts(path.slot_manufacturer, info.manufacturer)
}

/// Whether the path attributes accept the token in a slot: by the slot's
/// identifier and the token's manufacturer, model, label and serial number.
pub open spec fn token_accepted(path: PathAttributesView, slot_id: u64, info: TokenInfoView) -> bool {
    &&& slot_id_accepted(path, slot_id)
    &&& accepts(path.token_manufacturer, info.manufacturer)
    &&& accepts(path.token_model, info.model)
    &&& accepts(path.token_label, info.label)
    &&& accepts(path.token_serial, info.serial)
}

/// The verdict on a slot, given what the module answered when it was asked
/// about the slot. A slot that the attributes refuse by its identifier is
/// refused whatever the answer; a report is held against the attributes; a
/// failed call is passed on.
pub open spec fn slot_verdict(
    path: PathAttributesView,
    slot_id: u64,
    answer: Result<SlotInfo, pkcs11::errors::Error>,
) -> Result<bool, ResolutionError> {
    if !slot_id_accepted(path, slot_id) {
        Ok(false)
    } else {
        match answer {
            Ok(info) => Ok(slot_accepted(path, slot_id, info@)),
            Err(e) => Err(ResolutionError::ModuleCallFailed(e)),
        }
    }
}

/// The verdict on the token in a slot, given what the module answered when it
/// was asked about the token. A slot that the attributes refuse by its
/// identifier is refused whatever the answer; a report is held against the
/// attributes; a failed call is passed on.
pub open spec fn token_verdict(
    path: PathAttributesView,
    slot_id: u64,
    answer: Result<TokenInfo, pkcs11::errors::Error>,
) -> Result<bool, ResolutionError> {
    if !slot_id_accepted(path, slot_id) {
        Ok(false)
    } else {
        match answer {
            Ok(info) => Ok(token_accepted(path, slot_id, info@)),
            Err(e) => Err(ResolutionError::ModuleCallFailed(e)),
        }
    }
}

fn text_accepted(wanted: &Option<String>, reported: &String) -> (ok: bool)
    ensures
        ok == accepts(
            match wanted {
                Some(w) => Some(w@),
                None => None,
            },
            reported@,
        ),
{
    match wanted {
        Some(w) => same_text(w.as_str(), reported.as_str()),
        None => true,
    }
}

fn serial_accepted(wanted: &Option<[u8; 16]>, reported: &[u8; 16]) -> (ok: bool)
    ensures
        ok == accepts(
            match wanted {
                Some(w) => Some(w@),
                None => None,
            },
            reported@,
        ),
{
    match wanted {
        Some(w) => {
            let mut i: usize = 0;
            while i < 16
                invariant
                    *wanted == Some(*w),
                    i <= 16,
                    forall|j: int| 0 <= j < i ==> w@[j] == reported@[j],
                decreases 16 - i,
            {
                if w[i] != reported[i] {
                    assert(w@[i as int] != reported@[i as int]);
                    return false;
                }
                i += 1;
            }
            assert(w@ =~= reported@);
            true
        },
        None => true,
    }
}

/// Where the PIN of a session comes from.
#[derive(Clone, Debug, PartialEq, Eq)]
pub enum PinRequest {
    /// No PIN: the session stays anonymous.
    Anonymous,
    /// The PIN itself.
    Literal(String),
    /// The name of the environment variable that holds the PIN.
    Environment(String),
    /// The path of the file that holds the PIN.
    File(String),
}

/// What a [`PinRequest`] holds, as mathematical values.
pub enum PinRequestView {
    Anonymous,
    Literal(Seq<char>),
    Environment(Seq<char>),
    File(Seq<char>),
}

impl View for PinRequest {
    type V = PinRequestView;

    open spec fn view(&self) -> PinRequestView {
        match self {
            PinRequest::Anonymous => PinRequestView::Anonymous,
            PinRequest::Literal(pin) => PinRequestView::Literal(pin@),
            PinRequest::Environment(name) => PinRequestView::Environment(name@),
            PinRequest::File(path) => PinRequestView::File(path@),
        }
    }
}

/// Where a PIN source points: `env:NAME` at an environment variable,
/// `file:PATH` at a file, anything else nowhere.
pub open spec fn pin_source_request(source: Seq<char>) -> PinRequestView {
    let colon = first_index(source, ':');
    let scheme = source.subrange(0, colon);
    let content = source.subrange(colon + 1, source.len() as int);
    if !source.contains(':') {
        PinRequestView::Anonymous
    } else if scheme == "env"@ {
        PinRequestView::Environment(content)
    } else if scheme == "file"@ {
        PinRequestView::File(content)
    } else {
        PinRequestView::Anonymous
    }
}

/// Where the PIN comes from: a PIN value wins over a PIN source, and without
/// either the session is anonymous.
pub open spec fn pin_request_of(query: QueryAttributesView) -> PinRequestView {
    match query.pin_value {
        Some(pin) => PinRequestView::Literal(pin),
        None => match query.pin_source {
            Some(source) => pin_source_request(source),
            None => PinRequestView::Anonymous,
        },
    }
}

/// One condition of an object search.
#[derive(Clone, Debug, PartialEq, Eq)]
pub enum SearchTerm {
    /// The object's label.
    Label(String),
    /// The object's identifier.
    Id(Vec<u8>),
    /// The number of the object's class.
    Class(u64),
}

/// What a [`SearchTerm`] holds, as mathematical values.
pub enum SearchTermView {
    Label(Seq<char>),
    Id(Seq<u8>),
    Class(u64),
}

impl View for SearchTerm {
    type V = SearchTermView;

    open spec fn view(&self) -> SearchTermView {
        match self {
            SearchTerm::Label(label) => SearchTermView::Label(label@),
            SearchTerm::Id(id) => SearchTermView::Id(id@),
            SearchTerm::Class(class) => SearchTermView::Class(*class),
        }
    }
}

/// The views of a sequence of search terms.
pub open spec fn term_views(terms: Seq<SearchTerm>) -> Seq<SearchTermView> {
    Seq::new(terms.len(), |i: int| terms[i]@)
}

/// The search that the path attributes ask for: the label, the identifier and
/// the class of the object, in this order, each where it is present.
pub open spec fn search_terms_of(path: PathAttributesView) -> Seq<SearchTermView> {
    let label = match path.object_label {
        Some(label) => seq![SearchTermView::Label(label)],
        None => Seq::empty(),
    };
    let id = match path.object_id {
        Some(id) => seq![SearchTermView::Id(id)],
        None => Seq::empty(),
    };
    let class = match path.object_class {
        Some(class) => seq![SearchTermView::Class(class.spec_raw())],
        None => Seq::empty(),
    };
    label + id + class
}

/// The most objects that a search asks a module for.
pub const MAX_OBJECTS: u64 = 10;

impl Pkcs11Uri {
    /// Whether the URI accepts a slot by its identifier alone.
    pub fn accepts_slot_id(&self, slot_id: u64) -> (ok: bool)
        ensures
            ok == slot_id_accepted(self@.path_attributes, slot_id),
    {
        match self.path_attributes.slot_id {
            Some(id) => id == slot_id,
            None => true,
        }
    }

    /// Whether the URI accepts the slot `slot_id`, of which the module
    /// reports `info`.
    pub fn accepts_slot(&self, slot_id: u64, info: &SlotInfo) -> (ok: bool)
        ensures
            ok == slot_accepted(self@.path_attributes, slot_id, info@),
    {
        self.accepts_slot_id(slot_id) && text_accepted(
            &self.path_attributes.slot_description,
            &info.description,
        ) && text_accepted(&self.path_attributes.slot_manufacturer, &info.manufacturer)
    }

    /// Whether the URI accepts the token in the slot `slot_id`, of which the
    /// module reports `info`.
    pub fn accepts_token(&self, slot_id: u64, info: &TokenInfo) -> (ok: bool)
        ensures
            ok == token_accepted(self@.path_attributes, slot_id, info@),
    {
        self.accepts_slot_id(slot_id) && text_accepted(
            &self.path_attributes.token_manufacturer,
            &info.manufacturer,
        ) && text_accepted(&self.path_attributes.token_model, &info.model) && text_accepted(
            &self.path_attributes.token_label,
            &info.label,
        ) && serial_accepted(&self.path_attributes.token_serial, &info.serial)
    }

    /// Where the PIN for a session comes from.
    pub fn pin_request(&self) -> (request: PinRequest)
        ensures
            request@ == pin_request_of(self@.query_attributes),
    {
        match &self.query_attributes.pin_value {
            Some(pin) => PinRequest::Literal(pin.clone()),
            None => match &self.query_attributes.pin_source {
                Some(source) => match split_once(source.as_str(), ':') {
                    Some((scheme, content)) => {
                        if same_text(scheme, "env") {
                            PinRequest::Environment(content.to_owned())
                        } else if same_text(scheme, "file") {
                            PinRequest::File(content.to_owned())
                        } else {
                            PinRequest::Anonymous
                        }
                    },
                    None => PinRequest::Anonymous,
                },
                None => PinRequest::Anonymous,
            },
        }
    }

    /// What to search for: the label, the identifier and the class of the
    /// object, each where the URI has it.
    pub fn search_terms(&self) -> (terms: Vec<SearchTerm>)
        ensures
            term_views(terms@) == search_terms_of(self@.path_attributes),
    {
        let mut terms: Vec<SearchTerm> = Vec::new();
        if let Some(label) = &self.path_attributes.object_label {
            terms.push(SearchTerm::Label(label.clone()));
        }
        if let Some(id) = &self.path_attributes.object_id {
            terms.push(SearchTerm::Id(id.clone()));
        }
        if let Some(class) = &self.path_attributes.object_class {
            terms.push(SearchTerm::Class(class.raw()));
        }
        assert(term_views(terms@) =~= search_terms_of(self@.path_attributes));
        terms
    }
}

/// Session flag: the session is serial, as every session must be.
pub const SERIAL_SESSION: u64 = 0x4;

/// Session flag: the session may write.
pub const RW_SESSION: u64 = 0x2;

/// User type: the normal user of a token.
pub const NORMAL_USER: u64 = 1;

/// What resolution hands to a module besides the slot, the PIN and the
/// search terms.
#[derive(Clone, Copy, Debug, PartialEq, Eq)]
pub struct Requests {
    /// Whether only slots that hold a token are listed.
    pub token_present: bool,
    /// The flags that a session is opened with.
    pub session_flags: u64,
    /// The type of user that logs in.
    pub user_type: u64,
    /// The most objects that a search is asked for.
    pub max_objects: u64,
}

/// What resolution hands to a module: only slots with a token are listed, a
/// session is serial and read-write, the normal user logs in, and a search is
/// asked for at most 10 objects.
pub fn requests() -> (r: Requests)
    ensures
        r == (Requests { token_present: true, session_flags: 6, user_type: 1, max_objects: 10 }),
{
    assert(0x4u64 | 0x2u64 == 6u64) by (bit_vector);
    Requests {
        token_present: true,
        session_flags: SERIAL_SESSION | RW_SESSION,
        user_type: NORMAL_USER,
        max_objects: MAX_OBJECTS,
    }
}

/// The one slot among `slots`: none is `NoSlot`, several are `AmbiguousSlot`.
pub open spec fn selected_slot(slots: Seq<u64>) -> Result<u64, ResolutionError> {
    if slots.len() == 0 {
        Err(ResolutionError::NoSlot)
    } else if slots.len() > 1 {
        Err(ResolutionError::AmbiguousSlot)
    } else {
        Ok(slots[0])
    }
}

/// The one object among `objects`: none is `NoObject`, several are
/// `AmbiguousObject`.
pub open spec fn selected_object(objects: Seq<u64>) -> Result<u64, ResolutionError> {
    if objects.len() == 0 {
        Err(ResolutionError::NoObject)
    } else if objects.len() > 1 {
        Err(ResolutionError::AmbiguousObject)
    } else {
        Ok(objects[0])
    }
}

/// The one slot among those that match: none is `NoSlot`, several are
/// `AmbiguousSlot`.
pub fn select_slot(slots: &Vec<u64>) -> (slot: Result<u64, ResolutionError>)
    ensures
        slot == selected_slot(slots@),
{
    if slots.len() == 0 {
        Err(ResolutionError::NoSlot)
    } else if slots.len() > 1 {
        Err(ResolutionError::AmbiguousSlot)
    } else {
        Ok(slots[0])
    }
}

/// The one object among those that a search found: none is `NoObject`,
/// several are `AmbiguousObject`.
pub fn select_object(objects: &Vec<u64>) -> (object: Result<u64, ResolutionError>)
    ensures
        object == selected_object(objects@),
{
    if objects.len() == 0 {
        Err(ResolutionError::NoObject)
    } else if objects.len() > 1 {
        Err(ResolutionError::AmbiguousObject)
    } else {
        Ok(objects[0])
    }
}

/// What a module answered while its slots were held against a URI: its list
/// of slots and, slot by slot in the order of that list, what it reported of
/// the slot and of the token in it. An entry for a question that was not
/// asked plays no part.
pub struct SlotAnswers {
    pub listing: Result<Seq<u64>, pkcs11::errors::Error>,
    pub slots: Seq<Result<SlotInfo, pkcs11::errors::Error>>,
    pub tokens: Seq<Result<TokenInfo, pkcs11::errors::Error>>,
}

impl SlotAnswers {
    /// There is an entry for every listed slot.
    pub open spec fn complete(self) -> bool {
        self.listing matches Ok(listed) ==> self.slots.len() == listed.len() && self.tokens.len()
            == listed.len()
    }
}

/// What a module answered to a login and to a search.
pub struct SearchAnswers {
    pub login: Result<(), pkcs11::errors::Error>,
    pub search: Result<Seq<u64>, pkcs11::errors::Error>,
}

/// Every answer of a module in one resolution.
pub struct Answers {
    pub slots: SlotAnswers,
    pub session: Result<u64, pkcs11::errors::Error>,
    pub object: SearchAnswers,
}

/// A list of handles as a sequence.
pub open spec fn listed(answer: Result<Vec<u64>, pkcs11::errors::Error>) -> Result<
    Seq<u64>,
    pkcs11::errors::Error,
> {
    match answer {
        Ok(handles) => Ok(handles@),
        Err(e) => Err(e),
    }
}

/// The slots that were found, as a sequence.
pub open spec fn slots_outcome(found: Result<Vec<u64>, ResolutionError>) -> Result<
    Seq<u64>,
    ResolutionError,
> {
    match found {
        Ok(slots) => Ok(slots@),
        Err(e) => Err(e),
    }
}

/// Whether a listed slot is kept: its slot must match and, where tokens
/// count, its token too. The token is not looked at where the slot fails.
pub open spec fn slot_kept(
    path: PathAttributesView,
    with_tokens: bool,
    slot: u64,
    slot_answer: Result<SlotInfo, pkcs11::errors::Error>,
    token_answer: Result<TokenInfo, pkcs11::errors::Error>,
) -> Result<bool, ResolutionError> {
    match slot_verdict(path, slot, slot_answer) {
        Ok(true) => if with_tokens {
            token_verdict(path, slot, token_answer)
        } else {
            Ok(true)
        },
        other => other,
    }
}

/// The slots kept among the first `n` of `listing`, in the order of the list.
/// The first failed call ends the survey with its error.
pub open spec fn kept_slots(
    path: PathAttributesView,
    with_tokens: bool,
    listing: Seq<u64>,
    slots: Seq<Result<SlotInfo, pkcs11::errors::Error>>,
    tokens: Seq<Result<TokenInfo, pkcs11::errors::Error>>,
    n: int,
) -> Result<Seq<u64>, ResolutionError>
    decreases n,
{
    if n <= 0 {
        Ok(Seq::empty())
    } else {
        match kept_slots(path, with_tokens, listing, slots, tokens, n - 1) {
            Err(e) => Err(e),
            Ok(before) => match slot_kept(
                path,
                with_tokens,
                listing[n - 1],
                slots[n - 1],
                tokens[n - 1],
            ) {
                Err(e) => Err(e),
                Ok(keep) => Ok(
                    if keep {
                        before.push(listing[n - 1])
                    } else {
                        before
                    },
                ),
            },
        }
    }
}

/// The matching slots, given the module's answers: a failed listing is
/// passed on, else the listed slots that are kept.
pub open spec fn survey(path: PathAttributesView, with_tokens: bool, answers: SlotAnswers) -> Result<
    Seq<u64>,
    ResolutionError,
> {
    match answers.listing {
        Err(e) => Err(ResolutionError::ModuleCallFailed(e)),
        Ok(listing) => kept_slots(
            path,
            with_tokens,
            listing,
            answers.slots,
            answers.tokens,
            listing.len() as int,
        ),
    }
}

/// The object found in a session, given the module's answers: with a PIN a
/// refused login is `LoginFailed` and ends it; a failed search is passed on;
/// else the one object among those found.
pub open spec fn search_outcome(pin_given: bool, answers: SearchAnswers) -> Result<
    u64,
    ResolutionError,
> {
    if pin_given && answers.login is Err {
        Err(ResolutionError::LoginFailed)
    } else {
        match answers.search {
            Err(e) => Err(ResolutionError::ModuleCallFailed(e)),
            Ok(objects) => selected_object(objects),
        }
    }
}

/// The session that is opened for a URI, given the module's answers: the
/// survey of slots and tokens must leave one slot, and the module must open
/// a session on it. The first stage that fails decides the error.
pub open spec fn opening_outcome(
    path: PathAttributesView,
    slots: SlotAnswers,
    session: Result<u64, pkcs11::errors::Error>,
) -> Result<u64, ResolutionError> {
    match survey(path, true, slots) {
        Err(e) => Err(e),
        Ok(found) => match selected_slot(found) {
            Err(e) => Err(e),
            Ok(_) => match session {
                Err(e) => Err(ResolutionError::ModuleCallFailed(e)),
                Ok(session) => Ok(session),
            },
        },
    }
}

/// The session and the object that a URI resolves to, given the module's
/// answers: the session that was opened on the one slot whose token matches,
/// and the one object found in it. The first stage that fails decides the
/// error.
pub open spec fn resolution_outcome(
    path: PathAttributesView,
    pin_given: bool,
    answers: Answers,
) -> Result<(u64, u64), ResolutionError> {
    match opening_outcome(path, answers.slots, answers.session) {
        Err(e) => Err(e),
        Ok(session) => match search_outcome(pin_given, answers.object) {
            Err(e) => Err(e),
            Ok(object) => Ok((session, object)),
        },
    }
}

/// With one listed slot whose slot and token match, a session that the
/// module opens and no refused login, the search decides: one handle found is
/// returned with the session, none is `NoObject`, several are
/// `AmbiguousObject`.
pub proof fn lemma_one_matching_slot(path: PathAttributesView, pin_given: bool, answers: Answers)
    requires
        answers.slots.complete(),
        answers.slots.listing matches Ok(listing) && listing.len() == 1,
        answers.slots.slots[0] matches Ok(info) && slot_accepted(
            path,
            answers.slots.listing->Ok_0[0],
            info@,
        ),
        answers.slots.tokens[0] matches Ok(info) && token_accepted(
            path,
            answers.slots.listing->Ok_0[0],
            info@,
        ),
        answers.session is Ok,
        pin_given ==> answers.object.login is Ok,
        answers.object.search is Ok,
    ensures
        resolution_outcome(path, pin_given, answers) == (match selected_object(
            answers.object.search->Ok_0,
        ) {
            Ok(object) => Ok((answers.session->Ok_0, object)),
            Err(e) => Err(e),
        }),
{
    reveal_with_fuel(kept_slots, 3);
}

/// What follows the loading of a module: the error of a failed load, else
/// what was done with the module.
pub open spec fn after_loading<T>(
    load_error: Option<pkcs11::errors::Error>,
    done: Result<T, ResolutionError>,
) -> Result<T, ResolutionError> {
    match load_error {
        Some(e) => Err(ResolutionError::ModuleCallFailed(e)),
        None => done,
    }
}

/// The survey of the first `n` slots reads the first `n` answers only.
pub proof fn lemma_kept_slots_prefix(
    path: PathAttributesView,
    with_tokens: bool,
    listing: Seq<u64>,
    slots: Seq<Result<SlotInfo, pkcs11::errors::Error>>,
    tokens: Seq<Result<TokenInfo, pkcs11::errors::Error>>,
    other_slots: Seq<Result<SlotInfo, pkcs11::errors::Error>>,
    other_tokens: Seq<Result<TokenInfo, pkcs11::errors::Error>>,
    n: int,
)
    requires
        forall|j: int| 0 <= j < n ==> slots[j] == other_slots[j] && tokens[j] == other_tokens[j],
    ensures
        kept_slots(path, with_tokens, listing, slots, tokens, n) == kept_slots(
            path,
            with_tokens,
            listing,
            other_slots,
            other_tokens,
            n,
        ),
    decreases n,
{
    if n > 0 {
        lemma_kept_slots_prefix(
            path,
            with_tokens,
            listing,
            slots,
            tokens,
            other_slots,
            other_tokens,
            n - 1,
        );
    }
}

/// A survey that has failed stays failed, with the same error.
pub proof fn lemma_kept_slots_error(
    path: PathAttributesView,
    with_tokens: bool,
    listing: Seq<u64>,
    slots: Seq<Result<SlotInfo, pkcs11::errors::Error>>,
    tokens: Seq<Result<TokenInfo, pkcs11::errors::Error>>,
    n: int,
    m: int,
)
    requires
        0 <= n <= m,
        kept_slots(path, with_tokens, listing, slots, tokens, n) is Err,
    ensures
        kept_slots(path, with_tokens, listing, slots, tokens, m) == kept_slots(
            path,
            with_tokens,
            listing,
            slots,
            tokens,
            n,
        ),
    decreases m - n,
{
    if n < m {
        lemma_kept_slots_error(path, with_tokens, listing, slots, tokens, n, m - 1);
    }
}

/// A survey that failed at its `n`-th slot is the survey of the whole list,
/// whatever the module would have answered for the slots behind it.
pub proof fn lemma_survey_stopped(
    path: PathAttributesView,
    with_tokens: bool,
    listing: Seq<u64>,
    slots: Seq<Result<SlotInfo, pkcs11::errors::Error>>,
    tokens: Seq<Result<TokenInfo, pkcs11::errors::Error>>,
    n: int,
)
    requires
        0 < n <= listing.len(),
        slots.len() == n,
        tokens.len() == n,
        kept_slots(path, with_tokens, listing, slots, tokens, n) is Err,
    ensures
        exists|answers: SlotAnswers|
            answers.complete() && #[trigger] survey(path, with_tokens, answers) == kept_slots(
                path,
                with_tokens,
                listing,
                slots,
                tokens,
                n,
            ),
{
    let all_slots = Seq::new(listing.len(), |j: int| if j < n { slots[j] } else { slots[0] });
    let all_tokens = Seq::new(listing.len(), |j: int| if j < n { tokens[j] } else { tokens[0] });
    lemma_kept_slots_prefix(path, with_tokens, listing, slots, tokens, all_slots, all_tokens, n);
    lemma_kept_slots_error(
        path,
        with_tokens,
        listing,
        all_slots,
        all_tokens,
        n,
        listing.len() as int,
    );
    let answers = SlotAnswers { listing: Ok(listing), slots: all_slots, tokens: all_tokens };
    assert(answers.complete() && survey(path, with_tokens, answers) == kept_slots(
        path,
        with_tokens,
        listing,
        slots,
        tokens,
        n,
    ));
}

/// The slots among `candidates` whose slot and token the attributes accept,
/// in the order of the list. A candidate is a slot with what a module reports
/// of it and of its token.
pub open spec fn accepted_slots(
    path: PathAttributesView,
    candidates: Seq<(u64, SlotInfo, TokenInfo)>,
) -> Seq<u64>
    decreases candidates.len(),
{
    if candidates.len() == 0 {
        Seq::empty()
    } else {
        let last = candidates.last();
        let before = accepted_slots(path, candidates.drop_last());
        if slot_accepted(path, last.0, last.1@) && token_accepted(path, last.0, last.2@) {
            before.push(last.0)
        } else {
            before
        }
    }
}

/// The one slot among `candidates` that the attributes accept: none is
/// `NoSlot`, several are `AmbiguousSlot`.
pub open spec fn slot_choice(
    path: PathAttributesView,
    candidates: Seq<(u64, SlotInfo, TokenInfo)>,
) -> Result<u64, ResolutionError> {
    selected_slot(accepted_slots(path, candidates))
}

/// The answers of a module that lists `candidates` and reports of each what
/// the candidate holds.
pub open spec fn reported(candidates: Seq<(u64, SlotInfo, TokenInfo)>) -> SlotAnswers {
    SlotAnswers {
        listing: Ok(Seq::new(candidates.len(), |i: int| candidates[i].0)),
        slots: Seq::new(candidates.len(), |i: int| Ok(candidates[i].1)),
        tokens: Seq::new(candidates.len(), |i: int| Ok(candidates[i].2)),
    }
}

/// On a module that lists `candidates` and reports them without failing, the
/// survey of slots and tokens keeps exactly the accepted candidates.
pub proof fn lemma_survey_of_reports(
    path: PathAttributesView,
    candidates: Seq<(u64, SlotInfo, TokenInfo)>,
)
    ensures
        reported(candidates).complete(),
        survey(path, true, reported(candidates)) == Ok::<Seq<u64>, ResolutionError>(
            accepted_slots(path, candidates),
        ),
{
    let answers = reported(candidates);
    let listing = answers.listing->Ok_0;
    assert forall|n: int| 0 <= n <= candidates.len() implies kept_slots(
        path,
        true,
        listing,
        answers.slots,
        answers.tokens,
        n,
    ) == Ok::<Seq<u64>, ResolutionError>(accepted_slots(path, candidates.take(n))) by {
        lemma_kept_reports(path, candidates, n);
    }
    assert(candidates.take(candidates.len() as int) =~= candidates);
}

proof fn lemma_kept_reports(
    path: PathAttributesView,
    candidates: Seq<(u64, SlotInfo, TokenInfo)>,
    n: int,
)
    requires
        0 <= n <= candidates.len(),
    ensures
        kept_slots(
            path,
            true,
            reported(candidates).listing->Ok_0,
            reported(candidates).slots,
            reported(candidates).tokens,
            n,
        ) == Ok::<Seq<u64>, ResolutionError>(accepted_slots(path, candidates.take(n))),
    decreases n,
{
    if n > 0 {
        lemma_kept_reports(path, candidates, n - 1);
        assert(candidates.take(n).drop_last() =~= candidates.take(n - 1));
        assert(candidates.take(n).last() == candidates[n - 1]);
    }
}

impl Pkcs11Uri {
    /// The one slot among `candidates` that the URI accepts by its slot and
    /// its token: none is `NoSlot`, several are `AmbiguousSlot`. A candidate
    /// is a slot with what a module reports of it and of its token.
    pub fn choose_slot(&self, candidates: &Vec<(u64, SlotInfo, TokenInfo)>) -> (slot: Result<
        u64,
        ResolutionError,
    >)
        ensures
            slot == slot_choice(self@.path_attributes, candidates@),
    {
        let mut kept: Vec<u64> = Vec::new();
        let mut i: usize = 0;
        while i < candidates.len()
            invariant
                i <= candidates.len(),
                kept@ == accepted_slots(self@.path_attributes, candidates@.take(i as int)),
            decreases candidates.len() - i,
        {
            let candidate = &candidates[i];
            assert(candidates@.take(i + 1).drop_last() =~= candidates@.take(i as int));
            if self.accepts_slot(candidate.0, &candidate.1) && self.accepts_token(
                candidate.0,
                &candidate.2,
            ) {
                kept.push(candidate.0);
            }
            i += 1;
        }
        assert(candidates@.take(candidates.len() as int) =~= candidates@);
        select_slot(&kept)
    }
}

/// How much of `s` is left once its trailing whitespace is gone.
pub open spec fn trimmed_len(s: Seq<char>) -> int
    decreases s.len(),
{
    if s.len() == 0 {
        0
    } else if is_white_space(s.last()) {
        trimmed_len(s.drop_last())
    } else {
        s.len() as int
    }
}

/// The PIN that the contents of a PIN file hold: the contents without their
/// trailing whitespace.
pub fn pin_from_file_contents(contents: &str) -> (pin: &str)
    ensures
        0 <= trimmed_len(contents@) <= contents@.len(),
        pin@ == contents@.take(trimmed_len(contents@)),
{
    let chars = chars_of(contents);
    let mut k: usize = chars.len();
    assert(chars@.take(k as int) =~= chars@);
    while k > 0 && chars[k - 1].is_whitespace()
        invariant
            chars@ == contents@,
            k <= chars.len(),
            trimmed_len(chars@) == trimmed_len(chars@.take(k as int)),
        decreases k,
    {
        assert(chars@.take(k as int).drop_last() =~= chars@.take(k - 1));
        k -= 1;
    }
    assert(trimmed_len(chars@.take(k as int)) == k) by {
        if k > 0 {
            assert(chars@.take(k as int).last() == chars@[k - 1]);
        }
    }
    contents.substring_char(0, k)
}

/// The PIN to log in with, given the text `read` from where a request points:
/// a literal PIN is itself, the text of an environment variable is taken as
/// it is, the contents of a file lose their trailing whitespace, and an
/// anonymous request has no PIN. Text that could not be read is no PIN.
pub open spec fn pin_of(request: PinRequestView, read: Option<Seq<char>>) -> Option<Seq<char>> {
    match request {
        PinRequestView::Anonymous => None,
        PinRequestView::Literal(pin) => Some(pin),
        PinRequestView::Environment(_) => read,
        PinRequestView::File(_) => match read {
            Some(contents) => Some(contents.take(trimmed_len(contents))),
            None => None,
        },
    }
}

impl PinRequest {
    /// The PIN to log in with, given the text `read` from the variable or the
    /// file that the request names; `read` plays no part for a literal PIN
    /// or an anonymous request.
    pub fn pin(&self, read: Option<&str>) -> (pin: Option<String>)
        ensures
            pin_of(
                self@,
                match read {
                    Some(text) => Some(text@),
                    None => None,
                },
            ) == (match pin {
                Some(p) => Some(p@),
                None => None,
            }),
    {
        match self {
            PinRequest::Anonymous => None,
            PinRequest::Literal(pin) => Some(pin.clone()),
            PinRequest::Environment(_) => match read {
                Some(text) => Some(text.to_owned()),
                None => None,
            },
            PinRequest::File(_) => match read {
                Some(contents) => Some(pin_from_file_contents(contents).to_owned()),
                None => None,
            },
        }
    }
}

} // verus!
