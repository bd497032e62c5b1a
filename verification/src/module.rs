//! Resolution against a PKCS #11 module: enumerating slots, opening a
//! session, logging in and searching for the object.
//!
//! The engine talks to a module through the trait [`Module`]; `pkcs11::Ctx`
//! is the module that it is written for.

use vstd::prelude::*;
use crate::resolve::{
    after_loading, kept_slots, lemma_kept_slots_prefix, lemma_survey_stopped, listed,
    opening_outcome, requests,
    resolution_outcome, search_outcome, select_object, select_slot, slot_id_accepted,
    slot_verdict, slots_outcome, survey, token_verdict, Answers, ResolutionError, SearchAnswers,
    SearchTerm, SlotAnswers, SlotInfo, TokenInfo,
};
pub use crate::resolve::{NORMAL_USER, RW_SESSION, SERIAL_SESSION};
use crate::uri::Pkcs11Uri;

verus! {

/// `pkcs11::Ctx`, a loaded module, is carried through as it is.
#[verifier::external_type_specification]
#[verifier::external_body]
pub struct ExContext(pkcs11::Ctx);

/// `pkcs11::types::CK_ATTRIBUTE`, one entry of a search template, is carried
/// through as it is.
#[verifier::external_type_specification]
#[verifier::external_body]
pub struct ExAttribute(pkcs11::types::CK_ATTRIBUTE);

/// A loaded and initialised module.
pub type Context = pkcs11::Ctx;

/// The handle of a session.
pub type SessionHandle = u64;

/// The handle of an object.
pub type ObjectHandle = u64;

/// The identifier of a slot.
pub type SlotId = u64;

/// Calls `pkcs11::Ctx::new_and_initialize`, which loads the module at `path`
/// and initialises it. Nothing is claimed of the outcome.
#[verifier::external_body]
fn load_module(path: &str) -> Result<pkcs11::Ctx, pkcs11::errors::Error> {
    pkcs11::Ctx::new_and_initialize(path)
}

/// Calls `pkcs11::Ctx::get_slot_list`. Nothing is claimed of the outcome.
#[verifier::external_body]
fn slot_list(ctx: &pkcs11::Ctx, token_present: bool) -> Result<Vec<u64>, pkcs11::errors::Error> {
    ctx.get_slot_list(token_present)
}

/// Calls `pkcs11::Ctx::get_slot_info` and copies out the description and the
/// manufacturer, each as the text that `pkcs11` makes of its blank-padded
/// field. Nothing is claimed of the outcome.
#[verifier::external_body]
fn slot_info(ctx: &pkcs11::Ctx, slot_id: SlotId) -> Result<SlotInfo, pkcs11::errors::Error> {
    let info = ctx.get_slot_info(slot_id)?;
    Ok(SlotInfo {
        description: String::from(info.slotDescription),
        manufacturer: String::from(info.manufacturerID),
    })
}

/// Calls `pkcs11::Ctx::get_token_info` and copies out the manufacturer, the
/// model and the label, each as the text that `pkcs11` makes of its
/// blank-padded field, and the 16 bytes of the serial number. Nothing is
/// claimed of the outcome.
#[verifier::external_body]
fn token_info(ctx: &pkcs11::Ctx, slot_id: SlotId) -> Result<TokenInfo, pkcs11::errors::Error> {
    let info = ctx.get_token_info(slot_id)?;
    Ok(TokenInfo {
        manufacturer: String::from(info.manufacturerID),
        model: String::from(info.model),
        label: String::from(info.label),
        serial: info.serialNumber.0,
    })
}

/// Calls `pkcs11::Ctx::open_session` without an application pointer or a
/// notification callback. Nothing is claimed of the outcome.
#[verifier::external_body]
fn open_session(ctx: &pkcs11::Ctx, slot_id: SlotId, flags: u64) -> Result<u64, pkcs11::errors::Error> {
    ctx.open_session(slot_id, flags, None, None)
}

/// Calls `pkcs11::Ctx::close_session`. Nothing is claimed of the outcome.
#[verifier::external_body]
fn close_session(ctx: &pkcs11::Ctx, session: SessionHandle) -> Result<(), pkcs11::errors::Error> {
    ctx.close_session(session)
}

/// Calls `pkcs11::Ctx::login` with a PIN. Nothing is claimed of the outcome.
#[verifier::external_body]
fn login(ctx: &pkcs11::Ctx, session: SessionHandle, user_type: u64, pin: &str) -> Result<
    (),
    pkcs11::errors::Error,
> {
    ctx.login(session, user_type, Some(pin))
}

/// Calls `pkcs11::types::CK_ATTRIBUTE::new` for the type `CKA_LABEL` and
/// `with_string` on it. The attribute points at `label`, which has to outlive
/// its use. Nothing else is claimed.
#[verifier::external_body]
fn label_attribute(label: &String) -> pkcs11::types::CK_ATTRIBUTE {
    pkcs11::types::CK_ATTRIBUTE::new(pkcs11::types::CKA_LABEL).with_string(label)
}

/// Calls `pkcs11::types::CK_ATTRIBUTE::new` for the type `CKA_ID` and
/// `with_bytes` on it. The attribute points at `id`, which has to outlive its
/// use. Nothing else is claimed.
#[verifier::external_body]
fn id_attribute(id: &Vec<u8>) -> pkcs11::types::CK_ATTRIBUTE {
    pkcs11::types::CK_ATTRIBUTE::new(pkcs11::types::CKA_ID).with_bytes(id)
}

/// Calls `pkcs11::types::CK_ATTRIBUTE::new` for the type `CKA_CLASS` and
/// `with_ck_ulong` on it. The attribute points at `class`, which has to
/// outlive its use. Nothing else is claimed.
#[verifier::external_body]
fn class_attribute(class: &u64) -> pkcs11::types::CK_ATTRIBUTE {
    pkcs11::types::CK_ATTRIBUTE::new(pkcs11::types::CKA_CLASS).with_ck_ulong(class)
}

/// Calls `pkcs11::Ctx::find_objects_init`. Nothing is claimed of the outcome.
#[verifier::external_body]
fn find_objects_init(
    ctx: &pkcs11::Ctx,
    session: SessionHandle,
    template: &Vec<pkcs11::types::CK_ATTRIBUTE>,
) -> Result<(), pkcs11::errors::Error> {
    ctx.find_objects_init(session, template)
}

/// Calls `pkcs11::Ctx::find_objects`. Nothing is claimed of the outcome.
#[verifier::external_body]
fn find_objects(ctx: &pkcs11::Ctx, session: SessionHandle, max: u64) -> Result<
    Vec<u64>,
    pkcs11::errors::Error,
> {
    ctx.find_objects(session, max)
}

/// Calls `pkcs11::Ctx::find_objects_final`. Nothing is claimed of the outcome.
#[verifier::external_body]
fn find_objects_final(ctx: &pkcs11::Ctx, session: SessionHandle) -> Result<(), pkcs11::errors::Error> {
    ctx.find_objects_final(session)
}

/// What resolution asks of a PKCS #11 module. Nothing is assumed of what a
/// module answers: every answer is checked against the URI.
pub trait Module {
    /// The identifiers of the slots, or of those that hold a token.
    fn list_slots(&self, token_present: bool) -> Result<Vec<u64>, pkcs11::errors::Error>;

    /// What the module reports of a slot.
    fn slot_info(&self, slot_id: SlotId) -> Result<SlotInfo, pkcs11::errors::Error>;

    /// What the module reports of the token in a slot.
    fn token_info(&self, slot_id: SlotId) -> Result<TokenInfo, pkcs11::errors::Error>;

    /// Opens a session on a slot and gives its handle.
    fn open_session(&self, slot_id: SlotId, flags: u64) -> Result<u64, pkcs11::errors::Error>;

    /// Closes a session.
    fn close_session(&self, session: SessionHandle) -> Result<(), pkcs11::errors::Error>;

    /// Logs a user in with a PIN.
    fn login(&self, session: SessionHandle, user_type: u64, pin: &str) -> Result<
        (),
        pkcs11::errors::Error,
    >;

    /// The handles of at most `max` objects that meet every term of
    /// `template`.
    fn find_objects(&self, session: SessionHandle, template: &Vec<SearchTerm>, max: u64) -> Result<
        Vec<u64>,
        pkcs11::errors::Error,
    >;
}

impl Module for pkcs11::Ctx {
    fn list_slots(&self, token_present: bool) -> Result<Vec<u64>, pkcs11::errors::Error> {
        slot_list(self, token_present)
    }

    fn slot_info(&self, slot_id: SlotId) -> Result<SlotInfo, pkcs11::errors::Error> {
        slot_info(self, slot_id)
    }

    fn token_info(&self, slot_id: SlotId) -> Result<TokenInfo, pkcs11::errors::Error> {
        token_info(self, slot_id)
    }

    fn open_session(&self, slot_id: SlotId, flags: u64) -> Result<u64, pkcs11::errors::Error> {
        open_session(self, slot_id, flags)
    }

    fn close_session(&self, session: SessionHandle) -> Result<(), pkcs11::errors::Error> {
        close_session(self, session)
    }

    fn login(&self, session: SessionHandle, user_type: u64, pin: &str) -> Result<
        (),
        pkcs11::errors::Error,
    > {
        login(self, session, user_type, pin)
    }

    /// Starts a search with the attributes that stand for `template`, takes
    /// at most `max` handles from it and ends it.
    fn find_objects(&self, session: SessionHandle, template: &Vec<SearchTerm>, max: u64) -> Result<
        Vec<u64>,
        pkcs11::errors::Error,
    > {
        let mut attributes: Vec<pkcs11::types::CK_ATTRIBUTE> = Vec::new();
        let mut i: usize = 0;
        while i < template.len()
            invariant
                i <= template.len(),
                attributes@.len() == i,
            decreases template.len() - i,
        {
            let attribute = match &template[i] {
                SearchTerm::Label(label) => label_attribute(label),
                SearchTerm::Id(id) => id_attribute(id),
                SearchTerm::Class(class) => class_attribute(class),
            };
            attributes.push(attribute);
            i += 1;
        }
        if let Err(e) = find_objects_init(self, session, &attributes) {
            return Err(e);
        }
        let objects = match find_objects(self, session, max) {
            Ok(objects) => objects,
            Err(e) => return Err(e),
        };
        match find_objects_final(self, session) {
            Ok(()) => Ok(objects),
            Err(e) => Err(e),
        }
    }
}

impl Pkcs11Uri {
    /// Whether the slot `slot_id` of the module matches the URI: the verdict
    /// on what the module answers for the slot. A slot that the URI refuses
    /// by its identifier is not asked about. A failing module call is
    /// `ModuleCallFailed`.
    pub fn matches_slot<M: Module>(&self, module: &M, slot_id: SlotId) -> (matches: Result<
        bool,
        ResolutionError,
    >)
        ensures
            exists|answer: Result<SlotInfo, pkcs11::errors::Error>|
                matches == #[trigger] slot_verdict(self@.path_attributes, slot_id, answer),
            !slot_id_accepted(self@.path_attributes, slot_id) ==> matches matches Ok(false),
            matches matches Err(e) ==> e is ModuleCallFailed,
    {
        if !self.accepts_slot_id(slot_id) {
            let matches = Ok(false);
            assert(matches == slot_verdict(self@.path_attributes, slot_id, arbitrary()));
            return matches;
        }
        let answer = module.slot_info(slot_id);
        let ghost answered = answer;
        let matches = match answer {
            Ok(info) => Ok(self.accepts_slot(slot_id, &info)),
            Err(e) => Err(ResolutionError::ModuleCallFailed(e)),
        };
        assert(matches == slot_verdict(self@.path_attributes, slot_id, answered));
        matches
    }

    /// Whether the token in the slot `slot_id` of the module matches the URI:
    /// the verdict on what the module answers for the token. A slot that the
    /// URI refuses by its identifier is not asked about. A failing module
    /// call is `ModuleCallFailed`.
    pub fn matches_token<M: Module>(&self, module: &M, slot_id: SlotId) -> (matches: Result<
        bool,
        ResolutionError,
    >)
        ensures
            exists|answer: Result<TokenInfo, pkcs11::errors::Error>|
                matches == #[trigger] token_verdict(self@.path_attributes, slot_id, answer),
            !slot_id_accepted(self@.path_attributes, slot_id) ==> matches matches Ok(false),
            matches matches Err(e) ==> e is ModuleCallFailed,
    {
        if !self.accepts_slot_id(slot_id) {
            let matches = Ok(false);
            assert(matches == token_verdict(self@.path_attributes, slot_id, arbitrary()));
            return matches;
        }
        let answer = module.token_info(slot_id);
        let ghost answered = answer;
        let matches = match answer {
            Ok(info) => Ok(self.accepts_token(slot_id, &info)),
            Err(e) => Err(ResolutionError::ModuleCallFailed(e)),
        };
        assert(matches == token_verdict(self@.path_attributes, slot_id, answered));
        matches
    }

    /// The slots of the module that hold a token and match the URI, and,
    /// where `with_tokens` is set, whose token matches it too. They come in
    /// the order in which the module lists them: the result is the survey of
    /// what the module answers.
    pub fn matching_slots<M: Module>(&self, module: &M, with_tokens: bool) -> (found: Result<
        Vec<u64>,
        ResolutionError,
    >)
        ensures
            exists|answers: SlotAnswers|
                answers.complete() && #[trigger] survey(
                    self@.path_attributes,
                    with_tokens,
                    answers,
                ) == slots_outcome(found),
            found matches Ok(slots) ==> forall|i: int|
                0 <= i < slots@.len() ==> slot_id_accepted(
                    self@.path_attributes,
                    #[trigger] slots@[i],
                ),
            found matches Err(e) ==> e is ModuleCallFailed,
    {
        let ghost path = self@.path_attributes;
        let listing = module.list_slots(requests().token_present);
        let ghost listing_answer = listed(listing);
        let slots = match listing {
            Ok(slots) => slots,
            Err(e) => {
                let found = Err(ResolutionError::ModuleCallFailed(e));
                proof {
                    let answers = SlotAnswers {
                        listing: listing_answer,
                        slots: Seq::empty(),
                        tokens: Seq::empty(),
                    };
                    assert(answers.complete() && survey(path, with_tokens, answers)
                        == slots_outcome(found));
                }
                return found;
            },
        };
        let ghost mut slot_answers: Seq<Result<SlotInfo, pkcs11::errors::Error>> = Seq::empty();
        let ghost mut token_answers: Seq<Result<TokenInfo, pkcs11::errors::Error>> = Seq::empty();
        let mut found: Vec<u64> = Vec::new();
        let mut i: usize = 0;
        while i < slots.len()
            invariant
                path == self@.path_attributes,
                i <= slots.len(),
                slot_answers.len() == i,
                token_answers.len() == i,
                kept_slots(path, with_tokens, slots@, slot_answers, token_answers, i as int) == Ok::<
                    Seq<u64>,
                    ResolutionError,
                >(found@),
                forall|j: int|
                    0 <= j < found@.len() ==> slot_id_accepted(
                        self@.path_attributes,
                        #[trigger] found@[j],
                    ),
            decreases slots.len() - i,
        {
            let slot = slots[i];
            let ghost slots_before = slot_answers;
            let ghost tokens_before = token_answers;
            let slot_result = self.matches_slot(module, slot);
            let ghost slot_answer = choose|answer: Result<SlotInfo, pkcs11::errors::Error>|
                slot_result == #[trigger] slot_verdict(path, slot, answer);
            let ghost mut token_answer: Result<TokenInfo, pkcs11::errors::Error> = arbitrary();
            let mut keep = match slot_result {
                Ok(keep) => keep,
                Err(e) => {
                    proof {
                        slot_answers = slot_answers.push(slot_answer);
                        token_answers = token_answers.push(token_answer);
                        lemma_kept_slots_prefix(
                            path,
                            with_tokens,
                            slots@,
                            slots_before,
                            tokens_before,
                            slot_answers,
                            token_answers,
                            i as int,
                        );
                        lemma_survey_stopped(
                            path,
                            with_tokens,
                            slots@,
                            slot_answers,
                            token_answers,
                            i + 1,
                        );
                    }
                    return Err(e);
                },
            };
            if keep && with_tokens {
                let token_result = self.matches_token(module, slot);
                proof {
                    token_answer = choose|answer: Result<TokenInfo, pkcs11::errors::Error>|
                        token_result == #[trigger] token_verdict(path, slot, answer);
                }
                keep = match token_result {
                    Ok(keep) => keep,
                    Err(e) => {
                        proof {
                            slot_answers = slot_answers.push(slot_answer);
                            token_answers = token_answers.push(token_answer);
                            lemma_kept_slots_prefix(
                                path,
                                with_tokens,
                                slots@,
                                slots_before,
                                tokens_before,
                                slot_answers,
                                token_answers,
                                i as int,
                            );
                            lemma_survey_stopped(
                                path,
                                with_tokens,
                                slots@,
                                slot_answers,
                                token_answers,
                                i + 1,
                            );
                        }
                        return Err(e);
                    },
                };
            }
            proof {
                slot_answers = slot_answers.push(slot_answer);
                token_answers = token_answers.push(token_answer);
                lemma_kept_slots_prefix(
                    path,
                    with_tokens,
                    slots@,
                    slots_before,
                    tokens_before,
                    slot_answers,
                    token_answers,
                    i as int,
                );
            }
            if keep {
                found.push(slot);
            }
            i += 1;
        }
        proof {
            let answers = SlotAnswers {
                listing: Ok(slots@),
                slots: slot_answers,
                tokens: token_answers,
            };
            assert(answers.complete() && survey(path, with_tokens, answers) == Ok::<
                Seq<u64>,
                ResolutionError,
            >(found@));
        }
        Ok(found)
    }

    /// Logs in with `pin`, where there is one, and searches the session for
    /// the one object that the URI describes, with the terms of
    /// `search_terms`. A refused PIN is `LoginFailed`, and nothing is
    /// searched then; no object is `NoObject`, several are `AmbiguousObject`.
    /// The result is the outcome of what the module answers.
    pub fn find_object<M: Module>(&self, module: &M, session: SessionHandle, pin: Option<&str>) -> (object:
        Result<u64, ResolutionError>)
        ensures
            exists|answers: SearchAnswers| object == #[trigger] search_outcome(pin is Some, answers),
            object matches Err(e) ==> !(e is NoSlot) && !(e is AmbiguousSlot),
            object matches Err(ResolutionError::LoginFailed) ==> pin is Some,
    {
        let ghost mut login_answer: Result<(), pkcs11::errors::Error> = Ok(());
        if let Some(pin) = pin {
            let login = module.login(session, requests().user_type, pin);
            proof {
                login_answer = login;
            }
            if login.is_err() {
                let object = Err(ResolutionError::LoginFailed);
                assert(object == search_outcome(
                    true,
                    SearchAnswers { login: login_answer, search: Ok(Seq::empty()) },
                ));
                return object;
            }
        }
        let terms = self.search_terms();
        let search = module.find_objects(session, &terms, requests().max_objects);
        let ghost search_answer = listed(search);
        let object = match search {
            Ok(objects) => select_object(&objects),
            Err(e) => Err(ResolutionError::ModuleCallFailed(e)),
        };
        assert(object == search_outcome(
            pin is Some,
            SearchAnswers { login: login_answer, search: search_answer },
        ));
        object
    }

    /// Opens a read-write session on the single slot of `module` whose token
    /// matches the URI: no such slot is `NoSlot`, several are
    /// `AmbiguousSlot`, and no session is opened then. The result is the
    /// outcome of what the module answers.
    pub fn open_matching_session<M: Module>(&self, module: &M) -> (opened: Result<
        SessionHandle,
        ResolutionError,
    >)
        ensures
            exists|slots: SlotAnswers, session: Result<u64, pkcs11::errors::Error>|
                slots.complete() && opened == #[trigger] opening_outcome(
                    self@.path_attributes,
                    slots,
                    session,
                ),
            opened matches Err(e) ==> e is NoSlot || e is AmbiguousSlot || e is ModuleCallFailed,
    {
        let ghost path = self@.path_attributes;
        let found = self.matching_slots(module, true);
        let ghost slot_answers = choose|answers: SlotAnswers|
            answers.complete() && #[trigger] survey(path, true, answers) == slots_outcome(found);
        let slots = match found {
            Ok(slots) => slots,
            Err(e) => {
                let opened = Err(e);
                assert(opened == opening_outcome(path, slot_answers, Ok(0)));
                return opened;
            },
        };
        let slot = match select_slot(&slots) {
            Ok(slot) => slot,
            Err(e) => {
                let opened = Err(e);
                assert(opened == opening_outcome(path, slot_answers, Ok(0)));
                return opened;
            },
        };
        let session = module.open_session(slot, requests().session_flags);
        let ghost session_answer = session;
        let opened = match session {
            Ok(session) => Ok(session),
            Err(e) => Err(ResolutionError::ModuleCallFailed(e)),
        };
        assert(opened == opening_outcome(path, slot_answers, session_answer));
        opened
    }

    /// Finds the one object that the URI describes in a session, as
    /// `find_object` does, and closes the session where that fails: the
    /// session stays open only with the object found in it.
    pub fn object_in_session<M: Module>(
        &self,
        module: &M,
        session: SessionHandle,
        pin: Option<&str>,
    ) -> (object: Result<u64, ResolutionError>)
        ensures
            exists|answers: SearchAnswers| object == #[trigger] search_outcome(pin is Some, answers),
            object matches Err(e) ==> !(e is NoSlot) && !(e is AmbiguousSlot),
            object matches Err(ResolutionError::LoginFailed) ==> pin is Some,
    {
        let object = self.find_object(module, session, pin);
        if object.is_err() {
            let _ = module.close_session(session);
        }
        object
    }

    /// Resolves the URI to one object of `module`: the single slot whose
    /// token matches, a read-write session on it, a login with `pin` where
    /// there is one, and the single object that matches. The result is the
    /// session and the object, which are the caller's from then on: the
    /// outcome of what the module answers. A session that was opened is
    /// closed again when resolution fails after that.
    pub fn resolve_object<M: Module>(&self, module: &M, pin: Option<&str>) -> (resolved: Result<
        (SessionHandle, ObjectHandle),
        ResolutionError,
    >)
        ensures
            exists|answers: Answers|
                answers.slots.complete() && resolved == #[trigger] resolution_outcome(
                    self@.path_attributes,
                    pin is Some,
                    answers,
                ),
            resolved matches Err(ResolutionError::LoginFailed) ==> pin is Some,
    {
        let ghost path = self@.path_attributes;
        let opened = self.open_matching_session(module);
        let ghost opening = choose|slots: SlotAnswers, session: Result<u64, pkcs11::errors::Error>|
            slots.complete() && opened == #[trigger] opening_outcome(path, slots, session);
        let session = match opened {
            Ok(session) => session,
            Err(e) => {
                let resolved = Err(e);
                assert(resolved == resolution_outcome(
                    path,
                    pin is Some,
                    Answers {
                        slots: opening.0,
                        session: opening.1,
                        object: SearchAnswers { login: Ok(()), search: Ok(Seq::empty()) },
                    },
                ));
                return resolved;
            },
        };
        let object = self.object_in_session(module, session, pin);
        let ghost object_answers = choose|answers: SearchAnswers|
            object == #[trigger] search_outcome(pin is Some, answers);
        let resolved = match object {
            Ok(object) => Ok((session, object)),
            Err(e) => Err(e),
        };
        assert(resolved == resolution_outcome(
            path,
            pin is Some,
            Answers { slots: opening.0, session: opening.1, object: object_answers },
        ));
        resolved
    }

    /// Loads and initialises the module that the URI names by `module-path`.
    pub fn context(&self) -> (ctx: Result<Context, ResolutionError>)
        requires
            self.query_attributes.module_file is Some,
        ensures
            ctx matches Err(e) ==> e is ModuleCallFailed,
    {
        let path = self.query_attributes.module_file.as_ref().unwrap();
        match load_module(path.as_str()) {
            Ok(ctx) => Ok(ctx),
            Err(e) => Err(ResolutionError::ModuleCallFailed(e)),
        }
    }

    /// The slots of the URI's module that hold a token and match the URI by
    /// their identifier, description and manufacturer: the error of a failed
    /// load, else the survey of what the module answers.
    pub fn identify_slots(&self) -> (found: Result<Vec<u64>, ResolutionError>)
        requires
            self.query_attributes.module_file is Some,
        ensures
            exists|load_error: Option<pkcs11::errors::Error>, answers: SlotAnswers|
                answers.complete() && slots_outcome(found) == #[trigger] after_loading(
                    load_error,
                    survey(self@.path_attributes, false, answers),
                ),
            found matches Ok(slots) ==> forall|i: int|
                0 <= i < slots@.len() ==> slot_id_accepted(
                    self@.path_attributes,
                    #[trigger] slots@[i],
                ),
            found matches Err(e) ==> e is ModuleCallFailed,
    {
        let ghost path = self@.path_attributes;
        match self.context() {
            Ok(ctx) => {
                let found = self.matching_slots(&ctx, false);
                proof {
                    let answers = choose|answers: SlotAnswers|
                        answers.complete() && #[trigger] survey(path, false, answers)
                            == slots_outcome(found);
                    assert(slots_outcome(found) == after_loading(
                        None,
                        survey(path, false, answers),
                    ));
                }
                found
            },
            Err(e) => {
                let ghost load_error = Some(e->ModuleCallFailed_0);
                let found = Err(e);
                proof {
                    let answers = SlotAnswers {
                        listing: Ok(Seq::empty()),
                        slots: Seq::empty(),
                        tokens: Seq::empty(),
                    };
                    assert(answers.complete() && slots_outcome(found) == after_loading(
                        load_error,
                        survey(path, false, answers),
                    ));
                }
                found
            },
        }
    }

    /// The slots of the URI's module that match the URI and whose token
    /// matches it too: the error of a failed load, else the survey of what
    /// the module answers.
    pub fn identify_tokens(&self) -> (found: Result<Vec<u64>, ResolutionError>)
        requires
            self.query_attributes.module_file is Some,
        ensures
            exists|load_error: Option<pkcs11::errors::Error>, answers: SlotAnswers|
                answers.complete() && slots_outcome(found) == #[trigger] after_loading(
                    load_error,
                    survey(self@.path_attributes, true, answers),
                ),
            found matches Ok(slots) ==> forall|i: int|
                0 <= i < slots@.len() ==> slot_id_accepted(
                    self@.path_attributes,
                    #[trigger] slots@[i],
                ),
            found matches Err(e) ==> e is ModuleCallFailed,
    {
        let ghost path = self@.path_attributes;
        match self.context() {
            Ok(ctx) => {
                let found = self.matching_slots(&ctx, true);
                proof {
                    let answers = choose|answers: SlotAnswers|
                        answers.complete() && #[trigger] survey(path, true, answers)
                            == slots_outcome(found);
                    assert(slots_outcome(found) == after_loading(
                        None,
                        survey(path, true, answers),
                    ));
                }
                found
            },
            Err(e) => {
                let ghost load_error = Some(e->ModuleCallFailed_0);
                let found = Err(e);
                proof {
                    let answers = SlotAnswers {
                        listing: Ok(Seq::empty()),
                        slots: Seq::empty(),
                        tokens: Seq::empty(),
                    };
                    assert(answers.complete() && slots_outcome(found) == after_loading(
                        load_error,
                        survey(path, true, answers),
                    ));
                }
                found
            },
        }
    }

    /// Resolves the URI to one object of its own module, which is loaded for
    /// it: the error of a failed load, else the outcome of what the module
    /// answers, as `resolve_object` has it. The module comes back with the
    /// session and the object.
    pub fn identify_object(&self, pin: Option<&str>) -> (resolved: Result<
        (Context, SessionHandle, ObjectHandle),
        ResolutionError,
    >)
        requires
            self.query_attributes.module_file is Some,
        ensures
            exists|load_error: Option<pkcs11::errors::Error>, answers: Answers|
                answers.slots.complete() && handles(resolved) == #[trigger] after_loading(
                    load_error,
                    resolution_outcome(self@.path_attributes, pin is Some, answers),
                ),
            resolved matches Err(ResolutionError::LoginFailed) ==> pin is Some,
    {
        let ghost path = self@.path_attributes;
        let ctx = match self.context() {
            Ok(ctx) => ctx,
            Err(e) => {
                let ghost load_error = Some(e->ModuleCallFailed_0);
                let resolved = Err(e);
                proof {
                    let answers = Answers {
                        slots: SlotAnswers {
                            listing: Ok(Seq::empty()),
                            slots: Seq::empty(),
                            tokens: Seq::empty(),
                        },
                        session: Ok(0),
                        object: SearchAnswers { login: Ok(()), search: Ok(Seq::empty()) },
                    };
                    assert(answers.slots.complete() && handles(resolved) == after_loading(
                        load_error,
                        resolution_outcome(path, pin is Some, answers),
                    ));
                }
                return resolved;
            },
        };
        let found = self.resolve_object(&ctx, pin);
        let ghost answers = choose|answers: Answers|
            answers.slots.complete() && found == #[trigger] resolution_outcome(
                path,
                pin is Some,
                answers,
            );
        let resolved = match found {
            Ok((session, object)) => Ok((ctx, session, object)),
            Err(e) => Err(e),
        };
        assert(handles(resolved) == after_loading(
            None,
            resolution_outcome(path, pin is Some, answers),
        ));
        resolved
    }
}

/// The session and the object of a resolution, without the module.
pub open spec fn handles(resolved: Result<(Context, u64, u64), ResolutionError>) -> Result<
    (u64, u64),
    ResolutionError,
> {
    match resolved {
        Ok((_, session, object)) => Ok((session, object)),
        Err(e) => Err(e),
    }
}

} // verus!
