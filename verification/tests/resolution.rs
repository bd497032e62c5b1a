use std::cell::RefCell;

use pkcs11::errors::Error;
use pkcs11_uri::module::{Module, NORMAL_USER, RW_SESSION, SERIAL_SESSION};
use pkcs11_uri::resolve::{
    pin_from_file_contents, requests, select_object, select_slot, PinRequest, Requests,
    ResolutionError, SearchTerm, SlotInfo, TokenInfo, MAX_OBJECTS,
};
use pkcs11_uri::uri::Pkcs11Uri;

fn serial(text: &str) -> [u8; 16] {
    let mut out = [b' '; 16];
    out[..text.len()].copy_from_slice(text.as_bytes());
    out
}

#[derive(Clone)]
struct FakeSlot {
    id: u64,
    description: &'static str,
    label: &'static str,
    serial: &'static str,
}

struct FakeModule {
    slots: Vec<FakeSlot>,
    objects: Vec<u64>,
    good_pin: Option<&'static str>,
    fail_listing: bool,
    calls: RefCell<Vec<String>>,
}

impl FakeModule {
    fn new(slots: Vec<FakeSlot>, objects: Vec<u64>) -> FakeModule {
        FakeModule { slots, objects, good_pin: None, fail_listing: false, calls: RefCell::new(Vec::new()) }
    }

    fn one_slot(objects: Vec<u64>) -> FakeModule {
        FakeModule::new(
            vec![FakeSlot { id: 7, description: "reader", label: "keys", serial: "DECC0401648" }],
            objects,
        )
    }

    fn slot(&self, id: u64) -> Result<&FakeSlot, Error> {
        self.slots.iter().find(|s| s.id == id).ok_or(Error::Module("no such slot"))
    }

    fn calls(&self) -> Vec<String> {
        self.calls.borrow().clone()
    }
}

impl Module for FakeModule {
    fn list_slots(&self, token_present: bool) -> Result<Vec<u64>, Error> {
        self.calls.borrow_mut().push(format!("list_slots({})", token_present));
        if self.fail_listing {
            return Err(Error::Module("listing failed"));
        }
        Ok(self.slots.iter().map(|s| s.id).collect())
    }

    fn slot_info(&self, slot_id: u64) -> Result<SlotInfo, Error> {
        self.calls.borrow_mut().push(format!("slot_info({})", slot_id));
        let slot = self.slot(slot_id)?;
        Ok(SlotInfo { description: slot.description.to_string(), manufacturer: "ACME".to_string() })
    }

    fn token_info(&self, slot_id: u64) -> Result<TokenInfo, Error> {
        self.calls.borrow_mut().push(format!("token_info({})", slot_id));
        let slot = self.slot(slot_id)?;
        Ok(TokenInfo {
            manufacturer: "ACME".to_string(),
            model: "T1".to_string(),
            label: slot.label.to_string(),
            serial: serial(slot.serial),
        })
    }

    fn open_session(&self, slot_id: u64, flags: u64) -> Result<u64, Error> {
        self.calls.borrow_mut().push(format!("open_session({}, {})", slot_id, flags));
        Ok(100 + slot_id)
    }

    fn close_session(&self, session: u64) -> Result<(), Error> {
        self.calls.borrow_mut().push(format!("close_session({})", session));
        Ok(())
    }

    fn login(&self, session: u64, user_type: u64, pin: &str) -> Result<(), Error> {
        self.calls.borrow_mut().push(format!("login({}, {}, {})", session, user_type, pin));
        if self.good_pin == Some(pin) {
            Ok(())
        } else {
            Err(Error::Module("wrong PIN"))
        }
    }

    fn find_objects(&self, session: u64, template: &Vec<SearchTerm>, max: u64) -> Result<Vec<u64>, Error> {
        self.calls.borrow_mut().push(format!("find_objects({}, {:?}, {})", session, template, max));
        Ok(self.objects.clone())
    }
}

fn uri(text: &str) -> Pkcs11Uri {
    Pkcs11Uri::try_from(text).unwrap()
}

#[test]
fn one_object_is_returned() {
    let module = FakeModule::one_slot(vec![42]);
    let resolved = uri("pkcs11:token=keys;object=signer").resolve_object(&module, None);
    assert!(matches!(resolved, Ok((107, 42))));
    assert!(!module.calls().iter().any(|c| c.starts_with("close_session")));
    assert!(!module.calls().iter().any(|c| c.starts_with("login")));
}

#[test]
fn two_objects_are_ambiguous() {
    let module = FakeModule::one_slot(vec![42, 43]);
    let resolved = uri("pkcs11:token=keys;object=signer").resolve_object(&module, None);
    assert!(matches!(resolved, Err(ResolutionError::AmbiguousObject)));
    assert_eq!(module.calls().last().unwrap(), "close_session(107)");
}

#[test]
fn no_object_is_an_error() {
    let module = FakeModule::one_slot(vec![]);
    let resolved = uri("pkcs11:object=signer").resolve_object(&module, None);
    assert!(matches!(resolved, Err(ResolutionError::NoObject)));
    assert_eq!(module.calls().last().unwrap(), "close_session(107)");
}

#[test]
fn no_matching_slot_is_an_error() {
    let module = FakeModule::one_slot(vec![42]);
    let resolved = uri("pkcs11:token=other").resolve_object(&module, None);
    assert!(matches!(resolved, Err(ResolutionError::NoSlot)));
    assert!(!module.calls().iter().any(|c| c.starts_with("open_session")));
    let empty = FakeModule::new(vec![], vec![42]);
    assert!(matches!(uri("pkcs11:").resolve_object(&empty, None), Err(ResolutionError::NoSlot)));
}

#[test]
fn several_matching_slots_are_ambiguous() {
    let module = FakeModule::new(
        vec![
            FakeSlot { id: 1, description: "a", label: "keys", serial: "1" },
            FakeSlot { id: 2, description: "b", label: "keys", serial: "2" },
        ],
        vec![42],
    );
    let resolved = uri("pkcs11:token=keys").resolve_object(&module, None);
    assert!(matches!(resolved, Err(ResolutionError::AmbiguousSlot)));
    assert!(!module.calls().iter().any(|c| c.starts_with("open_session")));
    let resolved = uri("pkcs11:token=keys;serial=2").resolve_object(&module, None);
    assert!(matches!(resolved, Ok((102, 42))));
}

#[test]
fn slot_id_selects_the_equal_slot() {
    let module = FakeModule::new(
        vec![
            FakeSlot { id: 1, description: "a", label: "keys", serial: "1" },
            FakeSlot { id: 2, description: "b", label: "keys", serial: "2" },
            FakeSlot { id: 3, description: "c", label: "keys", serial: "3" },
        ],
        vec![42],
    );
    let two = uri("pkcs11:slot-id=2");
    assert!(matches!(two.matching_slots(&module, false), Ok(slots) if slots == vec![2]));
    assert!(matches!(two.matching_slots(&module, true), Ok(slots) if slots == vec![2]));
    assert!(matches!(two.resolve_object(&module, None), Ok((102, 42))));
    assert!(!module.calls().iter().any(|c| c == "slot_info(1)" || c == "token_info(3)"));
    assert!(matches!(two.matches_slot(&module, 2), Ok(true)));
    assert!(matches!(two.matches_slot(&module, 1), Ok(false)));
    assert!(matches!(two.matches_token(&module, 2), Ok(true)));
    assert!(matches!(two.matches_token(&module, 3), Ok(false)));
    let any = uri("pkcs11:");
    assert!(matches!(any.matching_slots(&module, true), Ok(slots) if slots == vec![1, 2, 3]));
}

#[test]
fn slots_and_tokens_are_filtered_apart() {
    let module = FakeModule::new(
        vec![
            FakeSlot { id: 1, description: "a", label: "keys", serial: "1" },
            FakeSlot { id: 2, description: "a", label: "certs", serial: "2" },
            FakeSlot { id: 3, description: "b", label: "keys", serial: "3" },
        ],
        vec![],
    );
    let wanted = uri("pkcs11:slot-description=a;token=keys");
    assert!(matches!(wanted.matching_slots(&module, false), Ok(slots) if slots == vec![1, 2]));
    assert!(matches!(wanted.matching_slots(&module, true), Ok(slots) if slots == vec![1]));
    assert_eq!(module.calls()[0], "list_slots(true)");
}

#[test]
fn failing_module_call_is_reported() {
    let mut module = FakeModule::one_slot(vec![42]);
    module.fail_listing = true;
    let resolved = uri("pkcs11:").resolve_object(&module, None);
    assert!(matches!(resolved, Err(ResolutionError::ModuleCallFailed(Error::Module("listing failed")))));
    assert!(matches!(
        uri("pkcs11:").matches_slot(&module, 9),
        Err(ResolutionError::ModuleCallFailed(_))
    ));
    assert!(matches!(
        uri("pkcs11:").matches_token(&module, 9),
        Err(ResolutionError::ModuleCallFailed(_))
    ));
}

#[test]
fn login_with_pin() {
    let mut module = FakeModule::one_slot(vec![42]);
    module.good_pin = Some("1234");
    let target = uri("pkcs11:object=signer;id=%01%02;type=private");
    assert!(matches!(target.resolve_object(&module, Some("1234")), Ok((107, 42))));
    assert_eq!(
        module.calls(),
        vec![
            "list_slots(true)".to_string(),
            "slot_info(7)".to_string(),
            "token_info(7)".to_string(),
            format!("open_session(7, {})", SERIAL_SESSION | RW_SESSION),
            format!("login(107, {}, 1234)", NORMAL_USER),
            format!(
                "find_objects(107, {:?}, {})",
                vec![
                    SearchTerm::Label("signer".to_string()),
                    SearchTerm::Id(vec![1, 2]),
                    SearchTerm::Class(3)
                ],
                MAX_OBJECTS
            ),
        ]
    );
    assert_eq!(SERIAL_SESSION | RW_SESSION, 6);
    assert_eq!(NORMAL_USER, 1);
    assert_eq!(MAX_OBJECTS, 10);
}

#[test]
fn refused_pin_is_login_failed() {
    let mut module = FakeModule::one_slot(vec![42]);
    module.good_pin = Some("1234");
    let resolved = uri("pkcs11:object=signer").resolve_object(&module, Some("0000"));
    assert!(matches!(resolved, Err(ResolutionError::LoginFailed)));
    assert_eq!(module.calls().last().unwrap(), "close_session(107)");
    assert!(!module.calls().iter().any(|c| c.starts_with("find_objects")));
    assert!(matches!(
        uri("pkcs11:").find_object(&module, 5, Some("0000")),
        Err(ResolutionError::LoginFailed)
    ));
    assert!(matches!(uri("pkcs11:").find_object(&module, 5, Some("1234")), Ok(42)));
}

#[test]
fn search_terms_follow_the_attributes() {
    assert_eq!(uri("pkcs11:token=t").search_terms(), vec![]);
    assert_eq!(
        uri("pkcs11:type=cert;object=a").search_terms(),
        vec![SearchTerm::Label("a".to_string()), SearchTerm::Class(1)]
    );
    assert_eq!(uri("pkcs11:id=%00").search_terms(), vec![SearchTerm::Id(vec![0])]);
    assert_eq!(
        uri("pkcs11:type=secret-key;id=%ff;object=b").search_terms(),
        vec![SearchTerm::Label("b".to_string()), SearchTerm::Id(vec![255]), SearchTerm::Class(4)]
    );
}

#[test]
fn select_exactly_one() {
    assert!(matches!(select_slot(&vec![]), Err(ResolutionError::NoSlot)));
    assert!(matches!(select_slot(&vec![4]), Ok(4)));
    assert!(matches!(select_slot(&vec![4, 4]), Err(ResolutionError::AmbiguousSlot)));
    assert!(matches!(select_object(&vec![]), Err(ResolutionError::NoObject)));
    assert!(matches!(select_object(&vec![9]), Ok(9)));
    assert!(matches!(select_object(&vec![9, 8, 7]), Err(ResolutionError::AmbiguousObject)));
}

#[test]
fn accepting_slots() {
    let info = SlotInfo { description: "reader".to_string(), manufacturer: "ACME".to_string() };
    assert!(uri("pkcs11:").accepts_slot(1, &info));
    assert!(uri("pkcs11:slot-id=1").accepts_slot(1, &info));
    assert!(!uri("pkcs11:slot-id=1").accepts_slot(2, &info));
    assert!(uri("pkcs11:slot-id=1").accepts_slot_id(1));
    assert!(!uri("pkcs11:slot-id=1").accepts_slot_id(0));
    assert!(uri("pkcs11:").accepts_slot_id(0));
    assert!(uri("pkcs11:slot-description=reader;slot-manufacturer=ACME").accepts_slot(1, &info));
    assert!(!uri("pkcs11:slot-description=Reader").accepts_slot(1, &info));
    assert!(!uri("pkcs11:slot-description=reader;slot-manufacturer=ACM").accepts_slot(1, &info));
    assert!(uri("pkcs11:manufacturer=other;token=x").accepts_slot(1, &info));
}

#[test]
fn accepting_tokens() {
    let info = TokenInfo {
        manufacturer: "ACME".to_string(),
        model: "T1".to_string(),
        label: "keys".to_string(),
        serial: serial("DECC0401648"),
    };
    assert!(uri("pkcs11:").accepts_token(1, &info));
    assert!(uri("pkcs11:manufacturer=ACME;model=T1;token=keys;serial=DECC0401648").accepts_token(1, &info));
    assert!(!uri("pkcs11:manufacturer=ACME;model=T1;token=keys;serial=DECC0401649").accepts_token(1, &info));
    assert!(!uri("pkcs11:serial=DECC040164").accepts_token(1, &info));
    assert!(!uri("pkcs11:manufacturer=ACM").accepts_token(1, &info));
    assert!(!uri("pkcs11:model=T2").accepts_token(1, &info));
    assert!(!uri("pkcs11:token=key").accepts_token(1, &info));
    assert!(!uri("pkcs11:slot-id=2;token=keys").accepts_token(1, &info));
    assert!(uri("pkcs11:slot-id=1;token=keys").accepts_token(1, &info));
    assert!(uri("pkcs11:slot-description=other").accepts_token(1, &info));
}

#[test]
fn pin_sources() {
    assert_eq!(uri("pkcs11:object=x").pin_request(), PinRequest::Anonymous);
    assert_eq!(uri("pkcs11:?pin-value=1234").pin_request(), PinRequest::Literal("1234".to_string()));
    assert_eq!(
        uri("pkcs11:?pin-source=env:PIN&pin-value=1234").pin_request(),
        PinRequest::Literal("1234".to_string())
    );
    assert_eq!(
        uri("pkcs11:?pin-source=env:TOKEN_PIN").pin_request(),
        PinRequest::Environment("TOKEN_PIN".to_string())
    );
    assert_eq!(
        uri("pkcs11:?pin-source=file:/etc/token").pin_request(),
        PinRequest::File("/etc/token".to_string())
    );
    assert_eq!(
        uri("pkcs11:?pin-source=file:/etc/a:b").pin_request(),
        PinRequest::File("/etc/a:b".to_string())
    );
    assert_eq!(uri("pkcs11:?pin-source=https://host/pin").pin_request(), PinRequest::Anonymous);
    assert_eq!(uri("pkcs11:?pin-source=file").pin_request(), PinRequest::Anonymous);
    assert_eq!(uri("pkcs11:?pin-source=ENV:PIN").pin_request(), PinRequest::Anonymous);
}

#[test]
fn pin_file_contents_are_trimmed_at_the_end() {
    assert_eq!(pin_from_file_contents("1234\n"), "1234");
    assert_eq!(pin_from_file_contents("1234"), "1234");
    assert_eq!(pin_from_file_contents("  12 34 \r\n\t"), "  12 34");
    assert_eq!(pin_from_file_contents(" \n"), "");
    assert_eq!(pin_from_file_contents(""), "");
}

#[test]
fn missing_module_file_is_a_failed_module_call() {
    let target = uri("pkcs11:object=x?module-path=/nonexistent/dir/no-such-module.so");
    assert!(matches!(target.context(), Err(ResolutionError::ModuleCallFailed(Error::Io(_)))));
    assert!(matches!(target.identify_slots(), Err(ResolutionError::ModuleCallFailed(_))));
    assert!(matches!(target.identify_tokens(), Err(ResolutionError::ModuleCallFailed(_))));
    assert!(matches!(target.identify_object(None), Err(ResolutionError::ModuleCallFailed(_))));
    assert!(matches!(
        target.identify_object(Some("1234")),
        Err(ResolutionError::ModuleCallFailed(_))
    ));
}

fn candidate(id: u64, description: &str, label: &str, number: &str) -> (u64, SlotInfo, TokenInfo) {
    (
        id,
        SlotInfo { description: description.to_string(), manufacturer: "ACME".to_string() },
        TokenInfo {
            manufacturer: "ACME".to_string(),
            model: "T1".to_string(),
            label: label.to_string(),
            serial: serial(number),
        },
    )
}

#[test]
fn choosing_among_candidates() {
    let candidates = vec![
        candidate(1, "a", "keys", "1"),
        candidate(2, "a", "certs", "2"),
        candidate(3, "b", "keys", "3"),
    ];
    assert!(matches!(uri("pkcs11:token=certs").choose_slot(&candidates), Ok(2)));
    assert!(matches!(uri("pkcs11:slot-description=b;token=keys").choose_slot(&candidates), Ok(3)));
    assert!(matches!(uri("pkcs11:slot-id=1").choose_slot(&candidates), Ok(1)));
    assert!(matches!(
        uri("pkcs11:token=keys").choose_slot(&candidates),
        Err(ResolutionError::AmbiguousSlot)
    ));
    assert!(matches!(uri("pkcs11:").choose_slot(&candidates), Err(ResolutionError::AmbiguousSlot)));
    assert!(matches!(
        uri("pkcs11:slot-description=b;token=certs").choose_slot(&candidates),
        Err(ResolutionError::NoSlot)
    ));
    assert!(matches!(uri("pkcs11:slot-id=4").choose_slot(&candidates), Err(ResolutionError::NoSlot)));
    assert!(matches!(uri("pkcs11:").choose_slot(&vec![]), Err(ResolutionError::NoSlot)));
    assert!(matches!(uri("pkcs11:").choose_slot(&vec![candidate(9, "x", "y", "z")]), Ok(9)));
}

#[test]
fn what_is_handed_to_a_module() {
    assert_eq!(
        requests(),
        Requests { token_present: true, session_flags: 6, user_type: 1, max_objects: 10 }
    );
}

#[test]
fn session_is_opened_on_the_one_matching_slot() {
    let module = FakeModule::new(
        vec![
            FakeSlot { id: 1, description: "a", label: "keys", serial: "1" },
            FakeSlot { id: 2, description: "b", label: "certs", serial: "2" },
        ],
        vec![42],
    );
    assert!(matches!(uri("pkcs11:token=certs").open_matching_session(&module), Ok(102)));
    assert_eq!(module.calls().last().unwrap(), "open_session(2, 6)");
    assert!(matches!(
        uri("pkcs11:").open_matching_session(&module),
        Err(ResolutionError::AmbiguousSlot)
    ));
    assert!(matches!(
        uri("pkcs11:token=none").open_matching_session(&module),
        Err(ResolutionError::NoSlot)
    ));
    assert_eq!(module.calls().iter().filter(|c| c.starts_with("open_session")).count(), 1);
}

#[test]
fn session_is_closed_when_the_search_fails() {
    let module = FakeModule::one_slot(vec![]);
    let target = uri("pkcs11:object=x");
    assert!(matches!(target.object_in_session(&module, 5, None), Err(ResolutionError::NoObject)));
    assert_eq!(module.calls().last().unwrap(), "close_session(5)");
    let module = FakeModule::one_slot(vec![8]);
    assert!(matches!(target.object_in_session(&module, 5, None), Ok(8)));
    assert!(!module.calls().iter().any(|c| c.starts_with("close_session")));
    assert!(matches!(
        target.object_in_session(&module, 5, Some("0000")),
        Err(ResolutionError::LoginFailed)
    ));
    assert_eq!(module.calls().last().unwrap(), "close_session(5)");
}

#[test]
fn pin_from_what_was_read() {
    assert_eq!(PinRequest::Anonymous.pin(Some("x")), None);
    assert_eq!(PinRequest::Anonymous.pin(None), None);
    assert_eq!(PinRequest::Literal("1234".to_string()).pin(None), Some("1234".to_string()));
    assert_eq!(PinRequest::Literal(" 12 ".to_string()).pin(Some("x")), Some(" 12 ".to_string()));
    assert_eq!(PinRequest::Environment("PIN".to_string()).pin(Some(" 12 \n")), Some(" 12 \n".to_string()));
    assert_eq!(PinRequest::Environment("PIN".to_string()).pin(None), None);
    assert_eq!(PinRequest::File("/f".to_string()).pin(Some(" 12 \n")), Some(" 12".to_string()));
    assert_eq!(PinRequest::File("/f".to_string()).pin(None), None);
    let both = uri("pkcs11:?pin-source=file:/f&pin-value=1234");
    assert_eq!(both.pin_request().pin(Some("0000\n")), Some("1234".to_string()));
}
