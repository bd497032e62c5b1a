//! Attribute lists: the path attributes and the query attributes of a URI.

use vstd::prelude::*;
use crate::codec::{decoded_bytes, decoded_text, percent_decode_bytes, percent_decode_string};
use crate::text::{first_index, same_text, split, split_all, split_once, views};
use crate::values::{
    object_class_of, parse_library_version, parse_object_class, parse_serial_number,
    parse_slot_id, serial_of, slot_id_of, version_of, ObjectClass, Version,
};

verus! {

/// Why a text is not a `pkcs11:` URI.
#[derive(Clone, Debug, PartialEq, Eq)]
pub enum ParseError {
    /// The text is no URI reference, or a component of an attribute list has
    /// no `=`.
    MalformedUri,
    /// The scheme is not `pkcs11`.
    WrongScheme,
    /// The URI has an authority.
    UnexpectedAuthority,
    /// The path is not a single segment.
    BadPathShape,
    /// The key names no attribute of the list it stands in.
    UnknownAttribute(String),
    /// The key occurs a second time.
    DuplicateAttribute(String),
    /// The value does not parse as the attribute's type.
    InvalidValue { key: String, raw_value: String },
}

/// What a [`ParseError`] holds, as mathematical values.
pub enum ParseErrorView {
    MalformedUri,
    WrongScheme,
    UnexpectedAuthority,
    BadPathShape,
    UnknownAttribute(Seq<char>),
    DuplicateAttribute(Seq<char>),
    InvalidValue { key: Seq<char>, raw_value: Seq<char> },
}

impl View for ParseError {
    type V = ParseErrorView;

    open spec fn view(&self) -> ParseErrorView {
        match self {
            ParseError::MalformedUri => ParseErrorView::MalformedUri,
            ParseError::WrongScheme => ParseErrorView::WrongScheme,
            ParseError::UnexpectedAuthority => ParseErrorView::UnexpectedAuthority,
            ParseError::BadPathShape => ParseErrorView::BadPathShape,
            ParseError::UnknownAttribute(key) => ParseErrorView::UnknownAttribute(key@),
            ParseError::DuplicateAttribute(key) => ParseErrorView::DuplicateAttribute(key@),
            ParseError::InvalidValue { key, raw_value } => ParseErrorView::InvalidValue {
                key: key@,
                raw_value: raw_value@,
            },
        }
    }
}

fn unknown_attribute(key: &str) -> (e: ParseError)
    ensures
        e@ == ParseErrorView::UnknownAttribute(key@),
{
    ParseError::UnknownAttribute(key.to_owned())
}

fn duplicate_attribute(key: &str) -> (e: ParseError)
    ensures
        e@ == ParseErrorView::DuplicateAttribute(key@),
{
    ParseError::DuplicateAttribute(key.to_owned())
}

fn invalid_value(key: &str, value: &str) -> (e: ParseError)
    ensures
        e@ == (ParseErrorView::InvalidValue { key: key@, raw_value: value@ }),
{
    ParseError::InvalidValue { key: key.to_owned(), raw_value: value.to_owned() }
}

/// The part of a component before its first `=`.
pub open spec fn key_of(component: Seq<char>) -> Seq<char> {
    component.subrange(0, first_index(component, '='))
}

/// The part of a component after its first `=`.
pub open spec fn value_of(component: Seq<char>) -> Seq<char> {
    component.subrange(first_index(component, '=') + 1, component.len() as int)
}

/// The value to store for `key`: `parsed`, unless the raw text did not parse
/// or the attribute has a value already.
pub open spec fn assigned<T>(
    parsed: Option<T>,
    current: Option<T>,
    key: Seq<char>,
    value: Seq<char>,
) -> Result<T, ParseErrorView> {
    match parsed {
        None => Err(ParseErrorView::InvalidValue { key: key, raw_value: value }),
        Some(v) => if current is Some {
            Err(ParseErrorView::DuplicateAttribute(key))
        } else {
            Ok(v)
        },
    }
}

/// The path attributes of a URI. Each is set at most once.
#[derive(Clone, Debug, Default, PartialEq, Eq)]
pub struct PathAttributes {
    /// Description of the library. Written `library-description`.
    pub library_description: Option<String>,
    /// Manufacturer of the library. Written `library-manufacturer`.
    pub library_manufacturer: Option<String>,
    /// Version of the library. Written `library-version`.
    pub library_version: Option<Version>,
    /// Description of the slot. Written `slot-description`.
    pub slot_description: Option<String>,
    /// Identifier of the slot. Written `slot-id`.
    pub slot_id: Option<u64>,
    /// Manufacturer of the slot. Written `slot-manufacturer`.
    pub slot_manufacturer: Option<String>,
    /// Manufacturer of the token. Written `manufacturer`.
    pub token_manufacturer: Option<String>,
    /// Model of the token. Written `model`.
    pub token_model: Option<String>,
    /// Label of the token. Written `token`.
    pub token_label: Option<String>,
    /// Serial number of the token, blank-padded to 16 bytes. Written `serial`.
    pub token_serial: Option<[u8; 16]>,
    /// Class of the object. Written `type`.
    pub object_class: Option<ObjectClass>,
    /// Identifier of the object, as raw bytes. Written `id`.
    pub object_id: Option<Vec<u8>>,
    /// Label of the object. Written `object`.
    pub object_label: Option<String>,
}

/// What a [`PathAttributes`] holds, as mathematical values.
pub struct PathAttributesView {
    pub library_description: Option<Seq<char>>,
    pub library_manufacturer: Option<Seq<char>>,
    pub library_version: Option<Version>,
    pub slot_description: Option<Seq<char>>,
    pub slot_id: Option<u64>,
    pub slot_manufacturer: Option<Seq<char>>,
    pub token_manufacturer: Option<Seq<char>>,
    pub token_model: Option<Seq<char>>,
    pub token_label: Option<Seq<char>>,
    pub token_serial: Option<Seq<u8>>,
    pub object_class: Option<ObjectClass>,
    pub object_id: Option<Seq<u8>>,
    pub object_label: Option<Seq<char>>,
}

impl View for PathAttributes {
    type V = PathAttributesView;

    open spec fn view(&self) -> PathAttributesView {
        PathAttributesView {
            library_description: match self.library_description {
                Some(v) => Some(v@),
                None => None,
            },
            library_manufacturer: match self.library_manufacturer {
                Some(v) => Some(v@),
                None => None,
            },
            library_version: self.library_version,
            slot_description: match self.slot_description {
                Some(v) => Some(v@),
                None => None,
            },
            slot_id: self.slot_id,
            slot_manufacturer: match self.slot_manufacturer {
                Some(v) => Some(v@),
                None => None,
            },
            token_manufacturer: match self.token_manufacturer {
                Some(v) => Some(v@),
                None => None,
            },
            token_model: match self.token_model {
                Some(v) => Some(v@),
                None => None,
            },
            token_label: match self.token_label {
                Some(v) => Some(v@),
                None => None,
            },
            token_serial: match self.token_serial {
                Some(v) => Some(v@),
                None => None,
            },
            object_class: self.object_class,
            object_id: match self.object_id {
                Some(v) => Some(v@),
                None => None,
            },
            object_label: match self.object_label {
                Some(v) => Some(v@),
                None => None,
            },
        }
    }
}

impl PathAttributesView {
    /// The set with no attribute in it.
    pub open spec fn empty() -> PathAttributesView {
        PathAttributesView {
            library_description: None,
            library_manufacturer: None,
            library_version: None,
            slot_description: None,
            slot_id: None,
            slot_manufacturer: None,
            token_manufacturer: None,
            token_model: None,
            token_label: None,
            token_serial: None,
            object_class: None,
            object_id: None,
            object_label: None,
        }
    }
}

/// Whether `key` names a path attribute.
pub open spec fn is_path_key(key: Seq<char>) -> bool {
    ||| key == "library-description"@
    ||| key == "library-manufacturer"@
    ||| key == "library-version"@
    ||| key == "slot-description"@
    ||| key == "slot-id"@
    ||| key == "slot-manufacturer"@
    ||| key == "manufacturer"@
    ||| key == "model"@
    ||| key == "token"@
    ||| key == "serial"@
    ||| key == "type"@
    ||| key == "id"@
    ||| key == "object"@
}

/// `acc` with the attribute `key` set from the raw text `value`: an unknown
/// key is refused first, then a value that does not parse, then a key that
/// `acc` has already.
pub open spec fn path_set(
    acc: PathAttributesView,
    key: Seq<char>,
    value: Seq<char>,
) -> Result<PathAttributesView, ParseErrorView> {
    if key == "library-description"@ {
        match assigned(decoded_text(value), acc.library_description, key, value) {
            Ok(v) => Ok(PathAttributesView { library_description: Some(v), ..acc }),
            Err(e) => Err(e),
        }
    } else if key == "library-manufacturer"@ {
        match assigned(decoded_text(value), acc.library_manufacturer, key, value) {
            Ok(v) => Ok(PathAttributesView { library_manufacturer: Some(v), ..acc }),
            Err(e) => Err(e),
        }
    } else if key == "library-version"@ {
        match assigned(version_of(value), acc.library_version, key, value) {
            Ok(v) => Ok(PathAttributesView { library_version: Some(v), ..acc }),
            Err(e) => Err(e),
        }
    } else if key == "slot-description"@ {
        match assigned(decoded_text(value), acc.slot_description, key, value) {
            Ok(v) => Ok(PathAttributesView { slot_description: Some(v), ..acc }),
            Err(e) => Err(e),
        }
    } else if key == "slot-id"@ {
        match assigned(slot_id_of(value), acc.slot_id, key, value) {
            Ok(v) => Ok(PathAttributesView { slot_id: Some(v), ..acc }),
            Err(e) => Err(e),
        }
    } else if key == "slot-manufacturer"@ {
        match assigned(decoded_text(value), acc.slot_manufacturer, key, value) {
            Ok(v) => Ok(PathAttributesView { slot_manufacturer: Some(v), ..acc }),
            Err(e) => Err(e),
        }
    } else if key == "manufacturer"@ {
        match assigned(decoded_text(value), acc.token_manufacturer, key, value) {
            Ok(v) => Ok(PathAttributesView { token_manufacturer: Some(v), ..acc }),
            Err(e) => Err(e),
        }
    } else if key == "model"@ {
        match assigned(decoded_text(value), acc.token_model, key, value) {
            Ok(v) => Ok(PathAttributesView { token_model: Some(v), ..acc }),
            Err(e) => Err(e),
        }
    } else if key == "token"@ {
        match assigned(decoded_text(value), acc.token_label, key, value) {
            Ok(v) => Ok(PathAttributesView { token_label: Some(v), ..acc }),
            Err(e) => Err(e),
        }
    } else if key == "serial"@ {
        match assigned(serial_of(value), acc.token_serial, key, value) {
            Ok(v) => Ok(PathAttributesView { token_serial: Some(v), ..acc }),
            Err(e) => Err(e),
        }
    } else if key == "type"@ {
        match assigned(object_class_of(value), acc.object_class, key, value) {
            Ok(v) => Ok(PathAttributesView { object_class: Some(v), ..acc }),
            Err(e) => Err(e),
        }
    } else if key == "id"@ {
        match assigned(Some(decoded_bytes(value)), acc.object_id, key, value) {
            Ok(v) => Ok(PathAttributesView { object_id: Some(v), ..acc }),
            Err(e) => Err(e),
        }
    } else if key == "object"@ {
        match assigned(decoded_text(value), acc.object_label, key, value) {
            Ok(v) => Ok(PathAttributesView { object_label: Some(v), ..acc }),
            Err(e) => Err(e),
        }
    } else {
        Err(ParseErrorView::UnknownAttribute(key))
    }
}

/// `acc` with the attribute that `component` spells as `key=value`.
pub open spec fn path_with(
    acc: PathAttributesView,
    component: Seq<char>,
) -> Result<PathAttributesView, ParseErrorView> {
    if component.contains('=') {
        path_set(acc, key_of(component), value_of(component))
    } else {
        Err(ParseErrorView::MalformedUri)
    }
}

/// `acc` with the attributes of `components`, taken from the left. The first
/// component that is refused decides the error.
pub open spec fn path_fold(
    components: Seq<Seq<char>>,
    acc: PathAttributesView,
) -> Result<PathAttributesView, ParseErrorView>
    decreases components.len(),
{
    if components.len() == 0 {
        Ok(acc)
    } else {
        match path_with(acc, components[0]) {
            Ok(next) => path_fold(components.drop_first(), next),
            Err(e) => Err(e),
        }
    }
}

/// The path attributes that `input` spells: none for the empty text, else
/// those of its components between `;`.
pub open spec fn parsed_path(input: Seq<char>) -> Result<PathAttributesView, ParseErrorView> {
    if input.len() == 0 {
        Ok(PathAttributesView::empty())
    } else {
        path_fold(split(input, ';'), PathAttributesView::empty())
    }
}

/// The mathematical value of a parse result.
pub open spec fn path_outcome(
    r: Result<PathAttributes,
    ParseError>,
) -> Result<PathAttributesView, ParseErrorView> {
    match r {
        Ok(a) => Ok(a@),
        Err(e) => Err(e@),
    }
}

impl PathAttributes {
    /// The set with no attribute in it.
    pub fn new() -> (attributes: PathAttributes)
        ensures
            attributes@ == PathAttributesView::empty(),
    {
        PathAttributes {
            library_description: None,
            library_manufacturer: None,
            library_version: None,
            slot_description: None,
            slot_id: None,
            slot_manufacturer: None,
            token_manufacturer: None,
            token_model: None,
            token_label: None,
            token_serial: None,
            object_class: None,
            object_id: None,
            object_label: None,
        }
    }

    /// Sets the attribute `key` from its raw text `value`. An unknown key is
    /// refused first, then a value that does not parse, then a key that is set
    /// already.
    pub fn set(self, key: &str, value: &str) -> (updated: Result<PathAttributes, ParseError>)
        ensures
            path_outcome(updated) == path_set(self@, key@, value@),
    {
        let mut attributes = self;
        if same_text(key, "library-description") {
            match percent_decode_string(value) {
                Err(_) => return Err(invalid_value(key, value)),
                Ok(v) => {
                    if attributes.library_description.is_some() {
                        return Err(duplicate_attribute(key));
                    }
                    attributes.library_description = Some(v);
                },
            }
        } else if same_text(key, "library-manufacturer") {
            match percent_decode_string(value) {
                Err(_) => return Err(invalid_value(key, value)),
                Ok(v) => {
                    if attributes.library_manufacturer.is_some() {
                        return Err(duplicate_attribute(key));
                    }
                    attributes.library_manufacturer = Some(v);
                },
            }
        } else if same_text(key, "library-version") {
            match parse_library_version(value) {
                Err(_) => return Err(invalid_value(key, value)),
                Ok(v) => {
                    if attributes.library_version.is_some() {
                        return Err(duplicate_attribute(key));
                    }
                    attributes.library_version = Some(v);
                },
            }
        } else if same_text(key, "slot-description") {
            match percent_decode_string(value) {
                Err(_) => return Err(invalid_value(key, value)),
                Ok(v) => {
                    if attributes.slot_description.is_some() {
                        return Err(duplicate_attribute(key));
                    }
                    attributes.slot_description = Some(v);
                },
            }
        } else if same_text(key, "slot-id") {
            match parse_slot_id(value) {
                Err(_) => return Err(invalid_value(key, value)),
                Ok(v) => {
                    if attributes.slot_id.is_some() {
                        return Err(duplicate_attribute(key));
                    }
                    attributes.slot_id = Some(v);
                },
            }
        } else if same_text(key, "slot-manufacturer") {
            match percent_decode_string(value) {
                Err(_) => return Err(invalid_value(key, value)),
                Ok(v) => {
                    if attributes.slot_manufacturer.is_some() {
                        return Err(duplicate_attribute(key));
                    }
                    attributes.slot_manufacturer = Some(v);
                },
            }
        } else if same_text(key, "manufacturer") {
            match percent_decode_string(value) {
                Err(_) => return Err(invalid_value(key, value)),
                Ok(v) => {
                    if attributes.token_manufacturer.is_some() {
                        return Err(duplicate_attribute(key));
                    }
                    attributes.token_manufacturer = Some(v);
                },
            }
        } else if same_text(key, "model") {
            match percent_decode_string(value) {
                Err(_) => return Err(invalid_value(key, value)),
                Ok(v) => {
                    if attributes.token_model.is_some() {
                        return Err(duplicate_attribute(key));
                    }
                    attributes.token_model = Some(v);
                },
            }
        } else if same_text(key, "token") {
            match percent_decode_string(value) {
                Err(_) => return Err(invalid_value(key, value)),
                Ok(v) => {
                    if attributes.token_label.is_some() {
                        return Err(duplicate_attribute(key));
                    }
                    attributes.token_label = Some(v);
                },
            }
        } else if same_text(key, "serial") {
            match parse_serial_number(value) {
                Err(_) => return Err(invalid_value(key, value)),
                Ok(v) => {
                    if attributes.token_serial.is_some() {
                        return Err(duplicate_attribute(key));
                    }
                    attributes.token_serial = Some(v);
                },
            }
        } else if same_text(key, "type") {
            match parse_object_class(value) {
                Err(_) => return Err(invalid_value(key, value)),
                Ok(v) => {
                    if attributes.object_class.is_some() {
                        return Err(duplicate_attribute(key));
                    }
                    attributes.object_class = Some(v);
                },
            }
        } else if same_text(key, "id") {
            match percent_decode_bytes(value) {
                Err(_) => return Err(invalid_value(key, value)),
                Ok(v) => {
                    if attributes.object_id.is_some() {
                        return Err(duplicate_attribute(key));
                    }
                    attributes.object_id = Some(v);
                },
            }
        } else if same_text(key, "object") {
            match percent_decode_string(value) {
                Err(_) => return Err(invalid_value(key, value)),
                Ok(v) => {
                    if attributes.object_label.is_some() {
                        return Err(duplicate_attribute(key));
                    }
                    attributes.object_label = Some(v);
                },
            }
        } else {
            return Err(unknown_attribute(key));
        }
        Ok(attributes)
    }

    /// Sets the attribute that `component` spells as `key=value`, split at the
    /// first `=`. A component without `=` is malformed.
    pub fn with_component(self, component: &str) -> (updated: Result<
        PathAttributes,
        ParseError,
    >)
        ensures
            path_outcome(updated) == path_with(self@, component@),
    {
        match split_once(component, '=') {
            Some((key, value)) => self.set(key, value),
            None => Err(ParseError::MalformedUri),
        }
    }

    /// Parses a list of `key=value` components between `;`. The empty text
    /// holds no attribute. Components are taken from the left, and the first
    /// one that is refused decides the error.
    pub fn try_from(input: &str) -> (attributes: Result<PathAttributes, ParseError>)
        ensures
            path_outcome(attributes) == parsed_path(input@),
    {
        let mut attributes = PathAttributes::new();
        if input.is_empty() {
            return Ok(attributes);
        }
        let components = split_all(input, ';');
        let mut i: usize = 0;
        assert(views(components@).skip(0) =~= views(components@));
        while i < components.len()
            invariant
                i <= components.len(),
                views(components@) == split(input@, ';'),
                path_fold(views(components@).skip(i as int), attributes@) == parsed_path(
                    input@,
                ),
            decreases components.len() - i,
        {
            proof {
                let rest = views(components@).skip(i as int);
                assert(rest[0] == components@[i as int]@);
                assert(rest.drop_first() =~= views(components@).skip(i + 1));
            }
            match attributes.with_component(components[i]) {
                Ok(next) => {
                    attributes = next;
                },
                Err(e) => {
                    return Err(e);
                },
            }
            i += 1;
        }
        Ok(attributes)
    }
}

/// Taking a list of components is taking its first `i` and then the rest.
pub proof fn lemma_path_fold_split(components: Seq<Seq<char>>, acc: PathAttributesView, i: int)
    requires
        0 <= i <= components.len(),
    ensures
        path_fold(components, acc) == match path_fold(components.take(i), acc) {
            Ok(mid) => path_fold(components.skip(i), mid),
            Err(e) => Err(e),
        },
    decreases i,
{
    if i == 0 {
        assert(components.take(0) =~= Seq::<Seq<char>>::empty());
        assert(components.skip(0) =~= components);
    } else {
        assert(components.take(i)[0] == components[0]);
        assert(components.take(i).drop_first() =~= components.drop_first().take(i - 1));
        assert(components.drop_first().skip(i - 1) =~= components.skip(i));
        if let Ok(next) = path_with(acc, components[0]) {
            lemma_path_fold_split(components.drop_first(), next, i - 1);
        }
    }
}

/// A key that names no path attribute makes the whole list fail, wherever
/// its component stands. Where every component before it is accepted, the
/// failure is `UnknownAttribute` with that key; else the first component
/// that is refused decides.
pub proof fn lemma_unknown_path_key(input: Seq<char>, i: int)
    requires
        0 <= i < split(input, ';').len(),
        split(input, ';')[i].contains('='),
        !is_path_key(key_of(split(input, ';')[i])),
    ensures
        parsed_path(input) is Err,
        path_fold(split(input, ';').take(i), PathAttributesView::empty()) is Ok ==> parsed_path(input)
            == Err::<PathAttributesView, ParseErrorView>(
            ParseErrorView::UnknownAttribute(key_of(split(input, ';')[i])),
        ),
{
    let components = split(input, ';');
    if input.len() == 0 {
        assert(components =~= seq![input]);
        assert(!input.contains('='));
    }
    lemma_path_fold_split(components, PathAttributesView::empty(), i);
    assert(components.skip(i)[0] == components[i]);
}

/// No path attribute is set twice: once `key` has been set, a second value
/// for it, however well it parses, is refused as `DuplicateAttribute`.
pub proof fn lemma_path_key_set_twice(
    acc: PathAttributesView,
    key: Seq<char>,
    first: Seq<char>,
    second: Seq<char>,
)
    requires
        path_set(acc, key, first) is Ok,
        path_set(PathAttributesView::empty(), key, second) is Ok,
    ensures
        path_set(path_set(acc, key, first)->Ok_0, key, second) == Err::<PathAttributesView, ParseErrorView>(
            ParseErrorView::DuplicateAttribute(key),
        ),
{
}

/// The query attributes of a URI. Each is set at most once.
#[derive(Clone, Debug, Default, PartialEq, Eq)]
pub struct QueryAttributes {
    /// Where the PIN is to be had from. Written `pin-source`.
    pub pin_source: Option<String>,
    /// The PIN itself. Written `pin-value`.
    pub pin_value: Option<String>,
    /// Name of the module. Written `module-name`.
    pub module_name: Option<String>,
    /// Path of the module. Written `module-path`.
    pub module_file: Option<String>,
}

/// What a [`QueryAttributes`] holds, as mathematical values.
pub struct QueryAttributesView {
    pub pin_source: Option<Seq<char>>,
    pub pin_value: Option<Seq<char>>,
    pub module_name: Option<Seq<char>>,
    pub module_file: Option<Seq<char>>,
}

impl View for QueryAttributes {
    type V = QueryAttributesView;

    open spec fn view(&self) -> QueryAttributesView {
        QueryAttributesView {
            pin_source: match self.pin_source {
                Some(v) => Some(v@),
                None => None,
            },
            pin_value: match self.pin_value {
                Some(v) => Some(v@),
                None => None,
            },
            module_name: match self.module_name {
                Some(v) => Some(v@),
                None => None,
            },
            module_file: match self.module_file {
                Some(v) => Some(v@),
                None => None,
            },
        }
    }
}

impl QueryAttributesView {
    /// The set with no attribute in it.
    pub open spec fn empty() -> QueryAttributesView {
        QueryAttributesView {
            pin_source: None,
            pin_value: None,
            module_name: None,
            module_file: None,
        }
    }
}

/// Whether `key` names a query attribute.
pub open spec fn is_query_key(key: Seq<char>) -> bool {
    ||| key == "pin-source"@
    ||| key == "pin-value"@
    ||| key == "module-name"@
    ||| key == "module-path"@
}

/// `acc` with the attribute `key` set from the raw text `value`: an unknown
/// key is refused first, then a value that does not parse, then a key that
/// `acc` has already.
pub open spec fn query_set(
    acc: QueryAttributesView,
    key: Seq<char>,
    value: Seq<char>,
) -> Result<QueryAttributesView, ParseErrorView> {
    if key == "pin-source"@ {
        match assigned(decoded_text(value), acc.pin_source, key, value) {
            Ok(v) => Ok(QueryAttributesView { pin_source: Some(v), ..acc }),
            Err(e) => Err(e),
        }
    } else if key == "pin-value"@ {
        match assigned(decoded_text(value), acc.pin_value, key, value) {
            Ok(v) => Ok(QueryAttributesView { pin_value: Some(v), ..acc }),
            Err(e) => Err(e),
        }
    } else if key == "module-name"@ {
        match assigned(decoded_text(value), acc.module_name, key, value) {
            Ok(v) => Ok(QueryAttributesView { module_name: Some(v), ..acc }),
            Err(e) => Err(e),
        }
    } else if key == "module-path"@ {
        match assigned(decoded_text(value), acc.module_file, key, value) {
            Ok(v) => Ok(QueryAttributesView { module_file: Some(v), ..acc }),
            Err(e) => Err(e),
        }
    } else {
        Err(ParseErrorView::UnknownAttribute(key))
    }
}

/// `acc` with the attribute that `component` spells as `key=value`.
pub open spec fn query_with(
    acc: QueryAttributesView,
    component: Seq<char>,
) -> Result<QueryAttributesView, ParseErrorView> {
    if component.contains('=') {
        query_set(acc, key_of(component), value_of(component))
    } else {
        Err(ParseErrorView::MalformedUri)
    }
}

/// `acc` with the attributes of `components`, taken from the left. The first
/// component that is refused decides the error.
pub open spec fn query_fold(
    components: Seq<Seq<char>>,
    acc: QueryAttributesView,
) -> Result<QueryAttributesView, ParseErrorView>
    decreases components.len(),
{
    if components.len() == 0 {
        Ok(acc)
    } else {
        match query_with(acc, components[0]) {
            Ok(next) => query_fold(components.drop_first(), next),
            Err(e) => Err(e),
        }
    }
}

/// The query attributes that `input` spells: none for the empty text, else
/// those of its components between `&`.
pub open spec fn parsed_query(input: Seq<char>) -> Result<QueryAttributesView, ParseErrorView> {
    if input.len() == 0 {
        Ok(QueryAttributesView::empty())
    } else {
        query_fold(split(input, '&'), QueryAttributesView::empty())
    }
}

/// The mathematical value of a parse result.
pub open spec fn query_outcome(
    r: Result<QueryAttributes,
    ParseError>,
) -> Result<QueryAttributesView, ParseErrorView> {
    match r {
        Ok(a) => Ok(a@),
        Err(e) => Err(e@),
    }
}

impl QueryAttributes {
    /// The set with no attribute in it.
    pub fn new() -> (attributes: QueryAttributes)
        ensures
            attributes@ == QueryAttributesView::empty(),
    {
        QueryAttributes {
            pin_source: None,
            pin_value: None,
            module_name: None,
            module_file: None,
        }
    }

    /// Sets the attribute `key` from its raw text `value`. An unknown key is
    /// refused first, then a value that does not parse, then a key that is set
    /// already.
    pub fn set(self, key: &str, value: &str) -> (updated: Result<QueryAttributes, ParseError>)
        ensures
            query_outcome(updated) == query_set(self@, key@, value@),
    {
        let mut attributes = self;
        if same_text(key, "pin-source") {
            match percent_decode_string(value) {
                Err(_) => return Err(invalid_value(key, value)),
                Ok(v) => {
                    if attributes.pin_source.is_some() {
                        return Err(duplicate_attribute(key));
                    }
                    attributes.pin_source = Some(v);
                },
            }
        } else if same_text(key, "pin-value") {
            match percent_decode_string(value) {
                Err(_) => return Err(invalid_value(key, value)),
                Ok(v) => {
                    if attributes.pin_value.is_some() {
                        return Err(duplicate_attribute(key));
                    }
                    attributes.pin_value = Some(v);
                },
            }
        } else if same_text(key, "module-name") {
            match percent_decode_string(value) {
                Err(_) => return Err(invalid_value(key, value)),
                Ok(v) => {
                    if attributes.module_name.is_some() {
                        return Err(duplicate_attribute(key));
                    }
                    attributes.module_name = Some(v);
                },
            }
        } else if same_text(key, "module-path") {
            match percent_decode_string(value) {
                Err(_) => return Err(invalid_value(key, value)),
                Ok(v) => {
                    if attributes.module_file.is_some() {
                        return Err(duplicate_attribute(key));
                    }
                    attributes.module_file = Some(v);
                },
            }
        } else {
            return Err(unknown_attribute(key));
        }
        Ok(attributes)
    }

    /// Sets the attribute that `component` spells as `key=value`, split at the
    /// first `=`. A component without `=` is malformed.
    pub fn with_component(self, component: &str) -> (updated: Result<
        QueryAttributes,
        ParseError,
    >)
        ensures
            query_outcome(updated) == query_with(self@, component@),
    {
        match split_once(component, '=') {
            Some((key, value)) => self.set(key, value),
            None => Err(ParseError::MalformedUri),
        }
    }

    /// Parses a list of `key=value` components between `&`. The empty text
    /// holds no attribute. Components are taken from the left, and the first
    /// one that is refused decides the error.
    pub fn try_from(input: &str) -> (attributes: Result<QueryAttributes, ParseError>)
        ensures
            query_outcome(attributes) == parsed_query(input@),
    {
        let mut attributes = QueryAttributes::new();
        if input.is_empty() {
            return Ok(attributes);
        }
        let components = split_all(input, '&');
        let mut i: usize = 0;
        assert(views(components@).skip(0) =~= views(components@));
        while i < components.len()
            invariant
                i <= components.len(),
                views(components@) == split(input@, '&'),
                query_fold(views(components@).skip(i as int), attributes@) == parsed_query(
                    input@,
                ),
            decreases components.len() - i,
        {
            proof {
                let rest = views(components@).skip(i as int);
                assert(rest[0] == components@[i as int]@);
                assert(rest.drop_first() =~= views(components@).skip(i + 1));
            }
            match attributes.with_component(components[i]) {
                Ok(next) => {
                    attributes = next;
                },
                Err(e) => {
                    return Err(e);
                },
            }
            i += 1;
        }
        Ok(attributes)
    }
}
/// Taking a list of components is taking its first `i` and then the rest.
pub proof fn lemma_query_fold_split(components: Seq<Seq<char>>, acc: QueryAttributesView, i: int)
    requires
        0 <= i <= components.len(),
    ensures
        query_fold(components, acc) == match query_fold(components.take(i), acc) {
            Ok(mid) => query_fold(components.skip(i), mid),
            Err(e) => Err(e),
        },
    decreases i,
{
    if i == 0 {
        assert(components.take(0) =~= Seq::<Seq<char>>::empty());
        assert(components.skip(0) =~= components);
    } else {
        assert(components.take(i)[0] == components[0]);
        assert(components.take(i).drop_first() =~= components.drop_first().take(i - 1));
        assert(components.drop_first().skip(i - 1) =~= components.skip(i));
        if let Ok(next) = query_with(acc, components[0]) {
            lemma_query_fold_split(components.drop_first(), next, i - 1);
        }
    }
}

/// A key that names no query attribute makes the whole list fail, wherever
/// its component stands. Where every component before it is accepted, the
/// failure is `UnknownAttribute` with that key; else the first component
/// that is refused decides.
pub proof fn lemma_unknown_query_key(input: Seq<char>, i: int)
    requires
        0 <= i < split(input, '&').len(),
        split(input, '&')[i].contains('='),
        !is_query_key(key_of(split(input, '&')[i])),
    ensures
        parsed_query(input) is Err,
        query_fold(split(input, '&').take(i), QueryAttributesView::empty()) is Ok ==> parsed_query(input)
            == Err::<QueryAttributesView, ParseErrorView>(
            ParseErrorView::UnknownAttribute(key_of(split(input, '&')[i])),
        ),
{
    let components = split(input, '&');
    if input.len() == 0 {
        assert(components =~= seq![input]);
        assert(!input.contains('='));
    }
    lemma_query_fold_split(components, QueryAttributesView::empty(), i);
    assert(components.skip(i)[0] == components[i]);
}

/// No query attribute is set twice: once `key` has been set, a second value
/// for it, however well it parses, is refused as `DuplicateAttribute`.
pub proof fn lemma_query_key_set_twice(
    acc: QueryAttributesView,
    key: Seq<char>,
    first: Seq<char>,
    second: Seq<char>,
)
    requires
        query_set(acc, key, first) is Ok,
        query_set(QueryAttributesView::empty(), key, second) is Ok,
    ensures
        query_set(query_set(acc, key, first)->Ok_0, key, second) == Err::<QueryAttributesView, ParseErrorView>(
            ParseErrorView::DuplicateAttribute(key),
        ),
{
}

} // verus!
