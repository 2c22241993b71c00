//! Property lists: a plain-value model of parsed plist documents and the
//! lookups the rules perform on them.
use vstd::prelude::*;
use crate::text::{owned, push_str, views};
use std::io::Cursor;

verus! {

/// A parsed property-list value. Integers, reals, dates, data blobs and UIDs
/// are kept as `Other`: no rule reads their contents.
pub enum PlistValue {
    Array(Vec<PlistValue>),
    Dictionary(Vec<PlistEntry>),
    Boolean(bool),
    String(String),
    Other,
}

/// One key/value pair of a dictionary, in document order.
pub struct PlistEntry {
    pub key: String,
    pub value: PlistValue,
}

/// Errors from loading a property list.
pub enum PlistError {
    /// The bytes are not a property list; the parser's message.
    ParseError(String),
    NotADictionary,
}

impl PlistError {
    /// The error's display text.
    pub fn message(&self) -> (r: String)
        ensures
            r@ == self.message_spec(),
    {
        match self {
            PlistError::ParseError(m) => {
                let mut out = owned("Plist Error: ");
                push_str(&mut out, m.as_str());
                out
            },
            PlistError::NotADictionary => owned("Not a dictionary"),
        }
    }

    pub open spec fn message_spec(&self) -> Seq<char> {
        match self {
            PlistError::ParseError(m) => "Plist Error: "@ + m@,
            PlistError::NotADictionary => "Not a dictionary"@,
        }
    }

    /// An equal copy.
    pub fn duplicate(&self) -> (r: Self)
        ensures
            r == *self,
    {
        match self {
            PlistError::ParseError(m) => PlistError::ParseError(m.clone()),
            PlistError::NotADictionary => PlistError::NotADictionary,
        }
    }
}

/// The value stored under `key` (the first entry with that key).
pub open spec fn lookup(entries: Seq<PlistEntry>, key: Seq<char>) -> Option<PlistValue>
    decreases entries.len(),
{
    if entries.len() == 0 {
        None
    } else if entries[0].key@ == key {
        Some(entries[0].value)
    } else {
        lookup(entries.drop_first(), key)
    }
}

/// A borrowed optional value, as a value.
pub open spec fn opt_val(r: Option<&PlistValue>) -> Option<PlistValue> {
    match r {
        Some(v) => Some(*v),
        None => None,
    }
}

/// A borrowed optional string, as its characters.
pub open spec fn opt_str(r: Option<&str>) -> Option<Seq<char>> {
    match r {
        Some(s) => Some(s@),
        None => None,
    }
}

/// The string held by an optional value.
pub open spec fn string_of(v: Option<PlistValue>) -> Option<Seq<char>> {
    match v {
        Some(PlistValue::String(s)) => Some(s@),
        _ => None,
    }
}

/// The boolean held by an optional value.
pub open spec fn bool_of(v: Option<PlistValue>) -> Option<bool> {
    match v {
        Some(PlistValue::Boolean(b)) => Some(b),
        _ => None,
    }
}

/// The dictionary entries held by an optional value.
pub open spec fn dict_of(v: Option<PlistValue>) -> Option<Seq<PlistEntry>> {
    match v {
        Some(PlistValue::Dictionary(e)) => Some(e@),
        _ => None,
    }
}

/// The array items held by an optional value.
pub open spec fn array_of(v: Option<PlistValue>) -> Option<Seq<PlistValue>> {
    match v {
        Some(PlistValue::Array(a)) => Some(a@),
        _ => None,
    }
}

/// The string items of an array, in order (other items are skipped).
pub open spec fn array_strings(items: Seq<PlistValue>) -> Seq<Seq<char>>
    decreases items.len(),
{
    if items.len() == 0 {
        Seq::empty()
    } else {
        let rest = array_strings(items.drop_first());
        match items[0] {
            PlistValue::String(s) => seq![s@] + rest,
            _ => rest,
        }
    }
}

proof fn lemma_array_strings_step(items: Seq<PlistValue>, i: int)
    requires
        0 <= i < items.len(),
    ensures
        array_strings(items.take(i + 1)) == array_strings(items.take(i)) + match items[i] {
            PlistValue::String(s) => seq![s@],
            _ => Seq::<Seq<char>>::empty(),
        },
    decreases i,
{
    let t = items.take(i + 1);
    if i == 0 {
        assert(t.drop_first() =~= Seq::<PlistValue>::empty());
        assert(items.take(0) =~= Seq::<PlistValue>::empty());
        assert(array_strings(Seq::<PlistValue>::empty()) =~= Seq::<Seq<char>>::empty());
        match items[0] {
            PlistValue::String(s) => {
                assert(array_strings(t) =~= seq![s@]);
            },
            _ => {},
        }
    } else {
        lemma_array_strings_step(items.drop_first(), i - 1);
        assert(t.drop_first() =~= items.drop_first().take(i));
        assert(items.take(i).drop_first() =~= items.drop_first().take(i - 1));
        assert(items.drop_first()[i - 1] == items[i]);
        assert(items.take(i)[0] == items[0]);
        match items[0] {
            PlistValue::String(s) => {
                match items[i] {
                    PlistValue::String(x) => {
                        assert(array_strings(t) =~= array_strings(items.take(i)) + seq![x@]);
                    },
                    _ => {
                        assert(array_strings(t) =~= array_strings(items.take(i)));
                    },
                }
            },
            _ => {
                match items[i] {
                    PlistValue::String(x) => {
                        assert(array_strings(t) =~= array_strings(items.take(i)) + seq![x@]);
                    },
                    _ => {
                        assert(array_strings(t) =~= array_strings(items.take(i)));
                    },
                }
            },
        }
    }
}

/// Looks a key up among dictionary entries.
pub fn dict_get<'a>(entries: &'a Vec<PlistEntry>, key: &str) -> (r: Option<&'a PlistValue>)
    ensures
        opt_val(r) == lookup(entries@, key@),
{
    let k = owned(key);
    let mut i: usize = 0;
    assert(entries@.skip(0) =~= entries@);
    while i < entries.len()
        invariant
            0 <= i <= entries@.len(),
            k@ == key@,
            lookup(entries@, key@) == lookup(entries@.skip(i as int), key@),
        decreases entries@.len() - i,
    {
        assert(entries@.skip(i as int)[0] == entries@[i as int]);
        if entries[i].key == k {
            return Some(&entries[i].value);
        }
        assert(entries@.skip(i as int).drop_first() =~= entries@.skip(i + 1));
        i = i + 1;
    }
    None
}

/// The string items of an array, cloned, in order.
pub fn strings_in(items: &Vec<PlistValue>) -> (r: Vec<String>)
    ensures
        views(r@) == array_strings(items@),
{
    let mut out: Vec<String> = Vec::new();
    let mut i: usize = 0;
    while i < items.len()
        invariant
            0 <= i <= items@.len(),
            views(out@) == array_strings(items@.take(i as int)),
        decreases items@.len() - i,
    {
        proof {
            lemma_array_strings_step(items@, i as int);
        }
        match &items[i] {
            PlistValue::String(s) => {
                let ghost pre = out@;
                out.push(s.clone());
                assert(views(out@) =~= views(pre) + seq![s@]);
            },
            _ => {
                assert(array_strings(items@.take(i + 1)) =~= array_strings(items@.take(i as int)));
            },
        }
        i = i + 1;
    }
    assert(items@.take(items@.len() as int) =~= items@);
    out
}

impl PlistValue {
    pub fn as_string(&self) -> (r: Option<&str>)
        ensures
            opt_str(r) == string_of(Some(*self)),
    {
        match self {
            PlistValue::String(s) => Some(s.as_str()),
            _ => None,
        }
    }

    pub fn as_boolean(&self) -> (r: Option<bool>)
        ensures
            r == bool_of(Some(*self)),
    {
        match self {
            PlistValue::Boolean(b) => Some(*b),
            _ => None,
        }
    }

    pub fn as_array(&self) -> (r: Option<&Vec<PlistValue>>)
        ensures
            match r {
                Some(a) => array_of(Some(*self)) == Some(a@),
                None => array_of(Some(*self)) is None,
            },
    {
        match self {
            PlistValue::Array(a) => Some(a),
            _ => None,
        }
    }

    pub fn as_dictionary(&self) -> (r: Option<&Vec<PlistEntry>>)
        ensures
            match r {
                Some(e) => dict_of(Some(*self)) == Some(e@),
                None => dict_of(Some(*self)) is None,
            },
    {
        match self {
            PlistValue::Dictionary(e) => Some(e),
            _ => None,
        }
    }
}

/// A property list whose root is expected to be a dictionary.
pub struct InfoPlist {
    pub root: PlistValue,
}

impl InfoPlist {
    /// The top-level entries (none when the root is not a dictionary).
    pub open spec fn entries(&self) -> Seq<PlistEntry> {
        match self.root {
            PlistValue::Dictionary(e) => e@,
            _ => Seq::empty(),
        }
    }

    /// The value stored under a top-level key.
    pub open spec fn value(&self, key: Seq<char>) -> Option<PlistValue> {
        lookup(self.entries(), key)
    }

    pub open spec fn string_at(&self, key: Seq<char>) -> Option<Seq<char>> {
        string_of(self.value(key))
    }

    pub open spec fn bool_at(&self, key: Seq<char>) -> Option<bool> {
        bool_of(self.value(key))
    }

    pub open spec fn has(&self, key: Seq<char>) -> bool {
        self.value(key) is Some
    }

    /// The strings of the array under `key`, when the value is an array.
    pub open spec fn array_strings_at(&self, key: Seq<char>) -> Option<Seq<Seq<char>>> {
        match array_of(self.value(key)) {
            Some(a) => Some(array_strings(a)),
            None => None,
        }
    }

    /// The icon names declared by the plist, in the order `get_app_icons` returns them.
    pub open spec fn app_icons(&self) -> Seq<Seq<char>> {
        let primary = match dict_of(self.value("CFBundleIcons"@)) {
            Some(icons) => match dict_of(lookup(icons, "CFBundlePrimaryIcon"@)) {
                Some(p) => match array_of(lookup(p, "CFBundleIconFiles"@)) {
                    Some(files) => array_strings(files),
                    None => Seq::empty(),
                },
                None => Seq::empty(),
            },
            None => Seq::empty(),
        };
        if primary.len() > 0 {
            primary
        } else {
            let legacy = match self.array_strings_at("CFBundleIconFiles"@) {
                Some(files) => files,
                None => Seq::empty(),
            };
            if legacy.len() > 0 {
                legacy
            } else {
                match self.string_at("CFBundleIconFile"@) {
                    Some(f) => seq![f],
                    None => Seq::empty(),
                }
            }
        }
    }

    /// Checks that a parsed value has a dictionary root.
    pub fn from_value(value: PlistValue) -> (r: Result<InfoPlist, PlistError>)
        ensures
            match r {
                Ok(p) => p.root == value && dict_of(Some(value)) is Some,
                Err(e) => e == PlistError::NotADictionary && dict_of(Some(value)) is None,
            },
    {
        match value {
            PlistValue::Dictionary(_) => Ok(InfoPlist { root: value }),
            _ => Err(PlistError::NotADictionary),
        }
    }

    pub fn from_dictionary(dict: Vec<PlistEntry>) -> (r: InfoPlist)
        ensures
            r.entries() == dict@,
            r.root == PlistValue::Dictionary(dict),
    {
        InfoPlist { root: PlistValue::Dictionary(dict) }
    }

    pub fn get_value(&self, key: &str) -> (r: Option<&PlistValue>)
        ensures
            opt_val(r) == self.value(key@),
    {
        match &self.root {
            PlistValue::Dictionary(e) => dict_get(e, key),
            _ => None,
        }
    }

    pub fn get_string(&self, key: &str) -> (r: Option<&str>)
        ensures
            opt_str(r) == self.string_at(key@),
    {
        match self.get_value(key) {
            Some(v) => v.as_string(),
            None => None,
        }
    }

    pub fn get_bool(&self, key: &str) -> (r: Option<bool>)
        ensures
            r == self.bool_at(key@),
    {
        match self.get_value(key) {
            Some(v) => v.as_boolean(),
            None => None,
        }
    }

    pub fn has_key(&self, key: &str) -> (r: bool)
        ensures
            r == self.has(key@),
    {
        self.get_value(key).is_some()
    }

    pub fn get_dictionary(&self, key: &str) -> (r: Option<&Vec<PlistEntry>>)
        ensures
            match r {
                Some(e) => dict_of(self.value(key@)) == Some(e@),
                None => dict_of(self.value(key@)) is None,
            },
    {
        match self.get_value(key) {
            Some(v) => v.as_dictionary(),
            None => None,
        }
    }

    pub fn get_array_strings(&self, key: &str) -> (r: Option<Vec<String>>)
        ensures
            match r {
                Some(v) => self.array_strings_at(key@) == Some(views(v@)),
                None => self.array_strings_at(key@) is None,
            },
    {
        match self.get_value(key) {
            Some(v) => match v.as_array() {
                Some(a) => Some(strings_in(a)),
                None => None,
            },
            None => None,
        }
    }

    pub fn get_app_icons(&self) -> (r: Vec<String>)
        ensures
            views(r@) == self.app_icons(),
    {
        let mut icons: Vec<String> = Vec::new();
        if let Some(icons_dict) = self.get_dictionary("CFBundleIcons") {
            if let Some(pv) = dict_get(icons_dict, "CFBundlePrimaryIcon") {
                if let Some(primary) = pv.as_dictionary() {
                    if let Some(fv) = dict_get(primary, "CFBundleIconFiles") {
                        if let Some(files) = fv.as_array() {
                            icons = strings_in(files);
                        }
                    }
                }
            }
        }
        if icons.len() == 0 {
            if let Some(files) = self.get_array_strings("CFBundleIconFiles") {
                icons = files;
            }
        }
        if icons.len() == 0 {
            if let Some(file) = self.get_string("CFBundleIconFile") {
                icons.push(owned(file));
                assert(views(icons@) =~= seq![file@]);
            }
        }
        proof {
            assert(views(Seq::<String>::empty()) =~= Seq::<Seq<char>>::empty());
        }
        icons
    }
}


#[verifier::external_type_specification]
#[verifier::external_body]
pub struct ExPlistValue(plist::Value);

/// The document that the `plist` crate reads from `bytes`: its value, or the
/// error it reports.
pub uninterp spec fn plist_document(bytes: Seq<u8>) -> Result<PlistValue, PlistError>;

/// Reads a property list of any encoding with `plist::Value::from_reader`.
/// Trusted: the result is the document `plist_document` names for these bytes;
/// a failure carries the `plist` error's text.
#[verifier::external_body]
fn parse_plist_value(bytes: &[u8]) -> (r: Result<PlistValue, PlistError>)
    ensures
        r == plist_document(bytes@),
{
    match plist::Value::from_reader(Cursor::new(bytes)) {
        Ok(v) => Ok(plist_value_from(v)),
        Err(e) => Err(PlistError::ParseError(e.to_string())),
    }
}

/// Moves a `plist::Value` into the library's model, variant for variant;
/// the part of `parse_plist_value` that converts its result, kept apart because
/// the conversion recurses into arrays and dictionaries.
#[verifier::external_body]
fn plist_value_from(v: plist::Value) -> PlistValue {
    match v {
        plist::Value::Array(a) => PlistValue::Array(a.into_iter().map(plist_value_from).collect()),
        plist::Value::Dictionary(d) => PlistValue::Dictionary(
            d.into_iter().map(|(key, value)| PlistEntry { key, value: plist_value_from(value) }).collect(),
        ),
        plist::Value::Boolean(b) => PlistValue::Boolean(b),
        plist::Value::String(s) => PlistValue::String(s),
        _ => PlistValue::Other,
    }
}

/// What reading `bytes` as a plist with a dictionary root gives.
pub open spec fn info_plist_of(bytes: Seq<u8>) -> Result<InfoPlist, PlistError> {
    match plist_document(bytes) {
        Err(e) => Err(e),
        Ok(v) => if dict_of(Some(v)) is Some {
            Ok(InfoPlist { root: v })
        } else {
            Err(PlistError::NotADictionary)
        },
    }
}

impl InfoPlist {
    /// Reads a property list whose root must be a dictionary.
    pub fn from_bytes(bytes: &[u8]) -> (r: Result<InfoPlist, PlistError>)
        ensures
            r == info_plist_of(bytes@),
    {
        match parse_plist_value(bytes) {
            Err(e) => Err(e),
            Ok(v) => InfoPlist::from_value(v),
        }
    }
}

} // verus!
