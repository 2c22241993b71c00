//! Embedded provisioning profiles: locating the plist inside the CMS blob and
//! taking its `Entitlements` dictionary.
use vstd::prelude::*;
use crate::bytes::{copy_range, find_subslice, first_bytes_at};
use crate::parsers::plist_reader::{info_plist_of, dict_of, lookup, InfoPlist, PlistEntry, PlistError, PlistValue};
use crate::text::{owned, push_str};

verus! {

pub enum ProvisioningError {
    /// Reading the profile failed; the I/O error's message.
    Io(String),
    Plist(PlistError),
    PlistNotFound,
    MissingEntitlements,
}

impl ProvisioningError {
    pub open spec fn message_spec(&self) -> Seq<char> {
        match self {
            ProvisioningError::Io(m) => "Failed to read provisioning profile: "@ + m@,
            ProvisioningError::Plist(e) => "Failed to parse provisioning profile plist: "@
                + e.message_spec(),
            ProvisioningError::PlistNotFound => "Provisioning profile plist not found in CMS blob"@,
            ProvisioningError::MissingEntitlements => "Provisioning profile missing Entitlements dictionary"@,
        }
    }

    /// The error's display text.
    pub fn message(&self) -> (r: String)
        ensures
            r@ == self.message_spec(),
    {
        match self {
            ProvisioningError::Io(m) => {
                let mut out = owned("Failed to read provisioning profile: ");
                push_str(&mut out, m.as_str());
                out
            },
            ProvisioningError::Plist(e) => {
                let mut out = owned("Failed to parse provisioning profile plist: ");
                let inner = e.message();
                push_str(&mut out, inner.as_str());
                out
            },
            ProvisioningError::PlistNotFound => owned(
                "Provisioning profile plist not found in CMS blob",
            ),
            ProvisioningError::MissingEntitlements => owned(
                "Provisioning profile missing Entitlements dictionary",
            ),
        }
    }
}

impl ProvisioningError {
    /// An equal copy.
    pub fn duplicate(&self) -> (r: Self)
        ensures
            r == *self,
    {
        match self {
            ProvisioningError::Io(m) => ProvisioningError::Io(m.clone()),
            ProvisioningError::Plist(e) => ProvisioningError::Plist(e.duplicate()),
            ProvisioningError::PlistNotFound => ProvisioningError::PlistNotFound,
            ProvisioningError::MissingEntitlements => ProvisioningError::MissingEntitlements,
        }
    }
}

/// The entitlements granted by a provisioning profile.
pub struct ProvisioningProfile {
    pub entitlements: InfoPlist,
}

/// The ASCII bytes of `<?xml`.
pub open spec fn xml_open() -> Seq<u8> {
    seq![60u8, 63u8, 120u8, 109u8, 108u8]
}

/// The ASCII bytes of `<plist`.
pub open spec fn plist_open() -> Seq<u8> {
    seq![60u8, 112u8, 108u8, 105u8, 115u8, 116u8]
}

/// The ASCII bytes of `</plist>`.
pub open spec fn plist_close() -> Seq<u8> {
    seq![60u8, 47u8, 112u8, 108u8, 105u8, 115u8, 116u8, 62u8]
}

/// Where the embedded plist starts: at `<?xml`, else at `<plist`.
pub open spec fn plist_start(data: Seq<u8>) -> Option<int> {
    match first_bytes_at(data, xml_open()) {
        Some(s) => Some(s),
        None => first_bytes_at(data, plist_open()),
    }
}

/// Where the embedded plist ends: just after the first `</plist>`.
pub open spec fn plist_end(data: Seq<u8>) -> Option<int> {
    match first_bytes_at(data, plist_close()) {
        Some(e) => Some(e + 8),
        None => None,
    }
}

fn find_plist_start(data: &[u8]) -> (r: Option<usize>)
    ensures
        match r {
            Some(i) => plist_start(data@) == Some(i as int),
            None => plist_start(data@) is None,
        },
{
    let xml: Vec<u8> = vec![60u8, 63u8, 120u8, 109u8, 108u8];
    let plist: Vec<u8> = vec![60u8, 112u8, 108u8, 105u8, 115u8, 116u8];
    assert(xml@ =~= xml_open());
    assert(plist@ =~= plist_open());
    match find_subslice(data, xml.as_slice()) {
        Some(s) => Some(s),
        None => find_subslice(data, plist.as_slice()),
    }
}

fn find_plist_end(data: &[u8]) -> (r: Option<usize>)
    ensures
        match r {
            Some(i) => plist_end(data@) == Some(i as int) && i <= data@.len(),
            None => plist_end(data@) is None,
        },
{
    let n = data.len();
    let close: Vec<u8> = vec![60u8, 47u8, 112u8, 108u8, 105u8, 115u8, 116u8, 62u8];
    assert(close@ =~= plist_close());
    match find_subslice(data, close.as_slice()) {
        Some(e) => {
            assert(e + 8 <= n);
            Some(e + 8)
        },
        None => None,
    }
}

/// Cuts the XML plist out of a CMS-signed provisioning profile.
pub fn extract_plist_bytes(data: &[u8]) -> (r: Result<Vec<u8>, ProvisioningError>)
    ensures
        match (plist_start(data@), plist_end(data@)) {
            (Some(s), Some(e)) => if e > s {
                (r matches Ok(v) && v@ == data@.subrange(s, e))
            } else {
                (r matches Err(ProvisioningError::PlistNotFound))
            },
            _ => (r matches Err(ProvisioningError::PlistNotFound)),
        },
{
    let start = find_plist_start(data);
    let end = find_plist_end(data);
    match (start, end) {
        (Some(s), Some(e)) => {
            if e > s {
                Ok(copy_range(data, s, e))
            } else {
                Err(ProvisioningError::PlistNotFound)
            }
        },
        _ => Err(ProvisioningError::PlistNotFound),
    }
}

/// Index of the first entry with the given key.
pub fn entry_index(entries: &Vec<PlistEntry>, key: &str) -> (r: Option<usize>)
    ensures
        match r {
            Some(i) => i < entries@.len() && lookup(entries@, key@) == Some(entries@[i as int].value),
            None => lookup(entries@, key@) is None,
        },
{
    let k = owned(key);
    let mut i: usize = 0;
    assert(entries@.skip(0) =~= entries@);
    while i < entries.len()
        invariant
            0 <= i <= entries@.len(),
            k@ == key@,
            lookup(entries@, key@) == lookup(entries@.skip(i as int), key@),
        decreases entries@.len() - i,
    {
        assert(entries@.skip(i as int)[0] == entries@[i as int]);
        if entries[i].key == k {
            return Some(i);
        }
        assert(entries@.skip(i as int).drop_first() =~= entries@.skip(i + 1));
        i = i + 1;
    }
    None
}

impl ProvisioningProfile {
    /// Takes the `Entitlements` dictionary of a parsed profile plist.
    pub fn from_profile_plist(profile: InfoPlist) -> (r: Result<ProvisioningProfile, ProvisioningError>)
        ensures
            match dict_of(profile.value("Entitlements"@)) {
                Some(e) => (r matches Ok(p) && p.entitlements.entries() == e),
                None => r matches Err(ProvisioningError::MissingEntitlements),
            },
    {
        let ghost pv = profile.value("Entitlements"@);
        match profile.root {
            PlistValue::Dictionary(mut entries) => {
                match entry_index(&entries, "Entitlements") {
                    Some(i) => {
                        let entry = entries.remove(i);
                        match entry.value {
                            PlistValue::Dictionary(d) => Ok(
                                ProvisioningProfile { entitlements: InfoPlist::from_dictionary(d) },
                            ),
                            _ => Err(ProvisioningError::MissingEntitlements),
                        }
                    },
                    None => Err(ProvisioningError::MissingEntitlements),
                }
            },
            _ => Err(ProvisioningError::MissingEntitlements),
        }
    }
}


/// The XML plist a profile's bytes embed, when it has one.
pub open spec fn embedded_plist_bytes(data: Seq<u8>) -> Option<Seq<u8>> {
    match (plist_start(data), plist_end(data)) {
        (Some(s), Some(e)) => if e > s {
            Some(data.subrange(s, e))
        } else {
            None
        },
        _ => None,
    }
}

impl ProvisioningProfile {
    /// Reads the entitlements of an `embedded.mobileprovision` from its
    /// bytes: the embedded plist is cut out, parsed, and its `Entitlements`
    /// dictionary taken.
    pub fn from_embedded_bytes(data: &[u8]) -> (r: Result<ProvisioningProfile, ProvisioningError>)
        ensures
            match embedded_plist_bytes(data@) {
                None => r matches Err(ProvisioningError::PlistNotFound),
                Some(xml) => match info_plist_of(xml) {
                    Err(e) => r == Err::<ProvisioningProfile, ProvisioningError>(ProvisioningError::Plist(e)),
                    Ok(p) => match dict_of(p.value("Entitlements"@)) {
                        Some(ent) => (r matches Ok(pp) && pp.entitlements.entries() == ent),
                        None => r matches Err(ProvisioningError::MissingEntitlements),
                    },
                },
            },
    {
        let xml = match extract_plist_bytes(data) {
            Ok(x) => x,
            Err(e) => return Err(e),
        };
        match InfoPlist::from_bytes(xml.as_slice()) {
            Err(e) => Err(ProvisioningError::Plist(e)),
            Ok(p) => ProvisioningProfile::from_profile_plist(p),
        }
    }
}

} // verus!
