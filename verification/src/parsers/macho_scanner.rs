//! Heuristic scans of executable bytes for API, SDK and capability signatures.
use vstd::prelude::*;
use crate::bytes::{contains_subslice, has_bytes};
use crate::sorting::{sort_by_key, sorted_by_key, SortKey};
use crate::text::{char_rank, owned, push_str, str_eq, views};
use vstd::utf8::encode_utf8;

verus! {

/// Errors from resolving or reading the executable to scan.
pub enum UsageScanError {
    /// Reading failed; the I/O error's message.
    Io(String),
    MissingExecutable,
}

impl UsageScanError {
    pub open spec fn message_spec(&self) -> Seq<char> {
        match self {
            UsageScanError::Io(m) => "Failed to read executable: "@ + m@,
            UsageScanError::MissingExecutable => "Unable to resolve app executable"@,
        }
    }

    /// The error's display text.
    pub fn message(&self) -> (r: String)
        ensures
            r@ == self.message_spec(),
    {
        match self {
            UsageScanError::Io(m) => {
                let mut out = owned("Failed to read executable: ");
                push_str(&mut out, m.as_str());
                out
            },
            UsageScanError::MissingExecutable => owned("Unable to resolve app executable"),
        }
    }

    /// An equal copy.
    pub fn duplicate(&self) -> (r: Self)
        ensures
            r == *self,
    {
        match self {
            UsageScanError::Io(m) => UsageScanError::Io(m.clone()),
            UsageScanError::MissingExecutable => UsageScanError::MissingExecutable,
        }
    }
}

/// What a usage signature requires of the Info.plist or privacy manifest.
pub enum Requirement {
    Key(&'static str),
    PrivacyCategory(&'static str),
    AnyLocation,
}

/// Number of usage signatures.
pub const USAGE_SIGNATURE_COUNT: usize = 23;

/// The usage signatures: a symbol name and what its presence requires.
pub open spec fn usage_signature(i: int) -> (Seq<char>, Requirement) {
    if i == 0 {
        ("AVCaptureDevice"@, Requirement::Key("NSCameraUsageDescription"))
    } else if i == 1 {
        ("AVAudioSession"@, Requirement::Key("NSMicrophoneUsageDescription"))
    } else if i == 2 {
        ("AVAudioRecorder"@, Requirement::Key("NSMicrophoneUsageDescription"))
    } else if i == 3 {
        ("PHPhotoLibrary"@, Requirement::Key("NSPhotoLibraryUsageDescription"))
    } else if i == 4 {
        ("PHPhotoLibraryAddOnly"@, Requirement::Key("NSPhotoLibraryAddUsageDescription"))
    } else if i == 5 {
        ("CLLocationManager"@, Requirement::AnyLocation)
    } else if i == 6 {
        ("CBCentralManager"@, Requirement::Key("NSBluetoothAlwaysUsageDescription"))
    } else if i == 7 {
        ("CBPeripheralManager"@, Requirement::Key("NSBluetoothAlwaysUsageDescription"))
    } else if i == 8 {
        ("CBPeripheral"@, Requirement::Key("NSBluetoothPeripheralUsageDescription"))
    } else if i == 9 {
        ("LAContext"@, Requirement::Key("NSFaceIDUsageDescription"))
    } else if i == 10 {
        ("EKEventStore"@, Requirement::Key("NSCalendarsUsageDescription"))
    } else if i == 11 {
        ("EKReminder"@, Requirement::Key("NSRemindersUsageDescription"))
    } else if i == 12 {
        ("CNContactStore"@, Requirement::Key("NSContactsUsageDescription"))
    } else if i == 13 {
        ("SFSpeechRecognizer"@, Requirement::Key("NSSpeechRecognitionUsageDescription"))
    } else if i == 14 {
        ("CMMotionManager"@, Requirement::Key("NSMotionUsageDescription"))
    } else if i == 15 {
        ("CMPedometer"@, Requirement::Key("NSMotionUsageDescription"))
    } else if i == 16 {
        ("MPMediaLibrary"@, Requirement::Key("NSAppleMusicUsageDescription"))
    } else if i == 17 {
        ("HKHealthStore"@, Requirement::Key("NSHealthShareUsageDescription"))
    } else if i == 18 {
        ("systemBootTime"@, Requirement::PrivacyCategory("NSPrivacyAccessedAPICategorySystemBootTime"))
    } else if i == 19 {
        ("diskSpace"@, Requirement::PrivacyCategory("NSPrivacyAccessedAPICategoryDiskSpace"))
    } else if i == 20 {
        ("activeInputModes"@, Requirement::PrivacyCategory(
            "NSPrivacyAccessedAPICategoryActiveInputModes",
        ))
    } else if i == 21 {
        ("userDefaults"@, Requirement::PrivacyCategory("NSPrivacyAccessedAPICategoryUserDefaults"))
    } else {
        ("fileModificationDate"@, Requirement::PrivacyCategory(
            "NSPrivacyAccessedAPICategoryFileModificationDate",
        ))
    }
}

fn usage_signature_at(i: usize) -> (r: (&'static str, Requirement))
    requires
        i < USAGE_SIGNATURE_COUNT,
    ensures
        r.0@ == usage_signature(i as int).0,
        r.1 == usage_signature(i as int).1,
{
    if i == 0 {
        ("AVCaptureDevice", Requirement::Key("NSCameraUsageDescription"))
    } else if i == 1 {
        ("AVAudioSession", Requirement::Key("NSMicrophoneUsageDescription"))
    } else if i == 2 {
        ("AVAudioRecorder", Requirement::Key("NSMicrophoneUsageDescription"))
    } else if i == 3 {
        ("PHPhotoLibrary", Requirement::Key("NSPhotoLibraryUsageDescription"))
    } else if i == 4 {
        ("PHPhotoLibraryAddOnly", Requirement::Key("NSPhotoLibraryAddUsageDescription"))
    } else if i == 5 {
        ("CLLocationManager", Requirement::AnyLocation)
    } else if i == 6 {
        ("CBCentralManager", Requirement::Key("NSBluetoothAlwaysUsageDescription"))
    } else if i == 7 {
        ("CBPeripheralManager", Requirement::Key("NSBluetoothAlwaysUsageDescription"))
    } else if i == 8 {
        ("CBPeripheral", Requirement::Key("NSBluetoothPeripheralUsageDescription"))
    } else if i == 9 {
        ("LAContext", Requirement::Key("NSFaceIDUsageDescription"))
    } else if i == 10 {
        ("EKEventStore", Requirement::Key("NSCalendarsUsageDescription"))
    } else if i == 11 {
        ("EKReminder", Requirement::Key("NSRemindersUsageDescription"))
    } else if i == 12 {
        ("CNContactStore", Requirement::Key("NSContactsUsageDescription"))
    } else if i == 13 {
        ("SFSpeechRecognizer", Requirement::Key("NSSpeechRecognitionUsageDescription"))
    } else if i == 14 {
        ("CMMotionManager", Requirement::Key("NSMotionUsageDescription"))
    } else if i == 15 {
        ("CMPedometer", Requirement::Key("NSMotionUsageDescription"))
    } else if i == 16 {
        ("MPMediaLibrary", Requirement::Key("NSAppleMusicUsageDescription"))
    } else if i == 17 {
        ("HKHealthStore", Requirement::Key("NSHealthShareUsageDescription"))
    } else if i == 18 {
        ("systemBootTime", Requirement::PrivacyCategory("NSPrivacyAccessedAPICategorySystemBootTime"))
    } else if i == 19 {
        ("diskSpace", Requirement::PrivacyCategory("NSPrivacyAccessedAPICategoryDiskSpace"))
    } else if i == 20 {
        ("activeInputModes", Requirement::PrivacyCategory(
            "NSPrivacyAccessedAPICategoryActiveInputModes",
        ))
    } else if i == 21 {
        ("userDefaults", Requirement::PrivacyCategory("NSPrivacyAccessedAPICategoryUserDefaults"))
    } else {
        ("fileModificationDate", Requirement::PrivacyCategory(
            "NSPrivacyAccessedAPICategoryFileModificationDate",
        ))
    }
}

pub const PRIVATE_API_SIGNATURE_COUNT: usize = 9;

pub open spec fn private_api_signature(i: int) -> Seq<char> {
    if i == 0 {
        "LSApplicationWorkspace"@
    } else if i == 1 {
        "LSApplicationProxy"@
    } else if i == 2 {
        "LSAppWorkspace"@
    } else if i == 3 {
        "SBApplication"@
    } else if i == 4 {
        "SpringBoard"@
    } else if i == 5 {
        "MobileGestalt"@
    } else if i == 6 {
        "UICallApplication"@
    } else if i == 7 {
        "UIGetScreenImage"@
    } else {
        "_MGCopyAnswer"@
    }
}

fn private_api_signature_at(i: usize) -> (r: &'static str)
    ensures
        r@ == private_api_signature(i as int),
{
    if i == 0 {
        "LSApplicationWorkspace"
    } else if i == 1 {
        "LSApplicationProxy"
    } else if i == 2 {
        "LSAppWorkspace"
    } else if i == 3 {
        "SBApplication"
    } else if i == 4 {
        "SpringBoard"
    } else if i == 5 {
        "MobileGestalt"
    } else if i == 6 {
        "UICallApplication"
    } else if i == 7 {
        "UIGetScreenImage"
    } else {
        "_MGCopyAnswer"
    }
}

pub const SDK_SIGNATURE_COUNT: usize = 11;

pub open spec fn sdk_signature(i: int) -> Seq<char> {
    if i == 0 {
        "FirebaseApp"@
    } else if i == 1 {
        "FIRApp"@
    } else if i == 2 {
        "GADMobileAds"@
    } else if i == 3 {
        "FBSDKCoreKit"@
    } else if i == 4 {
        "FBSDKLoginKit"@
    } else if i == 5 {
        "Amplitude"@
    } else if i == 6 {
        "Mixpanel"@
    } else if i == 7 {
        "Segment"@
    } else if i == 8 {
        "SentrySDK"@
    } else if i == 9 {
        "AppsFlyerLib"@
    } else {
        "Adjust"@
    }
}

fn sdk_signature_at(i: usize) -> (r: &'static str)
    ensures
        r@ == sdk_signature(i as int),
{
    if i == 0 {
        "FirebaseApp"
    } else if i == 1 {
        "FIRApp"
    } else if i == 2 {
        "GADMobileAds"
    } else if i == 3 {
        "FBSDKCoreKit"
    } else if i == 4 {
        "FBSDKLoginKit"
    } else if i == 5 {
        "Amplitude"
    } else if i == 6 {
        "Mixpanel"
    } else if i == 7 {
        "Segment"
    } else if i == 8 {
        "SentrySDK"
    } else if i == 9 {
        "AppsFlyerLib"
    } else {
        "Adjust"
    }
}

pub const CAPABILITY_SIGNATURE_COUNT: usize = 2;

/// Capability signatures: a symbol name and the capability group it shows.
pub open spec fn capability_signature(i: int) -> (Seq<char>, Seq<char>) {
    if i == 0 {
        ("AVCaptureDevice"@, "camera"@)
    } else {
        ("CLLocationManager"@, "location"@)
    }
}

fn capability_signature_at(i: usize) -> (r: (&'static str, &'static str))
    ensures
        r.0@ == capability_signature(i as int).0,
        r.1@ == capability_signature(i as int).1,
{
    if i == 0 {
        ("AVCaptureDevice", "camera")
    } else {
        ("CLLocationManager", "location")
    }
}

pub const INSTRUMENTATION_SIGNATURE_COUNT: usize = 4;

pub open spec fn instrumentation_signature(i: int) -> Seq<char> {
    if i == 0 {
        "__llvm_profile_runtime"@
    } else if i == 1 {
        "__llvm_prf_data"@
    } else if i == 2 {
        "__llvm_prf_names"@
    } else {
        "__llvm_prf_vnds"@
    }
}

fn instrumentation_signature_at(i: usize) -> (r: &'static str)
    ensures
        r@ == instrumentation_signature(i as int),
{
    if i == 0 {
        "__llvm_profile_runtime"
    } else if i == 1 {
        "__llvm_prf_data"
    } else if i == 2 {
        "__llvm_prf_names"
    } else {
        "__llvm_prf_vnds"
    }
}

/// The executable bytes contain the name's UTF-8 encoding.
pub open spec fn found(bytes: Seq<u8>, name: Seq<char>) -> bool {
    has_bytes(bytes, encode_utf8(name))
}

fn found_in(bytes: &[u8], name: &str) -> (r: bool)
    ensures
        r == found(bytes@, name@),
{
    contains_subslice(bytes, name.as_bytes())
}

/// `s` with `x` appended unless already present.
pub open spec fn add_unique(s: Seq<Seq<char>>, x: Seq<char>) -> Seq<Seq<char>> {
    if s.contains(x) {
        s
    } else {
        s.push(x)
    }
}

/// The views of a sequence of string slices.
pub open spec fn str_views(v: Seq<&'static str>) -> Seq<Seq<char>> {
    v.map_values(|s: &'static str| s@)
}

/// Usage requirements found in an executable.
pub struct UsageScan {
    /// `NS*UsageDescription` keys required, in first-detection order, distinct.
    pub required_keys: Vec<&'static str>,
    /// Required-reason API categories, in first-detection order, distinct.
    pub privacy_categories: Vec<&'static str>,
    pub requires_location_key: bool,
    /// Signature names found, in table order.
    pub evidence: Vec<&'static str>,
}

/// The abstract content of a usage scan.
pub struct UsageScanView {
    pub required_keys: Seq<Seq<char>>,
    pub privacy_categories: Seq<Seq<char>>,
    pub requires_location_key: bool,
    pub evidence: Seq<Seq<char>>,
}

impl UsageScan {
    pub open spec fn view(&self) -> UsageScanView {
        UsageScanView {
            required_keys: str_views(self.required_keys@),
            privacy_categories: str_views(self.privacy_categories@),
            requires_location_key: self.requires_location_key,
            evidence: str_views(self.evidence@),
        }
    }
}

/// The usage scan of `bytes` over the first `n` signatures.
pub open spec fn usage_scan_upto(bytes: Seq<u8>, n: nat) -> UsageScanView
    decreases n,
{
    if n == 0 {
        UsageScanView {
            required_keys: Seq::empty(),
            privacy_categories: Seq::empty(),
            requires_location_key: false,
            evidence: Seq::empty(),
        }
    } else {
        let prev = usage_scan_upto(bytes, (n - 1) as nat);
        let (name, req) = usage_signature(n - 1);
        if found(bytes, name) {
            match req {
                Requirement::Key(k) => UsageScanView {
                    required_keys: add_unique(prev.required_keys, k@),
                    evidence: prev.evidence.push(name),
                    ..prev
                },
                Requirement::PrivacyCategory(c) => UsageScanView {
                    privacy_categories: add_unique(prev.privacy_categories, c@),
                    evidence: prev.evidence.push(name),
                    ..prev
                },
                Requirement::AnyLocation => UsageScanView {
                    requires_location_key: true,
                    evidence: prev.evidence.push(name),
                    ..prev
                },
            }
        } else {
            prev
        }
    }
}

/// The usage scan of an executable's bytes.
pub open spec fn usage_scan_of(bytes: Seq<u8>) -> UsageScanView {
    usage_scan_upto(bytes, USAGE_SIGNATURE_COUNT as nat)
}

/// A signature found among the first `n` is in the evidence, and what it
/// requires is required.
proof fn lemma_usage_found(b: Seq<u8>, n: nat, i: int)
    requires
        0 <= i < n,
        found(b, usage_signature(i).0),
    ensures
        usage_scan_upto(b, n).evidence.contains(usage_signature(i).0),
        match usage_signature(i).1 {
            Requirement::Key(k) => usage_scan_upto(b, n).required_keys.contains(k@),
            Requirement::PrivacyCategory(c) => usage_scan_upto(b, n).privacy_categories.contains(c@),
            Requirement::AnyLocation => usage_scan_upto(b, n).requires_location_key,
        },
    decreases n,
{
    let prev = usage_scan_upto(b, (n - 1) as nat);
    let cur = usage_scan_upto(b, n);
    let (name, req) = usage_signature(n - 1);
    if i < n - 1 {
        lemma_usage_found(b, (n - 1) as nat, i);
        if found(b, name) {
            let e = choose|j: int| 0 <= j < prev.evidence.len() && prev.evidence[j] == usage_signature(i).0;
            assert(prev.evidence.push(name)[e] == usage_signature(i).0);
            match usage_signature(i).1 {
                Requirement::Key(k) => {
                    let q = choose|j: int| 0 <= j < prev.required_keys.len() && prev.required_keys[j] == k@;
                    match req {
                        Requirement::Key(k2) => {
                            if !prev.required_keys.contains(k2@) {
                                assert(prev.required_keys.push(k2@)[q] == k@);
                            }
                        },
                        _ => {},
                    }
                },
                Requirement::PrivacyCategory(c) => {
                    let q = choose|j: int| 0 <= j < prev.privacy_categories.len() && prev.privacy_categories[j] == c@;
                    match req {
                        Requirement::PrivacyCategory(c2) => {
                            if !prev.privacy_categories.contains(c2@) {
                                assert(prev.privacy_categories.push(c2@)[q] == c@);
                            }
                        },
                        _ => {},
                    }
                },
                Requirement::AnyLocation => {},
            }
        }
    } else {
        assert(prev.evidence.push(name)[prev.evidence.len() as int] == name);
        match req {
            Requirement::Key(k) => {
                if !prev.required_keys.contains(k@) {
                    assert(prev.required_keys.push(k@)[prev.required_keys.len() as int] == k@);
                }
            },
            Requirement::PrivacyCategory(c) => {
                if !prev.privacy_categories.contains(c@) {
                    assert(prev.privacy_categories.push(c@)[prev.privacy_categories.len() as int] == c@);
                }
            },
            Requirement::AnyLocation => {},
        }
    }
}

/// What each usage signature found in an executable requires: the capture
/// device the camera description, an audio session or recorder the
/// microphone description, and so on through the table; and each signature
/// found is in the evidence.
pub proof fn lemma_usage_table(b: Seq<u8>)
    ensures
        found(b, "AVCaptureDevice"@) ==> usage_scan_of(b).required_keys.contains("NSCameraUsageDescription"@) && usage_scan_of(b).evidence.contains("AVCaptureDevice"@),
        found(b, "AVAudioSession"@) ==> usage_scan_of(b).required_keys.contains("NSMicrophoneUsageDescription"@) && usage_scan_of(b).evidence.contains("AVAudioSession"@),
        found(b, "AVAudioRecorder"@) ==> usage_scan_of(b).required_keys.contains("NSMicrophoneUsageDescription"@) && usage_scan_of(b).evidence.contains("AVAudioRecorder"@),
        found(b, "PHPhotoLibrary"@) ==> usage_scan_of(b).required_keys.contains("NSPhotoLibraryUsageDescription"@) && usage_scan_of(b).evidence.contains("PHPhotoLibrary"@),
        found(b, "PHPhotoLibraryAddOnly"@) ==> usage_scan_of(b).required_keys.contains("NSPhotoLibraryAddUsageDescription"@) && usage_scan_of(b).evidence.contains("PHPhotoLibraryAddOnly"@),
        found(b, "CLLocationManager"@) ==> usage_scan_of(b).requires_location_key && usage_scan_of(b).evidence.contains("CLLocationManager"@),
        found(b, "CBCentralManager"@) ==> usage_scan_of(b).required_keys.contains("NSBluetoothAlwaysUsageDescription"@) && usage_scan_of(b).evidence.contains("CBCentralManager"@),
        found(b, "CBPeripheralManager"@) ==> usage_scan_of(b).required_keys.contains("NSBluetoothAlwaysUsageDescription"@) && usage_scan_of(b).evidence.contains("CBPeripheralManager"@),
        found(b, "CBPeripheral"@) ==> usage_scan_of(b).required_keys.contains("NSBluetoothPeripheralUsageDescription"@) && usage_scan_of(b).evidence.contains("CBPeripheral"@),
        found(b, "LAContext"@) ==> usage_scan_of(b).required_keys.contains("NSFaceIDUsageDescription"@) && usage_scan_of(b).evidence.contains("LAContext"@),
        found(b, "EKEventStore"@) ==> usage_scan_of(b).required_keys.contains("NSCalendarsUsageDescription"@) && usage_scan_of(b).evidence.contains("EKEventStore"@),
        found(b, "EKReminder"@) ==> usage_scan_of(b).required_keys.contains("NSRemindersUsageDescription"@) && usage_scan_of(b).evidence.contains("EKReminder"@),
        found(b, "CNContactStore"@) ==> usage_scan_of(b).required_keys.contains("NSContactsUsageDescription"@) && usage_scan_of(b).evidence.contains("CNContactStore"@),
        found(b, "SFSpeechRecognizer"@) ==> usage_scan_of(b).required_keys.contains("NSSpeechRecognitionUsageDescription"@) && usage_scan_of(b).evidence.contains("SFSpeechRecognizer"@),
        found(b, "CMMotionManager"@) ==> usage_scan_of(b).required_keys.contains("NSMotionUsageDescription"@) && usage_scan_of(b).evidence.contains("CMMotionManager"@),
        found(b, "CMPedometer"@) ==> usage_scan_of(b).required_keys.contains("NSMotionUsageDescription"@) && usage_scan_of(b).evidence.contains("CMPedometer"@),
        found(b, "MPMediaLibrary"@) ==> usage_scan_of(b).required_keys.contains("NSAppleMusicUsageDescription"@) && usage_scan_of(b).evidence.contains("MPMediaLibrary"@),
        found(b, "HKHealthStore"@) ==> usage_scan_of(b).required_keys.contains("NSHealthShareUsageDescription"@) && usage_scan_of(b).evidence.contains("HKHealthStore"@),
        found(b, "systemBootTime"@) ==> usage_scan_of(b).privacy_categories.contains("NSPrivacyAccessedAPICategorySystemBootTime"@) && usage_scan_of(b).evidence.contains("systemBootTime"@),
        found(b, "diskSpace"@) ==> usage_scan_of(b).privacy_categories.contains("NSPrivacyAccessedAPICategoryDiskSpace"@) && usage_scan_of(b).evidence.contains("diskSpace"@),
        found(b, "activeInputModes"@) ==> usage_scan_of(b).privacy_categories.contains("NSPrivacyAccessedAPICategoryActiveInputModes"@) && usage_scan_of(b).evidence.contains("activeInputModes"@),
        found(b, "userDefaults"@) ==> usage_scan_of(b).privacy_categories.contains("NSPrivacyAccessedAPICategoryUserDefaults"@) && usage_scan_of(b).evidence.contains("userDefaults"@),
        found(b, "fileModificationDate"@) ==> usage_scan_of(b).privacy_categories.contains("NSPrivacyAccessedAPICategoryFileModificationDate"@) && usage_scan_of(b).evidence.contains("fileModificationDate"@),
{
    if found(b, "AVCaptureDevice"@) {
        lemma_usage_found(b, USAGE_SIGNATURE_COUNT as nat, 0);
    }
    if found(b, "AVAudioSession"@) {
        lemma_usage_found(b, USAGE_SIGNATURE_COUNT as nat, 1);
    }
    if found(b, "AVAudioRecorder"@) {
        lemma_usage_found(b, USAGE_SIGNATURE_COUNT as nat, 2);
    }
    if found(b, "PHPhotoLibrary"@) {
        lemma_usage_found(b, USAGE_SIGNATURE_COUNT as nat, 3);
    }
    if found(b, "PHPhotoLibraryAddOnly"@) {
        lemma_usage_found(b, USAGE_SIGNATURE_COUNT as nat, 4);
    }
    if found(b, "CLLocationManager"@) {
        lemma_usage_found(b, USAGE_SIGNATURE_COUNT as nat, 5);
    }
    if found(b, "CBCentralManager"@) {
        lemma_usage_found(b, USAGE_SIGNATURE_COUNT as nat, 6);
    }
    if found(b, "CBPeripheralManager"@) {
        lemma_usage_found(b, USAGE_SIGNATURE_COUNT as nat, 7);
    }
    if found(b, "CBPeripheral"@) {
        lemma_usage_found(b, USAGE_SIGNATURE_COUNT as nat, 8);
    }
    if found(b, "LAContext"@) {
        lemma_usage_found(b, USAGE_SIGNATURE_COUNT as nat, 9);
    }
    if found(b, "EKEventStore"@) {
        lemma_usage_found(b, USAGE_SIGNATURE_COUNT as nat, 10);
    }
    if found(b, "EKReminder"@) {
        lemma_usage_found(b, USAGE_SIGNATURE_COUNT as nat, 11);
    }
    if found(b, "CNContactStore"@) {
        lemma_usage_found(b, USAGE_SIGNATURE_COUNT as nat, 12);
    }
    if found(b, "SFSpeechRecognizer"@) {
        lemma_usage_found(b, USAGE_SIGNATURE_COUNT as nat, 13);
    }
    if found(b, "CMMotionManager"@) {
        lemma_usage_found(b, USAGE_SIGNATURE_COUNT as nat, 14);
    }
    if found(b, "CMPedometer"@) {
        lemma_usage_found(b, USAGE_SIGNATURE_COUNT as nat, 15);
    }
    if found(b, "MPMediaLibrary"@) {
        lemma_usage_found(b, USAGE_SIGNATURE_COUNT as nat, 16);
    }
    if found(b, "HKHealthStore"@) {
        lemma_usage_found(b, USAGE_SIGNATURE_COUNT as nat, 17);
    }
    if found(b, "systemBootTime"@) {
        lemma_usage_found(b, USAGE_SIGNATURE_COUNT as nat, 18);
    }
    if found(b, "diskSpace"@) {
        lemma_usage_found(b, USAGE_SIGNATURE_COUNT as nat, 19);
    }
    if found(b, "activeInputModes"@) {
        lemma_usage_found(b, USAGE_SIGNATURE_COUNT as nat, 20);
    }
    if found(b, "userDefaults"@) {
        lemma_usage_found(b, USAGE_SIGNATURE_COUNT as nat, 21);
    }
    if found(b, "fileModificationDate"@) {
        lemma_usage_found(b, USAGE_SIGNATURE_COUNT as nat, 22);
    }
}

/// Nothing found among the first `n` signatures: nothing is reported.
proof fn lemma_usage_none(b: Seq<u8>, n: nat)
    requires
        n <= USAGE_SIGNATURE_COUNT,
        forall|j: int| 0 <= j < n ==> !found(b, #[trigger] usage_signature(j).0),
    ensures
        usage_scan_upto(b, n) == (UsageScanView {
            required_keys: Seq::empty(),
            privacy_categories: Seq::empty(),
            requires_location_key: false,
            evidence: Seq::empty(),
        }),
    decreases n,
{
    if n > 0 {
        lemma_usage_none(b, (n - 1) as nat);
        assert(!found(b, usage_signature(n - 1).0));
    }
}

/// An executable in which the audio session signature is the only usage
/// signature found needs exactly the microphone usage description, and its
/// evidence is that signature alone.
pub proof fn lemma_audio_session_alone(b: Seq<u8>)
    requires
        found(b, "AVAudioSession"@),
        !found(b, "AVCaptureDevice"@),
        !found(b, "AVAudioRecorder"@),
        !found(b, "PHPhotoLibrary"@),
        !found(b, "PHPhotoLibraryAddOnly"@),
        !found(b, "CLLocationManager"@),
        !found(b, "CBCentralManager"@),
        !found(b, "CBPeripheralManager"@),
        !found(b, "CBPeripheral"@),
        !found(b, "LAContext"@),
        !found(b, "EKEventStore"@),
        !found(b, "EKReminder"@),
        !found(b, "CNContactStore"@),
        !found(b, "SFSpeechRecognizer"@),
        !found(b, "CMMotionManager"@),
        !found(b, "CMPedometer"@),
        !found(b, "MPMediaLibrary"@),
        !found(b, "HKHealthStore"@),
        !found(b, "systemBootTime"@),
        !found(b, "diskSpace"@),
        !found(b, "activeInputModes"@),
        !found(b, "userDefaults"@),
        !found(b, "fileModificationDate"@),
    ensures
        usage_scan_of(b).required_keys == seq!["NSMicrophoneUsageDescription"@],
        usage_scan_of(b).evidence == seq!["AVAudioSession"@],
        usage_scan_of(b).privacy_categories == Seq::<Seq<char>>::empty(),
        !usage_scan_of(b).requires_location_key,
{
    assert(!found(b, usage_signature(0).0));
    lemma_usage_none(b, 1);
    let v1 = usage_scan_upto(b, 1);
    let v2 = usage_scan_upto(b, 2);
    assert(add_unique(Seq::<Seq<char>>::empty(), "NSMicrophoneUsageDescription"@) =~= seq!["NSMicrophoneUsageDescription"@]);
    assert(v2.required_keys == seq!["NSMicrophoneUsageDescription"@]);
    assert(v2.evidence =~= seq!["AVAudioSession"@]);
    assert forall|j: int| 2 <= j < USAGE_SIGNATURE_COUNT implies !found(b, #[trigger] usage_signature(j).0) by {
        if j == 2 {} else if j == 3 {} else if j == 4 {} else if j == 5 {} else if j == 6 {}
        else if j == 7 {} else if j == 8 {} else if j == 9 {} else if j == 10 {} else if j == 11 {}
        else if j == 12 {} else if j == 13 {} else if j == 14 {} else if j == 15 {} else if j == 16 {}
        else if j == 17 {} else if j == 18 {} else if j == 19 {} else if j == 20 {} else if j == 21 {}
        else {}
    }
    lemma_usage_stays(b, USAGE_SIGNATURE_COUNT as nat);
}

/// Past the second signature, signatures that are not found change nothing.
proof fn lemma_usage_stays(b: Seq<u8>, n: nat)
    requires
        2 <= n <= USAGE_SIGNATURE_COUNT,
        forall|j: int| 2 <= j < n ==> !found(b, #[trigger] usage_signature(j).0),
    ensures
        usage_scan_upto(b, n) == usage_scan_upto(b, 2),
    decreases n,
{
    if n > 2 {
        lemma_usage_stays(b, (n - 1) as nat);
        assert(!found(b, usage_signature(n - 1).0));
    }
}

/// Whether a list of static strings holds `x`.
fn holds(v: &Vec<&'static str>, x: &'static str) -> (r: bool)
    ensures
        r == str_views(v@).contains(x@),
{
    let mut i: usize = 0;
    while i < v.len()
        invariant
            0 <= i <= v@.len(),
            forall|k: int| 0 <= k < i ==> v@[k]@ != x@,
        decreases v@.len() - i,
    {
        if str_eq(v[i], x) {
            assert(str_views(v@)[i as int] == x@);
            return true;
        }
        i = i + 1;
    }
    assert forall|k: int| 0 <= k < str_views(v@).len() implies str_views(v@)[k] != x@ by {}
    false
}

fn push_unique(v: &mut Vec<&'static str>, x: &'static str)
    ensures
        str_views(final(v)@) == add_unique(str_views(old(v)@), x@),
{
    if !holds(v, x) {
        v.push(x);
        assert(str_views(v@) =~= str_views(old(v)@).push(x@));
    }
}

/// Scans executable bytes for usage signatures.
pub fn scan_usage_from_bytes(bytes: &[u8]) -> (r: UsageScan)
    ensures
        r.view() == usage_scan_of(bytes@),
{
    let mut scan = UsageScan {
        required_keys: Vec::new(),
        privacy_categories: Vec::new(),
        requires_location_key: false,
        evidence: Vec::new(),
    };
    let mut i: usize = 0;
    proof {
        assert(str_views(Seq::<&'static str>::empty()) =~= Seq::<Seq<char>>::empty());
    }
    while i < USAGE_SIGNATURE_COUNT
        invariant
            0 <= i <= USAGE_SIGNATURE_COUNT,
            scan.view() == usage_scan_upto(bytes@, i as nat),
        decreases USAGE_SIGNATURE_COUNT - i,
    {
        let (name, req) = usage_signature_at(i);
        if found_in(bytes, name) {
            let ghost ev = scan.evidence@;
            scan.evidence.push(name);
            assert(str_views(scan.evidence@) =~= str_views(ev).push(name@));
            match req {
                Requirement::Key(k) => push_unique(&mut scan.required_keys, k),
                Requirement::PrivacyCategory(c) => push_unique(&mut scan.privacy_categories, c),
                Requirement::AnyLocation => {
                    scan.requires_location_key = true;
                },
            }
        }
        i = i + 1;
    }
    scan
}

/// Capability groups found in an executable.
pub struct CapabilityScan {
    /// Capability groups detected, in first-detection order, distinct.
    pub detected: Vec<&'static str>,
    /// Signature names found, in table order.
    pub evidence: Vec<&'static str>,
}

/// Capability groups detected among the first `n` signatures.
pub open spec fn capabilities_upto(bytes: Seq<u8>, n: nat) -> (Seq<Seq<char>>, Seq<Seq<char>>)
    decreases n,
{
    if n == 0 {
        (Seq::empty(), Seq::empty())
    } else {
        let prev = capabilities_upto(bytes, (n - 1) as nat);
        let (name, group) = capability_signature(n - 1);
        if found(bytes, name) {
            (add_unique(prev.0, group), prev.1.push(name))
        } else {
            prev
        }
    }
}

/// Scans executable bytes for capability signatures.
pub fn scan_capabilities_from_bytes(bytes: &[u8]) -> (r: CapabilityScan)
    ensures
        (str_views(r.detected@), str_views(r.evidence@)) == capabilities_upto(
            bytes@,
            CAPABILITY_SIGNATURE_COUNT as nat,
        ),
{
    let mut scan = CapabilityScan { detected: Vec::new(), evidence: Vec::new() };
    let mut i: usize = 0;
    proof {
        assert(str_views(Seq::<&'static str>::empty()) =~= Seq::<Seq<char>>::empty());
    }
    while i < CAPABILITY_SIGNATURE_COUNT
        invariant
            0 <= i <= CAPABILITY_SIGNATURE_COUNT,
            (str_views(scan.detected@), str_views(scan.evidence@)) == capabilities_upto(
                bytes@,
                i as nat,
            ),
        decreases CAPABILITY_SIGNATURE_COUNT - i,
    {
        let (name, group) = capability_signature_at(i);
        if found_in(bytes, name) {
            let ghost ev = scan.evidence@;
            scan.evidence.push(name);
            assert(str_views(scan.evidence@) =~= str_views(ev).push(name@));
            push_unique(&mut scan.detected, group);
        }
        i = i + 1;
    }
    scan
}

/// Code-point order key of a string.
pub open spec fn text_key(s: Seq<char>) -> Seq<u128> {
    s.map_values(|c: char| char_rank(c))
}

impl SortKey for String {
    open spec fn key(&self) -> Seq<u128> {
        text_key(self@)
    }

    fn key_vec(&self) -> (r: Vec<u128>) {
        crate::text::text_key_vec(self.as_str())
    }
}

/// Names found among a signature list, sorted by code point.
pub struct SignatureHits {
    pub hits: Vec<String>,
}

/// Private API signatures found in an executable.
pub type PrivateApiScan = SignatureHits;

/// Third-party SDK signatures found in an executable.
pub type SdkScan = SignatureHits;

/// Private API signature names found in `bytes`, in table order.
pub open spec fn private_api_found(bytes: Seq<u8>, n: nat) -> Seq<Seq<char>>
    decreases n,
{
    if n == 0 {
        Seq::empty()
    } else {
        let prev = private_api_found(bytes, (n - 1) as nat);
        if found(bytes, private_api_signature(n - 1)) {
            prev.push(private_api_signature(n - 1))
        } else {
            prev
        }
    }
}

/// SDK signature names found in `bytes`, in table order.
pub open spec fn sdk_found(bytes: Seq<u8>, n: nat) -> Seq<Seq<char>>
    decreases n,
{
    if n == 0 {
        Seq::empty()
    } else {
        let prev = sdk_found(bytes, (n - 1) as nat);
        if found(bytes, sdk_signature(n - 1)) {
            prev.push(sdk_signature(n - 1))
        } else {
            prev
        }
    }
}

/// Scans executable bytes for private API signatures; hits are sorted.
pub fn scan_private_api_from_bytes(bytes: &[u8]) -> (r: PrivateApiScan)
    ensures
        sorted_by_key(r.hits@),
        views(r.hits@).to_multiset() == private_api_found(
            bytes@,
            PRIVATE_API_SIGNATURE_COUNT as nat,
        ).to_multiset(),
{
    let mut hits: Vec<String> = Vec::new();
    let mut i: usize = 0;
    proof {
        assert(views(Seq::<String>::empty()) =~= Seq::<Seq<char>>::empty());
    }
    while i < PRIVATE_API_SIGNATURE_COUNT
        invariant
            0 <= i <= PRIVATE_API_SIGNATURE_COUNT,
            views(hits@) == private_api_found(bytes@, i as nat),
        decreases PRIVATE_API_SIGNATURE_COUNT - i,
    {
        let name = private_api_signature_at(i);
        if found_in(bytes, name) {
            let ghost pre = hits@;
            hits.push(owned(name));
            assert(views(hits@) =~= views(pre).push(name@));
        }
        i = i + 1;
    }
    let sorted = sort_by_key(hits);
    proof {
        crate::text::lemma_views_multiset(sorted@, hits@);
    }
    SignatureHits { hits: sorted }
}

/// Scans executable bytes for SDK signatures; hits are sorted.
pub fn scan_sdks_from_bytes(bytes: &[u8]) -> (r: SdkScan)
    ensures
        sorted_by_key(r.hits@),
        views(r.hits@).to_multiset() == sdk_found(bytes@, SDK_SIGNATURE_COUNT as nat).to_multiset(),
{
    let mut hits: Vec<String> = Vec::new();
    let mut i: usize = 0;
    proof {
        assert(views(Seq::<String>::empty()) =~= Seq::<Seq<char>>::empty());
    }
    while i < SDK_SIGNATURE_COUNT
        invariant
            0 <= i <= SDK_SIGNATURE_COUNT,
            views(hits@) == sdk_found(bytes@, i as nat),
        decreases SDK_SIGNATURE_COUNT - i,
    {
        let name = sdk_signature_at(i);
        if found_in(bytes, name) {
            let ghost pre = hits@;
            hits.push(owned(name));
            assert(views(hits@) =~= views(pre).push(name@));
        }
        i = i + 1;
    }
    let sorted = sort_by_key(hits);
    proof {
        crate::text::lemma_views_multiset(sorted@, hits@);
    }
    SignatureHits { hits: sorted }
}

/// Instrumentation signature names found in `bytes`, in table order.
pub open spec fn instrumentation_found(bytes: Seq<u8>, n: nat) -> Seq<Seq<char>>
    decreases n,
{
    if n == 0 {
        Seq::empty()
    } else {
        let prev = instrumentation_found(bytes, (n - 1) as nat);
        if found(bytes, instrumentation_signature(n - 1)) {
            prev.push(instrumentation_signature(n - 1))
        } else {
            prev
        }
    }
}

/// Scans executable bytes for LLVM profiling instrumentation symbols.
pub fn scan_instrumentation_from_bytes(bytes: &[u8]) -> (r: Vec<&'static str>)
    ensures
        str_views(r@) == instrumentation_found(bytes@, INSTRUMENTATION_SIGNATURE_COUNT as nat),
{
    let mut hits: Vec<&'static str> = Vec::new();
    let mut i: usize = 0;
    proof {
        assert(str_views(Seq::<&'static str>::empty()) =~= Seq::<Seq<char>>::empty());
    }
    while i < INSTRUMENTATION_SIGNATURE_COUNT
        invariant
            0 <= i <= INSTRUMENTATION_SIGNATURE_COUNT,
            str_views(hits@) == instrumentation_found(bytes@, i as nat),
        decreases INSTRUMENTATION_SIGNATURE_COUNT - i,
    {
        let name = instrumentation_signature_at(i);
        if found_in(bytes, name) {
            let ghost pre = hits@;
            hits.push(name);
            assert(str_views(hits@) =~= str_views(pre).push(name@));
        }
        i = i + 1;
    }
    hits
}


/// The usage scan of the app's executable, given what reading it gave.
pub fn scan_usage_from_app_bundle(executable: &Result<Vec<u8>, UsageScanError>) -> (r: Result<
    UsageScan,
    UsageScanError,
>)
    ensures
        match (executable, r) {
            (Ok(b), Ok(s)) => s.view() == usage_scan_of(b@),
            (Err(e), Err(f)) => e == f,
            _ => false,
        },
{
    match executable {
        Ok(b) => Ok(scan_usage_from_bytes(b.as_slice())),
        Err(e) => Err(e.duplicate()),
    }
}

/// The private API scan of the app's executable, given what reading it gave.
pub fn scan_private_api_from_app_bundle(executable: &Result<Vec<u8>, UsageScanError>) -> (r: Result<
    PrivateApiScan,
    UsageScanError,
>)
    ensures
        match (executable, r) {
            (Ok(b), Ok(s)) => sorted_by_key(s.hits@) && views(s.hits@).to_multiset()
                == private_api_found(b@, PRIVATE_API_SIGNATURE_COUNT as nat).to_multiset(),
            (Err(e), Err(f)) => e == f,
            _ => false,
        },
{
    match executable {
        Ok(b) => Ok(scan_private_api_from_bytes(b.as_slice())),
        Err(e) => Err(e.duplicate()),
    }
}

/// The SDK scan of the app's executable, given what reading it gave.
pub fn scan_sdks_from_app_bundle(executable: &Result<Vec<u8>, UsageScanError>) -> (r: Result<
    SdkScan,
    UsageScanError,
>)
    ensures
        match (executable, r) {
            (Ok(b), Ok(s)) => sorted_by_key(s.hits@) && views(s.hits@).to_multiset() == sdk_found(
                b@,
                SDK_SIGNATURE_COUNT as nat,
            ).to_multiset(),
            (Err(e), Err(f)) => e == f,
            _ => false,
        },
{
    match executable {
        Ok(b) => Ok(scan_sdks_from_bytes(b.as_slice())),
        Err(e) => Err(e.duplicate()),
    }
}

/// The hardware capability scan of the app's executable, given what reading it gave.
pub fn scan_capabilities_from_app_bundle(executable: &Result<Vec<u8>, UsageScanError>) -> (r: Result<
    CapabilityScan,
    UsageScanError,
>)
    ensures
        match (executable, r) {
            (Ok(b), Ok(s)) => (str_views(s.detected@), str_views(s.evidence@)) == capabilities_upto(
                b@,
                CAPABILITY_SIGNATURE_COUNT as nat,
            ),
            (Err(e), Err(f)) => e == f,
            _ => false,
        },
{
    match executable {
        Ok(b) => Ok(scan_capabilities_from_bytes(b.as_slice())),
        Err(e) => Err(e.duplicate()),
    }
}

/// The instrumentation scan of the app's executable, given what reading it gave.
pub fn scan_instrumentation_from_app_bundle(executable: &Result<Vec<u8>, UsageScanError>) -> (r:
    Result<Vec<&'static str>, UsageScanError>)
    ensures
        match (executable, r) {
            (Ok(b), Ok(h)) => str_views(h@) == instrumentation_found(
                b@,
                INSTRUMENTATION_SIGNATURE_COUNT as nat,
            ),
            (Err(e), Err(f)) => e == f,
            _ => false,
        },
{
    match executable {
        Ok(b) => Ok(scan_instrumentation_from_bytes(b.as_slice())),
        Err(e) => Err(e.duplicate()),
    }
}


/// The app's name without its `.app` suffixes.
pub open spec fn app_stem(bundle: Seq<char>) -> Seq<char> {
    crate::paths::trim_suffix_all(crate::paths::base_name(bundle), ".app"@)
}

/// Where an app's executable is: the file `CFBundleExecutable` names
/// (`declared`, as read from its `Info.plist`), else the file named after the
/// app; each only when it is among the paths that exist (`present`).
pub fn resolve_executable_path(app_bundle_path: &str, declared: Option<&str>, present: &Vec<String>) -> (r:
    Option<String>)
    ensures
        crate::paths::opt_string(r) == crate::paths::executable_spec(
            app_bundle_path@,
            crate::paths::opt_text(declared),
            app_stem(app_bundle_path@),
            crate::text::views(present@),
        ),
{
    let name = crate::paths::file_name(app_bundle_path);
    let stem = crate::paths::trim_end_matches(name.as_str(), ".app");
    crate::paths::choose_executable(app_bundle_path, declared, stem.as_str(), present)
}

} // verus!
