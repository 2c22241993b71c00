pub mod bundle_scanner;
pub mod macho_parser;
pub mod macho_scanner;
pub mod macho_symbols;
pub mod plist_reader;
pub mod provisioning_profile;
