//! What the language server reports for a document.
use vstd::prelude::*;
use crate::parsers::bundle_scanner::{extension_of, path_extension};
use crate::paths::{base_name, file_name};
use crate::text::{owned, str_eq};

verus! {

/// The server's name in its handshake.
pub const SERVER_NAME: &'static str = "verifyOS-lsp";

/// A diagnostic of the language server, of information severity, over the
/// whole document.
pub struct LspDiagnostic {
    pub code: String,
    pub source: String,
    pub message: String,
}

pub open spec fn diagnostics_spec(path: Seq<char>) -> Seq<(Seq<char>, Seq<char>, Seq<char>)> {
    if extension_of(base_name(path)) == Some("plist"@) {
        seq![
            (
                "LSP_INFO"@,
                "verifyOS"@,
                "verifyOS real-time diagnostics are best visualized after building the app bundle."@,
            ),
        ]
    } else {
        Seq::empty()
    }
}

pub open spec fn diagnostic_view(d: LspDiagnostic) -> (Seq<char>, Seq<char>, Seq<char>) {
    (d.code@, d.source@, d.message@)
}

/// The diagnostics published for an opened or saved document: a hint for a
/// property list, nothing otherwise.
pub fn document_diagnostics(path: &str) -> (r: Vec<LspDiagnostic>)
    ensures
        r@.map_values(|d: LspDiagnostic| diagnostic_view(d)) == diagnostics_spec(path@),
{
    let mut out: Vec<LspDiagnostic> = Vec::new();
    let name = file_name(path);
    let is_plist = match path_extension(name.as_str()) {
        Some(e) => str_eq(e.as_str(), "plist"),
        None => false,
    };
    if is_plist {
        out.push(
            LspDiagnostic {
                code: owned("LSP_INFO"),
                source: owned("verifyOS"),
                message: owned(
                    "verifyOS real-time diagnostics are best visualized after building the app bundle.",
                ),
            },
        );
    }
    assert(out@.map_values(|d: LspDiagnostic| diagnostic_view(d)) =~= diagnostics_spec(path@));
    out
}

} // verus!
