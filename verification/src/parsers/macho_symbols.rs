//! Symbol tables of Mach-O executables: whether a binary (each architecture of
//! a universal binary) was stripped.
use vstd::prelude::*;
use goblin::mach::load_command::CommandVariant;
use goblin::mach::{Mach, MachO};

verus! {

/// The layout `goblin` reads from an executable: a single Mach-O image with,
/// per load command, the symbol count when it is a symbol table command; or a
/// universal binary with, per architecture header, its offset and size.
pub enum MachLayout {
    Binary(Vec<Option<u32>>),
    Fat(Vec<Result<(u32, u32), String>>),
}

/// What `goblin::mach::Mach::parse` reads from `bytes`, as a `MachLayout`, or
/// the text of its error.
pub uninterp spec fn mach_layout_of(bytes: Seq<u8>) -> Result<MachLayout, String>;

/// What `goblin::mach::MachO::parse` reads from `bytes` at offset zero: per
/// load command, the symbol count when it is a symbol table command; or the
/// text of its error.
pub uninterp spec fn macho_symtabs_of(bytes: Seq<u8>) -> Result<Vec<Option<u32>>, String>;

/// Reads an executable's layout with `goblin::mach::Mach::parse`. Trusted: the
/// result is the layout `mach_layout_of` names for these bytes.
#[verifier::external_body]
fn read_mach_layout(bytes: &[u8]) -> (r: Result<MachLayout, String>)
    ensures
        r == mach_layout_of(bytes@),
{
    match Mach::parse(bytes) {
        Ok(Mach::Binary(m)) => Ok(MachLayout::Binary(
            m.load_commands.iter().map(|lc| match lc.command {
                CommandVariant::Symtab(s) => Some(s.nsyms),
                _ => None,
            }).collect(),
        )),
        Ok(Mach::Fat(f)) => Ok(
            MachLayout::Fat(
                f.iter_arches().map(|a| a.map(|a| (a.offset, a.size)).map_err(|e| e.to_string())).collect(),
            ),
        ),
        Err(e) => Err(e.to_string()),
    }
}

/// Reads one architecture's image with `goblin::mach::MachO::parse` at offset
/// zero. Trusted: the result is the list `macho_symtabs_of` names for these
/// bytes.
#[verifier::external_body]
fn read_macho_symtabs(bytes: &[u8]) -> (r: Result<Vec<Option<u32>>, String>)
    ensures
        r == macho_symtabs_of(bytes@),
{
    match MachO::parse(bytes, 0) {
        Ok(m) => Ok(m.load_commands.iter().map(|lc| match lc.command {
            CommandVariant::Symtab(s) => Some(s.nsyms),
            _ => None,
        }).collect()),
        Err(e) => Err(e.to_string()),
    }
}

/// A symbol table command that lists at least one symbol.
pub open spec fn count_positive(c: Option<u32>) -> bool {
    match c {
        Some(n) => n > 0,
        None => false,
    }
}

/// Some symbol table command lists a symbol.
pub open spec fn has_symbols(cmds: Seq<Option<u32>>) -> bool {
    exists|i: int| 0 <= i < cmds.len() && count_positive(#[trigger] cmds[i])
}

fn any_symbols(cmds: &Vec<Option<u32>>) -> (r: bool)
    ensures
        r == has_symbols(cmds@),
{
    let mut i: usize = 0;
    while i < cmds.len()
        invariant
            0 <= i <= cmds@.len(),
            forall|j: int| 0 <= j < i ==> !count_positive(#[trigger] cmds@[j]),
        decreases cmds@.len() - i,
    {
        if let Some(n) = cmds[i] {
            if n > 0 {
                assert(count_positive(cmds@[i as int]));
                return true;
            }
        }
        i = i + 1;
    }
    false
}

pub open spec fn out_of_range_text() -> Seq<char> {
    "architecture slice lies outside the file"@
}

/// Whether the architectures from `arches` on are all stripped, stopping at the
/// first error or the first architecture with symbols.
pub open spec fn fat_stripped(bytes: Seq<u8>, arches: Seq<Result<(u32, u32), String>>) -> Result<
    bool,
    Seq<char>,
>
    decreases arches.len(),
{
    if arches.len() == 0 {
        Ok(true)
    } else {
        match arches[0] {
            Err(e) => Err(e@),
            Ok((off, size)) => if off + size > bytes.len() {
                Err(out_of_range_text())
            } else {
                match macho_symtabs_of(bytes.subrange(off as int, off + size)) {
                    Err(e) => Err(e@),
                    Ok(c) => if has_symbols(c@) {
                        Ok(false)
                    } else {
                        fat_stripped(bytes, arches.drop_first())
                    },
                }
            },
        }
    }
}

/// Whether the executable carries no symbols (every architecture of a
/// universal binary), or the text of the parse error.
pub open spec fn stripped_of(bytes: Seq<u8>) -> Result<bool, Seq<char>> {
    match mach_layout_of(bytes) {
        Err(e) => Err(e@),
        Ok(MachLayout::Binary(cmds)) => Ok(!has_symbols(cmds@)),
        Ok(MachLayout::Fat(arches)) => fat_stripped(bytes, arches@),
    }
}

/// Whether the executable's symbol tables are all empty. An architecture whose
/// header points outside the file is reported as an error.
pub fn check_is_stripped(bytes: &[u8]) -> (r: Result<bool, String>)
    ensures
        match (r, stripped_of(bytes@)) {
            (Ok(a), Ok(b)) => a == b,
            (Err(a), Err(b)) => a@ == b,
            _ => false,
        },
{
    match read_mach_layout(bytes) {
        Err(e) => Err(e),
        Ok(MachLayout::Binary(cmds)) => Ok(!any_symbols(&cmds)),
        Ok(MachLayout::Fat(arches)) => {
            let ghost all = arches@;
            let mut i: usize = 0;
            assert(all.skip(0) =~= all);
            while i < arches.len()
                invariant
                    0 <= i <= arches@.len(),
                    all == arches@,
                    stripped_of(bytes@) == fat_stripped(bytes@, all),
                    fat_stripped(bytes@, all) == fat_stripped(bytes@, all.skip(i as int)),
                decreases arches@.len() - i,
            {
                assert(all.skip(i as int)[0] == all[i as int]);
                assert(all.skip(i as int).drop_first() =~= all.skip(i + 1));
                match &arches[i] {
                    Err(e) => {
                        return Err(e.clone());
                    },
                    Ok((off, size)) => {
                        let off = *off as usize;
                        let size = *size as usize;
                        if off > bytes.len() || size > bytes.len() - off {
                            return Err(String::from_str("architecture slice lies outside the file"));
                        }
                        let slice = crate::bytes::copy_range(bytes, off, off + size);
                        match read_macho_symtabs(slice.as_slice()) {
                            Err(e) => {
                                return Err(e);
                            },
                            Ok(cmds) => {
                                if any_symbols(&cmds) {
                                    return Ok(false);
                                }
                            },
                        }
                    },
                }
                i = i + 1;
            }
            Ok(true)
        },
    }
}

} // verus!
