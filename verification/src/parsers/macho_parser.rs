//! Code-signature facts of Mach-O executables: combining what each
//! architecture slice carries into one answer per executable.
use vstd::prelude::*;
use crate::text::{owned, push_str};

verus! {

/// Errors from reading a Mach-O executable or its code signature. Payloads are
/// the underlying reader's messages.
pub enum MachOError {
    ParseError(String),
    /// Reading the executable failed; the I/O error's message.
    Io(String),
    SignatureRead(String),
    NoSignature,
    MismatchedEntitlements,
    MismatchedTeamId,
}

impl MachOError {
    pub open spec fn message_spec(&self) -> Seq<char> {
        match self {
            MachOError::ParseError(m) => "Failed to parse Mach-O file: "@ + m@,
            MachOError::Io(m) => "Failed to parse Mach-O file: I/O error: "@ + m@,
            MachOError::SignatureRead(m) => "Failed to read code signature data: "@ + m@,
            MachOError::NoSignature => "No code signature found"@,
            MachOError::MismatchedEntitlements => "Entitlements differ across Mach-O architecture slices"@,
            MachOError::MismatchedTeamId => "Team identifiers differ across Mach-O architecture slices"@,
        }
    }

    /// The error's display text.
    pub fn message(&self) -> (r: String)
        ensures
            r@ == self.message_spec(),
    {
        match self {
            MachOError::ParseError(m) => {
                let mut out = owned("Failed to parse Mach-O file: ");
                push_str(&mut out, m.as_str());
                out
            },
            MachOError::Io(m) => {
                let mut out = owned("Failed to parse Mach-O file: I/O error: ");
                push_str(&mut out, m.as_str());
                out
            },
            MachOError::SignatureRead(m) => {
                let mut out = owned("Failed to read code signature data: ");
                push_str(&mut out, m.as_str());
                out
            },
            MachOError::NoSignature => owned("No code signature found"),
            MachOError::MismatchedEntitlements => owned(
                "Entitlements differ across Mach-O architecture slices",
            ),
            MachOError::MismatchedTeamId => owned(
                "Team identifiers differ across Mach-O architecture slices",
            ),
        }
    }

    /// An equal copy.
    pub fn duplicate(&self) -> (r: Self)
        ensures
            r == *self,
    {
        match self {
            MachOError::ParseError(m) => MachOError::ParseError(m.clone()),
            MachOError::Io(m) => MachOError::Io(m.clone()),
            MachOError::SignatureRead(m) => MachOError::SignatureRead(m.clone()),
            MachOError::NoSignature => MachOError::NoSignature,
            MachOError::MismatchedEntitlements => MachOError::MismatchedEntitlements,
            MachOError::MismatchedTeamId => MachOError::MismatchedTeamId,
        }
    }
}

/// The entitlements plist text embedded in an executable's signature.
pub struct MachOExecutable {
    pub entitlements: Option<String>,
}

/// An optional string, as its characters.
pub open spec fn opt_view(o: Option<String>) -> Option<Seq<char>> {
    match o {
        Some(s) => Some(s@),
        None => None,
    }
}

/// Every slice carries the same entitlements as the first.
pub open spec fn slices_agree(slices: Seq<Option<String>>) -> bool {
    forall|i: int| 0 <= i < slices.len() ==> opt_view(#[trigger] slices[i]) == opt_view(slices[0])
}

impl MachOExecutable {
    /// Combines the entitlements read from each architecture slice, in slice
    /// order: they must agree, and the first slice's are kept.
    pub fn from_slices(slices: Vec<Option<String>>) -> (r: Result<MachOExecutable, MachOError>)
        ensures
            match r {
                Ok(m) => slices_agree(slices@) && opt_view(m.entitlements) == (if slices@.len()
                    == 0 {
                    None
                } else {
                    opt_view(slices@[0])
                }),
                Err(e) => !slices_agree(slices@) && e == MachOError::MismatchedEntitlements,
            },
    {
        if slices.len() == 0 {
            return Ok(MachOExecutable { entitlements: None });
        }
        let mut i: usize = 1;
        while i < slices.len()
            invariant
                1 <= i <= slices@.len(),
                forall|k: int| 0 <= k < i ==> opt_view(#[trigger] slices@[k]) == opt_view(slices@[0]),
            decreases slices@.len() - i,
        {
            let same = match (&slices[0], &slices[i]) {
                (Some(a), Some(b)) => crate::text::str_eq(a.as_str(), b.as_str()),
                (None, None) => true,
                _ => false,
            };
            if !same {
                return Err(MachOError::MismatchedEntitlements);
            }
            i = i + 1;
        }
        let first = match &slices[0] {
            Some(s) => Some(s.clone()),
            None => None,
        };
        Ok(MachOExecutable { entitlements: first })
    }
}

/// The team identifiers a slice's signature carries: the code directory's
/// team name and each CMS certificate's Apple team identifier.
pub struct SignatureIds {
    pub code_directory_team: Option<String>,
    pub certificate_teams: Vec<Option<String>>,
}

/// One architecture slice of an executable and its signature, if signed.
pub struct SliceSignature {
    pub signature: Option<SignatureIds>,
}

/// The first certificate team identifier.
pub open spec fn first_cert_team(certs: Seq<Option<String>>) -> Option<Seq<char>>
    decreases certs.len(),
{
    if certs.len() == 0 {
        None
    } else {
        match certs[0] {
            Some(t) => Some(t@),
            None => first_cert_team(certs.drop_first()),
        }
    }
}

/// The team identifier of a signature: the code directory's, else the first
/// certificate's.
pub open spec fn team_of(ids: SignatureIds) -> Option<Seq<char>> {
    match ids.code_directory_team {
        Some(t) => Some(t@),
        None => first_cert_team(ids.certificate_teams@),
    }
}

/// The team identifier of a slice, if it is signed and names one.
pub open spec fn slice_team(s: SliceSignature) -> Option<Seq<char>> {
    match s.signature {
        Some(ids) => team_of(ids),
        None => None,
    }
}

/// Extracts the team identifier of a signature.
pub fn extract_team_id(ids: &SignatureIds) -> (r: Option<String>)
    ensures
        opt_view(r) == team_of(*ids),
{
    if let Some(t) = &ids.code_directory_team {
        return Some(t.clone());
    }
    let certs = &ids.certificate_teams;
    let mut i: usize = 0;
    assert(certs@.skip(0) =~= certs@);
    while i < certs.len()
        invariant
            0 <= i <= certs@.len(),
            certs@ == ids.certificate_teams@,
            ids.code_directory_team is None,
            first_cert_team(certs@) == first_cert_team(certs@.skip(i as int)),
        decreases certs@.len() - i,
    {
        assert(certs@.skip(i as int)[0] == certs@[i as int]);
        if let Some(t) = &certs[i] {
            let r = t.clone();
            assert(first_cert_team(certs@.skip(i as int)) == Some(t@));
            return Some(r);
        }
        assert(certs@.skip(i as int).drop_first() =~= certs@.skip(i + 1));
        i = i + 1;
    }
    None
}

/// Counts of signed slices and the team identifier shared by all of them.
pub struct MachOSignatureSummary {
    pub team_id: Option<String>,
    pub signed_slices: usize,
    pub total_slices: usize,
}

/// Number of signed slices.
pub open spec fn signed_count(slices: Seq<SliceSignature>) -> nat
    decreases slices.len(),
{
    if slices.len() == 0 {
        0
    } else {
        signed_count(slices.drop_last()) + if slices.last().signature is Some {
            1nat
        } else {
            0nat
        }
    }
}

/// Two slices name different team identifiers.
pub open spec fn teams_conflict(slices: Seq<SliceSignature>) -> bool {
    exists|i: int, j: int|
        0 <= i < slices.len() && 0 <= j < slices.len() && slice_team(#[trigger] slices[i]) is Some
            && slice_team(#[trigger] slices[j]) is Some && slice_team(slices[i]) != slice_team(
            slices[j],
        )
}

/// The first team identifier named by a slice.
pub open spec fn first_team(slices: Seq<SliceSignature>) -> Option<Seq<char>>
    decreases slices.len(),
{
    if slices.len() == 0 {
        None
    } else {
        match slice_team(slices[0]) {
            Some(t) => Some(t),
            None => first_team(slices.drop_first()),
        }
    }
}

proof fn lemma_first_team_take(slices: Seq<SliceSignature>, i: int)
    requires
        0 <= i < slices.len(),
    ensures
        first_team(slices.take(i + 1)) == match first_team(slices.take(i)) {
            Some(t) => Some(t),
            None => slice_team(slices[i]),
        },
    decreases i,
{
    if i == 0 {
        assert(slices.take(1).drop_first() =~= Seq::<SliceSignature>::empty());
        assert(slices.take(0) =~= Seq::<SliceSignature>::empty());
        assert(slices.take(1)[0] == slices[0]);
    } else {
        lemma_first_team_take(slices.drop_first(), i - 1);
        assert(slices.take(i + 1).drop_first() =~= slices.drop_first().take(i));
        assert(slices.take(i).drop_first() =~= slices.drop_first().take(i - 1));
        assert(slices.take(i + 1)[0] == slices[0]);
        assert(slices.take(i)[0] == slices[0]);
    }
}

proof fn lemma_first_team_some(slices: Seq<SliceSignature>)
    ensures
        first_team(slices) is Some <==> exists|k: int|
            0 <= k < slices.len() && (#[trigger] slice_team(slices[k])) is Some,
        first_team(slices) matches Some(t) ==> exists|k: int|
            0 <= k < slices.len() && #[trigger] slice_team(slices[k]) == Some(t),
    decreases slices.len(),
{
    if slices.len() > 0 {
        lemma_first_team_some(slices.drop_first());
        if slice_team(slices[0]) is None {
            assert forall|k: int| 0 < k < slices.len() implies #[trigger] slice_team(slices[k])
                == slice_team(slices.drop_first()[k - 1]) by {}
            if exists|k: int| 0 <= k < slices.len() && (#[trigger] slice_team(slices[k])) is Some {
                let k = choose|k: int| 0 <= k < slices.len() && (#[trigger] slice_team(slices[k])) is Some;
                assert(slice_team(slices.drop_first()[k - 1]) is Some);
            }
            if first_team(slices) is Some {
                let t = first_team(slices)->0;
                let k = choose|k: int|
                    0 <= k < slices.drop_first().len() && #[trigger] slice_team(
                        slices.drop_first()[k],
                    ) == Some(t);
                assert(slice_team(slices[k + 1]) == Some(t));
            }
        }
    }
}

/// Summarizes the signatures of an executable's slices: slices counted, signed
/// slices counted, and the single team identifier they name.
pub fn summarize_signatures(slices: &Vec<SliceSignature>) -> (r: Result<
    MachOSignatureSummary,
    MachOError,
>)
    ensures
        match r {
            Ok(s) => !teams_conflict(slices@) && s.total_slices == slices@.len() && s.signed_slices
                == signed_count(slices@) && opt_view(s.team_id) == first_team(slices@),
            Err(e) => teams_conflict(slices@) && e == MachOError::MismatchedTeamId,
        },
{
    let mut team: Option<String> = None;
    let mut conflict = false;
    let mut signed: usize = 0;
    let mut i: usize = 0;
    while i < slices.len()
        invariant
            0 <= i <= slices@.len(),
            signed == signed_count(slices@.take(i as int)),
            signed <= i,
            opt_view(team) == first_team(slices@.take(i as int)),
            conflict == teams_conflict(slices@.take(i as int)),
            !conflict ==> forall|k: int|
                0 <= k < i && (#[trigger] slice_team(slices@[k])) is Some ==> slice_team(slices@[k])
                    == opt_view(team),
        decreases slices@.len() - i,
    {
        let ghost pre = slices@.take(i as int);
        let ghost post = slices@.take(i + 1);
        assert(post.drop_last() =~= pre);
        assert(post.last() == slices@[i as int]);
        proof {
            lemma_first_team_take(slices@, i as int);
            lemma_first_team_some(pre);
        }
        if let Some(ids) = &slices[i].signature {
            signed = signed + 1;
            let t = extract_team_id(ids);
            match t {
                Some(t) => {
                    match &team {
                        Some(existing) => {
                            if !crate::text::str_eq(existing.as_str(), t.as_str()) {
                                conflict = true;
                            }
                        },
                        None => {
                            team = Some(t);
                        },
                    }
                },
                None => {},
            }
        }
        proof {
            assert forall|a: int, b: int|
                0 <= a < post.len() && 0 <= b < post.len() && slice_team(#[trigger] post[a])
                    is Some && slice_team(#[trigger] post[b]) is Some && slice_team(post[a])
                    != slice_team(post[b]) implies teams_conflict(pre) || (slice_team(slices@[i as int])
                is Some && exists|k: int|
                0 <= k < i && (#[trigger] slice_team(slices@[k])) is Some && slice_team(slices@[k])
                    != slice_team(slices@[i as int])) by {
                if a < i && b < i {
                    assert(post[a] == pre[a] && post[b] == pre[b]);
                } else if a < i {
                    assert(post[a] == slices@[a]);
                } else if b < i {
                    assert(post[b] == slices@[b]);
                }
            }
            if teams_conflict(pre) {
                let (a, b) = choose|a: int, b: int|
                    0 <= a < pre.len() && 0 <= b < pre.len() && slice_team(#[trigger] pre[a])
                        is Some && slice_team(#[trigger] pre[b]) is Some && slice_team(pre[a])
                        != slice_team(pre[b]);
                assert(post[a] == pre[a] && post[b] == pre[b]);
                assert(teams_conflict(post));
            }
        }
        i = i + 1;
        proof {
            if !teams_conflict(pre) {
                let cur = slice_team(slices@[i - 1]);
                if cur is Some && first_team(pre) is Some && cur != first_team(pre) {
                    let k = choose|k: int|
                        0 <= k < pre.len() && #[trigger] slice_team(pre[k]) == first_team(pre);
                    assert(pre[k] == slices@[k]);
                    assert(post[k] == slices@[k]);
                    assert(post[i - 1] == slices@[i - 1]);
                    assert(teams_conflict(post));
                }
            }
        }
    }
    assert(slices@.take(slices@.len() as int) =~= slices@);
    if conflict {
        return Err(MachOError::MismatchedTeamId);
    }
    Ok(MachOSignatureSummary { team_id: team, signed_slices: signed, total_slices: slices.len() })
}

} // verus!
