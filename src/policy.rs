//! The destructive-command deny list: a case-insensitive substring scan.

use vstd::prelude::*;

verus! {

/// The lowercase form of a string, as std computes it.
pub uninterp spec fn lower_of(s: Seq<char>) -> Seq<char>;

/// Relies on `str::to_lowercase`: the result depends on the characters alone.
#[verifier::external_body]
fn lowercase(s: &str) -> (r: String)
    ensures
        r@ == lower_of(s@),
{
    s.to_lowercase()
}

/// `pat` occurs in `text` as a contiguous run of characters.
pub open spec fn occurs_in(pat: Seq<char>, text: Seq<char>) -> bool {
    exists|i: int|
        0 <= i && i + pat.len() <= text.len() && #[trigger] text.subrange(i, i + pat.len()) == pat
}

/// Relies on `str::contains` with a string pattern: true iff the pattern
/// occurs in the string.
#[verifier::external_body]
fn contains_text(text: &str, pat: &str) -> (r: bool)
    ensures
        r == occurs_in(pat@, text@),
{
    text.contains(pat)
}

/// The commands that are always refused.
pub open spec fn built_in_denials() -> Seq<Seq<char>> {
    seq![
        "rm -rf"@,
        "rm -r "@,
        "mkfs"@,
        "dd if="@,
        "shutdown"@,
        "reboot"@,
        "git push --force"@,
        "git push -f"@,
        "git reset --hard"@,
    ]
}

pub fn built_in_deny_patterns() -> (r: Vec<String>)
    ensures
        r@.map_values(|s: String| s@) == built_in_denials(),
{
    let mut r: Vec<String> = Vec::new();
    r.push("rm -rf".to_owned());
    r.push("rm -r ".to_owned());
    r.push("mkfs".to_owned());
    r.push("dd if=".to_owned());
    r.push("shutdown".to_owned());
    r.push("reboot".to_owned());
    r.push("git push --force".to_owned());
    r.push("git push -f".to_owned());
    r.push("git reset --hard".to_owned());
    proof {
        assert(r@.map_values(|s: String| s@) =~= built_in_denials());
    }
    r
}

/// Whether one of `lower_patterns` occurs in `lower_cmd`; both are taken as
/// already lowercased.
pub fn matches_any_lowered(lower_cmd: &str, lower_patterns: &[String]) -> (r: bool)
    ensures
        r == exists|i: int|
            0 <= i < lower_patterns@.len() && occurs_in(
                #[trigger] lower_patterns@[i]@,
                lower_cmd@,
            ),
{
    let mut i: usize = 0;
    while i < lower_patterns.len()
        invariant
            i <= lower_patterns@.len(),
            forall|j: int| 0 <= j < i ==> !occurs_in(#[trigger] lower_patterns@[j]@, lower_cmd@),
        decreases lower_patterns@.len() - i,
    {
        if contains_text(lower_cmd, lower_patterns[i].as_str()) {
            return true;
        }
        i = i + 1;
    }
    false
}

/// Whether one of `patterns` occurs in `cmd`, ignoring case.
pub fn matches_any_pattern(cmd: &str, patterns: &[String]) -> (r: bool)
    ensures
        r == exists|i: int|
            0 <= i < patterns@.len() && occurs_in(
                lower_of(#[trigger] patterns@[i]@),
                lower_of(cmd@),
            ),
{
    let lower = lowercase(cmd);
    let mut lowered: Vec<String> = Vec::new();
    let mut i: usize = 0;
    while i < patterns.len()
        invariant
            i <= patterns@.len(),
            lowered@.len() == i,
            forall|j: int| 0 <= j < i ==> #[trigger] lowered@[j]@ == lower_of(patterns@[j]@),
        decreases patterns@.len() - i,
    {
        lowered.push(lowercase(patterns[i].as_str()));
        i = i + 1;
    }
    let lowered_slice = lowered.as_slice();
    let r = matches_any_lowered(lower.as_str(), lowered_slice);
    proof {
        assert(lowered_slice@ == lowered@);
        if r {
            let j = choose|j: int|
                0 <= j < lowered_slice@.len() && occurs_in(#[trigger] lowered_slice@[j]@, lower@);
            assert(occurs_in(lower_of(patterns@[j]@), lower_of(cmd@)));
        } else {
            assert forall|j: int| 0 <= j < patterns@.len() implies !occurs_in(
                lower_of(#[trigger] patterns@[j]@),
                lower_of(cmd@),
            ) by {
                assert(lowered_slice@[j]@ == lower_of(patterns@[j]@));
            }
        }
    }
    r
}

} // verus!
