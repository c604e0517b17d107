//! The per-application pause list: whether the focused program is one for
//! which the effect is suspended.
use vstd::prelude::*;
use vstd::string::*;
use crate::text::{after_last, chars_of, decode_utf16, last_index_in, lemma_last_index_bounds, utf16_decode};

verus! {

/// The characters that `str::to_lowercase` gives for `s` (full Unicode
/// lower-casing).
pub uninterp spec fn unicode_lowercase(s: Seq<char>) -> Seq<char>;

/// Calls `str::to_lowercase`. Unicode lower-casing is a fixed function of the
/// text; the contract names it and says nothing more of it.
#[verifier::external_body]
fn lowercase(s: &str) -> (r: String)
    ensures
        r@ == unicode_lowercase(s@),
{
    s.to_lowercase()
}

/// The executable name in a full image path (`C:\...\photoshop.exe` gives
/// `photoshop.exe`), lower-cased.
pub fn executable_name(full_path: &str) -> (r: String)
    ensures
        r@ == unicode_lowercase(after_last(full_path@, seq!['\\'])),
{
    let v = chars_of(full_path);
    let seps: Vec<char> = vec!['\\'];
    assert(seps@ =~= seq!['\\']);
    proof {
        lemma_last_index_bounds(v@, seps@);
    }
    let start = match last_index_in(&v, &seps) {
        Some(i) => i + 1,
        None => 0,
    };
    let name = full_path.substring_char(start, v.len());
    assert(name@ =~= after_last(full_path@, seq!['\\']));
    lowercase(name)
}

/// The lower-cased executable name in a full image path as the system reports
/// it, in UTF-16 code units.
pub fn executable_name_of_units(path_units: &[u16]) -> (r: String)
    ensures
        r@ == unicode_lowercase(after_last(utf16_decode(path_units@), seq!['\\'])),
{
    let full_path = decode_utf16(path_units);
    executable_name(full_path.as_str())
}

/// Whether some entry of the pause list names the focused program.
pub open spec fn listed(pause_apps: Seq<String>, name: Seq<char>) -> bool {
    exists|i: int| 0 <= i < pause_apps.len() && unicode_lowercase(#[trigger] pause_apps[i]@) == name
}

/// Whether the effect should pause for the focused program, given its
/// lower-cased executable name (`None` when it could not be determined).
/// Entries of the pause list match without regard to case.
pub fn should_pause(pause_apps: &[String], foreground: &Option<String>) -> (r: bool)
    ensures
        r == match foreground {
            None => false,
            Some(name) => listed(pause_apps@, name@),
        },
{

    match foreground {
        None => false,
        Some(name) => {
            let mut i: usize = 0;
            while i < pause_apps.len()
                invariant
                    i <= pause_apps@.len(),
                    *foreground == Some(*name),
                    forall|j: int|
                        0 <= j < i ==> unicode_lowercase(#[trigger] pause_apps@[j]@) != name@,
                decreases pause_apps.len() - i,
            {
                let app = lowercase(pause_apps[i].as_str());
                if app == *name {
                    assert(unicode_lowercase(pause_apps@[i as int]@) == name@);
                    assert(listed(pause_apps@, name@));

                    return true;
                }
                i += 1;
            }
            false
        },
    }
}

/// An empty pause list pauses for nothing; adding entries never stops a pause;
/// and the order of the entries does not matter: a list that holds every
/// entry of another pauses whenever that one does.
pub proof fn lemma_pause_list(a: Seq<String>, b: Seq<String>, name: Seq<char>)
    ensures
        !listed(Seq::<String>::empty(), name),
        listed(a, name) ==> listed(a + b, name),
        listed(a, name) && (forall|i: int| 0 <= i < a.len() ==> b.contains(#[trigger] a[i]))
            ==> listed(b, name),
{
    if listed(a, name) {
        let i = choose|i: int| 0 <= i < a.len() && unicode_lowercase(#[trigger] a[i]@) == name;
        assert((a + b)[i] == a[i]);
        if forall|k: int| 0 <= k < a.len() ==> b.contains(#[trigger] a[k]) {
            assert(b.contains(a[i]));
            let j = choose|j: int| 0 <= j < b.len() && b[j] == a[i];
            assert(unicode_lowercase(b[j]@) == name);
        }
    }
}

} // verus!
