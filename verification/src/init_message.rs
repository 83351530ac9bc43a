//! The synthesized initialization-failure message.
//!
//! When the one-shot native initialization fails and the native error slot is
//! empty, the binding reports which of the four togglable formats could not
//! be initialized: a comma-separated list with no trailing separator,
//! derived from the XOR of the requested and the granted flag bits.

use vstd::prelude::*;
use vstd::string::StringExecFns;

use crate::INIT_JPG;
use crate::INIT_PNG;
use crate::INIT_TIF;
use crate::INIT_WEBP;

verus! {

/// One step of building the comma-separated list: nothing when the format
/// initialized, the name alone at the front of the list, and `", "` before
/// the name everywhere else.
pub open spec fn append_part(acc: Seq<char>, wanted: bool, name: Seq<char>) -> Seq<char> {
    if wanted {
        if acc.len() == 0 {
            name
        } else {
            acc + ", "@ + name
        }
    } else {
        acc
    }
}

/// The comma-separated list of the formats, among TIFF, PNG, JPEG and WEBP,
/// whose flag bits are set in `uninit`, in that order and with no trailing
/// separator.
pub open spec fn failed_list(uninit: u32) -> Seq<char> {
    append_part(
        append_part(
            append_part(
                append_part(Seq::empty(), uninit & INIT_TIF != 0, "TIF"@),
                uninit & INIT_PNG != 0,
                "PNG"@,
            ),
            uninit & INIT_JPG != 0,
            "JPG"@,
        ),
        uninit & INIT_WEBP != 0,
        "WEBP"@,
    )
}

/// The message synthesized when initialization fails with an empty native
/// error slot: the formats whose flag bits lie in the XOR of the requested
/// and the granted sets failed to initialize.
pub open spec fn init_failure_message(requested: u32, granted: u32) -> Seq<char> {
    "Could not initialize the following parts: "@ + failed_list(requested ^ granted)
}

/// Appends one format name to the partially built list, separating it from a
/// non-empty prefix with `", "`.
fn push_part(acc: &mut String, wanted: bool, name: &str)
    ensures
        final(acc)@ == append_part(old(acc)@, wanted, name@),
{
    if wanted {
        if acc.as_str().is_empty() {
            acc.append(name);
            assert(old(acc)@ + name@ =~= name@);
        } else {
            acc.append(", ");
            acc.append(name);
        }
    }
}

/// Builds the synthesized initialization-failure message for the given
/// requested and granted flag sets.
pub fn build_init_failure_message(requested: u32, granted: u32) -> (r: String)
    ensures
        r@ == init_failure_message(requested, granted),
{
    let uninit: u32 = requested ^ granted;
    let mut list = String::new();
    push_part(&mut list, uninit & INIT_TIF != 0, "TIF");
    push_part(&mut list, uninit & INIT_PNG != 0, "PNG");
    push_part(&mut list, uninit & INIT_JPG != 0, "JPG");
    push_part(&mut list, uninit & INIT_WEBP != 0, "WEBP");
    let mut message = "Could not initialize the following parts: ".to_owned();
    message.append(list.as_str());
    message
}

/// The synthesized list names a format if and only if its flag bit is set,
/// so the list is empty exactly when none of the four flag bits is.
pub proof fn lemma_failed_list_empty_iff_no_flags(uninit: u32)
    ensures
        failed_list(uninit) == Seq::<char>::empty() <==> uninit & (INIT_TIF | INIT_PNG | INIT_JPG
            | INIT_WEBP) == 0,
{
    reveal_strlit("TIF");
    reveal_strlit("PNG");
    reveal_strlit("JPG");
    reveal_strlit("WEBP");
    reveal_strlit(", ");
    assert(uninit & (INIT_TIF | INIT_PNG | INIT_JPG | INIT_WEBP) == 0 <==> (uninit & INIT_TIF == 0
        && uninit & INIT_PNG == 0 && uninit & INIT_JPG == 0 && uninit & INIT_WEBP == 0))
        by (bit_vector);
    if uninit & INIT_TIF == 0 && uninit & INIT_PNG == 0 && uninit & INIT_JPG == 0 && uninit
        & INIT_WEBP == 0 {
        assert(failed_list(uninit) =~= Seq::<char>::empty());
    }
}

/// The synthesized list never ends in a separator: it is empty or ends with
/// the last letter of a format name.
pub proof fn lemma_failed_list_no_trailing_separator(uninit: u32)
    ensures
        failed_list(uninit).len() == 0 || (failed_list(uninit).last() != ' ' && failed_list(
            uninit,
        ).last() != ','),
{
    reveal_strlit("TIF");
    reveal_strlit("PNG");
    reveal_strlit("JPG");
    reveal_strlit("WEBP");
    reveal_strlit(", ");
    let l1 = append_part(Seq::empty(), uninit & INIT_TIF != 0, "TIF"@);
    let l2 = append_part(l1, uninit & INIT_PNG != 0, "PNG"@);
    let l3 = append_part(l2, uninit & INIT_JPG != 0, "JPG"@);
    let l4 = append_part(l3, uninit & INIT_WEBP != 0, "WEBP"@);
    assert(l1.len() == 0 || (l1.last() != ' ' && l1.last() != ','));
    assert(l2.len() == 0 || (l2.last() != ' ' && l2.last() != ','));
    assert(l3.len() == 0 || (l3.last() != ' ' && l3.last() != ','));
    assert(l4.len() == 0 || (l4.last() != ' ' && l4.last() != ','));
}

} // verus!
