//! The committer: how an artifact is identified and named once its
//! canonical bytes are known.

use vstd::prelude::*;
use crate::digest::{is_reference, reference_text, sha256_digest};
use crate::error::CommitError;

verus! {

/// An artifact that is ready to be written: the bytes, the name of the
/// file that takes them, and the reference that will identify them.
#[derive(Clone, Debug, PartialEq, Eq)]
pub struct PendingCommit {
    pub reference: String,
    pub filename: String,
    pub content: String,
}

/// The bytes that a canonical text is stored as.
pub open spec fn canonical_bytes(content: Seq<char>) -> Seq<u8> {
    vstd::utf8::encode_utf8(content)
}

/// The reference of a canonical text: the SHA-256 digest of its bytes in
/// hexadecimal, followed by `i0`.
pub open spec fn content_reference(content: Seq<char>) -> Seq<char> {
    reference_text(sha256_digest(canonical_bytes(content)))
}

/// The file name of an artifact: `inscription_`, its identifier, `_`, the
/// time stamp of the commit, `.json`.
pub open spec fn filename_text(inscription_id: Seq<char>, stamp: Seq<char>) -> Seq<char> {
    "inscription_"@ + inscription_id + "_"@ + stamp + ".json"@
}

/// The letters that a time stamp pattern may use after `%`: year, month,
/// day, hour, minute, second.
pub open spec fn is_field_letter(c: char) -> bool {
    c == 'Y' || c == 'm' || c == 'd' || c == 'H' || c == 'M' || c == 'S'
}

/// A time stamp pattern made of literal characters and of `%Y`, `%m`, `%d`,
/// `%H`, `%M`, `%S` only.
pub open spec fn is_plain_pattern(pattern: Seq<char>) -> bool {
    forall|i: int|
        0 <= i < pattern.len() && #[trigger] pattern[i] == '%' ==> i + 1 < pattern.len()
            && is_field_letter(pattern[i + 1])
}

/// The pattern of the time stamp in a file name: date, underscore, time of
/// day, all digits.
pub open spec fn stamp_pattern() -> Seq<char> {
    "%Y%m%d_%H%M%S"@
}

/// The time stamp pattern is a plain one.
pub proof fn lemma_stamp_pattern_is_plain()
    ensures
        is_plain_pattern(stamp_pattern()),
{
    reveal_strlit("%Y%m%d_%H%M%S");
    let p = stamp_pattern();
    assert(p.len() == 13);
    assert(p[0] == '%' && p[1] == 'Y');
    assert(p[2] == '%' && p[3] == 'm');
    assert(p[4] == '%' && p[5] == 'd');
    assert(p[6] == '_');
    assert(p[7] == '%' && p[8] == 'H');
    assert(p[9] == '%' && p[10] == 'M');
    assert(p[11] == '%' && p[12] == 'S');
}

/// Artifacts with different identifiers of one length, as all random UUIDs
/// in textual form are, get different file names, whatever their time
/// stamps: commits of different artifacts never collide.
pub proof fn lemma_filenames_differ(
    id_a: Seq<char>,
    stamp_a: Seq<char>,
    id_b: Seq<char>,
    stamp_b: Seq<char>,
)
    requires
        id_a.len() == id_b.len(),
        id_a != id_b,
    ensures
        filename_text(id_a, stamp_a) != filename_text(id_b, stamp_b),
{
    reveal_strlit("inscription_");
    let name_a = filename_text(id_a, stamp_a);
    let name_b = filename_text(id_b, stamp_b);
    let n = id_a.len() as int;
    assert(name_a.subrange(12, 12 + n) =~= id_a);
    assert(name_b.subrange(12, 12 + n) =~= id_b);
}

impl PendingCommit {
    /// A pending commit as the committer produces it for an artifact with
    /// identifier `inscription_id`, canonical text `content` and commit
    /// time stamp `stamp`.
    pub open spec fn prepared_from(
        self,
        inscription_id: Seq<char>,
        content: String,
        stamp: Seq<char>,
    ) -> bool {
        &&& self.content == content
        &&& self.reference@ == content_reference(content@)
        &&& self.filename@ == filename_text(inscription_id, stamp)
    }

    /// The reference has the public reference format.
    pub open spec fn well_formed(self) -> bool {
        is_reference(self.reference@)
    }

    /// Closes the commit once storage has answered: the reference if the
    /// bytes were written, a persistence error if they were not.
    pub fn complete(self, written: bool) -> (result: Result<String, CommitError>)
        ensures
            result == commit_outcome(self, written),
    {
        if written {
            Ok(self.reference)
        } else {
            Err(CommitError::Persistence)
        }
    }
}

/// What a commit comes to once storage has answered.
pub open spec fn commit_outcome(pending: PendingCommit, written: bool) -> Result<
    String,
    CommitError,
> {
    if written {
        Ok(pending.reference)
    } else {
        Err(CommitError::Persistence)
    }
}

/// Calls `chrono::Utc::now`, then `format` with `pattern`, and renders the
/// result with `to_string`.
///
/// Trusted: nothing is claimed of the text, which depends on the clock.
/// The pattern is kept to literal characters and the six plain fields,
/// which `chrono` always renders; on other patterns rendering may fail.
/// `Utc::now` gives up if the system clock reads a time before 1970.
#[verifier::external_body]
pub(crate) fn utc_now_formatted(pattern: &str) -> (text: String)
    requires
        is_plain_pattern(pattern@),
{
    chrono::Utc::now().format(pattern).to_string()
}

} // verus!
