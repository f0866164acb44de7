//! The artifact: a snapshot together with the provenance of its packaging.

use vstd::prelude::*;
use crate::digest::is_lower_hex;
use crate::leaderboard::{LeaderboardData, LeaderboardView};

verus! {

/// Provenance added when a snapshot is packaged.
#[derive(Clone, Debug, PartialEq, Eq)]
pub struct InscriptionMetadata {
    pub inscription_id: String,
    pub created_at: String,
    pub protocol: String,
    pub version: String,
    pub content_type: String,
}

/// Mathematical content of an [`InscriptionMetadata`].
pub struct InscriptionMetadataView {
    pub inscription_id: Seq<char>,
    pub created_at: Seq<char>,
    pub protocol: Seq<char>,
    pub version: Seq<char>,
    pub content_type: Seq<char>,
}

impl View for InscriptionMetadata {
    type V = InscriptionMetadataView;

    open spec fn view(&self) -> InscriptionMetadataView {
        InscriptionMetadataView {
            inscription_id: self.inscription_id@,
            created_at: self.created_at@,
            protocol: self.protocol@,
            version: self.version@,
            content_type: self.content_type@,
        }
    }
}

/// The unit that gets committed: one snapshot and its provenance.
#[derive(Clone, Debug, PartialEq, Eq)]
pub struct InscriptionData {
    pub slop100: LeaderboardData,
    pub inscription_metadata: InscriptionMetadata,
}

/// Mathematical content of an [`InscriptionData`].
pub struct InscriptionView {
    pub slop100: LeaderboardView,
    pub inscription_metadata: InscriptionMetadataView,
}

impl View for InscriptionData {
    type V = InscriptionView;

    open spec fn view(&self) -> InscriptionView {
        InscriptionView {
            slop100: self.slop100@,
            inscription_metadata: self.inscription_metadata@,
        }
    }
}

/// The protocol name carried by every artifact.
pub open spec fn protocol_name() -> Seq<char> {
    "slop100"@
}

/// The protocol version carried by every artifact.
pub open spec fn protocol_version() -> Seq<char> {
    "1.0"@
}

/// The content type carried by every artifact.
pub open spec fn content_type_tag() -> Seq<char> {
    "application/json"@
}

/// The textual form of a random (version 4) UUID: thirty-six characters,
/// hyphens after the eighth, twelfth, sixteenth and twentieth digit,
/// lowercase hexadecimal digits elsewhere, the version digit `4` and a
/// variant digit among `8`, `9`, `a`, `b`.
pub open spec fn is_uuid_text(text: Seq<char>) -> bool {
    &&& text.len() == 36
    &&& forall|i: int|
        0 <= i < 36 ==> if i == 8 || i == 13 || i == 18 || i == 23 {
            #[trigger] text[i] == '-'
        } else {
            is_lower_hex(text[i])
        }
    &&& text[14] == '4'
    &&& (text[19] == '8' || text[19] == '9' || text[19] == 'a' || text[19] == 'b')
}

/// A time written with the offset of UTC: date and time of day, then
/// `+00:00` at the end.
pub open spec fn is_utc_time_text(text: Seq<char>) -> bool {
    &&& text.len() >= 25
    &&& text.subrange(text.len() - 6, text.len() as int) == "+00:00"@
}

/// The artifact that packages `snapshot` under the given identifier and
/// creation time.
pub open spec fn assembled(
    snapshot: LeaderboardData,
    inscription_id: Seq<char>,
    created_at: Seq<char>,
    artifact: InscriptionData,
) -> bool {
    &&& artifact.slop100 == snapshot
    &&& artifact@.slop100 == snapshot@
    &&& artifact@.inscription_metadata == (InscriptionMetadataView {
        inscription_id,
        created_at,
        protocol: protocol_name(),
        version: protocol_version(),
        content_type: content_type_tag(),
    })
}

impl InscriptionData {
    /// Packages a snapshot under a given identifier and creation time.
    ///
    /// The snapshot goes into the artifact untouched: same entries, same
    /// order, same values. Protocol name, version and content type are the
    /// fixed ones.
    pub fn assemble(snapshot: LeaderboardData, inscription_id: String, created_at: String) -> (artifact:
        InscriptionData)
        ensures
            assembled(snapshot, inscription_id@, created_at@, artifact),
    {
        InscriptionData {
            slop100: snapshot,
            inscription_metadata: InscriptionMetadata {
                inscription_id,
                created_at,
                protocol: "slop100".to_owned(),
                version: "1.0".to_owned(),
                content_type: "application/json".to_owned(),
            },
        }
    }
}

/// Calls `uuid::Uuid::new_v4` and renders the result with `to_string`.
///
/// Trusted: the text is the hyphenated lowercase form of a version 4 UUID,
/// which is all that holds of every draw; that two draws differ is likely,
/// not certain, and is not claimed. `new_v4` gives up if the operating
/// system hands out no random bytes.
#[verifier::external_body]
pub(crate) fn fresh_identifier() -> (id: String)
    ensures
        is_uuid_text(id@),
{
    uuid::Uuid::new_v4().to_string()
}

/// Calls `chrono::Utc::now` and renders the result with `to_rfc3339`.
///
/// Trusted: the text ends with the offset of UTC, `+00:00`, after a date
/// and a time of day of at least nineteen characters. Nothing else is
/// claimed of it, since it depends on the clock. `Utc::now` gives up if the
/// system clock reads a time before 1970.
#[verifier::external_body]
pub(crate) fn utc_now_rfc3339() -> (text: String)
    ensures
        is_utc_time_text(text@),
{
    chrono::Utc::now().to_rfc3339()
}

} // verus!
