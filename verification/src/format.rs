//! Archive-header inspection for the raw scan files the fetcher hands over.
//!
//! The first record of a raw file names the archive format: a filename
//! opening with the four bytes `AR2V` marks the message layout this
//! pipeline's decoder understands. Anything else is unknown.

use vstd::prelude::*;

verus! {

/// The message layouts the decoder recognizes.
#[derive(Clone, Copy, Debug, PartialEq, Eq, Structural)]
pub enum MessageType {
    /// The current archive build, whose filenames open with `AR2V`.
    Type31,
}

/// Whether a title record's filename bytes open with `AR2V`.
pub open spec fn spec_archive_prefix(name: Seq<u8>) -> bool {
    name.len() >= 4 && name[0] == 0x41u8 && name[1] == 0x52u8 && name[2] == 0x32u8 && name[3]
        == 0x56u8
}

/// Classifies a title record's filename bytes: the known message layout if
/// they open with `AR2V`, nothing for an unknown archive.
pub fn message_type(filename: &Vec<u8>) -> (r: Option<MessageType>)
    ensures
        r == if spec_archive_prefix(filename@) {
            Some(MessageType::Type31)
        } else {
            None::<MessageType>
        },
{
    if filename.len() >= 4 && filename[0] == 0x41 && filename[1] == 0x52 && filename[2] == 0x32
        && filename[3] == 0x56 {
        Some(MessageType::Type31)
    } else {
        None
    }
}

} // verus!
