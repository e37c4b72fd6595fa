//! The length-prefixed frame codec of the channel.
//!
//! A frame on the wire is a four-byte little-endian length, followed by
//! exactly that many bytes of rkyv archive. The archive holds the frame's
//! version and body; rkyv validates it when it is read back. A frame whose
//! version is not the channel's is refused both ways, and so is, on
//! encoding, a body longer than `MAX_FRAME_BODY`.
use crate::signal::{spec_signal_version, signal_version, Frame, Version};
use vstd::prelude::*;

verus! {

/// Why a frame could not be encoded or decoded.
#[allow(inconsistent_fields)]
#[derive(Clone, Debug, PartialEq, Eq, Structural)]
pub enum FrameCodecError {
    LengthPrefixMissing,
    LengthMismatch { expected: usize, found: usize },
    LengthTooLarge,
    ArchiveEncode,
    ArchiveDecode,
    VersionMismatch { expected: Version, found: Version },
}

/// Encoding to and decoding from length-prefixed bytes.
pub trait SignalFrameCodec: Sized {
    fn encode_length_prefixed(&self) -> Result<Vec<u8>, FrameCodecError>;

    fn decode_length_prefixed(bytes: &[u8]) -> Result<Self, FrameCodecError>;
}

/// The bytes that rkyv's `to_bytes` gives for the archived fields of a
/// frame (contract identifier, wire revision, body), where it gives any.
pub uninterp spec fn archived_frame(fields: (u32, u32, Seq<u8>)) -> Option<Seq<u8>>;

/// The fields that rkyv's checked `from_bytes` reads back from bytes,
/// where the bytes validate as an archive of them.
pub uninterp spec fn restored_frame(bytes: Seq<u8>) -> Option<(u32, u32, Seq<u8>)>;

/// The four little-endian bytes of `n`.
pub open spec fn le_u32(n: u32) -> Seq<u8> {
    seq![
        (n % 256) as u8,
        ((n / 256) % 256) as u8,
        ((n / 65536) % 256) as u8,
        (n / 16777216) as u8,
    ]
}

/// The number that the first four bytes of `bytes` give, read little-endian.
pub open spec fn le_u32_value(bytes: Seq<u8>) -> nat
    recommends
        bytes.len() >= 4,
{
    (bytes[0] + 256 * bytes[1] + 65536 * bytes[2] + 16777216 * bytes[3]) as nat
}

/// The longest frame body that is archived. rkyv keeps the archived
/// body's relative pointer in 32 signed bits and panics when the offset
/// does not fit, so a longer body is refused before archiving. The bound
/// is a conservative margin: the layout itself overflows only a few bytes
/// short of `i32::MAX`.
pub const MAX_FRAME_BODY: usize = 0x7fff_0000;

/// What encoding a frame of `version` and `body` gives.
pub open spec fn spec_encode_frame(version: Version, body: Seq<u8>) -> Result<
    Seq<u8>,
    FrameCodecError,
> {
    if version != spec_signal_version() {
        Err(FrameCodecError::VersionMismatch { expected: spec_signal_version(), found: version })
    } else if body.len() > MAX_FRAME_BODY {
        Err(FrameCodecError::LengthTooLarge)
    } else {
        match archived_frame((version.contract_id, version.wire_revision, body)) {
            None => Err(FrameCodecError::ArchiveEncode),
            Some(archive) => if archive.len() > u32::MAX {
                Err(FrameCodecError::LengthTooLarge)
            } else {
                Ok(le_u32(archive.len() as u32) + archive)
            },
        }
    }
}

/// What decoding `bytes` gives: the version and body of the frame.
pub open spec fn spec_decode_frame(bytes: Seq<u8>) -> Result<(Version, Seq<u8>), FrameCodecError> {
    if bytes.len() < 4 {
        Err(FrameCodecError::LengthPrefixMissing)
    } else {
        let expected = le_u32_value(bytes);
        let payload = bytes.subrange(4, bytes.len() as int);
        if payload.len() != expected {
            Err(
                FrameCodecError::LengthMismatch {
                    expected: expected as usize,
                    found: payload.len() as usize,
                },
            )
        } else {
            match restored_frame(payload) {
                None => Err(FrameCodecError::ArchiveDecode),
                Some(fields) => {
                    let version = Version { contract_id: fields.0, wire_revision: fields.1 };
                    if version != spec_signal_version() {
                        Err(
                            FrameCodecError::VersionMismatch {
                                expected: spec_signal_version(),
                                found: version,
                            },
                        )
                    } else {
                        Ok((version, fields.2))
                    }
                },
            }
        }
    }
}

pub open spec fn bytes_result_view(res: Result<Vec<u8>, FrameCodecError>) -> Result<
    Seq<u8>,
    FrameCodecError,
> {
    match res {
        Ok(bytes) => Ok(bytes@),
        Err(e) => Err(e),
    }
}

pub open spec fn frame_result_view(res: Result<Frame, FrameCodecError>) -> Result<
    (Version, Seq<u8>),
    FrameCodecError,
> {
    match res {
        Ok(frame) => Ok((frame.0, frame.1@)),
        Err(e) => Err(e),
    }
}

/// The view of fields read back from an archive.
pub open spec fn fields_view(fields: Option<(u32, u32, Vec<u8>)>) -> Option<(u32, u32, Seq<u8>)> {
    match fields {
        Some(fields) => Some((fields.0, fields.1, fields.2@)),
        None => None,
    }
}

/// Archives the fields of a frame with rkyv's `to_bytes`.
///
/// Trusted: the result is `archived_frame` of the arguments; nothing more
/// is claimed of rkyv's layout. The body is bounded by `MAX_FRAME_BODY`,
/// since rkyv panics where the archived body's 32-bit relative offset
/// overflows.
#[verifier::external_body]
fn archive_frame_fields(contract_id: u32, wire_revision: u32, body: &Vec<u8>) -> (res: Option<
    Vec<u8>,
>)
    requires
        body@.len() <= MAX_FRAME_BODY,
    ensures
        archived_frame((contract_id, wire_revision, body@)) == match res {
            Some(bytes) => Some(bytes@),
            None => None::<Seq<u8>>,
        },
{
    match rkyv::to_bytes::<rkyv::rancor::Error>(&(contract_id, wire_revision, body.clone())) {
        Ok(archive) => Some(archive.to_vec()),
        Err(_) => None,
    }
}

/// Reads the fields of a frame back with rkyv's checked `from_bytes`,
/// from an aligned copy of the bytes.
///
/// Trusted: the result is `restored_frame` of the bytes, and, as rkyv
/// documents, bytes that `to_bytes` gave for some fields read back as
/// exactly those fields. Which other bytes validate is left unsaid.
#[verifier::external_body]
fn restore_frame_fields(bytes: &Vec<u8>) -> (res: Option<(u32, u32, Vec<u8>)>)
    ensures
        restored_frame(bytes@) == fields_view(res),
        forall|fields: (u32, u32, Seq<u8>)|
            #[trigger] archived_frame(fields) == Some(bytes@) ==> fields_view(
                res,
            ) == Some(fields),
{
    let mut aligned = rkyv::util::AlignedVec::<16>::new();
    aligned.extend_from_slice(bytes.as_slice());
    match rkyv::from_bytes::<(u32, u32, Vec<u8>), rkyv::rancor::Error>(&aligned) {
        Ok(fields) => Some(fields),
        Err(_) => None,
    }
}

/// The channel's own version, written out: contract 1, wire revision 6.
pub open spec fn channel_version_literal() -> Version {
    Version { contract_id: 1, wire_revision: 6 }
}

/// Encoding a frame succeeds exactly on the channel's own version, and on
/// that version it refuses no body of at most `MAX_FRAME_BODY` bytes whose
/// archive rkyv gives and fits a 32-bit length: the result is then the
/// four little-endian bytes of the archive's length followed by the
/// archive itself.
pub proof fn lemma_encode_frames_every_channel_body(
    version: Version,
    body: Seq<u8>,
    archive: Seq<u8>,
)
    requires
        archived_frame((version.contract_id, version.wire_revision, body)) == Some(archive),
    ensures
        spec_encode_frame(version, body) is Ok ==> version == channel_version_literal(),
        (version == channel_version_literal() && body.len() <= 0x7fff_0000 && archive.len()
            > 0xffff_ffff) ==> spec_encode_frame(version, body) == Err::<Seq<u8>, FrameCodecError>(
            FrameCodecError::LengthTooLarge,
        ),
        (version == channel_version_literal() && body.len() > 0x7fff_0000) ==> spec_encode_frame(
            version,
            body,
        ) == Err::<Seq<u8>, FrameCodecError>(FrameCodecError::LengthTooLarge),
        (version == channel_version_literal() && body.len() <= 0x7fff_0000 && archive.len()
            <= 0xffff_ffff) ==> (spec_encode_frame(version, body) matches Ok(bytes) && bytes.len()
            == 4 + archive.len() && bytes.subrange(4, bytes.len() as int) == archive && bytes[0]
            + 256 * bytes[1] + 65536 * bytes[2] + 16777216 * bytes[3] == archive.len()),
{
    if version == channel_version_literal() && body.len() <= 0x7fff_0000 && archive.len()
        <= 0xffff_ffff {
        lemma_le_u32_round_trip(archive.len() as u32, archive);
    }
}

/// Encoding a frame of the channel's version whose body is within bounds
/// but which rkyv does not archive fails with `ArchiveEncode`.
pub proof fn lemma_encode_reports_archive_failure(body: Seq<u8>)
    requires
        body.len() <= 0x7fff_0000,
        archived_frame((1u32, 6u32, body)) is None,
    ensures
        spec_encode_frame(channel_version_literal(), body) == Err::<Seq<u8>, FrameCodecError>(
            FrameCodecError::ArchiveEncode,
        ),
{
}

/// Encoding refuses a frame of any other version with a mismatch that
/// names the channel's version and the frame's.
pub proof fn lemma_encode_refuses_foreign_versions(version: Version, body: Seq<u8>)
    requires
        version != channel_version_literal(),
    ensures
        spec_encode_frame(version, body) == Err::<Seq<u8>, FrameCodecError>(
            FrameCodecError::VersionMismatch { expected: channel_version_literal(), found: version },
        ),
{
}

/// Decoding gives a frame only of the channel's own version, whole
/// version compared, and only when the four-byte prefix states exactly
/// the length of the rest and rkyv reads that rest back as the frame's
/// fields. Its refusals say why: too few bytes for a prefix, a prefix
/// that disagrees with the rest (naming both lengths), or fields of
/// another version (naming both versions).
pub proof fn lemma_decode_accepts_only_channel_frames(bytes: Seq<u8>)
    requires
        bytes.len() <= usize::MAX,
    ensures
        spec_decode_frame(bytes) matches Ok((version, body)) ==> (version
            == channel_version_literal() && bytes.len() >= 4 && bytes[0] + 256 * bytes[1] + 65536
            * bytes[2] + 16777216 * bytes[3] == bytes.len() - 4 && restored_frame(
            bytes.subrange(4, bytes.len() as int),
        ) == Some((1u32, 6u32, body))),
        spec_decode_frame(bytes) == Err::<(Version, Seq<u8>), FrameCodecError>(
            FrameCodecError::LengthPrefixMissing,
        ) <==> bytes.len() < 4,
        spec_decode_frame(bytes) matches Err(FrameCodecError::LengthMismatch { expected, found })
            ==> (bytes.len() >= 4 && found == bytes.len() - 4 && expected == bytes[0] + 256
            * bytes[1] + 65536 * bytes[2] + 16777216 * bytes[3] && expected != found),
        spec_decode_frame(bytes) matches Err(FrameCodecError::VersionMismatch { expected, found })
            ==> (expected == channel_version_literal() && found != channel_version_literal()),
        (bytes.len() >= 4 && bytes[0] + 256 * bytes[1] + 65536 * bytes[2] + 16777216 * bytes[3]
            == bytes.len() - 4 && restored_frame(bytes.subrange(4, bytes.len() as int)) is None)
            ==> spec_decode_frame(bytes) == Err::<(Version, Seq<u8>), FrameCodecError>(
            FrameCodecError::ArchiveDecode,
        ),
{
}

/// A well-formed frame from a peer of another version, contract or wire
/// revision, is refused with a mismatch naming both versions.
pub proof fn lemma_decode_refuses_foreign_versions(
    bytes: Seq<u8>,
    contract_id: u32,
    wire_revision: u32,
    body: Seq<u8>,
)
    requires
        bytes.len() >= 4,
        bytes[0] + 256 * bytes[1] + 65536 * bytes[2] + 16777216 * bytes[3] == bytes.len() - 4,
        restored_frame(bytes.subrange(4, bytes.len() as int)) == Some(
            (contract_id, wire_revision, body),
        ),
        contract_id != 1 || wire_revision != 6,
    ensures
        spec_decode_frame(bytes) == Err::<(Version, Seq<u8>), FrameCodecError>(
            FrameCodecError::VersionMismatch {
                expected: channel_version_literal(),
                found: Version { contract_id, wire_revision },
            },
        ),
{
}

/// Reading back the little-endian bytes of `n` gives `n`.
pub proof fn lemma_le_u32_round_trip(n: u32, rest: Seq<u8>)
    ensures
        le_u32_value(le_u32(n) + rest) == n,
        (le_u32(n) + rest).len() == 4 + rest.len(),
        (le_u32(n) + rest).subrange(4, 4 + rest.len() as int) == rest,
{
    let s = le_u32(n) + rest;
    assert(s[0] == (n % 256) as u8);
    assert(s[1] == ((n / 256) % 256) as u8);
    assert(s[2] == ((n / 65536) % 256) as u8);
    assert(s[3] == (n / 16777216) as u8);
    assert((n % 256) + 256 * ((n / 256) % 256) + 65536 * ((n / 65536) % 256) + 16777216 * (n
        / 16777216) == n) by (nonlinear_arith)
        requires
            n <= u32::MAX,
    ;
    assert(s.subrange(4, 4 + rest.len() as int) =~= rest);
}

impl SignalFrameCodec for Frame {
    fn encode_length_prefixed(&self) -> (res: Result<Vec<u8>, FrameCodecError>)
        ensures
            bytes_result_view(res) == spec_encode_frame(self.0, self.1@),
    {
        let expected = signal_version();
        if self.0 != expected {
            return Err(FrameCodecError::VersionMismatch { expected, found: self.0 });
        }
        if self.1.len() > MAX_FRAME_BODY {
            return Err(FrameCodecError::LengthTooLarge);
        }
        let archive = match archive_frame_fields(self.0.contract_id, self.0.wire_revision, &self.1) {
            Some(archive) => archive,
            None => return Err(FrameCodecError::ArchiveEncode),
        };
        if archive.len() > 0xffff_ffffusize {
            return Err(FrameCodecError::LengthTooLarge);
        }
        let length: u32 = archive.len() as u32;
        let mut frame: Vec<u8> = Vec::new();
        frame.push((length % 256) as u8);
        frame.push(((length / 256) % 256) as u8);
        frame.push(((length / 65536) % 256) as u8);
        frame.push((length / 16777216) as u8);
        assert(frame@ =~= le_u32(length));
        let mut i: usize = 0;
        while i < archive.len()
            invariant
                i <= archive.len(),
                frame@ =~= le_u32(length) + archive@.subrange(0, i as int),
            decreases archive.len() - i,
        {
            frame.push(archive[i]);
            i = i + 1;
            assert(archive@.subrange(0, i as int) =~= archive@.subrange(0, i - 1).push(
                archive@[i - 1],
            ));
        }
        assert(archive@.subrange(0, archive.len() as int) =~= archive@);
        Ok(frame)
    }

    fn decode_length_prefixed(bytes: &[u8]) -> (res: Result<Self, FrameCodecError>)
        ensures
            frame_result_view(res) == spec_decode_frame(bytes@),
            forall|version: Version, body: Seq<u8>|
                #[trigger] spec_encode_frame(version, body) == Ok::<Seq<u8>, FrameCodecError>(bytes@) ==> frame_result_view(
                    res,
                ) == Ok::<(Version, Seq<u8>), FrameCodecError>((version, body)),
    {
        if bytes.len() < 4 {
            return Err(FrameCodecError::LengthPrefixMissing);
        }
        let expected: u32 = bytes[0] as u32 + (bytes[1] as u32) * 256 + (bytes[2] as u32) * 65536
            + (bytes[3] as u32) * 16777216;
        let mut payload: Vec<u8> = Vec::new();
        let mut i: usize = 4;
        while i < bytes.len()
            invariant
                4 <= i <= bytes.len(),
                payload@ =~= bytes@.subrange(4, i as int),
            decreases bytes.len() - i,
        {
            payload.push(bytes[i]);
            i = i + 1;
        }
        let expected_length = expected as usize;
        if payload.len() != expected_length {
            return Err(
                FrameCodecError::LengthMismatch { expected: expected_length, found: payload.len() },
            );
        }
        let restored = restore_frame_fields(&payload);
        proof {
            assert forall|version: Version, body: Seq<u8>|
                #[trigger] spec_encode_frame(version, body) == Ok::<Seq<u8>, FrameCodecError>(bytes@) implies restored
                matches Some(fields) && fields.0 == version.contract_id && fields.1
                == version.wire_revision && fields.2@ == body && version
                == spec_signal_version() by {
                let archive = archived_frame((version.contract_id, version.wire_revision, body))->0;
                lemma_le_u32_round_trip(archive.len() as u32, archive);
                assert(payload@ =~= archive);
            }
        }
        match restored {
            None => Err(FrameCodecError::ArchiveDecode),
            Some((contract_id, wire_revision, body)) => {
                let found = Version { contract_id, wire_revision };
                let expected_version = signal_version();
                if found != expected_version {
                    Err(FrameCodecError::VersionMismatch { expected: expected_version, found })
                } else {
                    Ok(Frame(found, body))
                }
            },
        }
    }
}

} // verus!
