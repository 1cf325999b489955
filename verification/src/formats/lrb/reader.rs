//! Decoder for the binary track container.
//!
//! The container is a 3-byte magic literal, a format version byte, a
//! little-endian 16-bit mod count, and that many mod-table entries.
//! Each entry names a mod, gives its version and a flag bitset, and —
//! when the extra-data bit is set — the absolute offset and length of
//! its payload.  Supported mods are dispatched to a handler that reads
//! the payload into the track builder: with the extra-data bit set the
//! handler runs at the recorded payload offset, without it the handler
//! runs at the entry's end and reads nothing; either way the cursor is
//! back at the start of the next entry afterwards.  An unsupported mod
//! aborts the decode when its required bit is set and is otherwise
//! recorded as a warning.

use crate::formats::lrb::cursor::{le16_at, le32_at, le64_at, ByteCursor};
use crate::formats::lrb::error::{LrbReadError, LrbReadErrorV};
use crate::formats::lrb::unsupported_warning::{
    LrbReadWarning, LrbReadWarningV, UnsupportedModWarning, UnsupportedModWarningV,
};
use crate::track::line_group::{LineGroupBuilderV, SceneryLineBuilder, StandardLineBuilder};
use crate::track::metadata::{GridVersion, MetadataV};
use crate::track::vec2::{Scalar, Vec2};
use crate::track::{spec_build_track, Track, TrackBuilder, TrackBuilderV, TrackFeature, TrackV};
use crate::util::{bytes_to_hex_string, spec_hex_string};
use vstd::prelude::*;
use vstd::utf8::{decode_utf8, valid_utf8};

verus! {

/// Bit of the entry flag byte saying the mod carries an
/// offset-addressed payload.
pub const EXTRA_DATA: u8 = 1;

/// Bit of the entry flag byte saying the track cannot be interpreted
/// without this mod.
pub const REQUIRED: u8 = 2;

/// Bit of the entry flag byte saying the mod affects scenery.
pub const SCENERY: u8 = 4;

/// Bit of the entry flag byte saying the mod affects the camera.
pub const CAMERA: u8 = 8;

/// Bit of the entry flag byte saying the mod affects physics.
pub const PHYSICS: u8 = 16;

/// The mods this decoder supports; registry membership, by `(name,
/// version)`, is the sole criterion for "supported".
#[derive(Clone, Copy, Debug, PartialEq, Eq, Structural)]
pub enum SupportedMod {
    /// `base.gridver` 0: one payload byte selecting the grid version.
    GridVer,
    /// `base.label` 0: a 16-bit length followed by the UTF-8 title.
    Label,
    /// `base.simline` 0: a 32-bit count of 37-byte riding-line records.
    SimLine,
    /// `base.scnline` 0: a 32-bit count of 36-byte scenery-line records.
    ScnLine,
    /// `base.startoffset` 0: two 64-bit scalars, the start position.
    StartOffset,
    /// `base.zerostart` 0: no payload; riders start with zero velocity.
    ZeroStart,
}

/// The registry lookup: the handler registered for `(name, version)`,
/// if any.
pub open spec fn spec_supported_mod(name: Seq<char>, version: u16) -> Option<SupportedMod> {
    if version != 0 {
        None
    } else if name == "base.gridver"@ {
        Some(SupportedMod::GridVer)
    } else if name == "base.label"@ {
        Some(SupportedMod::Label)
    } else if name == "base.simline"@ {
        Some(SupportedMod::SimLine)
    } else if name == "base.scnline"@ {
        Some(SupportedMod::ScnLine)
    } else if name == "base.startoffset"@ {
        Some(SupportedMod::StartOffset)
    } else if name == "base.zerostart"@ {
        Some(SupportedMod::ZeroStart)
    } else {
        None
    }
}

/// Whether two strings hold the same characters.
fn str_eq(a: &str, b: &str) -> (r: bool)
    ensures
        r == (a@ == b@),
{
    let sa = a.to_owned();
    let sb = b.to_owned();
    sa == sb
}

fn supported_mod(name: &str, version: u16) -> (r: Option<SupportedMod>)
    ensures
        r == spec_supported_mod(name@, version),
{
    if version != 0 {
        None
    } else if str_eq(name, "base.gridver") {
        Some(SupportedMod::GridVer)
    } else if str_eq(name, "base.label") {
        Some(SupportedMod::Label)
    } else if str_eq(name, "base.simline") {
        Some(SupportedMod::SimLine)
    } else if str_eq(name, "base.scnline") {
        Some(SupportedMod::ScnLine)
    } else if str_eq(name, "base.startoffset") {
        Some(SupportedMod::StartOffset)
    } else if str_eq(name, "base.zerostart") {
        Some(SupportedMod::ZeroStart)
    } else {
        None
    }
}

/// Relies on `String::from_utf8`: it succeeds exactly on valid UTF-8
/// input and decodes the bytes to their character sequence.
#[verifier::external_body]
fn string_from_utf8(bytes: Vec<u8>) -> (r: Option<String>)
    ensures
        r is Some <==> valid_utf8(bytes@),
        r matches Some(s) ==> s@ == decode_utf8(bytes@),
{
    String::from_utf8(bytes).ok()
}

/// The grid-version payload: one byte, `0`/`1`/`2` selecting the
/// version; any other value is invalid data.
pub open spec fn spec_handle_gridver(bytes: Seq<u8>, pos: int, bv: TrackBuilderV) -> Result<
    (TrackBuilderV, int),
    LrbReadErrorV,
> {
    if pos + 1 > bytes.len() {
        Err(LrbReadErrorV::Io)
    } else {
        let b = bytes[pos];
        if b == 0 || b == 1 || b == 2 {
            let g = if b == 0 {
                GridVersion::V6_0
            } else if b == 1 {
                GridVersion::V6_1
            } else {
                GridVersion::V6_2
            };
            Ok(
                (
                    TrackBuilderV {
                        metadata: MetadataV { grid_version: g, ..bv.metadata },
                        ..bv
                    },
                    pos + 1,
                ),
            )
        } else {
            Err(
                LrbReadErrorV::InvalidData {
                    name: "grid_version"@,
                    value: spec_hex_string(seq![b]),
                },
            )
        }
    }
}

fn handle_gridver(cursor: &mut ByteCursor, builder: &mut TrackBuilder) -> (r: Result<
    (),
    LrbReadError,
>)
    ensures
        final(cursor)@.bytes == old(cursor)@.bytes,
        match r {
            Ok(_) => spec_handle_gridver(
                old(cursor)@.bytes,
                old(cursor)@.pos as int,
                old(builder)@,
            ) matches Ok(res) && final(builder)@ == res.0,
            Err(e) => spec_handle_gridver(
                old(cursor)@.bytes,
                old(cursor)@.pos as int,
                old(builder)@,
            ) matches Err(ev) && e@ == ev,
        },
{
    let b = match cursor.read_u8() {
        Ok(b) => b,
        Err(e) => {
            return Err(e);
        },
    };
    let g = match b {
        0 => GridVersion::V6_0,
        1 => GridVersion::V6_1,
        2 => GridVersion::V6_2,
        _ => {
            let mut raw: Vec<u8> = Vec::new();
            raw.push(b);
            proof {
                assert(raw@ =~= seq![b]);
            }
            return Err(
                LrbReadError::InvalidData {
                    name: ("grid_version").to_owned(),
                    value: bytes_to_hex_string(raw.as_slice()),
                },
            );
        },
    };
    builder.metadata().grid_version(g);
    Ok(())
}

/// The label payload: a little-endian 16-bit length followed by that
/// many UTF-8 bytes, the track's title.
pub open spec fn spec_handle_label(bytes: Seq<u8>, pos: int, bv: TrackBuilderV) -> Result<
    (TrackBuilderV, int),
    LrbReadErrorV,
> {
    if pos + 2 > bytes.len() {
        Err(LrbReadErrorV::Io)
    } else {
        let l = le16_at(bytes, pos) as int;
        if pos + 2 + l > bytes.len() {
            Err(LrbReadErrorV::Io)
        } else {
            let tb = bytes.subrange(pos + 2, pos + 2 + l);
            if !valid_utf8(tb) {
                Err(LrbReadErrorV::FromUTF8Error)
            } else {
                Ok(
                    (
                        TrackBuilderV {
                            metadata: MetadataV { title: decode_utf8(tb), ..bv.metadata },
                            ..bv
                        },
                        pos + 2 + l,
                    ),
                )
            }
        }
    }
}

fn handle_label(cursor: &mut ByteCursor, builder: &mut TrackBuilder) -> (r: Result<
    (),
    LrbReadError,
>)
    ensures
        final(cursor)@.bytes == old(cursor)@.bytes,
        match r {
            Ok(_) => spec_handle_label(
                old(cursor)@.bytes,
                old(cursor)@.pos as int,
                old(builder)@,
            ) matches Ok(res) && final(builder)@ == res.0,
            Err(e) => spec_handle_label(
                old(cursor)@.bytes,
                old(cursor)@.pos as int,
                old(builder)@,
            ) matches Err(ev) && e@ == ev,
        },
{
    let l = match cursor.read_u16_le() {
        Ok(l) => l,
        Err(e) => {
            return Err(e);
        },
    };
    let tb = match cursor.read_bytes(l as usize) {
        Ok(tb) => tb,
        Err(e) => {
            return Err(e);
        },
    };
    let title = match string_from_utf8(tb) {
        Some(s) => s,
        None => {
            return Err(LrbReadError::FromUTF8Error);
        },
    };
    builder.metadata().title(title);
    Ok(())
}

/// The start-offset payload: two little-endian 64-bit scalars, the
/// start position's coordinates.
pub open spec fn spec_handle_startoffset(bytes: Seq<u8>, pos: int, bv: TrackBuilderV) -> Result<
    (TrackBuilderV, int),
    LrbReadErrorV,
> {
    if pos + 16 > bytes.len() {
        Err(LrbReadErrorV::Io)
    } else {
        let x = Scalar { bits: le64_at(bytes, pos) };
        let y = Scalar { bits: le64_at(bytes, pos + 8) };
        Ok(
            (
                TrackBuilderV {
                    metadata: MetadataV {
                        start_position: Vec2 { x, y },
                        ..bv.metadata
                    },
                    ..bv
                },
                pos + 16,
            ),
        )
    }
}

fn handle_startoffset(cursor: &mut ByteCursor, builder: &mut TrackBuilder) -> (r: Result<
    (),
    LrbReadError,
>)
    ensures
        final(cursor)@.bytes == old(cursor)@.bytes,
        match r {
            Ok(_) => spec_handle_startoffset(
                old(cursor)@.bytes,
                old(cursor)@.pos as int,
                old(builder)@,
            ) matches Ok(res) && final(builder)@ == res.0,
            Err(e) => spec_handle_startoffset(
                old(cursor)@.bytes,
                old(cursor)@.pos as int,
                old(builder)@,
            ) matches Err(ev) && e@ == ev,
        },
{
    let x = match cursor.read_u64_le() {
        Ok(x) => x,
        Err(e) => {
            return Err(e);
        },
    };
    let y = match cursor.read_u64_le() {
        Ok(y) => y,
        Err(e) => {
            return Err(e);
        },
    };
    builder.metadata().start_position(Vec2 { x: Scalar { bits: x }, y: Scalar { bits: y } });
    Ok(())
}

/// The zero-start mod carries no payload: it declares the
/// `ZeroVelocityStartRiders` capability and records the matching
/// metadata setting.
pub open spec fn spec_handle_zerostart(bytes: Seq<u8>, pos: int, bv: TrackBuilderV) -> Result<
    (TrackBuilderV, int),
    LrbReadErrorV,
> {
    let bv2 = bv.with_feature(TrackFeature::ZeroVelocityStartRiders);
    Ok(
        (
            TrackBuilderV {
                metadata: MetadataV { zero_velocity_start_riders: true, ..bv2.metadata },
                ..bv2
            },
            pos,
        ),
    )
}

fn handle_zerostart(cursor: &mut ByteCursor, builder: &mut TrackBuilder) -> (r: Result<
    (),
    LrbReadError,
>)
    ensures
        final(cursor)@.bytes == old(cursor)@.bytes,
        match r {
            Ok(_) => spec_handle_zerostart(
                old(cursor)@.bytes,
                old(cursor)@.pos as int,
                old(builder)@,
            ) matches Ok(res) && final(builder)@ == res.0,
            Err(e) => false,
        },
{
    builder.enable_feature(TrackFeature::ZeroVelocityStartRiders);
    builder.metadata().zero_velocity_start_riders(true);
    Ok(())
}

/// One riding-line record: id, a flag byte (flipped, left extension,
/// right extension), and the four endpoint coordinates.
pub open spec fn spec_simline_record(bytes: Seq<u8>, pos: int) -> StandardLineBuilder {
    StandardLineBuilder {
        id: Some(le32_at(bytes, pos)),
        endpoints: Some(
            (
                Vec2 {
                    x: Scalar { bits: le64_at(bytes, pos + 5) },
                    y: Scalar { bits: le64_at(bytes, pos + 13) },
                },
                Vec2 {
                    x: Scalar { bits: le64_at(bytes, pos + 21) },
                    y: Scalar { bits: le64_at(bytes, pos + 29) },
                },
            ),
        ),
        flipped: Some(bytes[pos + 4] & 1 != 0),
        left_extension: Some(bytes[pos + 4] & 2 != 0),
        right_extension: Some(bytes[pos + 4] & 4 != 0),
    }
}

/// `n` riding-line records appended in order; the stream must hold all
/// of them.
pub open spec fn spec_read_simlines(
    bytes: Seq<u8>,
    pos: int,
    n: nat,
    bv: TrackBuilderV,
) -> Result<(TrackBuilderV, int), LrbReadErrorV>
    decreases n,
{
    if n == 0 {
        Ok((bv, pos))
    } else if pos + 37 > bytes.len() {
        Err(LrbReadErrorV::Io)
    } else {
        spec_read_simlines(
            bytes,
            pos + 37,
            (n - 1) as nat,
            TrackBuilderV {
                line_group: LineGroupBuilderV {
                    standard_lines: bv.line_group.standard_lines.push(
                        spec_simline_record(bytes, pos),
                    ),
                    ..bv.line_group
                },
                ..bv
            },
        )
    }
}

/// The riding-lines payload: a little-endian 32-bit record count, then
/// the records.
pub open spec fn spec_handle_simline(bytes: Seq<u8>, pos: int, bv: TrackBuilderV) -> Result<
    (TrackBuilderV, int),
    LrbReadErrorV,
> {
    if pos + 4 > bytes.len() {
        Err(LrbReadErrorV::Io)
    } else {
        spec_read_simlines(bytes, pos + 4, le32_at(bytes, pos) as nat, bv)
    }
}

#[verifier::loop_isolation(false)]
fn handle_simline(cursor: &mut ByteCursor, builder: &mut TrackBuilder) -> (r: Result<
    (),
    LrbReadError,
>)
    ensures
        final(cursor)@.bytes == old(cursor)@.bytes,
        match r {
            Ok(_) => spec_handle_simline(
                old(cursor)@.bytes,
                old(cursor)@.pos as int,
                old(builder)@,
            ) matches Ok(res) && final(builder)@ == res.0,
            Err(e) => spec_handle_simline(
                old(cursor)@.bytes,
                old(cursor)@.pos as int,
                old(builder)@,
            ) matches Err(ev) && e@ == ev,
        },
{
    let ghost bytes = cursor@.bytes;
    let ghost bv0 = builder@;
    let count = match cursor.read_u32_le() {
        Ok(c) => c,
        Err(e) => {
            return Err(e);
        },
    };
    let lg = builder.line_group();
    let mut i: u32 = 0;
    while i < count
        invariant
            i <= count,
            cursor@.bytes == bytes,
            spec_handle_simline(bytes, old(cursor)@.pos as int, bv0) == spec_read_simlines(
                bytes,
                cursor@.pos as int,
                (count - i) as nat,
                TrackBuilderV { line_group: lg@, ..bv0 },
            ),
        decreases count - i,
    {
        let id = match cursor.read_u32_le() {
            Ok(v) => v,
            Err(e) => {
                return Err(e);
            },
        };
        let flags = match cursor.read_u8() {
            Ok(v) => v,
            Err(e) => {
                return Err(e);
            },
        };
        let x1 = match cursor.read_u64_le() {
            Ok(v) => v,
            Err(e) => {
                return Err(e);
            },
        };
        let y1 = match cursor.read_u64_le() {
            Ok(v) => v,
            Err(e) => {
                return Err(e);
            },
        };
        let x2 = match cursor.read_u64_le() {
            Ok(v) => v,
            Err(e) => {
                return Err(e);
            },
        };
        let y2 = match cursor.read_u64_le() {
            Ok(v) => v,
            Err(e) => {
                return Err(e);
            },
        };
        let endpoints = (
            Vec2 { x: Scalar { bits: x1 }, y: Scalar { bits: y1 } },
            Vec2 { x: Scalar { bits: x2 }, y: Scalar { bits: y2 } },
        );
        let flipped = flags & 1 != 0;
        let left_extension = flags & 2 != 0;
        let right_extension = flags & 4 != 0;
        lg.add_standard_line(id, endpoints, flipped, left_extension, right_extension).unwrap();
        i = i + 1;
    }
    Ok(())
}

/// One scenery-line record: id and the four endpoint coordinates.
pub open spec fn spec_scnline_record(bytes: Seq<u8>, pos: int) -> SceneryLineBuilder {
    SceneryLineBuilder {
        id: Some(le32_at(bytes, pos)),
        endpoints: Some(
            (
                Vec2 {
                    x: Scalar { bits: le64_at(bytes, pos + 4) },
                    y: Scalar { bits: le64_at(bytes, pos + 12) },
                },
                Vec2 {
                    x: Scalar { bits: le64_at(bytes, pos + 20) },
                    y: Scalar { bits: le64_at(bytes, pos + 28) },
                },
            ),
        ),
        width: None,
    }
}

/// `n` scenery-line records appended in order; the stream must hold all
/// of them.
pub open spec fn spec_read_scnlines(
    bytes: Seq<u8>,
    pos: int,
    n: nat,
    bv: TrackBuilderV,
) -> Result<(TrackBuilderV, int), LrbReadErrorV>
    decreases n,
{
    if n == 0 {
        Ok((bv, pos))
    } else if pos + 36 > bytes.len() {
        Err(LrbReadErrorV::Io)
    } else {
        spec_read_scnlines(
            bytes,
            pos + 36,
            (n - 1) as nat,
            TrackBuilderV {
                line_group: LineGroupBuilderV {
                    scenery_lines: bv.line_group.scenery_lines.push(
                        spec_scnline_record(bytes, pos),
                    ),
                    ..bv.line_group
                },
                ..bv
            },
        )
    }
}

/// The scenery-lines payload: a little-endian 32-bit record count, then
/// the records.
pub open spec fn spec_handle_scnline(bytes: Seq<u8>, pos: int, bv: TrackBuilderV) -> Result<
    (TrackBuilderV, int),
    LrbReadErrorV,
> {
    if pos + 4 > bytes.len() {
        Err(LrbReadErrorV::Io)
    } else {
        spec_read_scnlines(bytes, pos + 4, le32_at(bytes, pos) as nat, bv)
    }
}

#[verifier::loop_isolation(false)]
fn handle_scnline(cursor: &mut ByteCursor, builder: &mut TrackBuilder) -> (r: Result<
    (),
    LrbReadError,
>)
    ensures
        final(cursor)@.bytes == old(cursor)@.bytes,
        match r {
            Ok(_) => spec_handle_scnline(
                old(cursor)@.bytes,
                old(cursor)@.pos as int,
                old(builder)@,
            ) matches Ok(res) && final(builder)@ == res.0,
            Err(e) => spec_handle_scnline(
                old(cursor)@.bytes,
                old(cursor)@.pos as int,
                old(builder)@,
            ) matches Err(ev) && e@ == ev,
        },
{
    let ghost bytes = cursor@.bytes;
    let ghost bv0 = builder@;
    let count = match cursor.read_u32_le() {
        Ok(c) => c,
        Err(e) => {
            return Err(e);
        },
    };
    let lg = builder.line_group();
    let mut i: u32 = 0;
    while i < count
        invariant
            i <= count,
            cursor@.bytes == bytes,
            spec_handle_scnline(bytes, old(cursor)@.pos as int, bv0) == spec_read_scnlines(
                bytes,
                cursor@.pos as int,
                (count - i) as nat,
                TrackBuilderV { line_group: lg@, ..bv0 },
            ),
        decreases count - i,
    {
        let id = match cursor.read_u32_le() {
            Ok(v) => v,
            Err(e) => {
                return Err(e);
            },
        };
        let x1 = match cursor.read_u64_le() {
            Ok(v) => v,
            Err(e) => {
                return Err(e);
            },
        };
        let y1 = match cursor.read_u64_le() {
            Ok(v) => v,
            Err(e) => {
                return Err(e);
            },
        };
        let x2 = match cursor.read_u64_le() {
            Ok(v) => v,
            Err(e) => {
                return Err(e);
            },
        };
        let y2 = match cursor.read_u64_le() {
            Ok(v) => v,
            Err(e) => {
                return Err(e);
            },
        };
        let endpoints = (
            Vec2 { x: Scalar { bits: x1 }, y: Scalar { bits: y1 } },
            Vec2 { x: Scalar { bits: x2 }, y: Scalar { bits: y2 } },
        );
        lg.add_scenery_line(id, endpoints).unwrap();
        i = i + 1;
    }
    Ok(())
}

/// What the handler registered for `m` does to the builder, reading
/// from `pos`.
pub open spec fn spec_handle_mod(
    m: SupportedMod,
    bytes: Seq<u8>,
    pos: int,
    bv: TrackBuilderV,
) -> Result<(TrackBuilderV, int), LrbReadErrorV> {
    match m {
        SupportedMod::GridVer => spec_handle_gridver(bytes, pos, bv),
        SupportedMod::Label => spec_handle_label(bytes, pos, bv),
        SupportedMod::SimLine => spec_handle_simline(bytes, pos, bv),
        SupportedMod::ScnLine => spec_handle_scnline(bytes, pos, bv),
        SupportedMod::StartOffset => spec_handle_startoffset(bytes, pos, bv),
        SupportedMod::ZeroStart => spec_handle_zerostart(bytes, pos, bv),
    }
}

fn handle_mod(m: SupportedMod, cursor: &mut ByteCursor, builder: &mut TrackBuilder) -> (r: Result<
    (),
    LrbReadError,
>)
    ensures
        final(cursor)@.bytes == old(cursor)@.bytes,
        match r {
            Ok(_) => spec_handle_mod(
                m,
                old(cursor)@.bytes,
                old(cursor)@.pos as int,
                old(builder)@,
            ) matches Ok(res) && final(builder)@ == res.0,
            Err(e) => spec_handle_mod(
                m,
                old(cursor)@.bytes,
                old(cursor)@.pos as int,
                old(builder)@,
            ) matches Err(ev) && e@ == ev,
        },
{
    match m {
        SupportedMod::GridVer => handle_gridver(cursor, builder),
        SupportedMod::Label => handle_label(cursor, builder),
        SupportedMod::SimLine => handle_simline(cursor, builder),
        SupportedMod::ScnLine => handle_scnline(cursor, builder),
        SupportedMod::StartOffset => handle_startoffset(cursor, builder),
        SupportedMod::ZeroStart => handle_zerostart(cursor, builder),
    }
}

/// The views of a warning list.
pub open spec fn views_of_warnings(ws: Seq<LrbReadWarning>) -> Seq<LrbReadWarningV> {
    ws.map_values(|w: LrbReadWarning| w@)
}

/// The length byte of the entry at `pos`.
pub open spec fn spec_entry_name_len(bytes: Seq<u8>, pos: int) -> int {
    bytes[pos] as int
}

/// The name bytes of the entry at `pos`.
pub open spec fn spec_entry_name_bytes(bytes: Seq<u8>, pos: int) -> Seq<u8> {
    bytes.subrange(pos + 1, pos + 1 + spec_entry_name_len(bytes, pos))
}

/// The name of the entry at `pos`.
pub open spec fn spec_entry_name(bytes: Seq<u8>, pos: int) -> Seq<char> {
    decode_utf8(spec_entry_name_bytes(bytes, pos))
}

/// Where the entry's version, flags and optional payload address start.
pub open spec fn spec_entry_meta_pos(bytes: Seq<u8>, pos: int) -> int {
    pos + 1 + spec_entry_name_len(bytes, pos)
}

/// The version of the entry at `pos`.
pub open spec fn spec_entry_version(bytes: Seq<u8>, pos: int) -> u16 {
    le16_at(bytes, spec_entry_meta_pos(bytes, pos))
}

/// The flag byte of the entry at `pos`.
pub open spec fn spec_entry_flags(bytes: Seq<u8>, pos: int) -> u8 {
    bytes[spec_entry_meta_pos(bytes, pos) + 2]
}

/// Whether the entry at `pos` records a payload address.
pub open spec fn spec_entry_has_extra(bytes: Seq<u8>, pos: int) -> bool {
    spec_entry_flags(bytes, pos) & EXTRA_DATA != 0
}

/// The recorded payload offset of the entry at `pos`.
pub open spec fn spec_entry_offset(bytes: Seq<u8>, pos: int) -> int {
    le64_at(bytes, spec_entry_meta_pos(bytes, pos) + 3) as int
}

/// Where the entry after the one at `pos` starts.
pub open spec fn spec_entry_end(bytes: Seq<u8>, pos: int) -> int {
    spec_entry_meta_pos(bytes, pos) + (if spec_entry_has_extra(bytes, pos) {
        19int
    } else {
        3int
    })
}

/// Whether the stream holds the whole entry at `pos`, with a valid
/// UTF-8 name.
pub open spec fn spec_entry_parses(bytes: Seq<u8>, pos: int) -> bool {
    &&& 0 <= pos
    &&& pos + 1 <= bytes.len()
    &&& pos + 1 + spec_entry_name_len(bytes, pos) <= bytes.len()
    &&& valid_utf8(spec_entry_name_bytes(bytes, pos))
    &&& spec_entry_meta_pos(bytes, pos) + 3 <= bytes.len()
    &&& (spec_entry_has_extra(bytes, pos) ==> spec_entry_meta_pos(bytes, pos) + 19
        <= bytes.len())
}

/// `n` mod-table entries decoded from `pos`: each entry parses its
/// name, version and flags; a supported entry runs its handler (at the
/// recorded payload offset when the extra-data bit is set, at the
/// entry's end otherwise) and decoding continues at the entry's end; an
/// unsupported required entry aborts; an unsupported optional entry
/// appends a warning.
pub open spec fn spec_read_entries(
    bytes: Seq<u8>,
    pos: int,
    n: nat,
    bv: TrackBuilderV,
    warns: Seq<LrbReadWarningV>,
) -> Result<(TrackBuilderV, Seq<LrbReadWarningV>, int), LrbReadErrorV>
    decreases n,
{
    if n == 0 {
        Ok((bv, warns, pos))
    } else if pos + 1 > bytes.len() {
        Err(LrbReadErrorV::Io)
    } else if pos + 1 + spec_entry_name_len(bytes, pos) > bytes.len() {
        Err(LrbReadErrorV::Io)
    } else if !valid_utf8(spec_entry_name_bytes(bytes, pos)) {
        Err(LrbReadErrorV::FromUTF8Error)
    } else if spec_entry_meta_pos(bytes, pos) + 3 > bytes.len() {
        Err(LrbReadErrorV::Io)
    } else if spec_entry_has_extra(bytes, pos) && spec_entry_meta_pos(bytes, pos) + 19
        > bytes.len() {
        Err(LrbReadErrorV::Io)
    } else {
        let name = spec_entry_name(bytes, pos);
        let version = spec_entry_version(bytes, pos);
        let flags = spec_entry_flags(bytes, pos);
        let entry_end = spec_entry_end(bytes, pos);
        match spec_supported_mod(name, version) {
            Some(m) => {
                let hpos = if spec_entry_has_extra(bytes, pos) {
                    spec_entry_offset(bytes, pos)
                } else {
                    entry_end
                };
                match spec_handle_mod(m, bytes, hpos, bv) {
                    Err(e) => Err(e),
                    Ok(res) => spec_read_entries(bytes, entry_end, (n - 1) as nat, res.0, warns),
                }
            },
            None => {
                if flags & REQUIRED != 0 {
                    Err(LrbReadErrorV::UnsupportedRequiredMod { name, version })
                } else {
                    spec_read_entries(
                        bytes,
                        entry_end,
                        (n - 1) as nat,
                        bv,
                        warns.push(
                            LrbReadWarningV::UnsupportedMod(
                                UnsupportedModWarningV {
                                    name,
                                    version,
                                    affects_physics: flags & PHYSICS != 0,
                                    affects_camera: flags & CAMERA != 0,
                                    affects_scenery: flags & SCENERY != 0,
                                },
                            ),
                        ),
                    )
                }
            },
        }
    }
}

/// The decode of a whole container: the magic literal `LRB`, the
/// (unvalidated) format version byte, the mod count, the mod table, and
/// the finalized track with the warnings gathered along the way.
pub open spec fn spec_read(bytes: Seq<u8>) -> Result<
    (TrackV, Seq<LrbReadWarningV>),
    LrbReadErrorV,
> {
    if bytes.len() < 3 {
        Err(LrbReadErrorV::Io)
    } else if bytes.subrange(0, 3) != seq![76u8, 82u8, 66u8] {
        Err(
            LrbReadErrorV::InvalidData {
                name: "magic_number"@,
                value: spec_hex_string(bytes.subrange(0, 3)),
            },
        )
    } else if bytes.len() < 4 {
        Err(LrbReadErrorV::Io)
    } else if bytes.len() < 6 {
        Err(LrbReadErrorV::Io)
    } else {
        match spec_read_entries(
            bytes,
            6,
            le16_at(bytes, 4) as nat,
            TrackBuilderV::empty(),
            Seq::empty(),
        ) {
            Err(e) => Err(e),
            Ok(res) => match spec_build_track(res.0) {
                Err(e) => Err(LrbReadErrorV::TrackBuilderError(e)),
                Ok(tv) => Ok((tv, res.1)),
            },
        }
    }
}

/// Decodes a binary container into a track, surfacing the warnings for
/// unsupported optional mods; see [`spec_read`] for exactly what is
/// returned for every input.
#[verifier::loop_isolation(false)]
pub fn read(data: Vec<u8>) -> (r: Result<(Track, Vec<LrbReadWarning>), LrbReadError>)
    ensures
        match r {
            Ok(out) => spec_read(data@) matches Ok(res) && out.0@ == res.0 && views_of_warnings(
                out.1@,
            ) == res.1,
            Err(e) => spec_read(data@) matches Err(ev) && e@ == ev,
        },
{
    let ghost bytes = data@;
    let mut cursor = ByteCursor::new(data);
    let mut builder = TrackBuilder::new();
    let mut warnings: Vec<LrbReadWarning> = Vec::new();
    let magic = match cursor.read_bytes(3) {
        Ok(m) => m,
        Err(e) => {
            return Err(e);
        },
    };
    if !(magic[0] == 76 && magic[1] == 82 && magic[2] == 66) {
        proof {
            assert(bytes.subrange(0, 3) != seq![76u8, 82u8, 66u8]) by {
                if bytes.subrange(0, 3) == seq![76u8, 82u8, 66u8] {
                    assert(magic@[0] == 76 && magic@[1] == 82 && magic@[2] == 66);
                }
            }
        }
        return Err(
            LrbReadError::InvalidData {
                name: ("magic_number").to_owned(),
                value: bytes_to_hex_string(magic.as_slice()),
            },
        );
    }
    proof {
        assert(bytes.subrange(0, 3) =~= seq![76u8, 82u8, 66u8]);
    }
    let _version = match cursor.read_u8() {
        Ok(v) => v,
        Err(e) => {
            return Err(e);
        },
    };
    let mod_count = match cursor.read_u16_le() {
        Ok(c) => c,
        Err(e) => {
            return Err(e);
        },
    };
    proof {
        assert(le16_at(bytes, 4) == mod_count);
        assert(views_of_warnings(warnings@) =~= Seq::<LrbReadWarningV>::empty());
    }
    let mut i: u16 = 0;
    while i < mod_count
        invariant
            i <= mod_count,
            cursor@.bytes == bytes,
            spec_read(bytes) == match spec_read_entries(
                bytes,
                cursor@.pos as int,
                (mod_count - i) as nat,
                builder@,
                views_of_warnings(warnings@),
            ) {
                Err(e) => Err(e),
                Ok(res) => match spec_build_track(res.0) {
                    Err(e) => Err(LrbReadErrorV::TrackBuilderError(e)),
                    Ok(tv) => Ok((tv, res.1)),
                },
            },
        decreases mod_count - i,
    {
        let name_len = match cursor.read_u8() {
            Ok(v) => v,
            Err(e) => {
                return Err(e);
            },
        };
        let name_bytes = match cursor.read_bytes(name_len as usize) {
            Ok(v) => v,
            Err(e) => {
                return Err(e);
            },
        };
        let name = match string_from_utf8(name_bytes) {
            Some(s) => s,
            None => {
                return Err(LrbReadError::FromUTF8Error);
            },
        };
        let version = match cursor.read_u16_le() {
            Ok(v) => v,
            Err(e) => {
                return Err(e);
            },
        };
        let flags = match cursor.read_u8() {
            Ok(v) => v,
            Err(e) => {
                return Err(e);
            },
        };
        let has_extra = flags & EXTRA_DATA != 0;
        let mut offset: u64 = 0;
        if has_extra {
            offset = match cursor.read_u64_le() {
                Ok(v) => v,
                Err(e) => {
                    return Err(e);
                },
            };
            let _length = match cursor.read_u64_le() {
                Ok(v) => v,
                Err(e) => {
                    return Err(e);
                },
            };
        }
        let entry_end = cursor.position();
        match supported_mod(name.as_str(), version) {
            Some(m) => {
                if has_extra {
                    cursor.seek(offset);
                }
                match handle_mod(m, &mut cursor, &mut builder) {
                    Ok(_) => {},
                    Err(e) => {
                        return Err(e);
                    },
                }
                cursor.seek(entry_end);
            },
            None => {
                if flags & REQUIRED != 0 {
                    return Err(LrbReadError::UnsupportedRequiredMod { name, version });
                }
                let mut w = UnsupportedModWarning::new(name, version);
                if flags & SCENERY != 0 {
                    w.scenery();
                }
                if flags & CAMERA != 0 {
                    w.camera();
                }
                if flags & PHYSICS != 0 {
                    w.physics();
                }
                let ghost prev = warnings@;
                warnings.push(LrbReadWarning::UnsupportedMod(w));
                proof {
                    assert(views_of_warnings(warnings@) =~= views_of_warnings(prev).push(
                        LrbReadWarning::UnsupportedMod(w)@,
                    ));
                }
            },
        }
        i = i + 1;
    }
    match builder.build() {
        Ok(t) => Ok((t, warnings)),
        Err(e) => Err(LrbReadError::TrackBuilderError(e)),
    }
}


/// A container whose first three bytes are anything but the magic
/// literal fails with `InvalidData` naming `magic_number` and carrying
/// the observed bytes as a hexadecimal string.
pub proof fn lemma_bad_magic(bytes: Seq<u8>)
    requires
        bytes.len() >= 3,
        bytes.subrange(0, 3) != seq![76u8, 82u8, 66u8],
    ensures
        spec_read(bytes) == Err::<(TrackV, Seq<LrbReadWarningV>), LrbReadErrorV>(
            LrbReadErrorV::InvalidData {
                name: "magic_number"@,
                value: spec_hex_string(bytes.subrange(0, 3)),
            },
        ),
{
}

/// Cursor symmetry: a parseable entry whose `(name, version)` is in the
/// registry and whose extra-data bit is clear runs its handler at the
/// entry's own end, and on success decoding continues exactly at the
/// start of the next entry — the table position is unaffected by the
/// dispatch.
pub proof fn lemma_supported_entry_dispatch(
    bytes: Seq<u8>,
    pos: int,
    n: nat,
    bv: TrackBuilderV,
    warns: Seq<LrbReadWarningV>,
)
    requires
        n > 0,
        spec_entry_parses(bytes, pos),
        spec_supported_mod(spec_entry_name(bytes, pos), spec_entry_version(bytes, pos)) is Some,
        !spec_entry_has_extra(bytes, pos),
    ensures
        spec_read_entries(bytes, pos, n, bv, warns) == (match spec_handle_mod(
            spec_supported_mod(spec_entry_name(bytes, pos), spec_entry_version(bytes, pos))->0,
            bytes,
            spec_entry_end(bytes, pos),
            bv,
        ) {
            Err(e) => Err(e),
            Ok(res) => spec_read_entries(
                bytes,
                spec_entry_end(bytes, pos),
                (n - 1) as nat,
                res.0,
                warns,
            ),
        }),
{
}

/// A parseable entry whose `(name, version)` is not in the registry and
/// whose required bit is set aborts the whole decode with
/// `UnsupportedRequiredMod` carrying that name and version.
pub proof fn lemma_required_unsupported_mod(
    bytes: Seq<u8>,
    pos: int,
    n: nat,
    bv: TrackBuilderV,
    warns: Seq<LrbReadWarningV>,
)
    requires
        n > 0,
        spec_entry_parses(bytes, pos),
        spec_supported_mod(spec_entry_name(bytes, pos), spec_entry_version(bytes, pos)) is None,
        spec_entry_flags(bytes, pos) & REQUIRED != 0,
    ensures
        spec_read_entries(bytes, pos, n, bv, warns) == Err::<
            (TrackBuilderV, Seq<LrbReadWarningV>, int),
            LrbReadErrorV,
        >(
            LrbReadErrorV::UnsupportedRequiredMod {
                name: spec_entry_name(bytes, pos),
                version: spec_entry_version(bytes, pos),
            },
        ),
{
}

/// A parseable entry whose `(name, version)` is not in the registry and
/// whose required bit is clear does not fail: decoding continues at the
/// next entry with an appended warning carrying the entry's name and
/// version and the physics/camera/scenery bits of its flag byte.
pub proof fn lemma_optional_unsupported_mod(
    bytes: Seq<u8>,
    pos: int,
    n: nat,
    bv: TrackBuilderV,
    warns: Seq<LrbReadWarningV>,
)
    requires
        n > 0,
        spec_entry_parses(bytes, pos),
        spec_supported_mod(spec_entry_name(bytes, pos), spec_entry_version(bytes, pos)) is None,
        spec_entry_flags(bytes, pos) & REQUIRED == 0,
    ensures
        spec_read_entries(bytes, pos, n, bv, warns) == spec_read_entries(
            bytes,
            spec_entry_end(bytes, pos),
            (n - 1) as nat,
            bv,
            warns.push(
                LrbReadWarningV::UnsupportedMod(
                    UnsupportedModWarningV {
                        name: spec_entry_name(bytes, pos),
                        version: spec_entry_version(bytes, pos),
                        affects_physics: spec_entry_flags(bytes, pos) & PHYSICS != 0,
                        affects_camera: spec_entry_flags(bytes, pos) & CAMERA != 0,
                        affects_scenery: spec_entry_flags(bytes, pos) & SCENERY != 0,
                    },
                ),
            ),
        ),
{
}

} // verus!
