//! Authority-seated identities for the strict coordination interface.
//!
//! These opaque identities and canonical-order values are minted state.
//! None is derived from spelling, source position, or Rust representation.
use vstd::prelude::*;

verus! {

/// A seat of the authority: a spelling, its local identity and its
/// canonical order.
#[derive(Clone, Copy, Debug, Eq, PartialEq)]
pub struct AuthoritySeat {
    pub spelling: &'static str,
    pub local: u16,
    pub canonical: u64,
}

impl AuthoritySeat {
    pub fn new(spelling: &'static str, local: u16, canonical: u64) -> (seat: Self)
        ensures
            seat == (AuthoritySeat { spelling, local, canonical }),
    {
        Self { spelling, local, canonical }
    }
}

/// A declaration seated in the interface; a variant names the local
/// identity of the declaration that owns it.
#[derive(Clone, Copy, Debug, Eq, PartialEq)]
pub struct DeclarationSeat {
    pub owner_local: Option<u16>,
    pub spelling: &'static str,
    pub local: u16,
    pub canonical: u64,
}

impl DeclarationSeat {
    pub fn new(owner_local: Option<u16>, spelling: &'static str, local: u16, canonical: u64) -> (seat: Self)
        ensures
            seat == (DeclarationSeat { owner_local, spelling, local, canonical }),
    {
        Self { owner_local, spelling, local, canonical }
    }
}

pub const AUTHORITY_IDENTITY: [u8; 32] = [68, 230, 144, 32, 240, 2, 227, 106, 51, 1, 105, 49, 52, 2, 96, 70, 65, 181, 17, 220, 32, 165, 226, 191, 14, 26, 243, 97, 175, 4, 105, 92];

pub const AUTHORITY_REVISION: u64 = 1;

pub const GRAMMAR_DOCUMENT_LOCAL: u16 = 38507;

pub const GRAMMAR_SYNTAX_LOCAL: u16 = 44879;

pub const RUST_VOCABULARY_LOCALS: [u16; 10] = [33198, 30525, 58862, 40508, 28089, 48079, 45548, 58097, 50465, 41343,];

/// The seats of the authority's own vocabulary, in canonical listing order.
pub open spec fn spec_authority_seats() -> Seq<AuthoritySeat> {
    seq![
        AuthoritySeat { spelling: "Interface", local: 2339, canonical: 0x69de7fd166248bf9 },
        AuthoritySeat { spelling: "Nexus", local: 3235, canonical: 0x331959aa1e843299 },
        AuthoritySeat { spelling: "Sema", local: 29501, canonical: 0xe2a4350c99ae55dd },
        AuthoritySeat { spelling: "Input", local: 8732, canonical: 0x8894b5ef0707c2a2 },
        AuthoritySeat { spelling: "Output", local: 24382, canonical: 0xcb74b215d6f48caf },
        AuthoritySeat { spelling: "Refusal", local: 41050, canonical: 0x5845b33dbf737f51 },
        AuthoritySeat { spelling: "String", local: 22764, canonical: 0x40799e630ab7d6fe },
        AuthoritySeat { spelling: "Integer", local: 37512, canonical: 0x4d7a0baceb981840 },
        AuthoritySeat { spelling: "Boolean", local: 5827, canonical: 0xa8b18a6031e7376e },
        AuthoritySeat { spelling: "Unit", local: 57783, canonical: 0x99dee585f7a5ed28 },
        AuthoritySeat { spelling: "Vector", local: 54192, canonical: 0x72811aca319e44ad },
        AuthoritySeat { spelling: "Option", local: 53590, canonical: 0xfca9637601fb9618 },
        AuthoritySeat { spelling: "Map", local: 27798, canonical: 0x552f219cb39f22ba },
        AuthoritySeat { spelling: "Result", local: 28566, canonical: 0xf297d74464de032a },
        AuthoritySeat { spelling: "Stream", local: 35711, canonical: 0x6d525d7c5ec015fa },
        AuthoritySeat { spelling: "StreamIdentity", local: 49810, canonical: 0x6de2d2bfea0bd258 },
    ]
}

/// The seated declarations of the interface, in listing order.
pub open spec fn spec_declaration_seats() -> Seq<DeclarationSeat> {
    seq![
        DeclarationSeat { owner_local: None, spelling: "RoleIdentifier", local: 18813, canonical: 0xc18dc23f2855c622 },
        DeclarationSeat { owner_local: None, spelling: "RoleToken", local: 1120, canonical: 0x24f34f663a0b27fc },
        DeclarationSeat { owner_local: None, spelling: "RoleTokens", local: 45989, canonical: 0x655eb2f25d73d986 },
        DeclarationSeat { owner_local: None, spelling: "Role", local: 2890, canonical: 0xc28e88d406d76a18 },
        DeclarationSeat { owner_local: None, spelling: "SessionIdentifier", local: 50058, canonical: 0x24f80168fb9c28cc },
        DeclarationSeat { owner_local: None, spelling: "LaneAuthority", local: 35255, canonical: 0x22678e98dac598dc },
        DeclarationSeat { owner_local: Some(35255), spelling: "Structural", local: 10352, canonical: 0x1246e699db97d798 },
        DeclarationSeat { owner_local: Some(35255), spelling: "Support", local: 19874, canonical: 0x02aceb280b52b392 },
        DeclarationSeat { owner_local: None, spelling: "LaneIdentifier", local: 54152, canonical: 0x5eee72f3aa5e4483 },
        DeclarationSeat { owner_local: None, spelling: "LaneDetails", local: 13910, canonical: 0xe9a6e5cf89716671 },
        DeclarationSeat { owner_local: None, spelling: "LaneStatus", local: 38511, canonical: 0xccf157a5dcfc538e },
        DeclarationSeat { owner_local: Some(38511), spelling: "Active", local: 25909, canonical: 0xdbdcb29e05359a83 },
        DeclarationSeat { owner_local: Some(38511), spelling: "Released", local: 37919, canonical: 0x7dd6c1fa851f3b36 },
        DeclarationSeat { owner_local: Some(38511), spelling: "HandoverEnded", local: 19557, canonical: 0x26152ca411e24183 },
        DeclarationSeat { owner_local: Some(38511), spelling: "Suspect", local: 29745, canonical: 0xa9f10bba5c4d9da5 },
        DeclarationSeat { owner_local: None, spelling: "LaneOwner", local: 60928, canonical: 0x2871564b95671aee },
        DeclarationSeat { owner_local: None, spelling: "LaneAssignment", local: 27344, canonical: 0xde460fb2861a4046 },
        DeclarationSeat { owner_local: None, spelling: "WirePath", local: 17604, canonical: 0xc8bb6282ea3ae316 },
        DeclarationSeat { owner_local: None, spelling: "TaskToken", local: 35445, canonical: 0x28a88086be60cd5d },
        DeclarationSeat { owner_local: None, spelling: "ScopeReason", local: 54049, canonical: 0xa3abd67cebe4e2e5 },
        DeclarationSeat { owner_local: None, spelling: "ScopeReference", local: 19965, canonical: 0xbaf34e66a9fcbde8 },
        DeclarationSeat { owner_local: Some(19965), spelling: "Path", local: 35878, canonical: 0xdcbc5e6bb33972d9 },
        DeclarationSeat { owner_local: Some(19965), spelling: "Task", local: 2475, canonical: 0x747f183c297ae485 },
        DeclarationSeat { owner_local: None, spelling: "TimestampNanos", local: 33829, canonical: 0x98258b7179bcb42a },
        DeclarationSeat { owner_local: None, spelling: "DurationNanos", local: 22250, canonical: 0x27627ac30a599eb6 },
        DeclarationSeat { owner_local: None, spelling: "ScopeReferences", local: 62109, canonical: 0xcf31d6cad52338f0 },
        DeclarationSeat { owner_local: None, spelling: "ScopeConflict", local: 14058, canonical: 0xacf9a8b13d2ebb57 },
        DeclarationSeat { owner_local: None, spelling: "ScopeConflicts", local: 70, canonical: 0xc9796959fff6cec8 },
        DeclarationSeat { owner_local: None, spelling: "LaneResourceClaim", local: 5646, canonical: 0xa813727d0c357838 },
        DeclarationSeat { owner_local: None, spelling: "LaneResourceClaims", local: 40524, canonical: 0x115865840403164e },
        DeclarationSeat { owner_local: None, spelling: "RepositoryName", local: 41447, canonical: 0x6dff24b045bdffed },
        DeclarationSeat { owner_local: None, spelling: "BranchName", local: 60207, canonical: 0x342fc257ac2768d6 },
        DeclarationSeat { owner_local: None, spelling: "LaneName", local: 26299, canonical: 0x83da2699de7f2eae },
        DeclarationSeat { owner_local: None, spelling: "PurposeText", local: 26939, canonical: 0xf7d41a35f53eaf27 },
        DeclarationSeat { owner_local: None, spelling: "WorktreeStatus", local: 53683, canonical: 0xc3d3284888cac593 },
        DeclarationSeat { owner_local: Some(53683), spelling: "Active", local: 52230, canonical: 0xefdcd93a051bd69a },
        DeclarationSeat { owner_local: Some(53683), spelling: "Merged", local: 9150, canonical: 0x3b1f5f38ac8cc479 },
        DeclarationSeat { owner_local: Some(53683), spelling: "Archived", local: 31701, canonical: 0xf31c5975e2a57aa3 },
        DeclarationSeat { owner_local: Some(53683), spelling: "Recycled", local: 31145, canonical: 0xd0145e04c52f409c },
        DeclarationSeat { owner_local: Some(53683), spelling: "Abandoned", local: 9520, canonical: 0x94b5b05c95b1cfb2 },
        DeclarationSeat { owner_local: None, spelling: "PushedState", local: 38542, canonical: 0xd34dfd9f1d2dddad },
        DeclarationSeat { owner_local: Some(38542), spelling: "Unpushed", local: 12630, canonical: 0x0167307e349f1268 },
        DeclarationSeat { owner_local: Some(38542), spelling: "Pushed", local: 36160, canonical: 0x687fbfadcfd8b2e8 },
        DeclarationSeat { owner_local: Some(38542), spelling: "AncestorOfMain", local: 33840, canonical: 0x878eece4e9153d6d },
        DeclarationSeat { owner_local: None, spelling: "Worktree", local: 54130, canonical: 0x212a7e0a28e80d97 },
        DeclarationSeat { owner_local: None, spelling: "Worktrees", local: 64126, canonical: 0xaedfd8c299c7904c },
        DeclarationSeat { owner_local: None, spelling: "RoleClaim", local: 28689, canonical: 0x6a5d10a302453dfe },
        DeclarationSeat { owner_local: None, spelling: "RoleRelease", local: 5325, canonical: 0x044f7344915ad4fd },
        DeclarationSeat { owner_local: None, spelling: "ClaimAcceptance", local: 41300, canonical: 0xc5183ad723f0ec2e },
        DeclarationSeat { owner_local: None, spelling: "ClaimRejection", local: 39724, canonical: 0xeac6ff03ecd92438 },
        DeclarationSeat { owner_local: None, spelling: "ReleaseAcknowledgment", local: 54599, canonical: 0xf4d1978e340ba0b9 },
    ]
}

/// The seat of `Interface`.
pub fn interface_seat() -> (seat: AuthoritySeat)
    ensures
        seat == spec_authority_seats()[0],
        seat.local == 2339,
        seat.canonical == 0x69de7fd166248bf9,
{
    AuthoritySeat::new("Interface", 2339, 0x69de7fd166248bf9)
}

/// The seat of `Nexus`.
pub fn nexus_seat() -> (seat: AuthoritySeat)
    ensures
        seat == spec_authority_seats()[1],
        seat.local == 3235,
        seat.canonical == 0x331959aa1e843299,
{
    AuthoritySeat::new("Nexus", 3235, 0x331959aa1e843299)
}

/// The seat of `Sema`.
pub fn sema_seat() -> (seat: AuthoritySeat)
    ensures
        seat == spec_authority_seats()[2],
        seat.local == 29501,
        seat.canonical == 0xe2a4350c99ae55dd,
{
    AuthoritySeat::new("Sema", 29501, 0xe2a4350c99ae55dd)
}

/// The seat of `Input`.
pub fn input_seat() -> (seat: AuthoritySeat)
    ensures
        seat == spec_authority_seats()[3],
        seat.local == 8732,
        seat.canonical == 0x8894b5ef0707c2a2,
{
    AuthoritySeat::new("Input", 8732, 0x8894b5ef0707c2a2)
}

/// The seat of `Output`.
pub fn output_seat() -> (seat: AuthoritySeat)
    ensures
        seat == spec_authority_seats()[4],
        seat.local == 24382,
        seat.canonical == 0xcb74b215d6f48caf,
{
    AuthoritySeat::new("Output", 24382, 0xcb74b215d6f48caf)
}

/// The seat of `Refusal`.
pub fn refusal_seat() -> (seat: AuthoritySeat)
    ensures
        seat == spec_authority_seats()[5],
        seat.local == 41050,
        seat.canonical == 0x5845b33dbf737f51,
{
    AuthoritySeat::new("Refusal", 41050, 0x5845b33dbf737f51)
}

/// The seat of `String`.
pub fn string_seat() -> (seat: AuthoritySeat)
    ensures
        seat == spec_authority_seats()[6],
        seat.local == 22764,
        seat.canonical == 0x40799e630ab7d6fe,
{
    AuthoritySeat::new("String", 22764, 0x40799e630ab7d6fe)
}

/// The seat of `Integer`.
pub fn integer_seat() -> (seat: AuthoritySeat)
    ensures
        seat == spec_authority_seats()[7],
        seat.local == 37512,
        seat.canonical == 0x4d7a0baceb981840,
{
    AuthoritySeat::new("Integer", 37512, 0x4d7a0baceb981840)
}

/// The seat of `Boolean`.
pub fn boolean_seat() -> (seat: AuthoritySeat)
    ensures
        seat == spec_authority_seats()[8],
        seat.local == 5827,
        seat.canonical == 0xa8b18a6031e7376e,
{
    AuthoritySeat::new("Boolean", 5827, 0xa8b18a6031e7376e)
}

/// The seat of `Unit`.
pub fn unit_seat() -> (seat: AuthoritySeat)
    ensures
        seat == spec_authority_seats()[9],
        seat.local == 57783,
        seat.canonical == 0x99dee585f7a5ed28,
{
    AuthoritySeat::new("Unit", 57783, 0x99dee585f7a5ed28)
}

/// The seat of `Vector`.
pub fn vector_seat() -> (seat: AuthoritySeat)
    ensures
        seat == spec_authority_seats()[10],
        seat.local == 54192,
        seat.canonical == 0x72811aca319e44ad,
{
    AuthoritySeat::new("Vector", 54192, 0x72811aca319e44ad)
}

/// The seat of `Option`.
pub fn option_seat() -> (seat: AuthoritySeat)
    ensures
        seat == spec_authority_seats()[11],
        seat.local == 53590,
        seat.canonical == 0xfca9637601fb9618,
{
    AuthoritySeat::new("Option", 53590, 0xfca9637601fb9618)
}

/// The seat of `Map`.
pub fn map_seat() -> (seat: AuthoritySeat)
    ensures
        seat == spec_authority_seats()[12],
        seat.local == 27798,
        seat.canonical == 0x552f219cb39f22ba,
{
    AuthoritySeat::new("Map", 27798, 0x552f219cb39f22ba)
}

/// The seat of `Result`.
pub fn result_seat() -> (seat: AuthoritySeat)
    ensures
        seat == spec_authority_seats()[13],
        seat.local == 28566,
        seat.canonical == 0xf297d74464de032a,
{
    AuthoritySeat::new("Result", 28566, 0xf297d74464de032a)
}

/// The seat of `Stream`.
pub fn stream_seat() -> (seat: AuthoritySeat)
    ensures
        seat == spec_authority_seats()[14],
        seat.local == 35711,
        seat.canonical == 0x6d525d7c5ec015fa,
{
    AuthoritySeat::new("Stream", 35711, 0x6d525d7c5ec015fa)
}

/// The seat of `StreamIdentity`.
pub fn stream_identity_seat() -> (seat: AuthoritySeat)
    ensures
        seat == spec_authority_seats()[15],
        seat.local == 49810,
        seat.canonical == 0x6de2d2bfea0bd258,
{
    AuthoritySeat::new("StreamIdentity", 49810, 0x6de2d2bfea0bd258)
}

/// The seats of the authority's own vocabulary: interface, nexus, sema,
/// input, output, refusal, and the primitive shapes.
pub fn authority_seats() -> (seats: Vec<AuthoritySeat>)
    ensures
        seats@ == spec_authority_seats(),
{
    let seats = vec![
        AuthoritySeat::new("Interface", 2339, 0x69de7fd166248bf9),
        AuthoritySeat::new("Nexus", 3235, 0x331959aa1e843299),
        AuthoritySeat::new("Sema", 29501, 0xe2a4350c99ae55dd),
        AuthoritySeat::new("Input", 8732, 0x8894b5ef0707c2a2),
        AuthoritySeat::new("Output", 24382, 0xcb74b215d6f48caf),
        AuthoritySeat::new("Refusal", 41050, 0x5845b33dbf737f51),
        AuthoritySeat::new("String", 22764, 0x40799e630ab7d6fe),
        AuthoritySeat::new("Integer", 37512, 0x4d7a0baceb981840),
        AuthoritySeat::new("Boolean", 5827, 0xa8b18a6031e7376e),
        AuthoritySeat::new("Unit", 57783, 0x99dee585f7a5ed28),
        AuthoritySeat::new("Vector", 54192, 0x72811aca319e44ad),
        AuthoritySeat::new("Option", 53590, 0xfca9637601fb9618),
        AuthoritySeat::new("Map", 27798, 0x552f219cb39f22ba),
        AuthoritySeat::new("Result", 28566, 0xf297d74464de032a),
        AuthoritySeat::new("Stream", 35711, 0x6d525d7c5ec015fa),
        AuthoritySeat::new("StreamIdentity", 49810, 0x6de2d2bfea0bd258),
    ];
    assert(seats@ =~= spec_authority_seats());
    seats
}

/// The seated declarations of the interface.
pub fn declaration_seats() -> (seats: Vec<DeclarationSeat>)
    ensures
        seats@ == spec_declaration_seats(),
{
    let seats = vec![
        DeclarationSeat::new(None, "RoleIdentifier", 18813, 0xc18dc23f2855c622),
        DeclarationSeat::new(None, "RoleToken", 1120, 0x24f34f663a0b27fc),
        DeclarationSeat::new(None, "RoleTokens", 45989, 0x655eb2f25d73d986),
        DeclarationSeat::new(None, "Role", 2890, 0xc28e88d406d76a18),
        DeclarationSeat::new(None, "SessionIdentifier", 50058, 0x24f80168fb9c28cc),
        DeclarationSeat::new(None, "LaneAuthority", 35255, 0x22678e98dac598dc),
        DeclarationSeat::new(Some(35255), "Structural", 10352, 0x1246e699db97d798),
        DeclarationSeat::new(Some(35255), "Support", 19874, 0x02aceb280b52b392),
        DeclarationSeat::new(None, "LaneIdentifier", 54152, 0x5eee72f3aa5e4483),
        DeclarationSeat::new(None, "LaneDetails", 13910, 0xe9a6e5cf89716671),
        DeclarationSeat::new(None, "LaneStatus", 38511, 0xccf157a5dcfc538e),
        DeclarationSeat::new(Some(38511), "Active", 25909, 0xdbdcb29e05359a83),
        DeclarationSeat::new(Some(38511), "Released", 37919, 0x7dd6c1fa851f3b36),
        DeclarationSeat::new(Some(38511), "HandoverEnded", 19557, 0x26152ca411e24183),
        DeclarationSeat::new(Some(38511), "Suspect", 29745, 0xa9f10bba5c4d9da5),
        DeclarationSeat::new(None, "LaneOwner", 60928, 0x2871564b95671aee),
        DeclarationSeat::new(None, "LaneAssignment", 27344, 0xde460fb2861a4046),
        DeclarationSeat::new(None, "WirePath", 17604, 0xc8bb6282ea3ae316),
        DeclarationSeat::new(None, "TaskToken", 35445, 0x28a88086be60cd5d),
        DeclarationSeat::new(None, "ScopeReason", 54049, 0xa3abd67cebe4e2e5),
        DeclarationSeat::new(None, "ScopeReference", 19965, 0xbaf34e66a9fcbde8),
        DeclarationSeat::new(Some(19965), "Path", 35878, 0xdcbc5e6bb33972d9),
        DeclarationSeat::new(Some(19965), "Task", 2475, 0x747f183c297ae485),
        DeclarationSeat::new(None, "TimestampNanos", 33829, 0x98258b7179bcb42a),
        DeclarationSeat::new(None, "DurationNanos", 22250, 0x27627ac30a599eb6),
        DeclarationSeat::new(None, "ScopeReferences", 62109, 0xcf31d6cad52338f0),
        DeclarationSeat::new(None, "ScopeConflict", 14058, 0xacf9a8b13d2ebb57),
        DeclarationSeat::new(None, "ScopeConflicts", 70, 0xc9796959fff6cec8),
        DeclarationSeat::new(None, "LaneResourceClaim", 5646, 0xa813727d0c357838),
        DeclarationSeat::new(None, "LaneResourceClaims", 40524, 0x115865840403164e),
        DeclarationSeat::new(None, "RepositoryName", 41447, 0x6dff24b045bdffed),
        DeclarationSeat::new(None, "BranchName", 60207, 0x342fc257ac2768d6),
        DeclarationSeat::new(None, "LaneName", 26299, 0x83da2699de7f2eae),
        DeclarationSeat::new(None, "PurposeText", 26939, 0xf7d41a35f53eaf27),
        DeclarationSeat::new(None, "WorktreeStatus", 53683, 0xc3d3284888cac593),
        DeclarationSeat::new(Some(53683), "Active", 52230, 0xefdcd93a051bd69a),
        DeclarationSeat::new(Some(53683), "Merged", 9150, 0x3b1f5f38ac8cc479),
        DeclarationSeat::new(Some(53683), "Archived", 31701, 0xf31c5975e2a57aa3),
        DeclarationSeat::new(Some(53683), "Recycled", 31145, 0xd0145e04c52f409c),
        DeclarationSeat::new(Some(53683), "Abandoned", 9520, 0x94b5b05c95b1cfb2),
        DeclarationSeat::new(None, "PushedState", 38542, 0xd34dfd9f1d2dddad),
        DeclarationSeat::new(Some(38542), "Unpushed", 12630, 0x0167307e349f1268),
        DeclarationSeat::new(Some(38542), "Pushed", 36160, 0x687fbfadcfd8b2e8),
        DeclarationSeat::new(Some(38542), "AncestorOfMain", 33840, 0x878eece4e9153d6d),
        DeclarationSeat::new(None, "Worktree", 54130, 0x212a7e0a28e80d97),
        DeclarationSeat::new(None, "Worktrees", 64126, 0xaedfd8c299c7904c),
        DeclarationSeat::new(None, "RoleClaim", 28689, 0x6a5d10a302453dfe),
        DeclarationSeat::new(None, "RoleRelease", 5325, 0x044f7344915ad4fd),
        DeclarationSeat::new(None, "ClaimAcceptance", 41300, 0xc5183ad723f0ec2e),
        DeclarationSeat::new(None, "ClaimRejection", 39724, 0xeac6ff03ecd92438),
        DeclarationSeat::new(None, "ReleaseAcknowledgment", 54599, 0xf4d1978e340ba0b9),
    ];
    assert(seats@ =~= spec_declaration_seats());
    seats
}

} // verus!
