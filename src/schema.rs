//! Field layouts of the record kinds that the body holds.
//!
//! The format carries no type tags: the kind of a record is known only from
//! the field that points at it, and each kind's layout is listed here once.
use vstd::prelude::*;

verus! {

/// The record kinds of the body.
#[derive(Debug, Clone, Copy, PartialEq, Eq, Structural)]
pub enum Kind {
    Joint,
    JointData,
    Mesh,
    Material,
    Color,
    Texture,
    Image,
    Palette,
    Transform,
    Weight,
    VertAttr,
    Display,
    Collision,
    Link,
    Area,
    HitBox,
    JointDataUnk1,
    JointDataUnk2,
    TexUnk,
    MatAnimJoint,
    MatAnim,
    TexAnim,
    AObjDesc,
    FObjDesc,
    MapHeadA,
    MapHeadB,
    MapHeadC,
    MapHeadD,
    MapHeadE,
    MapHeadF,
    MapHeadG,
    MapHeadH,
    MapHeadQ,
    MapJoint,
    MapPlitB,
    MapPlitC,
    MapPlitD,
    MapPlitE,
    QuakeMS,
    QuakeMSB,
    QuakeMSC,
    ItemData,
    GroundParam,
    Sub,
    Music
}

/// One field of a record, laid out right after the previous one.
#[derive(Debug, Clone, Copy, PartialEq, Eq, Structural)]
pub enum Shape {
    /// An 8-bit scalar.
    Byte,
    /// A big-endian 16-bit scalar.
    Half,
    /// A big-endian 32-bit scalar (floating-point fields are kept as their bits).
    Word,
    /// A 32-bit offset into untyped data, kept as it is.
    Raw,
    /// A 32-bit offset of a record of the given kind, or 0 for none.
    Ptr(Kind),
}

/// Byte width of a field.
pub open spec fn width(s: Shape) -> nat {
    match s {
        Shape::Byte => 1,
        Shape::Half => 2,
        _ => 4,
    }
}

/// Total byte width of a sequence of fields.
pub open spec fn span(s: Seq<Shape>) -> nat
    decreases s.len(),
{
    if s.len() == 0 {
        0
    } else {
        span(s.drop_last()) + width(s.last())
    }
}

/// The fields of a record of kind `k`, in order.
#[verifier::opaque]
pub open spec fn layout(k: Kind) -> Seq<Shape> {
    match k {
        Kind::Joint => seq![
            Shape::Word, Shape::Word, Shape::Ptr(Kind::Joint), Shape::Ptr(Kind::Joint),
            Shape::Ptr(Kind::JointData), Shape::Word, Shape::Word, Shape::Word, Shape::Word,
            Shape::Word, Shape::Word, Shape::Word, Shape::Word, Shape::Word,
            Shape::Ptr(Kind::Transform), Shape::Word,
        ],
        Kind::JointData => seq![
            Shape::Word, Shape::Ptr(Kind::JointData), Shape::Ptr(Kind::Material),
            Shape::Ptr(Kind::Mesh),
        ],
        Kind::Mesh => seq![
            Shape::Word, Shape::Ptr(Kind::Mesh), Shape::Ptr(Kind::VertAttr), Shape::Half,
            Shape::Half, Shape::Ptr(Kind::Display), Shape::Word,
        ],
        Kind::Material => seq![
            Shape::Word, Shape::Word, Shape::Ptr(Kind::Texture), Shape::Ptr(Kind::Color),
            Shape::Word, Shape::Raw,
        ],
        Kind::Color => seq![Shape::Word, Shape::Word, Shape::Word, Shape::Word, Shape::Word],
        Kind::Texture => seq![
            Shape::Word, Shape::Ptr(Kind::Texture), Shape::Word, Shape::Word, Shape::Word,
            Shape::Word, Shape::Word, Shape::Word, Shape::Word, Shape::Word, Shape::Word,
            Shape::Word, Shape::Word, Shape::Word, Shape::Word, Shape::Byte, Shape::Byte,
            Shape::Half, Shape::Word, Shape::Word, Shape::Word, Shape::Ptr(Kind::Image),
            Shape::Ptr(Kind::Palette), Shape::Word, Shape::Ptr(Kind::TexUnk),
        ],
        Kind::Image => seq![Shape::Raw, Shape::Half, Shape::Half, Shape::Word],
        Kind::Palette => seq![Shape::Raw, Shape::Word, Shape::Word, Shape::Half, Shape::Half],
        Kind::Transform => seq![
            Shape::Word, Shape::Word, Shape::Word, Shape::Word, Shape::Word, Shape::Word,
            Shape::Word, Shape::Word, Shape::Word, Shape::Word, Shape::Word, Shape::Word,
            Shape::Word, Shape::Word, Shape::Word, Shape::Word,
        ],
        Kind::Weight => seq![Shape::Ptr(Kind::Joint), Shape::Word],
        Kind::VertAttr => seq![
            Shape::Word, Shape::Word, Shape::Word, Shape::Word, Shape::Byte, Shape::Byte,
            Shape::Half, Shape::Raw,
        ],
        Kind::Display => seq![Shape::Byte, Shape::Byte, Shape::Half],
        Kind::Collision => seq![
            Shape::Raw, Shape::Word, Shape::Ptr(Kind::Link), Shape::Word, Shape::Half, Shape::Half,
            Shape::Half, Shape::Half, Shape::Half, Shape::Half, Shape::Half, Shape::Half,
            Shape::Half, Shape::Half, Shape::Ptr(Kind::Area), Shape::Word,
        ],
        Kind::Link => seq![
            Shape::Half, Shape::Half, Shape::Half, Shape::Half, Shape::Half, Shape::Half,
            Shape::Word,
        ],
        Kind::Area => seq![
            Shape::Half, Shape::Half, Shape::Half, Shape::Half, Shape::Half, Shape::Half,
            Shape::Half, Shape::Half, Shape::Word, Shape::Word, Shape::Word, Shape::Word,
            Shape::Word, Shape::Half, Shape::Half,
        ],
        Kind::HitBox => seq![
            Shape::Word, Shape::Half, Shape::Half, Shape::Half, Shape::Half, Shape::Word,
            Shape::Word,
        ],
        Kind::JointDataUnk1 => seq![
            Shape::Word, Shape::Ptr(Kind::JointDataUnk2), Shape::Ptr(Kind::JointDataUnk2),
            Shape::Ptr(Kind::JointDataUnk2),
        ],
        Kind::JointDataUnk2 => seq![],
        Kind::TexUnk => seq![
            Shape::Word, Shape::Word, Shape::Word, Shape::Word, Shape::Word, Shape::Word,
            Shape::Word, Shape::Word,
        ],
        Kind::MatAnimJoint => seq![
            Shape::Ptr(Kind::MatAnimJoint), Shape::Ptr(Kind::MatAnimJoint),
            Shape::Ptr(Kind::MatAnim), Shape::Ptr(Kind::AObjDesc), Shape::Ptr(Kind::TexAnim),
            Shape::Raw,
        ],
        Kind::MatAnim => seq![
            Shape::Ptr(Kind::MatAnim), Shape::Ptr(Kind::AObjDesc), Shape::Ptr(Kind::TexAnim),
            Shape::Raw,
        ],
        Kind::TexAnim => seq![
            Shape::Ptr(Kind::TexAnim), Shape::Word, Shape::Ptr(Kind::AObjDesc), Shape::Raw,
            Shape::Raw, Shape::Word, Shape::Word,
        ],
        Kind::AObjDesc => seq![Shape::Word, Shape::Word, Shape::Ptr(Kind::FObjDesc), Shape::Word],
        Kind::FObjDesc => seq![
            Shape::Ptr(Kind::FObjDesc), Shape::Word, Shape::Word, Shape::Word, Shape::Raw,
        ],
        Kind::MapHeadA => seq![
            Shape::Ptr(Kind::MapJoint), Shape::Word, Shape::Ptr(Kind::MapHeadB), Shape::Word,
            Shape::Ptr(Kind::JointDataUnk1), Shape::Word, Shape::Ptr(Kind::MapHeadE), Shape::Word,
            Shape::Raw, Shape::Word,
        ],
        Kind::MapHeadB => seq![
            Shape::Ptr(Kind::Joint), Shape::Ptr(Kind::MapHeadQ), Shape::Raw,
            Shape::Ptr(Kind::MapHeadF), Shape::Ptr(Kind::MapHeadC), Shape::Ptr(Kind::MapHeadH),
            Shape::Ptr(Kind::MapPlitB), Shape::Ptr(Kind::MapHeadD), Shape::Raw, Shape::Word,
            Shape::Word,
        ],
        Kind::MapHeadC => seq![
            Shape::Word, Shape::Word, Shape::Word, Shape::Word, Shape::Word, Shape::Word,
            Shape::Word, Shape::Word, Shape::Word, Shape::Word, Shape::Word, Shape::Word,
            Shape::Word, Shape::Word,
        ],
        Kind::MapHeadD => seq![
            Shape::Word, Shape::Word, Shape::Half, Shape::Half, Shape::Word,
            Shape::Ptr(Kind::MapHeadD),
        ],
        Kind::MapHeadE => seq![Shape::Ptr(Kind::MapPlitC)],
        Kind::MapHeadF => seq![
            Shape::Ptr(Kind::MapHeadF), Shape::Ptr(Kind::MapHeadF), Shape::Ptr(Kind::MapHeadG),
        ],
        Kind::MapHeadG => seq![Shape::Word, Shape::Word],
        Kind::MapHeadH => seq![
            Shape::Word, Shape::Word, Shape::Word, Shape::Word, Shape::Word,
            Shape::Ptr(Kind::MapHeadC), Shape::Ptr(Kind::MapHeadH),
        ],
        Kind::MapHeadQ => seq![
            Shape::Ptr(Kind::MapHeadQ), Shape::Ptr(Kind::MapHeadQ), Shape::Raw, Shape::Word,
            Shape::Word,
        ],
        Kind::MapJoint => seq![Shape::Ptr(Kind::Joint), Shape::Raw, Shape::Word],
        Kind::MapPlitB => seq![Shape::Ptr(Kind::MapPlitC), Shape::Ptr(Kind::MapPlitD)],
        Kind::MapPlitC => seq![
            Shape::Word, Shape::Word, Shape::Word, Shape::Half, Shape::Half, Shape::Word,
            Shape::Word, Shape::Word,
        ],
        Kind::MapPlitD => seq![Shape::Ptr(Kind::MapPlitE), Shape::Word],
        Kind::MapPlitE => seq![Shape::Word, Shape::Word, Shape::Word, Shape::Word],
        Kind::QuakeMS => seq![
            Shape::Word, Shape::Word, Shape::Ptr(Kind::QuakeMSB), Shape::Word,
            Shape::Ptr(Kind::QuakeMS),
        ],
        Kind::QuakeMSB => seq![Shape::Word, Shape::Word, Shape::Ptr(Kind::QuakeMSC)],
        Kind::QuakeMSC => seq![
            Shape::Ptr(Kind::QuakeMSC), Shape::Word, Shape::Word, Shape::Word, Shape::Raw,
        ],
        Kind::ItemData => seq![Shape::Word, Shape::Word],
        Kind::GroundParam => seq![
            Shape::Word, Shape::Word, Shape::Word, Shape::Word, Shape::Word, Shape::Word,
            Shape::Word, Shape::Word, Shape::Word, Shape::Word, Shape::Word, Shape::Word,
            Shape::Word, Shape::Word, Shape::Word, Shape::Word, Shape::Word, Shape::Word,
            Shape::Word, Shape::Word, Shape::Word, Shape::Word, Shape::Word, Shape::Word,
            Shape::Word, Shape::Half, Shape::Half, Shape::Half, Shape::Half, Shape::Half,
            Shape::Half, Shape::Half, Shape::Half, Shape::Half, Shape::Half, Shape::Half,
            Shape::Half, Shape::Half, Shape::Half, Shape::Half, Shape::Half, Shape::Half,
            Shape::Half, Shape::Half, Shape::Half, Shape::Half, Shape::Half, Shape::Half,
            Shape::Half, Shape::Half, Shape::Half, Shape::Half, Shape::Half, Shape::Half,
            Shape::Half, Shape::Half, Shape::Half, Shape::Half, Shape::Half, Shape::Half,
            Shape::Half, Shape::Half, Shape::Half, Shape::Half, Shape::Half,
            Shape::Ptr(Kind::Music), Shape::Word,
        ],
        Kind::Sub => seq![Shape::Half, Shape::Half],
        Kind::Music => seq![
            Shape::Word, Shape::Word, Shape::Word, Shape::Word, Shape::Word, Shape::Half,
            Shape::Half, Shape::Word, Shape::Word, Shape::Word, Shape::Word, Shape::Word,
            Shape::Word, Shape::Word, Shape::Word, Shape::Word, Shape::Word, Shape::Word,
            Shape::Word, Shape::Word, Shape::Word, Shape::Word, Shape::Word, Shape::Word,
            Shape::Word, Shape::Word,
        ],
    }
}

/// Byte width of a record of kind `k`.
pub open spec fn size_of(k: Kind) -> nat {
    span(layout(k))
}

/// Byte width of a field.
pub fn shape_width(s: Shape) -> (r: u32)
    ensures
        r == width(s),
{
    match s {
        Shape::Byte => 1,
        Shape::Half => 2,
        _ => 4,
    }
}

/// The fields of a record of kind `k`, in order.
pub fn fields_of(k: Kind) -> (r: Vec<Shape>)
    ensures
        r@ == layout(k),
        r@.len() <= 100,
{
    reveal(layout);
    match k {
        Kind::Joint => vec![
            Shape::Word, Shape::Word, Shape::Ptr(Kind::Joint), Shape::Ptr(Kind::Joint),
            Shape::Ptr(Kind::JointData), Shape::Word, Shape::Word, Shape::Word, Shape::Word,
            Shape::Word, Shape::Word, Shape::Word, Shape::Word, Shape::Word,
            Shape::Ptr(Kind::Transform), Shape::Word,
        ],
        Kind::JointData => vec![
            Shape::Word, Shape::Ptr(Kind::JointData), Shape::Ptr(Kind::Material),
            Shape::Ptr(Kind::Mesh),
        ],
        Kind::Mesh => vec![
            Shape::Word, Shape::Ptr(Kind::Mesh), Shape::Ptr(Kind::VertAttr), Shape::Half,
            Shape::Half, Shape::Ptr(Kind::Display), Shape::Word,
        ],
        Kind::Material => vec![
            Shape::Word, Shape::Word, Shape::Ptr(Kind::Texture), Shape::Ptr(Kind::Color),
            Shape::Word, Shape::Raw,
        ],
        Kind::Color => vec![Shape::Word, Shape::Word, Shape::Word, Shape::Word, Shape::Word],
        Kind::Texture => vec![
            Shape::Word, Shape::Ptr(Kind::Texture), Shape::Word, Shape::Word, Shape::Word,
            Shape::Word, Shape::Word, Shape::Word, Shape::Word, Shape::Word, Shape::Word,
            Shape::Word, Shape::Word, Shape::Word, Shape::Word, Shape::Byte, Shape::Byte,
            Shape::Half, Shape::Word, Shape::Word, Shape::Word, Shape::Ptr(Kind::Image),
            Shape::Ptr(Kind::Palette), Shape::Word, Shape::Ptr(Kind::TexUnk),
        ],
        Kind::Image => vec![Shape::Raw, Shape::Half, Shape::Half, Shape::Word],
        Kind::Palette => vec![Shape::Raw, Shape::Word, Shape::Word, Shape::Half, Shape::Half],
        Kind::Transform => vec![
            Shape::Word, Shape::Word, Shape::Word, Shape::Word, Shape::Word, Shape::Word,
            Shape::Word, Shape::Word, Shape::Word, Shape::Word, Shape::Word, Shape::Word,
            Shape::Word, Shape::Word, Shape::Word, Shape::Word,
        ],
        Kind::Weight => vec![Shape::Ptr(Kind::Joint), Shape::Word],
        Kind::VertAttr => vec![
            Shape::Word, Shape::Word, Shape::Word, Shape::Word, Shape::Byte, Shape::Byte,
            Shape::Half, Shape::Raw,
        ],
        Kind::Display => vec![Shape::Byte, Shape::Byte, Shape::Half],
        Kind::Collision => vec![
            Shape::Raw, Shape::Word, Shape::Ptr(Kind::Link), Shape::Word, Shape::Half, Shape::Half,
            Shape::Half, Shape::Half, Shape::Half, Shape::Half, Shape::Half, Shape::Half,
            Shape::Half, Shape::Half, Shape::Ptr(Kind::Area), Shape::Word,
        ],
        Kind::Link => vec![
            Shape::Half, Shape::Half, Shape::Half, Shape::Half, Shape::Half, Shape::Half,
            Shape::Word,
        ],
        Kind::Area => vec![
            Shape::Half, Shape::Half, Shape::Half, Shape::Half, Shape::Half, Shape::Half,
            Shape::Half, Shape::Half, Shape::Word, Shape::Word, Shape::Word, Shape::Word,
            Shape::Word, Shape::Half, Shape::Half,
        ],
        Kind::HitBox => vec![
            Shape::Word, Shape::Half, Shape::Half, Shape::Half, Shape::Half, Shape::Word,
            Shape::Word,
        ],
        Kind::JointDataUnk1 => vec![
            Shape::Word, Shape::Ptr(Kind::JointDataUnk2), Shape::Ptr(Kind::JointDataUnk2),
            Shape::Ptr(Kind::JointDataUnk2),
        ],
        Kind::JointDataUnk2 => vec![],
        Kind::TexUnk => vec![
            Shape::Word, Shape::Word, Shape::Word, Shape::Word, Shape::Word, Shape::Word,
            Shape::Word, Shape::Word,
        ],
        Kind::MatAnimJoint => vec![
            Shape::Ptr(Kind::MatAnimJoint), Shape::Ptr(Kind::MatAnimJoint),
            Shape::Ptr(Kind::MatAnim), Shape::Ptr(Kind::AObjDesc), Shape::Ptr(Kind::TexAnim),
            Shape::Raw,
        ],
        Kind::MatAnim => vec![
            Shape::Ptr(Kind::MatAnim), Shape::Ptr(Kind::AObjDesc), Shape::Ptr(Kind::TexAnim),
            Shape::Raw,
        ],
        Kind::TexAnim => vec![
            Shape::Ptr(Kind::TexAnim), Shape::Word, Shape::Ptr(Kind::AObjDesc), Shape::Raw,
            Shape::Raw, Shape::Word, Shape::Word,
        ],
        Kind::AObjDesc => vec![Shape::Word, Shape::Word, Shape::Ptr(Kind::FObjDesc), Shape::Word],
        Kind::FObjDesc => vec![
            Shape::Ptr(Kind::FObjDesc), Shape::Word, Shape::Word, Shape::Word, Shape::Raw,
        ],
        Kind::MapHeadA => vec![
            Shape::Ptr(Kind::MapJoint), Shape::Word, Shape::Ptr(Kind::MapHeadB), Shape::Word,
            Shape::Ptr(Kind::JointDataUnk1), Shape::Word, Shape::Ptr(Kind::MapHeadE), Shape::Word,
            Shape::Raw, Shape::Word,
        ],
        Kind::MapHeadB => vec![
            Shape::Ptr(Kind::Joint), Shape::Ptr(Kind::MapHeadQ), Shape::Raw,
            Shape::Ptr(Kind::MapHeadF), Shape::Ptr(Kind::MapHeadC), Shape::Ptr(Kind::MapHeadH),
            Shape::Ptr(Kind::MapPlitB), Shape::Ptr(Kind::MapHeadD), Shape::Raw, Shape::Word,
            Shape::Word,
        ],
        Kind::MapHeadC => vec![
            Shape::Word, Shape::Word, Shape::Word, Shape::Word, Shape::Word, Shape::Word,
            Shape::Word, Shape::Word, Shape::Word, Shape::Word, Shape::Word, Shape::Word,
            Shape::Word, Shape::Word,
        ],
        Kind::MapHeadD => vec![
            Shape::Word, Shape::Word, Shape::Half, Shape::Half, Shape::Word,
            Shape::Ptr(Kind::MapHeadD),
        ],
        Kind::MapHeadE => vec![Shape::Ptr(Kind::MapPlitC)],
        Kind::MapHeadF => vec![
            Shape::Ptr(Kind::MapHeadF), Shape::Ptr(Kind::MapHeadF), Shape::Ptr(Kind::MapHeadG),
        ],
        Kind::MapHeadG => vec![Shape::Word, Shape::Word],
        Kind::MapHeadH => vec![
            Shape::Word, Shape::Word, Shape::Word, Shape::Word, Shape::Word,
            Shape::Ptr(Kind::MapHeadC), Shape::Ptr(Kind::MapHeadH),
        ],
        Kind::MapHeadQ => vec![
            Shape::Ptr(Kind::MapHeadQ), Shape::Ptr(Kind::MapHeadQ), Shape::Raw, Shape::Word,
            Shape::Word,
        ],
        Kind::MapJoint => vec![Shape::Ptr(Kind::Joint), Shape::Raw, Shape::Word],
        Kind::MapPlitB => vec![Shape::Ptr(Kind::MapPlitC), Shape::Ptr(Kind::MapPlitD)],
        Kind::MapPlitC => vec![
            Shape::Word, Shape::Word, Shape::Word, Shape::Half, Shape::Half, Shape::Word,
            Shape::Word, Shape::Word,
        ],
        Kind::MapPlitD => vec![Shape::Ptr(Kind::MapPlitE), Shape::Word],
        Kind::MapPlitE => vec![Shape::Word, Shape::Word, Shape::Word, Shape::Word],
        Kind::QuakeMS => vec![
            Shape::Word, Shape::Word, Shape::Ptr(Kind::QuakeMSB), Shape::Word,
            Shape::Ptr(Kind::QuakeMS),
        ],
        Kind::QuakeMSB => vec![Shape::Word, Shape::Word, Shape::Ptr(Kind::QuakeMSC)],
        Kind::QuakeMSC => vec![
            Shape::Ptr(Kind::QuakeMSC), Shape::Word, Shape::Word, Shape::Word, Shape::Raw,
        ],
        Kind::ItemData => vec![Shape::Word, Shape::Word],
        Kind::GroundParam => vec![
            Shape::Word, Shape::Word, Shape::Word, Shape::Word, Shape::Word, Shape::Word,
            Shape::Word, Shape::Word, Shape::Word, Shape::Word, Shape::Word, Shape::Word,
            Shape::Word, Shape::Word, Shape::Word, Shape::Word, Shape::Word, Shape::Word,
            Shape::Word, Shape::Word, Shape::Word, Shape::Word, Shape::Word, Shape::Word,
            Shape::Word, Shape::Half, Shape::Half, Shape::Half, Shape::Half, Shape::Half,
            Shape::Half, Shape::Half, Shape::Half, Shape::Half, Shape::Half, Shape::Half,
            Shape::Half, Shape::Half, Shape::Half, Shape::Half, Shape::Half, Shape::Half,
            Shape::Half, Shape::Half, Shape::Half, Shape::Half, Shape::Half, Shape::Half,
            Shape::Half, Shape::Half, Shape::Half, Shape::Half, Shape::Half, Shape::Half,
            Shape::Half, Shape::Half, Shape::Half, Shape::Half, Shape::Half, Shape::Half,
            Shape::Half, Shape::Half, Shape::Half, Shape::Half, Shape::Half,
            Shape::Ptr(Kind::Music), Shape::Word,
        ],
        Kind::Sub => vec![Shape::Half, Shape::Half],
        Kind::Music => vec![
            Shape::Word, Shape::Word, Shape::Word, Shape::Word, Shape::Word, Shape::Half,
            Shape::Half, Shape::Word, Shape::Word, Shape::Word, Shape::Word, Shape::Word,
            Shape::Word, Shape::Word, Shape::Word, Shape::Word, Shape::Word, Shape::Word,
            Shape::Word, Shape::Word, Shape::Word, Shape::Word, Shape::Word, Shape::Word,
            Shape::Word, Shape::Word,
        ],
    }
}

/// Byte width of a record of kind `k`.
pub fn record_size(k: Kind) -> (r: u32)
    ensures
        r == size_of(k),
{
    let fs = fields_of(k);
    let mut total: u32 = 0;
    let mut i: usize = 0;
    while i < fs.len()
        invariant
            fs@ == layout(k),
            i <= fs@.len(),
            total == span(fs@.take(i as int)),
            fs@.len() <= 100,
            total <= 4 * i,
        decreases fs@.len() - i,
    {
        assert(fs@.take(i as int + 1).drop_last() =~= fs@.take(i as int));
        total = total + shape_width(fs[i]);
        i = i + 1;
    }
    assert(fs@.take(i as int) =~= fs@);
    total
}

} // verus!
