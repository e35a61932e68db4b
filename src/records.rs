//! Typed views of the records of the body, read out of decoded nodes.
use vstd::prelude::*;
use crate::graph::{Node, Value};
use crate::schema::{fields_of, layout, Kind};

verus! {

/// The number that a field holds: a scalar, or the offset that a raw or pointer field stores.
pub open spec fn num(v: Value) -> u32 {
    match v {
        Value::Num(x) => x,
        Value::Raw(x) => x,
        Value::Link(x, _) => x,
    }
}

/// The node that a pointer field names, if any.
pub open spec fn target(v: Value) -> Option<usize> {
    match v {
        Value::Link(_, t) => t,
        _ => None,
    }
}

/// Whether `n` is a complete node of kind `k` with a value for every field.
pub open spec fn shaped(n: Node, k: Kind) -> bool {
    &&& n.kind == k
    &&& n.done
    &&& n.values@.len() == layout(k).len()
}

fn num_of(v: Value) -> (r: u32)
    ensures
        r == num(v),
{
    match v {
        Value::Num(x) => x,
        Value::Raw(x) => x,
        Value::Link(x, _) => x,
    }
}

fn target_of(v: Value) -> (r: Option<usize>)
    ensures
        r == target(v),
{
    match v {
        Value::Link(_, t) => t,
        _ => None,
    }
}

fn has_shape(n: &Node, k: Kind) -> (r: bool)
    ensures
        r == shaped(*n, k),
{
    n.kind == k && n.done && n.values.len() == fields_of(k).len()
}

/// A record of kind `Mesh`, with each pointer field as the handle of its node.
#[derive(Debug, Clone, Copy, PartialEq, Eq, Structural)]
pub struct Mesh {
    pub class: u32,
    pub next: Option<usize>,
    pub verts: Option<usize>,
    pub flags: u16,
    pub ndisplay: u16,
    pub display: Option<usize>,
    pub weight: u32,
}

impl Mesh {
    /// The record that node `n` holds.
    pub open spec fn of_node(n: Node) -> Mesh {
        Mesh {
            class: num(n.values@[0]),
            next: target(n.values@[1]),
            verts: target(n.values@[2]),
            flags: num(n.values@[3]) as u16,
            ndisplay: num(n.values@[4]) as u16,
            display: target(n.values@[5]),
            weight: num(n.values@[6]),
        }
    }

    /// Reads the record out of node `n`, if `n` is a complete node of this kind.
    pub fn from_node(n: &Node) -> (r: Option<Mesh>)
        ensures
            r == (if shaped(*n, Kind::Mesh) {
                Some(Mesh::of_node(*n))
            } else {
                None
            }),
    {
        proof {
            reveal(layout);
        }
        if !has_shape(n, Kind::Mesh) {
            return None;
        }
        Some(Mesh {
            class: num_of(n.values[0]),
            next: target_of(n.values[1]),
            verts: target_of(n.values[2]),
            flags: num_of(n.values[3]) as u16,
            ndisplay: num_of(n.values[4]) as u16,
            display: target_of(n.values[5]),
            weight: num_of(n.values[6]),
        })
    }
}

/// A record of kind `Image`, with each pointer field as the handle of its node.
#[derive(Debug, Clone, Copy, PartialEq, Eq, Structural)]
pub struct Image {
    pub data: u32,
    pub width: u16,
    pub height: u16,
    pub format: u32,
}

impl Image {
    /// The record that node `n` holds.
    pub open spec fn of_node(n: Node) -> Image {
        Image {
            data: num(n.values@[0]),
            width: num(n.values@[1]) as u16,
            height: num(n.values@[2]) as u16,
            format: num(n.values@[3]),
        }
    }

    /// Reads the record out of node `n`, if `n` is a complete node of this kind.
    pub fn from_node(n: &Node) -> (r: Option<Image>)
        ensures
            r == (if shaped(*n, Kind::Image) {
                Some(Image::of_node(*n))
            } else {
                None
            }),
    {
        proof {
            reveal(layout);
        }
        if !has_shape(n, Kind::Image) {
            return None;
        }
        Some(Image {
            data: num_of(n.values[0]),
            width: num_of(n.values[1]) as u16,
            height: num_of(n.values[2]) as u16,
            format: num_of(n.values[3]),
        })
    }
}

/// A record of kind `Palette`, with each pointer field as the handle of its node.
#[derive(Debug, Clone, Copy, PartialEq, Eq, Structural)]
pub struct Palette {
    pub data: u32,
    pub format: u32,
    pub name: u32,
    pub colornum: u16,
    pub padding: u16,
}

impl Palette {
    /// The record that node `n` holds.
    pub open spec fn of_node(n: Node) -> Palette {
        Palette {
            data: num(n.values@[0]),
            format: num(n.values@[1]),
            name: num(n.values@[2]),
            colornum: num(n.values@[3]) as u16,
            padding: num(n.values@[4]) as u16,
        }
    }

    /// Reads the record out of node `n`, if `n` is a complete node of this kind.
    pub fn from_node(n: &Node) -> (r: Option<Palette>)
        ensures
            r == (if shaped(*n, Kind::Palette) {
                Some(Palette::of_node(*n))
            } else {
                None
            }),
    {
        proof {
            reveal(layout);
        }
        if !has_shape(n, Kind::Palette) {
            return None;
        }
        Some(Palette {
            data: num_of(n.values[0]),
            format: num_of(n.values[1]),
            name: num_of(n.values[2]),
            colornum: num_of(n.values[3]) as u16,
            padding: num_of(n.values[4]) as u16,
        })
    }
}

/// A record of kind `Transform`, with each pointer field as the handle of its node.
#[derive(Debug, Clone, Copy)]
pub struct Transform {
    pub m: [[u32; 4]; 4],
}

impl Transform {
    /// The record that node `n` holds.
    pub open spec fn of_node(n: Node) -> Transform {
        Transform {
            m: [
                [num(n.values@[0]), num(n.values@[1]), num(n.values@[2]), num(n.values@[3])],
                [num(n.values@[4]), num(n.values@[5]), num(n.values@[6]), num(n.values@[7])],
                [num(n.values@[8]), num(n.values@[9]), num(n.values@[10]), num(n.values@[11])],
                [num(n.values@[12]), num(n.values@[13]), num(n.values@[14]), num(n.values@[15])],
            ],
        }
    }

    /// Reads the record out of node `n`, if `n` is a complete node of this kind.
    pub fn from_node(n: &Node) -> (r: Option<Transform>)
        ensures
            r == (if shaped(*n, Kind::Transform) {
                Some(Transform::of_node(*n))
            } else {
                None
            }),
    {
        proof {
            reveal(layout);
        }
        if !has_shape(n, Kind::Transform) {
            return None;
        }
        Some(Transform {
            m: [
                [num_of(n.values[0]), num_of(n.values[1]), num_of(n.values[2]), num_of(n.values[3])],
                [num_of(n.values[4]), num_of(n.values[5]), num_of(n.values[6]), num_of(n.values[7])],
                [num_of(n.values[8]), num_of(n.values[9]), num_of(n.values[10]), num_of(n.values[11])],
                [num_of(n.values[12]), num_of(n.values[13]), num_of(n.values[14]), num_of(n.values[15])],
            ],
        })
    }
}

/// A record of kind `VertAttr`, with each pointer field as the handle of its node.
#[derive(Debug, Clone, Copy, PartialEq, Eq, Structural)]
pub struct VertAttr {
    pub ident: u32,
    pub usage: u32,
    pub format: u32,
    pub datatype: u32,
    pub scale: u8,
    pub unknown_0x11: u8,
    pub stride: u16,
    pub data: u32,
}

impl VertAttr {
    /// The record that node `n` holds.
    pub open spec fn of_node(n: Node) -> VertAttr {
        VertAttr {
            ident: num(n.values@[0]),
            usage: num(n.values@[1]),
            format: num(n.values@[2]),
            datatype: num(n.values@[3]),
            scale: num(n.values@[4]) as u8,
            unknown_0x11: num(n.values@[5]) as u8,
            stride: num(n.values@[6]) as u16,
            data: num(n.values@[7]),
        }
    }

    /// Reads the record out of node `n`, if `n` is a complete node of this kind.
    pub fn from_node(n: &Node) -> (r: Option<VertAttr>)
        ensures
            r == (if shaped(*n, Kind::VertAttr) {
                Some(VertAttr::of_node(*n))
            } else {
                None
            }),
    {
        proof {
            reveal(layout);
        }
        if !has_shape(n, Kind::VertAttr) {
            return None;
        }
        Some(VertAttr {
            ident: num_of(n.values[0]),
            usage: num_of(n.values[1]),
            format: num_of(n.values[2]),
            datatype: num_of(n.values[3]),
            scale: num_of(n.values[4]) as u8,
            unknown_0x11: num_of(n.values[5]) as u8,
            stride: num_of(n.values[6]) as u16,
            data: num_of(n.values[7]),
        })
    }
}

/// A record of kind `Display`, with each pointer field as the handle of its node.
#[derive(Debug, Clone, Copy, PartialEq, Eq, Structural)]
pub struct Display {
    pub unknown_0x00: u8,
    pub primitive: u8,
    pub indices: u16,
}

impl Display {
    /// The record that node `n` holds.
    pub open spec fn of_node(n: Node) -> Display {
        Display {
            unknown_0x00: num(n.values@[0]) as u8,
            primitive: num(n.values@[1]) as u8,
            indices: num(n.values@[2]) as u16,
        }
    }

    /// Reads the record out of node `n`, if `n` is a complete node of this kind.
    pub fn from_node(n: &Node) -> (r: Option<Display>)
        ensures
            r == (if shaped(*n, Kind::Display) {
                Some(Display::of_node(*n))
            } else {
                None
            }),
    {
        proof {
            reveal(layout);
        }
        if !has_shape(n, Kind::Display) {
            return None;
        }
        Some(Display {
            unknown_0x00: num_of(n.values[0]) as u8,
            primitive: num_of(n.values[1]) as u8,
            indices: num_of(n.values[2]) as u16,
        })
    }
}

/// A record of kind `Link`, with each pointer field as the handle of its node.
#[derive(Debug, Clone, Copy, PartialEq, Eq, Structural)]
pub struct Link {
    pub from_spot: u16,
    pub to_spot: u16,
    pub from: u16,
    pub to: u16,
    pub from_virt: u16,
    pub to_virt: u16,
    pub flags: u32,
}

impl Link {
    /// The record that node `n` holds.
    pub open spec fn of_node(n: Node) -> Link {
        Link {
            from_spot: num(n.values@[0]) as u16,
            to_spot: num(n.values@[1]) as u16,
            from: num(n.values@[2]) as u16,
            to: num(n.values@[3]) as u16,
            from_virt: num(n.values@[4]) as u16,
            to_virt: num(n.values@[5]) as u16,
            flags: num(n.values@[6]),
        }
    }

    /// Reads the record out of node `n`, if `n` is a complete node of this kind.
    pub fn from_node(n: &Node) -> (r: Option<Link>)
        ensures
            r == (if shaped(*n, Kind::Link) {
                Some(Link::of_node(*n))
            } else {
                None
            }),
    {
        proof {
            reveal(layout);
        }
        if !has_shape(n, Kind::Link) {
            return None;
        }
        Some(Link {
            from_spot: num_of(n.values[0]) as u16,
            to_spot: num_of(n.values[1]) as u16,
            from: num_of(n.values[2]) as u16,
            to: num_of(n.values[3]) as u16,
            from_virt: num_of(n.values[4]) as u16,
            to_virt: num_of(n.values[5]) as u16,
            flags: num_of(n.values[6]),
        })
    }
}

/// A record of kind `HitBox`, with each pointer field as the handle of its node.
#[derive(Debug, Clone, Copy, PartialEq, Eq, Structural)]
pub struct HitBox {
    pub primary: u32,
    pub scale: u16,
    pub z_off: u16,
    pub y_off: u16,
    pub x_off: u16,
    pub physics: u32,
    pub effects: u32,
}

impl HitBox {
    /// The record that node `n` holds.
    pub open spec fn of_node(n: Node) -> HitBox {
        HitBox {
            primary: num(n.values@[0]),
            scale: num(n.values@[1]) as u16,
            z_off: num(n.values@[2]) as u16,
            y_off: num(n.values@[3]) as u16,
            x_off: num(n.values@[4]) as u16,
            physics: num(n.values@[5]),
            effects: num(n.values@[6]),
        }
    }

    /// Reads the record out of node `n`, if `n` is a complete node of this kind.
    pub fn from_node(n: &Node) -> (r: Option<HitBox>)
        ensures
            r == (if shaped(*n, Kind::HitBox) {
                Some(HitBox::of_node(*n))
            } else {
                None
            }),
    {
        proof {
            reveal(layout);
        }
        if !has_shape(n, Kind::HitBox) {
            return None;
        }
        Some(HitBox {
            primary: num_of(n.values[0]),
            scale: num_of(n.values[1]) as u16,
            z_off: num_of(n.values[2]) as u16,
            y_off: num_of(n.values[3]) as u16,
            x_off: num_of(n.values[4]) as u16,
            physics: num_of(n.values[5]),
            effects: num_of(n.values[6]),
        })
    }
}

/// A record of kind `JointDataUnk1`, with each pointer field as the handle of its node.
#[derive(Debug, Clone, Copy, PartialEq, Eq, Structural)]
pub struct JointDataUnk1 {
    pub flags: u32,
    pub data1: Option<usize>,
    pub data2: Option<usize>,
    pub data3: Option<usize>,
}

impl JointDataUnk1 {
    /// The record that node `n` holds.
    pub open spec fn of_node(n: Node) -> JointDataUnk1 {
        JointDataUnk1 {
            flags: num(n.values@[0]),
            data1: target(n.values@[1]),
            data2: target(n.values@[2]),
            data3: target(n.values@[3]),
        }
    }

    /// Reads the record out of node `n`, if `n` is a complete node of this kind.
    pub fn from_node(n: &Node) -> (r: Option<JointDataUnk1>)
        ensures
            r == (if shaped(*n, Kind::JointDataUnk1) {
                Some(JointDataUnk1::of_node(*n))
            } else {
                None
            }),
    {
        proof {
            reveal(layout);
        }
        if !has_shape(n, Kind::JointDataUnk1) {
            return None;
        }
        Some(JointDataUnk1 {
            flags: num_of(n.values[0]),
            data1: target_of(n.values[1]),
            data2: target_of(n.values[2]),
            data3: target_of(n.values[3]),
        })
    }
}

/// A record of kind `JointDataUnk2`, with each pointer field as the handle of its node.
#[derive(Debug, Clone, Copy, PartialEq, Eq, Structural)]
pub struct JointDataUnk2 {

}

impl JointDataUnk2 {
    /// The record that node `n` holds.
    pub open spec fn of_node(n: Node) -> JointDataUnk2 {
        JointDataUnk2 {  }
    }

    /// Reads the record out of node `n`, if `n` is a complete node of this kind.
    pub fn from_node(n: &Node) -> (r: Option<JointDataUnk2>)
        ensures
            r == (if shaped(*n, Kind::JointDataUnk2) {
                Some(JointDataUnk2::of_node(*n))
            } else {
                None
            }),
    {
        proof {
            reveal(layout);
        }
        if !has_shape(n, Kind::JointDataUnk2) {
            return None;
        }
        Some(JointDataUnk2 {  })
    }
}

/// A record of kind `TexUnk`, with each pointer field as the handle of its node.
#[derive(Debug, Clone, Copy, PartialEq, Eq, Structural)]
pub struct TexUnk {

}

impl TexUnk {
    /// The record that node `n` holds.
    pub open spec fn of_node(n: Node) -> TexUnk {
        TexUnk {  }
    }

    /// Reads the record out of node `n`, if `n` is a complete node of this kind.
    pub fn from_node(n: &Node) -> (r: Option<TexUnk>)
        ensures
            r == (if shaped(*n, Kind::TexUnk) {
                Some(TexUnk::of_node(*n))
            } else {
                None
            }),
    {
        proof {
            reveal(layout);
        }
        if !has_shape(n, Kind::TexUnk) {
            return None;
        }
        Some(TexUnk {  })
    }
}

/// A record of kind `FObjDesc`, with each pointer field as the handle of its node.
#[derive(Debug, Clone, Copy, PartialEq, Eq, Structural)]
pub struct FObjDesc {
    pub next: Option<usize>,
    pub str_len: u32,
    pub unknown_0x08: u32,
    pub flags: u32,
    pub string: u32,
}

impl FObjDesc {
    /// The record that node `n` holds.
    pub open spec fn of_node(n: Node) -> FObjDesc {
        FObjDesc {
            next: target(n.values@[0]),
            str_len: num(n.values@[1]),
            unknown_0x08: num(n.values@[2]),
            flags: num(n.values@[3]),
            string: num(n.values@[4]),
        }
    }

    /// Reads the record out of node `n`, if `n` is a complete node of this kind.
    pub fn from_node(n: &Node) -> (r: Option<FObjDesc>)
        ensures
            r == (if shaped(*n, Kind::FObjDesc) {
                Some(FObjDesc::of_node(*n))
            } else {
                None
            }),
    {
        proof {
            reveal(layout);
        }
        if !has_shape(n, Kind::FObjDesc) {
            return None;
        }
        Some(FObjDesc {
            next: target_of(n.values[0]),
            str_len: num_of(n.values[1]),
            unknown_0x08: num_of(n.values[2]),
            flags: num_of(n.values[3]),
            string: num_of(n.values[4]),
        })
    }
}

/// A record of kind `MapHeadD`, with each pointer field as the handle of its node.
#[derive(Debug, Clone, Copy, PartialEq, Eq, Structural)]
pub struct MapHeadD {
    pub unknown_0x00: u32,
    pub unknown_0x04: u32,
    pub unknown_0x08: u16,
    pub unknown_0x0a: u16,
    pub flags: u32,
    pub this: Option<usize>,
}

impl MapHeadD {
    /// The record that node `n` holds.
    pub open spec fn of_node(n: Node) -> MapHeadD {
        MapHeadD {
            unknown_0x00: num(n.values@[0]),
            unknown_0x04: num(n.values@[1]),
            unknown_0x08: num(n.values@[2]) as u16,
            unknown_0x0a: num(n.values@[3]) as u16,
            flags: num(n.values@[4]),
            this: target(n.values@[5]),
        }
    }

    /// Reads the record out of node `n`, if `n` is a complete node of this kind.
    pub fn from_node(n: &Node) -> (r: Option<MapHeadD>)
        ensures
            r == (if shaped(*n, Kind::MapHeadD) {
                Some(MapHeadD::of_node(*n))
            } else {
                None
            }),
    {
        proof {
            reveal(layout);
        }
        if !has_shape(n, Kind::MapHeadD) {
            return None;
        }
        Some(MapHeadD {
            unknown_0x00: num_of(n.values[0]),
            unknown_0x04: num_of(n.values[1]),
            unknown_0x08: num_of(n.values[2]) as u16,
            unknown_0x0a: num_of(n.values[3]) as u16,
            flags: num_of(n.values[4]),
            this: target_of(n.values[5]),
        })
    }
}

/// A record of kind `MapHeadE`, with each pointer field as the handle of its node.
#[derive(Debug, Clone, Copy, PartialEq, Eq, Structural)]
pub struct MapHeadE {
    pub mapplitc: Option<usize>,
}

impl MapHeadE {
    /// The record that node `n` holds.
    pub open spec fn of_node(n: Node) -> MapHeadE {
        MapHeadE { mapplitc: target(n.values@[0]) }
    }

    /// Reads the record out of node `n`, if `n` is a complete node of this kind.
    pub fn from_node(n: &Node) -> (r: Option<MapHeadE>)
        ensures
            r == (if shaped(*n, Kind::MapHeadE) {
                Some(MapHeadE::of_node(*n))
            } else {
                None
            }),
    {
        proof {
            reveal(layout);
        }
        if !has_shape(n, Kind::MapHeadE) {
            return None;
        }
        Some(MapHeadE { mapplitc: target_of(n.values[0]) })
    }
}

/// A record of kind `MapHeadF`, with each pointer field as the handle of its node.
#[derive(Debug, Clone, Copy, PartialEq, Eq, Structural)]
pub struct MapHeadF {
    pub next: Option<usize>,
    pub child: Option<usize>,
    pub mapheadg: Option<usize>,
}

impl MapHeadF {
    /// The record that node `n` holds.
    pub open spec fn of_node(n: Node) -> MapHeadF {
        MapHeadF {
            next: target(n.values@[0]),
            child: target(n.values@[1]),
            mapheadg: target(n.values@[2]),
        }
    }

    /// Reads the record out of node `n`, if `n` is a complete node of this kind.
    pub fn from_node(n: &Node) -> (r: Option<MapHeadF>)
        ensures
            r == (if shaped(*n, Kind::MapHeadF) {
                Some(MapHeadF::of_node(*n))
            } else {
                None
            }),
    {
        proof {
            reveal(layout);
        }
        if !has_shape(n, Kind::MapHeadF) {
            return None;
        }
        Some(MapHeadF {
            next: target_of(n.values[0]),
            child: target_of(n.values[1]),
            mapheadg: target_of(n.values[2]),
        })
    }
}

/// A record of kind `MapHeadG`, with each pointer field as the handle of its node.
#[derive(Debug, Clone, Copy, PartialEq, Eq, Structural)]
pub struct MapHeadG {
    pub unknown_0x00: u32,
    pub unknown_0x04: u32,
}

impl MapHeadG {
    /// The record that node `n` holds.
    pub open spec fn of_node(n: Node) -> MapHeadG {
        MapHeadG { unknown_0x00: num(n.values@[0]), unknown_0x04: num(n.values@[1]) }
    }

    /// Reads the record out of node `n`, if `n` is a complete node of this kind.
    pub fn from_node(n: &Node) -> (r: Option<MapHeadG>)
        ensures
            r == (if shaped(*n, Kind::MapHeadG) {
                Some(MapHeadG::of_node(*n))
            } else {
                None
            }),
    {
        proof {
            reveal(layout);
        }
        if !has_shape(n, Kind::MapHeadG) {
            return None;
        }
        Some(MapHeadG { unknown_0x00: num_of(n.values[0]), unknown_0x04: num_of(n.values[1]) })
    }
}

/// A record of kind `MapHeadQ`, with each pointer field as the handle of its node.
#[derive(Debug, Clone, Copy, PartialEq, Eq, Structural)]
pub struct MapHeadQ {
    pub next: Option<usize>,
    pub child: Option<usize>,
    pub matanimd: u32,
    pub unknown_0x0c: u32,
    pub unknown_0x10: u32,
}

impl MapHeadQ {
    /// The record that node `n` holds.
    pub open spec fn of_node(n: Node) -> MapHeadQ {
        MapHeadQ {
            next: target(n.values@[0]),
            child: target(n.values@[1]),
            matanimd: num(n.values@[2]),
            unknown_0x0c: num(n.values@[3]),
            unknown_0x10: num(n.values@[4]),
        }
    }

    /// Reads the record out of node `n`, if `n` is a complete node of this kind.
    pub fn from_node(n: &Node) -> (r: Option<MapHeadQ>)
        ensures
            r == (if shaped(*n, Kind::MapHeadQ) {
                Some(MapHeadQ::of_node(*n))
            } else {
                None
            }),
    {
        proof {
            reveal(layout);
        }
        if !has_shape(n, Kind::MapHeadQ) {
            return None;
        }
        Some(MapHeadQ {
            next: target_of(n.values[0]),
            child: target_of(n.values[1]),
            matanimd: num_of(n.values[2]),
            unknown_0x0c: num_of(n.values[3]),
            unknown_0x10: num_of(n.values[4]),
        })
    }
}

/// A record of kind `MapPlitB`, with each pointer field as the handle of its node.
#[derive(Debug, Clone, Copy, PartialEq, Eq, Structural)]
pub struct MapPlitB {
    pub mapplitc: Option<usize>,
    pub mapplitd: Option<usize>,
}

impl MapPlitB {
    /// The record that node `n` holds.
    pub open spec fn of_node(n: Node) -> MapPlitB {
        MapPlitB { mapplitc: target(n.values@[0]), mapplitd: target(n.values@[1]) }
    }

    /// Reads the record out of node `n`, if `n` is a complete node of this kind.
    pub fn from_node(n: &Node) -> (r: Option<MapPlitB>)
        ensures
            r == (if shaped(*n, Kind::MapPlitB) {
                Some(MapPlitB::of_node(*n))
            } else {
                None
            }),
    {
        proof {
            reveal(layout);
        }
        if !has_shape(n, Kind::MapPlitB) {
            return None;
        }
        Some(MapPlitB { mapplitc: target_of(n.values[0]), mapplitd: target_of(n.values[1]) })
    }
}

/// A record of kind `MapPlitC`, with each pointer field as the handle of its node.
#[derive(Debug, Clone, Copy, PartialEq, Eq, Structural)]
pub struct MapPlitC {
    pub unknown_0x00: u32,
    pub unknown_0x04: u32,
    pub unknown_0x08: u32,
    pub unknown_0x0c: u16,
    pub unknown_0x0e: u16,
    pub flags: u32,
    pub mpca: u32,
    pub mpcb: u32,
}

impl MapPlitC {
    /// The record that node `n` holds.
    pub open spec fn of_node(n: Node) -> MapPlitC {
        MapPlitC {
            unknown_0x00: num(n.values@[0]),
            unknown_0x04: num(n.values@[1]),
            unknown_0x08: num(n.values@[2]),
            unknown_0x0c: num(n.values@[3]) as u16,
            unknown_0x0e: num(n.values@[4]) as u16,
            flags: num(n.values@[5]),
            mpca: num(n.values@[6]),
            mpcb: num(n.values@[7]),
        }
    }

    /// Reads the record out of node `n`, if `n` is a complete node of this kind.
    pub fn from_node(n: &Node) -> (r: Option<MapPlitC>)
        ensures
            r == (if shaped(*n, Kind::MapPlitC) {
                Some(MapPlitC::of_node(*n))
            } else {
                None
            }),
    {
        proof {
            reveal(layout);
        }
        if !has_shape(n, Kind::MapPlitC) {
            return None;
        }
        Some(MapPlitC {
            unknown_0x00: num_of(n.values[0]),
            unknown_0x04: num_of(n.values[1]),
            unknown_0x08: num_of(n.values[2]),
            unknown_0x0c: num_of(n.values[3]) as u16,
            unknown_0x0e: num_of(n.values[4]) as u16,
            flags: num_of(n.values[5]),
            mpca: num_of(n.values[6]),
            mpcb: num_of(n.values[7]),
        })
    }
}

/// A record of kind `MapPlitD`, with each pointer field as the handle of its node.
#[derive(Debug, Clone, Copy, PartialEq, Eq, Structural)]
pub struct MapPlitD {
    pub mapplite: Option<usize>,
    pub unknown_0x04: u32,
}

impl MapPlitD {
    /// The record that node `n` holds.
    pub open spec fn of_node(n: Node) -> MapPlitD {
        MapPlitD { mapplite: target(n.values@[0]), unknown_0x04: num(n.values@[1]) }
    }

    /// Reads the record out of node `n`, if `n` is a complete node of this kind.
    pub fn from_node(n: &Node) -> (r: Option<MapPlitD>)
        ensures
            r == (if shaped(*n, Kind::MapPlitD) {
                Some(MapPlitD::of_node(*n))
            } else {
                None
            }),
    {
        proof {
            reveal(layout);
        }
        if !has_shape(n, Kind::MapPlitD) {
            return None;
        }
        Some(MapPlitD { mapplite: target_of(n.values[0]), unknown_0x04: num_of(n.values[1]) })
    }
}

/// A record of kind `MapPlitE`, with each pointer field as the handle of its node.
#[derive(Debug, Clone, Copy, PartialEq, Eq, Structural)]
pub struct MapPlitE {
    pub unknown_0x00: u32,
    pub unknown_0x04: u32,
    pub unknown_0x08: u32,
    pub unknown_0x0c: u32,
}

impl MapPlitE {
    /// The record that node `n` holds.
    pub open spec fn of_node(n: Node) -> MapPlitE {
        MapPlitE {
            unknown_0x00: num(n.values@[0]),
            unknown_0x04: num(n.values@[1]),
            unknown_0x08: num(n.values@[2]),
            unknown_0x0c: num(n.values@[3]),
        }
    }

    /// Reads the record out of node `n`, if `n` is a complete node of this kind.
    pub fn from_node(n: &Node) -> (r: Option<MapPlitE>)
        ensures
            r == (if shaped(*n, Kind::MapPlitE) {
                Some(MapPlitE::of_node(*n))
            } else {
                None
            }),
    {
        proof {
            reveal(layout);
        }
        if !has_shape(n, Kind::MapPlitE) {
            return None;
        }
        Some(MapPlitE {
            unknown_0x00: num_of(n.values[0]),
            unknown_0x04: num_of(n.values[1]),
            unknown_0x08: num_of(n.values[2]),
            unknown_0x0c: num_of(n.values[3]),
        })
    }
}

/// A record of kind `QuakeMS`, with each pointer field as the handle of its node.
#[derive(Debug, Clone, Copy, PartialEq, Eq, Structural)]
pub struct QuakeMS {
    pub qmsa: u32,
    pub qms: u32,
    pub qmsb: Option<usize>,
    pub unknown_0x0c: u32,
    pub this: Option<usize>,
}

impl QuakeMS {
    /// The record that node `n` holds.
    pub open spec fn of_node(n: Node) -> QuakeMS {
        QuakeMS {
            qmsa: num(n.values@[0]),
            qms: num(n.values@[1]),
            qmsb: target(n.values@[2]),
            unknown_0x0c: num(n.values@[3]),
            this: target(n.values@[4]),
        }
    }

    /// Reads the record out of node `n`, if `n` is a complete node of this kind.
    pub fn from_node(n: &Node) -> (r: Option<QuakeMS>)
        ensures
            r == (if shaped(*n, Kind::QuakeMS) {
                Some(QuakeMS::of_node(*n))
            } else {
                None
            }),
    {
        proof {
            reveal(layout);
        }
        if !has_shape(n, Kind::QuakeMS) {
            return None;
        }
        Some(QuakeMS {
            qmsa: num_of(n.values[0]),
            qms: num_of(n.values[1]),
            qmsb: target_of(n.values[2]),
            unknown_0x0c: num_of(n.values[3]),
            this: target_of(n.values[4]),
        })
    }
}

/// A record of kind `QuakeMSB`, with each pointer field as the handle of its node.
#[derive(Debug, Clone, Copy, PartialEq, Eq, Structural)]
pub struct QuakeMSB {
    pub unknown_0x00: u32,
    pub unknown_0x04: u32,
    pub qmsc: Option<usize>,
}

impl QuakeMSB {
    /// The record that node `n` holds.
    pub open spec fn of_node(n: Node) -> QuakeMSB {
        QuakeMSB {
            unknown_0x00: num(n.values@[0]),
            unknown_0x04: num(n.values@[1]),
            qmsc: target(n.values@[2]),
        }
    }

    /// Reads the record out of node `n`, if `n` is a complete node of this kind.
    pub fn from_node(n: &Node) -> (r: Option<QuakeMSB>)
        ensures
            r == (if shaped(*n, Kind::QuakeMSB) {
                Some(QuakeMSB::of_node(*n))
            } else {
                None
            }),
    {
        proof {
            reveal(layout);
        }
        if !has_shape(n, Kind::QuakeMSB) {
            return None;
        }
        Some(QuakeMSB {
            unknown_0x00: num_of(n.values[0]),
            unknown_0x04: num_of(n.values[1]),
            qmsc: target_of(n.values[2]),
        })
    }
}

/// A record of kind `QuakeMSC`, with each pointer field as the handle of its node.
#[derive(Debug, Clone, Copy, PartialEq, Eq, Structural)]
pub struct QuakeMSC {
    pub next: Option<usize>,
    pub unknown_0x04: u32,
    pub unknown_0x08: u32,
    pub unknown_0x0c: u32,
    pub data: u32,
}

impl QuakeMSC {
    /// The record that node `n` holds.
    pub open spec fn of_node(n: Node) -> QuakeMSC {
        QuakeMSC {
            next: target(n.values@[0]),
            unknown_0x04: num(n.values@[1]),
            unknown_0x08: num(n.values@[2]),
            unknown_0x0c: num(n.values@[3]),
            data: num(n.values@[4]),
        }
    }

    /// Reads the record out of node `n`, if `n` is a complete node of this kind.
    pub fn from_node(n: &Node) -> (r: Option<QuakeMSC>)
        ensures
            r == (if shaped(*n, Kind::QuakeMSC) {
                Some(QuakeMSC::of_node(*n))
            } else {
                None
            }),
    {
        proof {
            reveal(layout);
        }
        if !has_shape(n, Kind::QuakeMSC) {
            return None;
        }
        Some(QuakeMSC {
            next: target_of(n.values[0]),
            unknown_0x04: num_of(n.values[1]),
            unknown_0x08: num_of(n.values[2]),
            unknown_0x0c: num_of(n.values[3]),
            data: num_of(n.values[4]),
        })
    }
}

/// A record of kind `ItemData`, with each pointer field as the handle of its node.
#[derive(Debug, Clone, Copy, PartialEq, Eq, Structural)]
pub struct ItemData {
    pub itemtype: u32,
    pub data: u32,
}

impl ItemData {
    /// The record that node `n` holds.
    pub open spec fn of_node(n: Node) -> ItemData {
        ItemData { itemtype: num(n.values@[0]), data: num(n.values@[1]) }
    }

    /// Reads the record out of node `n`, if `n` is a complete node of this kind.
    pub fn from_node(n: &Node) -> (r: Option<ItemData>)
        ensures
            r == (if shaped(*n, Kind::ItemData) {
                Some(ItemData::of_node(*n))
            } else {
                None
            }),
    {
        proof {
            reveal(layout);
        }
        if !has_shape(n, Kind::ItemData) {
            return None;
        }
        Some(ItemData { itemtype: num_of(n.values[0]), data: num_of(n.values[1]) })
    }
}

/// A record of kind `Sub`, with each pointer field as the handle of its node.
#[derive(Debug, Clone, Copy, PartialEq, Eq, Structural)]
pub struct Sub {
    pub sub_0x00: u16,
    pub sub_0x02: u16,
}

impl Sub {
    /// The record that node `n` holds.
    pub open spec fn of_node(n: Node) -> Sub {
        Sub { sub_0x00: num(n.values@[0]) as u16, sub_0x02: num(n.values@[1]) as u16 }
    }

    /// Reads the record out of node `n`, if `n` is a complete node of this kind.
    pub fn from_node(n: &Node) -> (r: Option<Sub>)
        ensures
            r == (if shaped(*n, Kind::Sub) {
                Some(Sub::of_node(*n))
            } else {
                None
            }),
    {
        proof {
            reveal(layout);
        }
        if !has_shape(n, Kind::Sub) {
            return None;
        }
        Some(Sub { sub_0x00: num_of(n.values[0]) as u16, sub_0x02: num_of(n.values[1]) as u16 })
    }
}

/// A record of kind `Music`, with each pointer field as the handle of its node.
#[derive(Debug, Clone, Copy, PartialEq, Eq, Structural)]
pub struct Music {
    pub stage: u32,
    pub bgm: u32,
    pub bgm_alt: u32,
    pub bgm2: u32,
    pub bgm_alt2: u32,
    pub alt: u16,
    pub alt_change: u16,
    pub unknown_0x18: u32,
    pub unknown_0x20: u32,
    pub unknown_0x24: u32,
    pub unknown_0x28: u32,
    pub unknown_0x2c: u32,
    pub unknown_0x30: u32,
    pub unknown_0x34: u32,
    pub unknown_0x38: u32,
    pub unknown_0x3c: u32,
    pub unknown_0x40: u32,
    pub unknown_0x44: u32,
    pub unknown_0x48: u32,
    pub unknown_0x4c: u32,
    pub unknown_0x50: u32,
    pub unknown_0x54: u32,
    pub unknown_0x58: u32,
    pub unknown_0x5c: u32,
    pub unknown_0x60: u32,
}

impl Music {
    /// The record that node `n` holds.
    pub open spec fn of_node(n: Node) -> Music {
        Music {
            stage: num(n.values@[0]),
            bgm: num(n.values@[1]),
            bgm_alt: num(n.values@[2]),
            bgm2: num(n.values@[3]),
            bgm_alt2: num(n.values@[4]),
            alt: num(n.values@[5]) as u16,
            alt_change: num(n.values@[6]) as u16,
            unknown_0x18: num(n.values@[7]),
            unknown_0x20: num(n.values@[9]),
            unknown_0x24: num(n.values@[10]),
            unknown_0x28: num(n.values@[11]),
            unknown_0x2c: num(n.values@[12]),
            unknown_0x30: num(n.values@[13]),
            unknown_0x34: num(n.values@[14]),
            unknown_0x38: num(n.values@[15]),
            unknown_0x3c: num(n.values@[16]),
            unknown_0x40: num(n.values@[17]),
            unknown_0x44: num(n.values@[18]),
            unknown_0x48: num(n.values@[19]),
            unknown_0x4c: num(n.values@[20]),
            unknown_0x50: num(n.values@[21]),
            unknown_0x54: num(n.values@[22]),
            unknown_0x58: num(n.values@[23]),
            unknown_0x5c: num(n.values@[24]),
            unknown_0x60: num(n.values@[25]),
        }
    }

    /// Reads the record out of node `n`, if `n` is a complete node of this kind.
    pub fn from_node(n: &Node) -> (r: Option<Music>)
        ensures
            r == (if shaped(*n, Kind::Music) {
                Some(Music::of_node(*n))
            } else {
                None
            }),
    {
        proof {
            reveal(layout);
        }
        if !has_shape(n, Kind::Music) {
            return None;
        }
        Some(Music {
            stage: num_of(n.values[0]),
            bgm: num_of(n.values[1]),
            bgm_alt: num_of(n.values[2]),
            bgm2: num_of(n.values[3]),
            bgm_alt2: num_of(n.values[4]),
            alt: num_of(n.values[5]) as u16,
            alt_change: num_of(n.values[6]) as u16,
            unknown_0x18: num_of(n.values[7]),
            unknown_0x20: num_of(n.values[9]),
            unknown_0x24: num_of(n.values[10]),
            unknown_0x28: num_of(n.values[11]),
            unknown_0x2c: num_of(n.values[12]),
            unknown_0x30: num_of(n.values[13]),
            unknown_0x34: num_of(n.values[14]),
            unknown_0x38: num_of(n.values[15]),
            unknown_0x3c: num_of(n.values[16]),
            unknown_0x40: num_of(n.values[17]),
            unknown_0x44: num_of(n.values[18]),
            unknown_0x48: num_of(n.values[19]),
            unknown_0x4c: num_of(n.values[20]),
            unknown_0x50: num_of(n.values[21]),
            unknown_0x54: num_of(n.values[22]),
            unknown_0x58: num_of(n.values[23]),
            unknown_0x5c: num_of(n.values[24]),
            unknown_0x60: num_of(n.values[25]),
        })
    }
}

/// A pair of 16-bit fields that give a run of entries: where it starts and how long it is.
#[derive(Debug, Clone, Copy, PartialEq, Eq, Structural)]
pub struct Index {
    /// First entry of the run.
    pub start: u16,
    /// Number of entries in the run.
    pub num: u16,
}

/// A record of kind `Joint`, with each pointer field as the handle of its node
/// and each floating-point field as its bits.
#[derive(Debug, Clone, Copy)]
pub struct Joint {
    pub unknown_0x00: u32,
    pub flags: u32,
    pub child: Option<usize>,
    pub next: Option<usize>,
    pub data: Option<usize>,
    pub rotation: [u32; 3],
    pub scale: [u32; 3],
    pub position: [u32; 3],
    pub transform: Option<usize>,
    pub unknown_0x3c: u32,
}

impl Joint {
    /// The record that node `n` holds.
    pub open spec fn of_node(n: Node) -> Joint {
        Joint {
            unknown_0x00: num(n.values@[0]),
            flags: num(n.values@[1]),
            child: target(n.values@[2]),
            next: target(n.values@[3]),
            data: target(n.values@[4]),
            rotation: [num(n.values@[5]), num(n.values@[6]), num(n.values@[7])],
            scale: [num(n.values@[8]), num(n.values@[9]), num(n.values@[10])],
            position: [num(n.values@[11]), num(n.values@[12]), num(n.values@[13])],
            transform: target(n.values@[14]),
            unknown_0x3c: num(n.values@[15]),
        }
    }

    /// Reads the record out of node `n`, if `n` is a complete node of this kind.
    pub fn from_node(n: &Node) -> (r: Option<Joint>)
        ensures
            r == (if shaped(*n, Kind::Joint) {
                Some(Joint::of_node(*n))
            } else {
                None
            }),
    {
        proof {
            reveal(layout);
        }
        if !has_shape(n, Kind::Joint) {
            return None;
        }
        Some(Joint {
            unknown_0x00: num_of(n.values[0]),
            flags: num_of(n.values[1]),
            child: target_of(n.values[2]),
            next: target_of(n.values[3]),
            data: target_of(n.values[4]),
            rotation: [num_of(n.values[5]), num_of(n.values[6]), num_of(n.values[7])],
            scale: [num_of(n.values[8]), num_of(n.values[9]), num_of(n.values[10])],
            position: [num_of(n.values[11]), num_of(n.values[12]), num_of(n.values[13])],
            transform: target_of(n.values[14]),
            unknown_0x3c: num_of(n.values[15]),
        })
    }
}

/// A record of kind `JointData`, with each pointer field as the handle of its node
/// and each floating-point field as its bits.
#[derive(Debug, Clone, Copy)]
pub struct JointData {
    pub unknown_0x00: u32,
    pub next: Option<usize>,
    pub material: Option<usize>,
    pub mesh: Option<usize>,
}

impl JointData {
    /// The record that node `n` holds.
    pub open spec fn of_node(n: Node) -> JointData {
        JointData {
            unknown_0x00: num(n.values@[0]),
            next: target(n.values@[1]),
            material: target(n.values@[2]),
            mesh: target(n.values@[3]),
        }
    }

    /// Reads the record out of node `n`, if `n` is a complete node of this kind.
    pub fn from_node(n: &Node) -> (r: Option<JointData>)
        ensures
            r == (if shaped(*n, Kind::JointData) {
                Some(JointData::of_node(*n))
            } else {
                None
            }),
    {
        proof {
            reveal(layout);
        }
        if !has_shape(n, Kind::JointData) {
            return None;
        }
        Some(JointData {
            unknown_0x00: num_of(n.values[0]),
            next: target_of(n.values[1]),
            material: target_of(n.values[2]),
            mesh: target_of(n.values[3]),
        })
    }
}

/// A record of kind `Material`, with each pointer field as the handle of its node
/// and each floating-point field as its bits.
#[derive(Debug, Clone, Copy)]
pub struct Material {
    pub class: u32,
    pub render_mode: u32,
    pub texture: Option<usize>,
    pub color: Option<usize>,
    pub render_desc: u32,
    pub pedesc: u32,
}

impl Material {
    /// The record that node `n` holds.
    pub open spec fn of_node(n: Node) -> Material {
        Material {
            class: num(n.values@[0]),
            render_mode: num(n.values@[1]),
            texture: target(n.values@[2]),
            color: target(n.values@[3]),
            render_desc: num(n.values@[4]),
            pedesc: num(n.values@[5]),
        }
    }

    /// Reads the record out of node `n`, if `n` is a complete node of this kind.
    pub fn from_node(n: &Node) -> (r: Option<Material>)
        ensures
            r == (if shaped(*n, Kind::Material) {
                Some(Material::of_node(*n))
            } else {
                None
            }),
    {
        proof {
            reveal(layout);
        }
        if !has_shape(n, Kind::Material) {
            return None;
        }
        Some(Material {
            class: num_of(n.values[0]),
            render_mode: num_of(n.values[1]),
            texture: target_of(n.values[2]),
            color: target_of(n.values[3]),
            render_desc: num_of(n.values[4]),
            pedesc: num_of(n.values[5]),
        })
    }
}

/// A record of kind `Color`, with each pointer field as the handle of its node
/// and each floating-point field as its bits.
#[derive(Debug, Clone, Copy)]
pub struct Color {
    pub diffuse: u32,
    pub ambient: u32,
    pub specular: u32,
    pub alpha: u32,
    pub shininess: u32,
}

impl Color {
    /// The record that node `n` holds.
    pub open spec fn of_node(n: Node) -> Color {
        Color {
            diffuse: num(n.values@[0]),
            ambient: num(n.values@[1]),
            specular: num(n.values@[2]),
            alpha: num(n.values@[3]),
            shininess: num(n.values@[4]),
        }
    }

    /// Reads the record out of node `n`, if `n` is a complete node of this kind.
    pub fn from_node(n: &Node) -> (r: Option<Color>)
        ensures
            r == (if shaped(*n, Kind::Color) {
                Some(Color::of_node(*n))
            } else {
                None
            }),
    {
        proof {
            reveal(layout);
        }
        if !has_shape(n, Kind::Color) {
            return None;
        }
        Some(Color {
            diffuse: num_of(n.values[0]),
            ambient: num_of(n.values[1]),
            specular: num_of(n.values[2]),
            alpha: num_of(n.values[3]),
            shininess: num_of(n.values[4]),
        })
    }
}

/// A record of kind `Texture`, with each pointer field as the handle of its node
/// and each floating-point field as its bits.
#[derive(Debug, Clone, Copy)]
pub struct Texture {
    pub unknown_0x00: u32,
    pub next: Option<usize>,
    pub unknown_0x08: u32,
    pub unknown_0x0c: u32,
    pub rotation: [u32; 3],
    pub scale: [u32; 3],
    pub position: [u32; 3],
    pub s_wrap: u32,
    pub t_wrap: u32,
    pub s_scale: u8,
    pub t_scale: u8,
    pub anim_id: u16,
    pub mapping_flags: u32,
    pub blending: u32,
    pub unknown_0x48: u32,
    pub image: Option<usize>,
    pub palette: Option<usize>,
    pub unknown_0x54: u32,
    pub unknown_0x58: Option<usize>,
}

impl Texture {
    /// The record that node `n` holds.
    pub open spec fn of_node(n: Node) -> Texture {
        Texture {
            unknown_0x00: num(n.values@[0]),
            next: target(n.values@[1]),
            unknown_0x08: num(n.values@[2]),
            unknown_0x0c: num(n.values@[3]),
            rotation: [num(n.values@[4]), num(n.values@[5]), num(n.values@[6])],
            scale: [num(n.values@[7]), num(n.values@[8]), num(n.values@[9])],
            position: [num(n.values@[10]), num(n.values@[11]), num(n.values@[12])],
            s_wrap: num(n.values@[13]),
            t_wrap: num(n.values@[14]),
            s_scale: num(n.values@[15]) as u8,
            t_scale: num(n.values@[16]) as u8,
            anim_id: num(n.values@[17]) as u16,
            mapping_flags: num(n.values@[18]),
            blending: num(n.values@[19]),
            unknown_0x48: num(n.values@[20]),
            image: target(n.values@[21]),
            palette: target(n.values@[22]),
            unknown_0x54: num(n.values@[23]),
            unknown_0x58: target(n.values@[24]),
        }
    }

    /// Reads the record out of node `n`, if `n` is a complete node of this kind.
    pub fn from_node(n: &Node) -> (r: Option<Texture>)
        ensures
            r == (if shaped(*n, Kind::Texture) {
                Some(Texture::of_node(*n))
            } else {
                None
            }),
    {
        proof {
            reveal(layout);
        }
        if !has_shape(n, Kind::Texture) {
            return None;
        }
        Some(Texture {
            unknown_0x00: num_of(n.values[0]),
            next: target_of(n.values[1]),
            unknown_0x08: num_of(n.values[2]),
            unknown_0x0c: num_of(n.values[3]),
            rotation: [num_of(n.values[4]), num_of(n.values[5]), num_of(n.values[6])],
            scale: [num_of(n.values[7]), num_of(n.values[8]), num_of(n.values[9])],
            position: [num_of(n.values[10]), num_of(n.values[11]), num_of(n.values[12])],
            s_wrap: num_of(n.values[13]),
            t_wrap: num_of(n.values[14]),
            s_scale: num_of(n.values[15]) as u8,
            t_scale: num_of(n.values[16]) as u8,
            anim_id: num_of(n.values[17]) as u16,
            mapping_flags: num_of(n.values[18]),
            blending: num_of(n.values[19]),
            unknown_0x48: num_of(n.values[20]),
            image: target_of(n.values[21]),
            palette: target_of(n.values[22]),
            unknown_0x54: num_of(n.values[23]),
            unknown_0x58: target_of(n.values[24]),
        })
    }
}

/// A record of kind `Weight`, with each pointer field as the handle of its node
/// and each floating-point field as its bits.
#[derive(Debug, Clone, Copy)]
pub struct Weight {
    pub joint: Option<usize>,
    pub factor: u32,
}

impl Weight {
    /// The record that node `n` holds.
    pub open spec fn of_node(n: Node) -> Weight {
        Weight { joint: target(n.values@[0]), factor: num(n.values@[1]) }
    }

    /// Reads the record out of node `n`, if `n` is a complete node of this kind.
    pub fn from_node(n: &Node) -> (r: Option<Weight>)
        ensures
            r == (if shaped(*n, Kind::Weight) {
                Some(Weight::of_node(*n))
            } else {
                None
            }),
    {
        proof {
            reveal(layout);
        }
        if !has_shape(n, Kind::Weight) {
            return None;
        }
        Some(Weight { joint: target_of(n.values[0]), factor: num_of(n.values[1]) })
    }
}

/// A record of kind `Collision`, with each pointer field as the handle of its node
/// and each floating-point field as its bits.
#[derive(Debug, Clone, Copy)]
pub struct Collision {
    pub spots: u32,
    pub nspots: u32,
    pub links: Option<usize>,
    pub nlinks: u32,
    pub index_table: [Index; 5],
    pub colldata: Option<usize>,
    pub ncolldata: u32,
}

impl Collision {
    /// The record that node `n` holds.
    pub open spec fn of_node(n: Node) -> Collision {
        Collision {
            spots: num(n.values@[0]),
            nspots: num(n.values@[1]),
            links: target(n.values@[2]),
            nlinks: num(n.values@[3]),
            index_table: [
                Index { start: num(n.values@[4]) as u16, num: num(n.values@[5]) as u16 },
                Index { start: num(n.values@[6]) as u16, num: num(n.values@[7]) as u16 },
                Index { start: num(n.values@[8]) as u16, num: num(n.values@[9]) as u16 },
                Index { start: num(n.values@[10]) as u16, num: num(n.values@[11]) as u16 },
                Index { start: num(n.values@[12]) as u16, num: num(n.values@[13]) as u16 },
            ],
            colldata: target(n.values@[14]),
            ncolldata: num(n.values@[15]),
        }
    }

    /// Reads the record out of node `n`, if `n` is a complete node of this kind.
    pub fn from_node(n: &Node) -> (r: Option<Collision>)
        ensures
            r == (if shaped(*n, Kind::Collision) {
                Some(Collision::of_node(*n))
            } else {
                None
            }),
    {
        proof {
            reveal(layout);
        }
        if !has_shape(n, Kind::Collision) {
            return None;
        }
        Some(Collision {
            spots: num_of(n.values[0]),
            nspots: num_of(n.values[1]),
            links: target_of(n.values[2]),
            nlinks: num_of(n.values[3]),
            index_table: [
                Index { start: num_of(n.values[4]) as u16, num: num_of(n.values[5]) as u16 },
                Index { start: num_of(n.values[6]) as u16, num: num_of(n.values[7]) as u16 },
                Index { start: num_of(n.values[8]) as u16, num: num_of(n.values[9]) as u16 },
                Index { start: num_of(n.values[10]) as u16, num: num_of(n.values[11]) as u16 },
                Index { start: num_of(n.values[12]) as u16, num: num_of(n.values[13]) as u16 },
            ],
            colldata: target_of(n.values[14]),
            ncolldata: num_of(n.values[15]),
        })
    }
}

/// A record of kind `Area`, with each pointer field as the handle of its node
/// and each floating-point field as its bits.
#[derive(Debug, Clone, Copy)]
pub struct Area {
    pub indextable: [Index; 4],
    pub unknown_0x10: u32,
    pub bounds: [u32; 4],
    pub low: u16,
    pub nlink: u16,
}

impl Area {
    /// The record that node `n` holds.
    pub open spec fn of_node(n: Node) -> Area {
        Area {
            indextable: [
                Index { start: num(n.values@[0]) as u16, num: num(n.values@[1]) as u16 },
                Index { start: num(n.values@[2]) as u16, num: num(n.values@[3]) as u16 },
                Index { start: num(n.values@[4]) as u16, num: num(n.values@[5]) as u16 },
                Index { start: num(n.values@[6]) as u16, num: num(n.values@[7]) as u16 },
            ],
            unknown_0x10: num(n.values@[8]),
            bounds: [
                num(n.values@[9]),
                num(n.values@[10]),
                num(n.values@[11]),
                num(n.values@[12]),
            ],
            low: num(n.values@[13]) as u16,
            nlink: num(n.values@[14]) as u16,
        }
    }

    /// Reads the record out of node `n`, if `n` is a complete node of this kind.
    pub fn from_node(n: &Node) -> (r: Option<Area>)
        ensures
            r == (if shaped(*n, Kind::Area) {
                Some(Area::of_node(*n))
            } else {
                None
            }),
    {
        proof {
            reveal(layout);
        }
        if !has_shape(n, Kind::Area) {
            return None;
        }
        Some(Area {
            indextable: [
                Index { start: num_of(n.values[0]) as u16, num: num_of(n.values[1]) as u16 },
                Index { start: num_of(n.values[2]) as u16, num: num_of(n.values[3]) as u16 },
                Index { start: num_of(n.values[4]) as u16, num: num_of(n.values[5]) as u16 },
                Index { start: num_of(n.values[6]) as u16, num: num_of(n.values[7]) as u16 },
            ],
            unknown_0x10: num_of(n.values[8]),
            bounds: [
                num_of(n.values[9]),
                num_of(n.values[10]),
                num_of(n.values[11]),
                num_of(n.values[12]),
            ],
            low: num_of(n.values[13]) as u16,
            nlink: num_of(n.values[14]) as u16,
        })
    }
}

/// A record of kind `MatAnimJoint`, with each pointer field as the handle of its node
/// and each floating-point field as its bits.
#[derive(Debug, Clone, Copy)]
pub struct MatAnimJoint {
    pub next: Option<usize>,
    pub child: Option<usize>,
    pub matanim: MatAnim,
}

impl MatAnimJoint {
    /// The record that node `n` holds.
    pub open spec fn of_node(n: Node) -> MatAnimJoint {
        MatAnimJoint {
            next: target(n.values@[0]),
            child: target(n.values@[1]),
            matanim: MatAnim { next: target(n.values@[2]), aobjdesc: target(n.values@[3]), texanim: target(n.values@[4]), renderanim: num(n.values@[5]) },
        }
    }

    /// Reads the record out of node `n`, if `n` is a complete node of this kind.
    pub fn from_node(n: &Node) -> (r: Option<MatAnimJoint>)
        ensures
            r == (if shaped(*n, Kind::MatAnimJoint) {
                Some(MatAnimJoint::of_node(*n))
            } else {
                None
            }),
    {
        proof {
            reveal(layout);
        }
        if !has_shape(n, Kind::MatAnimJoint) {
            return None;
        }
        Some(MatAnimJoint {
            next: target_of(n.values[0]),
            child: target_of(n.values[1]),
            matanim: MatAnim { next: target_of(n.values[2]), aobjdesc: target_of(n.values[3]), texanim: target_of(n.values[4]), renderanim: num_of(n.values[5]) },
        })
    }
}

/// A record of kind `MatAnim`, with each pointer field as the handle of its node
/// and each floating-point field as its bits.
#[derive(Debug, Clone, Copy)]
pub struct MatAnim {
    pub next: Option<usize>,
    pub aobjdesc: Option<usize>,
    pub texanim: Option<usize>,
    pub renderanim: u32,
}

impl MatAnim {
    /// The record that node `n` holds.
    pub open spec fn of_node(n: Node) -> MatAnim {
        MatAnim {
            next: target(n.values@[0]),
            aobjdesc: target(n.values@[1]),
            texanim: target(n.values@[2]),
            renderanim: num(n.values@[3]),
        }
    }

    /// Reads the record out of node `n`, if `n` is a complete node of this kind.
    pub fn from_node(n: &Node) -> (r: Option<MatAnim>)
        ensures
            r == (if shaped(*n, Kind::MatAnim) {
                Some(MatAnim::of_node(*n))
            } else {
                None
            }),
    {
        proof {
            reveal(layout);
        }
        if !has_shape(n, Kind::MatAnim) {
            return None;
        }
        Some(MatAnim {
            next: target_of(n.values[0]),
            aobjdesc: target_of(n.values[1]),
            texanim: target_of(n.values[2]),
            renderanim: num_of(n.values[3]),
        })
    }
}

/// A record of kind `TexAnim`, with each pointer field as the handle of its node
/// and each floating-point field as its bits.
#[derive(Debug, Clone, Copy)]
pub struct TexAnim {
    pub next: Option<usize>,
    pub texmapid: u32,
    pub aobjdesc: Option<usize>,
    pub images: u32,
    pub palettes: u32,
    pub nimage: u32,
    pub npalette: u32,
}

impl TexAnim {
    /// The record that node `n` holds.
    pub open spec fn of_node(n: Node) -> TexAnim {
        TexAnim {
            next: target(n.values@[0]),
            texmapid: num(n.values@[1]),
            aobjdesc: target(n.values@[2]),
            images: num(n.values@[3]),
            palettes: num(n.values@[4]),
            nimage: num(n.values@[5]),
            npalette: num(n.values@[6]),
        }
    }

    /// Reads the record out of node `n`, if `n` is a complete node of this kind.
    pub fn from_node(n: &Node) -> (r: Option<TexAnim>)
        ensures
            r == (if shaped(*n, Kind::TexAnim) {
                Some(TexAnim::of_node(*n))
            } else {
                None
            }),
    {
        proof {
            reveal(layout);
        }
        if !has_shape(n, Kind::TexAnim) {
            return None;
        }
        Some(TexAnim {
            next: target_of(n.values[0]),
            texmapid: num_of(n.values[1]),
            aobjdesc: target_of(n.values[2]),
            images: num_of(n.values[3]),
            palettes: num_of(n.values[4]),
            nimage: num_of(n.values[5]),
            npalette: num_of(n.values[6]),
        })
    }
}

/// A record of kind `AObjDesc`, with each pointer field as the handle of its node
/// and each floating-point field as its bits.
#[derive(Debug, Clone, Copy)]
pub struct AObjDesc {
    pub flags: u32,
    pub end_frame: u32,
    pub fobjdesc: Option<usize>,
    pub obj_type: u32,
}

impl AObjDesc {
    /// The record that node `n` holds.
    pub open spec fn of_node(n: Node) -> AObjDesc {
        AObjDesc {
            flags: num(n.values@[0]),
            end_frame: num(n.values@[1]),
            fobjdesc: target(n.values@[2]),
            obj_type: num(n.values@[3]),
        }
    }

    /// Reads the record out of node `n`, if `n` is a complete node of this kind.
    pub fn from_node(n: &Node) -> (r: Option<AObjDesc>)
        ensures
            r == (if shaped(*n, Kind::AObjDesc) {
                Some(AObjDesc::of_node(*n))
            } else {
                None
            }),
    {
        proof {
            reveal(layout);
        }
        if !has_shape(n, Kind::AObjDesc) {
            return None;
        }
        Some(AObjDesc {
            flags: num_of(n.values[0]),
            end_frame: num_of(n.values[1]),
            fobjdesc: target_of(n.values[2]),
            obj_type: num_of(n.values[3]),
        })
    }
}

/// A record of kind `MapHeadA`, with each pointer field as the handle of its node
/// and each floating-point field as its bits.
#[derive(Debug, Clone, Copy)]
pub struct MapHeadA {
    pub mapjoint: Option<usize>,
    pub nmapjoint: u32,
    pub mapheadb: Option<usize>,
    pub nmapheadb: u32,
    pub jointdata: Option<usize>,
    pub njointdata: u32,
    pub mapheade: Option<usize>,
    pub nmapheade: u32,
    pub materials: u32,
    pub nmaterials: u32,
}

impl MapHeadA {
    /// The record that node `n` holds.
    pub open spec fn of_node(n: Node) -> MapHeadA {
        MapHeadA {
            mapjoint: target(n.values@[0]),
            nmapjoint: num(n.values@[1]),
            mapheadb: target(n.values@[2]),
            nmapheadb: num(n.values@[3]),
            jointdata: target(n.values@[4]),
            njointdata: num(n.values@[5]),
            mapheade: target(n.values@[6]),
            nmapheade: num(n.values@[7]),
            materials: num(n.values@[8]),
            nmaterials: num(n.values@[9]),
        }
    }

    /// Reads the record out of node `n`, if `n` is a complete node of this kind.
    pub fn from_node(n: &Node) -> (r: Option<MapHeadA>)
        ensures
            r == (if shaped(*n, Kind::MapHeadA) {
                Some(MapHeadA::of_node(*n))
            } else {
                None
            }),
    {
        proof {
            reveal(layout);
        }
        if !has_shape(n, Kind::MapHeadA) {
            return None;
        }
        Some(MapHeadA {
            mapjoint: target_of(n.values[0]),
            nmapjoint: num_of(n.values[1]),
            mapheadb: target_of(n.values[2]),
            nmapheadb: num_of(n.values[3]),
            jointdata: target_of(n.values[4]),
            njointdata: num_of(n.values[5]),
            mapheade: target_of(n.values[6]),
            nmapheade: num_of(n.values[7]),
            materials: num_of(n.values[8]),
            nmaterials: num_of(n.values[9]),
        })
    }
}

/// A record of kind `MapHeadB`, with each pointer field as the handle of its node
/// and each floating-point field as its bits.
#[derive(Debug, Clone, Copy)]
pub struct MapHeadB {
    pub joint: Option<usize>,
    pub mapheadq: Option<usize>,
    pub matanima: u32,
    pub mapheadf: Option<usize>,
    pub mapheadc: Option<usize>,
    pub mapheadh: Option<usize>,
    pub mapplitb: Option<usize>,
    pub mapheadd: Option<usize>,
    pub half: u32,
    pub nhalf: u32,
    pub allornot: u32,
}

impl MapHeadB {
    /// The record that node `n` holds.
    pub open spec fn of_node(n: Node) -> MapHeadB {
        MapHeadB {
            joint: target(n.values@[0]),
            mapheadq: target(n.values@[1]),
            matanima: num(n.values@[2]),
            mapheadf: target(n.values@[3]),
            mapheadc: target(n.values@[4]),
            mapheadh: target(n.values@[5]),
            mapplitb: target(n.values@[6]),
            mapheadd: target(n.values@[7]),
            half: num(n.values@[8]),
            nhalf: num(n.values@[9]),
            allornot: num(n.values@[10]),
        }
    }

    /// Reads the record out of node `n`, if `n` is a complete node of this kind.
    pub fn from_node(n: &Node) -> (r: Option<MapHeadB>)
        ensures
            r == (if shaped(*n, Kind::MapHeadB) {
                Some(MapHeadB::of_node(*n))
            } else {
                None
            }),
    {
        proof {
            reveal(layout);
        }
        if !has_shape(n, Kind::MapHeadB) {
            return None;
        }
        Some(MapHeadB {
            joint: target_of(n.values[0]),
            mapheadq: target_of(n.values[1]),
            matanima: num_of(n.values[2]),
            mapheadf: target_of(n.values[3]),
            mapheadc: target_of(n.values[4]),
            mapheadh: target_of(n.values[5]),
            mapplitb: target_of(n.values[6]),
            mapheadd: target_of(n.values[7]),
            half: num_of(n.values[8]),
            nhalf: num_of(n.values[9]),
            allornot: num_of(n.values[10]),
        })
    }
}

/// A record of kind `MapHeadC`, with each pointer field as the handle of its node
/// and each floating-point field as its bits.
#[derive(Debug, Clone, Copy)]
pub struct MapHeadC {
    pub unknown_0x00: u32,
    pub unknown_0x04: u32,
    pub unknown_0x08: u32,
    pub unknown_0x0c: u32,
    pub unknown_0x10: u32,
    pub unknown_0x14: u32,
    pub mpca1: u32,
    pub mpca2: u32,
    pub unknown_0x20: u32,
    pub unknown_0x24: u32,
    pub unknown_0x28: u32,
    pub unknown_0x2c: u32,
    pub unknown_0x30: u32,
    pub unknown_0x34: u32,
}

impl MapHeadC {
    /// The record that node `n` holds.
    pub open spec fn of_node(n: Node) -> MapHeadC {
        MapHeadC {
            unknown_0x00: num(n.values@[0]),
            unknown_0x04: num(n.values@[1]),
            unknown_0x08: num(n.values@[2]),
            unknown_0x0c: num(n.values@[3]),
            unknown_0x10: num(n.values@[4]),
            unknown_0x14: num(n.values@[5]),
            mpca1: num(n.values@[6]),
            mpca2: num(n.values@[7]),
            unknown_0x20: num(n.values@[8]),
            unknown_0x24: num(n.values@[9]),
            unknown_0x28: num(n.values@[10]),
            unknown_0x2c: num(n.values@[11]),
            unknown_0x30: num(n.values@[12]),
            unknown_0x34: num(n.values@[13]),
        }
    }

    /// Reads the record out of node `n`, if `n` is a complete node of this kind.
    pub fn from_node(n: &Node) -> (r: Option<MapHeadC>)
        ensures
            r == (if shaped(*n, Kind::MapHeadC) {
                Some(MapHeadC::of_node(*n))
            } else {
                None
            }),
    {
        proof {
            reveal(layout);
        }
        if !has_shape(n, Kind::MapHeadC) {
            return None;
        }
        Some(MapHeadC {
            unknown_0x00: num_of(n.values[0]),
            unknown_0x04: num_of(n.values[1]),
            unknown_0x08: num_of(n.values[2]),
            unknown_0x0c: num_of(n.values[3]),
            unknown_0x10: num_of(n.values[4]),
            unknown_0x14: num_of(n.values[5]),
            mpca1: num_of(n.values[6]),
            mpca2: num_of(n.values[7]),
            unknown_0x20: num_of(n.values[8]),
            unknown_0x24: num_of(n.values[9]),
            unknown_0x28: num_of(n.values[10]),
            unknown_0x2c: num_of(n.values[11]),
            unknown_0x30: num_of(n.values[12]),
            unknown_0x34: num_of(n.values[13]),
        })
    }
}

/// A record of kind `MapHeadH`, with each pointer field as the handle of its node
/// and each floating-point field as its bits.
#[derive(Debug, Clone, Copy)]
pub struct MapHeadH {
    pub unknown_0x00: u32,
    pub triplet0: u32,
    pub triplet1: u32,
    pub triplet2: u32,
    pub unknown_0x10: u32,
    pub mapheadc: Option<usize>,
    pub this: Option<usize>,
}

impl MapHeadH {
    /// The record that node `n` holds.
    pub open spec fn of_node(n: Node) -> MapHeadH {
        MapHeadH {
            unknown_0x00: num(n.values@[0]),
            triplet0: num(n.values@[1]),
            triplet1: num(n.values@[2]),
            triplet2: num(n.values@[3]),
            unknown_0x10: num(n.values@[4]),
            mapheadc: target(n.values@[5]),
            this: target(n.values@[6]),
        }
    }

    /// Reads the record out of node `n`, if `n` is a complete node of this kind.
    pub fn from_node(n: &Node) -> (r: Option<MapHeadH>)
        ensures
            r == (if shaped(*n, Kind::MapHeadH) {
                Some(MapHeadH::of_node(*n))
            } else {
                None
            }),
    {
        proof {
            reveal(layout);
        }
        if !has_shape(n, Kind::MapHeadH) {
            return None;
        }
        Some(MapHeadH {
            unknown_0x00: num_of(n.values[0]),
            triplet0: num_of(n.values[1]),
            triplet1: num_of(n.values[2]),
            triplet2: num_of(n.values[3]),
            unknown_0x10: num_of(n.values[4]),
            mapheadc: target_of(n.values[5]),
            this: target_of(n.values[6]),
        })
    }
}

/// A record of kind `MapJoint`, with each pointer field as the handle of its node
/// and each floating-point field as its bits.
#[derive(Debug, Clone, Copy)]
pub struct MapJoint {
    pub joint: Option<usize>,
    pub half: u32,
    pub nhalf: u32,
}

impl MapJoint {
    /// The record that node `n` holds.
    pub open spec fn of_node(n: Node) -> MapJoint {
        MapJoint { joint: target(n.values@[0]), half: num(n.values@[1]), nhalf: num(n.values@[2]) }
    }

    /// Reads the record out of node `n`, if `n` is a complete node of this kind.
    pub fn from_node(n: &Node) -> (r: Option<MapJoint>)
        ensures
            r == (if shaped(*n, Kind::MapJoint) {
                Some(MapJoint::of_node(*n))
            } else {
                None
            }),
    {
        proof {
            reveal(layout);
        }
        if !has_shape(n, Kind::MapJoint) {
            return None;
        }
        Some(MapJoint {
            joint: target_of(n.values[0]),
            half: num_of(n.values[1]),
            nhalf: num_of(n.values[2]),
        })
    }
}

/// A record of kind `GroundParam`, with each pointer field as the handle of its node
/// and each floating-point field as its bits.
#[derive(Debug, Clone, Copy)]
pub struct GroundParam {
    pub scale: u32,
    pub shadow: u32,
    pub unknown_0x08: u32,
    pub unknown_0x0c: u32,
    pub unknown_0x10: u32,
    pub tilt: u32,
    pub hrot: u32,
    pub vrot: u32,
    pub cam_fix: u32,
    pub unknown_0x24: u32,
    pub cam_smooth: u32,
    pub unknown_0x2c: u32,
    pub pause_min: u32,
    pub pause_init: u32,
    pub pause_max: u32,
    pub pause_up: u32,
    pub pause_left: u32,
    pub pause_right: u32,
    pub pause_down: u32,
    pub unknown_0x4c: u32,
    pub unknown_0x50: u32,
    pub unknown_0x54: u32,
    pub unknown_0x58: u32,
    pub unknown_0x5c: u32,
    pub unknown_0x60: u32,
    pub sub: [Sub; 20],
    pub music: Option<usize>,
    pub nmusic: u32,
}

impl GroundParam {
    /// The record that node `n` holds.
    pub open spec fn of_node(n: Node) -> GroundParam {
        GroundParam {
            scale: num(n.values@[0]),
            shadow: num(n.values@[1]),
            unknown_0x08: num(n.values@[2]),
            unknown_0x0c: num(n.values@[3]),
            unknown_0x10: num(n.values@[4]),
            tilt: num(n.values@[5]),
            hrot: num(n.values@[6]),
            vrot: num(n.values@[7]),
            cam_fix: num(n.values@[8]),
            unknown_0x24: num(n.values@[9]),
            cam_smooth: num(n.values@[10]),
            unknown_0x2c: num(n.values@[11]),
            pause_min: num(n.values@[12]),
            pause_init: num(n.values@[13]),
            pause_max: num(n.values@[14]),
            pause_up: num(n.values@[15]),
            pause_left: num(n.values@[16]),
            pause_right: num(n.values@[17]),
            pause_down: num(n.values@[18]),
            unknown_0x4c: num(n.values@[19]),
            unknown_0x50: num(n.values@[20]),
            unknown_0x54: num(n.values@[21]),
            unknown_0x58: num(n.values@[22]),
            unknown_0x5c: num(n.values@[23]),
            unknown_0x60: num(n.values@[24]),
            sub: [
                Sub { sub_0x00: num(n.values@[25]) as u16, sub_0x02: num(n.values@[26]) as u16 },
                Sub { sub_0x00: num(n.values@[27]) as u16, sub_0x02: num(n.values@[28]) as u16 },
                Sub { sub_0x00: num(n.values@[29]) as u16, sub_0x02: num(n.values@[30]) as u16 },
                Sub { sub_0x00: num(n.values@[31]) as u16, sub_0x02: num(n.values@[32]) as u16 },
                Sub { sub_0x00: num(n.values@[33]) as u16, sub_0x02: num(n.values@[34]) as u16 },
                Sub { sub_0x00: num(n.values@[35]) as u16, sub_0x02: num(n.values@[36]) as u16 },
                Sub { sub_0x00: num(n.values@[37]) as u16, sub_0x02: num(n.values@[38]) as u16 },
                Sub { sub_0x00: num(n.values@[39]) as u16, sub_0x02: num(n.values@[40]) as u16 },
                Sub { sub_0x00: num(n.values@[41]) as u16, sub_0x02: num(n.values@[42]) as u16 },
                Sub { sub_0x00: num(n.values@[43]) as u16, sub_0x02: num(n.values@[44]) as u16 },
                Sub { sub_0x00: num(n.values@[45]) as u16, sub_0x02: num(n.values@[46]) as u16 },
                Sub { sub_0x00: num(n.values@[47]) as u16, sub_0x02: num(n.values@[48]) as u16 },
                Sub { sub_0x00: num(n.values@[49]) as u16, sub_0x02: num(n.values@[50]) as u16 },
                Sub { sub_0x00: num(n.values@[51]) as u16, sub_0x02: num(n.values@[52]) as u16 },
                Sub { sub_0x00: num(n.values@[53]) as u16, sub_0x02: num(n.values@[54]) as u16 },
                Sub { sub_0x00: num(n.values@[55]) as u16, sub_0x02: num(n.values@[56]) as u16 },
                Sub { sub_0x00: num(n.values@[57]) as u16, sub_0x02: num(n.values@[58]) as u16 },
                Sub { sub_0x00: num(n.values@[59]) as u16, sub_0x02: num(n.values@[60]) as u16 },
                Sub { sub_0x00: num(n.values@[61]) as u16, sub_0x02: num(n.values@[62]) as u16 },
                Sub { sub_0x00: num(n.values@[63]) as u16, sub_0x02: num(n.values@[64]) as u16 },
            ],
            music: target(n.values@[65]),
            nmusic: num(n.values@[66]),
        }
    }

    /// Reads the record out of node `n`, if `n` is a complete node of this kind.
    pub fn from_node(n: &Node) -> (r: Option<GroundParam>)
        ensures
            r == (if shaped(*n, Kind::GroundParam) {
                Some(GroundParam::of_node(*n))
            } else {
                None
            }),
    {
        proof {
            reveal(layout);
        }
        if !has_shape(n, Kind::GroundParam) {
            return None;
        }
        Some(GroundParam {
            scale: num_of(n.values[0]),
            shadow: num_of(n.values[1]),
            unknown_0x08: num_of(n.values[2]),
            unknown_0x0c: num_of(n.values[3]),
            unknown_0x10: num_of(n.values[4]),
            tilt: num_of(n.values[5]),
            hrot: num_of(n.values[6]),
            vrot: num_of(n.values[7]),
            cam_fix: num_of(n.values[8]),
            unknown_0x24: num_of(n.values[9]),
            cam_smooth: num_of(n.values[10]),
            unknown_0x2c: num_of(n.values[11]),
            pause_min: num_of(n.values[12]),
            pause_init: num_of(n.values[13]),
            pause_max: num_of(n.values[14]),
            pause_up: num_of(n.values[15]),
            pause_left: num_of(n.values[16]),
            pause_right: num_of(n.values[17]),
            pause_down: num_of(n.values[18]),
            unknown_0x4c: num_of(n.values[19]),
            unknown_0x50: num_of(n.values[20]),
            unknown_0x54: num_of(n.values[21]),
            unknown_0x58: num_of(n.values[22]),
            unknown_0x5c: num_of(n.values[23]),
            unknown_0x60: num_of(n.values[24]),
            sub: [
                Sub { sub_0x00: num_of(n.values[25]) as u16, sub_0x02: num_of(n.values[26]) as u16 },
                Sub { sub_0x00: num_of(n.values[27]) as u16, sub_0x02: num_of(n.values[28]) as u16 },
                Sub { sub_0x00: num_of(n.values[29]) as u16, sub_0x02: num_of(n.values[30]) as u16 },
                Sub { sub_0x00: num_of(n.values[31]) as u16, sub_0x02: num_of(n.values[32]) as u16 },
                Sub { sub_0x00: num_of(n.values[33]) as u16, sub_0x02: num_of(n.values[34]) as u16 },
                Sub { sub_0x00: num_of(n.values[35]) as u16, sub_0x02: num_of(n.values[36]) as u16 },
                Sub { sub_0x00: num_of(n.values[37]) as u16, sub_0x02: num_of(n.values[38]) as u16 },
                Sub { sub_0x00: num_of(n.values[39]) as u16, sub_0x02: num_of(n.values[40]) as u16 },
                Sub { sub_0x00: num_of(n.values[41]) as u16, sub_0x02: num_of(n.values[42]) as u16 },
                Sub { sub_0x00: num_of(n.values[43]) as u16, sub_0x02: num_of(n.values[44]) as u16 },
                Sub { sub_0x00: num_of(n.values[45]) as u16, sub_0x02: num_of(n.values[46]) as u16 },
                Sub { sub_0x00: num_of(n.values[47]) as u16, sub_0x02: num_of(n.values[48]) as u16 },
                Sub { sub_0x00: num_of(n.values[49]) as u16, sub_0x02: num_of(n.values[50]) as u16 },
                Sub { sub_0x00: num_of(n.values[51]) as u16, sub_0x02: num_of(n.values[52]) as u16 },
                Sub { sub_0x00: num_of(n.values[53]) as u16, sub_0x02: num_of(n.values[54]) as u16 },
                Sub { sub_0x00: num_of(n.values[55]) as u16, sub_0x02: num_of(n.values[56]) as u16 },
                Sub { sub_0x00: num_of(n.values[57]) as u16, sub_0x02: num_of(n.values[58]) as u16 },
                Sub { sub_0x00: num_of(n.values[59]) as u16, sub_0x02: num_of(n.values[60]) as u16 },
                Sub { sub_0x00: num_of(n.values[61]) as u16, sub_0x02: num_of(n.values[62]) as u16 },
                Sub { sub_0x00: num_of(n.values[63]) as u16, sub_0x02: num_of(n.values[64]) as u16 },
            ],
            music: target_of(n.values[65]),
            nmusic: num_of(n.values[66]),
        })
    }
}

} // verus!
