//! Decoder for a big-endian container of game asset records linked by offsets.
use vstd::prelude::*;

pub mod bytes;
pub mod error;
pub mod file;
pub mod graph;
pub mod header;
pub mod link;
pub mod records;
pub mod schema;

pub use crate::error::DatError;
pub use crate::file::{decode, DatFile, Root, Xref};
pub use crate::graph::{Graph, Node, Value};
pub use crate::header::{header_of, read_header, Header, HEADER_SIZE};
pub use crate::link::{find_root, link_files, Target};
pub use crate::records::{
    AObjDesc, Area, Collision, Color, Display, FObjDesc, GroundParam, HitBox, Image, Index,
    ItemData, Joint, JointData, JointDataUnk1, JointDataUnk2, Link, MapHeadA, MapHeadB, MapHeadC,
    MapHeadD, MapHeadE, MapHeadF, MapHeadG, MapHeadH, MapHeadQ, MapJoint, MapPlitB, MapPlitC,
    MapPlitD, MapPlitE, MatAnim, MatAnimJoint, Mesh, Music, Palette, QuakeMS, QuakeMSB, QuakeMSC,
    Sub, TexAnim, TexUnk, Texture, Transform, VertAttr, Weight,
};
pub use crate::schema::{Kind, Shape};

verus! {

/// Reads the header of a buffer of at least 32 bytes.
pub fn get_header(v: Vec<u8>) -> (h: Header)
    requires
        v@.len() >= HEADER_SIZE,
    ensures
        h == header_of(v@),
{
    crate::header::parse_header(&v)
}

/// The uppercase hexadecimal digit for `n` below 16.
pub open spec fn hex_digit(n: u8) -> char {
    if n < 10 {
        (('0' as u8) + n) as char
    } else {
        (('A' as u8) + n - 10) as char
    }
}

/// The two uppercase hexadecimal digits of a byte.
pub open spec fn hex_pair(b: u8) -> Seq<char> {
    seq![hex_digit(b / 16), hex_digit(b % 16)]
}

fn digit_str(n: u8) -> (r: &'static str)
    requires
        n < 16,
    ensures
        r@ == seq![hex_digit(n)],
{
    proof {
        reveal_strlit("0");
        reveal_strlit("1");
        reveal_strlit("2");
        reveal_strlit("3");
        reveal_strlit("4");
        reveal_strlit("5");
        reveal_strlit("6");
        reveal_strlit("7");
        reveal_strlit("8");
        reveal_strlit("9");
        reveal_strlit("A");
        reveal_strlit("B");
        reveal_strlit("C");
        reveal_strlit("D");
        reveal_strlit("E");
        reveal_strlit("F");
    }
    let r = match n {
        0 => "0",
        1 => "1",
        2 => "2",
        3 => "3",
        4 => "4",
        5 => "5",
        6 => "6",
        7 => "7",
        8 => "8",
        9 => "9",
        10 => "A",
        11 => "B",
        12 => "C",
        13 => "D",
        14 => "E",
        _ => "F",
    };
    assert(r@ =~= seq![hex_digit(n)]);
    r
}

/// Renders each byte as two uppercase hexadecimal digits.
pub fn as_hex(v: Vec<u8>) -> (r: Vec<String>)
    ensures
        r@.len() == v@.len(),
        forall|i: int| 0 <= i < v@.len() ==> (#[trigger] r@[i])@ == hex_pair(v@[i]),
{
    let mut r: Vec<String> = Vec::new();
    let mut i: usize = 0;
    while i < v.len()
        invariant
            i <= v@.len(),
            r@.len() == i,
            forall|j: int| 0 <= j < i ==> (#[trigger] r@[j])@ == hex_pair(v@[j]),
        decreases v@.len() - i,
    {
        let b = v[i];
        let mut s = String::from_str(digit_str(b / 16));
        s.append(digit_str(b % 16));
        assert(s@ =~= hex_pair(b));
        r.push(s);
        i = i + 1;
    }
    r
}

} // verus!
