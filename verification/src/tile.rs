//! The sticker-grid boundary: a 6x9 grid of optional face colors,
//! produced from cube states for display and read back with full
//! validation. This is the only interface the group algebra exposes to
//! rendering.
use crate::cube::center::{center_is_perm, center_wf, CenterMap};
use crate::cube::corner::{cori, cpos, corner_from_index_spec, corner_valid, Corner, CornerMap};
use crate::cube::edge::{
    eori, epos, edge_faces_spec, edge_from_index_spec, edge_valid, Edge, EdgeMap, Flip,
};
use crate::cube::{cc_centers_spec, cc_corners_spec, cube_wf, Cube, FixedCentersCube};
use crate::{Face, MapError};
use vstd::prelude::*;

verus! {

/// Why a grid fails to convert back into a cube state.
#[derive(Clone, Copy, Debug, PartialEq, Eq, Structural)]
pub enum TileMapConversionError {
    /// Three stickers that no legal corner or edge shows.
    InvalidPiece,
    /// A needed sticker is absent.
    MissingTile,
    /// The corner stickers fail map validation.
    Corner(MapError),
    /// The center stickers fail map validation.
    Center(MapError),
    /// The edge stickers fail map validation.
    Edge(MapError),
}

/// One sticker position: face times the nine positions on it, row by
/// row.
#[derive(Clone, Copy, Debug, PartialEq, Eq, Structural)]
pub enum Tile {
    U1,
    U2,
    U3,
    U4,
    U5,
    U6,
    U7,
    U8,
    U9,
    D1,
    D2,
    D3,
    D4,
    D5,
    D6,
    D7,
    D8,
    D9,
    F1,
    F2,
    F3,
    F4,
    F5,
    F6,
    F7,
    F8,
    F9,
    B1,
    B2,
    B3,
    B4,
    B5,
    B6,
    B7,
    B8,
    B9,
    R1,
    R2,
    R3,
    R4,
    R5,
    R6,
    R7,
    R8,
    R9,
    L1,
    L2,
    L3,
    L4,
    L5,
    L6,
    L7,
    L8,
    L9,
}

/// The 6x9 sticker grid, faces flattened in face order.
#[derive(Clone, Debug, PartialEq, Eq)]
pub struct TileMap {
    pub tiles: [Option<Face>; 54],
}

impl Default for TileMap {
    /// The empty grid.
    fn default() -> (r: TileMap)
        ensures
            r.tiles@ == blank_tiles(),
    {
        let r = TileMap {
            tiles: vstd::array::array_fill_for_copy_types::<Option<Face>, 54>(None),
        };
        proof {
            broadcast use vstd::array::axiom_spec_array_fill_for_copy_type;

            assert(r.tiles@ =~= blank_tiles());
        }
        r
    }
}

/// The two sticker positions of an edge slot, as the grid stores them.
pub open spec fn edge_tiles_spec(edge: Edge) -> (int, int) {
    match edge {
        Edge::LU => (46, 3),
        Edge::LD => (52, 12),
        Edge::RU => (37, 5),
        Edge::RD => (43, 14),
        Edge::BL => (32, 48),
        Edge::FL => (21, 50),
        Edge::FR => (23, 39),
        Edge::BR => (30, 41),
        Edge::BU => (28, 1),
        Edge::FD => (25, 10),
        Edge::FU => (19, 7),
        Edge::BD => (34, 16),
    }
}

/// The three sticker positions of a corner slot, as the grid stores
/// them.
pub open spec fn corner_tiles_spec(corner: Corner) -> (int, int, int) {
    match corner {
        Corner::ULF => (47, 6, 18),
        Corner::DLF => (53, 9, 24),
        Corner::ULB => (45, 0, 29),
        Corner::URF => (36, 8, 20),
        Corner::URB => (38, 2, 27),
        Corner::DLB => (51, 15, 35),
        Corner::DRF => (42, 11, 26),
        Corner::DRB => (44, 17, 33),
    }
}

/// The two sticker positions of an edge slot: the side sticker first,
/// the up-or-down-or-front-or-back sticker second.
pub fn tiles_from_edge(edge: Edge) -> (r: (usize, usize))
    ensures
        r.0 < 54,
        r.1 < 54,
        (r.0 as int, r.1 as int) == edge_tiles_spec(edge),
{
    match edge {
        Edge::LU => (46, 3),
        Edge::LD => (52, 12),
        Edge::RU => (37, 5),
        Edge::RD => (43, 14),
        Edge::BL => (32, 48),
        Edge::FL => (21, 50),
        Edge::FR => (23, 39),
        Edge::BR => (30, 41),
        Edge::BU => (28, 1),
        Edge::FD => (25, 10),
        Edge::FU => (19, 7),
        Edge::BD => (34, 16),
    }
}

/// The three sticker positions of a corner slot, on its x, y and z
/// faces in that order.
pub fn tiles_from_corner(corner: Corner) -> (r: [usize; 3])
    ensures
        forall|i: int| 0 <= i < 3 ==> r[i] < 54,
        (r[0] as int, r[1] as int, r[2] as int) == corner_tiles_spec(corner),
{
    match corner {
        Corner::ULF => [47, 6, 18],
        Corner::DLF => [53, 9, 24],
        Corner::ULB => [45, 0, 29],
        Corner::URF => [36, 8, 20],
        Corner::URB => [38, 2, 27],
        Corner::DLB => [51, 15, 35],
        Corner::DRF => [42, 11, 26],
        Corner::DRB => [44, 17, 33],
    }
}

/// The edge and flip a pair of sticker colors shows: every pair of
/// distinct faces off a shared axis shows exactly one, any other pair
/// shows none.
pub fn edge_from_faces(a: Face, b: Face) -> (r: Option<(Edge, Flip)>)
    ensures
        r is Some <==> crate::face_index_spec(a) / 2 != crate::face_index_spec(b) / 2,
        r is Some ==> ({
            let p = r->0;
            (p.1 is Identity ==> edge_faces_spec(p.0) == (a, b)) && (p.1 is Flipped
                ==> edge_faces_spec(p.0) == (b, a))
        }),
{
    let ai = a.index();
    let bi = b.index();
    if ai == bi || ai / 2 == bi / 2 {
        return None;
    }
    let key = ai * 6 + bi;
    match key {
        2 => Some((Edge::FU, Flip::Flipped)),
        3 => Some((Edge::BU, Flip::Flipped)),
        4 => Some((Edge::RU, Flip::Flipped)),
        5 => Some((Edge::LU, Flip::Flipped)),
        8 => Some((Edge::FD, Flip::Flipped)),
        9 => Some((Edge::BD, Flip::Flipped)),
        10 => Some((Edge::RD, Flip::Flipped)),
        11 => Some((Edge::LD, Flip::Flipped)),
        12 => Some((Edge::FU, Flip::Identity)),
        13 => Some((Edge::FD, Flip::Identity)),
        16 => Some((Edge::FR, Flip::Identity)),
        17 => Some((Edge::FL, Flip::Identity)),
        18 => Some((Edge::BU, Flip::Identity)),
        19 => Some((Edge::BD, Flip::Identity)),
        22 => Some((Edge::BR, Flip::Identity)),
        23 => Some((Edge::BL, Flip::Identity)),
        24 => Some((Edge::RU, Flip::Identity)),
        25 => Some((Edge::RD, Flip::Identity)),
        26 => Some((Edge::FR, Flip::Flipped)),
        27 => Some((Edge::BR, Flip::Flipped)),
        30 => Some((Edge::LU, Flip::Identity)),
        31 => Some((Edge::LD, Flip::Identity)),
        32 => Some((Edge::FL, Flip::Flipped)),
        33 => Some((Edge::BL, Flip::Flipped)),
        _ => None,
    }
}


/// Every corner sticker position holds a color.
pub open spec fn corner_tiles_all_set(m: TileMap) -> bool {
    forall|k: int|
        #![trigger corner_from_index_spec(k as u64)]
        0 <= k < 8 ==> {
            let ts = corner_tiles_spec(corner_from_index_spec(k as u64));
            m.tiles[ts.0] is Some && m.tiles[ts.1] is Some && m.tiles[ts.2] is Some
        }
}

/// Every edge sticker position holds a color.
pub open spec fn edge_tiles_all_set(m: TileMap) -> bool {
    forall|k: int|
        #![trigger edge_from_index_spec(k as u64)]
        0 <= k < 12 ==> {
            let ts = edge_tiles_spec(edge_from_index_spec(k as u64));
            m.tiles[ts.0] is Some && m.tiles[ts.1] is Some
        }
}

/// All six center stickers hold a color.
pub open spec fn center_tiles_all_set(m: TileMap) -> bool {
    m.tiles[4] is Some && m.tiles[13] is Some && m.tiles[22] is Some && m.tiles[31] is Some
        && m.tiles[40] is Some && m.tiles[49] is Some
}

/// The corner-identity bit a face color contributes on its axis.
pub open spec fn face_bit(f: int) -> int {
    (f % 2) * (if f / 2 == 0 {
        1int
    } else if f / 2 == 1 {
        2
    } else {
        4
    })
}

/// The corner piece three face colors name.
pub open spec fn corner_id_of(f1: int, f2: int, f3: int) -> int {
    face_bit(f1) + face_bit(f2) + face_bit(f3)
}

/// Whether a corner ordinal has odd coordinate parity.
pub open spec fn corner_odd_spec(p: int) -> bool {
    (p % 2 + (p / 2) % 2 + (p / 4) % 2) % 2 == 1
}

/// The sticker permutation table of `corner_sticker_perm`, in spec form.
pub open spec fn corner_sticker_perm_spec(t: int, slot_odd: bool, piece_odd: bool) -> (
    int,
    int,
    int,
) {
    if !slot_odd && !piece_odd {
        if t == 0 {
            (0int, 1int, 2int)
        } else if t == 1 {
            (2, 0, 1)
        } else {
            (1, 2, 0)
        }
    } else if !slot_odd && piece_odd {
        if t == 0 {
            (2, 1, 0)
        } else if t == 1 {
            (0, 2, 1)
        } else {
            (1, 0, 2)
        }
    } else if slot_odd && !piece_odd {
        if t == 0 {
            (2, 1, 0)
        } else if t == 1 {
            (1, 0, 2)
        } else {
            (0, 2, 1)
        }
    } else {
        if t == 0 {
            (0, 1, 2)
        } else if t == 1 {
            (1, 2, 0)
        } else {
            (2, 0, 1)
        }
    }
}

/// One of a corner piece's three face colors, by axis ordinal.
pub open spec fn corner_face_of(cid: int, axis: int) -> int {
    if axis == 0 {
        4 + cid / 4
    } else if axis == 1 {
        cid % 2
    } else {
        2 + (cid / 2) % 2
    }
}

/// The empty grid's cells.
pub open spec fn blank_tiles() -> Seq<Option<Face>> {
    Seq::new(54, |i: int| None)
}

/// One corner sticker by piece axis: the piece's color on that axis,
/// unless the mask bit for it suppresses the sticker.
pub open spec fn corner_axis_sticker(tile_mask: u64, k: int, axis: int) -> Option<Face> {
    if (tile_mask >> (((k as u64) % 8) * 8 + (axis as u64))) % 2 == 1 {
        None
    } else {
        Some(crate::face_from_index_spec(corner_face_of(k, axis) as u8))
    }
}

/// The grid after a corner map's stickers are written, piece by piece
/// from piece `k` on: piece `k`'s three colors land on its slot's
/// sticker cells, reordered by the twist's sticker permutation.
pub open spec fn corner_render(
    tiles: Seq<Option<Face>>,
    raw: u64,
    tile_mask: u64,
    k: int,
) -> Seq<Option<Face>>
    decreases 8 - k,
{
    if k < 0 || k >= 8 {
        tiles
    } else {
        let p = cpos(raw, k as u64) as int;
        let ts = corner_tiles_spec(corner_from_index_spec(p as u64));
        let sp = corner_sticker_perm_spec(
            cori(raw, k as u64) as int,
            corner_odd_spec(p),
            corner_odd_spec(k),
        );
        corner_render(
            tiles.update(ts.0, corner_axis_sticker(tile_mask, k, sp.0)).update(
                ts.1,
                corner_axis_sticker(tile_mask, k, sp.1),
            ).update(ts.2, corner_axis_sticker(tile_mask, k, sp.2)),
            raw,
            tile_mask,
            k + 1,
        )
    }
}

/// The edge sticker mask: the two four-bit halves of each mask byte
/// folded to two bits per piece.
pub open spec fn edge_mask_fold(m: u64) -> u64 {
    (m & 0xf0f0_f0f0) | ((m >> 36u64) & 0x0f0f_0f0f)
}

/// The two sticker options a placed edge piece shows, side sticker
/// first; pieces whose slot parity disagrees with the flip show them
/// exchanged.
pub open spec fn edge_pair_stickers(set: u64, tm: u64, k: int) -> (Option<Face>, Option<Face>) {
    let fp = edge_faces_spec(edge_from_index_spec(k as u64));
    let a = if tm % 2 == 1 {
        None
    } else {
        Some(fp.0)
    };
    let b = if (tm / 2) % 2 == 1 {
        None
    } else {
        Some(fp.1)
    };
    if (k / 4 + (epos(set, k as u64) as int) / 4) % 2 != eori(set, k as u64) as int {
        (b, a)
    } else {
        (a, b)
    }
}

/// The grid after an edge map's stickers are written, piece by piece
/// from piece `k` on, consuming two mask bits per piece.
pub open spec fn edge_render(
    tiles: Seq<Option<Face>>,
    set: u64,
    tm: u64,
    k: int,
) -> Seq<Option<Face>>
    decreases 12 - k,
{
    if k < 0 || k >= 12 {
        tiles
    } else {
        let ts = edge_tiles_spec(edge_from_index_spec(epos(set, k as u64)));
        let pr = edge_pair_stickers(set, tm, k);
        edge_render(tiles.update(ts.0, pr.0).update(ts.1, pr.1), set, tm / 2 / 2, k + 1)
    }
}

/// The grid after a center map's colors are written, face by face:
/// each face's color at the center cell the map sends it to.
pub open spec fn center_render(tiles: Seq<Option<Face>>, raw: u64, f: int) -> Seq<Option<Face>>
    decreases 6 - f,
{
    if f < 0 || f >= 6 {
        tiles
    } else {
        center_render(
            tiles.update(
                crate::cube::center::center_get_spec(raw, f as u64) as int * 9 + 4,
                Some(crate::face_from_index_spec(f as u8)),
            ),
            raw,
            f + 1,
        )
    }
}

/// The grid after the identity center colors are written, face by
/// face.
pub open spec fn center_id_render(tiles: Seq<Option<Face>>, f: int) -> Seq<Option<Face>>
    decreases 6 - f,
{
    if f < 0 || f >= 6 {
        tiles
    } else {
        center_id_render(
            tiles.update(f * 9 + 4, Some(crate::face_from_index_spec(f as u8))),
            f + 1,
        )
    }
}

/// Three sticker colors show the named slot holding the piece they
/// identify, twisted by `t`.
pub open spec fn corner_triple_shows(f1: int, f2: int, f3: int, slot: int, t: int) -> bool {
    let cid = corner_id_of(f1, f2, f3);
    let p = corner_sticker_perm_spec(t, corner_odd_spec(slot), corner_odd_spec(cid));
    f1 == corner_face_of(cid, p.0) && f2 == corner_face_of(cid, p.1) && f3 == corner_face_of(
        cid,
        p.2,
    )
}

/// Three sticker colors form a legal corner piece in the named slot:
/// one color per axis, in an arrangement some twist produces.
pub open spec fn corner_triple_fits(f1: int, f2: int, f3: int, slot: int) -> bool {
    &&& f1 / 2 != f2 / 2 && f1 / 2 != f3 / 2 && f2 / 2 != f3 / 2
    &&& exists|t: int| 0 <= t < 3 && corner_triple_shows(f1, f2, f3, slot, t)
}

/// Every corner sticker is set and every triple shows a legal piece.
pub open spec fn corner_grid_clean(m: TileMap) -> bool {
    &&& corner_tiles_all_set(m)
    &&& forall|k: int|
        #![trigger corner_from_index_spec(k as u64)]
        0 <= k < 8 ==> {
            let ts = corner_tiles_spec(corner_from_index_spec(k as u64));
            corner_triple_fits(
                crate::face_index_spec(m.tiles[ts.0]->0) as int,
                crate::face_index_spec(m.tiles[ts.1]->0) as int,
                crate::face_index_spec(m.tiles[ts.2]->0) as int,
                k,
            )
        }
}

/// Every edge sticker is set and every pair's colors are off a shared
/// axis.
pub open spec fn edge_grid_clean(m: TileMap) -> bool {
    &&& edge_tiles_all_set(m)
    &&& forall|k: int|
        #![trigger edge_from_index_spec(k as u64)]
        0 <= k < 12 ==> {
            let ts = edge_tiles_spec(edge_from_index_spec(k as u64));
            crate::face_index_spec(m.tiles[ts.0]->0) / 2 != crate::face_index_spec(
                m.tiles[ts.1]->0,
            ) / 2
        }
}

/// The three even-face center colors and their axis-pair conditions.
pub open spec fn center_grid_clean(m: TileMap) -> bool {
    &&& center_tiles_all_set(m)
    &&& crate::face_index_spec(m.tiles[4]->0) / 2 == crate::face_index_spec(m.tiles[13]->0) / 2
    &&& m.tiles[4]->0 != m.tiles[13]->0
    &&& crate::face_index_spec(m.tiles[22]->0) / 2 == crate::face_index_spec(m.tiles[31]->0) / 2
    &&& m.tiles[22]->0 != m.tiles[31]->0
    &&& crate::face_index_spec(m.tiles[40]->0) / 2 == crate::face_index_spec(m.tiles[49]->0) / 2
    &&& m.tiles[40]->0 != m.tiles[49]->0
}

/// The center word a clean grid's even-face colors pack into.
pub open spec fn center_grid_word(m: TileMap) -> u64 {
    crate::cube::center::center_pack3(
        crate::face_index_spec(m.tiles[4]->0) as u64,
        crate::face_index_spec(m.tiles[22]->0) as u64,
        crate::face_index_spec(m.tiles[40]->0) as u64,
    )
}

/// Whether a corner ordinal has odd coordinate parity; mirrored
/// placements (piece and slot of opposite parity) show their stickers
/// with two axes exchanged.
fn corner_grid_parity(p: u8) -> (r: bool)
    ensures
        r == corner_odd_spec(p as int),
{
    (p % 2 + (p / 2) % 2 + (p / 4) % 2) % 2 == 1
}

/// How a corner piece's x, y and z stickers land on its slot's x, y and
/// z sticker positions: position `k` shows the piece sticker the entry
/// names, by axis ordinal.
fn corner_sticker_perm(tw: u8, slot_odd: bool, piece_odd: bool) -> (r: [u8; 3])
    ensures
        forall|i: int| 0 <= i < 3 ==> r[i] < 3,
        (r[0] as int, r[1] as int, r[2] as int) == corner_sticker_perm_spec(
            (tw % 3) as int,
            slot_odd,
            piece_odd,
        ),
{
    let t = tw % 3;
    if !slot_odd && !piece_odd {
        if t == 0 {
            [0, 1, 2]
        } else if t == 1 {
            [2, 0, 1]
        } else {
            [1, 2, 0]
        }
    } else if !slot_odd && piece_odd {
        if t == 0 {
            [2, 1, 0]
        } else if t == 1 {
            [0, 2, 1]
        } else {
            [1, 0, 2]
        }
    } else if slot_odd && !piece_odd {
        if t == 0 {
            [2, 1, 0]
        } else if t == 1 {
            [1, 0, 2]
        } else {
            [0, 2, 1]
        }
    } else {
        if t == 0 {
            [0, 1, 2]
        } else if t == 1 {
            [1, 2, 0]
        } else {
            [2, 0, 1]
        }
    }
}

/// The corner piece three face colors name, one color per axis.
fn corner_id(f1: u8, f2: u8, f3: u8) -> (r: u8)
    requires
        f1 < 6,
        f2 < 6,
        f3 < 6,
        f1 / 2 != f2 / 2,
        f1 / 2 != f3 / 2,
        f2 / 2 != f3 / 2,
    ensures
        r as int == corner_id_of(f1 as int, f2 as int, f3 as int),
        r < 8,
{
    let mut corner: u8 = 0;
    if f1 / 2 == 0 {
        corner = corner + (f1 % 2);
    } else if f1 / 2 == 1 {
        corner = corner + 2 * (f1 % 2);
    } else {
        corner = corner + 4 * (f1 % 2);
    }
    if f2 / 2 == 0 {
        corner = corner + (f2 % 2);
    } else if f2 / 2 == 1 {
        corner = corner + 2 * (f2 % 2);
    } else {
        corner = corner + 4 * (f2 % 2);
    }
    if f3 / 2 == 0 {
        corner = corner + (f3 % 2);
    } else if f3 / 2 == 1 {
        corner = corner + 2 * (f3 % 2);
    } else {
        corner = corner + 4 * (f3 % 2);
    }
    corner
}

impl TileMap {
    /// The sticker at a flat grid position.
    pub fn get(&self, i: usize) -> (r: Option<Face>)
        requires
            i < 54,
        ensures
            r == self.tiles[i as int],
    {
        self.tiles[i]
    }

    /// Sets the sticker at a flat grid position.
    pub fn set(&mut self, i: usize, v: Option<Face>)
        requires
            i < 54,
        ensures
            final (self).tiles@ == old(self).tiles@.update(i as int, v),
    {
        self.tiles[i] = v;
    }

    /// The grid of a whole cube.
    pub fn from_cube(cube: Cube) -> (r: TileMap)
        requires
            cube_wf(cube),
            center_is_perm(cc_centers_spec(cube.centered_corners.raw)),
        ensures
            r.tiles@ == corner_render(
                edge_render(
                    center_render(blank_tiles(), cc_centers_spec(cube.centered_corners.raw), 0),
                    cube.edges.set,
                    edge_mask_fold(0),
                    0,
                ),
                cc_corners_spec(cube.centered_corners.raw),
                0,
                0,
            ),
    {
        let mut tm = TileMap::default();
        tm.store_centers(cube.centers());
        tm.store_edges(cube.edges(), 0);
        tm.store_corners(cube.corners(), 0);
        tm
    }

    /// The grid of a fixed-centers cube, with identity centers.
    pub fn from_fixed(cube: FixedCentersCube) -> (r: TileMap)
        requires
            crate::cube::fc_wf(cube),
        ensures
            r.tiles@ == corner_render(
                edge_render(
                    center_id_render(blank_tiles(), 0),
                    cube.edges.set,
                    edge_mask_fold(0),
                    0,
                ),
                cube.corners.raw,
                0,
                0,
            ),
    {
        let mut tm = TileMap::default();
        tm.store_identity_centers();
        tm.store_edges(cube.edges, 0);
        tm.store_corners(cube.corners, 0);
        tm
    }

    /// The grid of a center map alone.
    pub fn from_centers(centers: CenterMap) -> (r: TileMap)
        requires
            crate::cube::center::center_wf(centers.raw),
            center_is_perm(centers.raw),
        ensures
            r.tiles@ == center_render(blank_tiles(), centers.raw, 0),
    {
        let mut tm = TileMap::default();
        tm.store_centers(centers);
        tm
    }

    /// The grid of a corner map alone, with identity centers.
    pub fn from_corners(corners: CornerMap) -> (r: TileMap)
        requires
            crate::cube::corner::corner_wf(corners.raw),
        ensures
            r.tiles@ == corner_render(center_id_render(blank_tiles(), 0), corners.raw, 0, 0),
    {
        let mut tm = TileMap::default();
        tm.store_identity_centers();
        tm.store_corners(corners, 0);
        tm
    }

    /// The grid of an edge map alone, with identity centers.
    pub fn from_edges(edges: EdgeMap) -> (r: TileMap)
        requires
            crate::cube::edge::edge_wf(edges.set),
        ensures
            r.tiles@ == edge_render(
                center_id_render(blank_tiles(), 0),
                edges.set,
                edge_mask_fold(0),
                0,
            ),
    {
        let mut tm = TileMap::default();
        tm.store_identity_centers();
        tm.store_edges(edges, 0);
        tm
    }

    /// Reads the whole grid back into a cube; every component is
    /// validated on the way, and a grid whose stickers all show legal
    /// pieces can only be rejected by map validation.
    pub fn cube(&self) -> (r: Result<Cube, TileMapConversionError>)
        ensures
            r is Ok ==> corner_valid(cc_corners_spec(r->Ok_0.centered_corners.raw)) && edge_valid(
                r->Ok_0.edges.set,
            ) && center_wf(cc_centers_spec(r->Ok_0.centered_corners.raw)) && center_is_perm(
                cc_centers_spec(r->Ok_0.centered_corners.raw),
            ),
            r is Ok ==> crate::cube::center::center_inv_rel(
                cc_centers_spec(r->Ok_0.centered_corners.raw),
                center_grid_word(*self),
            ),
            r == Err::<Cube, TileMapConversionError>(TileMapConversionError::MissingTile) ==> !(
            center_tiles_all_set(*self) && corner_tiles_all_set(*self) && edge_tiles_all_set(
                *self,
            )),
            center_grid_clean(*self) && corner_grid_clean(*self) && edge_grid_clean(*self) ==> r
                is Ok || r matches Err(TileMapConversionError::Center(_)) || r matches Err(
                TileMapConversionError::Corner(_),
            ) || r matches Err(TileMapConversionError::Edge(_)),
    {
        let centers = match self.centers() {
            Err(e) => {
                return Err(e);
            },
            Ok(c) => c,
        };
        let corners = match self.corners() {
            Err(e) => {
                return Err(e);
            },
            Ok(c) => c,
        };
        let edges = match self.edges() {
            Err(e) => {
                return Err(e);
            },
            Ok(e) => e,
        };
        Ok(Cube::new(centers, corners, edges))
    }

    /// Reads the grid back into a fixed-centers cube: the whole-cube
    /// state with its centers rotated home.
    pub fn fc_cube(&self) -> (r: Result<FixedCentersCube, TileMapConversionError>)
        ensures
            r == Err::<FixedCentersCube, TileMapConversionError>(
                TileMapConversionError::MissingTile,
            ) ==> !(center_tiles_all_set(*self) && corner_tiles_all_set(*self)
                && edge_tiles_all_set(*self)),
            center_grid_clean(*self) && corner_grid_clean(*self) && edge_grid_clean(*self) ==> r
                is Ok || r matches Err(TileMapConversionError::Center(_)) || r matches Err(
                TileMapConversionError::Corner(_),
            ) || r matches Err(TileMapConversionError::Edge(_)),
            r is Ok ==> crate::cube::fc_wf(r->Ok_0),
    {
        let c = match self.cube() {
            Err(e) => {
                return Err(e);
            },
            Ok(c) => c,
        };
        let inv = c.centers().inverse();
        let idx = inv.index();
        let rot = if idx < 24 {
            crate::moves::rotation_cube(idx)
        } else {
            Cube::default()
        };
        Ok(
            FixedCentersCube {
                corners: c.corners().multiply(rot.corners()),
                edges: c.edges().multiply(rot.edges()),
            },
        )
    }

    /// Reads the edge stickers back into an edge map, validating it.
    /// A missing sticker is reported only when one is missing; a grid
    /// whose edge pairs all show legal edges gets past both grid errors,
    /// so only map validation can still reject it.
    pub fn edges(&self) -> (r: Result<EdgeMap, TileMapConversionError>)
        ensures
            r is Ok ==> edge_valid(r->Ok_0.set),
            r == Err::<EdgeMap, TileMapConversionError>(TileMapConversionError::MissingTile)
                ==> !edge_tiles_all_set(*self),
            r == Err::<EdgeMap, TileMapConversionError>(TileMapConversionError::InvalidPiece)
                ==> !edge_grid_clean(*self),
            edge_grid_clean(*self) ==> r is Ok || r matches Err(TileMapConversionError::Edge(_)),
    {
        let mut pos: [u8; 12] = [0; 12];
        let mut ori: [u8; 12] = [0; 12];
        let all = Edge::edges();
        let mut k: usize = 0;
        while k < 12
            invariant
                k <= 12,
                all@.len() == 12,
                forall|j: int| 0 <= j < 12 ==> all@[j] == edge_from_index_spec(j as u64),
                forall|j: int| 0 <= j < 12 ==> pos@[j] < 12 && ori@[j] < 2,
            decreases 12 - k,
        {
            let p = all[k];
            let (t1, t2) = tiles_from_edge(p);
            let f1 = match self.tiles[t1] {
                None => {
                    proof {
                        assert(!edge_tiles_all_set(*self)) by {
                            assert(self.tiles[edge_tiles_spec(edge_from_index_spec(k as u64)).0]
                                is None);
                        }
                    }
                    return Err(TileMapConversionError::MissingTile);
                },
                Some(f) => f,
            };
            let f2 = match self.tiles[t2] {
                None => {
                    proof {
                        assert(!edge_tiles_all_set(*self)) by {
                            assert(self.tiles[edge_tiles_spec(edge_from_index_spec(k as u64)).1]
                                is None);
                        }
                    }
                    return Err(TileMapConversionError::MissingTile);
                },
                Some(f) => f,
            };
            let ef = match edge_from_faces(f1, f2) {
                None => {
                    proof {
                        assert(!edge_grid_clean(*self)) by {
                            assert(crate::face_index_spec(f1) / 2 == crate::face_index_spec(f2)
                                / 2);
                        }
                    }
                    return Err(TileMapConversionError::InvalidPiece);
                },
                Some(x) => x,
            };
            let (edge, flip) = ef;
            let ei = edge.index();
            let pi = p.index();
            let parity = (flip.index() + (ei / 4 + pi / 4)) % 2;
            pos[(ei % 12) as usize] = pi;
            ori[(ei % 12) as usize] = parity;
            k = k + 1;
        }
        let packed = crate::cube::edge::edge_pack(&pos, &ori);
        match EdgeMap::from_raw(packed) {
            Ok(em) => Ok(em),
            Err(e) => Err(TileMapConversionError::Edge(e)),
        }
    }

    /// Reads the center stickers back into a center map, validating it:
    /// the six colors must pair up across the three axes and name one of
    /// the 24 rotations; the returned map is the inverse of the packed
    /// color word, the rotation that carries the grid's centers.
    pub fn centers(&self) -> (r: Result<CenterMap, TileMapConversionError>)
        ensures
            r is Ok ==> center_wf(r->Ok_0.raw) && center_is_perm(r->Ok_0.raw),
            r is Ok ==> crate::cube::center::center_inv_rel(r->Ok_0.raw, center_grid_word(*self)),
            r == Err::<CenterMap, TileMapConversionError>(TileMapConversionError::MissingTile)
                ==> !center_tiles_all_set(*self),
            center_grid_clean(*self) ==> r is Ok || r matches Err(
                TileMapConversionError::Center(_),
            ),
            center_grid_clean(*self) && crate::moves::center_in_catalog(center_grid_word(*self))
                ==> r is Ok,
    {
        let y1 = match self.tiles[4] {
            None => {
                return Err(TileMapConversionError::MissingTile);
            },
            Some(f) => f.index(),
        };
        let y2 = match self.tiles[13] {
            None => {
                return Err(TileMapConversionError::MissingTile);
            },
            Some(f) => f.index(),
        };
        if y1 / 2 != y2 / 2 || y1 == y2 {
            return Err(TileMapConversionError::Center(MapError::Orientation));
        }
        let x1 = match self.tiles[22] {
            None => {
                return Err(TileMapConversionError::MissingTile);
            },
            Some(f) => f.index(),
        };
        let x2 = match self.tiles[31] {
            None => {
                return Err(TileMapConversionError::MissingTile);
            },
            Some(f) => f.index(),
        };
        if x1 / 2 != x2 / 2 || x1 == x2 {
            return Err(TileMapConversionError::Center(MapError::Orientation));
        }
        let z1 = match self.tiles[40] {
            None => {
                return Err(TileMapConversionError::MissingTile);
            },
            Some(f) => f.index(),
        };
        let z2 = match self.tiles[49] {
            None => {
                return Err(TileMapConversionError::MissingTile);
            },
            Some(f) => f.index(),
        };
        if z1 / 2 != z2 / 2 || z1 == z2 {
            return Err(TileMapConversionError::Center(MapError::Orientation));
        }
        let g: [u8; 3] = [y1 % 6, x1 % 6, z1 % 6];
        let packed = crate::cube::center::center_pack(&g);
        proof {
            crate::cube::center::lemma_center_pack3(y1 as u64, x1 as u64, z1 as u64);
            crate::cube::center::lemma_center_eq_fields(packed, center_grid_word(*self));
        }
        let cm = match CenterMap::from_raw(packed) {
            Ok(c) => c,
            Err(e) => {
                return Err(TileMapConversionError::Center(e));
            },
        };
        Ok(cm.inverse())
    }

    /// Reads one corner slot's three stickers into the piece it shows
    /// and its twist.
    #[verifier::rlimit(100)]
    fn corner_slot_read(&self, slot: usize, p: Corner) -> (r: Result<
        (u8, u8),
        TileMapConversionError,
    >)
        requires
            slot < 8,
            p == corner_from_index_spec(slot as u64),
        ensures
            r is Ok ==> r->Ok_0.0 < 8 && r->Ok_0.1 < 3,
            r == Err::<(u8, u8), TileMapConversionError>(TileMapConversionError::MissingTile)
                ==> !corner_tiles_all_set(*self),
            r == Err::<(u8, u8), TileMapConversionError>(TileMapConversionError::InvalidPiece)
                ==> !corner_grid_clean(*self),
            corner_grid_clean(*self) ==> r is Ok,
            r is Ok || r == Err::<(u8, u8), TileMapConversionError>(
                TileMapConversionError::MissingTile,
            ) || r == Err::<(u8, u8), TileMapConversionError>(
                TileMapConversionError::InvalidPiece,
            ),
    {
        let k = slot;
        let ts = tiles_from_corner(p);
        let f1 = match self.tiles[ts[0]] {
            None => {
                proof {
                    assert(!corner_tiles_all_set(*self)) by {
                        assert(self.tiles[corner_tiles_spec(corner_from_index_spec(k as u64)).0]
                            is None);
                    }
                }
                return Err(TileMapConversionError::MissingTile);
            },
            Some(f) => f.index(),
        };
        let f2 = match self.tiles[ts[1]] {
            None => {
                proof {
                    assert(!corner_tiles_all_set(*self)) by {
                        assert(self.tiles[corner_tiles_spec(corner_from_index_spec(k as u64)).1]
                            is None);
                    }
                }
                return Err(TileMapConversionError::MissingTile);
            },
            Some(f) => f.index(),
        };
        let f3 = match self.tiles[ts[2]] {
            None => {
                proof {
                    assert(!corner_tiles_all_set(*self)) by {
                        assert(self.tiles[corner_tiles_spec(corner_from_index_spec(k as u64)).2]
                            is None);
                    }
                }
                return Err(TileMapConversionError::MissingTile);
            },
            Some(f) => f.index(),
        };
        let axes_ok = (f1 / 2 != f2 / 2) && (f1 / 2 != f3 / 2) && (f2 / 2 != f3 / 2);
        if !axes_ok {
            proof {
                assert(!corner_triple_fits(f1 as int, f2 as int, f3 as int, k as int));
            }
            return Err(TileMapConversionError::InvalidPiece);
        }
        let corner = corner_id(f1, f2, f3);
        let piece = Corner::from_index(corner % 8);
        let faces: [u8; 3] = [piece.x().index(), piece.y().index(), piece.z().index()];
        proof {
            assert(faces@[0] as int == corner_face_of(corner as int, 0));
            assert(faces@[1] as int == corner_face_of(corner as int, 1));
            assert(faces@[2] as int == corner_face_of(corner as int, 2));
        }
        let slot_odd = corner_grid_parity(k as u8);
        let piece_odd = corner_grid_parity(corner % 8);
        let mut twist: u8 = 3;
        let mut t: u8 = 0;
        while t < 3
            invariant
                t <= 3,
                twist <= 3,
                k < 8,
                corner < 8,
                corner as int == corner_id_of(f1 as int, f2 as int, f3 as int),
                faces@[0] as int == corner_face_of(corner as int, 0),
                faces@[1] as int == corner_face_of(corner as int, 1),
                faces@[2] as int == corner_face_of(corner as int, 2),
                slot_odd == corner_odd_spec(k as int),
                piece_odd == corner_odd_spec(corner as int),
                twist == 3 ==> forall|t0: int|
                    0 <= t0 < t ==> !corner_triple_shows(
                        f1 as int,
                        f2 as int,
                        f3 as int,
                        k as int,
                        t0,
                    ),
                twist < 3 ==> corner_triple_shows(
                    f1 as int,
                    f2 as int,
                    f3 as int,
                    k as int,
                    twist as int,
                ),
            decreases 3 - t,
        {
            let perm = corner_sticker_perm(t, slot_odd, piece_odd);
            if f1 == faces[(perm[0] % 3) as usize] && f2 == faces[(perm[1] % 3) as usize] && f3
                == faces[(perm[2] % 3) as usize] {
                twist = t;
                t = 3;
            } else {
                t = t + 1;
            }
        }
        if twist >= 3 {
            proof {
                assert(!corner_triple_fits(f1 as int, f2 as int, f3 as int, k as int)) by {
                    assert(forall|t0: int|
                        0 <= t0 < 3 ==> !corner_triple_shows(
                            f1 as int,
                            f2 as int,
                            f3 as int,
                            k as int,
                            t0,
                        ));
                }
            }
            return Err(TileMapConversionError::InvalidPiece);
        }
        Ok((corner % 8, twist % 3))
    }

    /// Reads the corner stickers back into a corner map, validating it.
    /// A missing sticker is reported only when one is missing; a grid
    /// whose corner triples all show legal pieces gets past both grid
    /// errors, so only map validation can still reject it.
    pub fn corners(&self) -> (r: Result<CornerMap, TileMapConversionError>)
        ensures
            r is Ok ==> corner_valid(r->Ok_0.raw),
            r == Err::<CornerMap, TileMapConversionError>(TileMapConversionError::MissingTile)
                ==> !corner_tiles_all_set(*self),
            r == Err::<CornerMap, TileMapConversionError>(TileMapConversionError::InvalidPiece)
                ==> !corner_grid_clean(*self),
            corner_grid_clean(*self) ==> r is Ok || r matches Err(
                TileMapConversionError::Corner(_),
            ),
    {
        let mut pos: [u8; 8] = [0; 8];
        let mut ori: [u8; 8] = [0; 8];
        let all = Corner::corners();
        let mut k: usize = 0;
        while k < 8
            invariant
                k <= 8,
                all@.len() == 8,
                forall|j: int| 0 <= j < 8 ==> all@[j] == corner_from_index_spec(j as u64),
                forall|j: int| 0 <= j < 8 ==> pos@[j] < 8 && ori@[j] < 3,
            decreases 8 - k,
        {
            let p = all[k];
            let (cid, tw) = match self.corner_slot_read(k, p) {
                Err(e) => {
                    return Err(e);
                },
                Ok(v) => v,
            };
            pos[(cid % 8) as usize] = p.index();
            ori[(cid % 8) as usize] = tw % 3;
            k = k + 1;
        }
        let packed = crate::cube::corner::corner_pack(&pos, &ori);
        match CornerMap::from_raw(packed) {
            Ok(cm) => Ok(cm),
            Err(e) => Err(TileMapConversionError::Corner(e)),
        }
    }

    /// Writes the identity center stickers: each face's own color at its
    /// own center cell; no other cell is touched.
    pub fn store_identity_centers(&mut self)
        ensures
            final (self).tiles@ == center_id_render(old(self).tiles@, 0),
            forall|f: int|
                #![trigger crate::face_from_index_spec(f as u8)]
                0 <= f < 6 ==> final (self).tiles[f * 9 + 4] == Some(
                    crate::face_from_index_spec(f as u8),
                ),
            forall|t: int|
                0 <= t < 54 && t % 9 != 4 ==> final (self).tiles[t] == old(self).tiles[t],
    {
        let faces = Face::faces();
        let mut i: usize = 0;
        while i < 6
            invariant
                i <= 6,
                faces@.len() == 6,
                forall|j: int| 0 <= j < 6 ==> faces@[j] == crate::face_from_index_spec(j as u8),
                forall|f: int|
                    #![trigger crate::face_from_index_spec(f as u8)]
                    0 <= f < i as int ==> self.tiles[f * 9 + 4] == Some(
                        crate::face_from_index_spec(f as u8),
                    ),
                forall|t: int| 0 <= t < 54 && t % 9 != 4 ==> self.tiles[t] == old(self).tiles[t],
                center_id_render(old(self).tiles@, 0) == center_id_render(self.tiles@, i as int),
            decreases 6 - i,
        {
            let ghost pre = self.tiles@;
            let f = faces[i];
            self.tiles[(f.index() as usize) * 9 + 4] = Some(f);
            proof {
                assert(crate::face_index_spec(f) == i as u8);
                assert(self.tiles@ == pre.update(
                    i as int * 9 + 4,
                    Some(crate::face_from_index_spec(i as u8)),
                ));
                assert(center_id_render(pre, i as int) == center_id_render(
                    self.tiles@,
                    i as int + 1,
                ));
            }
            i = i + 1;
        }
    }

    /// Writes the center stickers of a center map: each face's color at
    /// the center cell the map sends it to; no other cell is touched.
    pub fn store_centers(&mut self, centers: CenterMap)
        requires
            crate::cube::center::center_wf(centers.raw),
            center_is_perm(centers.raw),
        ensures
            final (self).tiles@ == center_render(old(self).tiles@, centers.raw, 0),
            forall|f: int|
                #![trigger crate::face_from_index_spec(f as u8)]
                0 <= f < 6 ==> final (self).tiles[crate::cube::center::center_get_spec(
                    centers.raw,
                    f as u64,
                ) as int * 9 + 4] == Some(crate::face_from_index_spec(f as u8)),
            forall|t: int|
                0 <= t < 54 && t % 9 != 4 ==> final (self).tiles[t] == old(self).tiles[t],
    {
        let faces = Face::faces();
        let mut i: usize = 0;
        while i < 6
            invariant
                i <= 6,
                faces@.len() == 6,
                crate::cube::center::center_wf(centers.raw),
                center_is_perm(centers.raw),
                forall|j: int| 0 <= j < 6 ==> faces@[j] == crate::face_from_index_spec(j as u8),
                forall|f: int|
                    #![trigger crate::face_from_index_spec(f as u8)]
                    0 <= f < i as int ==> self.tiles[crate::cube::center::center_get_spec(
                        centers.raw,
                        f as u64,
                    ) as int * 9 + 4] == Some(crate::face_from_index_spec(f as u8)),
                forall|t: int| 0 <= t < 54 && t % 9 != 4 ==> self.tiles[t] == old(self).tiles[t],
                center_render(old(self).tiles@, centers.raw, 0) == center_render(
                    self.tiles@,
                    centers.raw,
                    i as int,
                ),
            decreases 6 - i,
        {
            let ghost pre = self.tiles@;
            let f = faces[i];
            let dst = centers.get(f);
            self.tiles[(dst.index() as usize) * 9 + 4] = Some(f);
            proof {
                assert(crate::face_index_spec(f) == i as u8);
                assert(self.tiles@ == pre.update(
                    crate::cube::center::center_get_spec(centers.raw, i as u64) as int * 9 + 4,
                    Some(crate::face_from_index_spec(i as u8)),
                ));
                assert(center_render(pre, centers.raw, i as int) == center_render(
                    self.tiles@,
                    centers.raw,
                    i as int + 1,
                ));
                assert forall|f0: int|
                    #![trigger crate::face_from_index_spec(f0 as u8)]
                    0 <= f0 < i as int + 1 implies self.tiles[
                crate::cube::center::center_get_spec(centers.raw, f0 as u64) as int * 9 + 4]
                    == Some(crate::face_from_index_spec(f0 as u8)) by {
                    if f0 < i as int {
                        crate::cube::center::lemma_center_get_injective(
                            centers.raw,
                            f0 as u64,
                            i as u64,
                        );
                    }
                }
            }
            i = i + 1;
        }
    }

    /// Writes the edge stickers of an edge map; set bits of `tile_mask`
    /// suppress single stickers, piece by piece.
    #[verifier::rlimit(100)]
    pub fn store_edges(&mut self, edges: EdgeMap, tile_mask: u64)
        requires
            crate::cube::edge::edge_wf(edges.set),
        ensures
            final (self).tiles@ == edge_render(
                old(self).tiles@,
                edges.set,
                edge_mask_fold(tile_mask),
                0,
            ),
    {
        let mut tmask = (tile_mask & 0xf0f0_f0f0) | ((tile_mask >> 36u64) & 0x0f0f_0f0f);
        let entries = edges.iter();
        let mut k: usize = 0;
        while k < entries.len()
            invariant
                k <= 12,
                entries@.len() == 12,
                crate::cube::edge::edge_wf(edges.set),
                forall|i: int|
                    0 <= i < 12 ==> entries@[i].0 == edge_from_index_spec(i as u64)
                        && crate::cube::edge::edge_index_spec(#[trigger] entries@[i].1.0) == epos(
                        edges.set,
                        i as u64,
                    ) && crate::cube::edge::flip_index_spec(entries@[i].1.1) == eori(
                        edges.set,
                        i as u64,
                    ),
                edge_render(old(self).tiles@, edges.set, edge_mask_fold(tile_mask), 0)
                    == edge_render(self.tiles@, edges.set, tmask, k as int),
            decreases entries@.len() - k,
        {
            let ghost pre = self.tiles@;
            let ghost tm0 = tmask;
            let (edge, pf) = entries[k];
            let (p, flipped) = pf;
            let fpair = edge.faces();
            let af = fpair.0;
            let bf = fpair.1;
            let mut a: Option<Face> = if tmask % 2 == 0 {
                Some(af)
            } else {
                None
            };
            tmask = tmask / 2;
            let mut b: Option<Face> = if tmask % 2 == 0 {
                Some(bf)
            } else {
                None
            };
            tmask = tmask / 2;
            let position_parity = (edge.index() / 4 + p.index() / 4) % 2;
            if position_parity != flipped.index() {
                let t = a;
                a = b;
                b = t;
            }
            let (a_index, b_index) = tiles_from_edge(p);
            self.tiles[a_index] = a;
            self.tiles[b_index] = b;
            proof {
                let ki = k as int;
                assert(edge_from_index_spec(crate::cube::edge::edge_index_spec(p) as u64) == p);
                assert(crate::cube::edge::edge_index_spec(edge) == k as u64);
                let pr = edge_pair_stickers(edges.set, tm0, ki);
                assert((a, b) == pr);
                let tsp = edge_tiles_spec(edge_from_index_spec(epos(edges.set, k as u64)));
                assert(self.tiles@ == pre.update(tsp.0, pr.0).update(tsp.1, pr.1));
                assert(edge_render(pre, edges.set, tm0, ki) == edge_render(
                    self.tiles@,
                    edges.set,
                    tm0 / 2 / 2,
                    ki + 1,
                ));
            }
            k = k + 1;
        }
    }

    /// Writes the corner stickers of a corner map; set bits of
    /// `tile_mask` suppress single stickers, three per piece.
    #[verifier::rlimit(100)]
    pub fn store_corners(&mut self, cm: CornerMap, tile_mask: u64)
        requires
            crate::cube::corner::corner_wf(cm.raw),
        ensures
            final (self).tiles@ == corner_render(old(self).tiles@, cm.raw, tile_mask, 0),
    {
        let entries = cm.iter();
        let mut k: usize = 0;
        while k < entries.len()
            invariant
                k <= 8,
                entries@.len() == 8,
                crate::cube::corner::corner_wf(cm.raw),
                forall|i: int|
                    0 <= i < 8 ==> entries@[i].0 == corner_from_index_spec(i as u64)
                        && crate::cube::corner::corner_index_spec(#[trigger] entries@[i].1.0)
                        == cpos(cm.raw, i as u64) && crate::cube::corner::twist_index_spec(
                        entries@[i].1.1,
                    ) == cori(cm.raw, i as u64),
                corner_render(old(self).tiles@, cm.raw, tile_mask, 0) == corner_render(
                    self.tiles@,
                    cm.raw,
                    tile_mask,
                    k as int,
                ),
            decreases entries@.len() - k,
        {
            let ghost pre = self.tiles@;
            let (piece, pt) = entries[k];
            let (p, twist) = pt;
            let kb = ((k as u64) % 8) * 8;
            let suppress_x = (tile_mask >> kb) % 2 == 1;
            let suppress_y = (tile_mask >> (kb + 1)) % 2 == 1;
            let suppress_z = (tile_mask >> (kb + 2)) % 2 == 1;
            let stickers: [Option<Face>; 3] = [
                if suppress_x {
                    None
                } else {
                    Some(piece.x())
                },
                if suppress_y {
                    None
                } else {
                    Some(piece.y())
                },
                if suppress_z {
                    None
                } else {
                    Some(piece.z())
                },
            ];
            let slot_odd = corner_grid_parity(p.index());
            let piece_odd = corner_grid_parity(piece.index());
            let perm = corner_sticker_perm(twist.index(), slot_odd, piece_odd);
            let ts = tiles_from_corner(p);
            self.tiles[ts[0]] = stickers[(perm[0] % 3) as usize];
            self.tiles[ts[1]] = stickers[(perm[1] % 3) as usize];
            self.tiles[ts[2]] = stickers[(perm[2] % 3) as usize];
            proof {
                let ki = k as int;
                assert(corner_from_index_spec(crate::cube::corner::corner_index_spec(p) as u64)
                    == p);
                assert(crate::cube::corner::corner_index_spec(piece) == k as u64);
                let sp = corner_sticker_perm_spec(
                    cori(cm.raw, k as u64) as int,
                    corner_odd_spec(cpos(cm.raw, k as u64) as int),
                    corner_odd_spec(ki),
                );
                assert(stickers@[0] == corner_axis_sticker(tile_mask, ki, 0));
                assert(stickers@[1] == corner_axis_sticker(tile_mask, ki, 1));
                assert(stickers@[2] == corner_axis_sticker(tile_mask, ki, 2));
                let tsp = corner_tiles_spec(corner_from_index_spec(cpos(cm.raw, k as u64)));
                assert(self.tiles@ == pre.update(
                    tsp.0,
                    corner_axis_sticker(tile_mask, ki, sp.0),
                ).update(tsp.1, corner_axis_sticker(tile_mask, ki, sp.1)).update(
                    tsp.2,
                    corner_axis_sticker(tile_mask, ki, sp.2),
                ));
                assert(corner_render(pre, cm.raw, tile_mask, ki) == corner_render(
                    self.tiles@,
                    cm.raw,
                    tile_mask,
                    ki + 1,
                ));
            }
            k = k + 1;
        }
    }
}

} // verus!
