//! The catalog of the seven tetromino shapes.

use crate::chance::uniform_inclusive;
use vstd::prelude::*;

verus! {

/// A point of one of the discrete grids, as (column, row); rows grow upwards.
pub type IVector = (i32, i32);

/// The layout of one tetromino.
pub struct TetrominoLayout {
    /// The four blocks, in the tetromino's own coordinate system. Their order
    /// matters: joints name blocks by their position in this array.
    pub coords: [IVector; 4],
    /// The joints, each a pair of block indices. Their number varies by shape.
    pub joints: Vec<(usize, usize)>,
}

/// What a [`TetrominoLayout`] stands for: the sequence of its block
/// coordinates and the sequence of its joints.
pub struct LayoutView {
    pub coords: Seq<IVector>,
    pub joints: Seq<(usize, usize)>,
}

impl View for TetrominoLayout {
    type V = LayoutView;

    open spec fn view(&self) -> LayoutView {
        LayoutView { coords: self.coords@, joints: self.joints@ }
    }
}

/// Whether `joint` connects two different blocks of a four-block piece.
pub open spec fn joint_is_valid(joint: (usize, usize)) -> bool {
    joint.0 < 4 && joint.1 < 4 && joint.0 != joint.1
}

impl LayoutView {
    /// The layout has four blocks, and every joint refers to two different
    /// blocks among them.
    pub open spec fn wf(self) -> bool {
        &&& self.coords.len() == 4
        &&& forall|p: int| 0 <= p < self.joints.len() ==> joint_is_valid(#[trigger] self.joints[p])
    }
}

/// The seven tetromino kinds.
#[derive(Clone, Copy, Debug, PartialEq, Eq, Structural)]
pub enum TetrominoKind {
    I,
    O,
    T,
    J,
    L,
    S,
    Z,
}

impl TetrominoKind {
    /// The kind that a draw of `n` selects: the kinds in declaration order for
    /// 0 to 5, and `Z` for every other number.
    pub open spec fn of_index(n: int) -> TetrominoKind {
        if n == 0 {
            TetrominoKind::I
        } else if n == 1 {
            TetrominoKind::O
        } else if n == 2 {
            TetrominoKind::T
        } else if n == 3 {
            TetrominoKind::J
        } else if n == 4 {
            TetrominoKind::L
        } else if n == 5 {
            TetrominoKind::S
        } else {
            TetrominoKind::Z
        }
    }

    /// The block coordinates of the shape, relative to its reference block.
    pub open spec fn coords(self) -> Seq<IVector> {
        match self {
            TetrominoKind::I => seq![(1i32, 1i32), (1i32, 0i32), (1i32, -1i32), (1i32, -2i32)],
            TetrominoKind::O => seq![(0i32, 0i32), (1i32, 0i32), (1i32, -1i32), (0i32, -1i32)],
            TetrominoKind::T => seq![(0i32, 0i32), (1i32, 0i32), (2i32, 0i32), (1i32, -1i32)],
            TetrominoKind::J => seq![(1i32, 0i32), (1i32, -1i32), (1i32, -2i32), (0i32, -2i32)],
            TetrominoKind::L => seq![(1i32, 0i32), (1i32, -1i32), (1i32, -2i32), (2i32, -2i32)],
            TetrominoKind::S => seq![(0i32, -1i32), (1i32, -1i32), (1i32, 0i32), (2i32, 0i32)],
            TetrominoKind::Z => seq![(0i32, 0i32), (1i32, 0i32), (1i32, -1i32), (2i32, -1i32)],
        }
    }

    /// The joints of the shape. The square closes its chain with a fourth
    /// joint between blocks 1 and 0; every other shape is an open chain.
    pub open spec fn joints(self) -> Seq<(usize, usize)> {
        match self {
            TetrominoKind::O => seq![
                (0usize, 1usize),
                (1usize, 2usize),
                (2usize, 3usize),
                (1usize, 0usize),
            ],
            TetrominoKind::T => seq![(0usize, 1usize), (1usize, 2usize), (1usize, 3usize)],
            _ => seq![(0usize, 1usize), (1usize, 2usize), (2usize, 3usize)],
        }
    }

    /// The layout of the shape.
    pub open spec fn spec_layout(self) -> LayoutView {
        LayoutView { coords: self.coords(), joints: self.joints() }
    }

    /// Maps a drawn number to its kind.
    pub fn from_index(n: u8) -> (kind: Self)
        ensures
            kind == Self::of_index(n as int),
    {
        match n {
            0 => Self::I,
            1 => Self::O,
            2 => Self::T,
            3 => Self::J,
            4 => Self::L,
            5 => Self::S,
            _ => Self::Z,
        }
    }

    /// Picks one of the seven kinds by a uniform draw from `0..=6`.
    pub fn random() -> (kind: Self)
        ensures
            exists|n: int| 0 <= n <= 6 && kind == Self::of_index(n),
    {
        let n: u8 = uniform_inclusive(0, 6);
        Self::from_index(n)
    }

    /// Looks up the layout of the kind.
    pub fn layout(&self) -> (out: TetrominoLayout)
        ensures
            out@ == self.spec_layout(),
            out@.wf(),
    {
        match self {
            Self::I => TetrominoLayout {
                coords: [(1, 1), (1, 0), (1, -1), (1, -2)],
                joints: vec![(0, 1), (1, 2), (2, 3)],
            },
            Self::O => TetrominoLayout {
                coords: [(0, 0), (1, 0), (1, -1), (0, -1)],
                joints: vec![(0, 1), (1, 2), (2, 3), (1, 0)],
            },
            Self::T => TetrominoLayout {
                coords: [(0, 0), (1, 0), (2, 0), (1, -1)],
                joints: vec![(0, 1), (1, 2), (1, 3)],
            },
            Self::J => TetrominoLayout {
                coords: [(1, 0), (1, -1), (1, -2), (0, -2)],
                joints: vec![(0, 1), (1, 2), (2, 3)],
            },
            Self::L => TetrominoLayout {
                coords: [(1, 0), (1, -1), (1, -2), (2, -2)],
                joints: vec![(0, 1), (1, 2), (2, 3)],
            },
            Self::S => TetrominoLayout {
                coords: [(0, -1), (1, -1), (1, 0), (2, 0)],
                joints: vec![(0, 1), (1, 2), (2, 3)],
            },
            Self::Z => TetrominoLayout {
                coords: [(0, 0), (1, 0), (1, -1), (2, -1)],
                joints: vec![(0, 1), (1, 2), (2, 3)],
            },
        }
    }
}

/// Every shape of the catalog has exactly four blocks, and each of its
/// joints connects two different blocks among them. The square has four
/// joints, every other shape three.
pub proof fn lemma_catalog_well_formed(kind: TetrominoKind)
    ensures
        kind.spec_layout().wf(),
        kind.coords().len() == 4,
        forall|p: int|
            0 <= p < kind.joints().len() ==> {
                let (i, j) = #[trigger] kind.joints()[p];
                0 <= i < 4 && 0 <= j < 4 && i != j
            },
        kind.joints().len() == if kind == TetrominoKind::O { 4nat } else { 3nat },
{
}

/// Every joint of the catalog connects two blocks that share an edge: the
/// two lie one step apart, in one direction only.
pub proof fn lemma_joints_connect_neighbors(kind: TetrominoKind, p: int)
    requires
        0 <= p < kind.joints().len(),
    ensures
        ({
            let (i, j) = kind.joints()[p];
            let x_dir = kind.coords()[j as int].0 - kind.coords()[i as int].0;
            let y_dir = kind.coords()[j as int].1 - kind.coords()[i as int].1;
            (x_dir == 0 && (y_dir == 1 || y_dir == -1)) || (y_dir == 0 && (x_dir == 1 || x_dir
                == -1))
        }),
{
}

/// No two blocks of a shape lie on the same cell.
pub proof fn lemma_blocks_are_distinct(kind: TetrominoKind, j: int, k: int)
    requires
        0 <= j < k < 4,
    ensures
        kind.coords()[j] != kind.coords()[k],
{
}

/// Every draw from `0..=6` selects a kind, no two draws select the same
/// one, and every kind is selected by some draw: a uniform draw is a uniform
/// choice among the seven kinds.
pub proof fn lemma_draws_and_kinds_correspond(kind: TetrominoKind, m: int, n: int)
    requires
        0 <= m <= 6,
        0 <= n <= 6,
    ensures
        TetrominoKind::of_index(m) == TetrominoKind::of_index(n) ==> m == n,
        exists|k: int| 0 <= k <= 6 && kind == TetrominoKind::of_index(k),
{
    let k: int = match kind {
        TetrominoKind::I => 0,
        TetrominoKind::O => 1,
        TetrominoKind::T => 2,
        TetrominoKind::J => 3,
        TetrominoKind::L => 4,
        TetrominoKind::S => 5,
        TetrominoKind::Z => 6,
    };
    assert(kind == TetrominoKind::of_index(k));
}

} // verus!
