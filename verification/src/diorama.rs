//! The diorama layouts: which lattice cells of the scene hold a unit cube,
//! and with which material.
//!
//! A scene is authored as stacked layer maps: each layer is a list of
//! 8-wide rows, rows run along `z` and cells along `x`, and a nonzero cell
//! value is the 1-based material index of a cube whose minimum corner sits
//! at `(x, y, z)` for the layer's height `y`. Expanding the maps into
//! placements is verified here; turning a placement into floating-point
//! geometry and a concrete material is the surrounding application's part.

use vstd::prelude::*;

verus! {

/// One unit cube of the scene: the lattice cell of its minimum corner and
/// the 1-based index of its material in the scene's palette.
#[derive(Debug, Clone, Copy, PartialEq, Eq, Structural)]
pub struct CubePlacement {
    pub x: usize,
    pub y: usize,
    pub z: usize,
    pub material_index: u8,
}

/// The placements of the first `k` cells of the row at height `y`, depth
/// `z`: cell `x` yields a placement exactly when it is nonzero.
pub open spec fn row_placements_upto(row: Seq<u8>, y: usize, z: usize, k: int) -> Seq<
    CubePlacement,
>
    decreases k,
{
    if k <= 0 {
        Seq::empty()
    } else {
        row_placements_upto(row, y, z, k - 1) + if row[k - 1] != 0 {
            seq![CubePlacement { x: (k - 1) as usize, y, z, material_index: row[k - 1] }]
        } else {
            Seq::empty()
        }
    }
}

/// The placements of one whole row.
pub open spec fn row_placements(row: Seq<u8>, y: usize, z: usize) -> Seq<CubePlacement> {
    row_placements_upto(row, y, z, row.len() as int)
}

/// The placements of the first `k` rows of the layer at height `y`, row
/// after row.
pub open spec fn layer_placements_upto(layer: Seq<Seq<u8>>, y: usize, k: int) -> Seq<
    CubePlacement,
>
    decreases k,
{
    if k <= 0 {
        Seq::empty()
    } else {
        layer_placements_upto(layer, y, k - 1) + row_placements(layer[k - 1], y, (k - 1) as usize)
    }
}

/// The placements of one whole layer.
pub open spec fn layer_placements(layer: Seq<Seq<u8>>, y: usize) -> Seq<CubePlacement> {
    layer_placements_upto(layer, y, layer.len() as int)
}

/// The placements of the first `k` layers, bottom layer first, layer `i`
/// standing at height `i`.
pub open spec fn layers_placements_upto(layers: Seq<Seq<Seq<u8>>>, k: int) -> Seq<CubePlacement>
    decreases k,
{
    if k <= 0 {
        Seq::empty()
    } else {
        layers_placements_upto(layers, k - 1) + layer_placements(layers[k - 1], (k - 1) as usize)
    }
}

/// The placements of a whole stack of layers.
pub open spec fn layers_placements(layers: Seq<Seq<Seq<u8>>>) -> Seq<CubePlacement> {
    layers_placements_upto(layers, layers.len() as int)
}

pub open spec fn diorama_layer_0() -> Seq<Seq<u8>> {
    seq![
        seq![2u8, 2u8, 2u8, 2u8, 2u8, 2u8, 2u8, 2u8],
        seq![2u8, 2u8, 2u8, 2u8, 2u8, 2u8, 2u8, 2u8],
        seq![2u8, 2u8, 2u8, 2u8, 2u8, 2u8, 2u8, 2u8],
        seq![2u8, 2u8, 2u8, 2u8, 2u8, 2u8, 2u8, 2u8],
        seq![2u8, 2u8, 2u8, 2u8, 2u8, 2u8, 2u8, 2u8],
        seq![2u8, 2u8, 2u8, 2u8, 2u8, 2u8, 2u8, 2u8],
        seq![2u8, 2u8, 2u8, 2u8, 2u8, 2u8, 2u8, 2u8],
        seq![2u8, 2u8, 2u8, 2u8, 2u8, 2u8, 2u8, 2u8],
    ]
}

pub open spec fn diorama_layer_1() -> Seq<Seq<u8>> {
    seq![
        seq![1u8, 1u8, 1u8, 1u8, 1u8, 1u8, 4u8, 4u8],
        seq![1u8, 1u8, 1u8, 9u8, 1u8, 9u8, 4u8, 4u8],
        seq![1u8, 1u8, 1u8, 9u8, 1u8, 9u8, 4u8, 4u8],
        seq![1u8, 9u8, 9u8, 9u8, 9u8, 9u8, 4u8, 4u8],
        seq![1u8, 1u8, 1u8, 9u8, 9u8, 9u8, 4u8, 4u8],
        seq![1u8, 1u8, 9u8, 9u8, 9u8, 9u8, 4u8, 4u8],
        seq![4u8, 4u8, 4u8, 4u8, 4u8, 4u8, 4u8, 4u8],
        seq![4u8, 4u8, 4u8, 4u8, 4u8, 4u8, 4u8, 4u8],
    ]
}

pub open spec fn diorama_layer_2() -> Seq<Seq<u8>> {
    seq![
        seq![1u8, 1u8, 1u8, 2u8, 2u8, 2u8, 0u8, 0u8],
        seq![1u8, 1u8, 2u8, 2u8, 5u8, 3u8, 0u8, 0u8],
        seq![1u8, 2u8, 5u8, 5u8, 5u8, 8u8, 0u8, 0u8],
        seq![2u8, 2u8, 5u8, 5u8, 5u8, 0u8, 0u8, 0u8],
        seq![2u8, 5u8, 5u8, 5u8, 5u8, 0u8, 0u8, 0u8],
        seq![2u8, 3u8, 8u8, 0u8, 0u8, 2u8, 0u8, 0u8],
    ]
}

pub open spec fn diorama_layer_3() -> Seq<Seq<u8>> {
    seq![
        seq![2u8, 2u8, 2u8, 3u8, 3u8, 3u8, 0u8, 0u8],
        seq![2u8, 2u8, 0u8, 0u8, 0u8, 0u8, 0u8, 0u8],
        seq![2u8, 0u8, 0u8, 0u8, 0u8, 0u8, 0u8, 0u8],
        seq![3u8, 0u8, 0u8, 0u8, 0u8, 0u8, 0u8, 0u8],
        seq![3u8, 0u8, 0u8, 7u8, 0u8, 0u8, 0u8, 0u8],
        seq![3u8, 0u8, 0u8, 0u8, 0u8, 0u8, 0u8, 0u8],
    ]
}

pub open spec fn diorama_layer_4() -> Seq<Seq<u8>> {
    seq![
        seq![9u8, 9u8, 9u8, 3u8, 3u8, 3u8, 0u8, 0u8],
        seq![9u8, 0u8, 0u8, 0u8, 0u8, 0u8, 0u8, 0u8],
        seq![9u8, 0u8, 0u8, 0u8, 0u8, 0u8, 0u8, 0u8],
        seq![3u8, 0u8, 0u8, 0u8, 0u8, 0u8, 0u8, 0u8],
        seq![3u8, 0u8, 0u8, 0u8, 0u8, 0u8, 0u8, 0u8],
        seq![3u8, 0u8, 0u8, 0u8, 0u8, 0u8, 0u8, 0u8],
    ]
}

pub open spec fn diorama_layer_5() -> Seq<Seq<u8>> {
    seq![
        seq![0u8, 0u8, 0u8, 3u8, 3u8, 3u8, 0u8, 0u8],
        seq![0u8, 0u8, 0u8, 0u8, 0u8, 0u8, 0u8, 0u8],
        seq![0u8, 0u8, 0u8, 0u8, 0u8, 0u8, 0u8, 0u8],
        seq![3u8, 0u8, 0u8, 0u8, 0u8, 0u8, 0u8, 0u8],
        seq![3u8, 0u8, 0u8, 0u8, 0u8, 0u8, 0u8, 0u8],
        seq![3u8, 0u8, 0u8, 0u8, 0u8, 0u8, 0u8, 0u8],
    ]
}

pub open spec fn diorama_layer_6() -> Seq<Seq<u8>> {
    seq![
        seq![0u8, 0u8, 0u8, 3u8, 3u8, 3u8, 0u8, 0u8],
        seq![0u8, 0u8, 0u8, 0u8, 0u8, 0u8, 0u8, 0u8],
        seq![3u8, 0u8, 0u8, 0u8, 0u8, 0u8, 0u8, 0u8],
        seq![3u8, 0u8, 0u8, 0u8, 0u8, 0u8, 0u8, 0u8],
        seq![3u8, 0u8, 0u8, 0u8, 0u8, 0u8, 0u8, 0u8],
        seq![3u8, 0u8, 0u8, 0u8, 0u8, 0u8, 0u8, 0u8],
    ]
}

pub open spec fn diorama_layer_7() -> Seq<Seq<u8>> {
    seq![
        seq![6u8, 6u8, 6u8, 3u8, 3u8, 3u8, 0u8, 0u8],
        seq![6u8, 6u8, 0u8, 0u8, 0u8, 3u8, 0u8, 0u8],
        seq![6u8, 0u8, 0u8, 0u8, 0u8, 0u8, 0u8, 0u8],
        seq![3u8, 0u8, 0u8, 0u8, 0u8, 0u8, 0u8, 0u8],
        seq![3u8, 0u8, 0u8, 0u8, 0u8, 0u8, 0u8, 0u8],
        seq![3u8, 0u8, 0u8, 0u8, 0u8, 0u8, 0u8, 0u8],
    ]
}

pub open spec fn diorama_layer_8() -> Seq<Seq<u8>> {
    seq![
        seq![3u8, 3u8, 3u8, 10u8, 10u8, 10u8, 0u8, 0u8],
        seq![3u8, 0u8, 0u8, 0u8, 0u8, 0u8, 0u8, 0u8],
        seq![3u8, 0u8, 0u8, 0u8, 0u8, 0u8, 0u8, 0u8],
        seq![10u8, 0u8, 0u8, 0u8, 0u8, 0u8, 0u8, 0u8],
        seq![10u8, 0u8, 0u8, 0u8, 0u8, 0u8, 0u8, 0u8],
        seq![10u8, 0u8, 0u8, 0u8, 0u8, 0u8, 0u8, 0u8],
    ]
}

pub open spec fn diorama_layer_9() -> Seq<Seq<u8>> {
    seq![
        seq![3u8, 3u8, 3u8, 3u8, 3u8, 3u8, 0u8, 0u8],
        seq![3u8, 3u8, 0u8, 0u8, 0u8, 0u8, 0u8, 0u8],
        seq![3u8, 0u8, 0u8, 0u8, 0u8, 0u8, 0u8, 0u8],
        seq![3u8, 0u8, 0u8, 0u8, 0u8, 0u8, 0u8, 0u8],
        seq![3u8, 0u8, 0u8, 0u8, 0u8, 0u8, 0u8, 0u8],
        seq![3u8, 0u8, 0u8, 0u8, 0u8, 0u8, 0u8, 0u8],
    ]
}

pub open spec fn diorama_layer_10() -> Seq<Seq<u8>> {
    seq![
        seq![11u8, 0u8, 0u8, 0u8, 0u8, 11u8, 0u8, 0u8],
        seq![0u8, 0u8, 0u8, 0u8, 0u8, 0u8, 0u8, 0u8],
        seq![0u8, 0u8, 0u8, 0u8, 0u8, 0u8, 0u8, 0u8],
        seq![0u8, 0u8, 0u8, 0u8, 0u8, 0u8, 0u8, 0u8],
        seq![0u8, 0u8, 0u8, 0u8, 0u8, 0u8, 0u8, 0u8],
        seq![11u8, 0u8, 0u8, 0u8, 0u8, 0u8, 0u8, 0u8],
    ]
}

pub open spec fn diorama2_layer_0() -> Seq<Seq<u8>> {
    seq![
        seq![0u8, 0u8, 0u8, 0u8, 0u8, 0u8, 0u8, 0u8],
        seq![0u8, 11u8, 2u8, 0u8, 0u8, 2u8, 11u8, 0u8],
        seq![0u8, 2u8, 2u8, 2u8, 2u8, 2u8, 2u8, 0u8],
        seq![0u8, 0u8, 2u8, 2u8, 2u8, 2u8, 0u8, 0u8],
        seq![0u8, 0u8, 2u8, 2u8, 2u8, 2u8, 0u8, 0u8],
        seq![0u8, 2u8, 2u8, 2u8, 2u8, 2u8, 2u8, 0u8],
        seq![0u8, 11u8, 2u8, 0u8, 0u8, 2u8, 11u8, 0u8],
        seq![0u8, 0u8, 0u8, 0u8, 0u8, 0u8, 0u8, 0u8],
    ]
}

pub open spec fn diorama2_layer_1() -> Seq<Seq<u8>> {
    seq![
        seq![0u8, 0u8, 0u8, 0u8, 0u8, 0u8, 0u8, 0u8],
        seq![0u8, 4u8, 0u8, 0u8, 0u8, 0u8, 4u8, 0u8],
        seq![0u8, 0u8, 8u8, 0u8, 0u8, 8u8, 0u8, 0u8],
        seq![0u8, 0u8, 0u8, 6u8, 6u8, 0u8, 0u8, 0u8],
        seq![0u8, 0u8, 0u8, 6u8, 6u8, 0u8, 0u8, 0u8],
        seq![0u8, 0u8, 8u8, 0u8, 0u8, 8u8, 0u8, 0u8],
        seq![0u8, 4u8, 0u8, 0u8, 0u8, 0u8, 4u8, 0u8],
        seq![0u8, 0u8, 0u8, 0u8, 0u8, 0u8, 0u8, 0u8],
    ]
}

pub open spec fn diorama2_layer_2() -> Seq<Seq<u8>> {
    seq![
        seq![0u8, 0u8, 0u8, 0u8, 0u8, 0u8, 0u8, 0u8],
        seq![0u8, 0u8, 0u8, 0u8, 0u8, 0u8, 0u8, 0u8],
        seq![0u8, 0u8, 0u8, 0u8, 0u8, 0u8, 0u8, 0u8],
        seq![0u8, 0u8, 0u8, 3u8, 3u8, 0u8, 0u8, 0u8],
        seq![0u8, 0u8, 0u8, 3u8, 3u8, 0u8, 0u8, 0u8],
        seq![0u8, 0u8, 0u8, 0u8, 0u8, 0u8, 0u8, 0u8],
        seq![0u8, 0u8, 0u8, 0u8, 0u8, 0u8, 0u8, 0u8],
        seq![0u8, 0u8, 0u8, 0u8, 0u8, 0u8, 0u8, 0u8],
    ]
}

/// The layer maps of the main diorama, bottom layer first.
pub open spec fn diorama_layers() -> Seq<Seq<Seq<u8>>> {
    seq![
        diorama_layer_0(),
        diorama_layer_1(),
        diorama_layer_2(),
        diorama_layer_3(),
        diorama_layer_4(),
        diorama_layer_5(),
        diorama_layer_6(),
        diorama_layer_7(),
        diorama_layer_8(),
        diorama_layer_9(),
        diorama_layer_10(),
    ]
}

/// The layer maps of the second, simpler diorama, bottom layer first.
pub open spec fn diorama2_layers() -> Seq<Seq<Seq<u8>>> {
    seq![diorama2_layer_0(), diorama2_layer_1(), diorama2_layer_2()]
}

/// Appends the placements of one row: a placement for each nonzero cell,
/// cells in `x` order.
fn push_row(out: &mut Vec<CubePlacement>, row: &[u8; 8], y: usize, z: usize)
    ensures
        final(out)@ == old(out)@ + row_placements(row@, y, z),
{
    proof {
        assert(out@ =~= out@ + row_placements_upto(row@, y, z, 0));
    }
    let mut x: usize = 0;
    while x < 8
        invariant
            x <= 8,
            out@ == old(out)@ + row_placements_upto(row@, y, z, x as int),
        decreases 8 - x,
    {
        let m = row[x];
        if m > 0 {
            out.push(CubePlacement { x, y, z, material_index: m });
        }
        proof {
            assert(row_placements_upto(row@, y, z, x + 1) == row_placements_upto(
                row@,
                y,
                z,
                x as int,
            ) + if row@[x as int] != 0 {
                seq![
                    CubePlacement {
                        x,
                        y,
                        z,
                        material_index: row@[x as int],
                    },
                ]
            } else {
                Seq::empty()
            });
            assert(out@ =~= old(out)@ + row_placements_upto(row@, y, z, x + 1));
        }
        x = x + 1;
    }
    proof {
        assert(row@.len() == 8);
    }
}

/// Appends the placements of one layer, rows in `z` order.
fn push_layer(out: &mut Vec<CubePlacement>, layer: &Vec<[u8; 8]>, y: usize)
    ensures
        final(out)@ == old(out)@ + layer_placements(layer.deep_view(), y),
{
    proof {
        assert(out@ =~= out@ + layer_placements_upto(layer.deep_view(), y, 0));
    }
    let mut z: usize = 0;
    while z < layer.len()
        invariant
            z <= layer@.len(),
            out@ == old(out)@ + layer_placements_upto(layer.deep_view(), y, z as int),
        decreases layer@.len() - z,
    {
        push_row(out, &layer[z], y, z);
        proof {
            assert(layer.deep_view()[z as int] =~= layer@[z as int]@);
            assert(layer_placements_upto(layer.deep_view(), y, z + 1) == layer_placements_upto(
                layer.deep_view(),
                y,
                z as int,
            ) + row_placements(layer.deep_view()[z as int], y, z));
            assert(out@ =~= old(out)@ + layer_placements_upto(layer.deep_view(), y, z + 1));
        }
        z = z + 1;
    }
    proof {
        assert(layer.deep_view().len() == layer@.len());
    }
}

/// Expands the main diorama's layer maps into cube placements, layers
/// bottom-up, rows in `z` order, cells in `x` order.
pub fn generate_diorama() -> (placements: Vec<CubePlacement>)
    ensures
        placements@ == layers_placements(diorama_layers()),
{
    let mut placements: Vec<CubePlacement> = Vec::new();
    let mut layer_0: Vec<[u8; 8]> = Vec::new();
    layer_0.push([2u8, 2u8, 2u8, 2u8, 2u8, 2u8, 2u8, 2u8]);
    layer_0.push([2u8, 2u8, 2u8, 2u8, 2u8, 2u8, 2u8, 2u8]);
    layer_0.push([2u8, 2u8, 2u8, 2u8, 2u8, 2u8, 2u8, 2u8]);
    layer_0.push([2u8, 2u8, 2u8, 2u8, 2u8, 2u8, 2u8, 2u8]);
    layer_0.push([2u8, 2u8, 2u8, 2u8, 2u8, 2u8, 2u8, 2u8]);
    layer_0.push([2u8, 2u8, 2u8, 2u8, 2u8, 2u8, 2u8, 2u8]);
    layer_0.push([2u8, 2u8, 2u8, 2u8, 2u8, 2u8, 2u8, 2u8]);
    layer_0.push([2u8, 2u8, 2u8, 2u8, 2u8, 2u8, 2u8, 2u8]);
    proof { assert(layer_0.deep_view() =~~= diorama_layer_0()); }
    push_layer(&mut placements, &layer_0, 0);
    let mut layer_1: Vec<[u8; 8]> = Vec::new();
    layer_1.push([1u8, 1u8, 1u8, 1u8, 1u8, 1u8, 4u8, 4u8]);
    layer_1.push([1u8, 1u8, 1u8, 9u8, 1u8, 9u8, 4u8, 4u8]);
    layer_1.push([1u8, 1u8, 1u8, 9u8, 1u8, 9u8, 4u8, 4u8]);
    layer_1.push([1u8, 9u8, 9u8, 9u8, 9u8, 9u8, 4u8, 4u8]);
    layer_1.push([1u8, 1u8, 1u8, 9u8, 9u8, 9u8, 4u8, 4u8]);
    layer_1.push([1u8, 1u8, 9u8, 9u8, 9u8, 9u8, 4u8, 4u8]);
    layer_1.push([4u8, 4u8, 4u8, 4u8, 4u8, 4u8, 4u8, 4u8]);
    layer_1.push([4u8, 4u8, 4u8, 4u8, 4u8, 4u8, 4u8, 4u8]);
    proof { assert(layer_1.deep_view() =~~= diorama_layer_1()); }
    push_layer(&mut placements, &layer_1, 1);
    let mut layer_2: Vec<[u8; 8]> = Vec::new();
    layer_2.push([1u8, 1u8, 1u8, 2u8, 2u8, 2u8, 0u8, 0u8]);
    layer_2.push([1u8, 1u8, 2u8, 2u8, 5u8, 3u8, 0u8, 0u8]);
    layer_2.push([1u8, 2u8, 5u8, 5u8, 5u8, 8u8, 0u8, 0u8]);
    layer_2.push([2u8, 2u8, 5u8, 5u8, 5u8, 0u8, 0u8, 0u8]);
    layer_2.push([2u8, 5u8, 5u8, 5u8, 5u8, 0u8, 0u8, 0u8]);
    layer_2.push([2u8, 3u8, 8u8, 0u8, 0u8, 2u8, 0u8, 0u8]);
    proof { assert(layer_2.deep_view() =~~= diorama_layer_2()); }
    push_layer(&mut placements, &layer_2, 2);
    let mut layer_3: Vec<[u8; 8]> = Vec::new();
    layer_3.push([2u8, 2u8, 2u8, 3u8, 3u8, 3u8, 0u8, 0u8]);
    layer_3.push([2u8, 2u8, 0u8, 0u8, 0u8, 0u8, 0u8, 0u8]);
    layer_3.push([2u8, 0u8, 0u8, 0u8, 0u8, 0u8, 0u8, 0u8]);
    layer_3.push([3u8, 0u8, 0u8, 0u8, 0u8, 0u8, 0u8, 0u8]);
    layer_3.push([3u8, 0u8, 0u8, 7u8, 0u8, 0u8, 0u8, 0u8]);
    layer_3.push([3u8, 0u8, 0u8, 0u8, 0u8, 0u8, 0u8, 0u8]);
    proof { assert(layer_3.deep_view() =~~= diorama_layer_3()); }
    push_layer(&mut placements, &layer_3, 3);
    let mut layer_4: Vec<[u8; 8]> = Vec::new();
    layer_4.push([9u8, 9u8, 9u8, 3u8, 3u8, 3u8, 0u8, 0u8]);
    layer_4.push([9u8, 0u8, 0u8, 0u8, 0u8, 0u8, 0u8, 0u8]);
    layer_4.push([9u8, 0u8, 0u8, 0u8, 0u8, 0u8, 0u8, 0u8]);
    layer_4.push([3u8, 0u8, 0u8, 0u8, 0u8, 0u8, 0u8, 0u8]);
    layer_4.push([3u8, 0u8, 0u8, 0u8, 0u8, 0u8, 0u8, 0u8]);
    layer_4.push([3u8, 0u8, 0u8, 0u8, 0u8, 0u8, 0u8, 0u8]);
    proof { assert(layer_4.deep_view() =~~= diorama_layer_4()); }
    push_layer(&mut placements, &layer_4, 4);
    let mut layer_5: Vec<[u8; 8]> = Vec::new();
    layer_5.push([0u8, 0u8, 0u8, 3u8, 3u8, 3u8, 0u8, 0u8]);
    layer_5.push([0u8, 0u8, 0u8, 0u8, 0u8, 0u8, 0u8, 0u8]);
    layer_5.push([0u8, 0u8, 0u8, 0u8, 0u8, 0u8, 0u8, 0u8]);
    layer_5.push([3u8, 0u8, 0u8, 0u8, 0u8, 0u8, 0u8, 0u8]);
    layer_5.push([3u8, 0u8, 0u8, 0u8, 0u8, 0u8, 0u8, 0u8]);
    layer_5.push([3u8, 0u8, 0u8, 0u8, 0u8, 0u8, 0u8, 0u8]);
    proof { assert(layer_5.deep_view() =~~= diorama_layer_5()); }
    push_layer(&mut placements, &layer_5, 5);
    let mut layer_6: Vec<[u8; 8]> = Vec::new();
    layer_6.push([0u8, 0u8, 0u8, 3u8, 3u8, 3u8, 0u8, 0u8]);
    layer_6.push([0u8, 0u8, 0u8, 0u8, 0u8, 0u8, 0u8, 0u8]);
    layer_6.push([3u8, 0u8, 0u8, 0u8, 0u8, 0u8, 0u8, 0u8]);
    layer_6.push([3u8, 0u8, 0u8, 0u8, 0u8, 0u8, 0u8, 0u8]);
    layer_6.push([3u8, 0u8, 0u8, 0u8, 0u8, 0u8, 0u8, 0u8]);
    layer_6.push([3u8, 0u8, 0u8, 0u8, 0u8, 0u8, 0u8, 0u8]);
    proof { assert(layer_6.deep_view() =~~= diorama_layer_6()); }
    push_layer(&mut placements, &layer_6, 6);
    let mut layer_7: Vec<[u8; 8]> = Vec::new();
    layer_7.push([6u8, 6u8, 6u8, 3u8, 3u8, 3u8, 0u8, 0u8]);
    layer_7.push([6u8, 6u8, 0u8, 0u8, 0u8, 3u8, 0u8, 0u8]);
    layer_7.push([6u8, 0u8, 0u8, 0u8, 0u8, 0u8, 0u8, 0u8]);
    layer_7.push([3u8, 0u8, 0u8, 0u8, 0u8, 0u8, 0u8, 0u8]);
    layer_7.push([3u8, 0u8, 0u8, 0u8, 0u8, 0u8, 0u8, 0u8]);
    layer_7.push([3u8, 0u8, 0u8, 0u8, 0u8, 0u8, 0u8, 0u8]);
    proof { assert(layer_7.deep_view() =~~= diorama_layer_7()); }
    push_layer(&mut placements, &layer_7, 7);
    let mut layer_8: Vec<[u8; 8]> = Vec::new();
    layer_8.push([3u8, 3u8, 3u8, 10u8, 10u8, 10u8, 0u8, 0u8]);
    layer_8.push([3u8, 0u8, 0u8, 0u8, 0u8, 0u8, 0u8, 0u8]);
    layer_8.push([3u8, 0u8, 0u8, 0u8, 0u8, 0u8, 0u8, 0u8]);
    layer_8.push([10u8, 0u8, 0u8, 0u8, 0u8, 0u8, 0u8, 0u8]);
    layer_8.push([10u8, 0u8, 0u8, 0u8, 0u8, 0u8, 0u8, 0u8]);
    layer_8.push([10u8, 0u8, 0u8, 0u8, 0u8, 0u8, 0u8, 0u8]);
    proof { assert(layer_8.deep_view() =~~= diorama_layer_8()); }
    push_layer(&mut placements, &layer_8, 8);
    let mut layer_9: Vec<[u8; 8]> = Vec::new();
    layer_9.push([3u8, 3u8, 3u8, 3u8, 3u8, 3u8, 0u8, 0u8]);
    layer_9.push([3u8, 3u8, 0u8, 0u8, 0u8, 0u8, 0u8, 0u8]);
    layer_9.push([3u8, 0u8, 0u8, 0u8, 0u8, 0u8, 0u8, 0u8]);
    layer_9.push([3u8, 0u8, 0u8, 0u8, 0u8, 0u8, 0u8, 0u8]);
    layer_9.push([3u8, 0u8, 0u8, 0u8, 0u8, 0u8, 0u8, 0u8]);
    layer_9.push([3u8, 0u8, 0u8, 0u8, 0u8, 0u8, 0u8, 0u8]);
    proof { assert(layer_9.deep_view() =~~= diorama_layer_9()); }
    push_layer(&mut placements, &layer_9, 9);
    let mut layer_10: Vec<[u8; 8]> = Vec::new();
    layer_10.push([11u8, 0u8, 0u8, 0u8, 0u8, 11u8, 0u8, 0u8]);
    layer_10.push([0u8, 0u8, 0u8, 0u8, 0u8, 0u8, 0u8, 0u8]);
    layer_10.push([0u8, 0u8, 0u8, 0u8, 0u8, 0u8, 0u8, 0u8]);
    layer_10.push([0u8, 0u8, 0u8, 0u8, 0u8, 0u8, 0u8, 0u8]);
    layer_10.push([0u8, 0u8, 0u8, 0u8, 0u8, 0u8, 0u8, 0u8]);
    layer_10.push([11u8, 0u8, 0u8, 0u8, 0u8, 0u8, 0u8, 0u8]);
    proof { assert(layer_10.deep_view() =~~= diorama_layer_10()); }
    push_layer(&mut placements, &layer_10, 10);
    proof {
        let maps = diorama_layers();
        assert(maps[0] == diorama_layer_0());
        assert(maps[1] == diorama_layer_1());
        assert(maps[2] == diorama_layer_2());
        assert(maps[3] == diorama_layer_3());
        assert(maps[4] == diorama_layer_4());
        assert(maps[5] == diorama_layer_5());
        assert(maps[6] == diorama_layer_6());
        assert(maps[7] == diorama_layer_7());
        assert(maps[8] == diorama_layer_8());
        assert(maps[9] == diorama_layer_9());
        assert(maps[10] == diorama_layer_10());
        assert(layers_placements_upto(maps, 1) == layers_placements_upto(maps, 0) + layer_placements(maps[0], 0));
        assert(layers_placements_upto(maps, 2) == layers_placements_upto(maps, 1) + layer_placements(maps[1], 1));
        assert(layers_placements_upto(maps, 3) == layers_placements_upto(maps, 2) + layer_placements(maps[2], 2));
        assert(layers_placements_upto(maps, 4) == layers_placements_upto(maps, 3) + layer_placements(maps[3], 3));
        assert(layers_placements_upto(maps, 5) == layers_placements_upto(maps, 4) + layer_placements(maps[4], 4));
        assert(layers_placements_upto(maps, 6) == layers_placements_upto(maps, 5) + layer_placements(maps[5], 5));
        assert(layers_placements_upto(maps, 7) == layers_placements_upto(maps, 6) + layer_placements(maps[6], 6));
        assert(layers_placements_upto(maps, 8) == layers_placements_upto(maps, 7) + layer_placements(maps[7], 7));
        assert(layers_placements_upto(maps, 9) == layers_placements_upto(maps, 8) + layer_placements(maps[8], 8));
        assert(layers_placements_upto(maps, 10) == layers_placements_upto(maps, 9) + layer_placements(maps[9], 9));
        assert(layers_placements_upto(maps, 11) == layers_placements_upto(maps, 10) + layer_placements(maps[10], 10));
        assert(maps.len() == 11);
        assert(placements@ =~= layers_placements(maps));
    }
    placements
}

/// Expands the second diorama's layer maps into cube placements, layers
/// bottom-up, rows in `z` order, cells in `x` order.
pub fn generate_diorama2() -> (placements: Vec<CubePlacement>)
    ensures
        placements@ == layers_placements(diorama2_layers()),
{
    let mut placements: Vec<CubePlacement> = Vec::new();
    let mut layer_0: Vec<[u8; 8]> = Vec::new();
    layer_0.push([0u8, 0u8, 0u8, 0u8, 0u8, 0u8, 0u8, 0u8]);
    layer_0.push([0u8, 11u8, 2u8, 0u8, 0u8, 2u8, 11u8, 0u8]);
    layer_0.push([0u8, 2u8, 2u8, 2u8, 2u8, 2u8, 2u8, 0u8]);
    layer_0.push([0u8, 0u8, 2u8, 2u8, 2u8, 2u8, 0u8, 0u8]);
    layer_0.push([0u8, 0u8, 2u8, 2u8, 2u8, 2u8, 0u8, 0u8]);
    layer_0.push([0u8, 2u8, 2u8, 2u8, 2u8, 2u8, 2u8, 0u8]);
    layer_0.push([0u8, 11u8, 2u8, 0u8, 0u8, 2u8, 11u8, 0u8]);
    layer_0.push([0u8, 0u8, 0u8, 0u8, 0u8, 0u8, 0u8, 0u8]);
    proof { assert(layer_0.deep_view() =~~= diorama2_layer_0()); }
    push_layer(&mut placements, &layer_0, 0);
    let mut layer_1: Vec<[u8; 8]> = Vec::new();
    layer_1.push([0u8, 0u8, 0u8, 0u8, 0u8, 0u8, 0u8, 0u8]);
    layer_1.push([0u8, 4u8, 0u8, 0u8, 0u8, 0u8, 4u8, 0u8]);
    layer_1.push([0u8, 0u8, 8u8, 0u8, 0u8, 8u8, 0u8, 0u8]);
    layer_1.push([0u8, 0u8, 0u8, 6u8, 6u8, 0u8, 0u8, 0u8]);
    layer_1.push([0u8, 0u8, 0u8, 6u8, 6u8, 0u8, 0u8, 0u8]);
    layer_1.push([0u8, 0u8, 8u8, 0u8, 0u8, 8u8, 0u8, 0u8]);
    layer_1.push([0u8, 4u8, 0u8, 0u8, 0u8, 0u8, 4u8, 0u8]);
    layer_1.push([0u8, 0u8, 0u8, 0u8, 0u8, 0u8, 0u8, 0u8]);
    proof { assert(layer_1.deep_view() =~~= diorama2_layer_1()); }
    push_layer(&mut placements, &layer_1, 1);
    let mut layer_2: Vec<[u8; 8]> = Vec::new();
    layer_2.push([0u8, 0u8, 0u8, 0u8, 0u8, 0u8, 0u8, 0u8]);
    layer_2.push([0u8, 0u8, 0u8, 0u8, 0u8, 0u8, 0u8, 0u8]);
    layer_2.push([0u8, 0u8, 0u8, 0u8, 0u8, 0u8, 0u8, 0u8]);
    layer_2.push([0u8, 0u8, 0u8, 3u8, 3u8, 0u8, 0u8, 0u8]);
    layer_2.push([0u8, 0u8, 0u8, 3u8, 3u8, 0u8, 0u8, 0u8]);
    layer_2.push([0u8, 0u8, 0u8, 0u8, 0u8, 0u8, 0u8, 0u8]);
    layer_2.push([0u8, 0u8, 0u8, 0u8, 0u8, 0u8, 0u8, 0u8]);
    layer_2.push([0u8, 0u8, 0u8, 0u8, 0u8, 0u8, 0u8, 0u8]);
    proof { assert(layer_2.deep_view() =~~= diorama2_layer_2()); }
    push_layer(&mut placements, &layer_2, 2);
    proof {
        let maps = diorama2_layers();
        assert(maps[0] == diorama2_layer_0());
        assert(maps[1] == diorama2_layer_1());
        assert(maps[2] == diorama2_layer_2());
        assert(layers_placements_upto(maps, 1) == layers_placements_upto(maps, 0) + layer_placements(maps[0], 0));
        assert(layers_placements_upto(maps, 2) == layers_placements_upto(maps, 1) + layer_placements(maps[1], 1));
        assert(layers_placements_upto(maps, 3) == layers_placements_upto(maps, 2) + layer_placements(maps[2], 2));
        assert(maps.len() == 3);
        assert(placements@ =~= layers_placements(maps));
    }
    placements
}

} // verus!
