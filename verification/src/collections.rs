//! Coordinate enumeration for grid-shaped nested vectors, and the direction
//! vectors used to walk such grids.

use vstd::prelude::*;
use vstd::arithmetic::div_mod::lemma_fundamental_div_mod_converse;
use vstd::arithmetic::mul::{
    lemma_mul_inequality,
    lemma_mul_is_associative,
    lemma_mul_is_distributive_add_other_way,
    lemma_mul_is_distributive_sub_other_way,
};

verus! {

pub trait Coordinates2D {
    /// The expected enumeration: row-major pairs `(i, j)` over a grid whose
    /// row count is the outer length and whose column count is the length of
    /// the first row.
    spec fn coordinates_2d_spec(&self) -> Seq<(usize, usize)>;

    /// Gets all the coordinates of a 2D data structure, like a vector of vectors.
    /// That allows to iterate directly with a map against (i, j)
    /// instead to need to combine a flatmap i with a map j.
    ///
    /// This function is mainly useful to navigate in rows and columns of a numbers grid.
    fn coordinates_2d(&self) -> (r: Vec<(usize, usize)>)
        ensures
            r@ == self.coordinates_2d_spec(),
    ;
}

pub trait Coordinates3D {
    /// The expected enumeration: triples `(i, j, k)` over a grid whose
    /// dimensions are read from the outer length, the first row and the
    /// first cell of the first row.
    spec fn coordinates_3d_spec(&self) -> Seq<(usize, usize, usize)>;

    /// Gets all the coordinates of a 3D data structure, like a vector of
    /// vectors of vectors, in row-major order.
    fn coordinates_3d(&self) -> (r: Vec<(usize, usize, usize)>)
        ensures
            r@ == self.coordinates_3d_spec(),
    ;
}

impl<T> Coordinates2D for Vec<Vec<T>> {
    open spec fn coordinates_2d_spec(&self) -> Seq<(usize, usize)> {
        if self@.len() == 0 {
            Seq::empty()
        } else {
            let cols = self@[0]@.len() as int;
            Seq::new(
                (self@.len() * cols) as nat,
                |k: int| (((k / cols) as usize, (k % cols) as usize)),
            )
        }
    }

    fn coordinates_2d(&self) -> (r: Vec<(usize, usize)>) {
        let mut result: Vec<(usize, usize)> = Vec::new();
        let rows = self.len();
        if rows == 0 {
            return result;
        }
        let cols = self[0].len();
        let mut i: usize = 0;
        while i < rows
            invariant
                i <= rows,
                rows == self@.len(),
                rows > 0,
                cols == self@[0]@.len(),
                result@.len() == i * cols,
                forall|k: int|
                    0 <= k < result@.len() ==> result@[k] == (((k / (cols as int)) as usize, (k % (
                    cols as int)) as usize)),
            decreases rows - i,
        {
            let mut j: usize = 0;
            while j < cols
                invariant
                    i < rows,
                    j <= cols,
                    rows == self@.len(),
                    rows > 0,
                    cols == self@[0]@.len(),
                    result@.len() == i * cols + j,
                    forall|k: int|
                        0 <= k < result@.len() ==> result@[k] == (((k / (cols as int)) as usize, (k
                        % (cols as int)) as usize)),
                decreases cols - j,
            {
                proof {
                    lemma_fundamental_div_mod_converse(
                        i * cols + j,
                        cols as int,
                        i as int,
                        j as int,
                    );
                }
                result.push((i, j));
                j = j + 1;
            }
            proof {
                lemma_mul_is_distributive_add_other_way(cols as int, i as int, 1);
            }
            i = i + 1;
        }
        proof {
            assert(result@ =~= self.coordinates_2d_spec());
        }
        result
    }
}

impl<T> Coordinates3D for Vec<Vec<Vec<T>>> {
    open spec fn coordinates_3d_spec(&self) -> Seq<(usize, usize, usize)> {
        if self@.len() == 0 || self@[0]@.len() == 0 {
            Seq::empty()
        } else {
            let cols = self@[0]@.len() as int;
            let depth = self@[0]@[0]@.len() as int;
            Seq::new(
                (self@.len() * cols * depth) as nat,
                |x: int|
                    (((x / (cols * depth)) as usize, ((x % (cols * depth)) / depth) as usize, ((x % (
                    cols * depth)) % depth) as usize)),
            )
        }
    }

    fn coordinates_3d(&self) -> (r: Vec<(usize, usize, usize)>) {
        let mut result: Vec<(usize, usize, usize)> = Vec::new();
        let rows = self.len();
        if rows == 0 {
            return result;
        }
        let cols = self[0].len();
        if cols == 0 {
            return result;
        }
        let depth = self[0][0].len();
        let ghost cd: int = cols as int * depth as int;
        let mut i: usize = 0;
        while i < rows
            invariant
                i <= rows,
                rows == self@.len(),
                rows > 0,
                cols == self@[0]@.len(),
                cols > 0,
                depth == self@[0]@[0]@.len(),
                cd == cols as int * depth as int,
                result@.len() == i * cd,
                forall|x: int|
                    0 <= x < result@.len() ==> result@[x] == (((x / cd) as usize, ((x % cd) / (
                    depth as int)) as usize, ((x % cd) % (depth as int)) as usize)),
            decreases rows - i,
        {
            let mut j: usize = 0;
            while j < cols
                invariant
                    i < rows,
                    j <= cols,
                    rows == self@.len(),
                    rows > 0,
                    cols == self@[0]@.len(),
                    cols > 0,
                    depth == self@[0]@[0]@.len(),
                    cd == cols as int * depth as int,
                    result@.len() == i * cd + j * depth,
                    forall|x: int|
                        0 <= x < result@.len() ==> result@[x] == (((x / cd) as usize, ((x % cd) / (
                        depth as int)) as usize, ((x % cd) % (depth as int)) as usize)),
                decreases cols - j,
            {
                let mut k: usize = 0;
                while k < depth
                    invariant
                        i < rows,
                        j < cols,
                        k <= depth,
                        rows == self@.len(),
                        rows > 0,
                        cols == self@[0]@.len(),
                        cols > 0,
                        depth == self@[0]@[0]@.len(),
                        cd == cols as int * depth as int,
                        result@.len() == i * cd + j * depth + k,
                        forall|x: int|
                            0 <= x < result@.len() ==> result@[x] == (((x / cd) as usize, ((x % cd)
                            / (depth as int)) as usize, ((x % cd) % (depth as int)) as usize)),
                    decreases depth - k,
                {
                    proof {
                        let x = i * cd + j * depth + k;
                        let rem = j * depth + k;
                        lemma_mul_inequality(j as int, cols - 1, depth as int);
                        lemma_mul_is_distributive_sub_other_way(depth as int, cols as int, 1);
                        lemma_fundamental_div_mod_converse(x, cd, i as int, rem);
                        lemma_fundamental_div_mod_converse(rem, depth as int, j as int, k as int);
                    }
                    result.push((i, j, k));
                    k = k + 1;
                }
                proof {
                    lemma_mul_is_distributive_add_other_way(depth as int, j as int, 1);
                }
                j = j + 1;
            }
            proof {
                lemma_mul_is_distributive_add_other_way(cd, i as int, 1);
            }
            i = i + 1;
        }
        proof {
            lemma_mul_is_associative(rows as int, cols as int, depth as int);
            assert(result@ =~= self.coordinates_3d_spec());
        }
        result
    }
}

/// Returns all the possible vectors to move in a grid.
/// The moves can be horizontal, vertical or in diagonal.
pub fn get_all_direction_vectors_2d() -> (r: Vec<(i32, i32)>)
    ensures
        r@ == seq![
            (1i32, 0i32),
            (-1i32, 0i32),
            (0i32, 1i32),
            (0i32, -1i32),
            (1i32, 1i32),
            (1i32, -1i32),
            (-1i32, 1i32),
            (-1i32, -1i32),
        ],
{
    let mut vectors: Vec<(i32, i32)> = Vec::new();
    // Vertically
    vectors.push((1, 0));
    vectors.push((-1, 0));
    // Horizontally
    vectors.push((0, 1));
    vectors.push((0, -1));
    // Diagonally
    vectors.push((1, 1));
    vectors.push((1, -1));
    vectors.push((-1, 1));
    vectors.push((-1, -1));
    proof {
        assert(vectors@ =~= seq![
            (1i32, 0i32),
            (-1i32, 0i32),
            (0i32, 1i32),
            (0i32, -1i32),
            (1i32, 1i32),
            (1i32, -1i32),
            (-1i32, 1i32),
            (-1i32, -1i32),
        ]);
    }
    vectors
}

/// Returns all the possible vectors to move in a grid in taxicab geometry.
/// The moves can be horizontal or vertical.
pub fn get_taxicab_direction_vectors_2d() -> (r: Vec<(i32, i32)>)
    ensures
        r@ == seq![(1i32, 0i32), (-1i32, 0i32), (0i32, 1i32), (0i32, -1i32)],
{
    let mut vectors: Vec<(i32, i32)> = Vec::new();
    // Vertically
    vectors.push((1, 0));
    vectors.push((-1, 0));
    // Horizontally
    vectors.push((0, 1));
    vectors.push((0, -1));
    proof {
        assert(vectors@ =~= seq![(1i32, 0i32), (-1i32, 0i32), (0i32, 1i32), (0i32, -1i32)]);
    }
    vectors
}

/// Returns all the possible vectors to move in a grid in diagonal.
pub fn get_diagonal_direction_vectors_2d() -> (r: Vec<(i32, i32)>)
    ensures
        r@ == seq![(1i32, 1i32), (1i32, -1i32), (-1i32, 1i32), (-1i32, -1i32)],
{
    let mut vectors: Vec<(i32, i32)> = Vec::new();
    vectors.push((1, 1));
    vectors.push((1, -1));
    vectors.push((-1, 1));
    vectors.push((-1, -1));
    proof {
        assert(vectors@ =~= seq![(1i32, 1i32), (1i32, -1i32), (-1i32, 1i32), (-1i32, -1i32)]);
    }
    vectors
}

/// Checks if the specified coordinates are valid for a specified 2D grid.
/// A coordinate is valid if it doesn't overflow and is positive.
///
/// This method assumes the grid argument to be a grid,
/// ie each line is expected to have the same length.
///
/// This method has been designed to compute coordinates and filter the result.
pub fn are_valid_coordinates_for_2d_grid<T>(grid: &Vec<Vec<T>>, coords: (i32, i32)) -> (r: bool)
    ensures
        r == (grid@.len() > 0 && coords.0 >= 0 && coords.1 >= 0 && (coords.0 as int)
            < grid@.len() && (coords.1 as int) < grid@[0]@.len()),
{
    if grid.is_empty() {
        return false;
    }
    let i = coords.0;
    let j = coords.1;

    if i < 0 || j < 0 {
        return false;
    }
    (i as usize) < grid.len() && (j as usize) < grid[0].len()
}

} // verus!
