//! A matrix of values, stored row by row.
use vstd::prelude::*;

verus! {

/// A matrix of values, stored row by row.
#[derive(Debug)]
pub struct Mat<T: Copy> {
    buffer: Vec<T>,
    width: usize,
}

/// What a [`Mat`] holds, as plain values.
pub struct MatView<T> {
    /// The values, row by row.
    pub buffer: Seq<T>,
    /// Values per row.
    pub width: usize,
}

impl<T: Copy> View for Mat<T> {
    type V = MatView<T>;

    closed spec fn view(&self) -> MatView<T> {
        MatView { buffer: self.buffer@, width: self.width }
    }
}

/// Where the value in column `x` of row `y` stands among the values of a
/// matrix of `width` values per row.
pub open spec fn cell(x: int, y: int, width: int) -> int {
    x + y * width
}

/// `matrix` with every whole row mirrored: the value in column `x` of a row
/// is the one that stood in column `width - 1 - x` of that row. Values after
/// the last whole row stay where they are.
pub open spec fn flipped<T>(matrix: MatView<T>) -> MatView<T> {
    let width = matrix.width as int;
    let rows = matrix.buffer.len() as int / width;
    MatView {
        buffer: Seq::new(
            matrix.buffer.len(),
            |i: int|
                if i < rows * width {
                    matrix.buffer[(i / width) * width + (width - 1 - i % width)]
                } else {
                    matrix.buffer[i]
                },
        ),
        width: matrix.width,
    }
}

/// `matrix` with the first values replaced by `src`.
pub open spec fn overwritten<T>(matrix: MatView<T>, src: Seq<T>) -> MatView<T> {
    MatView {
        buffer: src + matrix.buffer.subrange(src.len() as int, matrix.buffer.len() as int),
        width: matrix.width,
    }
}

impl<T: Copy> Mat<T> {
    /// A matrix of `width` by `height` values, each of them `value`.
    pub fn new(width: usize, height: usize, value: T) -> (matrix: Self)
        requires
            width * height <= usize::MAX,
        ensures
            matrix@ == (MatView { buffer: Seq::new((width * height) as nat, |i: int| value), width }),
    {
        let length: usize = width * height;
        let mut buffer: Vec<T> = Vec::with_capacity(length);
        let mut i: usize = 0;
        while i < length
            invariant
                i <= length,
                buffer@.len() == i,
                forall|k: int| 0 <= k < i ==> buffer@[k] == value,
            decreases length - i,
        {
            buffer.push(value);
            i += 1;
        }
        assert(buffer@ =~= Seq::new((width * height) as nat, |i: int| value));
        Mat { buffer, width }
    }

    /// The matrix of the values of `buffer`, `width` of them per row.
    pub fn from(width: usize, buffer: Vec<T>) -> (matrix: Self)
        ensures
            matrix@ == (MatView { buffer: buffer@, width }),
    {
        Mat { buffer, width }
    }

    /// Values per row.
    pub fn width(&self) -> (width: usize)
        ensures
            width == self@.width,
    {
        self.width
    }

    /// How many values the matrix holds.
    pub fn len(&self) -> (length: usize)
        ensures
            length == self@.buffer.len(),
    {
        self.buffer.len()
    }

    /// The values, row by row.
    pub fn buffer(&self) -> (buffer: &Vec<T>)
        ensures
            buffer@ == self@.buffer,
    {
        &self.buffer
    }

    /// The value in column `x` of row `y`.
    pub fn get(&self, x: usize, y: usize) -> (value: T)
        requires
            x + y * self@.width < self@.buffer.len(),
        ensures
            value == self@.buffer[cell(x as int, y as int, self@.width as int)],
    {
        let length = self.buffer.len();
        assert(0 <= y * self.width < length) by (nonlinear_arith)
            requires
                x + y * self.width < length,
        ;
        self.buffer[x + y * self.width]
    }

    /// The place of the value in column `x` of row `y`.
    pub fn get_mut(&mut self, x: usize, y: usize) -> (value: &mut T)
        requires
            x + y * old(self)@.width < old(self)@.buffer.len(),
        ensures
            *value == old(self)@.buffer[cell(x as int, y as int, old(self)@.width as int)],
            final(self)@ == (MatView {
                buffer: old(self)@.buffer.update(
                    cell(x as int, y as int, old(self)@.width as int),
                    *final(value),
                ),
                width: old(self)@.width,
            }),
    {
        let length = self.buffer.len();
        assert(0 <= y * self.width < length) by (nonlinear_arith)
            requires
                x + y * self.width < length,
        ;
        &mut self.buffer[x + y * self.width]
    }

    /// Puts the values of `src` in the place of the first values of the
    /// matrix.
    pub fn copy_from_slice(&mut self, src: &[T])
        requires
            src@.len() <= old(self)@.buffer.len(),
        ensures
            final(self)@ == overwritten(old(self)@, src@),
    {
        let mut index: usize = 0;
        while index < src.len()
            invariant
                index <= src@.len() <= self.buffer@.len(),
                self.width == old(self).width,
                self.buffer@.len() == old(self).buffer@.len(),
                forall|k: int| 0 <= k < index ==> self.buffer@[k] == src@[k],
                forall|k: int|
                    index <= k < self.buffer@.len() ==> self.buffer@[k] == old(self).buffer@[k],
            decreases src@.len() - index,
        {
            self.buffer[index] = src[index];
            index += 1;
        }
        assert(self@.buffer =~= overwritten(old(self)@, src@).buffer);
    }

    /// Flips the matrix horizontally: every whole row is mirrored, so that
    /// its last value becomes its first.
    pub fn horizontal_flip(&mut self)
        requires
            old(self)@.width > 0,
        ensures
            final(self)@ == flipped(old(self)@),
            final(self)@.width == old(self)@.width,
            final(self)@.buffer.len() == old(self)@.buffer.len(),
            forall|x: int, y: int|
                0 <= x < old(self)@.width && 0 <= y && (y + 1) * old(self)@.width <= old(
                    self,
                )@.buffer.len() ==> #[trigger] final(self)@.buffer[cell(
                    x,
                    y,
                    old(self)@.width as int,
                )] == old(self)@.buffer[cell(
                    old(self)@.width - 1 - x,
                    y,
                    old(self)@.width as int,
                )],
    {
        let width = self.width;
        let length = self.buffer.len();
        let rows: usize = length / width;
        let ghost before = self@;
        assert(rows * width <= length) by (nonlinear_arith)
            requires
                rows == length as int / width as int,
                width > 0,
        ;
        let mut mirrored: Vec<T> = Vec::with_capacity(length);
        let mut row: usize = 0;
        while row < rows
            invariant
                row <= rows,
                width > 0,
                width == self.width,
                self@ == before,
                length == before.buffer.len(),
                rows == length as int / width as int,
                rows * width <= length <= usize::MAX,
                mirrored@.len() == row * width,
                forall|i: int| 0 <= i < row * width ==> mirrored@[i] == flipped(before).buffer[i],
            decreases rows - row,
        {
            let mut x: usize = 0;
            assert(0 <= row * width && row * width + width <= rows * width) by (nonlinear_arith)
                requires
                    0 <= row,
                    row + 1 <= rows,
                    width > 0,
            ;
            while x < width
                invariant
                    x <= width,
                    width > 0,
                    row < rows,
                    self@ == before,
                    width == self.width,
                    length == before.buffer.len(),
                    rows == length as int / width as int,
                    0 <= row * width,
                    row * width + width <= rows * width <= length <= usize::MAX,
                    mirrored@.len() == row * width + x,
                    forall|i: int|
                        0 <= i < row * width + x ==> mirrored@[i] == flipped(before).buffer[i],
                decreases width - x,
            {
                let value = self.buffer[row * width + (width - 1 - x)];
                proof {
                    let i = row * width + x;
                    assert(i / width as int == row && i % width as int == x) by (nonlinear_arith)
                        requires
                            i == row * width + x,
                            0 <= x < width,
                            0 <= row,
                    ;
                }
                mirrored.push(value);
                x += 1;
            }
            assert((row + 1) * width == row * width + width) by (nonlinear_arith);
            row += 1;
        }
        let mut i: usize = rows * width;
        while i < length
            invariant
                rows * width <= i <= length,
                self@ == before,
                width == self.width,
                length == before.buffer.len(),
                rows == length as int / width as int,
                mirrored@.len() == i,
                forall|k: int| 0 <= k < i ==> mirrored@[k] == flipped(before).buffer[k],
            decreases length - i,
        {
            mirrored.push(self.buffer[i]);
            i += 1;
        }
        self.buffer = mirrored;
        assert(self@.buffer =~= flipped(before).buffer);
        assert forall|x: int, y: int|
            0 <= x < before.width && 0 <= y && (y + 1) * before.width
                <= before.buffer.len() implies #[trigger] self@.buffer[cell(
            x,
            y,
            before.width as int,
        )] == before.buffer[cell(before.width - 1 - x, y, before.width as int)] by {
            lemma_flip_mirrors_rows(before, x, y);
        }
    }
}

impl<T: Copy> Clone for Mat<T> {
    fn clone(&self) -> (matrix: Self)
        ensures
            matrix@ == self@,
    {
        let mut buffer: Vec<T> = Vec::with_capacity(self.buffer.len());
        let mut i: usize = 0;
        while i < self.buffer.len()
            invariant
                i <= self.buffer@.len(),
                buffer@ == self.buffer@.take(i as int),
            decreases self.buffer@.len() - i,
        {
            buffer.push(self.buffer[i]);
            i += 1;
        }
        assert(self.buffer@.take(i as int) =~= self.buffer@);
        Mat { buffer, width: self.width }
    }
}

/// Flipping a matrix horizontally twice gives the matrix back, and a flip
/// keeps the number of values.
pub proof fn lemma_flip_twice<T>(matrix: MatView<T>)
    requires
        matrix.width > 0,
    ensures
        flipped(matrix).buffer.len() == matrix.buffer.len(),
        flipped(flipped(matrix)) == matrix,
{
    let width = matrix.width as int;
    let rows = matrix.buffer.len() as int / width;
    let once = flipped(matrix);
    let twice = flipped(once);
    assert forall|i: int| 0 <= i < matrix.buffer.len() implies twice.buffer[i]
        == matrix.buffer[i] by {
        if i < rows * width {
            let y = i / width;
            let x = i % width;
            assert(0 <= y < rows && 0 <= x < width && i == y * width + x) by (nonlinear_arith)
                requires
                    y == i / width,
                    x == i % width,
                    0 <= i < rows * width,
                    width > 0,
            ;
            let j = y * width + (width - 1 - x);
            assert(0 <= j < rows * width && j / width == y && j % width == width - 1 - x)
                by (nonlinear_arith)
                requires
                    j == y * width + (width - 1 - x),
                    0 <= y < rows,
                    0 <= x < width,
            ;
            assert(rows * width <= matrix.buffer.len()) by (nonlinear_arith)
                requires
                    rows == matrix.buffer.len() as int / width,
                    width > 0,
            ;
            assert(twice.buffer[i] == once.buffer[j]);
            assert(once.buffer[j] == matrix.buffer[y * width + (width - 1 - (width - 1 - x))]);
        }
    }
    assert(twice.buffer =~= matrix.buffer);
}

/// In a matrix of whole rows, the value in column `x` of row `y` after a
/// horizontal flip is the one that stood in column `width - 1 - x` of row
/// `y`.
pub proof fn lemma_flip_mirrors_rows<T>(matrix: MatView<T>, x: int, y: int)
    requires
        matrix.width > 0,
        0 <= x < matrix.width,
        0 <= y,
        (y + 1) * matrix.width <= matrix.buffer.len(),
    ensures
        flipped(matrix).buffer[cell(x, y, matrix.width as int)] == matrix.buffer[cell(
            matrix.width - 1 - x,
            y,
            matrix.width as int,
        )],
{
    let width = matrix.width as int;
    let rows = matrix.buffer.len() as int / width;
    let i = x + y * width;
    assert(i / width == y && i % width == x && y < rows && i < rows * width && rows * width
        <= matrix.buffer.len()) by (nonlinear_arith)
        requires
            i == x + y * width,
            0 <= x < width,
            0 <= y,
            (y + 1) * width <= matrix.buffer.len(),
            rows == matrix.buffer.len() as int / width,
    ;
    assert(flipped(matrix).buffer[i] == matrix.buffer[y * width + (width - 1 - x)]);
}

} // verus!
