//! Random occupancy grids for exercising the pipeline without a map source.

use vstd::prelude::*;
use rand::Rng;

verus! {

/// Largest side length of a random grid.
pub const MAX_RANDOM_SIDE: u32 = 100;

#[verifier::external_type_specification]
#[verifier::external_body]
pub struct ExThreadRng(rand::rngs::ThreadRng);

/// `rand::rng`: a handle to the thread-local generator.
///
/// Nothing is claimed of the handle. The outside function panics when the
/// operating system's generator cannot be initialised, a condition that no
/// argument controls.
#[verifier::external_body]
fn thread_rng() -> rand::rngs::ThreadRng {
    rand::rng()
}

/// `Rng::random::<u32>` on the thread-local generator: any `u32`.
///
/// Nothing is claimed of the value, which rests on chance.
#[verifier::external_body]
fn random_u32(rng: &mut rand::rngs::ThreadRng) -> u32 {
    rng.random::<u32>()
}

/// `Rng::random::<i8>` on the thread-local generator: any `i8`.
///
/// Nothing is claimed of the value, which rests on chance.
#[verifier::external_body]
fn random_i8(rng: &mut rand::rngs::ThreadRng) -> i8 {
    rng.random::<i8>()
}

/// A grid of occupancy cells, row by row, with its dimensions.
#[derive(Clone, Debug)]
pub struct DataBundle {
    pub data: Vec<i8>,
    pub width: u32,
    pub height: u32,
}

/// The side length drawn from a raw sample: `1 + sample % 100`.
pub open spec fn side_of(sample: u32) -> u32 {
    (sample % MAX_RANDOM_SIDE + 1) as u32
}

/// The remainder of `sample` by two with the sign of `sample`, as `%` on a
/// signed integer gives it.
pub open spec fn cell_of(sample: i8) -> i8 {
    if sample >= 0 {
        (sample % 2) as i8
    } else {
        (-((-sample) % 2)) as i8
    }
}

/// A cell value that a random grid may hold.
pub open spec fn is_random_cell(v: i8) -> bool {
    v == -1 || v == 0 || v == 1
}

/// A well-formed random grid: both sides in `1..=100`, one cell per position,
/// each cell in `{-1, 0, 1}`.
pub open spec fn is_random_grid(b: DataBundle) -> bool {
    &&& 1 <= b.width <= MAX_RANDOM_SIDE
    &&& 1 <= b.height <= MAX_RANDOM_SIDE
    &&& b.data@.len() == b.width * b.height
    &&& forall|i: int| 0 <= i < b.data@.len() ==> is_random_cell(#[trigger] b.data@[i])
}

/// The side length that a raw sample gives: `sample % 100 + 1`.
pub fn side_from_sample(sample: u32) -> (side: u32)
    ensures
        side == side_of(sample),
        1 <= side <= MAX_RANDOM_SIDE,
{
    sample % MAX_RANDOM_SIDE + 1
}

/// The cell that a raw sample gives: `sample % 2` (sign of `sample` kept).
pub fn cell_from_sample(sample: i8) -> (cell: i8)
    ensures
        cell == cell_of(sample),
        is_random_cell(cell),
{
    if sample >= 0 {
        sample % 2
    } else {
        let m: i16 = -(sample as i16);
        let r: i16 = m % 2;
        -(r as i8)
    }
}

/// `b` is the grid that the samples give: the height from the first sample,
/// the width from the second, and one cell from each cell sample, in order.
pub open spec fn made_from_samples(
    b: DataBundle,
    height_sample: u32,
    width_sample: u32,
    cell_samples: Seq<i8>,
) -> bool {
    &&& cell_samples.len() == side_of(height_sample) * side_of(width_sample)
    &&& b.height == side_of(height_sample)
    &&& b.width == side_of(width_sample)
    &&& b.data@ == cell_samples.map_values(|c: i8| cell_of(c))
}

/// The grid that raw samples give: `side_from_sample` of the height and width
/// samples, and `cell_from_sample` of each cell sample, row by row.
pub fn bundle_from_samples(height_sample: u32, width_sample: u32, cell_samples: &Vec<i8>) -> (b:
    DataBundle)
    requires
        cell_samples@.len() == side_of(height_sample) * side_of(width_sample),
    ensures
        made_from_samples(b, height_sample, width_sample, cell_samples@),
        is_random_grid(b),
{
    let height: u32 = side_from_sample(height_sample);
    let width: u32 = side_from_sample(width_sample);
    let mut data: Vec<i8> = Vec::new();
    let n: usize = cell_samples.len();
    for i in 0..n
        invariant
            n == cell_samples@.len(),
            data@ == cell_samples@.take(i as int).map_values(|c: i8| cell_of(c)),
            forall|k: int| 0 <= k < data@.len() ==> is_random_cell(#[trigger] data@[k]),
    {
        let cell: i8 = cell_from_sample(cell_samples[i]);
        data.push(cell);
        assert(cell_samples@.take(i + 1).map_values(|c: i8| cell_of(c)) =~= cell_samples@.take(
            i as int,
        ).map_values(|c: i8| cell_of(c)).push(cell_of(cell_samples@[i as int])));
    }
    assert(cell_samples@.take(n as int) =~= cell_samples@);
    assert(height * width == width * height) by (nonlinear_arith);
    DataBundle { data, width, height }
}

/// One value drawn from the generator: a word (for a side) or a cell sample.
#[derive(Clone, Copy, Debug, PartialEq, Eq, Structural)]
pub enum Draw {
    Word(u32),
    Cell(i8),
}

/// The word of a word draw (0 for a cell draw).
pub open spec fn word_of(d: Draw) -> u32 {
    match d {
        Draw::Word(w) => w,
        Draw::Cell(_) => 0,
    }
}

/// The sample of a cell draw (0 for a word draw).
pub open spec fn cell_sample_of(d: Draw) -> i8 {
    match d {
        Draw::Word(_) => 0,
        Draw::Cell(c) => c,
    }
}

/// `b` is the grid that a run of draws gives: the first draw is the height
/// word, the second the width word, and then one cell draw per cell, in order.
pub open spec fn made_from_draws(b: DataBundle, draws: Seq<Draw>) -> bool {
    &&& draws.len() == 2 + b.data@.len()
    &&& draws[0] is Word
    &&& draws[1] is Word
    &&& forall|i: int| 2 <= i < draws.len() ==> (#[trigger] draws[i]) is Cell
    &&& made_from_samples(
        b,
        word_of(draws[0]),
        word_of(draws[1]),
        draws.skip(2).map_values(|d: Draw| cell_sample_of(d)),
    )
}

/// The thread-local generator, with the record of every value drawn through it.
pub struct Sampler {
    rng: rand::rngs::ThreadRng,
    log: Ghost<Seq<Draw>>,
}

impl Sampler {
    /// The values drawn so far, oldest first.
    pub closed spec fn drawn(&self) -> Seq<Draw> {
        self.log@
    }

    /// A sampler on the thread-local generator, with nothing drawn yet.
    pub fn new() -> (s: Sampler)
        ensures
            s.drawn() == Seq::<Draw>::empty(),
    {
        Sampler { rng: thread_rng(), log: Ghost(Seq::empty()) }
    }

    /// Draws one word; the record gains it.
    pub fn draw_word(&mut self) -> (w: u32)
        ensures
            final(self).drawn() == old(self).drawn().push(Draw::Word(w)),
    {
        let w: u32 = random_u32(&mut self.rng);
        self.log = Ghost(self.log@.push(Draw::Word(w)));
        w
    }

    /// Draws one cell sample; the record gains it.
    pub fn draw_cell(&mut self) -> (c: i8)
        ensures
            final(self).drawn() == old(self).drawn().push(Draw::Cell(c)),
    {
        let c: i8 = random_i8(&mut self.rng);
        self.log = Ghost(self.log@.push(Draw::Cell(c)));
        c
    }
}

/// A random grid from `sampler`: the height word is drawn first, then the
/// width word, then one cell sample per cell, row by row; `bundle_from_samples`
/// makes the grid. The draws of this call are exactly the ones it is made from.
pub fn random_buffer_bundle_from(sampler: &mut Sampler) -> (bundle: DataBundle)
    ensures
        is_random_grid(bundle),
        final(sampler).drawn().len() >= old(sampler).drawn().len(),
        final(sampler).drawn().take(old(sampler).drawn().len() as int) == old(sampler).drawn(),
        made_from_draws(bundle, final(sampler).drawn().skip(old(sampler).drawn().len() as int)),
{
    let ghost start: Seq<Draw> = sampler.drawn();
    let height_sample: u32 = sampler.draw_word();
    let width_sample: u32 = sampler.draw_word();
    let height: u32 = side_from_sample(height_sample);
    let width: u32 = side_from_sample(width_sample);
    let ghost head: Seq<Draw> = start.push(Draw::Word(height_sample)).push(
        Draw::Word(width_sample),
    );
    let mut cell_samples: Vec<i8> = Vec::new();
    for y in 0..height
        invariant
            1 <= width <= MAX_RANDOM_SIDE,
            1 <= height <= MAX_RANDOM_SIDE,
            cell_samples@.len() == y * width,
            sampler.drawn() == head + cell_samples@.map_values(|c: i8| Draw::Cell(c)),
    {
        for x in 0..width
            invariant
                1 <= width <= MAX_RANDOM_SIDE,
                y < height <= MAX_RANDOM_SIDE,
                cell_samples@.len() == y * width + x,
                sampler.drawn() == head + cell_samples@.map_values(|c: i8| Draw::Cell(c)),
        {
            let ghost before: Seq<i8> = cell_samples@;
            let c: i8 = sampler.draw_cell();
            cell_samples.push(c);
            assert(cell_samples@.map_values(|c: i8| Draw::Cell(c)) =~= before.map_values(
                |c: i8| Draw::Cell(c),
            ).push(Draw::Cell(c)));
        }
        assert(y * width + width == (y + 1) * width) by (nonlinear_arith);
    }
    let bundle: DataBundle = bundle_from_samples(height_sample, width_sample, &cell_samples);
    proof {
        let all = sampler.drawn();
        let fresh = all.skip(start.len() as int);
        assert(all.take(start.len() as int) =~= start);
        assert(fresh =~= seq![Draw::Word(height_sample), Draw::Word(width_sample)]
            + cell_samples@.map_values(|c: i8| Draw::Cell(c)));
        assert(fresh.skip(2).map_values(|d: Draw| cell_sample_of(d)) =~= cell_samples@);
        assert(fresh[0] == Draw::Word(height_sample));
        assert(fresh[1] == Draw::Word(width_sample));
        assert forall|i: int| 2 <= i < fresh.len() implies (#[trigger] fresh[i]) is Cell by {
            assert(fresh[i] == Draw::Cell(cell_samples@[i - 2]));
        }
    }
    bundle
}

/// A random grid from the thread-local generator: the height word is drawn
/// first, then the width word, then one cell sample per cell, row by row.
pub fn random_buffer_bundle() -> (bundle: DataBundle)
    ensures
        is_random_grid(bundle),
        exists|height_sample: u32, width_sample: u32, cell_samples: Seq<i8>|
            made_from_samples(bundle, height_sample, width_sample, cell_samples),
        exists|draws: Seq<Draw>| made_from_draws(bundle, draws),
{
    let mut sampler: Sampler = Sampler::new();
    let bundle: DataBundle = random_buffer_bundle_from(&mut sampler);
    proof {
        let draws = sampler.drawn().skip(0);
        assert(made_from_draws(bundle, draws));
        assert(made_from_samples(
            bundle,
            word_of(draws[0]),
            word_of(draws[1]),
            draws.skip(2).map_values(|d: Draw| cell_sample_of(d)),
        ));
    }
    bundle
}

/// A grid made from a run of draws takes its height from the first draw
/// (`1 + word % 100`), its width from the second, and each of its cells from
/// a draw of its own, in order, as that sample's remainder by two with the
/// sample's sign. So the two sides come from different draws, and no draw
/// serves two cells.
pub proof fn law_grid_follows_draws(b: DataBundle, draws: Seq<Draw>)
    requires
        made_from_draws(b, draws),
    ensures
        draws.len() == 2 + b.width * b.height,
        b.height == word_of(draws[0]) % 100 + 1,
        b.width == word_of(draws[1]) % 100 + 1,
        b.data@.len() == draws.len() - 2,
        forall|i: int|
            0 <= i < b.data@.len() ==> {
                &&& (#[trigger] draws[i + 2]) is Cell
                &&& b.data@[i] == (if cell_sample_of(draws[i + 2]) >= 0 {
                    (cell_sample_of(draws[i + 2]) as int) % 2
                } else {
                    -((-cell_sample_of(draws[i + 2])) % 2)
                })
            },
{
    let cells = draws.skip(2).map_values(|d: Draw| cell_sample_of(d));
    assert(side_of(word_of(draws[0])) * side_of(word_of(draws[1])) == b.width * b.height) by (
    nonlinear_arith)
        requires
            b.height == side_of(word_of(draws[0])),
            b.width == side_of(word_of(draws[1])),
    ;
    assert forall|i: int| 0 <= i < b.data@.len() implies {
        &&& (#[trigger] draws[i + 2]) is Cell
        &&& b.data@[i] == (if cell_sample_of(draws[i + 2]) >= 0 {
            (cell_sample_of(draws[i + 2]) as int) % 2
        } else {
            -((-cell_sample_of(draws[i + 2])) % 2)
        })
    } by {
        assert(cells[i] == cell_sample_of(draws[i + 2]));
        assert(b.data@[i] == cell_of(cells[i]));
    }
}

} // verus!
