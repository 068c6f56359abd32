//! The supply of pieces. Pieces are dealt from a bag: whenever fewer than
//! seven are waiting, one piece of each shape is added behind them, shuffled
//! by a small generator of numbers that starts from a fixed seed. The order
//! of the pieces is the same in every game.

use std::collections::VecDeque;
use vstd::prelude::*;

use crate::models::block::{Block, Cell, Color};
use crate::models::tetromino::i::I;
use crate::models::tetromino::j::J;
use crate::models::tetromino::l::L;
use crate::models::tetromino::o::O;
use crate::models::tetromino::s::S;
use crate::models::tetromino::t::T;
use crate::models::tetromino::z::Z;
use crate::models::tetromino::{poses_of, Piece, Pose, Shape, TetrominoDirection};

verus! {

/// The number of shapes, and so of pieces in a full set.
pub const SET_SIZE: usize = 7;

/// The column in which the axis of a new piece lies.
pub const SPAWN_X: i32 = 4;

/// The row in which the axis of a new piece lies: the first row above the
/// stack.
pub const SPAWN_Y: i32 = 20;

/// The number that follows `seed` in the generator's sequence.
pub open spec fn lcg_next(seed: nat) -> nat {
    ((13 * seed + 5) % 24) as nat
}

/// A piece of the given shape as it is dealt: in the colour of its shape,
/// facing North, its axis at the spawn cell.
pub open spec fn spawn_pose(shape: Shape) -> Pose {
    Pose {
        shape,
        facing: TetrominoDirection::North,
        pivot: Cell { color: shape.color(), x: SPAWN_X as int, y: SPAWN_Y as int },
    }
}

/// One piece of each shape as it is dealt, in the order in which a set is
/// handed to the shuffle.
pub open spec fn full_set() -> Seq<Pose> {
    seq![
        spawn_pose(Shape::I),
        spawn_pose(Shape::J),
        spawn_pose(Shape::L),
        spawn_pose(Shape::S),
        spawn_pose(Shape::Z),
        spawn_pose(Shape::T),
        spawn_pose(Shape::O),
    ]
}

/// The items in shuffled order, and the generator's number after the
/// shuffle. While items are left, the generator gives its next number; the
/// item at that number modulo the count of items left is taken out and
/// comes next.
pub open spec fn shuffled(items: Seq<Pose>, seed: nat) -> (Seq<Pose>, nat)
    decreases items.len(),
{
    if items.len() == 0 {
        (Seq::empty(), seed)
    } else {
        let number = lcg_next(seed);
        let idx = number % items.len();
        let rest = shuffled(items.remove(idx as int), number);
        (seq![items[idx as int]] + rest.0, rest.1)
    }
}

/// The mathematical value of a factory: the pieces that wait in the bag,
/// the next one first, and the generator's last number.
pub ghost struct Supply {
    pub bag: Seq<Pose>,
    pub seed: nat,
}

impl Supply {
    /// The supply as a draw finds it once the bag has been seen to: with a
    /// shuffled full set behind the pieces that waited, if those were fewer
    /// than seven.
    pub open spec fn refilled(self) -> Supply {
        if self.bag.len() < SET_SIZE {
            let fresh = shuffled(full_set(), self.seed);
            Supply { bag: self.bag + fresh.0, seed: fresh.1 }
        } else {
            self
        }
    }

    /// The piece that the next draw deals.
    pub open spec fn next(self) -> Pose {
        self.refilled().bag.first()
    }

    /// The supply after the next draw.
    pub open spec fn popped(self) -> Supply {
        Supply { bag: self.refilled().bag.drop_first(), seed: self.refilled().seed }
    }

    /// The pieces that the next `n` draws deal, in order.
    pub open spec fn draws(self, n: nat) -> Seq<Pose>
        decreases n,
    {
        if n == 0 {
            Seq::empty()
        } else {
            seq![self.next()] + self.popped().draws((n - 1) as nat)
        }
    }

    /// The supply after the next `n` draws.
    pub open spec fn after_draws(self, n: nat) -> Supply
        decreases n,
    {
        if n == 0 {
            self
        } else {
            self.popped().after_draws((n - 1) as nat)
        }
    }

    /// What holds of the supply of every factory between draws: the
    /// generator's number is below 24; at most twelve pieces wait; each of
    /// them is as it is dealt; and where seven or more wait, the last seven
    /// are one of each shape.
    pub open spec fn wf(self) -> bool {
        &&& self.seed < 24
        &&& self.bag.len() <= 12
        &&& forall|i: int|
            0 <= i < self.bag.len() ==> #[trigger] self.bag[i] == spawn_pose(self.bag[i].shape)
        &&& self.bag.len() >= SET_SIZE ==> self.bag.skip(
            self.bag.len() - SET_SIZE,
        ).to_multiset() == full_set().to_multiset()
    }

    /// The supply stands between two sets: the next draw deals the first
    /// piece of a set.
    pub open spec fn at_set_start(self) -> bool {
        self.bag.len() == 0 || self.bag.len() == SET_SIZE
    }
}

/// The source of the pieces of a game.
pub struct TetrominoFactory {
    seven_bag: VecDeque<Piece>,
    rand: usize,
}

impl View for TetrominoFactory {
    type V = Supply;

    closed spec fn view(&self) -> Supply {
        Supply { bag: poses_of(self.seven_bag@), seed: self.rand as nat }
    }
}

impl TetrominoFactory {
    /// The supply is as every factory keeps it between draws.
    pub open spec fn wf(&self) -> bool {
        self@.wf()
    }

    /// A factory with an empty bag, its generator at the seed 0.
    pub fn new() -> (factory: Self)
        ensures
            factory@ == (Supply { bag: Seq::empty(), seed: 0 }),
            factory.wf(),
    {
        let factory = Self { seven_bag: VecDeque::new(), rand: 0 };
        assert(factory@.bag =~= Seq::empty());
        factory
    }

    /// Deals the next piece. If fewer than seven pieces wait, a shuffled
    /// full set is first put behind them.
    pub fn pop(&mut self) -> (piece: Piece)
        requires
            old(self).wf(),
        ensures
            final(self).wf(),
            piece@ == old(self)@.next(),
            final(self)@ == old(self)@.popped(),
    {
        if self.seven_bag.len() < SET_SIZE {
            let mut new_seven_bag = self.new_seven_bag();
            proof {
                lemma_shuffled_permutes(full_set(), old(self)@.seed);
                assert(poses_of(self.seven_bag@ + new_seven_bag@) =~= poses_of(self.seven_bag@)
                    + poses_of(new_seven_bag@));
            }
            self.seven_bag.append(&mut new_seven_bag);
        }
        assert(self@ == old(self)@.refilled());
        proof {
            old(self)@.lemma_popped_wf();
        }
        let piece = self.seven_bag.pop_front().unwrap();
        assert(self@.bag =~= old(self)@.popped().bag);
        piece
    }

    /// A full set in shuffled order.
    fn new_seven_bag(&mut self) -> (bag: VecDeque<Piece>)
        requires
            old(self)@.seed < 24,
        ensures
            poses_of(bag@) == shuffled(full_set(), old(self)@.seed).0,
            final(self)@.seed == shuffled(full_set(), old(self)@.seed).1,
            final(self)@.bag == old(self)@.bag,
    {
        let mut set = Self::build_seven_tetrominos();
        self.fisher_yates_shuffle(&mut set)
    }

    /// Takes every piece out of `to_shuffle` and returns them in shuffled
    /// order; the generator moves on by one number for each piece.
    fn fisher_yates_shuffle(&mut self, to_shuffle: &mut VecDeque<Piece>) -> (ret: VecDeque<Piece>)
        requires
            old(self)@.seed < 24,
        ensures
            poses_of(ret@) == shuffled(poses_of(old(to_shuffle)@), old(self)@.seed).0,
            final(self)@.seed == shuffled(poses_of(old(to_shuffle)@), old(self)@.seed).1,
            final(self)@.bag == old(self)@.bag,
            final(to_shuffle)@.len() == 0,
    {
        let mut ret: VecDeque<Piece> = VecDeque::new();
        let len = to_shuffle.len();
        let mut i: usize = len;
        let ghost goal = shuffled(poses_of(old(to_shuffle)@), old(self)@.seed);
        assert(poses_of(ret@) + goal.0 =~= goal.0);
        while i >= 1
            invariant
                i == to_shuffle@.len(),
                self@.seed < 24,
                self@.bag == old(self)@.bag,
                goal == shuffled(poses_of(old(to_shuffle)@), old(self)@.seed),
                poses_of(ret@) + shuffled(poses_of(to_shuffle@), self@.seed).0 == goal.0,
                shuffled(poses_of(to_shuffle@), self@.seed).1 == goal.1,
            decreases i,
        {
            let ghost left = poses_of(to_shuffle@);
            let ghost done = poses_of(ret@);
            let ghost seed = self@.seed;
            let rand = self.linear_congruential_generate();
            let idx = rand % i;
            let removed = to_shuffle.remove(idx).unwrap();
            ret.push_back(removed);
            proof {
                assert(poses_of(to_shuffle@) =~= left.remove(idx as int));
                assert(poses_of(ret@) =~= done.push(left[idx as int]));
                let rest = shuffled(left.remove(idx as int), rand as nat);
                assert(shuffled(left, seed).0 == seq![left[idx as int]] + rest.0);
                assert(done.push(left[idx as int]) + rest.0 =~= done + (seq![left[idx as int]]
                    + rest.0));
            }
            i -= 1;
        }
        assert(poses_of(ret@) + Seq::<Pose>::empty() =~= poses_of(ret@));
        ret
    }

    /// Moves the generator on by one number and returns it.
    fn linear_congruential_generate(&mut self) -> (next: usize)
        requires
            old(self)@.seed < 24,
        ensures
            next == lcg_next(old(self)@.seed),
            next < 24,
            final(self)@ == (Supply { bag: old(self)@.bag, seed: next as nat }),
    {
        let next = (13 * self.rand + 5) % 24;
        self.rand = next;
        next
    }

    /// One piece of each shape as it is dealt.
    fn build_seven_tetrominos() -> (ret: VecDeque<Piece>)
        ensures
            poses_of(ret@) == full_set(),
    {
        let mut ret: VecDeque<Piece> = VecDeque::new();
        ret.push_back(Piece::I(Self::build_default_i()));
        ret.push_back(Piece::J(Self::build_default_j()));
        ret.push_back(Piece::L(Self::build_default_l()));
        ret.push_back(Piece::S(Self::build_default_s()));
        ret.push_back(Piece::Z(Self::build_default_z()));
        ret.push_back(Piece::T(Self::build_default_t()));
        ret.push_back(Piece::O(Self::build_default_o()));
        assert(poses_of(ret@) =~= full_set());
        ret
    }

    fn build_default_i() -> (piece: I)
        ensures
            piece@ == spawn_pose(Shape::I),
    {
        I::new(TetrominoDirection::North, Block::new(Color::Cyan, SPAWN_X, SPAWN_Y))
    }

    fn build_default_j() -> (piece: J)
        ensures
            piece@ == spawn_pose(Shape::J),
    {
        J::new(TetrominoDirection::North, Block::new(Color::Blue, SPAWN_X, SPAWN_Y))
    }

    fn build_default_l() -> (piece: L)
        ensures
            piece@ == spawn_pose(Shape::L),
    {
        L::new(TetrominoDirection::North, Block::new(Color::Orange, SPAWN_X, SPAWN_Y))
    }

    fn build_default_s() -> (piece: S)
        ensures
            piece@ == spawn_pose(Shape::S),
    {
        S::new(TetrominoDirection::North, Block::new(Color::Green, SPAWN_X, SPAWN_Y))
    }

    fn build_default_z() -> (piece: Z)
        ensures
            piece@ == spawn_pose(Shape::Z),
    {
        Z::new(TetrominoDirection::North, Block::new(Color::Red, SPAWN_X, SPAWN_Y))
    }

    fn build_default_t() -> (piece: T)
        ensures
            piece@ == spawn_pose(Shape::T),
    {
        T::new(TetrominoDirection::North, Block::new(Color::Purple, SPAWN_X, SPAWN_Y))
    }

    fn build_default_o() -> (piece: O)
        ensures
            piece@ == spawn_pose(Shape::O),
    {
        O::new(TetrominoDirection::North, Block::new(Color::Yellow, SPAWN_X, SPAWN_Y))
    }
}

/// A shuffle deals every item once: the shuffled order holds exactly the
/// items that were given, each as often as it was given, and every item of
/// it is one of them. If there was an item, the generator's number after the
/// shuffle is below 24.
pub proof fn lemma_shuffled_permutes(items: Seq<Pose>, seed: nat)
    ensures
        shuffled(items, seed).0.to_multiset() == items.to_multiset(),
        shuffled(items, seed).0.len() == items.len(),
        forall|i: int|
            0 <= i < items.len() ==> items.contains(#[trigger] shuffled(items, seed).0[i]),
        items.len() > 0 ==> shuffled(items, seed).1 < 24,
        items.len() == 0 ==> shuffled(items, seed).1 == seed,
    decreases items.len(),
{
    broadcast use vstd::seq_lib::group_to_multiset_ensures;

    if items.len() == 0 {
        assert(shuffled(items, seed).0 =~= items);
    } else {
        let number = lcg_next(seed);
        let idx = (number % items.len()) as int;
        let rest = shuffled(items.remove(idx), number);
        let picked = items[idx];
        lemma_shuffled_permutes(items.remove(idx), number);
        let order = shuffled(items, seed).0;
        assert(order == seq![picked] + rest.0);
        assert(order =~= rest.0.insert(0, picked));
        vstd::seq_lib::to_multiset_insert(rest.0, 0, picked);
        vstd::seq_lib::to_multiset_remove(items, idx);
        assert(items.to_multiset().count(picked) > 0);
        assert(items.to_multiset().remove(picked).insert(picked) =~= items.to_multiset());
        assert forall|i: int| 0 <= i < items.len() implies items.contains(#[trigger] order[i]) by {
            if i > 0 {
                let found = rest.0[i - 1];
                assert(items.remove(idx).contains(found));
                let k = choose|k: int| 0 <= k < items.remove(idx).len() && items.remove(idx)[k] == found;
                if k < idx {
                    assert(items[k] == found);
                } else {
                    assert(items[k + 1] == found);
                }
            }
        }
    }
}

impl Supply {
    /// A draw keeps the supply as every factory keeps it.
    pub proof fn lemma_popped_wf(self)
        requires
            self.wf(),
        ensures
            self.refilled().bag.len() >= SET_SIZE,
            self.next() == spawn_pose(self.next().shape),
            self.popped().wf(),
    {
        let seen = self.refilled();
        let fresh = shuffled(full_set(), self.seed);
        lemma_shuffled_permutes(full_set(), self.seed);
        if self.bag.len() < SET_SIZE {
            assert(seen.bag.skip(seen.bag.len() - SET_SIZE) =~= fresh.0);
            assert forall|i: int| 0 <= i < seen.bag.len() implies #[trigger] seen.bag[i]
                == spawn_pose(seen.bag[i].shape) by {
                if i >= self.bag.len() {
                    let found = fresh.0[i - self.bag.len()];
                    assert(full_set().contains(found));
                }
            }
        }
        let after = self.popped();
        assert forall|i: int| 0 <= i < after.bag.len() implies #[trigger] after.bag[i]
            == spawn_pose(after.bag[i].shape) by {
            assert(after.bag[i] == seen.bag[i + 1]);
        }
        if after.bag.len() >= SET_SIZE {
            assert(after.bag.skip(after.bag.len() - SET_SIZE) =~= seen.bag.skip(
                seen.bag.len() - SET_SIZE,
            ));
        }
    }

    /// Draws deal the waiting pieces in their order: the next `n` draws deal
    /// the first `n` pieces that wait once the bag has been seen to, as far
    /// as there are that many.
    pub proof fn lemma_draws_prefix(self, n: nat)
        requires
            n <= self.refilled().bag.len(),
        ensures
            self.draws(n) == self.refilled().bag.take(n as int),
        decreases n,
    {
        let seen = self.refilled();
        if n == 0 {
            assert(self.draws(n) =~= seen.bag.take(n as int));
        } else {
            let after = self.popped();
            let m = (n - 1) as nat;
            after.lemma_draws_prefix(m);
            assert(after.refilled().bag.take(m as int) =~= after.bag.take(m as int));
            assert(self.draws(n) =~= seen.bag.take(n as int));
        }
    }

    /// Each shape comes once in a set: from a supply that stands between two
    /// sets, the next seven draws deal one piece of each shape, and the
    /// supply after them stands between two sets again.
    pub proof fn lemma_seven_draws(self)
        requires
            self.wf(),
            self.at_set_start(),
        ensures
            self.draws(7).to_multiset() == full_set().to_multiset(),
            self.after_draws(7).wf(),
            self.after_draws(7).at_set_start(),
    {
        let seen = self.refilled();
        lemma_shuffled_permutes(full_set(), self.seed);
        assert(seen.bag.len() == SET_SIZE);
        self.lemma_draws_prefix(7);
        assert(seen.bag.take(7) =~= seen.bag);
        if self.bag.len() == 0 {
            assert(seen.bag =~= shuffled(full_set(), self.seed).0);
        } else {
            assert(self.bag.skip(self.bag.len() - SET_SIZE) =~= self.bag);
        }
        let s1 = self.popped();
        self.lemma_popped_wf();
        lemma_shuffled_permutes(full_set(), s1.seed);
        let s2 = s1.popped();
        s1.lemma_popped_wf();
        let s3 = s2.popped();
        s2.lemma_popped_wf();
        let s4 = s3.popped();
        s3.lemma_popped_wf();
        let s5 = s4.popped();
        s4.lemma_popped_wf();
        let s6 = s5.popped();
        s5.lemma_popped_wf();
        let s7 = s6.popped();
        s6.lemma_popped_wf();
        reveal_with_fuel(Supply::after_draws, 8);
        assert(self.after_draws(7) == s7);
    }
}

/// The first set of every game: from the seed 0 the shuffle deals the T, the
/// Z, the S, the bar, the L, the J and the square, in this order, and leaves
/// the generator at 23.
pub proof fn lemma_first_set()
    ensures
        shuffled(full_set(), 0) == (
            seq![
                spawn_pose(Shape::T),
                spawn_pose(Shape::Z),
                spawn_pose(Shape::S),
                spawn_pose(Shape::I),
                spawn_pose(Shape::L),
                spawn_pose(Shape::J),
                spawn_pose(Shape::O),
            ],
            23nat,
        ),
{
    let i = spawn_pose(Shape::I);
    let j = spawn_pose(Shape::J);
    let l = spawn_pose(Shape::L);
    let o = spawn_pose(Shape::O);
    let s = spawn_pose(Shape::S);
    let t = spawn_pose(Shape::T);
    let z = spawn_pose(Shape::Z);
    let b7 = full_set();
    let b6 = seq![i, j, l, s, z, o];
    let b5 = seq![i, j, l, s, o];
    let b4 = seq![i, j, l, o];
    let b3 = seq![j, l, o];
    let b2 = seq![j, o];
    let b1 = seq![o];
    let b0 = Seq::<Pose>::empty();
    assert(b7.remove(5) =~= b6);
    assert(b6.remove(4) =~= b5);
    assert(b5.remove(3) =~= b4);
    assert(b4.remove(0) =~= b3);
    assert(b3.remove(1) =~= b2);
    assert(b2.remove(0) =~= b1);
    assert(b1.remove(0) =~= b0);
    assert(shuffled(b0, 23) == (b0, 23nat));
    assert(shuffled(b1, 18).0 =~= seq![o] && shuffled(b1, 18).1 == 23);
    assert(shuffled(b2, 1).0 =~= seq![j, o] && shuffled(b2, 1).1 == 23);
    assert(shuffled(b3, 20).0 =~= seq![l, j, o] && shuffled(b3, 20).1 == 23);
    assert(shuffled(b4, 3).0 =~= seq![i, l, j, o] && shuffled(b4, 3).1 == 23);
    assert(shuffled(b5, 22).0 =~= seq![s, i, l, j, o] && shuffled(b5, 22).1 == 23);
    assert(shuffled(b6, 5).0 =~= seq![z, s, i, l, j, o] && shuffled(b6, 5).1 == 23);
    assert(shuffled(b7, 0).0 =~= seq![t, z, s, i, l, j, o] && shuffled(b7, 0).1 == 23);
}

/// The first seven pieces of every game: a new factory deals the T, the Z,
/// the S, the bar, the L, the J and the square, in this order, which is one
/// piece of each shape.
pub proof fn lemma_first_draws()
    ensures
        (Supply { bag: Seq::empty(), seed: 0 }).draws(7) == seq![
            spawn_pose(Shape::T),
            spawn_pose(Shape::Z),
            spawn_pose(Shape::S),
            spawn_pose(Shape::I),
            spawn_pose(Shape::L),
            spawn_pose(Shape::J),
            spawn_pose(Shape::O),
        ],
        (Supply { bag: Seq::empty(), seed: 0 }).draws(7).to_multiset() == full_set().to_multiset(),
{
    let fresh = Supply { bag: Seq::empty(), seed: 0 };
    lemma_first_set();
    fresh.lemma_draws_prefix(7);
    fresh.lemma_seven_draws();
    assert(fresh.refilled().bag.take(7) =~= shuffled(full_set(), 0).0);
}

} // verus!
