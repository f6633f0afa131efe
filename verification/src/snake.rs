//! The snake game: a snake that moves one cell per tick on the 5x5 matrix,
//! wraps at the edges, grows when it reaches the food and starts over when
//! it runs into itself.
use vstd::prelude::*;
use vstd::set_lib::{lemma_int_range, lemma_len_subset, lemma_map_size, set_int_range};

use crate::cells::{queue_cells, set_cells, Cell, CellQueue, CellSet};
use crate::grid::{
    in_grid, lemma_step_is_torus_neighbour, turned, MoveDirection, Position, TurnDirection,
};
use crate::prng::{xorshift32_iter, Prng};

verus! {

/// Whether a cell lies on the matrix.
pub open spec fn cell_in_grid(c: Cell) -> bool {
    in_grid(c.0 as int, c.1 as int)
}

/// The `k`-th position (counting from 0) that the food search draws from a
/// generator in state `s`: each draw takes two numbers, row first, each
/// reduced modulo 5.
pub open spec fn food_candidate(s: u32, k: nat) -> Position {
    Position {
        row: (xorshift32_iter(s, (2 * k + 1) as nat) % 5) as i8,
        col: (xorshift32_iter(s, (2 * k + 2) as nat) % 5) as i8,
    }
}

/// Whether the `k`-th draw misses every excluded cell.
pub open spec fn candidate_free(s: u32, excluded: Set<Cell>, k: nat) -> bool {
    !excluded.contains(food_candidate(s, k).cell())
}

/// Whether the food search from state `s` ever finds a free cell (it runs
/// until it does).
pub open spec fn food_search_ends(s: u32, excluded: Set<Cell>) -> bool {
    exists|k: nat| candidate_free(s, excluded, k)
}

/// Whether one of the first `n` draws from state `s` misses every excluded
/// cell.
pub open spec fn search_ends_within(s: u32, excluded: Set<Cell>, n: nat) -> bool {
    exists|k: nat| k < n && candidate_free(s, excluded, k)
}

/// Whether `k` is the first draw that misses every excluded cell.
pub open spec fn is_first_free(s: u32, excluded: Set<Cell>, k: nat) -> bool {
    &&& candidate_free(s, excluded, k)
    &&& forall|j: nat| j < k ==> !candidate_free(s, excluded, j)
}

/// The number of the draw at which the food search stops.
pub open spec fn first_free(s: u32, excluded: Set<Cell>) -> nat {
    choose|k: nat| is_first_free(s, excluded, k)
}

/// The food that the search picks from state `s`.
pub open spec fn food_choice(s: u32, excluded: Set<Cell>) -> Position {
    food_candidate(s, first_free(s, excluded))
}

/// The generator state after the food search from state `s`.
pub open spec fn state_after_search(s: u32, excluded: Set<Cell>) -> u32 {
    xorshift32_iter(s, (2 * first_free(s, excluded) + 2) as nat)
}

/// When some draw is free, a first free draw exists, and it is unique.
pub proof fn lemma_first_free(s: u32, excluded: Set<Cell>, k: nat)
    requires
        candidate_free(s, excluded, k),
    ensures
        is_first_free(s, excluded, first_free(s, excluded)),
        first_free(s, excluded) <= k,
    decreases k,
{
    if exists|j: nat| j < k && candidate_free(s, excluded, j) {
        let j = choose|j: nat| j < k && candidate_free(s, excluded, j);
        lemma_first_free(s, excluded, j);
    } else {
        assert(is_first_free(s, excluded, k));
        lemma_first_free_unique(s, excluded, k, first_free(s, excluded));
    }
}

/// There is only one first free draw.
pub proof fn lemma_first_free_unique(s: u32, excluded: Set<Cell>, a: nat, b: nat)
    requires
        is_first_free(s, excluded, a),
        is_first_free(s, excluded, b),
    ensures
        a == b,
{
    if a < b {
        assert(!candidate_free(s, excluded, a));
    } else if b < a {
        assert(!candidate_free(s, excluded, b));
    }
}

/// Every drawn position lies on the matrix.
pub proof fn lemma_candidate_in_grid(s: u32, k: nat)
    ensures
        cell_in_grid(food_candidate(s, k).cell()),
{
}

/// A set of cells of the matrix has at most 25 members.
pub proof fn lemma_grid_cells_bound(cells: Set<Cell>)
    requires
        cells.finite(),
        forall|c: Cell| cells.contains(c) ==> cell_in_grid(c),
    ensures
        cells.len() <= 25,
{
    let f = |c: Cell| c.0 as int * 5 + c.1 as int;
    let img = cells.map(f);
    assert(vstd::relations::injective_on(f, cells)) by {
        assert forall|a: Cell, b: Cell|
            cells.contains(a) && cells.contains(b) && #[trigger] f(a) == #[trigger] f(b) implies a
            == b by {
            assert(cell_in_grid(a));
            assert(cell_in_grid(b));
        }
    }
    lemma_map_size(cells, img, f);
    lemma_int_range(0, 25);
    assert(img.subset_of(set_int_range(0, 25))) by {
        assert forall|i: int| img.contains(i) implies set_int_range(0, 25).contains(i) by {
            let c = choose|c: Cell| cells.contains(c) && f(c) == i;
            assert(cell_in_grid(c));
        }
    }
    lemma_len_subset(img, set_int_range(0, 25));
}

impl Position {
    /// Draws positions from `rng` until one lies outside `exclude`, and
    /// returns it. The search runs as long as it draws excluded cells, so a
    /// caller must know that it ends.
    pub fn random(rng: &mut Prng, exclude: &CellSet) -> (r: Position)
        requires
            food_search_ends(old(rng).state(), set_cells(*exclude)),
        ensures
            r == food_choice(old(rng).state(), set_cells(*exclude)),
            final(rng).state() == state_after_search(old(rng).state(), set_cells(*exclude)),
            !set_cells(*exclude).contains(r.cell()),
            cell_in_grid(r.cell()),
    {
        let ghost s = rng.state();
        let ghost excluded = set_cells(*exclude);
        let ghost w = choose|k: nat| candidate_free(s, excluded, k);
        let ghost mut i: nat = 0;
        let row_draw = rng.random_u32();
        let col_draw = rng.random_u32();
        let mut coords = Position { row: ((row_draw as usize) % 5) as i8, col: ((col_draw as usize) % 5) as i8 };
        assert(xorshift32_iter(s, 0) == s);
        assert(xorshift32_iter(s, 1) == row_draw);
        assert(xorshift32_iter(s, 2) == col_draw);
        while exclude.contains(&(coords.row, coords.col))
            invariant
                excluded == set_cells(*exclude),
                candidate_free(s, excluded, w),
                i <= w,
                coords == food_candidate(s, i),
                rng.state() == xorshift32_iter(s, (2 * i + 2) as nat),
                forall|j: nat| j < i ==> !candidate_free(s, excluded, j),
            decreases w - i,
        {
            assert(i != w);
            let row_draw = rng.random_u32();
            let col_draw = rng.random_u32();
            coords = Position { row: ((row_draw as usize) % 5) as i8, col: ((col_draw as usize) % 5) as i8 };
            assert(xorshift32_iter(s, (2 * i + 3) as nat) == row_draw);
            assert(xorshift32_iter(s, (2 * i + 4) as nat) == col_draw);
            proof {
                i = i + 1;
            }
        }
        proof {
            assert(is_first_free(s, excluded, i));
            lemma_first_free(s, excluded, i);
            lemma_first_free_unique(s, excluded, i, first_free(s, excluded));
            lemma_candidate_in_grid(s, i);
        }
        coords
    }

    /// Draws positions from `rng` as `random` does, but at most
    /// `max_draws` of them: the first that lies outside `exclude`, or `None`
    /// once `max_draws` positions were all excluded.
    pub fn try_random(rng: &mut Prng, exclude: &CellSet, max_draws: u32) -> (r: Option<Position>)
        ensures
            search_ends_within(old(rng).state(), set_cells(*exclude), max_draws as nat) ==> r
                == Some(food_choice(old(rng).state(), set_cells(*exclude))) && final(rng).state()
                == state_after_search(old(rng).state(), set_cells(*exclude)),
            !search_ends_within(old(rng).state(), set_cells(*exclude), max_draws as nat) ==> r
                is None && final(rng).state() == xorshift32_iter(
                old(rng).state(),
                (2 * max_draws) as nat,
            ),
    {
        let ghost s = rng.state();
        let ghost excluded = set_cells(*exclude);
        let mut i: u32 = 0;
        assert(xorshift32_iter(s, 0) == s);
        while i < max_draws
            invariant
                i <= max_draws,
                s == old(rng).state(),
                excluded == set_cells(*exclude),
                rng.state() == xorshift32_iter(s, (2 * i) as nat),
                forall|j: nat| j < i ==> !candidate_free(s, excluded, j),
            decreases max_draws - i,
        {
            let row_draw = rng.random_u32();
            let col_draw = rng.random_u32();
            let coords = Position {
                row: ((row_draw as usize) % 5) as i8,
                col: ((col_draw as usize) % 5) as i8,
            };
            assert(xorshift32_iter(s, (2 * i + 1) as nat) == row_draw);
            assert(xorshift32_iter(s, (2 * i + 2) as nat) == col_draw);
            assert(coords == food_candidate(s, i as nat));
            if !exclude.contains(&(coords.row, coords.col)) {
                proof {
                    assert(is_first_free(s, excluded, i as nat));
                    lemma_first_free(s, excluded, i as nat);
                    lemma_first_free_unique(s, excluded, i as nat, first_free(s, excluded));
                    assert(search_ends_within(s, excluded, max_draws as nat));
                }
                return Some(coords);
            }
            i += 1;
        }
        None
    }
}


/// The head of a new game.
pub open spec fn start_head() -> Position {
    Position { row: 2, col: 2 }
}

/// The single tail cell of a new game, right above the head.
pub open spec fn start_tail() -> Cell {
    (1, 2)
}

/// The cells that a new game's snake covers.
pub open spec fn start_cells() -> Set<Cell> {
    set![start_head().cell(), start_tail()]
}

/// The direction after a tick in which `pending` was the requested turn.
pub open spec fn next_heading(d: MoveDirection, pending: Option<TurnDirection>) -> MoveDirection {
    match pending {
        Some(t) => turned(d, t),
        None => d,
    }
}

/// Whether two cells are side by side on the 5x5 torus: in one row with
/// columns one apart, or in one column with rows one apart, counted modulo 5.
pub open spec fn torus_adjacent(a: Cell, b: Cell) -> bool {
    (a.0 == b.0 && ((a.1 + 1) % 5 == b.1 || (b.1 + 1) % 5 == a.1)) || (a.1 == b.1 && ((a.0 + 1)
        % 5 == b.0 || (b.0 + 1) % 5 == a.0))
}

/// Whether each cell of `body` is a torus neighbour of the next.
pub open spec fn body_connected(body: Seq<Cell>) -> bool {
    forall|i: int, j: int|
        0 <= i && j == i + 1 && j < body.len() ==> #[trigger] torus_adjacent(body[i], body[j])
}

/// Appending a neighbour of the last cell keeps a body connected.
pub proof fn lemma_connected_push(body: Seq<Cell>, x: Cell)
    requires
        body_connected(body),
        body.len() > 0,
        torus_adjacent(body.last(), x),
    ensures
        body_connected(body.push(x)),
{
    let b = body.push(x);
    assert forall|i: int, j: int| 0 <= i && j == i + 1 && j < b.len() implies #[trigger] torus_adjacent(
        b[i],
        b[j],
    ) by {
        if j < body.len() {
            assert(torus_adjacent(body[i], body[j]));
        }
    }
}

/// Dropping the first cell keeps a body connected.
pub proof fn lemma_connected_drop_first(body: Seq<Cell>)
    requires
        body_connected(body),
        body.len() > 0,
    ensures
        body_connected(body.drop_first()),
{
    let b = body.drop_first();
    assert forall|i: int, j: int| 0 <= i && j == i + 1 && j < b.len() implies #[trigger] torus_adjacent(
        b[i],
        b[j],
    ) by {
        assert(torus_adjacent(body[i + 1], body[j + 1]));
    }
}

/// The game state: the snake (head, tail, the set of covered cells and its
/// direction), the food once it is placed, and the generator that places
/// the food.
pub struct Snake {
    head: Position,
    tail: CellQueue,
    all_positions: CellSet,
    direction: MoveDirection,
    prng: Prng,
    food: Option<Position>,
}

impl Snake {
    /// The head's position.
    pub closed spec fn head_pos(&self) -> Position {
        self.head
    }

    /// The tail's cells, the oldest (the end of the tail) first.
    pub closed spec fn tail_cells(&self) -> Seq<Cell> {
        queue_cells(self.tail)
    }

    /// The set of cells that the snake covers.
    pub closed spec fn covered(&self) -> Set<Cell> {
        set_cells(self.all_positions)
    }

    /// The direction of the next move (before any pending turn).
    pub closed spec fn heading(&self) -> MoveDirection {
        self.direction
    }

    /// The state of the generator that places the food.
    pub closed spec fn prng_state(&self) -> u32 {
        self.prng.state()
    }

    /// The food, once it is placed.
    pub closed spec fn food_placed(&self) -> Option<Position> {
        self.food
    }

    /// The food's position (meaningful once the food is placed).
    pub open spec fn food_pos(&self) -> Position {
        self.food_placed()->0
    }

    /// The cells of the snake from the end of the tail to the head.
    pub open spec fn body_cells(&self) -> Seq<Cell> {
        self.tail_cells().push(self.head_pos().cell())
    }

    /// A well-formed snake: the covered cells are the head and the tail,
    /// all distinct and on the matrix; the tail is never empty; each cell
    /// from the end of the tail to the head is a torus neighbour of the next.
    pub open spec fn snake_wf(&self) -> bool {
        &&& self.covered().finite()
        &&& self.covered() == self.tail_cells().to_set().insert(self.head_pos().cell())
        &&& self.tail_cells().no_duplicates()
        &&& !self.tail_cells().contains(self.head_pos().cell())
        &&& forall|c: Cell| self.covered().contains(c) ==> cell_in_grid(c)
        &&& self.tail_cells().len() >= 1
        &&& body_connected(self.body_cells())
    }

    /// A well-formed game: a well-formed snake, and the food placed on the
    /// matrix, off the snake.
    pub open spec fn wf(&self) -> bool {
        &&& self.snake_wf()
        &&& self.food_placed() is Some
        &&& cell_in_grid(self.food_pos().cell())
        &&& !self.covered().contains(self.food_pos().cell())
    }

    /// Whether every cell that the picture shows lies on the matrix: the
    /// head, each tail cell and the placed food.
    pub open spec fn drawable(&self) -> bool {
        &&& self.food_placed() is Some
        &&& cell_in_grid(self.food_pos().cell())
        &&& cell_in_grid(self.head_pos().cell())
        &&& forall|i: int| 0 <= i < self.tail_cells().len() ==> cell_in_grid(
            #[trigger] self.tail_cells()[i],
        )
    }

    /// The snake of a new game: head in the centre, one tail cell above it,
    /// moving down.
    pub open spec fn is_new_snake(&self) -> bool {
        &&& self.head_pos() == start_head()
        &&& self.tail_cells() == seq![start_tail()]
        &&& self.covered() == start_cells()
        &&& self.heading() == MoveDirection::Down
    }

    /// The state that a game restarted with generator state `s` has: a new
    /// snake, with the food that the search from `s` places.
    pub open spec fn is_restart_from(&self, s: u32) -> bool {
        &&& self.is_new_snake()
        &&& self.food_placed() == Some(food_choice(s, start_cells()))
        &&& self.prng_state() == state_after_search(s, start_cells())
    }

    /// Where the head goes on the next tick.
    pub open spec fn next_head(&self, pending: Option<TurnDirection>) -> Position {
        self.head_pos().stepped(next_heading(self.heading(), pending)).wrapped()
    }

    /// Whether the next tick runs the snake into itself.
    pub open spec fn tick_collides(&self, pending: Option<TurnDirection>) -> bool {
        self.covered().contains(self.next_head(pending).cell())
    }

    /// Whether the next tick takes the snake onto the food.
    pub open spec fn tick_eats(&self, pending: Option<TurnDirection>) -> bool {
        !self.tick_collides(pending) && self.next_head(pending) == self.food_pos()
    }

    /// Whether the food search that the next tick starts, if any, ends.
    pub open spec fn tick_search_ends(&self, pending: Option<TurnDirection>) -> bool {
        if self.tick_collides(pending) {
            food_search_ends(self.prng_state(), start_cells())
        } else if self.tick_eats(pending) {
            food_search_ends(
                self.prng_state(),
                self.covered().insert(self.next_head(pending).cell()),
            )
        } else {
            true
        }
    }

    /// Facts that follow from well-formedness: the covered set counts one
    /// cell more than the tail, and at most 25.
    pub proof fn lemma_wf_sizes(&self)
        requires
            self.snake_wf(),
        ensures
            self.covered().len() == self.tail_cells().len() + 1,
            self.covered().len() <= 25,
            self.tail_cells().len() <= 24,
            cell_in_grid(self.head_pos().cell()),
    {
        self.tail_cells().unique_seq_to_set();
        lemma_grid_cells_bound(self.covered());
        assert(self.covered().contains(self.head_pos().cell()));
    }

    /// A new snake with its cells in fresh collections; the food is not yet
    /// placed.
    fn fresh_parts() -> (r: (Position, CellQueue, CellSet, MoveDirection))
        ensures
            r.0 == start_head(),
            queue_cells(r.1) == seq![start_tail()],
            set_cells(r.2) == start_cells(),
            r.3 == MoveDirection::Down,
    {
        let head = Position { row: 2, col: 2 };
        let mut tail = CellQueue::new();
        let first_tail = Position { row: 1, col: 2 };
        tail.enqueue((first_tail.row, first_tail.col)).unwrap();
        let direction = MoveDirection::Down;
        let mut all_positions = CellSet::new();
        all_positions.insert((head.row, head.col)).unwrap();
        all_positions.insert((first_tail.row, first_tail.col)).unwrap();
        assert(queue_cells(tail) =~= seq![start_tail()]);
        assert(set_cells(all_positions) =~= start_cells());
        (head, tail, all_positions, direction)
    }

    /// A new game whose food generator starts from `seed`. The food is not
    /// placed yet: `get_food` draws it and `set_food` puts it down.
    pub fn new(seed: u32) -> (r: Snake)
        ensures
            r.snake_wf(),
            r.is_new_snake(),
            r.prng_state() == seed,
            r.food_placed() is None,
    {
        let (head, tail, all_positions, direction) = Self::fresh_parts();
        let prng = Prng::new(seed);
        let r = Snake { head, tail, all_positions, direction, prng, food: None };
        proof {
            assert(r.tail_cells()[0] == start_tail());
            assert(r.tail_cells().to_set() =~= set![start_tail()]);
            assert(r.covered() =~= r.tail_cells().to_set().insert(r.head_pos().cell()));
            assert(r.body_cells()[0] == start_tail());
            assert(r.body_cells()[1] == start_head().cell());
        }
        r
    }

    /// Puts the food down on a cell of the matrix off the snake.
    pub fn set_food(&mut self, food: Position)
        requires
            old(self).snake_wf(),
            cell_in_grid(food.cell()),
            !old(self).covered().contains(food.cell()),
        ensures
            final(self).wf(),
            final(self).food_placed() == Some(food),
            final(self).head_pos() == old(self).head_pos(),
            final(self).tail_cells() == old(self).tail_cells(),
            final(self).covered() == old(self).covered(),
            final(self).heading() == old(self).heading(),
            final(self).prng_state() == old(self).prng_state(),
    {
        self.food = Some(food);
    }

    /// Draws a food position off the snake from the game's generator.
    pub fn get_food(&mut self) -> (r: Position)
        requires
            food_search_ends(old(self).prng_state(), old(self).covered()),
        ensures
            r == food_choice(old(self).prng_state(), old(self).covered()),
            final(self).prng_state() == state_after_search(
                old(self).prng_state(),
                old(self).covered(),
            ),
            final(self).head_pos() == old(self).head_pos(),
            final(self).tail_cells() == old(self).tail_cells(),
            final(self).covered() == old(self).covered(),
            final(self).heading() == old(self).heading(),
            final(self).food_placed() == old(self).food_placed(),
            !old(self).covered().contains(r.cell()),
            cell_in_grid(r.cell()),
    {
        Position::random(&mut self.prng, &self.all_positions)
    }

    /// Whether the head is on the food.
    pub fn is_on_food(&self) -> (r: bool)
        ensures
            r == (self.food_placed() == Some(self.head_pos())),
    {
        match self.food {
            Some(food) => self.head == food,
            None => false,
        }
    }

    /// Starts a new game, keeping the generator running.
    pub fn reset_game(&mut self)
        requires
            food_search_ends(old(self).prng_state(), start_cells()),
        ensures
            final(self).wf(),
            final(self).is_restart_from(old(self).prng_state()),
    {
        let (head, tail, all_positions, direction) = Self::fresh_parts();
        self.head = head;
        self.tail = tail;
        self.direction = direction;
        self.all_positions = all_positions;
        let new_food_location = self.get_food();
        self.food = Some(new_food_location);
        proof {
            assert(self.tail_cells()[0] == start_tail());
            assert(self.tail_cells().to_set() =~= set![start_tail()]);
            assert(self.covered() =~= self.tail_cells().to_set().insert(self.head_pos().cell()));
            assert(self.body_cells()[0] == start_tail());
            assert(self.body_cells()[1] == start_head().cell());
        }
    }

    /// One tick of the game. The heading first takes the pending turn, if
    /// any; the head then moves one cell, wrapping at the edges. Running into
    /// the snake restarts the game. Otherwise the old head joins the tail;
    /// on the food the snake keeps its tail end and new food is drawn, else
    /// the tail end is dropped.
    pub fn snake_move_tick(&mut self, pending_move: Option<TurnDirection>)
        requires
            old(self).wf(),
            old(self).tick_search_ends(pending_move),
        ensures
            final(self).wf(),
            old(self).tick_collides(pending_move) ==> final(self).is_restart_from(
                old(self).prng_state(),
            ),
            !old(self).tick_collides(pending_move) ==> final(self).head_pos() == old(
                self,
            ).next_head(pending_move) && final(self).heading() == next_heading(
                old(self).heading(),
                pending_move,
            ),
            old(self).tick_eats(pending_move) ==> final(self).tail_cells() == old(
                self,
            ).tail_cells().push(old(self).head_pos().cell()) && final(self).food_pos()
                == food_choice(
                old(self).prng_state(),
                old(self).covered().insert(old(self).next_head(pending_move).cell()),
            ) && final(self).prng_state() == state_after_search(
                old(self).prng_state(),
                old(self).covered().insert(old(self).next_head(pending_move).cell()),
            ),
            !old(self).tick_collides(pending_move) && !old(self).tick_eats(pending_move)
                ==> final(self).tail_cells() == old(self).tail_cells().push(
                old(self).head_pos().cell(),
            ).drop_first() && final(self).food_pos() == old(self).food_pos()
                && final(self).prng_state() == old(self).prng_state(),
            final(self).tail_cells().len() == (if old(self).tick_collides(pending_move) {
                1
            } else if old(self).tick_eats(pending_move) {
                old(self).tail_cells().len() + 1
            } else {
                old(self).tail_cells().len()
            }),
    {
        proof {
            self.lemma_wf_sizes();
        }
        let ghost old_tail = self.tail_cells();
        let ghost old_covered = self.covered();
        let mut new_direction = self.direction;
        if let Some(turn_direction) = pending_move {
            new_direction = new_direction.turn(&turn_direction);
        }
        self.direction = new_direction;
        let new_head_location = self.head.next_in(self.direction);
        let new_cell = (new_head_location.row, new_head_location.col);

        if self.all_positions.contains(&new_cell) {
            self.reset_game();
            return;
        }

        let old_head_location = self.head;
        let old_cell = (old_head_location.row, old_head_location.col);
        let ghost old_body = old_tail.push(old_cell);
        proof {
            lemma_step_is_torus_neighbour(old_head_location, new_direction);
            assert(torus_adjacent(old_cell, new_cell));
            assert(old_body.last() == old_cell);
        }
        self.head = new_head_location;
        self.tail.enqueue(old_cell).unwrap();
        self.all_positions.insert(new_cell).unwrap();
        assert(self.covered() == old_covered.insert(new_cell));
        assert(self.tail_cells() == old_tail.push(old_cell));

        if self.is_on_food() {
            let new_food_location = self.get_food();
            self.food = Some(new_food_location);
            proof {
                lemma_connected_push(old_body, new_cell);
                assert(self.body_cells() =~= old_body.push(new_cell));
                old_tail.lemma_push_to_set_commute(old_cell);
                assert(self.covered() =~= self.tail_cells().to_set().insert(self.head_pos().cell()));
            }
        } else {
            let deleted_tail = self.tail.dequeue().unwrap();
            self.all_positions.remove(&deleted_tail);
            proof {
                let d = old_tail.drop_first();
                let t0 = old_tail[0];
                lemma_connected_drop_first(old_body);
                assert(old_body.drop_first() =~= d.push(old_cell));
                lemma_connected_push(old_body.drop_first(), new_cell);
                assert(self.body_cells() =~= old_body.drop_first().push(new_cell));
                assert(deleted_tail == t0);
                assert(self.tail_cells() =~= d.push(old_cell));
                d.lemma_push_to_set_commute(old_cell);
                assert(!d.contains(t0)) by {
                    if d.contains(t0) {
                        let k = choose|k: int| 0 <= k < d.len() && d[k] == t0;
                        assert(old_tail[k + 1] == t0);
                    }
                }
                assert(old_tail.to_set() =~= d.to_set().insert(t0)) by {
                    assert forall|c: Cell| old_tail.contains(c) implies d.to_set().insert(t0).contains(c) by {
                        let k = choose|k: int| 0 <= k < old_tail.len() && old_tail[k] == c;
                        if k > 0 {
                            assert(d[k - 1] == c);
                        }
                    }
                    assert forall|c: Cell| d.contains(c) implies old_tail.contains(c) by {
                        let k = choose|k: int| 0 <= k < d.len() && d[k] == c;
                        assert(old_tail[k + 1] == c);
                    }
                    assert(old_tail.contains(t0));
                }
                assert(old_tail.contains(t0));
                assert(self.covered() =~= self.tail_cells().to_set().insert(self.head_pos().cell()));
            }
        }
    }

    /// The head's position.
    pub fn head(&self) -> (r: Position)
        ensures
            r == self.head_pos(),
    {
        self.head
    }

    /// The food, once it is placed.
    pub fn food(&self) -> (r: Option<Position>)
        ensures
            r == self.food_placed(),
    {
        self.food
    }

    /// The direction of the next move.
    pub fn direction(&self) -> (r: MoveDirection)
        ensures
            r == self.heading(),
    {
        self.direction
    }

    /// The tail's cells as (row, column), the end of the tail first.
    pub fn tail(&self) -> (r: Vec<Cell>)
        ensures
            r@ == self.tail_cells(),
    {
        self.tail.to_vec()
    }

    /// Whether the snake covers `cell`.
    pub fn covers(&self, cell: Cell) -> (r: bool)
        ensures
            r == self.covered().contains(cell),
    {
        self.all_positions.contains(&cell)
    }

    /// The brightness of cell (`row`, `col`) in the picture of the game: the
    /// food at `food_brightness`, the tail at 6, the head at 9, the rest dark.
    pub open spec fn pixel(&self, food_brightness: u8, row: int, col: int) -> u8 {
        if self.food_pos().row == row && self.food_pos().col == col {
            food_brightness
        } else if self.tail_cells().contains((row as i8, col as i8)) {
            6
        } else if self.head_pos().row == row && self.head_pos().col == col {
            9
        } else {
            0
        }
    }

    /// The picture: the food's own cell shows the food's brightness; any
    /// other cell on the tail shows 6; the head, where neither the food nor
    /// the tail is, shows 9; every other cell is dark.
    pub proof fn lemma_picture(&self, food_brightness: u8, row: int, col: int)
        requires
            0 <= row < 5,
            0 <= col < 5,
        ensures
            self.pixel(food_brightness, self.food_pos().row as int, self.food_pos().col as int)
                == food_brightness,
            ({
                let c = (row as i8, col as i8);
                let on_food = c == self.food_pos().cell();
                let on_tail = self.tail_cells().contains(c);
                let on_head = c == self.head_pos().cell();
                &&& on_food ==> self.pixel(food_brightness, row, col) == food_brightness
                &&& !on_food && on_tail ==> self.pixel(food_brightness, row, col) == 6
                &&& !on_food && !on_tail && on_head ==> self.pixel(food_brightness, row, col) == 9
                &&& !on_food && !on_tail && !on_head ==> self.pixel(food_brightness, row, col) == 0
            }),
    {
    }

    /// The picture of the game as rows of LED brightness levels.
    pub fn get_snake_matrix(&self, food_brightness: u8) -> (m: [[u8; 5]; 5])
        requires
            self.drawable(),
        ensures
            forall|row: int, col: int|
                0 <= row < 5 && 0 <= col < 5 ==> #[trigger] m[row][col] == self.pixel(
                    food_brightness,
                    row,
                    col,
                ),
    {
        let mut matrix: [[u8; 5]; 5] = [[0; 5]; 5];
        matrix[self.head.row as usize][self.head.col as usize] = 9;
        let cells = self.tail.to_vec();
        let n = cells.len();
        for i in 0..n
            invariant
                n == cells@.len(),
                cells@ == self.tail_cells(),
                self.drawable(),
                forall|row: int, col: int|
                    0 <= row < 5 && 0 <= col < 5 ==> #[trigger] matrix[row][col] == (
                    if cells@.take(i as int).contains((row as i8, col as i8)) {
                        6u8
                    } else if self.head_pos().row == row && self.head_pos().col == col {
                        9u8
                    } else {
                        0u8
                    }),
        {
            let (r, c) = cells[i];
            assert(self.tail_cells()[i as int] == (r, c));
            assert(cell_in_grid((r, c)));
            matrix[r as usize][c as usize] = 6;
            proof {
                assert forall|row: int, col: int| 0 <= row < 5 && 0 <= col < 5 implies #[trigger] matrix[row][col] == (
                    if cells@.take(i + 1).contains((row as i8, col as i8)) {
                        6u8
                    } else if self.head_pos().row == row && self.head_pos().col == col {
                        9u8
                    } else {
                        0u8
                    }) by {
                    let p = (row as i8, col as i8);
                    let t1 = cells@.take(i + 1);
                    let t0 = cells@.take(i as int);
                    if t1.contains(p) {
                        let k = choose|k: int| 0 <= k < t1.len() && t1[k] == p;
                        if k < i {
                            assert(t0[k] == p);
                        }
                    }
                    if t0.contains(p) {
                        let k = choose|k: int| 0 <= k < t0.len() && t0[k] == p;
                        assert(t1[k] == p);
                    }
                    if r == row && c == col {
                        assert(cells@.take(i + 1)[i as int] == p);
                    }
                }
            }
        }
        assert(cells@.take(n as int) =~= self.tail_cells());
        if let Some(food) = self.food {
            matrix[food.row as usize][food.col as usize] = food_brightness;
        }
        matrix
    }
}


/// Microseconds from the start of a game to the first move.
pub const FIRST_MOVE_US: u32 = 500_000;

/// Microseconds between two moves.
pub const MOVE_PERIOD_US: u32 = 1_000_000;

/// The number of steps in the food's blink cycle.
pub const BLINK_STEPS: u8 = 13;

/// The brightness of the food at step `step` of its blink: it fades from 9
/// down to 1 over the first nine steps and stays dark for the last four.
pub fn food_brightness(step: u8) -> (r: u8)
    requires
        step < BLINK_STEPS,
    ensures
        r == (if step <= 8 {
            9 - step
        } else {
            0
        }),
{
    if step <= 8 {
        9 - step
    } else {
        0
    }
}

/// The blink step that follows `step`; after the last step the cycle starts
/// over.
pub fn next_blink_step(step: u8) -> (r: u8)
    requires
        step < BLINK_STEPS,
    ensures
        r < BLINK_STEPS,
        r == (step + 1) % (BLINK_STEPS as int),
{
    let next = step + 1;
    if next == BLINK_STEPS {
        0
    } else {
        next
    }
}

} // verus!
