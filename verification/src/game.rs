use vstd::prelude::*;

use crate::CANVAS_HEIGHT;
use crate::CANVAS_WIDTH;

verus! {

/// The snake's current heading. `Stop` is the initial value and disables
/// movement until a directional key arrives.
#[derive(Clone, Copy, Debug, PartialEq, Eq, Structural)]
pub enum Direction {
    Up,
    Down,
    Left,
    Right,
    Stop,
}

/// A cell of the logical grid, addressed at half the nominal canvas
/// resolution (each cell renders as a two-column glyph).
#[derive(Clone, Copy, Debug, PartialEq, Eq, Structural)]
pub struct CanvasSpace {
    pub x: u32,
    pub y: u32,
}

/// Which of the fixed set of apple glyphs is shown; the drawing layer maps
/// each variant to its character.
#[derive(Clone, Copy, Debug, PartialEq, Eq, Structural)]
pub enum AppleType {
    Red,
    Green,
}

/// The keys the game distinguishes. Anything that is neither an arrow key
/// nor a character key is `Other`.
#[derive(Clone, Copy, Debug, PartialEq, Eq, Structural)]
pub enum KeyCode {
    Up,
    Down,
    Left,
    Right,
    Char(char),
    Other,
}

/// An input event, already reduced to the parts the game logic reads. The
/// capture layer translates the terminal's events into these before they
/// reach the state machine.
#[derive(Clone, Copy, Debug, PartialEq, Eq, Structural)]
pub enum GameEvent {
    Key(KeyCode),
    Mouse,
    Resize(u16, u16),
}

/// The snake: body cells with the head at index 0, and the current heading.
/// The body always holds at least one cell.
#[derive(Debug)]
pub struct Snake {
    pub elements: Vec<CanvasSpace>,
    pub current_direction: Direction,
}

/// The aggregate game state. The shared raw-event queue itself lives with
/// the capture thread; each tick hands the drained events to
/// [`handle_events`].
#[derive(Debug)]
pub struct Controller {
    pub should_close: bool,
    pub last_event: Option<GameEvent>,
    pub snake: Snake,
    pub apple: Option<(CanvasSpace, AppleType)>,
    pub score: u32,
    pub losed: bool,
}

/// Mathematical model of a snake.
pub ghost struct SnakeView {
    pub elements: Seq<CanvasSpace>,
    pub direction: Direction,
}

/// Mathematical model of the whole game state.
pub ghost struct ControllerView {
    pub should_close: bool,
    pub last_event: Option<GameEvent>,
    pub snake: SnakeView,
    pub apple: Option<(CanvasSpace, AppleType)>,
    pub score: int,
    pub losed: bool,
}

impl View for Snake {
    type V = SnakeView;

    open spec fn view(&self) -> SnakeView {
        SnakeView { elements: self.elements@, direction: self.current_direction }
    }
}

impl View for Controller {
    type V = ControllerView;

    open spec fn view(&self) -> ControllerView {
        ControllerView {
            should_close: self.should_close,
            last_event: self.last_event,
            snake: self.snake@,
            apple: self.apple,
            score: self.score as int,
            losed: self.losed,
        }
    }
}

/// Largest legal x coordinate of the logical grid.
pub open spec fn max_x() -> u32 {
    (CANVAS_WIDTH / 2 - 2) as u32
}

/// Largest legal y coordinate of the logical grid.
pub open spec fn max_y() -> u32 {
    (CANVAS_HEIGHT / 2 - 3) as u32
}

/// A cell lies on the bounded grid.
pub open spec fn in_bounds(p: CanvasSpace) -> bool {
    p.x <= max_x() && p.y <= max_y()
}

/// The snake's body is never empty and never leaves the grid.
pub open spec fn snake_wf(s: SnakeView) -> bool {
    &&& s.elements.len() >= 1
    &&& forall|i: int| 0 <= i < s.elements.len() ==> in_bounds(#[trigger] s.elements[i])
}

/// Well-formedness of the whole game state: the snake invariant, and an
/// apple, when present, lies on the grid.
pub open spec fn controller_wf(c: ControllerView) -> bool {
    &&& snake_wf(c.snake)
    &&& c.apple matches Some(a) ==> in_bounds(a.0)
}

/// The heading after one event is applied: an arrow key turns the snake
/// unless it would reverse it straight into itself; everything else leaves
/// the heading alone.
pub open spec fn direction_after(d: Direction, e: Option<GameEvent>) -> Direction {
    match e {
        Some(GameEvent::Key(k)) => match k {
            KeyCode::Up => if d != Direction::Down { Direction::Up } else { d },
            KeyCode::Down => if d != Direction::Up { Direction::Down } else { d },
            KeyCode::Left => if d != Direction::Right { Direction::Left } else { d },
            KeyCode::Right => if d != Direction::Left { Direction::Right } else { d },
            _ => d,
        },
        _ => d,
    }
}

/// The key `k` would send the snake straight back into its own neck while
/// it is heading in direction `d`.
pub open spec fn reverses(d: Direction, k: KeyCode) -> bool {
    ||| d is Up && k is Down
    ||| d is Down && k is Up
    ||| d is Left && k is Right
    ||| d is Right && k is Left
}

/// The snake with the last observed event's direction intent applied.
pub open spec fn with_direction(s: SnakeView, e: Option<GameEvent>) -> SnakeView {
    SnakeView { direction: direction_after(s.direction, e), ..s }
}

/// Apply the last observed event's direction intent, exactly as
/// [`direction_after`] describes; the body is untouched.
pub fn apply_direction(snake: &mut Snake, last_event: Option<GameEvent>)
    ensures
        final(snake)@ == with_direction(old(snake)@, last_event),
{
    match last_event {
        Some(GameEvent::Key(k)) => match k {
            KeyCode::Up => {
                if snake.current_direction != Direction::Down {
                    snake.current_direction = Direction::Up;
                }
            },
            KeyCode::Down => {
                if snake.current_direction != Direction::Up {
                    snake.current_direction = Direction::Down;
                }
            },
            KeyCode::Left => {
                if snake.current_direction != Direction::Right {
                    snake.current_direction = Direction::Left;
                }
            },
            KeyCode::Right => {
                if snake.current_direction != Direction::Left {
                    snake.current_direction = Direction::Right;
                }
            },
            _ => {},
        },
        _ => {},
    }
}

/// An arrow key opposite to the current heading is rejected: the heading
/// does not change.
pub proof fn lemma_reversal_rejected(d: Direction, k: KeyCode)
    requires
        reverses(d, k),
    ensures
        direction_after(d, Some(GameEvent::Key(k))) == d,
{
}

/// Moving one step in direction `d` from `p` would leave the grid.
pub open spec fn blocked(p: CanvasSpace, d: Direction) -> bool {
    match d {
        Direction::Left => p.x == 0,
        Direction::Right => p.x >= max_x(),
        Direction::Up => p.y == 0,
        Direction::Down => p.y >= max_y(),
        Direction::Stop => false,
    }
}

/// The cell one step from `p` in direction `d`. Meaningful only when the
/// step stays on the grid.
pub open spec fn stepped(p: CanvasSpace, d: Direction) -> CanvasSpace
    recommends
        d !is Stop,
        !blocked(p, d),
{
    match d {
        Direction::Left => CanvasSpace { x: (p.x - 1) as u32, y: p.y },
        Direction::Right => CanvasSpace { x: (p.x + 1) as u32, y: p.y },
        Direction::Up => CanvasSpace { x: p.x, y: (p.y - 1) as u32 },
        Direction::Down => CanvasSpace { x: p.x, y: (p.y + 1) as u32 },
        Direction::Stop => p,
    }
}

/// Where the head stands after one movement step: unchanged when the snake
/// is stopped or pressed against the wall, one cell further otherwise.
pub open spec fn head_after(s: SnakeView) -> CanvasSpace
    recommends
        s.elements.len() >= 1,
{
    if s.direction is Stop || blocked(s.elements[0], s.direction) {
        s.elements[0]
    } else {
        stepped(s.elements[0], s.direction)
    }
}

/// This movement step runs into the boundary.
pub open spec fn hits_wall(s: SnakeView) -> bool
    recommends
        s.elements.len() >= 1,
{
    s.direction !is Stop && blocked(s.elements[0], s.direction)
}

/// The snake after one movement step: every segment shifts one slot toward
/// the tail, the old tail cell is vacated, and the head takes the cell of
/// [`head_after`]. A stopped snake does not move at all.
pub open spec fn moved(s: SnakeView) -> SnakeView
    recommends
        s.elements.len() >= 1,
{
    if s.direction is Stop {
        s
    } else {
        SnakeView { elements: seq![head_after(s)] + s.elements.drop_last(), ..s }
    }
}

/// One movement step, exactly as [`moved`] describes; the returned flag
/// reports a boundary collision, on which the head stays where it was.
pub fn advance(snake: &mut Snake) -> (hit_wall: bool)
    requires
        old(snake)@.elements.len() >= 1,
    ensures
        final(snake)@ == moved(old(snake)@),
        hit_wall == hits_wall(old(snake)@),
{
    if snake.current_direction == Direction::Stop {
        false
    } else {
        let head = snake.elements[0];
        let mut new_head = head;
        let mut hit = false;
        match snake.current_direction {
            Direction::Left => {
                if head.x > 0 {
                    new_head.x = head.x - 1;
                } else {
                    hit = true;
                }
            },
            Direction::Right => {
                if head.x < (CANVAS_WIDTH / 2 - 2) as u32 {
                    new_head.x = head.x + 1;
                } else {
                    hit = true;
                }
            },
            Direction::Up => {
                if head.y > 0 {
                    new_head.y = head.y - 1;
                } else {
                    hit = true;
                }
            },
            Direction::Down => {
                if head.y < (CANVAS_HEIGHT / 2 - 3) as u32 {
                    new_head.y = head.y + 1;
                } else {
                    hit = true;
                }
            },
            Direction::Stop => {},
        }
        snake.elements.pop();
        snake.elements.insert(0, new_head);
        proof {
            assert(snake.elements@ =~= seq![head_after(old(snake)@)]
                + old(snake)@.elements.drop_last());
        }
        hit
    }
}

/// One movement step keeps the snake well formed and keeps its length.
pub proof fn lemma_moved_wf(s: SnakeView)
    requires
        snake_wf(s),
    ensures
        snake_wf(moved(s)),
        moved(s).elements.len() == s.elements.len(),
        moved(s).direction == s.direction,
{
    if s.direction !is Stop {
        assert(in_bounds(head_after(s)));
        assert forall|i: int| 0 <= i < moved(s).elements.len()
            implies in_bounds(#[trigger] moved(s).elements[i]) by {
            if i >= 1 {
                assert(moved(s).elements[i] == s.elements[i - 1]);
            }
        }
    }
}

/// Boundary collision: a movement step against the wall of the grid is
/// flagged, and the head keeps its cell — in particular a coordinate at 0
/// is never decremented below 0.
pub proof fn lemma_boundary_collision(s: SnakeView)
    requires
        snake_wf(s),
        s.direction !is Stop,
        blocked(s.elements[0], s.direction),
    ensures
        hits_wall(s),
        moved(s).elements[0] == s.elements[0],
        moved(s).elements.len() == s.elements.len(),
{
}

/// The snake's head stands on the apple's cell.
pub open spec fn apple_hit(apple: Option<(CanvasSpace, AppleType)>, s: SnakeView) -> bool
    recommends
        s.elements.len() >= 1,
{
    match apple {
        Some(a) => a.0 == s.elements[0],
        None => false,
    }
}

/// The snake grown by one segment: the tail cell is duplicated, to be
/// pulled into a trailing position by the next movement step.
pub open spec fn grown(s: SnakeView) -> SnakeView
    recommends
        s.elements.len() >= 1,
{
    SnakeView { elements: s.elements.push(s.elements.last()), ..s }
}

/// The game state after the apple-collision check: when the head stands on
/// the apple, the apple is consumed, the score rises by one and the snake
/// grows by one segment; otherwise nothing changes.
pub open spec fn after_apple_check(c: ControllerView) -> ControllerView
    recommends
        c.snake.elements.len() >= 1,
{
    if apple_hit(c.apple, c.snake) {
        ControllerView { apple: None, score: c.score + 1, snake: grown(c.snake), ..c }
    } else {
        c
    }
}

/// The apple-collision check, exactly as [`after_apple_check`] describes.
pub fn eat_apple_if_hit(c: &mut Controller)
    requires
        old(c)@.snake.elements.len() >= 1,
        old(c).score < u32::MAX,
    ensures
        final(c)@ == after_apple_check(old(c)@),
{
    let head = c.snake.elements[0];
    let hit = match &c.apple {
        Some(a) => a.0 == head,
        None => false,
    };
    if hit {
        c.apple = None;
        c.score = c.score + 1;
        let last = c.snake.elements[c.snake.elements.len() - 1];
        c.snake.elements.push(last);
        proof {
            assert(c.snake.elements@ =~= grown(old(c)@.snake).elements);
        }
    }
}

/// The head shares a cell with a body segment past the first two. Segments
/// 0 and 1 are exempt: after a movement step, segment 1 is the cell the
/// head just left and is always adjacent to it.
pub open spec fn self_collides(s: SnakeView) -> bool {
    exists|i: int| 2 <= i < s.elements.len() && #[trigger] s.elements[i] == s.elements[0]
}

/// Compare the head against every body segment at index 2 or later,
/// exactly as [`self_collides`] describes.
pub fn self_collision(snake: &Snake) -> (hit: bool)
    requires
        snake@.elements.len() >= 1,
    ensures
        hit == self_collides(snake@),
{
    let head = snake.elements[0];
    let mut hit = false;
    let mut i: usize = 2;
    while i < snake.elements.len()
        invariant
            2 <= i,
            i <= snake@.elements.len() || i == 2,
            snake@.elements.len() >= 1,
            head == snake@.elements[0],
            hit == exists|j: int|
                2 <= j < i && #[trigger] snake@.elements[j] == snake@.elements[0],
        decreases snake@.elements.len() - i,
    {
        if snake.elements[i] == head {
            hit = true;
        }
        i = i + 1;
    }
    hit
}

/// A coincidence of the head with any segment at index 2 or later is a
/// self-collision.
pub proof fn lemma_self_collision_detected(t: SnakeView, i: int)
    requires
        2 <= i < t.elements.len(),
        t.elements[i] == t.elements[0],
    ensures
        self_collides(t),
{
}

/// A coincidence with segment 1 alone is exempt: with no match at index 2
/// or later there is no self-collision, even when the head and segment 1
/// share a cell.
pub proof fn lemma_adjacent_segment_exempt(t: SnakeView)
    requires
        forall|i: int| 2 <= i < t.elements.len() ==> #[trigger] t.elements[i] != t.elements[0],
    ensures
        !self_collides(t),
{
}

/// Growing by one segment keeps the snake well formed.
pub proof fn lemma_grown_wf(s: SnakeView)
    requires
        snake_wf(s),
    ensures
        snake_wf(grown(s)),
        grown(s).elements.len() == s.elements.len() + 1,
        grown(s).direction == s.direction,
{
    assert forall|i: int| 0 <= i < grown(s).elements.len()
        implies in_bounds(#[trigger] grown(s).elements[i]) by {
        if i < s.elements.len() {
            assert(grown(s).elements[i] == s.elements[i]);
        } else {
            assert(grown(s).elements[i] == s.elements[s.elements.len() - 1]);
        }
    }
}

/// A snake about to move into one of its own cells collides with itself:
/// when the cell the head is entering equals segment `j` for some `j >= 2`
/// that is not the vacated tail, the moved snake self-collides.
pub proof fn lemma_move_into_body(s: SnakeView, j: int)
    requires
        snake_wf(s),
        s.direction !is Stop,
        !blocked(s.elements[0], s.direction),
        2 <= j <= s.elements.len() - 2,
        stepped(s.elements[0], s.direction) == s.elements[j],
    ensures
        self_collides(moved(s)),
{
    assert(moved(s).elements[j + 1] == s.elements[j]);
    assert(moved(s).elements[0] == s.elements[j]);
    assert(2 <= j + 1 < moved(s).elements.len());
}

/// An apple built from three raw random draws: the coordinates are the
/// draws reduced into the grid, the kind alternates on the parity of the
/// third draw.
pub fn apple_from_random(rx: u16, ry: u16, rk: usize) -> (a: (CanvasSpace, AppleType))
    ensures
        a.0.x == rx as int % (CANVAS_WIDTH as int / 2 - 1),
        a.0.y == ry as int % (CANVAS_HEIGHT as int / 2 - 2),
        a.1 == (if rk % 2 == 0 { AppleType::Red } else { AppleType::Green }),
        in_bounds(a.0),
{
    let x = (rx % (CANVAS_WIDTH / 2 - 1)) as u32;
    let y = (ry % (CANVAS_HEIGHT / 2 - 2)) as u32;
    let kind = if rk % 2 == 0 { AppleType::Red } else { AppleType::Green };
    (CanvasSpace { x, y }, kind)
}

/// When no apple is present, place one at a uniformly random cell of the
/// grid with a uniformly random kind; everything else is untouched. A
/// present apple stays exactly as it is.
pub fn respawn_apple(c: &mut Controller)
    ensures
        final(c)@.snake == old(c)@.snake,
        final(c)@.score == old(c)@.score,
        final(c)@.losed == old(c)@.losed,
        final(c)@.should_close == old(c)@.should_close,
        final(c)@.last_event == old(c)@.last_event,
        old(c).apple is Some ==> final(c)@.apple == old(c)@.apple,
        old(c).apple is None ==> (final(c)@.apple matches Some(a) && in_bounds(a.0)),
{
    if c.apple.is_none() {
        let rx = rand::random::<u16>();
        let ry = rand::random::<u16>();
        let rk = rand::random::<usize>();
        c.apple = Some(apple_from_random(rx, ry, rk));
    }
}

/// The deterministic part of one tick: direction intent, movement,
/// boundary check, apple consumption with growth, and the self-collision
/// check. The respawn of a consumed or missing apple is random and comes
/// on top of this: see [`continue_game_logic`].
pub open spec fn tick_step(c: ControllerView) -> ControllerView
    recommends
        c.snake.elements.len() >= 1,
{
    let s1 = with_direction(c.snake, c.last_event);
    let s2 = moved(s1);
    let ate = apple_hit(c.apple, s2);
    let s3 = if ate { grown(s2) } else { s2 };
    ControllerView {
        snake: s3,
        score: if ate { c.score + 1 } else { c.score },
        apple: if ate { None } else { c.apple },
        losed: c.losed || hits_wall(s1) || self_collides(s3),
        ..c
    }
}

/// One tick keeps the game state well formed; in particular the snake body
/// never becomes empty.
pub proof fn lemma_tick_preserves_wf(c: ControllerView)
    requires
        controller_wf(c),
    ensures
        snake_wf(tick_step(c).snake),
        tick_step(c).apple matches Some(a) ==> in_bounds(a.0),
{
    let s1 = with_direction(c.snake, c.last_event);
    lemma_moved_wf(s1);
    if apple_hit(c.apple, moved(s1)) {
        lemma_grown_wf(moved(s1));
    }
}

/// Advance the game by one received tick signal, in order: apply the last
/// observed event's direction intent, move the snake (flagging a boundary
/// collision as lost), consume a hit apple with its score increment and
/// growth, respawn a missing apple at random, and flag a self-collision as
/// lost. Everything but the respawned apple's cell and kind is pinned down
/// by [`tick_step`].
pub fn continue_game_logic(c: &mut Controller)
    requires
        controller_wf(old(c)@),
        old(c).score < u32::MAX,
    ensures
        ({
            let m = tick_step(old(c)@);
            &&& final(c)@.snake == m.snake
            &&& final(c)@.score == m.score
            &&& final(c)@.losed == m.losed
            &&& final(c)@.should_close == m.should_close
            &&& final(c)@.last_event == m.last_event
            &&& m.apple is Some ==> final(c)@.apple == m.apple
            &&& m.apple is None ==> (final(c)@.apple matches Some(a) && in_bounds(a.0))
        }),
        controller_wf(final(c)@),
{
    proof {
        lemma_tick_preserves_wf(old(c)@);
    }
    let last_event = c.last_event;
    apply_direction(&mut c.snake, last_event);
    let hit_wall = advance(&mut c.snake);
    if hit_wall {
        c.losed = true;
    }
    eat_apple_if_hit(c);
    respawn_apple(c);
    if self_collision(&c.snake) {
        c.losed = true;
    }
}

/// The event is the quit key.
pub open spec fn is_quit(e: GameEvent) -> bool {
    e matches GameEvent::Key(KeyCode::Char('q'))
}

/// The event is recorded as "last observed": key and mouse events are,
/// resize events are not.
pub open spec fn is_observed(e: GameEvent) -> bool {
    match e {
        GameEvent::Key(_) => true,
        GameEvent::Mouse => true,
        GameEvent::Resize(_, _) => false,
    }
}

/// The "last observed" event after one tick's batch is drained: the
/// most-recently-pushed key or mouse event wins — only the latest key
/// matters for the direction intent; with no such event in the batch the
/// previous value stays.
pub open spec fn observed_event(
    events: Seq<GameEvent>,
    prev: Option<GameEvent>,
) -> Option<GameEvent>
    decreases events.len(),
{
    if events.len() == 0 {
        prev
    } else if is_observed(events.last()) {
        Some(events.last())
    } else {
        observed_event(events.drop_last(), prev)
    }
}

/// Some event in the buffer is the quit key.
pub open spec fn any_quit(events: Seq<GameEvent>) -> bool {
    exists|i: int| 0 <= i < events.len() && is_quit(#[trigger] events[i])
}

/// Process one tick's drained input events in the order they were pushed:
/// the quit key requests closing, and every key or mouse event overwrites
/// the "last observed" event, so the most-recently-pushed one wins — only
/// the latest key matters for the direction intent. Game state other than
/// these two fields is untouched.
pub fn handle_events(c: &mut Controller, events: &Vec<GameEvent>)
    ensures
        final(c)@.should_close == (old(c)@.should_close || any_quit(events@)),
        final(c)@.last_event == observed_event(events@, old(c)@.last_event),
        final(c)@.snake == old(c)@.snake,
        final(c)@.apple == old(c)@.apple,
        final(c)@.score == old(c)@.score,
        final(c)@.losed == old(c)@.losed,
{
    let mut i: usize = 0;
    proof {
        assert(events@.take(0) =~= Seq::<GameEvent>::empty());
    }
    while i < events.len()
        invariant
            i <= events@.len(),
            c.snake@ == old(c).snake@,
            c.apple == old(c).apple,
            c.score == old(c).score,
            c.losed == old(c).losed,
            c.should_close == (old(c).should_close || exists|j: int|
                0 <= j < i && is_quit(#[trigger] events@[j])),
            observed_event(events@.take(i as int), old(c).last_event) == c.last_event,
        decreases events@.len() - i,
    {
        let e = events[i];
        match e {
            GameEvent::Key(k) => {
                if k == KeyCode::Char('q') {
                    c.should_close = true;
                }
                c.last_event = Some(e);
            },
            GameEvent::Mouse => {
                c.last_event = Some(e);
            },
            GameEvent::Resize(_, _) => {},
        }
        i = i + 1;
        proof {
            assert(events@.take(i as int).last() == events@[i as int - 1]);
            assert(events@.take(i as int).drop_last() =~= events@.take(i as int - 1));
        }
    }
    proof {
        assert(events@.take(events@.len() as int) =~= events@);
    }
}

/// The starting cell of the snake, at the centre of the logical grid.
pub open spec fn start_position() -> CanvasSpace {
    CanvasSpace { x: (CANVAS_WIDTH / 4) as u32, y: (CANVAS_HEIGHT / 4 - 1) as u32 }
}

/// A fresh game: a one-segment snake resting at the starting cell, no
/// apple, score 0, and neither the lost nor the close-requested flag set.
pub fn new_game() -> (c: Controller)
    ensures
        c@.snake.elements.len() == 1,
        c@.snake.elements[0] == start_position(),
        c@.snake.direction == Direction::Stop,
        c@.apple is None,
        c@.score == 0,
        !c@.losed,
        !c@.should_close,
        c@.last_event is None,
        controller_wf(c@),
{
    let mut elements: Vec<CanvasSpace> = Vec::new();
    elements.push(
        CanvasSpace { x: (CANVAS_WIDTH / 4) as u32, y: (CANVAS_HEIGHT / 4 - 1) as u32 },
    );
    Controller {
        should_close: false,
        last_event: None,
        snake: Snake { elements, current_direction: Direction::Stop },
        apple: None,
        score: 0,
        losed: false,
    }
}

/// In every well-formed game state — the starting state is one, and every
/// exported mutation preserves well-formedness — the snake's body holds at
/// least one element.
pub proof fn lemma_snake_never_empty(c: ControllerView)
    requires
        controller_wf(c),
    ensures
        c.snake.elements.len() >= 1,
{
}

/// Growth correctness: on the tick whose movement step carries the head
/// onto the apple's cell, the score rises by exactly one, the apple is
/// consumed before any respawn, and the body lengthens by exactly one
/// segment.
pub proof fn lemma_growth(c: ControllerView)
    requires
        controller_wf(c),
        apple_hit(c.apple, moved(with_direction(c.snake, c.last_event))),
    ensures
        tick_step(c).score == c.score + 1,
        tick_step(c).snake.elements.len() == c.snake.elements.len() + 1,
        tick_step(c).apple is None,
{
    lemma_moved_wf(with_direction(c.snake, c.last_event));
}

} // verus!
