//! One tick of the console program: collect the keys, move the player, draw
//! it and take the frame.

use crate::canvas::{Canvas, CanvasView};
use crate::input::InputManager;
use vstd::prelude::*;

verus! {

/// The glyph that stands for the player.
pub const PLAYER: char = '@';

/// The key that moves the player one row up.
pub const KEY_UP: char = 'w';

/// The key that moves the player one row down.
pub const KEY_DOWN: char = 's';

/// The key that moves the player one column to the left.
pub const KEY_LEFT: char = 'a';

/// The key that moves the player one column to the right.
pub const KEY_RIGHT: char = 'd';

/// 1 if `key` is among `pressed`, else 0.
pub open spec fn held(pressed: Set<char>, key: char) -> int {
    if pressed.contains(key) {
        1
    } else {
        0
    }
}

/// The change of the player's column in a tick with the keys `pressed`.
pub open spec fn delta_x(pressed: Set<char>) -> int {
    held(pressed, KEY_RIGHT) - held(pressed, KEY_LEFT)
}

/// The change of the player's row in a tick with the keys `pressed`.
pub open spec fn delta_y(pressed: Set<char>) -> int {
    held(pressed, KEY_DOWN) - held(pressed, KEY_UP)
}

/// Each pair of opposite keys acts on its own coordinate and the two keys of a
/// pair on their own: one of them alone moves by one, both together or
/// neither by nothing, whatever else is pressed.
pub proof fn lemma_keys_act_independently(pressed: Set<char>)
    ensures
        delta_y(pressed) == -1 <==> pressed.contains(KEY_UP) && !pressed.contains(KEY_DOWN),
        delta_y(pressed) == 1 <==> pressed.contains(KEY_DOWN) && !pressed.contains(KEY_UP),
        delta_y(pressed) == 0 <==> (pressed.contains(KEY_UP) <==> pressed.contains(KEY_DOWN)),
        delta_x(pressed) == -1 <==> pressed.contains(KEY_LEFT) && !pressed.contains(KEY_RIGHT),
        delta_x(pressed) == 1 <==> pressed.contains(KEY_RIGHT) && !pressed.contains(KEY_LEFT),
        delta_x(pressed) == 0 <==> (pressed.contains(KEY_LEFT) <==> pressed.contains(KEY_RIGHT)),
{
}

/// The position of the player.
#[derive(Clone, Copy, Debug, PartialEq, Eq, Structural)]
pub struct Context {
    /// The player's column.
    pub player_x: i32,
    /// The player's row.
    pub player_y: i32,
}

impl Default for Context {
    /// The player at the origin.
    fn default() -> (context: Self)
        ensures
            context == (Context { player_x: 0, player_y: 0 }),
    {
        Context { player_x: 0, player_y: 0 }
    }
}

impl Context {
    /// Whether a tick with the keys `pressed` keeps both coordinates
    /// representable at every step. The steps are taken in the order
    /// up, down, left, right.
    pub open spec fn can_move(self, pressed: Set<char>) -> bool {
        &&& self.player_y - held(pressed, KEY_UP) >= i32::MIN
        &&& self.player_y + delta_y(pressed) <= i32::MAX
        &&& self.player_x - held(pressed, KEY_LEFT) >= i32::MIN
        &&& self.player_x + delta_x(pressed) <= i32::MAX
    }

    /// The position after a tick with the keys `pressed`.
    pub open spec fn moved(self, pressed: Set<char>) -> Context {
        Context {
            player_x: (self.player_x + delta_x(pressed)) as i32,
            player_y: (self.player_y + delta_y(pressed)) as i32,
        }
    }
}

/// The mathematical content of an [`Engine`].
#[verifier::ext_equal]
pub struct EngineView {
    /// The canvas that the engine draws on.
    pub canvas: CanvasView,
    /// The keys pressed since the last tick ended.
    pub pressed: Set<char>,
    /// The player's position.
    pub context: Context,
}

impl EngineView {
    /// The canvas is well formed.
    pub open spec fn wf(self) -> bool {
        self.canvas.wf()
    }

    /// The engine after the keys `queued` were collected.
    pub open spec fn with_input(self, queued: Seq<char>) -> Self {
        EngineView { pressed: self.pressed.union(queued.to_set()), ..self }
    }

    /// The engine after the player moved by the pressed keys.
    pub open spec fn with_logic(self) -> Self {
        EngineView { context: self.context.moved(self.pressed), ..self }
    }

    /// The canvas with the player drawn at its position.
    pub open spec fn scene(self) -> CanvasView {
        self.canvas.drawn(self.context.player_x as int, self.context.player_y as int, PLAYER)
    }

    /// The engine after the frame was taken.
    pub open spec fn with_render(self) -> Self {
        EngineView { canvas: self.scene().cleared(), ..self }
    }

    /// The engine after a whole tick that collected the keys `queued`.
    pub open spec fn ticked(self, queued: Seq<char>) -> Self {
        EngineView {
            pressed: Set::empty(),
            ..self.with_input(queued).with_logic().with_render()
        }
    }

    /// The frame that a tick produces after collecting the keys `queued`.
    pub open spec fn tick_frame(self, queued: Seq<char>) -> Seq<char> {
        self.with_input(queued).with_logic().scene().frame_text()
    }
}

/// One logic tick moves the player by the pressed keys and by nothing else:
/// with up pressed and down not, the row goes down by exactly one, and with
/// left and right pressed together the column stays, whatever else is
/// pressed.
pub proof fn lemma_logic_tick(engine: EngineView)
    requires
        engine.context.can_move(engine.pressed),
    ensures
        engine.with_logic().context.player_x == engine.context.player_x + delta_x(engine.pressed),
        engine.with_logic().context.player_y == engine.context.player_y + delta_y(engine.pressed),
        engine.pressed.contains(KEY_UP) && !engine.pressed.contains(KEY_DOWN)
            ==> engine.with_logic().context.player_y == engine.context.player_y - 1,
        engine.pressed.contains(KEY_LEFT) && engine.pressed.contains(KEY_RIGHT)
            ==> engine.with_logic().context.player_x == engine.context.player_x,
        engine.with_logic().canvas == engine.canvas,
        engine.with_logic().pressed == engine.pressed,
{
}

/// A canvas, the pressed keys and the player's position.
pub struct Engine {
    canvas: Canvas,
    input: InputManager,
    context: Context,
}

impl View for Engine {
    type V = EngineView;

    closed spec fn view(&self) -> EngineView {
        EngineView { canvas: self.canvas@, pressed: self.input@, context: self.context }
    }
}

impl Engine {
    /// The invariant of the engine, see [`EngineView::wf`].
    pub open spec fn wf(&self) -> bool {
        self@.wf()
    }

    /// An engine that draws on `canvas`, with the player at `context` and no
    /// key pressed.
    pub fn new(canvas: Canvas, context: Context) -> (engine: Self)
        requires
            canvas.wf(),
        ensures
            engine.wf(),
            engine@ == (EngineView { canvas: canvas@, pressed: Set::empty(), context }),
    {
        Engine { canvas, context, input: InputManager::new() }
    }

    /// The canvas that the engine draws on.
    pub fn canvas(&self) -> (canvas: &Canvas)
        ensures
            canvas@ == self@.canvas,
    {
        &self.canvas
    }

    /// The keys pressed since the last tick ended.
    pub fn input(&self) -> (input: &InputManager)
        ensures
            input@ == self@.pressed,
    {
        &self.input
    }

    /// The player's position.
    pub fn context(&self) -> (context: Context)
        ensures
            context == self@.context,
    {
        self.context
    }

    /// Whether `key` is pressed or among the keys `queued`.
    fn held_with(&self, queued: &[char], key: char) -> (held: bool)
        ensures
            held == self@.pressed.union(queued@.to_set()).contains(key),
    {
        if self.input.is_pressed(key) {
            return true;
        }
        let mut i: usize = 0;
        while i < queued.len()
            invariant
                i <= queued.len(),
                forall|j: int| 0 <= j < i ==> queued@[j] != key,
            decreases queued.len() - i,
        {
            if queued[i] == key {
                return true;
            }
            i += 1;
        }
        false
    }

    /// Whether a tick that collects the keys `queued` keeps the player's
    /// position representable, so that `run` may be called with them.
    pub fn can_run(&self, queued: &[char]) -> (ok: bool)
        ensures
            ok == self@.context.can_move(self@.pressed.union(queued@.to_set())),
    {
        let up = self.held_with(queued, KEY_UP);
        let down = self.held_with(queued, KEY_DOWN);
        let left = self.held_with(queued, KEY_LEFT);
        let right = self.held_with(queued, KEY_RIGHT);
        let x = self.context.player_x;
        let y = self.context.player_y;
        !(up && y == i32::MIN) && !(down && !up && y == i32::MAX) && !(left && x == i32::MIN) && !(
        right && !left && x == i32::MAX)
    }

    /// One tick: collects the keys `queued`, moves the player, draws it, takes
    /// the frame and forgets the keys.
    pub fn run(&mut self, queued: &[char]) -> (frame: String)
        requires
            old(self).wf(),
            old(self)@.context.can_move(old(self)@.pressed.union(queued@.to_set())),
        ensures
            final(self).wf(),
            final(self)@ == old(self)@.ticked(queued@),
            frame@ == old(self)@.tick_frame(queued@),
    {
        self.update_input(queued);
        self.update_logic();
        let frame = self.update_render();
        self.input.clear();
        frame
    }

    /// Adds the keys `queued` to the pressed keys.
    pub fn update_input(&mut self, queued: &[char])
        ensures
            final(self)@ == old(self)@.with_input(queued@),
    {
        self.input.update(queued);
    }

    /// Draws the player at its position and takes the frame.
    pub fn update_render(&mut self) -> (frame: String)
        requires
            old(self).wf(),
        ensures
            final(self).wf(),
            final(self)@ == old(self)@.with_render(),
            frame@ == old(self)@.scene().frame_text(),
    {
        self.canvas.draw(self.context.player_x, self.context.player_y, PLAYER);
        self.canvas.render()
    }

    /// Moves the player by the pressed keys: up and down change the row by one,
    /// left and right the column, and opposite keys cancel.
    pub fn update_logic(&mut self)
        requires
            old(self)@.context.can_move(old(self)@.pressed),
        ensures
            final(self)@ == old(self)@.with_logic(),
            final(self)@.context.player_x == old(self)@.context.player_x + delta_x(
                old(self)@.pressed,
            ),
            final(self)@.context.player_y == old(self)@.context.player_y + delta_y(
                old(self)@.pressed,
            ),
            old(self)@.pressed.contains(KEY_LEFT) && old(self)@.pressed.contains(KEY_RIGHT)
                ==> final(self)@.context.player_x == old(self)@.context.player_x,
            old(self)@.pressed.contains(KEY_UP) && old(self)@.pressed.contains(KEY_DOWN)
                ==> final(self)@.context.player_y == old(self)@.context.player_y,
            old(self)@.pressed.contains(KEY_UP) && !old(self)@.pressed.contains(KEY_DOWN)
                ==> final(self)@.context.player_y == old(self)@.context.player_y - 1,
    {
        if self.input.is_pressed(KEY_UP) {
            self.context.player_y -= 1;
        }
        if self.input.is_pressed(KEY_DOWN) {
            self.context.player_y += 1;
        }
        if self.input.is_pressed(KEY_LEFT) {
            self.context.player_x -= 1;
        }
        if self.input.is_pressed(KEY_RIGHT) {
            self.context.player_x += 1;
        }
    }
}

} // verus!
