use vstd::prelude::*;

verus! {

/// Something that advances one frame at a time and can draw itself.
///
/// The spec functions say what a plugin's methods do. A plugin that states
/// nothing keeps their defaults, which allow any behaviour.
pub trait Runnable<U, R> {
    /// Whether one update of this value may take `context` to `context_after`.
    open spec fn updates(&self, context: U, context_after: U) -> bool {
        true
    }

    /// Whether drawing this value may take `context` to `context_after`.
    open spec fn renders(&self, context: R, context_after: R) -> bool {
        true
    }

    /// Runs the game loop a single time and updates data.
    fn update(&mut self, context: &mut U)
        ensures
            old(self).updates(*old(context), *final(context)),
    ;

    /// Draws the game at its current point in time.
    fn render(&self, context: &mut R)
        ensures
            self.renders(*old(context), *final(context)),
    ;
}

/// Something whose whole state can be written out as text and read back.
pub trait Serializable {
    /// Whether `text` describes this value's state: `serialize` writes such
    /// a text, and a successful `deserialize` of it leaves such a value.
    open spec fn holds(&self, text: Seq<char>) -> bool {
        true
    }

    /// Whether this value may refuse to read `data`.
    open spec fn refuses(&self, data: Seq<char>) -> bool {
        true
    }

    /// Writes the full declared state as text.
    fn serialize(&self) -> (r: String)
        ensures
            self.holds(r@),
    ;

    /// Reads `data` and overwrites itself with it. Answers false, and stays
    /// as it was, when `data` does not have its shape.
    fn deserialize(&mut self, data: &str) -> (ok: bool)
        ensures
            ok ==> final(self).holds(data@),
            !ok ==> old(self).refuses(data@),
            !ok ==> &*final(self) == &*old(self),
    ;
}

/// The full capability set a hot-swappable plugin offers to its host.
pub trait RunnableGame<U, R>: Runnable<U, R> + Serializable {}

/// The host backend: windowing, input and frame pacing.
pub trait Runner<U, R>: Sized {
    /// Initializes the engine or returns the given error.
    fn create<E>() -> Result<Self, E>;

    /// Empties the event loop. Returns true to quit the game.
    ///
    /// `callback` is called after each key press or release with the key's
    /// code and whether it is now down, so that the host can hook shortcuts.
    fn run_events<F>(&mut self, callback: F) -> bool where F: FnMut(u8, bool);

    /// Runs the given game a single frame. Returns true to quit the game.
    fn run_game<G>(&mut self, game: &mut G) -> bool where G: Runnable<U, R>;
}

} // verus!
