use vstd::prelude::*;

verus! {

/// Number of distinct key codes the host can report.
pub const KEY_COUNT: usize = 256;

/// Code reported for either control key: the modifier of every chord.
pub const KEY_MODIFIER: u8 = 1;

/// Letter keys that complete a chord, by their upper-case ASCII code.
pub const KEY_RESTART: u8 = 82;

pub const KEY_WATCH: u8 = 87;

pub const KEY_PAUSE: u8 = 80;

pub const KEY_COMPATIBILITY: u8 = 67;

pub const KEY_STATUS: u8 = 83;

/// The operator commands that fire after one key event. Several may fire at
/// once when several letters are held with the modifier.
#[derive(PartialEq, Eq, Structural, Clone, Copy, Debug)]
pub struct Commands {
    /// Destructive reload: a fresh handle in its default state.
    pub restart: bool,
    pub watch_toggle: bool,
    pub pause_toggle: bool,
    pub compatibility_toggle: bool,
    pub print_status: bool,
}

/// Whether `letter` is down together with the modifier in `down`.
pub open spec fn chord(down: Seq<bool>, letter: u8) -> bool {
    down[KEY_MODIFIER as int] && down[letter as int]
}

/// The commands that the key state `down` fires.
pub open spec fn commands_of(down: Seq<bool>) -> Commands {
    Commands {
        restart: chord(down, KEY_RESTART),
        watch_toggle: chord(down, KEY_WATCH),
        pause_toggle: chord(down, KEY_PAUSE),
        compatibility_toggle: chord(down, KEY_COMPATIBILITY),
        print_status: chord(down, KEY_STATUS),
    }
}

/// Which keys are held down, one flag per key code.
pub struct Keys {
    down: Vec<bool>,
}

impl View for Keys {
    type V = Seq<bool>;

    closed spec fn view(&self) -> Seq<bool> {
        self.down@
    }
}

impl Keys {
    pub open spec fn wf(&self) -> bool {
        self@.len() == KEY_COUNT
    }

    /// No key is down.
    pub fn new() -> (r: Self)
        ensures
            r.wf(),
            forall|i: int| 0 <= i < KEY_COUNT ==> !(#[trigger] r@[i]),
    {
        let mut down: Vec<bool> = Vec::new();
        while down.len() < KEY_COUNT
            invariant
                down@.len() <= KEY_COUNT,
                forall|i: int| 0 <= i < down@.len() ==> !(#[trigger] down@[i]),
            decreases KEY_COUNT - down@.len(),
        {
            down.push(false);
        }
        Keys { down }
    }

    /// Whether the key `code` is down.
    pub fn is_down(&self, code: u8) -> (r: bool)
        requires
            self.wf(),
        ensures
            r == self@[code as int],
    {
        self.down[code as usize]
    }

    /// Records that `code` went down (`pressed`) or up, and returns the
    /// commands that the keys now held fire.
    pub fn press(&mut self, code: u8, pressed: bool) -> (c: Commands)
        requires
            old(self).wf(),
        ensures
            final(self).wf(),
            final(self)@ == old(self)@.update(code as int, pressed),
            c == commands_of(final(self)@),
    {
        self.down.set(code as usize, pressed);
        let held = self.down[KEY_MODIFIER as usize];
        Commands {
            restart: held && self.down[KEY_RESTART as usize],
            watch_toggle: held && self.down[KEY_WATCH as usize],
            pause_toggle: held && self.down[KEY_PAUSE as usize],
            compatibility_toggle: held && self.down[KEY_COMPATIBILITY as usize],
            print_status: held && self.down[KEY_STATUS as usize],
        }
    }
}

/// The key code for a key: `KEY_MODIFIER` for a control key, else the key
/// name's only byte when the name is one byte long, else 0.
pub fn get_char(is_control: bool, name: &[u8]) -> (c: u8)
    ensures
        c == (if is_control {
            KEY_MODIFIER
        } else if name@.len() == 1 {
            name@[0]
        } else {
            0u8
        }),
{
    if is_control {
        KEY_MODIFIER
    } else if name.len() == 1 {
        name[0]
    } else {
        0
    }
}

} // verus!
