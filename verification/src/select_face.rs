//! The faces a device can show, the cursor over the ones its user can pick,
//! and the slot that holds what the peer picked.

use vstd::prelude::*;

verus! {

/// How many faces the user can pick from.
pub const NUM_FACES: usize = 9;

/// Everything the display can show.
///
/// The first nine are what a user picks and what travels between devices;
/// the last four are shown by the device on its own account.
#[derive(Clone, Copy, Debug, PartialEq, Eq, Structural)]
pub enum Faces {
    Basic,
    BasicNoEyebrows,
    SemiCircleFace,
    CircleFace,
    BasicSmile,
    GoToSleep,
    Hello,
    GoodMorning,
    GoodNight,
    MessageWaiting,
    Connecting,
    ConnectionFailed,
    SleepingFace,
}

impl Faces {
    /// Whether the device shows this face only on its own account: it is
    /// never offered to the user.
    pub open spec fn is_internal(self) -> bool {
        self is MessageWaiting || self is Connecting || self is ConnectionFailed
            || self is SleepingFace
    }
}

impl Default for Faces {
    fn default() -> (face: Faces)
        ensures
            face == Faces::Basic,
    {
        Faces::Basic
    }
}

/// The face last received from the peer.
#[derive(Clone, Copy, Debug, PartialEq, Eq, Structural)]
pub struct RemoteFace {
    pub face: Faces,
}

impl RemoteFace {
    pub fn set_face(&mut self, chosen_face: Faces)
        ensures
            final(self).face == chosen_face,
    {
        self.face = chosen_face;
    }

    pub fn get_face(&mut self) -> (face: Faces)
        ensures
            face == old(self).face,
            *final(self) == *old(self),
    {
        self.face
    }
}

impl Default for RemoteFace {
    fn default() -> (remote: RemoteFace)
        ensures
            remote.face == Faces::Basic,
    {
        RemoteFace { face: Faces::Basic }
    }
}

/// The faces the user can pick, in the order the encoder walks through them.
pub open spec fn selectable_faces() -> Seq<Faces> {
    seq![
        Faces::Basic,
        Faces::BasicNoEyebrows,
        Faces::SemiCircleFace,
        Faces::CircleFace,
        Faces::BasicSmile,
        Faces::Hello,
        Faces::GoodMorning,
        Faces::GoodNight,
        Faces::GoToSleep,
    ]
}

/// The cursor position one step forward of `index`: the first position
/// after the last one.
pub open spec fn next_index(index: nat) -> nat {
    if index + 1 >= NUM_FACES {
        0
    } else {
        index + 1
    }
}

/// The cursor position one step back from `index`: the last position before
/// the first one.
pub open spec fn prev_index(index: nat) -> nat {
    if index == 0 {
        (NUM_FACES - 1) as nat
    } else {
        (index - 1) as nat
    }
}

/// The cursor position after `steps` steps forward from `index`.
pub open spec fn advanced(index: nat, steps: nat) -> nat
    decreases steps,
{
    if steps == 0 {
        index
    } else {
        next_index(advanced(index, (steps - 1) as nat))
    }
}

/// The cursor position after `steps` steps back from `index`.
pub open spec fn retreated(index: nat, steps: nat) -> nat
    decreases steps,
{
    if steps == 0 {
        index
    } else {
        prev_index(retreated(index, (steps - 1) as nat))
    }
}

/// The cursor position after `times` rounds of one step forward followed
/// by one step back, starting from `index`.
pub open spec fn there_and_back(index: nat, times: nat) -> nat
    decreases times,
{
    if times == 0 {
        index
    } else {
        prev_index(next_index(there_and_back(index, (times - 1) as nat)))
    }
}

/// The user's cursor over the selectable faces.
pub struct LocalFace {
    faces: [Faces; NUM_FACES],
    current_index: u32,
}

impl LocalFace {
    #[verifier::type_invariant]
    spec fn well_formed(self) -> bool {
        &&& self.current_index < NUM_FACES
        &&& self.faces@ == selectable_faces()
    }

    /// Where the cursor stands, as an index into [`selectable_faces`].
    pub closed spec fn index(self) -> nat {
        self.current_index as nat
    }

    /// The face under the cursor.
    pub open spec fn selected(self) -> Faces {
        selectable_faces()[self.index() as int]
    }

    /// The cursor on the first face.
    pub fn new() -> (local: LocalFace)
        ensures
            local.index() == 0,
    {
        LocalFace {
            faces: [
                Faces::Basic,
                Faces::BasicNoEyebrows,
                Faces::SemiCircleFace,
                Faces::CircleFace,
                Faces::BasicSmile,
                Faces::Hello,
                Faces::GoodMorning,
                Faces::GoodNight,
                Faces::GoToSleep,
            ],
            current_index: 0,
        }
    }

    /// Moves the cursor one face forward; from the last face it goes to the
    /// first.
    pub fn next(&mut self)
        ensures
            old(self).index() < NUM_FACES,
            final(self).index() == next_index(old(self).index()),
    {
        proof {
            use_type_invariant(&*self);
        }
        if self.current_index + 1 >= 9 {
            self.current_index = 0;
        } else {
            self.current_index += 1;
        }
    }

    /// Moves the cursor one face back; from the first face it goes to the
    /// last.
    pub fn prev(&mut self)
        ensures
            old(self).index() < NUM_FACES,
            final(self).index() == prev_index(old(self).index()),
    {
        proof {
            use_type_invariant(&*self);
        }
        if self.current_index == 0 {
            self.current_index = 8;
        } else {
            self.current_index -= 1;
        }
    }

    /// The face under the cursor.
    pub fn get_face(&self) -> (face: &Faces)
        ensures
            self.index() < NUM_FACES,
            *face == self.selected(),
    {
        proof {
            use_type_invariant(self);
        }
        let index: usize = self.current_index as usize;
        &self.faces[index]
    }
}

impl Default for LocalFace {
    fn default() -> (local: LocalFace)
        ensures
            local.index() == 0,
    {
        LocalFace::new()
    }
}

/// One step back undoes one step forward, and one step forward undoes one
/// step back, from any cursor position.
pub proof fn lemma_prev_undoes_next(index: nat)
    requires
        index < NUM_FACES,
    ensures
        prev_index(next_index(index)) == index,
        next_index(prev_index(index)) == index,
{
}

/// A step forward followed by a step back, done any number of times, leaves
/// the cursor where it was.
pub proof fn lemma_there_and_back_stays(index: nat, times: nat)
    requires
        index < NUM_FACES,
    ensures
        there_and_back(index, times) == index,
    decreases times,
{
    if times > 0 {
        lemma_there_and_back_stays(index, (times - 1) as nat);
    }
}

/// Stepping keeps the cursor inside the list, and a step back can change
/// places with any number of steps forward, as a step forward can with any
/// number of steps back.
proof fn lemma_steps_commute(index: nat, steps: nat)
    requires
        index < NUM_FACES,
    ensures
        retreated(index, steps) < NUM_FACES,
        advanced(index, steps) < NUM_FACES,
        retreated(next_index(index), steps) == next_index(retreated(index, steps)),
        advanced(prev_index(index), steps) == prev_index(advanced(index, steps)),
    decreases steps,
{
    if steps > 0 {
        lemma_steps_commute(index, (steps - 1) as nat);
    }
}

/// Stepping forward `steps` times adds `steps` to the cursor position,
/// modulo the number of faces.
pub proof fn lemma_steps_add_up(index: nat, steps: nat)
    requires
        index < NUM_FACES,
    ensures
        advanced(index, steps) == (index + steps) % (NUM_FACES as nat),
    decreases steps,
{
    if steps > 0 {
        lemma_steps_add_up(index, (steps - 1) as nat);
    }
}

/// As many steps back as forward return the cursor to where it was, for any
/// starting position and any number of steps.
pub proof fn lemma_retreat_undoes_advance(index: nat, steps: nat)
    requires
        index < NUM_FACES,
    ensures
        retreated(advanced(index, steps), steps) == index,
        advanced(retreated(index, steps), steps) == index,
    decreases steps,
{
    if steps > 0 {
        let fewer = (steps - 1) as nat;
        lemma_retreat_undoes_advance(index, fewer);
        lemma_steps_commute(index, fewer);
        let forward = advanced(index, fewer);
        let back = retreated(index, fewer);
        lemma_steps_commute(forward, fewer);
        lemma_steps_commute(back, fewer);
        assert(retreated(next_index(forward), steps) == prev_index(
            retreated(next_index(forward), fewer),
        ));
        assert(advanced(prev_index(back), steps) == next_index(
            advanced(prev_index(back), fewer),
        ));
    }
}

/// A whole number of rounds forward returns the cursor to where it was, and
/// so does a whole number of rounds back.
pub proof fn lemma_whole_rounds_return(index: nat, steps: nat)
    requires
        index < NUM_FACES,
        steps % (NUM_FACES as nat) == 0,
    ensures
        advanced(index, steps) == index,
        retreated(index, steps) == index,
{
    lemma_steps_add_up(index, steps);
    lemma_retreat_undoes_advance(index, steps);
}

} // verus!
