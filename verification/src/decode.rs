//! Decoding the bit-packed status word into a scene classification.
//!
//! The bit positions are a configuration, not a constant: a `Layout` names
//! where the pause flag, the reset-request flag, the 2-bit scene field and
//! the extended map identifier sit, and which coarse scene each 2-bit value
//! denotes. Decoding is a total, pure function of the current word alone;
//! unrecognized encodings degrade to `Scene::Unknown`.

use vstd::prelude::*;

verus! {

/// The coarse classification a layout assigns to one 2-bit scene value.
#[derive(Clone, Copy, Debug, PartialEq, Eq, Structural)]
pub enum SceneKind {
    /// The main menu.
    Menu,
    /// The default map.
    Main,
    /// The reward / end screen.
    Reward,
    /// A custom map; the extended map identifier selects which one.
    Custom,
}

/// The decoded scene of one snapshot.
#[derive(Clone, Copy, Debug, PartialEq, Eq, Structural)]
pub enum Scene {
    Menu,
    Main,
    Reward,
    /// The "Cavern" custom map (extended map identifier 1).
    Cavern,
    /// Any encoding the layout does not recognize.
    Unknown,
}

/// A bit-layout preset for the packed status word.
#[derive(Clone, Copy, Debug)]
pub struct Layout {
    /// Bit position of the "is paused" flag.
    pub pause_shift: u32,
    /// Bit position of the "should reset" flag.
    pub reset_shift: u32,
    /// Bit position of the low bit of the 2-bit scene field.
    pub scene_shift: u32,
    /// Bit position of the low bit of the extended map identifier, which
    /// occupies all bits from there up.
    pub ext_shift: u32,
    /// What each of the four scene-field values `0..=3` denotes.
    pub scene_kinds: [SceneKind; 4],
}

impl Layout {
    /// All configured bit positions fit a 32-bit word.
    pub open spec fn wf(self) -> bool {
        &&& self.pause_shift < 32
        &&& self.reset_shift < 32
        &&& self.scene_shift < 32
        &&& self.ext_shift < 32
    }

    /// The 2-bit scene field of a status word.
    pub open spec fn spec_scene_value(self, mask: u32) -> u32 {
        (mask >> self.scene_shift) & 3
    }

    /// The extended map identifier of a status word.
    pub open spec fn spec_ext_value(self, mask: u32) -> u32 {
        mask >> self.ext_shift
    }

    /// Decodes a status word, classifying every possible bit pattern.
    pub open spec fn spec_decode(self, mask: u32) -> Scene {
        match self.scene_kinds[self.spec_scene_value(mask) as int] {
            SceneKind::Menu => Scene::Menu,
            SceneKind::Main => Scene::Main,
            SceneKind::Reward => Scene::Reward,
            SceneKind::Custom => if self.spec_ext_value(mask) == 1 {
                Scene::Cavern
            } else {
                Scene::Unknown
            },
        }
    }

    /// The layout the game's integration plugin writes: pause flag in bit 0,
    /// reset flag in bit 1, scene field in bits 2..=3 mapping 0 to Menu, 1 to
    /// Main, 2 to Reward and 3 to a custom map, extended identifier in the
    /// bits from 4 up.
    pub open spec fn spec_standard() -> Layout {
        Layout {
            pause_shift: 0,
            reset_shift: 1,
            scene_shift: 2,
            ext_shift: 4,
            scene_kinds: [SceneKind::Menu, SceneKind::Main, SceneKind::Reward, SceneKind::Custom],
        }
    }

    /// Builds the standard layout preset.
    pub fn standard() -> (l: Layout)
        ensures
            l == Layout::spec_standard(),
            l.wf(),
    {
        Layout {
            pause_shift: 0,
            reset_shift: 1,
            scene_shift: 2,
            ext_shift: 4,
            scene_kinds: [SceneKind::Menu, SceneKind::Main, SceneKind::Reward, SceneKind::Custom],
        }
    }

    /// Decodes a status word under this layout.
    pub fn decode(&self, mask: u32) -> (s: Scene)
        requires
            self.wf(),
        ensures
            s == self.spec_decode(mask),
    {
        let shift = self.scene_shift;
        let value = (mask >> shift) & 3;
        assert(value < 4) by (bit_vector)
            requires
                value == (mask >> shift) & 3,
        ;
        let kind = self.scene_kinds[value as usize];
        match kind {
            SceneKind::Menu => Scene::Menu,
            SceneKind::Main => Scene::Main,
            SceneKind::Reward => Scene::Reward,
            SceneKind::Custom => {
                if mask >> self.ext_shift == 1 {
                    Scene::Cavern
                } else {
                    Scene::Unknown
                }
            },
        }
    }
}

impl Scene {
    /// Decodes a status word under the standard layout.
    pub fn parse(state: u32) -> (s: Scene)
        ensures
            s == Layout::spec_standard().spec_decode(state),
    {
        Layout::standard().decode(state)
    }
}

} // verus!
