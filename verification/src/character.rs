//! The plain data of the roster: villages, elements and one character record.

use vstd::prelude::*;

verus! {

/// The hidden villages.
#[derive(Copy, Clone, Debug, PartialEq, Eq, Structural)]
pub enum Village {
    /// Konohagakure, the village hidden in the leaves.
    Konoha,
    /// Sunagakure, the village hidden in the sand.
    Suna,
    /// Kirigakure, the village hidden in the mist.
    Kiri,
    /// Kumogakure, the village hidden in the clouds.
    Kumo,
    /// Iwagakure, the village hidden in the stones.
    Iwa,
    /// Amegakure, the village hidden in the rain.
    Ame,
}

/// The chakra natures that jutsu are built on.
#[derive(Copy, Clone, Debug, PartialEq, Eq, Structural)]
pub enum Element {
    Fire,
    Wind,
    Lightning,
    Earth,
    Water,
}

/// One character of the roster. `friends` holds roster keys; a key that the
/// roster does not know is simply not a friend.
pub struct NarutoChar {
    pub id: &'static str,
    pub name: &'static str,
    pub friends: Vec<usize>,
    pub village: Village,
    pub elements: Vec<Element>,
}

/// What a [`NarutoChar`] says, as mathematical values.
pub ghost struct Profile {
    pub id: Seq<char>,
    pub name: Seq<char>,
    pub friends: Seq<usize>,
    pub village: Village,
    pub elements: Seq<Element>,
}

impl View for NarutoChar {
    type V = Profile;

    open spec fn view(&self) -> Profile {
        Profile {
            id: self.id@,
            name: self.name@,
            friends: self.friends@,
            village: self.village,
            elements: self.elements@,
        }
    }
}

} // verus!
