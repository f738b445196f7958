//! What a query sees of the roster: humans, the characters they are, and the
//! root that answers `hero`, `human` and `humans`.

use vstd::prelude::*;
use crate::character::{Element, NarutoChar, Village};
use crate::connection::{page_of, query_characters, Connection};
use crate::store::{enrolled_keys, NarutoShippuden};

verus! {

/// A human of the roster.
pub struct Human<'a>(pub &'a NarutoChar);

/// Anything that has an id, a name, elements, a village and friends.
pub enum Character<'a> {
    Human(Human<'a>),
}

impl<'a> Human<'a> {
    /// The id of the human.
    pub fn id(&self) -> (id: &'a str)
        ensures
            id@ == self.0.id@,
    {
        self.0.id
    }

    /// The name of the human.
    pub fn name(&self) -> (name: &'a str)
        ensures
            name@ == self.0.name@,
    {
        self.0.name
    }

    /// The friends of the human that the roster knows, or an empty list if
    /// there are none.
    pub fn friends<'ctx>(&self, naruto_shippuden: &'ctx NarutoShippuden) -> (friends: Vec<
        Character<'ctx>,
    >)
        ensures
            ({
                let roster = naruto_shippuden.characters();
                let keys = enrolled_keys(self.0.friends@, roster.len());
                &&& friends@.len() == keys.len()
                &&& forall|i: int|
                    0 <= i < keys.len() ==> #[trigger] friends@[i] == Character::Human(
                        Human(&roster[keys[i] as int]),
                    )
            }),
            naruto_shippuden.characters().contains(*self.0) ==> enrolled_keys(
                self.0.friends@,
                naruto_shippuden.characters().len(),
            ) == self.0.friends@,
    {
        let known = naruto_shippuden.friends(self.0);
        let mut friends: Vec<Character<'ctx>> = Vec::new();
        let mut i: usize = 0;
        while i < known.len()
            invariant
                i <= known@.len(),
                friends@.len() == i,
                forall|j: int|
                    0 <= j < i ==> #[trigger] friends@[j] == Character::Human(Human(known@[j])),
            decreases known@.len() - i,
        {
            friends.push(Character::Human(Human(known[i])));
            i += 1;
        }
        friends
    }

    /// The elements the human is affiliated with.
    pub fn elements(&self) -> (elements: &'a [Element])
        ensures
            elements@ == self.0.elements@,
    {
        self.0.elements.as_slice()
    }

    /// The village the human was born in or mainly works in.
    pub fn village(&self) -> (village: &'a Village)
        ensures
            *village == self.0.village,
    {
        &self.0.village
    }
}

/// The root of all queries.
pub struct QueryRoot;

impl QueryRoot {
    /// The hero of `village`, or of the whole saga if there is no village.
    /// The stone village has Gara and the rain village has Pain; everywhere
    /// else the hero is Naruto.
    pub fn hero<'a>(&self, naruto_shippuden: &'a NarutoShippuden, village: Option<Village>) -> (hero:
        Character<'a>)
        ensures
            ({
                let key = match village {
                    Some(Village::Iwa) => naruto_shippuden.gara_key(),
                    Some(Village::Ame) => naruto_shippuden.pain_key(),
                    _ => naruto_shippuden.naruto_key(),
                };
                &&& 0 <= key < naruto_shippuden.characters().len()
                &&& hero == Character::Human(Human(&naruto_shippuden.characters()[key]))
            }),
    {
        match village {
            Some(village) => match village {
                Village::Konoha => Character::Human(Human(naruto_shippuden.naruto())),
                Village::Iwa => Character::Human(Human(naruto_shippuden.gara())),
                Village::Ame => Character::Human(Human(naruto_shippuden.pain())),
                _ => Character::Human(Human(naruto_shippuden.naruto())),
            },
            None => Character::Human(Human(naruto_shippuden.naruto())),
        }
    }

    /// The human with the given id, if the roster has one.
    pub fn human<'a>(&self, naruto_shippuden: &'a NarutoShippuden, id: String) -> (found: Option<
        Human<'a>,
    >)
        ensures
            match found {
                Some(human) => human.0.id@ == id@ && naruto_shippuden.characters().contains(*human.0),
                None => forall|k: int|
                    0 <= k < naruto_shippuden.characters().len() ==> (
                    #[trigger] naruto_shippuden.characters()[k]).id@ != id@,
            },
            forall|k: int|
                0 <= k < naruto_shippuden.characters().len() && (
                #[trigger] naruto_shippuden.characters()[k]).id@ == id@ ==> found == Some(
                    Human(&naruto_shippuden.characters()[k]),
                ),
    {
        match naruto_shippuden.human(id.as_str()) {
            Some(ch) => Some(Human(ch)),
            None => None,
        }
    }

    /// One page of the humans of the roster, in key order; see [`page_of`]
    /// for the page that the four arguments select.
    pub fn humans<'a>(
        &self,
        naruto_shippuden: &'a NarutoShippuden,
        after: Option<usize>,
        before: Option<usize>,
        first: Option<usize>,
        last: Option<usize>,
    ) -> (connection: Connection<Human<'a>>)
        ensures
            ({
                let roster = naruto_shippuden.characters();
                let page = page_of(after, before, first, last, roster.len() as int);
                &&& connection.has_previous_page == page.has_previous_page
                &&& connection.has_next_page == page.has_next_page
                &&& connection.edges@.len() == page.len
                &&& forall|i: int|
                    0 <= i < page.len ==> (#[trigger] connection.edges@[i]).cursor == page.start + i
                        && *connection.edges@[i].node.0 == roster[page.start + i]
            }),
            connection.edges@.len() > 0 ==> {
                &&& connection.has_previous_page <==> connection.edges@[0].cursor > 0
                &&& connection.has_next_page <==> connection.edges@[connection.edges@.len()
                    - 1].cursor + 1 < naruto_shippuden.characters().len()
            },
    {
        let humans = naruto_shippuden.humans();
        let to_human = |ch: &'a NarutoChar| -> (human: Human<'a>)
            ensures
                human.0 == ch,
            { Human(ch) };
        query_characters(after, before, first, last, humans.as_slice(), to_human)
    }
}

} // verus!
