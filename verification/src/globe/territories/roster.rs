//! Which troops of which players stand in a place.

use vstd::prelude::*;
use crate::player::player::PlayerId;

verus! {

/// The name of a troop.
pub type TroopId = String;

/// A troop of a player.
#[derive(Debug)]
pub struct TroopPosting {
    pub troop_id: TroopId,
    pub player_id: PlayerId,
}

/// Troops with the player of each, in the order in which they came, each
/// listed once.
#[derive(Debug)]
pub struct TroopRoster {
    postings: Vec<TroopPosting>,
}

/// Whether troops of more than one player are listed.
pub open spec fn is_mixed(roster: Seq<(PlayerId, Seq<char>)>) -> bool {
    exists|i: int, j: int|
        0 <= i < roster.len() && 0 <= j < roster.len() && (#[trigger] roster[i]).0 != (
        #[trigger] roster[j]).0
}

/// The troops of `player_id` among those listed, in the order of the list.
pub open spec fn troops_of_player(roster: Seq<(PlayerId, Seq<char>)>, player_id: PlayerId) -> Seq<
    Seq<char>,
>
    decreases roster.len(),
{
    if roster.len() == 0 {
        Seq::empty()
    } else if roster.last().0 == player_id {
        troops_of_player(roster.drop_last(), player_id).push(roster.last().1)
    } else {
        troops_of_player(roster.drop_last(), player_id)
    }
}

/// Whether `player_id` is the player of the first listed troop that is not a
/// troop of `owner`.
pub open spec fn is_first_other_player(
    roster: Seq<(PlayerId, Seq<char>)>,
    owner: PlayerId,
    player_id: PlayerId,
) -> bool {
    exists|i: int|
        {
            &&& 0 <= i < roster.len()
            &&& (#[trigger] roster[i]).0 == player_id
            &&& player_id != owner
            &&& forall|j: int| 0 <= j < i ==> (#[trigger] roster[j]).0 == owner
        }
}

/// The list with `entry` on it: after the others, unless it is listed already.
pub open spec fn listed(roster: Seq<(PlayerId, Seq<char>)>, entry: (PlayerId, Seq<char>)) -> Seq<
    (PlayerId, Seq<char>),
> {
    if roster.contains(entry) {
        roster
    } else {
        roster.push(entry)
    }
}

/// The names in `troop_ids`, in their order.
pub open spec fn names_of(troop_ids: Seq<TroopId>) -> Seq<Seq<char>> {
    Seq::new(troop_ids.len(), |i: int| troop_ids[i]@)
}

impl View for TroopRoster {
    type V = Seq<(PlayerId, Seq<char>)>;

    closed spec fn view(&self) -> Seq<(PlayerId, Seq<char>)> {
        Seq::new(
            self.postings@.len(),
            |i: int| (self.postings@[i].player_id, self.postings@[i].troop_id@),
        )
    }
}

impl TroopRoster {
    /// No troop is listed twice for the same player.
    pub open spec fn wf(&self) -> bool {
        self@.no_duplicates()
    }

    /// A roster that lists no troop.
    pub fn new() -> (roster: Self)
        ensures
            roster@ == Seq::<(PlayerId, Seq<char>)>::empty(),
            roster.wf(),
    {
        let roster = TroopRoster { postings: Vec::new() };
        assert(roster@ =~= Seq::<(PlayerId, Seq<char>)>::empty());
        roster
    }

    /// How many troops are listed.
    pub fn len(&self) -> (count: usize)
        ensures
            count == self@.len(),
    {
        self.postings.len()
    }

    /// Where the troop `troop_id` of `player_id` is listed, if it is.
    pub fn position(&self, troop_id: &TroopId, player_id: PlayerId) -> (place: Option<usize>)
        ensures
            match place {
                Some(index) => index < self@.len() && self@[index as int] == (player_id, troop_id@),
                None => !self@.contains((player_id, troop_id@)),
            },
    {
        let mut index: usize = 0;
        while index < self.postings.len()
            invariant
                index <= self.postings@.len(),
                self@.len() == self.postings@.len(),
                forall|i: int| 0 <= i < index ==> #[trigger] self@[i] != (player_id, troop_id@),
            decreases self.postings@.len() - index,
        {
            if self.postings[index].player_id == player_id && self.postings[index].troop_id
                == *troop_id {
                return Some(index);
            }
            index = index + 1;
        }
        None
    }

    /// Whether the troop `troop_id` of `player_id` is listed.
    pub fn contains(&self, troop_id: &TroopId, player_id: PlayerId) -> (listed: bool)
        ensures
            listed == self@.contains((player_id, troop_id@)),
    {
        self.position(troop_id, player_id).is_some()
    }

    /// Lists the troop `troop_id` of `player_id`, after the others, unless it is
    /// listed already.
    pub fn insert(&mut self, troop_id: &TroopId, player_id: PlayerId)
        requires
            old(self).wf(),
        ensures
            final(self).wf(),
            final(self)@ == listed(old(self)@, (player_id, troop_id@)),
    {
        if self.position(troop_id, player_id).is_none() {
            let ghost listed = self@;
            let ghost longer = self@.push((player_id, troop_id@));
            assert forall|i: int, j: int|
                0 <= i < longer.len() && 0 <= j < longer.len() && i != j implies longer[i]
                != longer[j] by {
                if i < listed.len() {
                    assert(longer[i] == listed[i]);
                }
                if j < listed.len() {
                    assert(longer[j] == listed[j]);
                }
            }
            self.postings.push(TroopPosting { troop_id: troop_id.clone(), player_id });
            assert(self@ =~= longer);
        }
    }

    /// Takes the troop `troop_id` of `player_id` off the list, if it is on it.
    pub fn remove(&mut self, troop_id: &TroopId, player_id: PlayerId)
        requires
            old(self).wf(),
        ensures
            final(self).wf(),
            final(self)@ == old(self)@.remove_value((player_id, troop_id@)),
            !final(self)@.contains((player_id, troop_id@)),
    {
        proof {
            old(self)@.index_of_first_ensures((player_id, troop_id@));
        }
        match self.position(troop_id, player_id) {
            Some(index) => {
                let ghost listed = self@;
                let ghost shorter = self@.remove(index as int);
                proof {
                    let first = listed.index_of_first((player_id, troop_id@)).unwrap();
                    assert(listed[first] == listed[index as int]);
                    assert(first == index);
                    assert forall|i: int| 0 <= i < shorter.len() implies #[trigger] shorter[i] != (
                        player_id,
                        troop_id@,
                    ) by {
                        if i < index {
                            assert(shorter[i] == listed[i]);
                        } else {
                            assert(shorter[i] == listed[i + 1]);
                        }
                    }
                    assert forall|i: int, j: int|
                        0 <= i < shorter.len() && 0 <= j < shorter.len() && i != j implies shorter[i]
                        != shorter[j] by {
                        let from_i = if i < index { i } else { i + 1 };
                        let from_j = if j < index { j } else { j + 1 };
                        assert(shorter[i] == listed[from_i]);
                        assert(shorter[j] == listed[from_j]);
                    }
                }
                self.postings.remove(index);
                assert(self@ =~= shorter);
            },
            None => {},
        }
    }

    /// Whether troops of more than one player are listed.
    pub fn has_troops_from_different_players(&self) -> (mixed: bool)
        ensures
            mixed == is_mixed(self@),
    {
        if self.postings.len() == 0 {
            return false;
        }
        let first_player = self.postings[0].player_id;
        let mut index: usize = 1;
        while index < self.postings.len()
            invariant
                1 <= index <= self.postings@.len(),
                self@.len() == self.postings@.len(),
                first_player == self@[0].0,
                forall|i: int| 0 <= i < index ==> (#[trigger] self@[i]).0 == first_player,
            decreases self.postings@.len() - index,
        {
            if self.postings[index].player_id != first_player {
                assert(self@[index as int].0 != self@[0].0);
                return true;
            }
            index = index + 1;
        }
        false
    }

    /// The player of the first listed troop that is not a troop of `owner`, if
    /// there is such a troop.
    pub fn first_other_player(&self, owner: PlayerId) -> (other: Option<PlayerId>)
        ensures
            match other {
                Some(player_id) => is_first_other_player(self@, owner, player_id),
                None => forall|i: int| 0 <= i < self@.len() ==> (#[trigger] self@[i]).0 == owner,
            },
    {
        let mut index: usize = 0;
        while index < self.postings.len()
            invariant
                index <= self.postings@.len(),
                self@.len() == self.postings@.len(),
                forall|i: int| 0 <= i < index ==> (#[trigger] self@[i]).0 == owner,
            decreases self.postings@.len() - index,
        {
            if self.postings[index].player_id != owner {
                assert(self@[index as int].0 == self.postings@[index as int].player_id);
                return Some(self.postings[index].player_id);
            }
            index = index + 1;
        }
        None
    }

    /// The listed troops of `player_id`, in the order of the list.
    pub fn troops_of(&self, player_id: PlayerId) -> (troop_ids: Vec<TroopId>)
        ensures
            names_of(troop_ids@) == troops_of_player(self@, player_id),
    {
        let mut troop_ids: Vec<TroopId> = Vec::new();
        let mut index: usize = 0;
        assert(self@.take(0) =~= Seq::<(PlayerId, Seq<char>)>::empty());
        assert(names_of(troop_ids@) =~= Seq::<Seq<char>>::empty());
        while index < self.postings.len()
            invariant
                index <= self.postings@.len(),
                self@.len() == self.postings@.len(),
                names_of(troop_ids@) == troops_of_player(self@.take(index as int), player_id),
            decreases self.postings@.len() - index,
        {
            let ghost before = names_of(troop_ids@);
            proof {
                let wider = self@.take(index + 1);
                assert(wider.drop_last() =~= self@.take(index as int));
                assert(wider.last() == self@[index as int]);
            }
            if self.postings[index].player_id == player_id {
                troop_ids.push(self.postings[index].troop_id.clone());
                assert(names_of(troop_ids@) =~= before.push(self@[index as int].1));
            }
            index = index + 1;
        }
        assert(self@.take(index as int) =~= self@);
        troop_ids
    }
}

} // verus!
