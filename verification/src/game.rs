//! A bare game shell: a turn counter and rosters of players and
//! planets.

use vstd::prelude::*;

use crate::planet::Planet;
use crate::player::Player;
use crate::text::str_eq;
use crate::turn::Turn;

verus! {

pub struct Game {
    pub turn: Turn,
    pub current_player: String,
    pub players: Vec<Player>,
    pub planets: Vec<Planet>,
}

impl Game {
    pub fn new() -> (g: Self)
        ensures
            g.turn.turn_number == 0,
            g.current_player@.len() == 0,
            g.players@.len() == 0,
            g.planets@.len() == 0,
    {
        Game {
            turn: Turn::new(0),
            current_player: String::new(),
            players: Vec::new(),
            planets: Vec::new(),
        }
    }

    pub fn add_player(&mut self, player: Player)
        ensures
            final(self).players@ == old(self).players@.push(player),
            final(self).planets@ == old(self).planets@,
            final(self).turn == old(self).turn,
            final(self).current_player == old(self).current_player,
    {
        self.players.push(player);
    }

    /// Drops every player registered under the given name.
    pub fn remove_player(&mut self, player_name: &str)
        ensures
            final(self).players@ == old(self).players@.filter(
                |p: Player| p.name@ != player_name@,
            ),
            final(self).planets@ == old(self).planets@,
            final(self).turn == old(self).turn,
            final(self).current_player == old(self).current_player,
    {
        let ghost pred = |p: Player| p.name@ != player_name@;
        let ghost n = self.players@.len() as int;
        let ghost mut k: int = 0;
        proof {
            assert(old(self).players@.take(0).filter(pred) + old(self).players@.skip(0) =~= old(
                self,
            ).players@);
        }
        let mut i: usize = 0;
        while i < self.players.len()
            invariant
                pred == (|p: Player| p.name@ != player_name@),
                0 <= k <= n,
                n == old(self).players@.len(),
                i as int == old(self).players@.take(k).filter(pred).len(),
                self.players@ == old(self).players@.take(k).filter(pred) + old(
                    self,
                ).players@.skip(k),
                self.turn == old(self).turn,
                self.current_player == old(self).current_player,
                self.planets@ == old(self).planets@,
            decreases n - k,
        {
            proof {
                assert(old(self).players@.take(k).filter(pred).len() <= old(
                    self,
                ).players@.take(k).len());
                assert(old(self).players@.skip(k).len() > 0);
                assert(self.players@[i as int] == old(self).players@.skip(k)[0]);
                assert(old(self).players@.skip(k)[0] == old(self).players@[k]);
                assert(old(self).players@.take(k + 1) =~= old(self).players@.take(k).push(
                    old(self).players@[k],
                ));
                lemma_filter_push(old(self).players@.take(k), old(self).players@[k], pred);
                assert(old(self).players@.skip(k).drop_first() =~= old(self).players@.skip(k + 1));
            }
            let ghost prev = self.players@;
            if str_eq(self.players[i].name.as_str(), player_name) {
                self.players.remove(i);
                proof {
                    assert(!pred(old(self).players@[k]));
                    assert(self.players@ == prev.remove(i as int));
                    assert(prev.subrange(0, i as int) =~= old(self).players@.take(k).filter(pred));
                    assert(prev.subrange(i as int + 1, prev.len() as int) =~= old(
                        self,
                    ).players@.skip(k + 1));
                    assert(self.players@ =~= old(self).players@.take(k + 1).filter(pred) + old(
                        self,
                    ).players@.skip(k + 1));
                }
            } else {
                i = i + 1;
                proof {
                    assert(pred(old(self).players@[k]));
                    assert(self.players@ =~= old(self).players@.take(k).filter(pred).push(
                        old(self).players@[k],
                    ) + old(self).players@.skip(k + 1));
                    assert(self.players@ =~= old(self).players@.take(k + 1).filter(pred) + old(
                        self,
                    ).players@.skip(k + 1));
                }
            }
            proof {
                k = k + 1;
            }
        }
        proof {
            assert(k == n);
            assert(old(self).players@.take(n) =~= old(self).players@);
            assert(old(self).players@.skip(n) =~= Seq::<Player>::empty());
            assert(self.players@ =~= old(self).players@.filter(pred));
        }
    }
}

/// Filtering a sequence extended by one element keeps the filtered
/// prefix and appends the element exactly when it passes.
pub proof fn lemma_filter_push<A>(s: Seq<A>, x: A, pred: spec_fn(A) -> bool)
    ensures
        s.push(x).filter(pred) == if pred(x) {
            s.filter(pred).push(x)
        } else {
            s.filter(pred)
        },
{
    reveal(Seq::filter);
    assert(s.push(x).drop_last() =~= s);
    assert(s.push(x).last() == x);
}

} // verus!
