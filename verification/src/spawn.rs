//! The hand-authored placement tables of the island — where people and
//! checkpoint markers can appear and where each building stands — and
//! the random choice of a spawn site.

use vstd::prelude::*;
use crate::geom::Vec3Fix;
use rand::seq::SliceRandom;

verus! {

/// The sixteen sites around the island's rim where a person or a
/// checkpoint marker can appear, in tenths of a world unit.
pub open spec fn spawn_table() -> Seq<Vec3Fix> {
    seq![
        Vec3Fix { x: 1650, y: 11, z: 30 },
        Vec3Fix { x: 1450, y: 11, z: 1100 },
        Vec3Fix { x: 1450, y: 11, z: -1000i64 },
        Vec3Fix { x: 950, y: 11, z: 1550 },
        Vec3Fix { x: 950, y: 11, z: -1500i64 },
        Vec3Fix { x: 450, y: 11, z: 1800 },
        Vec3Fix { x: 500, y: 11, z: -1800i64 },
        Vec3Fix { x: 0, y: 11, z: -1900i64 },
        Vec3Fix { x: 0, y: 11, z: 1900 },
        Vec3Fix { x: -500i64, y: 11, z: 1800 },
        Vec3Fix { x: -450i64, y: 11, z: -1800i64 },
        Vec3Fix { x: -950i64, y: 11, z: 1500 },
        Vec3Fix { x: -950i64, y: 11, z: -1550i64 },
        Vec3Fix { x: -1450i64, y: 11, z: 1000 },
        Vec3Fix { x: -1450i64, y: 11, z: -1100i64 },
        Vec3Fix { x: -1650i64, y: 11, z: 0 },
    ]
}

/// The spawn sites as a vector, in table order.
pub fn prop_sites() -> (v: Vec<Vec3Fix>)
    ensures
        v@ == spawn_table(),
{
    let mut v: Vec<Vec3Fix> = Vec::new();
    v.push(Vec3Fix { x: 1650, y: 11, z: 30 });
    v.push(Vec3Fix { x: 1450, y: 11, z: 1100 });
    v.push(Vec3Fix { x: 1450, y: 11, z: -1000i64 });
    v.push(Vec3Fix { x: 950, y: 11, z: 1550 });
    v.push(Vec3Fix { x: 950, y: 11, z: -1500i64 });
    v.push(Vec3Fix { x: 450, y: 11, z: 1800 });
    v.push(Vec3Fix { x: 500, y: 11, z: -1800i64 });
    v.push(Vec3Fix { x: 0, y: 11, z: -1900i64 });
    v.push(Vec3Fix { x: 0, y: 11, z: 1900 });
    v.push(Vec3Fix { x: -500i64, y: 11, z: 1800 });
    v.push(Vec3Fix { x: -450i64, y: 11, z: -1800i64 });
    v.push(Vec3Fix { x: -950i64, y: 11, z: 1500 });
    v.push(Vec3Fix { x: -950i64, y: 11, z: -1550i64 });
    v.push(Vec3Fix { x: -1450i64, y: 11, z: 1000 });
    v.push(Vec3Fix { x: -1450i64, y: 11, z: -1100i64 });
    v.push(Vec3Fix { x: -1650i64, y: 11, z: 0 });
    proof {
        assert(v@ =~= spawn_table());
    }
    v
}

/// Relies on rand's `SliceRandom::choose` with `thread_rng`: on a
/// non-empty slice it returns `Some` of an element at some index below
/// the length; which one comes back is up to the generator.
#[verifier::external_body]
fn choose_site(sites: &Vec<Vec3Fix>) -> (r: Vec3Fix)
    requires
        sites@.len() > 0,
    ensures
        sites@.contains(r),
{
    let mut rng = rand::thread_rng();
    *sites.choose(&mut rng).unwrap()
}

/// Picks one of the sixteen rim sites at random; any of them can come
/// back.
pub fn random_prop_site() -> (r: Vec3Fix)
    ensures
        exists|i: int| 0 <= i < spawn_table().len() && r == spawn_table()[i],
{
    let sites = prop_sites();
    choose_site(&sites)
}

/// One building of the island's skyline: which of the five models it
/// uses and where it stands. Every building stands unrotated.
#[derive(Clone, Copy, Debug, PartialEq, Eq, Structural)]
pub struct BuildingSite {
    /// The building model, numbered 1 through 5.
    pub kind: u8,
    /// Where it stands, in tenths of a world unit.
    pub at: Vec3Fix,
}

/// The forty-three buildings of the island, grouped by model: nine of
/// the first, eight of the second, nine of the third, nine of the
/// fourth and eight of the fifth.
pub open spec fn building_table() -> Seq<BuildingSite> {
    seq![
        BuildingSite { kind: 1, at: Vec3Fix { x: 250, y: 11, z: 250 } },
        BuildingSite { kind: 1, at: Vec3Fix { x: 700, y: 11, z: 250 } },
        BuildingSite { kind: 1, at: Vec3Fix { x: -700i64, y: 11, z: -250i64 } },
        BuildingSite { kind: 1, at: Vec3Fix { x: -250i64, y: 11, z: -1700i64 } },
        BuildingSite { kind: 1, at: Vec3Fix { x: -700i64, y: 11, z: 750 } },
        BuildingSite { kind: 1, at: Vec3Fix { x: -750i64, y: 11, z: -1250i64 } },
        BuildingSite { kind: 1, at: Vec3Fix { x: -1650i64, y: 11, z: -250i64 } },
        BuildingSite { kind: 1, at: Vec3Fix { x: -1650i64, y: 11, z: 750 } },
        BuildingSite { kind: 1, at: Vec3Fix { x: 1200, y: 11, z: -1250i64 } },
        BuildingSite { kind: 2, at: Vec3Fix { x: 700, y: 11, z: -400i64 } },
        BuildingSite { kind: 2, at: Vec3Fix { x: 250, y: 11, z: 900 } },
        BuildingSite { kind: 2, at: Vec3Fix { x: -1200i64, y: 11, z: -400i64 } },
        BuildingSite { kind: 2, at: Vec3Fix { x: -250i64, y: 11, z: 900 } },
        BuildingSite { kind: 2, at: Vec3Fix { x: 700, y: 11, z: -1200i64 } },
        BuildingSite { kind: 2, at: Vec3Fix { x: -1200i64, y: 11, z: 900 } },
        BuildingSite { kind: 2, at: Vec3Fix { x: 1200, y: 11, z: 900 } },
        BuildingSite { kind: 2, at: Vec3Fix { x: 1650, y: 11, z: 450 } },
        BuildingSite { kind: 3, at: Vec3Fix { x: -250i64, y: 11, z: 250 } },
        BuildingSite { kind: 3, at: Vec3Fix { x: 250, y: 11, z: 1550 } },
        BuildingSite { kind: 3, at: Vec3Fix { x: 250, y: 11, z: -1700i64 } },
        BuildingSite { kind: 3, at: Vec3Fix { x: -250i64, y: 11, z: 1550 } },
        BuildingSite { kind: 3, at: Vec3Fix { x: -700i64, y: 11, z: -750i64 } },
        BuildingSite { kind: 3, at: Vec3Fix { x: -1200i64, y: 11, z: -1050i64 } },
        BuildingSite { kind: 3, at: Vec3Fix { x: 1600, y: 11, z: -250i64 } },
        BuildingSite { kind: 3, at: Vec3Fix { x: 1200, y: 11, z: 250 } },
        BuildingSite { kind: 3, at: Vec3Fix { x: 1600, y: 11, z: -750i64 } },
        BuildingSite { kind: 4, at: Vec3Fix { x: 250, y: 11, z: -250i64 } },
        BuildingSite { kind: 4, at: Vec3Fix { x: 250, y: 11, z: -750i64 } },
        BuildingSite { kind: 4, at: Vec3Fix { x: -250i64, y: 11, z: -750i64 } },
        BuildingSite { kind: 4, at: Vec3Fix { x: -700i64, y: 11, z: 250 } },
        BuildingSite { kind: 4, at: Vec3Fix { x: 700, y: 11, z: 750 } },
        BuildingSite { kind: 4, at: Vec3Fix { x: -700i64, y: 11, z: 1200 } },
        BuildingSite { kind: 4, at: Vec3Fix { x: 1200, y: 11, z: -250i64 } },
        BuildingSite { kind: 4, at: Vec3Fix { x: -1650i64, y: 11, z: 250 } },
        BuildingSite { kind: 4, at: Vec3Fix { x: -700i64, y: 11, z: 1650 } },
        BuildingSite { kind: 5, at: Vec3Fix { x: -250i64, y: 11, z: -250i64 } },
        BuildingSite { kind: 5, at: Vec3Fix { x: 250, y: 11, z: -1250i64 } },
        BuildingSite { kind: 5, at: Vec3Fix { x: -250i64, y: 11, z: -1250i64 } },
        BuildingSite { kind: 5, at: Vec3Fix { x: -1200i64, y: 11, z: 250 } },
        BuildingSite { kind: 5, at: Vec3Fix { x: 700, y: 11, z: 1200 } },
        BuildingSite { kind: 5, at: Vec3Fix { x: 1200, y: 11, z: -750i64 } },
        BuildingSite { kind: 5, at: Vec3Fix { x: -1600i64, y: 11, z: -750i64 } },
        BuildingSite { kind: 5, at: Vec3Fix { x: 700, y: 11, z: 1650 } },
    ]
}

/// The building sites as a vector, in table order.
pub fn building_sites() -> (v: Vec<BuildingSite>)
    ensures
        v@ == building_table(),
{
    let mut v: Vec<BuildingSite> = Vec::new();
    v.push(BuildingSite { kind: 1, at: Vec3Fix { x: 250, y: 11, z: 250 } });
    v.push(BuildingSite { kind: 1, at: Vec3Fix { x: 700, y: 11, z: 250 } });
    v.push(BuildingSite { kind: 1, at: Vec3Fix { x: -700i64, y: 11, z: -250i64 } });
    v.push(BuildingSite { kind: 1, at: Vec3Fix { x: -250i64, y: 11, z: -1700i64 } });
    v.push(BuildingSite { kind: 1, at: Vec3Fix { x: -700i64, y: 11, z: 750 } });
    v.push(BuildingSite { kind: 1, at: Vec3Fix { x: -750i64, y: 11, z: -1250i64 } });
    v.push(BuildingSite { kind: 1, at: Vec3Fix { x: -1650i64, y: 11, z: -250i64 } });
    v.push(BuildingSite { kind: 1, at: Vec3Fix { x: -1650i64, y: 11, z: 750 } });
    v.push(BuildingSite { kind: 1, at: Vec3Fix { x: 1200, y: 11, z: -1250i64 } });
    v.push(BuildingSite { kind: 2, at: Vec3Fix { x: 700, y: 11, z: -400i64 } });
    v.push(BuildingSite { kind: 2, at: Vec3Fix { x: 250, y: 11, z: 900 } });
    v.push(BuildingSite { kind: 2, at: Vec3Fix { x: -1200i64, y: 11, z: -400i64 } });
    v.push(BuildingSite { kind: 2, at: Vec3Fix { x: -250i64, y: 11, z: 900 } });
    v.push(BuildingSite { kind: 2, at: Vec3Fix { x: 700, y: 11, z: -1200i64 } });
    v.push(BuildingSite { kind: 2, at: Vec3Fix { x: -1200i64, y: 11, z: 900 } });
    v.push(BuildingSite { kind: 2, at: Vec3Fix { x: 1200, y: 11, z: 900 } });
    v.push(BuildingSite { kind: 2, at: Vec3Fix { x: 1650, y: 11, z: 450 } });
    v.push(BuildingSite { kind: 3, at: Vec3Fix { x: -250i64, y: 11, z: 250 } });
    v.push(BuildingSite { kind: 3, at: Vec3Fix { x: 250, y: 11, z: 1550 } });
    v.push(BuildingSite { kind: 3, at: Vec3Fix { x: 250, y: 11, z: -1700i64 } });
    v.push(BuildingSite { kind: 3, at: Vec3Fix { x: -250i64, y: 11, z: 1550 } });
    v.push(BuildingSite { kind: 3, at: Vec3Fix { x: -700i64, y: 11, z: -750i64 } });
    v.push(BuildingSite { kind: 3, at: Vec3Fix { x: -1200i64, y: 11, z: -1050i64 } });
    v.push(BuildingSite { kind: 3, at: Vec3Fix { x: 1600, y: 11, z: -250i64 } });
    v.push(BuildingSite { kind: 3, at: Vec3Fix { x: 1200, y: 11, z: 250 } });
    v.push(BuildingSite { kind: 3, at: Vec3Fix { x: 1600, y: 11, z: -750i64 } });
    v.push(BuildingSite { kind: 4, at: Vec3Fix { x: 250, y: 11, z: -250i64 } });
    v.push(BuildingSite { kind: 4, at: Vec3Fix { x: 250, y: 11, z: -750i64 } });
    v.push(BuildingSite { kind: 4, at: Vec3Fix { x: -250i64, y: 11, z: -750i64 } });
    v.push(BuildingSite { kind: 4, at: Vec3Fix { x: -700i64, y: 11, z: 250 } });
    v.push(BuildingSite { kind: 4, at: Vec3Fix { x: 700, y: 11, z: 750 } });
    v.push(BuildingSite { kind: 4, at: Vec3Fix { x: -700i64, y: 11, z: 1200 } });
    v.push(BuildingSite { kind: 4, at: Vec3Fix { x: 1200, y: 11, z: -250i64 } });
    v.push(BuildingSite { kind: 4, at: Vec3Fix { x: -1650i64, y: 11, z: 250 } });
    v.push(BuildingSite { kind: 4, at: Vec3Fix { x: -700i64, y: 11, z: 1650 } });
    v.push(BuildingSite { kind: 5, at: Vec3Fix { x: -250i64, y: 11, z: -250i64 } });
    v.push(BuildingSite { kind: 5, at: Vec3Fix { x: 250, y: 11, z: -1250i64 } });
    v.push(BuildingSite { kind: 5, at: Vec3Fix { x: -250i64, y: 11, z: -1250i64 } });
    v.push(BuildingSite { kind: 5, at: Vec3Fix { x: -1200i64, y: 11, z: 250 } });
    v.push(BuildingSite { kind: 5, at: Vec3Fix { x: 700, y: 11, z: 1200 } });
    v.push(BuildingSite { kind: 5, at: Vec3Fix { x: 1200, y: 11, z: -750i64 } });
    v.push(BuildingSite { kind: 5, at: Vec3Fix { x: -1600i64, y: 11, z: -750i64 } });
    v.push(BuildingSite { kind: 5, at: Vec3Fix { x: 700, y: 11, z: 1650 } });
    proof {
        assert(v@ =~= building_table());
    }
    v
}

/// The rule for clearing the world when play ends: every spawned model
/// leaves except the player's own avatar.
pub fn clears_on_exit(is_player: bool) -> (r: bool)
    ensures
        r == !is_player,
{
    !is_player
}

} // verus!
