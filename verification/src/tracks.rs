//! The track registry: the fixed table of tracks, and the classifier that
//! assigns the origin of a proposal to one of them.

use crate::curve::Curve;
use crate::deciding::Policy;
use crate::fraction::Fraction;
use vstd::prelude::*;

verus! {

/// The identifier of a track.
pub type TrackId = u8;

/// The configuration of one track.
#[derive(Clone, Copy, Debug)]
pub struct TrackInfo {
    /// The name of the track.
    pub name: &'static str,
    /// How many referenda of this track may be deciding at once.
    pub max_deciding: u32,
    /// The deposit that must be placed before a referendum may be decided.
    pub decision_deposit: u64,
    /// The time a referendum is given to gather its decision deposit.
    pub prepare_period: u64,
    /// The longest time a referendum may spend deciding.
    pub decision_period: u64,
    /// The time for which a referendum must pass without a break to be
    /// approved.
    pub confirm_period: u64,
    /// The shortest time between approval and enactment.
    pub min_enactment_period: u64,
    /// The least approval needed, over the decision period.
    pub min_approval: Curve,
    /// The least turnout needed, over the decision period.
    pub min_turnout: Curve,
    /// The choices left to the operator of the track.
    pub policy: Policy,
}

/// The privilege level that a proposal asks to be enacted with.
#[derive(Clone, Copy, Debug, PartialEq, Eq, Structural)]
pub enum Origin {
    /// The system itself; the highest privilege.
    Root,
    /// An ordinary account.
    Signed(u64),
    /// No privilege at all.
    Unsigned,
}

/// The error of a classifier that knows no track for an origin.
#[derive(Clone, Copy, Debug, PartialEq, Eq, Structural)]
pub struct Unclassifiable;

/// The first entry of `tracks` with the identifier `id`, if there is one.
pub open spec fn find_track(tracks: Seq<(TrackId, TrackInfo)>, id: TrackId) -> Option<TrackInfo>
    decreases tracks.len(),
{
    if tracks.len() == 0 {
        None
    } else if tracks[0].0 == id {
        Some(tracks[0].1)
    } else {
        find_track(tracks.skip(1), id)
    }
}

/// The track of the first entry of `classes` with the origin `origin`, if
/// there is one.
pub open spec fn find_class(classes: Seq<(Origin, TrackId)>, origin: Origin) -> Option<TrackId>
    decreases classes.len(),
{
    if classes.len() == 0 {
        None
    } else if classes[0].0 == origin {
        Some(classes[0].1)
    } else {
        find_class(classes.skip(1), origin)
    }
}

/// The track that a well-formed registry classifies an origin into is a
/// track of its table.
pub proof fn lemma_class_has_track(registry: TrackRegistry, origin: Origin)
    requires
        registry.wf(),
    ensures
        registry.class_of(origin) matches Some(id) ==> registry.info_of(id) is Some,
{
    lemma_find_class_position(registry.classes@, origin);
}

/// A class found in a table sits at one of its positions.
pub proof fn lemma_find_class_position(classes: Seq<(Origin, TrackId)>, origin: Origin)
    ensures
        find_class(classes, origin) matches Some(id) ==> exists|k: int|
            0 <= k < classes.len() && (#[trigger] classes[k]).1 == id,
    decreases classes.len(),
{
    if classes.len() == 0 {
    } else if classes[0].0 == origin {
    } else {
        let rest = classes.skip(1);
        lemma_find_class_position(rest, origin);
        if let Some(id) = find_class(rest, origin) {
            let k = choose|k: int| 0 <= k < rest.len() && (#[trigger] rest[k]).1 == id;
            assert(classes[k + 1] == rest[k]);
        }
    }
}

/// The table of tracks and the classes of origin, fixed when the engine is
/// set up.
#[derive(Clone, Debug)]
pub struct TrackRegistry {
    /// The tracks, each with its identifier.
    pub tracks: Vec<(TrackId, TrackInfo)>,
    /// The origins that have a track, each with the track's identifier.
    pub classes: Vec<(Origin, TrackId)>,
}

impl TrackRegistry {
    /// Every origin with a class is sent to a track of the table.
    pub open spec fn wf(&self) -> bool {
        forall|k: int|
            0 <= k < self.classes@.len() ==> find_track(
                self.tracks@,
                (#[trigger] self.classes@[k]).1,
            ) is Some
    }

    /// The configuration of the track `id`, if the table has it.
    pub open spec fn info_of(&self, id: TrackId) -> Option<TrackInfo> {
        find_track(self.tracks@, id)
    }

    /// The track that `origin` is classified into, if it has one.
    pub open spec fn class_of(&self, origin: Origin) -> Option<TrackId> {
        find_class(self.classes@, origin)
    }

    /// Whether every origin with a class is sent to a track of the table.
    pub fn is_well_formed(&self) -> (r: bool)
        ensures
            r == self.wf(),
    {
        let mut i: usize = 0;
        while i < self.classes.len()
            invariant
                i <= self.classes@.len(),
                forall|k: int|
                    0 <= k < i ==> find_track(self.tracks@, (#[trigger] self.classes@[k]).1)
                        is Some,
            decreases self.classes@.len() - i,
        {
            if self.info(self.classes[i].1).is_none() {
                return false;
            }
            i += 1;
        }
        true
    }

    /// The tracks, in the order of the table.
    pub fn tracks(&self) -> (r: &Vec<(TrackId, TrackInfo)>)
        ensures
            r@ == self.tracks@,
    {
        &self.tracks
    }

    /// The configuration of the track `id`, if the table has it.
    pub fn info(&self, id: TrackId) -> (r: Option<TrackInfo>)
        ensures
            r == self.info_of(id),
    {
        let mut i: usize = 0;
        assert(self.tracks@.skip(0) =~= self.tracks@);
        while i < self.tracks.len()
            invariant
                i <= self.tracks@.len(),
                find_track(self.tracks@, id) == find_track(self.tracks@.skip(i as int), id),
            decreases self.tracks@.len() - i,
        {
            let entry = self.tracks[i];
            proof {
                let rest = self.tracks@.skip(i as int);
                assert(rest[0] == self.tracks@[i as int]);
                assert(rest.skip(1) =~= self.tracks@.skip(i + 1));
            }
            if entry.0 == id {
                return Some(entry.1);
            }
            i += 1;
        }
        None
    }

    /// Classifies `origin` into a track; fails where it has none.
    pub fn track_for(&self, origin: &Origin) -> (r: Result<TrackId, Unclassifiable>)
        ensures
            match self.class_of(*origin) {
                Some(id) => r == Ok::<TrackId, Unclassifiable>(id),
                None => r is Err,
            },
    {
        let mut i: usize = 0;
        assert(self.classes@.skip(0) =~= self.classes@);
        while i < self.classes.len()
            invariant
                i <= self.classes@.len(),
                find_class(self.classes@, *origin) == find_class(
                    self.classes@.skip(i as int),
                    *origin,
                ),
            decreases self.classes@.len() - i,
        {
            let entry = self.classes[i];
            proof {
                let rest = self.classes@.skip(i as int);
                assert(rest[0] == self.classes@[i as int]);
                assert(rest.skip(1) =~= self.classes@.skip(i + 1));
            }
            if entry.0 == *origin {
                return Ok(entry.1);
            }
            i += 1;
        }
        Err(Unclassifiable)
    }
}

/// The fixed pair of tracks that the bundled configuration offers.
#[derive(Clone, Copy, Debug)]
pub struct TestTracksInfo;

/// The track for proposals of the highest privilege.
pub open spec fn root_track() -> TrackInfo {
    TrackInfo {
        name: "root",
        max_deciding: 1,
        decision_deposit: 10,
        prepare_period: 4,
        decision_period: 4,
        confirm_period: 4,
        min_enactment_period: 4,
        min_approval: Curve::LinearDecreasing {
            begin: Fraction { parts: 1_000_000_000 },
            delta: Fraction { parts: 500_000_000 },
        },
        min_turnout: Curve::LinearDecreasing {
            begin: Fraction { parts: 1_000_000_000 },
            delta: Fraction { parts: 1_000_000_000 },
        },
        policy: Policy { slash_on_rejection: false, time_out_on_low_turnout: false },
    }
}

/// The track for proposals without any privilege.
pub open spec fn none_track() -> TrackInfo {
    TrackInfo {
        name: "none",
        max_deciding: 3,
        decision_deposit: 1,
        prepare_period: 2,
        decision_period: 2,
        confirm_period: 2,
        min_enactment_period: 2,
        min_approval: Curve::LinearDecreasing {
            begin: Fraction { parts: 550_000_000 },
            delta: Fraction { parts: 50_000_000 },
        },
        min_turnout: Curve::LinearDecreasing {
            begin: Fraction { parts: 100_000_000 },
            delta: Fraction { parts: 100_000_000 },
        },
        policy: Policy { slash_on_rejection: false, time_out_on_low_turnout: false },
    }
}

/// The track that the bundled configuration classifies `origin` into.
pub open spec fn test_class_of(origin: Origin) -> Option<TrackId> {
    match origin {
        Origin::Root => Some(0u8),
        Origin::Unsigned => Some(1u8),
        Origin::Signed(_) => None,
    }
}

impl TestTracksInfo {
    /// The table of tracks: the root track under 0, the track without
    /// privilege under 1.
    pub open spec fn table() -> Seq<(TrackId, TrackInfo)> {
        seq![(0u8, root_track()), (1u8, none_track())]
    }

    /// The classes: root goes to track 0, no privilege to track 1.
    pub open spec fn classes() -> Seq<(Origin, TrackId)> {
        seq![(Origin::Root, 0u8), (Origin::Unsigned, 1u8)]
    }

    /// The tracks, in order of their identifiers.
    pub fn tracks() -> (r: Vec<(TrackId, TrackInfo)>)
        ensures
            r@ == Self::table(),
    {
        let root = TrackInfo {
            name: "root",
            max_deciding: 1,
            decision_deposit: 10,
            prepare_period: 4,
            decision_period: 4,
            confirm_period: 4,
            min_enactment_period: 4,
            min_approval: Curve::LinearDecreasing {
                begin: Fraction::from_percent(100),
                delta: Fraction::from_percent(50),
            },
            min_turnout: Curve::LinearDecreasing {
                begin: Fraction::from_percent(100),
                delta: Fraction::from_percent(100),
            },
            policy: Policy { slash_on_rejection: false, time_out_on_low_turnout: false },
        };
        let none = TrackInfo {
            name: "none",
            max_deciding: 3,
            decision_deposit: 1,
            prepare_period: 2,
            decision_period: 2,
            confirm_period: 2,
            min_enactment_period: 2,
            min_approval: Curve::LinearDecreasing {
                begin: Fraction::from_percent(55),
                delta: Fraction::from_percent(5),
            },
            min_turnout: Curve::LinearDecreasing {
                begin: Fraction::from_percent(10),
                delta: Fraction::from_percent(10),
            },
            policy: Policy { slash_on_rejection: false, time_out_on_low_turnout: false },
        };
        let mut table: Vec<(TrackId, TrackInfo)> = Vec::new();
        table.push((0u8, root));
        table.push((1u8, none));
        assert(table@ =~= Self::table());
        table
    }

    /// Classifies `origin`: root goes to track 0, no privilege to track 1,
    /// and an account has no track.
    pub fn track_for(origin: &Origin) -> (r: Result<TrackId, Unclassifiable>)
        ensures
            match test_class_of(*origin) {
                Some(id) => r == Ok::<TrackId, Unclassifiable>(id),
                None => r is Err,
            },
    {
        match origin {
            Origin::Root => Ok(0),
            Origin::Unsigned => Ok(1),
            Origin::Signed(_) => Err(Unclassifiable),
        }
    }

    /// The registry that holds this table and these classes.
    pub fn registry() -> (r: TrackRegistry)
        ensures
            r.tracks@ == Self::table(),
            r.classes@ == Self::classes(),
            r.wf(),
    {
        let mut classes: Vec<(Origin, TrackId)> = Vec::new();
        classes.push((Origin::Root, 0u8));
        classes.push((Origin::Unsigned, 1u8));
        let r = TrackRegistry { tracks: Self::tracks(), classes };
        proof {
            assert(r.classes@ =~= Self::classes());
            lemma_test_registry(r);
        }
        r
    }
}

/// The bundled registry is well formed, knows both tracks, and classifies
/// every origin as the bundled classifier does.
pub proof fn lemma_test_registry(r: TrackRegistry)
    requires
        r.tracks@ == TestTracksInfo::table(),
        r.classes@ == TestTracksInfo::classes(),
    ensures
        r.wf(),
        r.info_of(0) == Some(root_track()),
        r.info_of(1) == Some(none_track()),
        forall|id: TrackId| id > 1 ==> r.info_of(id) is None,
        forall|origin: Origin| r.class_of(origin) == test_class_of(origin),
{
    reveal_with_fuel(find_track, 4);
    reveal_with_fuel(find_class, 4);
    let t = TestTracksInfo::table();
    let c = TestTracksInfo::classes();
    assert(t.skip(1) =~= seq![(1u8, none_track())]);
    assert(t.skip(1).skip(1) =~= Seq::<(TrackId, TrackInfo)>::empty());
    assert(c.skip(1) =~= seq![(Origin::Unsigned, 1u8)]);
    assert(c.skip(1).skip(1) =~= Seq::<(Origin, TrackId)>::empty());
    assert(find_track(t, 0) == Some(root_track()));
    assert(find_track(t, 1) == Some(none_track()));
    assert forall|origin: Origin| r.class_of(origin) == test_class_of(origin) by {
        match origin {
            Origin::Root => {},
            Origin::Unsigned => {},
            Origin::Signed(_) => {},
        }
    }
}

} // verus!
