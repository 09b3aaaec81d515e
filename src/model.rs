use vstd::prelude::*;

verus! {

/// A level as it appears in search results.
#[derive(Clone, Debug)]
pub struct PartialLevel {
    pub level_id: u64,
    pub name: String,
    /// The custom song the level uses, if any.
    pub custom_song_id: Option<u64>,
}

/// A fully downloaded level.
#[derive(Clone, Debug)]
pub struct Level {
    pub base: PartialLevel,
    pub level_data: String,
}

/// A song hosted on Newgrounds.
#[derive(Clone, Debug)]
pub struct NewgroundsSong {
    pub song_id: u64,
    pub name: String,
}

/// The creator of a level.
#[derive(Clone, Debug)]
pub struct Creator {
    pub user_id: u64,
    pub name: String,
}

/// An entity produced by the parser, tagged by its kind.
#[derive(Clone, Debug)]
pub enum GDObject {
    PartialLevel(PartialLevel),
    Level(Level),
    NewgroundsSong(NewgroundsSong),
    Creator(Creator),
}

/// The song that an object references and that must be cached alongside it:
/// the custom song of a full level.
pub open spec fn song_reference(o: GDObject) -> Option<(u64, u64)> {
    match o {
        GDObject::Level(l) => match l.base.custom_song_id {
            Some(s) => Some((l.base.level_id, s)),
            None => None,
        },
        _ => None,
    }
}

/// The song references of a batch, in order: (level id, song id).
pub open spec fn song_references(s: Seq<GDObject>) -> Seq<(u64, u64)>
    decreases s.len(),
{
    if s.len() == 0 {
        Seq::empty()
    } else {
        let rest = song_references(s.drop_last());
        match song_reference(s.last()) {
            Some(r) => rest.push(r),
            None => rest,
        }
    }
}

/// The partial levels of a batch, in order.
pub open spec fn partial_levels_of(s: Seq<GDObject>) -> Seq<PartialLevel>
    decreases s.len(),
{
    if s.len() == 0 {
        Seq::empty()
    } else {
        let rest = partial_levels_of(s.drop_last());
        match s.last() {
            GDObject::PartialLevel(l) => rest.push(l),
            _ => rest,
        }
    }
}

/// Everything of a batch that is not a partial level, in order.
pub open spec fn other_objects_of(s: Seq<GDObject>) -> Seq<GDObject>
    decreases s.len(),
{
    if s.len() == 0 {
        Seq::empty()
    } else {
        let rest = other_objects_of(s.drop_last());
        match s.last() {
            GDObject::PartialLevel(_) => rest,
            o => rest.push(o),
        }
    }
}

/// The references of a batch to songs, as (level id, song id) pairs in order.
pub fn collect_song_references(batch: &Vec<GDObject>) -> (r: Vec<(u64, u64)>)
    ensures
        r@ == song_references(batch@),
{
    let mut r: Vec<(u64, u64)> = Vec::new();
    let mut i: usize = 0;
    while i < batch.len()
        invariant
            i <= batch@.len(),
            r@ == song_references(batch@.subrange(0, i as int)),
        decreases batch@.len() - i,
    {
        assert(batch@.subrange(0, i + 1).drop_last() == batch@.subrange(0, i as int));
        match &batch[i] {
            GDObject::Level(l) => {
                match l.base.custom_song_id {
                    Some(s) => r.push((l.base.level_id, s)),
                    None => {},
                }
            },
            _ => {},
        }
        i = i + 1;
    }
    assert(batch@.subrange(0, batch@.len() as int) == batch@);
    r
}

/// Splits a batch into its partial levels and everything else, keeping order.
pub fn split_response(batch: Vec<GDObject>) -> (r: (Vec<PartialLevel>, Vec<GDObject>))
    ensures
        r.0@ == partial_levels_of(batch@),
        r.1@ == other_objects_of(batch@),
{
    let ghost all = batch@;
    let mut rest = batch;
    let mut levels: Vec<PartialLevel> = Vec::new();
    let mut others: Vec<GDObject> = Vec::new();
    while rest.len() > 0
        invariant
            rest@.len() <= all.len(),
            rest@ == all.subrange(all.len() - rest@.len(), all.len() as int),
            levels@ == partial_levels_of(all.subrange(0, all.len() - rest@.len())),
            others@ == other_objects_of(all.subrange(0, all.len() - rest@.len())),
        decreases rest@.len(),
    {
        let ghost k = all.len() - rest@.len();
        assert(all.subrange(0, k + 1).drop_last() == all.subrange(0, k));
        let o = rest.remove(0);
        assert(all.subrange(0, k + 1).last() == o);
        match o {
            GDObject::PartialLevel(l) => levels.push(l),
            other => others.push(other),
        }
        assert(rest@ == all.subrange(all.len() - rest@.len(), all.len() as int));
    }
    assert(all.subrange(0, all.len() as int) == all);
    (levels, others)
}

} // verus!
