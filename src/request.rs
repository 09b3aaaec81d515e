use vstd::prelude::*;

verus! {

/// A paginatable search for levels.
#[derive(Clone, Copy, Debug, PartialEq, Eq)]
pub struct LevelsRequest {
    /// Restricts the search to one level.
    pub level_id: Option<u64>,
    /// Restricts the search to levels that use this custom song.
    pub custom_song: Option<u64>,
    /// The page of results.
    pub page: u32,
}

impl LevelsRequest {
    /// The unrestricted search, first page.
    pub fn new() -> (r: Self)
        ensures
            r == (LevelsRequest { level_id: None, custom_song: None, page: 0 }),
    {
        LevelsRequest { level_id: None, custom_song: None, page: 0 }
    }

    pub fn with_id(self, level_id: u64) -> (r: Self)
        ensures
            r == (LevelsRequest { level_id: Some(level_id), ..self }),
    {
        LevelsRequest { level_id: Some(level_id), ..self }
    }

    pub fn custom_song(self, song_id: u64) -> (r: Self)
        ensures
            r == (LevelsRequest { custom_song: Some(song_id), ..self }),
    {
        LevelsRequest { custom_song: Some(song_id), ..self }
    }

    pub fn page(self, page: u32) -> (r: Self)
        ensures
            r == (LevelsRequest { page: page, ..self }),
    {
        LevelsRequest { page: page, ..self }
    }

    /// Advances to the next page, keeping the filters.
    pub fn next(&mut self)
        requires
            old(self).page < u32::MAX,
        ensures
            *final(self) == (LevelsRequest { page: (old(self).page + 1) as u32, ..*old(self) }),
    {
        self.page = self.page + 1;
    }
}

/// The request that caches the song a level references: a search for that
/// level, filtered by the song.
pub open spec fn sub_request_spec(reference: (u64, u64)) -> LevelsRequest {
    LevelsRequest { level_id: Some(reference.0), custom_song: Some(reference.1), page: 0 }
}

pub fn sub_request(level_id: u64, song_id: u64) -> (r: LevelsRequest)
    ensures
        r == sub_request_spec((level_id, song_id)),
{
    LevelsRequest::new().with_id(level_id).custom_song(song_id)
}

} // verus!
