use vstd::prelude::*;
use crate::util::{
    IntErrorKind, ValueError, ValueErrorView, chars_of, parse_failure, parse_u64, parse_u64_spec,
};

verus! {

/// The object id of the slow (0.5x) speed portal.
pub const SLOW_PORTAL: u16 = 200;
/// The object id of the normal (1x) speed portal.
pub const NORMAL_PORTAL: u16 = 201;
/// The object id of the medium (2x) speed portal.
pub const MEDIUM_PORTAL: u16 = 202;
/// The object id of the fast (3x) speed portal.
pub const FAST_PORTAL: u16 = 203;
/// The object id of the very fast (4x) speed portal.
pub const VERY_FAST_PORTAL: u16 = 1334;

/// The speed a speed portal sets.
#[derive(Clone, Copy, Debug, PartialEq, Eq, Structural)]
pub enum Speed {
    Slow,
    Normal,
    Medium,
    Fast,
    VeryFast,
}

#[derive(Clone, Copy, Debug, PartialEq, Eq, Structural)]
pub enum PortalType {
    Nonsense,
    Speed(Speed),
}

#[derive(Clone, Copy, Debug, PartialEq, Eq, Structural)]
pub struct PortalMetadata {
    pub checked: bool,
    pub portal_type: PortalType,
}

#[derive(Clone, Copy, Debug, PartialEq, Eq, Structural)]
pub enum ObjectMetadata {
    Nothing,
    Portal(PortalMetadata),
}

/// The kind of portal an object id stands for.
pub open spec fn portal_type_of(id: u16) -> PortalType {
    if id == SLOW_PORTAL {
        PortalType::Speed(Speed::Slow)
    } else if id == NORMAL_PORTAL {
        PortalType::Speed(Speed::Normal)
    } else if id == MEDIUM_PORTAL {
        PortalType::Speed(Speed::Medium)
    } else if id == FAST_PORTAL {
        PortalType::Speed(Speed::Fast)
    } else if id == VERY_FAST_PORTAL {
        PortalType::Speed(Speed::VeryFast)
    } else {
        PortalType::Nonsense
    }
}

impl PortalType {
    pub fn from_id(id: u16) -> (r: PortalType)
        ensures
            r == portal_type_of(id),
    {
        if id == SLOW_PORTAL {
            PortalType::Speed(Speed::Slow)
        } else if id == NORMAL_PORTAL {
            PortalType::Speed(Speed::Normal)
        } else if id == MEDIUM_PORTAL {
            PortalType::Speed(Speed::Medium)
        } else if id == FAST_PORTAL {
            PortalType::Speed(Speed::Fast)
        } else if id == VERY_FAST_PORTAL {
            PortalType::Speed(Speed::VeryFast)
        } else {
            PortalType::Nonsense
        }
    }
}

/// Whether two texts are equal.
pub fn text_eq(a: &str, b: &str) -> (r: bool)
    ensures
        r == (a@ == b@),
{
    let x = chars_of(a);
    let y = chars_of(b);
    if x.len() != y.len() {
        return false;
    }
    let mut i: usize = 0;
    while i < x.len()
        invariant
            x@ == a@,
            y@ == b@,
            x@.len() == y@.len(),
            i <= x@.len(),
            forall|j: int| 0 <= j < i ==> x@[j] == y@[j],
        decreases x@.len() - i,
    {
        if x[i] != y[i] {
            return false;
        }
        i = i + 1;
    }
    assert(x@ =~= y@);
    true
}

/// The index of the first field whose key is `key`.
pub open spec fn first_index_of(fields: Seq<(String, String)>, key: Seq<char>) -> Option<int> {
    if exists|i: int| 0 <= i < fields.len() && fields[i].0@ == key {
        let i = choose|i: int|
            0 <= i < fields.len() && fields[i].0@ == key && forall|j: int|
                0 <= j < i ==> fields[j].0@ != key;
        Some(i)
    } else {
        None
    }
}

/// Finds the first field whose key is `key`.
pub fn find_field(fields: &Vec<(String, String)>, key: &str) -> (r: Option<usize>)
    ensures
        match r {
            Some(i) => i < fields@.len() && fields@[i as int].0@ == key@ && forall|j: int|
                0 <= j < i ==> fields@[j].0@ != key@,
            None => forall|j: int| 0 <= j < fields@.len() ==> fields@[j].0@ != key@,
        },
{
    let mut i: usize = 0;
    while i < fields.len()
        invariant
            i <= fields@.len(),
            forall|j: int| 0 <= j < i ==> fields@[j].0@ != key@,
        decreases fields@.len() - i,
    {
        if text_eq(fields[i].0.as_str(), key) {
            return Some(i);
        }
        i = i + 1;
    }
    None
}

/// The value of the first field whose key is `key`.
pub open spec fn find_value(fields: Seq<(String, String)>, key: Seq<char>) -> Option<Seq<char>> {
    match first_index_of(fields, key) {
        Some(i) => Some(fields[i].1@),
        None => None,
    }
}

/// The pairs of a field list, as texts.
pub open spec fn pair_views(f: Seq<(String, String)>) -> Seq<(Seq<char>, Seq<char>)> {
    f.map_values(|p: (String, String)| (p.0@, p.1@))
}

/// The pairs that a portal's decoder does not read itself (every index but
/// `1` and `13`), in order.
pub open spec fn unread_by_portal(f: Seq<(String, String)>) -> Seq<(Seq<char>, Seq<char>)>
    decreases f.len(),
{
    if f.len() == 0 {
        Seq::empty()
    } else {
        let rest = unread_by_portal(f.drop_last());
        let k = f.last().0@;
        if k == seq!['1'] || k == seq!['1', '3'] {
            rest
        } else {
            rest.push((k, f.last().1@))
        }
    }
}

/// The pairs handed on to the caller's fallback: those a portal's decoder
/// does not read, or all of them for any other object.
pub open spec fn passed_on(f: Seq<(String, String)>, portal: bool) -> Seq<(Seq<char>, Seq<char>)> {
    if portal {
        unread_by_portal(f)
    } else {
        pair_views(f)
    }
}

/// Copies the pairs to hand on to the caller's fallback, in order.
pub fn pass_on(fields: &Vec<(String, String)>, portal: bool) -> (r: Vec<(String, String)>)
    ensures
        pair_views(r@) == passed_on(fields@, portal),
{
    proof {
        reveal_strlit("1");
        reveal_strlit("13");
        assert("1"@ =~= seq!['1']);
        assert("13"@ =~= seq!['1', '3']);
    }
    let mut r: Vec<(String, String)> = Vec::new();
    let mut i: usize = 0;
    while i < fields.len()
        invariant
            i <= fields@.len(),
            "1"@ == seq!['1'],
            "13"@ == seq!['1', '3'],
            pair_views(r@) == passed_on(fields@.subrange(0, i as int), portal),
        decreases fields@.len() - i,
    {
        let ghost prefix = fields@.subrange(0, i + 1);
        assert(prefix.drop_last() == fields@.subrange(0, i as int));
        assert(prefix.last() == fields@[i as int]);
        let ghost before = r@;
        let (k, v) = &fields[i];
        let read = portal && (text_eq(k.as_str(), "1") || text_eq(k.as_str(), "13"));
        if !read {
            r.push((k.clone(), v.clone()));
            proof {
                assert(pair_views(r@) =~= pair_views(before).push((k@, v@)));
                if !portal {
                    assert(pair_views(prefix) =~= pair_views(prefix.drop_last()).push((k@, v@)));
                }
            }
        } else {
            assert(pair_views(r@) == pair_views(before));
        }
        i = i + 1;
    }
    assert(fields@.subrange(0, fields@.len() as int) == fields@);
    r
}

/// Whether the id is that of a speed portal.
pub open spec fn is_portal_id(id: u16) -> bool {
    portal_type_of(id) != PortalType::Nonsense
}

/// Whether a portal is checked, from field `13`: absent or empty is
/// unchecked, any other integer but zero is checked.
pub open spec fn checked_spec(fields: Seq<(String, String)>) -> Result<bool, ValueErrorView> {
    match find_value(fields, seq!['1', '3']) {
        None => Ok(false),
        Some(c) => if c.len() == 0 {
            Ok(false)
        } else {
            match parse_u64_spec(c) {
                Some(b) => Ok(b != 0),
                None => Err(ValueErrorView::Parse("13"@, c, parse_failure(c))),
            }
        },
    }
}

/// What the fields of an object decode to: an object whose id (field `1`)
/// is a speed portal's has portal metadata, with `checked` from field `13`
/// (absent or empty is unchecked, any other integer but zero is checked);
/// any other object has none.
pub open spec fn metadata_spec(fields: Seq<(String, String)>) -> Result<ObjectMetadata, ValueErrorView> {
    match find_value(fields, seq!['1']) {
        None => Err(ValueErrorView::NoValue("1"@)),
        Some(v) => if v.len() == 0 {
            Err(ValueErrorView::NoValue("1"@))
        } else {
            match parse_u64_spec(v) {
                Some(n) if n <= u16::MAX => {
                    let id = n as u16;
                    if !is_portal_id(id) {
                        Ok(ObjectMetadata::Nothing)
                    } else {
                        match checked_spec(fields) {
                            Ok(c) => Ok(ObjectMetadata::Portal(PortalMetadata { checked: c, portal_type: portal_type_of(id) })),
                            Err(e) => Err(e),
                        }
                    }
                },
                Some(_) => Err(ValueErrorView::Parse("1"@, v, IntErrorKind::PosOverflow)),
                None => Err(ValueErrorView::Parse("1"@, v, parse_failure(v))),
            }
        },
    }
}

proof fn lemma_first_index(fields: Seq<(String, String)>, key: Seq<char>, i: int)
    requires
        0 <= i < fields.len(),
        fields[i].0@ == key,
        forall|j: int| 0 <= j < i ==> fields[j].0@ != key,
    ensures
        first_index_of(fields, key) == Some(i),
{
    let k = choose|k: int|
        0 <= k < fields.len() && fields[k].0@ == key && forall|j: int|
            0 <= j < k ==> fields[j].0@ != key;
    assert(0 <= k < fields.len() && fields[k].0@ == key);
    if k < i {
        assert(fields[k].0@ != key);
    }
    if i < k {
        assert(fields[i].0@ != key);
    }
}

/// Looks up the value of the first field whose key is `key`.
pub(crate) fn field_value<'a>(fields: &'a Vec<(String, String)>, key: &str) -> (r: Option<&'a String>)
    ensures
        match r {
            Some(v) => find_value(fields@, key@) == Some(v@),
            None => find_value(fields@, key@) is None,
        },
{
    match find_field(fields, key) {
        Some(i) => {
            proof {
                lemma_first_index(fields@, key@, i as int);
            }
            Some(&fields[i].1)
        },
        None => None,
    }
}

/// Reads whether a portal is checked.
pub fn parse_checked(fields: &Vec<(String, String)>) -> (r: Result<bool, ValueError>)
    ensures
        match r {
            Ok(c) => checked_spec(fields@) == Ok::<bool, ValueErrorView>(c),
            Err(e) => checked_spec(fields@) == Err::<bool, ValueErrorView>(e@),
        },
{
    proof {
        reveal_strlit("13");
        assert("13"@ =~= seq!['1', '3']);
    }
    match field_value(fields, "13") {
        None => Ok(false),
        Some(c) => {
            if c.as_str().is_empty() {
                Ok(false)
            } else {
                match parse_u64(c.as_str()) {
                    Ok(b) => Ok(b != 0),
                    Err(k) => Err(ValueError::Parse("13".to_owned(), c.clone(), k)),
                }
            }
        },
    }
}

impl ObjectMetadata {
    /// Decodes the metadata of an object from its fields. With it come the
    /// pairs that the decoder does not read, in order, for the caller's
    /// fallback: every pair of an object without metadata, and every pair
    /// but those at `1` and `13` of a portal.
    pub fn parse(fields: &Vec<(String, String)>) -> (r: Result<(ObjectMetadata, Vec<(String, String)>), ValueError>)
        ensures
            match r {
                Ok((m, rest)) => metadata_spec(fields@) == Ok::<ObjectMetadata, ValueErrorView>(m)
                    && pair_views(rest@) == passed_on(fields@, m is Portal),
                Err(e) => metadata_spec(fields@) == Err::<ObjectMetadata, ValueErrorView>(e@),
            },
    {
        proof {
            reveal_strlit("1");
            assert("1"@ =~= seq!['1']);
        }
        let v = match field_value(fields, "1") {
            Some(v) => v,
            None => {
                return Err(ValueError::NoValue("1".to_owned()));
            },
        };
        if v.as_str().is_empty() {
            return Err(ValueError::NoValue("1".to_owned()));
        }
        let id: u16 = match parse_u64(v.as_str()) {
            Ok(n) => {
                if n <= 65535 {
                    n as u16
                } else {
                    return Err(ValueError::Parse("1".to_owned(), v.clone(), IntErrorKind::PosOverflow));
                }
            },
            Err(k) => {
                return Err(ValueError::Parse("1".to_owned(), v.clone(), k));
            },
        };
        let portal_type = PortalType::from_id(id);
        match portal_type {
            PortalType::Nonsense => {
                return Ok((ObjectMetadata::Nothing, pass_on(fields, false)));
            },
            _ => {},
        }
        let checked = match parse_checked(fields) {
            Ok(c) => c,
            Err(e) => {
                return Err(e);
            },
        };
        Ok((ObjectMetadata::Portal(PortalMetadata { checked, portal_type }), pass_on(fields, true)))
    }
}

} // verus!
