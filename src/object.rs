use vstd::prelude::*;
use crate::metadata::{
    PortalType, Speed, checked_spec, field_value, find_value, parse_checked, pair_views, pass_on, passed_on,
    text_eq,
};
use crate::util::{ValueError, ValueErrorView};

verus! {

/// The data of a portal object.
#[derive(Clone, Copy, Debug, PartialEq, Eq, Structural)]
pub struct PortalData {
    pub checked: bool,
    pub portal_type: PortalType,
}

/// The data of an object of a level, by its kind.
#[derive(Clone, Copy, Debug, PartialEq, Eq, Structural)]
pub enum ObjectData {
    Nothing,
    Portal(PortalData),
}

/// The kind of portal an object id, as text, stands for.
pub open spec fn portal_type_of_text(id: Seq<char>) -> PortalType {
    if id == seq!['2', '0', '0'] {
        PortalType::Speed(Speed::Slow)
    } else if id == seq!['2', '0', '1'] {
        PortalType::Speed(Speed::Normal)
    } else if id == seq!['2', '0', '2'] {
        PortalType::Speed(Speed::Medium)
    } else if id == seq!['2', '0', '3'] {
        PortalType::Speed(Speed::Fast)
    } else if id == seq!['1', '3', '3', '4'] {
        PortalType::Speed(Speed::VeryFast)
    } else {
        PortalType::Nonsense
    }
}

impl PortalType {
    /// The kind of portal an object id, as it stands in the level data, is.
    pub fn from_id_str(id: &str) -> (r: PortalType)
        ensures
            r == portal_type_of_text(id@),
    {
        proof {
            reveal_strlit("200");
            reveal_strlit("201");
            reveal_strlit("202");
            reveal_strlit("203");
            reveal_strlit("1334");
            assert("200"@ =~= seq!['2', '0', '0']);
            assert("201"@ =~= seq!['2', '0', '1']);
            assert("202"@ =~= seq!['2', '0', '2']);
            assert("203"@ =~= seq!['2', '0', '3']);
            assert("1334"@ =~= seq!['1', '3', '3', '4']);
        }
        if text_eq(id, "200") {
            PortalType::Speed(Speed::Slow)
        } else if text_eq(id, "201") {
            PortalType::Speed(Speed::Normal)
        } else if text_eq(id, "202") {
            PortalType::Speed(Speed::Medium)
        } else if text_eq(id, "203") {
            PortalType::Speed(Speed::Fast)
        } else if text_eq(id, "1334") {
            PortalType::Speed(Speed::VeryFast)
        } else {
            PortalType::Nonsense
        }
    }
}

/// What the fields of an object decode to: an object whose id (field `1`)
/// is a speed portal's is a portal, checked as field `13` says; any other
/// is nothing more.
pub open spec fn object_spec(fields: Seq<(String, String)>) -> Result<ObjectData, ValueErrorView> {
    match find_value(fields, seq!['1']) {
        None => Err(ValueErrorView::NoValue(seq!['1'])),
        Some(id) => if portal_type_of_text(id) == PortalType::Nonsense {
            Ok(ObjectData::Nothing)
        } else {
            match checked_spec(fields) {
                Ok(c) => Ok(ObjectData::Portal(PortalData { checked: c, portal_type: portal_type_of_text(id) })),
                Err(e) => Err(e),
            }
        },
    }
}

impl ObjectData {
    /// Decodes an object of a level from its fields. With it come the
    /// pairs that the decoder does not read, in order, for the caller's
    /// fallback: every pair of an object that is no portal, and every pair
    /// but those at `1` and `13` of a portal.
    pub fn parse(fields: &Vec<(String, String)>) -> (r: Result<(ObjectData, Vec<(String, String)>), ValueError>)
        ensures
            match r {
                Ok((o, rest)) => object_spec(fields@) == Ok::<ObjectData, ValueErrorView>(o)
                    && pair_views(rest@) == passed_on(fields@, o is Portal),
                Err(e) => object_spec(fields@) == Err::<ObjectData, ValueErrorView>(e@),
            },
    {
        proof {
            reveal_strlit("1");
            assert("1"@ =~= seq!['1']);
        }
        let id = match field_value(fields, "1") {
            Some(id) => id,
            None => {
                return Err(ValueError::NoValue("1".to_owned()));
            },
        };
        let portal_type = PortalType::from_id_str(id.as_str());
        match portal_type {
            PortalType::Nonsense => Ok((ObjectData::Nothing, pass_on(fields, false))),
            _ => match parse_checked(fields) {
                Ok(checked) => Ok((ObjectData::Portal(PortalData { checked, portal_type }), pass_on(fields, true))),
                Err(e) => Err(e),
            },
        }
    }
}

} // verus!
