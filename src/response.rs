use vstd::prelude::*;
use crate::error::ApiErrorKind;
use crate::metadata::text_eq;
use crate::util::{chars_of, parse_u64_chars, parse_u64_spec, string_of};

verus! {

/// The kind of entity a raw record describes.
#[derive(Clone, Copy, Debug, PartialEq, Eq, Structural)]
pub enum ObjectType {
    Level,
    PartialLevel,
    NewgroundsSong,
    Creator,
}

/// A record as the wire format gives it: its kind and its (index, value)
/// pairs, in order.
#[derive(Clone, Debug)]
pub struct RawObject {
    pub object_type: ObjectType,
    pub fields: Vec<(u64, String)>,
}

pub struct RawObjectView {
    pub object_type: ObjectType,
    pub fields: Seq<(u64, Seq<char>)>,
}

impl View for RawObject {
    type V = RawObjectView;

    open spec fn view(&self) -> RawObjectView {
        RawObjectView {
            object_type: self.object_type,
            fields: field_views(self.fields@),
        }
    }
}

pub open spec fn field_views(f: Seq<(u64, String)>) -> Seq<(u64, Seq<char>)> {
    f.map_values(|x: (u64, String)| (x.0, x.1@))
}

pub open spec fn object_views(v: Seq<RawObject>) -> Seq<RawObjectView> {
    v.map_values(|o: RawObject| o@)
}

/// A parsed response: one record or many.
#[derive(Clone, Debug)]
pub enum ProcessedResponse {
    One(RawObject),
    Many(Vec<RawObject>),
}

pub enum ProcessedResponseView {
    One(RawObjectView),
    Many(Seq<RawObjectView>),
}

impl View for ProcessedResponse {
    type V = ProcessedResponseView;

    open spec fn view(&self) -> ProcessedResponseView {
        match self {
            ProcessedResponse::One(o) => ProcessedResponseView::One(o@),
            ProcessedResponse::Many(v) => ProcessedResponseView::Many(object_views(v@)),
        }
    }
}

/// Splitting `s` at the non-overlapping occurrences of `sep`, scanning from
/// `i` on, with the current piece starting at `start`.
pub open spec fn split_from(s: Seq<char>, sep: Seq<char>, start: int, i: int) -> Seq<Seq<char>>
    decreases s.len() - i,
{
    if sep.len() == 0 || i < start || i + sep.len() > s.len() {
        seq![s.subrange(start, s.len() as int)]
    } else if s.subrange(i, i + sep.len()) == sep {
        seq![s.subrange(start, i)] + split_from(s, sep, i + sep.len(), i + sep.len())
    } else {
        split_from(s, sep, start, i + 1)
    }
}

/// The pieces of `s` between the occurrences of `sep`, found from left to right.
pub open spec fn split_spec(s: Seq<char>, sep: Seq<char>) -> Seq<Seq<char>> {
    split_from(s, sep, 0, 0)
}

pub open spec fn views(v: Seq<Vec<char>>) -> Seq<Seq<char>> {
    v.map_values(|p: Vec<char>| p@)
}

fn occurs_at(s: &Vec<char>, sep: &Vec<char>, i: usize) -> (r: bool)
    requires
        i + sep@.len() <= s@.len(),
    ensures
        r == (s@.subrange(i as int, i + sep@.len()) == sep@),
{
    let n = s.len();
    let mut k: usize = 0;
    while k < sep.len()
        invariant
            n == s@.len(),
            i + sep@.len() <= s@.len(),
            k <= sep@.len(),
            forall|j: int| 0 <= j < k ==> s@[i + j] == sep@[j],
        decreases sep@.len() - k,
    {
        if s[i + k] != sep[k] {
            assert(s@.subrange(i as int, i + sep@.len())[k as int] != sep@[k as int]);
            return false;
        }
        k = k + 1;
    }
    assert(s@.subrange(i as int, i + sep@.len()) =~= sep@);
    true
}

fn slice_of(s: &Vec<char>, from: usize, to: usize) -> (r: Vec<char>)
    requires
        from <= to <= s@.len(),
    ensures
        r@ == s@.subrange(from as int, to as int),
{
    let mut r: Vec<char> = Vec::new();
    let mut i: usize = from;
    while i < to
        invariant
            from <= i <= to <= s@.len(),
            r@ == s@.subrange(from as int, i as int),
        decreases to - i,
    {
        r.push(s[i]);
        assert(r@ =~= s@.subrange(from as int, i + 1));
        i = i + 1;
    }
    r
}

/// Splits `s` at the occurrences of the non-empty `sep`, left to right.
pub fn split(s: &Vec<char>, sep: &Vec<char>) -> (r: Vec<Vec<char>>)
    requires
        sep@.len() > 0,
    ensures
        views(r@) == split_spec(s@, sep@),
{
    let mut pieces: Vec<Vec<char>> = Vec::new();
    let mut start: usize = 0;
    let mut i: usize = 0;
    let n = s.len();
    while i <= n && sep.len() <= n - i
        invariant
            n == s@.len(),
            sep@.len() > 0,
            start <= i <= s@.len(),
            split_spec(s@, sep@) == views(pieces@) + split_from(s@, sep@, start as int, i as int),
        decreases s@.len() - i,
    {
        if occurs_at(s, sep, i) {
            let piece = slice_of(s, start, i);
            let ghost before = pieces@;
            pieces.push(piece);
            proof {
                assert(views(pieces@) =~= views(before) + seq![s@.subrange(start as int, i as int)]);
            }
            i = i + sep.len();
            start = i;
        } else {
            i = i + 1;
        }
    }
    let last = slice_of(s, start, s.len());
    let ghost before = pieces@;
    pieces.push(last);
    assert(views(pieces@) =~= views(before) + seq![s@.subrange(start as int, s@.len() as int)]);
    pieces
}

/// The (index, value) pairs that the pieces of a fragment stand for: an
/// even number of pieces, each even one a decimal index.
pub open spec fn pairs_spec(parts: Seq<Seq<char>>) -> Option<Seq<(u64, Seq<char>)>> {
    if parts.len() % 2 == 0 && forall|k: int|
        0 <= k < parts.len() / 2 ==> #[trigger] parse_u64_spec(parts[2 * k]) is Some {
        Some(
            Seq::new(
                parts.len() / 2,
                |k: int| (parse_u64_spec(parts[2 * k])->0, parts[2 * k + 1]),
            ),
        )
    } else {
        None
    }
}

/// The record a fragment describes, its pairs separated by `sep`.
pub open spec fn fragment_spec(obj_type: ObjectType, fragment: Seq<char>, sep: Seq<char>) -> Result<
    RawObjectView,
    ApiErrorKind,
> {
    match pairs_spec(split_spec(fragment, sep)) {
        Some(f) => Ok(RawObjectView { object_type: obj_type, fields: f }),
        None => Err(ApiErrorKind::Malformed),
    }
}

/// The records of a list of fragments, or the first failure.
pub open spec fn fragments_spec(obj_type: ObjectType, frags: Seq<Seq<char>>, sep: Seq<char>) -> Result<
    Seq<RawObjectView>,
    ApiErrorKind,
> {
    if forall|i: int| 0 <= i < frags.len() ==> #[trigger] fragment_spec(obj_type, frags[i], sep) is Ok {
        Ok(Seq::new(frags.len(), |i: int| fragment_spec(obj_type, frags[i], sep)->Ok_0))
    } else {
        Err(ApiErrorKind::Malformed)
    }
}

/// Parses one fragment: pieces separated by `separator`, alternately a
/// decimal index and its value.
pub fn parse_fragment(obj_type: ObjectType, fragment: &Vec<char>, separator: &Vec<char>) -> (r: Result<
    RawObject,
    ApiErrorKind,
>)
    requires
        separator@.len() > 0,
    ensures
        match r {
            Ok(o) => fragment_spec(obj_type, fragment@, separator@) == Ok::<
                RawObjectView,
                ApiErrorKind,
            >(o@),
            Err(e) => fragment_spec(obj_type, fragment@, separator@) == Err::<
                RawObjectView,
                ApiErrorKind,
            >(e),
        },
{
    let parts = split(fragment, separator);
    let ghost ps = views(parts@);
    let mut fields: Vec<(u64, String)> = Vec::new();
    let mut i: usize = 0;
    while i < parts.len()
        invariant
            ps == views(parts@),
            ps == split_spec(fragment@, separator@),
            i % 2 == 0,
            i <= parts@.len(),
            forall|k: int| 0 <= k < i / 2 ==> #[trigger] parse_u64_spec(ps[2 * k]) is Some,
            field_views(fields@) == Seq::new(
                (i / 2) as nat,
                |k: int| (parse_u64_spec(ps[2 * k])->0, ps[2 * k + 1]),
            ),
        decreases parts@.len() - i,
    {
        let idx = match parse_u64_chars(&parts[i]) {
            Ok(idx) => idx,
            Err(_) => {
                assert(ps[i as int] == parts@[i as int]@);
                assert(2 * (i / 2) == i);
                assert(!(parse_u64_spec(ps[2 * (i / 2) as int]) is Some));
                return Err(ApiErrorKind::Malformed);
            },
        };
        if i + 1 >= parts.len() {
            return Err(ApiErrorKind::Malformed);
        }
        let value = string_of(&parts[i + 1]);
        let ghost before = fields@;
        let ghost k = i / 2;
        assert(2 * k == i);
        assert(ps[i as int] == parts@[i as int]@);
        assert(ps[i + 1] == parts@[i + 1]@);
        fields.push((idx, value));
        proof {
            let m = field_views(fields@);
            assert(fields@ == before.push((idx, value)));
            assert(field_views(before).len() == before.len());
            assert(m.len() == fields@.len());
            assert(before.len() == k);
            let t = Seq::new(
                ((i + 2) / 2) as nat,
                |k: int| (parse_u64_spec(ps[2 * k])->0, ps[2 * k + 1]),
            );
            assert(field_views(before) == Seq::new(
                k as nat,
                |k: int| (parse_u64_spec(ps[2 * k])->0, ps[2 * k + 1]),
            ));
            assert forall|j: int| 0 <= j < t.len() implies m[j] == t[j] by {
                if j < k {
                    assert(m[j] == field_views(before)[j]);
                } else {
                    assert(j == k);
                }
            }
            assert(m =~= t);
            assert forall|j: int| 0 <= j < (i + 2) / 2 implies #[trigger] parse_u64_spec(ps[2 * j]) is Some by {
                if j == k {
                } else {
                }
            }
        }
        i = i + 2;
    }
    let r = RawObject { object_type: obj_type, fields };
    proof {
        assert(r@.fields =~= pairs_spec(ps)->0);
    }
    Ok(r)
}

/// Parses a list of fragments into records.
fn parse_fragments(obj_type: ObjectType, frags: &Vec<Vec<char>>, separator: &Vec<char>, out: &mut Vec<
    RawObject,
>) -> (r: Result<(), ApiErrorKind>)
    requires
        separator@.len() > 0,
    ensures
        match fragments_spec(obj_type, views(frags@), separator@) {
            Ok(objs) => r is Ok && object_views(final(out)@) == object_views(old(out)@) + objs,
            Err(e) => r == Err::<(), ApiErrorKind>(e),
        },
{
    let ghost start = object_views(out@);
    let ghost fs = views(frags@);
    let mut i: usize = 0;
    while i < frags.len()
        invariant
            separator@.len() > 0,
            fs == views(frags@),
            i <= frags@.len(),
            forall|j: int| 0 <= j < i ==> #[trigger] fragment_spec(obj_type, fs[j], separator@) is Ok,
            object_views(out@) == start + Seq::new(
                i as nat,
                |j: int| fragment_spec(obj_type, fs[j], separator@)->Ok_0,
            ),
        decreases frags@.len() - i,
    {
        assert(fs[i as int] == frags@[i as int]@);
        match parse_fragment(obj_type, &frags[i], separator) {
            Ok(o) => {
                let ghost before = out@;
                out.push(o);
                proof {
                    let m = object_views(out@);
                    assert(out@ == before.push(o));
                    assert(object_views(before).len() == before.len());
                    assert(m.len() == out@.len());
                    let t = start + Seq::new(
                        (i + 1) as nat,
                        |j: int| fragment_spec(obj_type, fs[j], separator@)->Ok_0,
                    );
                    assert(object_views(before) == start + Seq::new(
                        i as nat,
                        |j: int| fragment_spec(obj_type, fs[j], separator@)->Ok_0,
                    ));
                    assert forall|j: int| 0 <= j < t.len() implies m[j] == t[j] by {
                        if j < before.len() {
                            assert(m[j] == object_views(before)[j]);
                        }
                    }
                    assert(m =~= t);
                }
            },
            Err(e) => {
                assert(!(fragment_spec(obj_type, fs[i as int], separator@) is Ok));
                return Err(e);
            },
        }
        i = i + 1;
    }
    assert(Seq::new(i as nat, |j: int| fragment_spec(obj_type, fs[j], separator@)->Ok_0)
        =~= fragments_spec(obj_type, fs, separator@)->Ok_0);
    Ok(())
}

/// What a response to a request for one level is.
pub open spec fn level_spec(body: Seq<char>) -> Result<ProcessedResponseView, ApiErrorKind> {
    if body == seq!['-', '1'] {
        Err(ApiErrorKind::NoResult)
    } else {
        match fragment_spec(ObjectType::Level, split_spec(body, seq!['#'])[0], seq![':']) {
            Ok(o) => Ok(ProcessedResponseView::One(o)),
            Err(e) => Err(e),
        }
    }
}

/// What a response to a search for levels is: partial levels separated by
/// `|` in the first section, the creators in the second (skipped), songs
/// separated by `~:~` in the third.
pub open spec fn levels_spec(body: Seq<char>) -> Result<ProcessedResponseView, ApiErrorKind> {
    if body == seq!['-', '1'] {
        Err(ApiErrorKind::NoResult)
    } else {
        let secs = split_spec(body, seq!['#']);
        if secs.len() < 3 {
            Err(ApiErrorKind::Malformed)
        } else {
            match (
                fragments_spec(ObjectType::PartialLevel, split_spec(secs[0], seq!['|']), seq![':']),
                fragments_spec(
                    ObjectType::NewgroundsSong,
                    split_spec(secs[2], seq!['~', ':', '~']),
                    seq!['~', '|', '~'],
                ),
            ) {
                (Ok(a), Ok(b)) => Ok(ProcessedResponseView::Many(a + b)),
                _ => Err(ApiErrorKind::Malformed),
            }
        }
    }
}

fn is_no_data(body: &str) -> (r: bool)
    ensures
        r == (body@ == seq!['-', '1']),
{
    proof {
        reveal_strlit("-1");
        assert("-1"@ =~= seq!['-', '1']);
    }
    text_eq(body, "-1")
}

/// Parses the response to a request for one level.
pub fn level(body: &str) -> (r: Result<ProcessedResponse, ApiErrorKind>)
    ensures
        match r {
            Ok(p) => level_spec(body@) == Ok::<ProcessedResponseView, ApiErrorKind>(p@),
            Err(e) => level_spec(body@) == Err::<ProcessedResponseView, ApiErrorKind>(e),
        },
{
    if is_no_data(body) {
        return Err(ApiErrorKind::NoResult);
    }
    let chars = chars_of(body);
    let hash = vec!['#'];
    let colon = vec![':'];
    assert(hash@ =~= seq!['#']);
    assert(colon@ =~= seq![':']);
    let sections = split(&chars, &hash);
    proof {
        lemma_split_nonempty(chars@, seq!['#'], 0, 0);
        assert(views(sections@).len() > 0);
        assert(views(sections@)[0] == sections@[0]@);
    }
    match parse_fragment(ObjectType::Level, &sections[0], &colon) {
        Ok(o) => Ok(ProcessedResponse::One(o)),
        Err(e) => Err(e),
    }
}

proof fn lemma_split_nonempty(s: Seq<char>, sep: Seq<char>, start: int, i: int)
    ensures
        split_from(s, sep, start, i).len() > 0,
    decreases s.len() - i,
{
    if sep.len() == 0 || i < start || i + sep.len() > s.len() {
    } else if s.subrange(i, i + sep.len()) == sep {
        lemma_split_nonempty(s, sep, i + sep.len(), i + sep.len());
    } else {
        lemma_split_nonempty(s, sep, start, i + 1);
    }
}

/// Parses the response to a search for levels: the partial levels, then
/// the songs they use.
pub fn levels(body: &str) -> (r: Result<ProcessedResponse, ApiErrorKind>)
    ensures
        match r {
            Ok(p) => levels_spec(body@) == Ok::<ProcessedResponseView, ApiErrorKind>(p@),
            Err(e) => levels_spec(body@) == Err::<ProcessedResponseView, ApiErrorKind>(e),
        },
{
    if is_no_data(body) {
        return Err(ApiErrorKind::NoResult);
    }
    let chars = chars_of(body);
    let hash = vec!['#'];
    let bar = vec!['|'];
    let colon = vec![':'];
    let song_sep = vec!['~', ':', '~'];
    let song_field_sep = vec!['~', '|', '~'];
    assert(hash@ =~= seq!['#']);
    assert(bar@ =~= seq!['|']);
    assert(colon@ =~= seq![':']);
    assert(song_sep@ =~= seq!['~', ':', '~']);
    assert(song_field_sep@ =~= seq!['~', '|', '~']);
    let sections = split(&chars, &hash);
    if sections.len() < 3 {
        return Err(ApiErrorKind::Malformed);
    }
    assert(views(sections@)[0] == sections@[0]@);
    assert(views(sections@)[2] == sections@[2]@);
    let mut result: Vec<RawObject> = Vec::new();
    let level_frags = split(&sections[0], &bar);
    let r1 = parse_fragments(ObjectType::PartialLevel, &level_frags, &colon, &mut result);
    if r1.is_err() {
        return Err(ApiErrorKind::Malformed);
    }
    let ghost mid = object_views(result@);
    let song_frags = split(&sections[2], &song_sep);
    let r2 = parse_fragments(ObjectType::NewgroundsSong, &song_frags, &song_field_sep, &mut result);
    if r2.is_err() {
        return Err(ApiErrorKind::Malformed);
    }
    let r = ProcessedResponse::Many(result);
    proof {
        let a = fragments_spec(ObjectType::PartialLevel, split_spec(views(sections@)[0], seq!['|']), seq![':']);
        assert(Seq::<RawObjectView>::empty() + a->Ok_0 =~= a->Ok_0);
        assert(object_views(Seq::<RawObject>::empty()) =~= Seq::<RawObjectView>::empty());
    }
    Ok(r)
}

} // verus!
