//! Shared helpers of the list and count APIs: query conditions, limits, sort arguments and
//! the framing of streamed lists.

use vstd::prelude::*;
use vstd::string::*;

use crate::corelib::push_char;
use crate::models::{opt_view, strs};
use crate::routes::v1::lib::{check_unit_cond, unit_cond_spec, UnitQueryCond};
use crate::routes::{ApiError, BrokerReq, ErrView};

verus! {

/// The default number of items of one list request.
pub const LIST_LIMIT_DEFAULT: u64 = 100;

/// The number of items fetched from the database at once.
pub const LIST_CURSOR_MAX: u64 = 100;

/// The limit of a list request: none given means the default, zero means no limit.
pub open spec fn limit_spec(limit: Option<u64>) -> Option<u64> {
    match limit {
        None => Some(LIST_LIMIT_DEFAULT),
        Some(l) => if l == 0 {
            None
        } else {
            Some(l)
        },
    }
}

/// The limit of a list request: none given means the default, zero means no limit.
pub fn list_limit(limit: Option<u64>) -> (r: Option<u64>)
    ensures
        r == limit_spec(limit),
{
    match limit {
        None => Some(LIST_LIMIT_DEFAULT),
        Some(l) => if l == 0 {
            None
        } else {
            Some(l)
        },
    }
}

/// A query condition from an optional query parameter: empty means no condition.
pub open spec fn cond_spec(param: Option<Seq<char>>) -> Option<Seq<char>> {
    match param {
        None => None,
        Some(p) => if p.len() == 0 {
            None
        } else {
            Some(p)
        },
    }
}

/// A query condition from an optional query parameter: empty means no condition.
pub fn non_empty(param: &Option<String>) -> (r: Option<String>)
    ensures
        opt_view(r) == cond_spec(opt_view(*param)),
{
    match param {
        None => None,
        Some(p) => if p.as_str().is_empty() {
            None
        } else {
            Some(p.clone())
        },
    }
}

/// The pieces of `s` between the occurrences of `sep`, as `str::split` gives them: at least
/// one piece, empty pieces included.
pub open spec fn split_on(s: Seq<char>, sep: char) -> Seq<Seq<char>>
    decreases s.len(),
{
    if s.len() == 0 {
        seq![Seq::empty()]
    } else {
        let prev = split_on(s.drop_last(), sep);
        if s.last() == sep {
            prev.push(Seq::empty())
        } else {
            prev.update(prev.len() - 1, prev.last().push(s.last()))
        }
    }
}

/// There is always at least one piece.
pub proof fn lemma_split_on_nonempty(s: Seq<char>, sep: char)
    ensures
        split_on(s, sep).len() >= 1,
    decreases s.len(),
{
    if s.len() > 0 {
        lemma_split_on_nonempty(s.drop_last(), sep);
    }
}

/// Splits `s` at each `sep`, as `str::split` does.
pub fn split_str(s: &str, sep: char) -> (parts: Vec<String>)
    ensures
        strs(parts@) == split_on(s@, sep),
{
    let n = s.unicode_len();
    let mut parts: Vec<String> = Vec::new();
    let mut cur = String::new();
    let mut i: usize = 0;
    proof {
        assert(s@.take(0) =~= Seq::<char>::empty());
        assert(strs(parts@).push(cur@) =~= seq![Seq::<char>::empty()]);
    }
    while i < n
        invariant
            n == s@.len(),
            i <= n,
            strs(parts@).push(cur@) == split_on(s@.take(i as int), sep),
        decreases n - i,
    {
        let c = s.get_char(i);
        let ghost old_parts = parts@;
        let ghost old_cur = cur@;
        proof {
            assert(s@.take(i + 1).drop_last() =~= s@.take(i as int));
            assert(s@.take(i + 1).last() == c);
        }
        if c == sep {
            parts.push(cur);
            cur = String::new();
            proof {
                assert(strs(parts@) =~= strs(old_parts).push(old_cur));
                assert(strs(parts@).push(cur@) =~= strs(old_parts).push(old_cur).push(
                    Seq::empty(),
                ));
            }
        } else {
            push_char(&mut cur, c);
            proof {
                assert(strs(parts@).push(cur@) =~= strs(old_parts).push(old_cur).update(
                    strs(old_parts).len() as int,
                    old_cur.push(c),
                ));
            }
        }
        i += 1;
    }
    let ghost pre = parts@;
    parts.push(cur);
    proof {
        assert(s@.take(n as int) =~= s@);
        assert(strs(parts@) =~= strs(pre).push(cur@));
    }
    parts
}

/// Why a sort argument is refused.
pub enum SortFault {
    /// A condition without `:`.
    WrongArgument,
    /// An unknown sort key.
    InvalidKey(Seq<char>),
    /// A direction other than `asc` or `desc`.
    InvalidAsc(Seq<char>),
    /// A condition with more than two parts.
    InvalidCondition,
}

/// The text of the parameter error for a refused sort argument.
pub open spec fn sort_fault_text(f: SortFault) -> Seq<char> {
    match f {
        SortFault::WrongArgument => "wrong sort argument"@,
        SortFault::InvalidKey(k) => "invalid sort key "@ + k,
        SortFault::InvalidAsc(a) => "invalid sort asc "@ + a,
        SortFault::InvalidCondition => "invalid sort condition"@,
    }
}

/// The first position of `key` among `fields`.
pub open spec fn field_index(fields: Seq<Seq<char>>, key: Seq<char>) -> Option<int>
    decreases fields.len(),
{
    if fields.len() == 0 {
        None
    } else {
        match field_index(fields.drop_last(), key) {
            Some(i) => Some(i),
            None => if fields.last() == key {
                Some(fields.len() - 1)
            } else {
                None
            },
        }
    }
}

/// A found position is a position of `key`.
pub proof fn lemma_field_index(fields: Seq<Seq<char>>, key: Seq<char>)
    ensures
        field_index(fields, key) matches Some(i) ==> 0 <= i < fields.len() && fields[i] == key,
        field_index(fields, key) is None ==> forall|j: int|
            0 <= j < fields.len() ==> fields[j] != key,
    decreases fields.len(),
{
    if fields.len() > 0 {
        lemma_field_index(fields.drop_last(), key);
        if field_index(fields.drop_last(), key) is None {
            assert forall|j: int| 0 <= j < fields.len() - 1 implies fields[j] != key by {
                assert(fields.drop_last()[j] == fields[j]);
            }
        }
    }
}

/// One sort condition `key:asc` or `key:desc`: the position of the key among `fields` and
/// whether the order is ascending.
pub open spec fn sort_item(seg: Seq<char>, fields: Seq<Seq<char>>) -> Result<(int, bool), SortFault> {
    let parts = split_on(seg, ':');
    match field_index(fields, parts[0]) {
        None => Err(SortFault::InvalidKey(parts[0])),
        Some(k) => if parts.len() < 2 {
            Err(SortFault::WrongArgument)
        } else if parts[1] != "asc"@ && parts[1] != "desc"@ {
            Err(SortFault::InvalidAsc(parts[1]))
        } else if parts.len() > 2 {
            Err(SortFault::InvalidCondition)
        } else {
            Ok((k, parts[1] == "asc"@))
        },
    }
}

/// The sort conditions of a sequence of pieces, or the fault of the first refused piece.
pub open spec fn sort_items(segs: Seq<Seq<char>>, fields: Seq<Seq<char>>) -> Result<Seq<(int, bool)>, SortFault>
    decreases segs.len(),
{
    if segs.len() == 0 {
        Ok(Seq::empty())
    } else {
        match sort_items(segs.drop_last(), fields) {
            Err(f) => Err(f),
            Ok(v) => match sort_item(segs.last(), fields) {
                Err(f) => Err(f),
                Ok(c) => Ok(v.push(c)),
            },
        }
    }
}

/// The sort conditions of a sort argument `key:asc,key:desc,...`.
pub open spec fn sort_spec(args: Seq<char>, fields: Seq<Seq<char>>) -> Result<Seq<(int, bool)>, SortFault> {
    sort_items(split_on(args, ','), fields)
}

/// The pairs of positions and directions, with the positions as integers.
pub open spec fn pairs_view(v: Seq<(usize, bool)>) -> Seq<(int, bool)> {
    v.map_values(|p: (usize, bool)| (p.0 as int, p.1))
}

/// The position of `key` among `fields`.
fn find_field(fields: &Vec<String>, key: &String) -> (r: Option<usize>)
    ensures
        match field_index(strs(fields@), key@) {
            None => r is None,
            Some(i) => r == Some(i as usize),
        },
{
    let mut i: usize = 0;
    while i < fields.len()
        invariant
            i <= fields.len(),
            field_index(strs(fields@).take(i as int), key@) is None,
        decreases fields.len() - i,
    {
        proof {
            assert(strs(fields@).take(i + 1).drop_last() =~= strs(fields@).take(i as int));
        }
        if fields[i] == *key {
            proof {
                lemma_field_index_prefix(strs(fields@), key@, i + 1);
            }
            return Some(i);
        }
        i += 1;
    }
    proof {
        assert(strs(fields@).take(fields.len() as int) =~= strs(fields@));
    }
    None
}

/// A key found in a prefix is found at the same position in the whole.
proof fn lemma_field_index_prefix(fields: Seq<Seq<char>>, key: Seq<char>, n: int)
    requires
        0 <= n <= fields.len(),
        field_index(fields.take(n), key) is Some,
    ensures
        field_index(fields, key) == field_index(fields.take(n), key),
    decreases fields.len() - n,
{
    if n < fields.len() {
        assert(fields.take(n + 1).drop_last() =~= fields.take(n));
        lemma_field_index_prefix(fields, key, n + 1);
    } else {
        assert(fields.take(n) =~= fields);
    }
}

/// Parses one sort condition.
fn parse_sort_item(seg: &String, fields: &Vec<String>) -> (r: Result<(usize, bool), ApiError>)
    ensures
        match sort_item(seg@, strs(fields@)) {
            Ok(c) => r matches Ok(p) && p.0 as int == c.0 && p.1 == c.1,
            Err(f) => r matches Err(e) && e@ == ErrView::Param(sort_fault_text(f)),
        },
{
    let parts = split_str(seg.as_str(), ':');
    proof {
        lemma_split_on_nonempty(seg@, ':');
    }
    let key = &parts[0];
    let k = match find_field(fields, key) {
        None => {
            let mut msg = String::from_str("invalid sort key ");
            msg.append(key.as_str());
            return Err(ApiError::Param(msg));
        },
        Some(k) => k,
    };
    if parts.len() < 2 {
        return Err(ApiError::Param(String::from_str("wrong sort argument")));
    }
    let dir = &parts[1];
    let asc = if *dir == String::from_str("asc") {
        true
    } else if *dir == String::from_str("desc") {
        false
    } else {
        let mut msg = String::from_str("invalid sort asc ");
        msg.append(dir.as_str());
        return Err(ApiError::Param(msg));
    };
    if parts.len() > 2 {
        return Err(ApiError::Param(String::from_str("invalid sort condition")));
    }
    let nfields = fields.len();
    proof {
        lemma_field_index(strs(fields@), key@);
        let sp = split_on(seg@, ':');
        assert(sp[0] == key@);
        assert(field_index(strs(fields@), key@) is Some);
        let fi = field_index(strs(fields@), key@)->Some_0;
        assert(0 <= fi < fields@.len());
        assert(k as int == fi);
    }
    Ok((k, asc))
}

/// Parses a sort argument `key:asc,key:desc,...` against the sort keys `fields`: the position
/// of each key and whether it is ascending, or the parameter error of the first refused
/// condition.
pub fn parse_sort_args(args: &str, fields: &Vec<String>) -> (r: Result<Vec<(usize, bool)>, ApiError>)
    ensures
        match sort_spec(args@, strs(fields@)) {
            Ok(v) => r matches Ok(c) && pairs_view(c@) == v,
            Err(f) => r matches Err(e) && e@ == ErrView::Param(sort_fault_text(f)),
        },
{
    let segs = split_str(args, ',');
    let mut conds: Vec<(usize, bool)> = Vec::new();
    let mut i: usize = 0;
    proof {
        assert(strs(segs@).take(0) =~= Seq::<Seq<char>>::empty());
        assert(pairs_view(conds@) =~= Seq::<(int, bool)>::empty());
    }
    while i < segs.len()
        invariant
            i <= segs.len(),
            strs(segs@) == split_on(args@, ','),
            sort_items(strs(segs@).take(i as int), strs(fields@)) == Ok::<Seq<(int, bool)>, SortFault>(
                pairs_view(conds@),
            ),
        decreases segs.len() - i,
    {
        proof {
            assert(strs(segs@).take(i + 1).drop_last() =~= strs(segs@).take(i as int));
            assert(strs(segs@).take(i + 1).last() == segs@[i as int]@);
        }
        let c = parse_sort_item(&segs[i], fields);
        match c {
            Err(e) => {
                proof {
                    lemma_sort_items_err(strs(segs@), strs(fields@), i + 1);
                }
                return Err(e);
            },
            Ok(p) => {
                let ghost old_conds = conds@;
                conds.push(p);
                proof {
                    assert(pairs_view(conds@) =~= pairs_view(old_conds).push((p.0 as int, p.1)));
                }
            },
        }
        i += 1;
    }
    proof {
        assert(strs(segs@).take(segs.len() as int) =~= strs(segs@));
    }
    Ok(conds)
}

/// A fault in a prefix is the fault of the whole.
proof fn lemma_sort_items_err(segs: Seq<Seq<char>>, fields: Seq<Seq<char>>, n: int)
    requires
        0 <= n <= segs.len(),
        sort_items(segs.take(n), fields) is Err,
    ensures
        sort_items(segs, fields) == sort_items(segs.take(n), fields),
    decreases segs.len() - n,
{
    if n < segs.len() {
        assert(segs.take(n + 1).drop_last() =~= segs.take(n));
        lemma_sort_items_err(segs, fields, n + 1);
    } else {
        assert(segs.take(n) =~= segs);
    }
}

/// The positions of the conditions of an accepted sort argument are positions of `fields`.
pub proof fn lemma_sort_items_in_range(segs: Seq<Seq<char>>, fields: Seq<Seq<char>>)
    ensures
        sort_items(segs, fields) matches Ok(v) ==> forall|k: int|
            0 <= k < v.len() ==> 0 <= (#[trigger] v[k]).0 < fields.len(),
    decreases segs.len(),
{
    if segs.len() > 0 {
        lemma_sort_items_in_range(segs.drop_last(), fields);
        let parts = split_on(segs.last(), ':');
        lemma_field_index(fields, parts[0]);
    }
}

/// One sort condition: a key and whether the order is ascending.
#[derive(PartialEq, Eq, Structural, Debug)]
pub struct SortCond<K> {
    pub key: K,
    pub asc: bool,
}

/// The sort conditions as pairs.
pub open spec fn conds_view<K>(v: Seq<SortCond<K>>) -> Seq<(K, bool)> {
    v.map_values(|c: SortCond<K>| (c.key, c.asc))
}

/// The sort conditions of an optional sort argument against the sort keys named `fields`
/// (the key at each position of `keys`): `default` when there is no argument.
pub open spec fn sort_result_in<K>(
    args: Option<Seq<char>>,
    fields: Seq<Seq<char>>,
    keys: Seq<K>,
    default: Seq<(K, bool)>,
) -> Result<Seq<(K, bool)>, SortFault> {
    match args {
        None => Ok(default),
        Some(a) => match sort_spec(a, fields) {
            Ok(items) => Ok(items.map_values(|p: (int, bool)| (keys[p.0], p.1))),
            Err(f) => Err(f),
        },
    }
}

/// The sort conditions of a list request against the sort keys named `fields`: the
/// conditions of the sort argument, or the parameter error of its first refused condition;
/// `default` without argument.
pub fn sort_conds<K: Copy>(
    sort_args: &Option<String>,
    fields: &Vec<String>,
    keys: &Vec<K>,
    default: Vec<SortCond<K>>,
) -> (r: Result<Vec<SortCond<K>>, ApiError>)
    requires
        keys.len() == fields.len(),
    ensures
        match sort_result_in(opt_view(*sort_args), strs(fields@), keys@, conds_view(default@)) {
            Ok(s) => r matches Ok(v) && conds_view(v@) == s,
            Err(f) => r matches Err(e) && e@ == ErrView::Param(sort_fault_text(f)),
        },
{
    match sort_args {
        None => Ok(default),
        Some(a) => {
            let items = parse_sort_args(a.as_str(), fields)?;
            let ghost spec_items = sort_spec(a@, strs(fields@))->Ok_0;
            proof {
                lemma_sort_items_in_range(split_on(a@, ','), strs(fields@));
            }
            let mut v: Vec<SortCond<K>> = Vec::new();
            let mut i: usize = 0;
            while i < items.len()
                invariant
                    i <= items.len(),
                    keys.len() == fields.len(),
                    spec_items.len() == items.len(),
                    pairs_view(items@) == spec_items,
                    forall|k: int| 0 <= k < spec_items.len() ==> 0 <= (#[trigger] spec_items[k]).0 < fields.len(),
                    conds_view(v@) == spec_items.take(i as int).map_values(
                        |p: (int, bool)| (keys@[p.0], p.1),
                    ),
                decreases items.len() - i,
            {
                proof {
                    assert(spec_items[i as int] == (items@[i as int].0 as int, items@[i as int].1));
                }
                let j = items[i].0;
                let c = SortCond { key: keys[j], asc: items[i].1 };
                let ghost prev = v@;
                v.push(c);
                proof {
                    assert(conds_view(v@) =~= conds_view(prev).push((c.key, c.asc)));
                    assert(spec_items.take(i + 1) =~= spec_items.take(i as int).push(spec_items[i as int]));
                    assert(spec_items.take(i + 1).map_values(|p: (int, bool)| (keys@[p.0], p.1))
                        =~= spec_items.take(i as int).map_values(
                        |p: (int, bool)| (keys@[p.0], p.1),
                    ).push((c.key, c.asc)));
                }
                i += 1;
            }
            proof {
                assert(spec_items.take(items.len() as int) =~= spec_items);
            }
            Ok(v)
        },
    }
}

/// The items of a list chunk joined by commas; without the start of the list, each item is
/// preceded by a comma since earlier chunks came before.
pub open spec fn list_body(items: Seq<Seq<char>>, with_start: bool) -> Seq<char>
    decreases items.len(),
{
    if items.len() == 0 {
        Seq::empty()
    } else {
        let sep = if with_start && items.len() == 1 {
            Seq::empty()
        } else {
            seq![',']
        };
        list_body(items.drop_last(), with_start) + sep + items.last()
    }
}

/// A chunk of a streamed JSON list: the opening bracket (`[` for the array format, else
/// `{"data":[`) when it is the start, the items, and the closing bracket (`]` or `]}`) when it
/// is the end.
pub open spec fn frame_spec(items: Seq<Seq<char>>, with_start: bool, with_end: bool, array: bool) -> Seq<char> {
    let start = if !with_start {
        Seq::empty()
    } else if array {
        "["@
    } else {
        "{\"data\":["@
    };
    let end = if !with_end {
        Seq::empty()
    } else if array {
        "]"@
    } else {
        "]}"@
    };
    start + list_body(items, with_start) + end
}

/// Builds a chunk of a streamed JSON list from the JSON texts of its items.
pub fn frame_list(items: &Vec<String>, with_start: bool, with_end: bool, array: bool) -> (s: String)
    ensures
        s@ == frame_spec(strs(items@), with_start, with_end, array),
{
    let mut s = if !with_start {
        String::new()
    } else if array {
        String::from_str("[")
    } else {
        String::from_str("{\"data\":[")
    };
    let ghost start = s@;
    let mut i: usize = 0;
    proof {
        assert(strs(items@).take(0) =~= Seq::<Seq<char>>::empty());
        assert(s@ =~= start + list_body(strs(items@).take(0), with_start));
    }
    while i < items.len()
        invariant
            i <= items.len(),
            s@ == start + list_body(strs(items@).take(i as int), with_start),
        decreases items.len() - i,
    {
        proof {
            assert(strs(items@).take(i + 1).drop_last() =~= strs(items@).take(i as int));
        }
        if !(with_start && i == 0) {
            push_char(&mut s, ',');
        }
        s.append(items[i].as_str());
        proof {
            let sep = if with_start && i == 0 {
                Seq::<char>::empty()
            } else {
                seq![',']
            };
            assert(s@ =~= start + list_body(strs(items@).take(i as int), with_start) + sep
                + items@[i as int]@);
        }
        i += 1;
    }
    proof {
        assert(strs(items@).take(items.len() as int) =~= strs(items@));
    }
    if with_end {
        if array {
            s.append("]");
        } else {
            s.append("]}");
        }
    }
    s
}

/// The body of a list split in two chunks is the body of the first chunk (as the start of
/// the list) followed by the body of the second (as a continuation), when the first chunk is
/// not empty.
pub proof fn lemma_list_body_concat(a: Seq<Seq<char>>, b: Seq<Seq<char>>)
    requires
        a.len() > 0,
    ensures
        list_body(a + b, true) == list_body(a, true) + list_body(b, false),
    decreases b.len(),
{
    if b.len() == 0 {
        assert(a + b =~= a);
        assert(list_body(a, true) + list_body(b, false) =~= list_body(a, true));
    } else {
        lemma_list_body_concat(a, b.drop_last());
        assert((a + b).drop_last() =~= a + b.drop_last());
        assert((a + b).last() == b.last());
        assert(list_body(a + b, true) =~= list_body(a + b.drop_last(), true) + seq![','] + b.last());
        assert(list_body(b, false) =~= list_body(b.drop_last(), false) + seq![','] + b.last());
    }
}

/// A streamed list reads as the list in one piece: the chunk that starts the list followed
/// by the chunk that ends it (`end`) or continues it gives the chunk of all their items,
/// when the first chunk is not empty.
pub proof fn lemma_stream_concat(a: Seq<Seq<char>>, b: Seq<Seq<char>>, end: bool, array: bool)
    requires
        a.len() > 0,
    ensures
        frame_spec(a, true, false, array) + frame_spec(b, false, end, array) == frame_spec(
            a + b,
            true,
            end,
            array,
        ),
{
    lemma_list_body_concat(a, b);
    let start = if array {
        "["@
    } else {
        "{\"data\":["@
    };
    let close = if !end {
        Seq::<char>::empty()
    } else if array {
        "]"@
    } else {
        "]}"@
    };
    assert(frame_spec(a, true, false, array) =~= start + list_body(a, true));
    assert(frame_spec(b, false, end, array) =~= list_body(b, false) + close);
    assert(frame_spec(a + b, true, end, array) =~= start + list_body(a + b, true) + close);
}

/// The progress of a streamed list: whether its start was sent and whether it is done.
#[derive(Debug)]
pub struct ListStream {
    pub started: bool,
    pub done: bool,
}

impl ListStream {
    /// A stream before its first chunk.
    pub fn new() -> (s: ListStream)
        ensures
            !s.started,
            !s.done,
    {
        ListStream { started: false, done: false }
    }

    /// The chunk of the next page of a streamed list, from the JSON texts of its items: the
    /// first chunk starts the list, the chunk of the last page (`last_page`, the page without
    /// a cursor to the next one) ends it.
    pub fn next_chunk(&mut self, items: &Vec<String>, last_page: bool, array: bool) -> (chunk: String)
        requires
            !old(self).done,
        ensures
            chunk@ == frame_spec(strs(items@), !old(self).started, last_page, array),
            final(self).started,
            final(self).done == last_page,
    {
        let chunk = frame_list(items, !self.started, last_page, array);
        self.started = true;
        self.done = last_page;
        chunk
    }
}

/// The chunks of the pages after the first one of a streamed list, the last of them ending
/// the list.
pub open spec fn continuation_chunks(pages: Seq<Seq<Seq<char>>>, array: bool) -> Seq<char>
    decreases pages.len(),
{
    if pages.len() == 0 {
        Seq::empty()
    } else {
        frame_spec(pages[0], false, pages.len() == 1, array) + continuation_chunks(
            pages.drop_first(),
            array,
        )
    }
}

proof fn lemma_stream_pages_nonempty(pages: Seq<Seq<Seq<char>>>, array: bool)
    requires
        pages.len() > 0,
        pages[0].len() > 0,
    ensures
        frame_spec(pages[0], true, pages.len() == 1, array) + continuation_chunks(
            pages.drop_first(),
            array,
        ) == frame_spec(pages.flatten(), true, true, array),
    decreases pages.len(),
{
    if pages.len() == 1 {
        assert(pages.drop_first() =~= Seq::<Seq<Seq<char>>>::empty());
        assert(pages.drop_first().flatten() =~= Seq::<Seq<char>>::empty());
        assert(pages.flatten() =~= pages[0]);
        assert(frame_spec(pages[0], true, true, array) + continuation_chunks(
            pages.drop_first(),
            array,
        ) =~= frame_spec(pages[0], true, true, array));
    } else {
        let p0 = pages[0];
        let p1 = pages[1];
        let rest = pages.skip(2);
        let merged = seq![p0 + p1] + rest;
        assert(merged.len() == pages.len() - 1);
        assert(merged[0] == p0 + p1);
        lemma_stream_pages_nonempty(merged, array);
        assert(merged.drop_first() =~= rest);
        assert(pages.drop_first().drop_first() =~= rest);
        assert(pages.drop_first()[0] == p1);
        let end = pages.len() == 2;
        assert(continuation_chunks(pages.drop_first(), array) == frame_spec(p1, false, end, array)
            + continuation_chunks(rest, array));
        lemma_stream_concat(p0, p1, end, array);
        assert(frame_spec(p0, true, false, array) + frame_spec(p1, false, end, array) + continuation_chunks(rest, array)
            =~= frame_spec(p0, true, false, array) + (frame_spec(p1, false, end, array) + continuation_chunks(rest, array)));
        assert(pages.flatten() =~= merged.flatten()) by {
            assert(pages.flatten() == p0 + pages.drop_first().flatten());
            assert(pages.drop_first().flatten() == p1 + rest.flatten());
            assert(merged.flatten() == (p0 + p1) + rest.flatten());
        }
    }
}

/// The chunks of pages that are all empty: the closing bracket of the last one.
proof fn lemma_empty_continuation(pages: Seq<Seq<Seq<char>>>, array: bool)
    requires
        pages.len() > 0,
        forall|i: int| 0 <= i < pages.len() ==> (#[trigger] pages[i]).len() == 0,
    ensures
        continuation_chunks(pages, array) == frame_spec(Seq::empty(), false, true, array),
        pages.flatten() == Seq::<Seq<char>>::empty(),
    decreases pages.len(),
{
    assert(pages[0] =~= Seq::<Seq<char>>::empty());
    if pages.len() == 1 {
        assert(pages.drop_first() =~= Seq::<Seq<Seq<char>>>::empty());
        assert(continuation_chunks(pages.drop_first(), array) =~= Seq::<char>::empty());
        assert(pages[0] == Seq::<Seq<char>>::empty());
        assert(continuation_chunks(pages, array) == frame_spec(pages[0], false, true, array)
            + continuation_chunks(pages.drop_first(), array));
        assert(continuation_chunks(pages, array) =~= frame_spec(Seq::empty(), false, true, array));
        assert(pages.flatten() == pages[0] + pages.drop_first().flatten());
    } else {
        let rest = pages.drop_first();
        assert forall|i: int| 0 <= i < rest.len() implies (#[trigger] rest[i]).len() == 0 by {
            assert(rest[i] == pages[i + 1]);
        }
        lemma_empty_continuation(rest, array);
        assert(frame_spec(pages[0], false, false, array) =~= Seq::<char>::empty());
        assert(continuation_chunks(pages, array) =~= continuation_chunks(rest, array));
        assert(pages.flatten() == pages[0] + rest.flatten());
    }
}

/// A list streamed page by page reads as the whole list in one piece: the chunk of the first
/// page (which starts the list, and ends it when it is the only page) followed by the chunks
/// of the other pages is the list of all their items, when the first page is not empty or
/// the pages after it are all empty.
pub proof fn lemma_stream_pages(pages: Seq<Seq<Seq<char>>>, array: bool)
    requires
        pages.len() > 0,
        pages[0].len() > 0 || forall|i: int| 1 <= i < pages.len() ==> (#[trigger] pages[i]).len() == 0,
    ensures
        frame_spec(pages[0], true, pages.len() == 1, array) + continuation_chunks(
            pages.drop_first(),
            array,
        ) == frame_spec(pages.flatten(), true, true, array),
{
    if pages[0].len() > 0 {
        lemma_stream_pages_nonempty(pages, array);
    } else if pages.len() == 1 {
        assert(pages.drop_first() =~= Seq::<Seq<Seq<char>>>::empty());
        assert(pages.flatten() == pages[0] + pages.drop_first().flatten());
        assert(pages.flatten() =~= pages[0]);
        assert(frame_spec(pages[0], true, true, array) + continuation_chunks(
            pages.drop_first(),
            array,
        ) =~= frame_spec(pages[0], true, true, array));
    } else {
        let rest = pages.drop_first();
        assert forall|i: int| 0 <= i < rest.len() implies (#[trigger] rest[i]).len() == 0 by {
            assert(rest[i] == pages[i + 1]);
        }
        lemma_empty_continuation(rest, array);
        assert(pages.flatten() == pages[0] + rest.flatten());
        assert(pages.flatten() =~= Seq::<Seq<char>>::empty());
        assert(pages[0] =~= Seq::<Seq<char>>::empty());
        assert(frame_spec(pages[0], true, false, array) + frame_spec(Seq::empty(), false, true, array)
            =~= frame_spec(pages.flatten(), true, true, array));
    }
}

/// Where a list request stands.
#[derive(PartialEq, Eq, Structural, Clone, Copy, Debug)]
pub enum ListState {
    /// Nothing done yet.
    Start,
    /// Waiting for the unit check.
    UnitCheck,
    /// Waiting for the first page.
    FirstPage,
    /// Streaming: waiting for the next page.
    Paging,
    /// Answered.
    Done,
}

/// What happened to a list request.
#[derive(Debug)]
pub enum ListEvent {
    /// The request arrived.
    Start,
    /// The unit check found the unit (or not).
    UnitFound(bool),
    /// A page of the list, as the JSON texts of its presented items, and whether the
    /// database has a cursor to a further page.
    Page { items: Vec<String>, has_cursor: bool },
    /// The database failed, with its error text.
    DbError(String),
}

/// What to do next for a list request, with the query options `O` of the resource.
#[derive(Debug)]
pub enum ListAction<O> {
    /// Look up the unit with this query.
    CheckUnit(UnitQueryCond),
    /// Query the first page with these options.
    Query(O),
    /// Answer in one piece: the whole list, or the error.
    Reply(Result<String, ApiError>),
    /// Send a chunk of the streamed list; then query the next page with `next`, or end.
    Send { chunk: String, next: Option<O> },
    /// End the stream (a further page could not be read).
    Stop,
}

/// The view of the outcome of a unit filter: the unit to check, none, or the error.
pub open spec fn unit_outcome(u: Result<Option<String>, ApiError>) -> Result<Option<Seq<char>>, ErrView> {
    match u {
        Ok(None) => Ok(None),
        Ok(Some(s)) => Ok(Some(s@)),
        Err(e) => Err(e@),
    }
}

/// The view of the outcome of the query options: the error of the sort argument, if any.
pub open spec fn opts_outcome<O>(o: Result<(O, O), ApiError>) -> Result<(), ErrView> {
    match o {
        Ok(_) => Ok(()),
        Err(e) => Err(e@),
    }
}

/// The outcome of the sort argument of a list request: the parameter error, if any.
pub open spec fn sort_outcome<K>(r: Result<Seq<(K, bool)>, SortFault>) -> Result<(), ErrView> {
    match r {
        Ok(_) => Ok(()),
        Err(f) => Err(ErrView::Param(sort_fault_text(f))),
    }
}

/// After the unit filter passed: the error of the sort argument, or the query of the first
/// page with options that `first_ok` describes.
pub open spec fn proceed_spec<O>(opts: Result<(), ErrView>, first_ok: spec_fn(O) -> bool, r: (ListState, ListAction<O>)) -> bool {
    match opts {
        Err(e) => r.0 == ListState::Done && (r.1 matches ListAction::Reply(Err(x)) && x@ == e),
        Ok(_) => r.0 == ListState::FirstPage && (r.1 matches ListAction::Query(o) && first_ok(o)),
    }
}

/// The steps of a list request (`GET .../list`), as the list APIs take them:
/// - at the start, the unit filter may refuse the request, or name a unit to check (as a
///   member); without a unit to check, the first page is queried (unless the sort argument
///   is refused);
/// - a unit check that finds nothing answers `err_broker_unit_not_exist`, a failed one a
///   database error `check unit error: ...`;
/// - a first page without cursor is answered as the whole list; with a cursor, it is sent
///   as the first chunk and the next page is queried with the options `stream_ok` describes;
///   a failed first query answers the database error;
/// - each further page is sent as a chunk, the last one (without cursor) ending the list; a
///   failed query ends the stream;
/// - any other event ends the request.
pub open spec fn list_step_spec<O>(
    unit: Result<Option<Seq<char>>, ErrView>,
    opts: Result<(), ErrView>,
    first_ok: spec_fn(O) -> bool,
    stream_ok: spec_fn(O) -> bool,
    array: bool,
    user_id: Seq<char>,
    roles: Seq<(String, bool)>,
    st: ListState,
    ev: ListEvent,
    r: (ListState, ListAction<O>),
) -> bool {
    match st {
        ListState::Start => match ev {
            ListEvent::Start => match unit {
                Err(e) => r.0 == ListState::Done && (r.1 matches ListAction::Reply(Err(x)) && x@ == e),
                Ok(Some(u)) => r.0 == ListState::UnitCheck && (r.1 matches ListAction::CheckUnit(c)
                    && unit_cond_spec(c, user_id, roles, u, false)),
                Ok(None) => proceed_spec(opts, first_ok, r),
            },
            _ => r.0 == ListState::Done && r.1 is Stop,
        },
        ListState::UnitCheck => match ev {
            ListEvent::UnitFound(true) => proceed_spec(opts, first_ok, r),
            ListEvent::UnitFound(false) => r.0 == ListState::Done && (r.1 matches ListAction::Reply(
                Err(x),
            ) && x@ == ErrView::Req(BrokerReq::UnitNotExist)),
            ListEvent::DbError(e) => r.0 == ListState::Done && (r.1 matches ListAction::Reply(Err(x))
                && x@ == ErrView::Db("check unit error: "@ + e@)),
            _ => r.0 == ListState::Done && r.1 is Stop,
        },
        ListState::FirstPage => match ev {
            ListEvent::Page { items, has_cursor } => if !has_cursor {
                r.0 == ListState::Done && (r.1 matches ListAction::Reply(Ok(t)) && t@ == frame_spec(
                    strs(items@),
                    true,
                    true,
                    array,
                ))
            } else if opts is Ok {
                r.0 == ListState::Paging && (r.1 matches ListAction::Send { chunk, next: Some(o) }
                    && chunk@ == frame_spec(strs(items@), true, false, array) && stream_ok(o))
            } else {
                r.0 == ListState::Done && r.1 is Stop
            },
            ListEvent::DbError(e) => r.0 == ListState::Done && (r.1 matches ListAction::Reply(Err(x))
                && x@ == ErrView::Db(e@)),
            _ => r.0 == ListState::Done && r.1 is Stop,
        },
        ListState::Paging => match ev {
            ListEvent::Page { items, has_cursor } => if !has_cursor {
                r.0 == ListState::Done && (r.1 matches ListAction::Send { chunk, next: None }
                    && chunk@ == frame_spec(strs(items@), false, true, array))
            } else if opts is Ok {
                r.0 == ListState::Paging && (r.1 matches ListAction::Send { chunk, next: Some(o) }
                    && chunk@ == frame_spec(strs(items@), false, false, array) && stream_ok(o))
            } else {
                r.0 == ListState::Done && r.1 is Stop
            },
            _ => r.0 == ListState::Done && r.1 is Stop,
        },
        ListState::Done => r.0 == ListState::Done && r.1 is Stop,
    }
}

fn proceed<O>(opts: Result<(O, O), ApiError>, Ghost(first_ok): Ghost<spec_fn(O) -> bool>) -> (r: (ListState, ListAction<O>))
    requires
        opts matches Ok(p) ==> first_ok(p.0),
    ensures
        proceed_spec(opts_outcome(opts), first_ok, r),
{
    match opts {
        Err(e) => (ListState::Done, ListAction::Reply(Err(e))),
        Ok(p) => (ListState::FirstPage, ListAction::Query(p.0)),
    }
}

/// One step of a list request (see [`list_step_spec`]), given the outcome of the resource's
/// unit filter and its query options for the first and the further pages.
pub fn list_step<O>(
    user_id: &str,
    roles: &Vec<(String, bool)>,
    unit: Result<Option<String>, ApiError>,
    opts: Result<(O, O), ApiError>,
    array: bool,
    st: ListState,
    ev: ListEvent,
    Ghost(first_ok): Ghost<spec_fn(O) -> bool>,
    Ghost(stream_ok): Ghost<spec_fn(O) -> bool>,
) -> (r: (ListState, ListAction<O>))
    requires
        opts matches Ok(p) ==> first_ok(p.0) && stream_ok(p.1),
    ensures
        list_step_spec(
            unit_outcome(unit),
            opts_outcome(opts),
            first_ok,
            stream_ok,
            array,
            user_id@,
            roles@,
            st,
            ev,
            r,
        ),
{
    match st {
        ListState::Start => match ev {
            ListEvent::Start => match unit {
                Err(e) => (ListState::Done, ListAction::Reply(Err(e))),
                Ok(Some(u)) => (
                    ListState::UnitCheck,
                    ListAction::CheckUnit(check_unit_cond(user_id, roles, u.as_str(), false)),
                ),
                Ok(None) => proceed(opts, Ghost(first_ok)),
            },
            _ => (ListState::Done, ListAction::Stop),
        },
        ListState::UnitCheck => match ev {
            ListEvent::UnitFound(found) => {
                if found {
                    proceed(opts, Ghost(first_ok))
                } else {
                    (ListState::Done, ListAction::Reply(Err(ApiError::Req(BrokerReq::UnitNotExist))))
                }
            },
            ListEvent::DbError(e) => {
                let mut msg = String::from_str("check unit error: ");
                msg.append(e.as_str());
                (ListState::Done, ListAction::Reply(Err(ApiError::Db(msg))))
            },
            _ => (ListState::Done, ListAction::Stop),
        },
        ListState::FirstPage => match ev {
            ListEvent::Page { items, has_cursor } => {
                if !has_cursor {
                    (ListState::Done, ListAction::Reply(Ok(frame_list(&items, true, true, array))))
                } else {
                    let chunk = frame_list(&items, true, false, array);
                    match opts {
                        Ok(p) => (ListState::Paging, ListAction::Send { chunk, next: Some(p.1) }),
                        Err(_) => (ListState::Done, ListAction::Stop),
                    }
                }
            },
            ListEvent::DbError(e) => (ListState::Done, ListAction::Reply(Err(ApiError::Db(e)))),
            _ => (ListState::Done, ListAction::Stop),
        },
        ListState::Paging => match ev {
            ListEvent::Page { items, has_cursor } => {
                if !has_cursor {
                    let chunk = frame_list(&items, false, true, array);
                    (ListState::Done, ListAction::Send { chunk, next: None })
                } else {
                    let chunk = frame_list(&items, false, false, array);
                    match opts {
                        Ok(p) => (ListState::Paging, ListAction::Send { chunk, next: Some(p.1) }),
                        Err(_) => (ListState::Done, ListAction::Stop),
                    }
                }
            },
            _ => (ListState::Done, ListAction::Stop),
        },
        ListState::Done => (ListState::Done, ListAction::Stop),
    }
}

} // verus!
