//! The format in which the control utility lists the virtual ports, one line
//! per port, and the pairs that such a list describes.

use std::collections::HashMap;
use vstd::prelude::*;
use vstd::string::*;
use crate::com0com_manager::{PortPair, PortPairView};
use crate::decimal::{parse_u32, parse_u32_range};
use crate::text::{
    after_first_token, chars_of, find_char, index_of, index_of_bounds, next_token, range_is,
    tokens,
};

verus! {

broadcast use vstd::std_specs::hash::group_hash_axioms;

/// The name that says a port is unbound.
pub open spec fn dash() -> Seq<char> {
    seq!['-']
}

/// Reads a port's prefix: `CNCA<n>` is the A side of pair `n`, `CNCB<n>` its
/// B side, where `<n>` is the numeral of a `u32`.
pub open spec fn cnc_prefix(word: Seq<char>) -> Option<(u32, bool)> {
    if seq!['C', 'N', 'C', 'A'].is_prefix_of(word) {
        match parse_u32(word.skip(4)) {
            Some(id) => Some((id, true)),
            None => None,
        }
    } else if seq!['C', 'N', 'C', 'B'].is_prefix_of(word) {
        match parse_u32(word.skip(4)) {
            Some(id) => Some((id, false)),
            None => None,
        }
    } else {
        None
    }
}

/// What one field of a line does to the port's name.
pub enum FieldEffect {
    /// Nothing: no `=`, another key, or the value `-`.
    Ignored,
    /// `PortName=<value>`: the name, unless a later field says otherwise.
    Candidate(Seq<char>),
    /// `RealPortName=<value>`: the name, whatever else the line holds.
    Definitive(Seq<char>),
}

pub open spec fn field_effect(field: Seq<char>) -> FieldEffect {
    let eq = index_of(field, '=');
    if eq >= field.len() {
        FieldEffect::Ignored
    } else {
        let key = field.take(eq as int);
        let value = field.skip(eq as int + 1);
        if value == dash() {
            FieldEffect::Ignored
        } else if key == "PortName"@ {
            FieldEffect::Candidate(value)
        } else if key == "RealPortName"@ {
            FieldEffect::Definitive(value)
        } else {
            FieldEffect::Ignored
        }
    }
}

/// The value of a field that binds a name.
pub open spec fn field_value(field: Seq<char>) -> Option<Seq<char>> {
    match field_effect(field) {
        FieldEffect::Ignored => None,
        FieldEffect::Candidate(value) => Some(value),
        FieldEffect::Definitive(value) => Some(value),
    }
}

/// The name that a line gives its port: `candidate` to begin with, replaced
/// by each bound `PortName` in turn, until a bound `RealPortName` settles it.
pub open spec fn resolve_name(candidate: Seq<char>, fields: Seq<Seq<char>>) -> Seq<char>
    decreases fields.len(),
{
    if fields.len() == 0 {
        candidate
    } else {
        match field_effect(fields[0]) {
            FieldEffect::Definitive(value) => value,
            FieldEffect::Candidate(value) => resolve_name(value, fields.drop_first()),
            FieldEffect::Ignored => resolve_name(candidate, fields.drop_first()),
        }
    }
}

/// What one line of the list says: which side of which pair, under which name.
pub struct LineRecord {
    pub pair_id: u32,
    pub side_a: bool,
    pub name: Seq<char>,
}

/// The fields of a line: what stands between whitespace or commas behind
/// its first word.
pub open spec fn line_fields(line: Seq<char>) -> Seq<Seq<char>> {
    tokens(after_first_token(line, false), true)
}

/// A line speaks of a port where its first word is a port's prefix. The
/// port's name is that prefix, unless the fields of the line give another.
pub open spec fn line_record(line: Seq<char>) -> Option<LineRecord> {
    let words = tokens(line, false);
    if words.len() == 0 {
        None
    } else {
        match cnc_prefix(words[0]) {
            None => None,
            Some((pair_id, side_a)) => Some(
                LineRecord { pair_id, side_a, name: resolve_name(words[0], line_fields(line)) },
            ),
        }
    }
}

/// The lines of a text: what stands between its line feeds.
pub open spec fn lines(text: Seq<char>) -> Seq<Seq<char>>
    decreases text.len(),
{
    let n = index_of(text, '\n');
    if n >= text.len() {
        seq![text]
    } else {
        seq![text.take(n as int)] + lines(text.skip(n as int + 1))
    }
}

/// The records of some lines, in the order of the lines.
pub open spec fn records_of(lines: Seq<Seq<char>>) -> Seq<LineRecord>
    decreases lines.len(),
{
    if lines.len() == 0 {
        Seq::empty()
    } else {
        let before = records_of(lines.drop_last());
        match line_record(lines.last()) {
            Some(record) => before.push(record),
            None => before,
        }
    }
}

/// The name under which the last record of the given side of pair `id` lists
/// it; `None` where no record speaks of that side.
pub open spec fn last_name(records: Seq<LineRecord>, id: u32, side_a: bool) -> Option<Seq<char>>
    decreases records.len(),
{
    if records.len() == 0 {
        None
    } else if records.last().pair_id == id && records.last().side_a == side_a {
        Some(records.last().name)
    } else {
        last_name(records.drop_last(), id, side_a)
    }
}

/// The pair `id` as the records describe it: present where both of its sides
/// are listed.
pub open spec fn pair_of(records: Seq<LineRecord>, id: u32) -> Option<PortPairView> {
    match (last_name(records, id, true), last_name(records, id, false)) {
        (Some(port_a), Some(port_b)) => Some(PortPairView { pair_id: id, port_a, port_b }),
        _ => None,
    }
}

/// The pairs with an id below `bound`, by ascending id.
pub open spec fn pairs_below(records: Seq<LineRecord>, bound: nat) -> Seq<PortPairView>
    decreases bound,
{
    if bound == 0 {
        Seq::empty()
    } else {
        let lower = pairs_below(records, (bound - 1) as nat);
        match pair_of(records, (bound - 1) as u32) {
            Some(pair) => lower.push(pair),
            None => lower,
        }
    }
}

/// One more than the greatest pair id.
pub open spec fn id_limit() -> nat {
    0x1_0000_0000
}

/// The pairs that a listing describes: each pair of which both sides are
/// listed, by ascending id.
pub open spec fn listing(text: Seq<char>) -> Seq<PortPairView> {
    pairs_below(records_of(lines(text)), id_limit())
}

/// Reads `chars[from..to]` as a port's prefix.
pub(crate) fn parse_prefix_range(chars: &Vec<char>, from: usize, to: usize) -> (r: Option<(u32, bool)>)
    requires
        from <= to <= chars.len(),
    ensures
        r == cnc_prefix(chars@.subrange(from as int, to as int)),
{
    let ghost word = chars@.subrange(from as int, to as int);
    if to - from < 4 {
        return None;
    }
    let side = chars[from + 3];
    if chars[from] != 'C' || chars[from + 1] != 'N' || chars[from + 2] != 'C' || (side != 'A'
        && side != 'B') {
        proof {
            assert(word[0] == chars@[from as int]);
            assert(word[1] == chars@[from + 1]);
            assert(word[2] == chars@[from + 2]);
            assert(word[3] == chars@[from + 3]);
            assert(word.subrange(0, 4)[0] == word[0]);
            assert(word.subrange(0, 4)[1] == word[1]);
            assert(word.subrange(0, 4)[2] == word[2]);
            assert(word.subrange(0, 4)[3] == word[3]);
        }
        return None;
    }
    proof {
        assert(word.skip(4) =~= chars@.subrange(from + 4, to as int));
        assert(word.subrange(0, 4) =~= seq!['C', 'N', 'C', side]);
        assert(seq!['C', 'N', 'C', 'A'][3] == 'A');
        assert(seq!['C', 'N', 'C', 'B'][3] == 'B');
    }
    match parse_u32_range(chars, from + 4, to) {
        Some(id) => Some((id, side == 'A')),
        None => None,
    }
}

/// What a field does to the name, with each value as a range of positions.
enum FieldRange {
    Ignored,
    Candidate(usize, usize),
    Definitive(usize, usize),
}

/// Reads the field `chars[from..to]`.
fn read_field(
    chars: &Vec<char>,
    from: usize,
    to: usize,
    port_name: &Vec<char>,
    real_port_name: &Vec<char>,
) -> (r: FieldRange)
    requires
        from <= to <= chars.len(),
        port_name@ == "PortName"@,
        real_port_name@ == "RealPortName"@,
    ensures
        match field_effect(chars@.subrange(from as int, to as int)) {
            FieldEffect::Ignored => r is Ignored,
            FieldEffect::Candidate(value) => r matches FieldRange::Candidate(a, b) && from <= a
                <= b <= to && chars@.subrange(a as int, b as int) == value,
            FieldEffect::Definitive(value) => r matches FieldRange::Definitive(a, b) && from <= a
                <= b <= to && chars@.subrange(a as int, b as int) == value,
        },
{
    let ghost field = chars@.subrange(from as int, to as int);
    let eq = find_char(chars, from, to, '=');
    if eq >= to {
        return FieldRange::Ignored;
    }
    proof {
        assert(field.take(eq - from) =~= chars@.subrange(from as int, eq as int));
        assert(field.skip(eq - from + 1) =~= chars@.subrange(eq + 1, to as int));
    }
    if to - eq == 2 && chars[eq + 1] == '-' {
        proof {
            assert(chars@.subrange(eq + 1, to as int) =~= dash());
        }
        return FieldRange::Ignored;
    }
    proof {
        if chars@.subrange(eq + 1, to as int) == dash() {
            assert(chars@.subrange(eq + 1, to as int)[0] == '-');
        }
    }
    if range_is(chars, from, eq, port_name) {
        FieldRange::Candidate(eq + 1, to)
    } else if range_is(chars, from, eq, real_port_name) {
        FieldRange::Definitive(eq + 1, to)
    } else {
        FieldRange::Ignored
    }
}

/// Finds the name that the fields in `chars[fields..to]` give the port whose
/// prefix is `chars[from..until]`.
fn resolve_range(
    chars: &Vec<char>,
    from: usize,
    until: usize,
    fields: usize,
    to: usize,
    port_name: &Vec<char>,
    real_port_name: &Vec<char>,
) -> (r: (usize, usize))
    requires
        from <= until <= chars.len(),
        fields <= to <= chars.len(),
        port_name@ == "PortName"@,
        real_port_name@ == "RealPortName"@,
    ensures
        r.0 <= r.1 <= chars.len(),
        chars@.subrange(r.0 as int, r.1 as int) == resolve_name(
            chars@.subrange(from as int, until as int),
            tokens(chars@.subrange(fields as int, to as int), true),
        ),
{
    let mut name: (usize, usize) = (from, until);
    let mut pos: usize = fields;
    loop
        invariant
            name.0 <= name.1 <= chars.len(),
            fields <= pos <= to <= chars.len(),
            port_name@ == "PortName"@,
            real_port_name@ == "RealPortName"@,
            resolve_name(
                chars@.subrange(name.0 as int, name.1 as int),
                tokens(chars@.subrange(pos as int, to as int), true),
            ) == resolve_name(
                chars@.subrange(from as int, until as int),
                tokens(chars@.subrange(fields as int, to as int), true),
            ),
        decreases to - pos,
    {
        match next_token(chars, pos, to, true) {
            None => {
                return name;
            },
            Some((start, end)) => {
                match read_field(chars, start, end, port_name, real_port_name) {
                    FieldRange::Definitive(a, b) => {
                        return (a, b);
                    },
                    FieldRange::Candidate(a, b) => {
                        name = (a, b);
                    },
                    FieldRange::Ignored => {},
                }
                pos = end;
            },
        }
    }
}

/// Reads the line `chars[from..to]` of `text`.
fn read_line(
    text: &str,
    chars: &Vec<char>,
    from: usize,
    to: usize,
    port_name: &Vec<char>,
    real_port_name: &Vec<char>,
) -> (r: Option<(u32, bool, String)>)
    requires
        from <= to <= chars.len(),
        chars@ == text@,
        port_name@ == "PortName"@,
        real_port_name@ == "RealPortName"@,
    ensures
        match line_record(chars@.subrange(from as int, to as int)) {
            None => r is None,
            Some(record) => r matches Some((pair_id, side_a, name)) && pair_id == record.pair_id
                && side_a == record.side_a && name@ == record.name,
        },
{
    match next_token(chars, from, to, false) {
        None => None,
        Some((start, end)) => {
            match parse_prefix_range(chars, start, end) {
                None => None,
                Some((pair_id, side_a)) => {
                    let (a, b) = resolve_range(
                        chars,
                        start,
                        end,
                        end,
                        to,
                        port_name,
                        real_port_name,
                    );
                    let name = String::from_str(text.substring_char(a, b));
                    Some((pair_id, side_a, name))
                },
            }
        },
    }
}

/// What the lines read so far say of the two sides of one pair.
struct Sides {
    port_a: Option<String>,
    port_b: Option<String>,
}

/// Whether any record speaks of pair `id`.
spec fn seen(records: Seq<LineRecord>, id: u32) -> bool {
    last_name(records, id, true) is Some || last_name(records, id, false) is Some
}

spec fn has_id(ids: Seq<u32>, id: u32) -> bool {
    exists|i: int| 0 <= i < ids.len() && #[trigger] ids[i] == id
}

/// The map holds, for each pair that the records speak of, the last name of
/// each side, and `ids` holds the ids of those pairs in ascending order.
spec fn sides_cover(ids: Seq<u32>, sides: Map<u32, Sides>, records: Seq<LineRecord>) -> bool {
    &&& forall|i: int, j: int| 0 <= i < j < ids.len() ==> #[trigger] ids[i] < #[trigger] ids[j]
    &&& forall|i: int| 0 <= i < ids.len() ==> sides.contains_key(#[trigger] ids[i])
    &&& forall|id: u32| #[trigger]
        sides.contains_key(id) ==> {
            &&& sides[id].port_a.deep_view() == last_name(records, id, true)
            &&& sides[id].port_b.deep_view() == last_name(records, id, false)
        }
    &&& forall|id: u32| #[trigger] seen(records, id) ==> has_id(ids, id)
}

/// Where the last record is about, it names; elsewhere the earlier records do.
proof fn last_name_after_push(
    records: Seq<LineRecord>,
    record: LineRecord,
    id: u32,
    side_a: bool,
)
    ensures
        last_name(records.push(record), id, side_a) == if record.pair_id == id && record.side_a
            == side_a {
            Some(record.name)
        } else {
            last_name(records, id, side_a)
        },
{
    assert(records.push(record).drop_last() =~= records);
}

/// Takes one more record into the map, and its id into the ids where it is
/// new.
fn upsert(
    ids: &mut Vec<u32>,
    sides: &mut HashMap<u32, Sides>,
    pair_id: u32,
    side_a: bool,
    name: String,
    Ghost(records): Ghost<Seq<LineRecord>>,
)
    requires
        sides_cover(old(ids)@, old(sides)@, records),
    ensures
        sides_cover(
            final(ids)@,
            final(sides)@,
            records.push(LineRecord { pair_id, side_a, name: name@ }),
        ),
{
    let ghost record = LineRecord { pair_id, side_a, name: name@ };
    let ghost grown = records.push(record);
    let ghost before = ids@;
    let ghost held = sides@;
    let mut i: usize = 0;
    while i < ids.len() && ids[i] < pair_id
        invariant
            i <= ids.len(),
            ids@ == before,
            forall|k: int| 0 <= k < i ==> (#[trigger] before[k]) < pair_id,
        decreases ids.len() - i,
    {
        i = i + 1;
    }
    let found = i < ids.len() && ids[i] == pair_id;
    proof {
        if !found && has_id(before, pair_id) {
            let k = choose|k: int| 0 <= k < before.len() && before[k] == pair_id;
            if k > i {
                assert(before[i as int] < before[k]);
            }
        }
        last_name_after_push(records, record, pair_id, true);
        last_name_after_push(records, record, pair_id, false);
    }
    let entry = match sides.remove(&pair_id) {
        Some(earlier) => {
            if side_a {
                Sides { port_a: Some(name), port_b: earlier.port_b }
            } else {
                Sides { port_a: earlier.port_a, port_b: Some(name) }
            }
        },
        None => {
            proof {
                if found {
                    assert(held.contains_key(before[i as int]));
                }
                assert(!seen(records, pair_id));
            }
            if side_a {
                Sides { port_a: Some(name), port_b: None }
            } else {
                Sides { port_a: None, port_b: Some(name) }
            }
        },
    };
    sides.insert(pair_id, entry);
    if !found {
        ids.insert(i, pair_id);
    }
    proof {
        let after = ids@;
        assert(sides@ =~= held.insert(pair_id, entry));
        assert forall|id: u32| #[trigger] sides@.contains_key(id) implies {
            &&& sides@[id].port_a.deep_view() == last_name(grown, id, true)
            &&& sides@[id].port_b.deep_view() == last_name(grown, id, false)
        } by {
            last_name_after_push(records, record, id, true);
            last_name_after_push(records, record, id, false);
            if id != pair_id {
                assert(held.contains_key(id));
            }
        }
        assert forall|k: int| 0 <= k < after.len() implies sides@.contains_key(
            #[trigger] after[k],
        ) by {
            if found || k < i {
                assert(after[k] == before[k]);
                assert(held.contains_key(before[k]));
            } else if k > i {
                assert(after[k] == before[k - 1]);
                assert(held.contains_key(before[k - 1]));
            }
        }
        assert forall|a: int, b: int| 0 <= a < b < after.len() implies #[trigger] after[a]
            < #[trigger] after[b] by {
            if !found {
                let from_a = if a < i {
                    a
                } else {
                    a - 1
                };
                let from_b = if b < i {
                    b
                } else {
                    b - 1
                };
                if a != i {
                    assert(after[a] == before[from_a]);
                }
                if b != i {
                    assert(after[b] == before[from_b]);
                }
                if a == i {
                    assert(before[i as int] <= before[from_b]);
                }
            }
        }
        assert forall|id: u32| #[trigger] seen(grown, id) implies has_id(after, id) by {
            last_name_after_push(records, record, id, true);
            last_name_after_push(records, record, id, false);
            if id == pair_id {
                assert(after[i as int] == id);
            } else {
                assert(seen(records, id));
                let k = choose|k: int| 0 <= k < before.len() && before[k] == id;
                let to = if k < i || found {
                    k
                } else {
                    k + 1
                };
                assert(after[to] == before[k]);
            }
        }
    }
}

/// Below and above a stretch of ids of which no pair is complete, the same
/// pairs are listed.
proof fn pairs_below_gap(records: Seq<LineRecord>, low: nat, high: nat)
    requires
        low <= high <= id_limit(),
        forall|id: u32| low <= id < high ==> #[trigger] pair_of(records, id) is None,
    ensures
        pairs_below(records, high) == pairs_below(records, low),
    decreases high - low,
{
    if low < high {
        assert(pair_of(records, (high - 1) as u32) is None);
        pairs_below_gap(records, low, (high - 1) as nat);
    }
}

/// The pairs of which the map holds both sides, in the order of `ids`.
fn complete_pairs(
    ids: &Vec<u32>,
    sides: &HashMap<u32, Sides>,
    Ghost(records): Ghost<Seq<LineRecord>>,
) -> (pairs: Vec<PortPair>)
    requires
        sides_cover(ids@, sides@, records),
    ensures
        pairs.deep_view() == pairs_below(records, id_limit()),
{
    let mut pairs: Vec<PortPair> = Vec::new();
    let ghost mut low: nat = 0;
    let mut i: usize = 0;
    proof {
        assert(pairs.deep_view() =~= pairs_below(records, 0));
    }
    while i < ids.len()
        invariant
            i <= ids.len(),
            sides_cover(ids@, sides@, records),
            low <= id_limit(),
            forall|k: int| 0 <= k < i ==> (#[trigger] ids@[k]) < low,
            forall|k: int| i <= k < ids.len() ==> (#[trigger] ids@[k]) >= low,
            pairs.deep_view() == pairs_below(records, low),
        decreases ids.len() - i,
    {
        let id = ids[i];
        proof {
            assert forall|other: u32| low <= other < id implies #[trigger] pair_of(
                records,
                other,
            ) is None by {
                if seen(records, other) {
                    let k = choose|k: int| 0 <= k < ids@.len() && ids@[k] == other;
                    if k > i {
                        assert(ids@[i as int] < ids@[k]);
                    }
                }
            }
            pairs_below_gap(records, low, id as nat);
            assert(sides@.contains_key(ids@[i as int]));
        }
        let ghost before = pairs.deep_view();
        match sides.get(&id) {
            Some(entry) => {
                match (&entry.port_a, &entry.port_b) {
                    (Some(a), Some(b)) => {
                        let pair = PortPair { pair_id: id, port_a: a.clone(), port_b: b.clone() };
                        pairs.push(pair);
                        proof {
                            assert(pairs.deep_view() =~= before.push(
                                pair_of(records, id).unwrap(),
                            ));
                        }
                    },
                    _ => {
                        proof {
                            assert(pair_of(records, id) is None);
                        }
                    },
                }
            },
            None => {},
        }
        proof {
            assert(pairs.deep_view() == pairs_below(records, (id + 1) as nat));
            low = (id + 1) as nat;
            assert forall|k: int| i + 1 <= k < ids.len() implies (#[trigger] ids@[k]) >= low by {
                assert(ids@[i as int] < ids@[k]);
            }
        }
        i = i + 1;
    }
    proof {
        assert forall|other: u32| low <= other < id_limit() implies #[trigger] pair_of(
            records,
            other,
        ) is None by {
            if seen(records, other) {
                let k = choose|k: int| 0 <= k < ids@.len() && ids@[k] == other;
                assert(ids@[k] == other);
            }
        }
        pairs_below_gap(records, low, id_limit());
    }
    pairs
}

/// Reads a listing: the pairs of which both sides are listed, by ascending id.
pub fn parse_listing(text: &str) -> (pairs: Vec<PortPair>)
    ensures
        pairs.deep_view() == listing(text@),
{
    let chars = chars_of(text);
    let port_name = chars_of("PortName");
    let real_port_name = chars_of("RealPortName");
    let n = chars.len();
    let mut ids: Vec<u32> = Vec::new();
    let mut sides: HashMap<u32, Sides> = HashMap::new();
    let ghost mut done: Seq<Seq<char>> = Seq::empty();
    let mut pos: usize = 0;
    proof {
        assert(chars@.subrange(0, n as int) =~= chars@);
        assert(done + lines(chars@) =~= lines(chars@));
    }
    loop
        invariant_except_break
            pos <= n,
            lines(chars@) == done + lines(chars@.subrange(pos as int, n as int)),
        invariant
            n == chars.len(),
            chars@ == text@,
            port_name@ == "PortName"@,
            real_port_name@ == "RealPortName"@,
            sides_cover(ids@, sides@, records_of(done)),
        ensures
            lines(chars@) == done,
        decreases n - pos,
    {
        let end = find_char(&chars, pos, n, '\n');
        let ghost rest = chars@.subrange(pos as int, n as int);
        let ghost line = chars@.subrange(pos as int, end as int);
        proof {
            index_of_bounds(rest, '\n');
            assert(rest.take(end - pos) =~= line);
            assert((done.push(line)).drop_last() =~= done);
        }
        match read_line(text, &chars, pos, end, &port_name, &real_port_name) {
            Some((pair_id, side_a, name)) => {
                upsert(&mut ids, &mut sides, pair_id, side_a, name, Ghost(records_of(done)));
            },
            None => {},
        }
        proof {
            if end < n {
                assert(rest.skip(end - pos + 1) =~= chars@.subrange(end + 1, n as int));
                assert(lines(rest) == seq![line] + lines(chars@.subrange(end + 1, n as int)));
                assert(done + lines(rest) =~= done.push(line) + lines(
                    chars@.subrange(end + 1, n as int),
                ));
            } else {
                assert(rest =~= line);
                assert(done + lines(rest) =~= done.push(line));
            }
            done = done.push(line);
        }
        if end >= n {
            break ;
        }
        pos = end + 1;
    }
    complete_pairs(&ids, &sides, Ghost(records_of(done)))
}

/// By ascending id, none twice.
pub open spec fn ascending(pairs: Seq<PortPairView>) -> bool {
    forall|i: int, j: int|
        0 <= i < j < pairs.len() ==> (#[trigger] pairs[i]).pair_id < (#[trigger] pairs[j]).pair_id
}

proof fn pairs_below_shape(records: Seq<LineRecord>, bound: nat)
    requires
        bound <= id_limit(),
    ensures
        ascending(pairs_below(records, bound)),
        forall|i: int|
            0 <= i < pairs_below(records, bound).len() ==> {
                let pair = #[trigger] pairs_below(records, bound)[i];
                pair.pair_id < bound && pair_of(records, pair.pair_id) == Some(pair)
            },
        forall|id: u32|
            id < bound && pair_of(records, id) is Some ==> pairs_below(records, bound).contains(
                #[trigger] pair_of(records, id).unwrap(),
            ),
    decreases bound,
{
    if bound > 0 {
        let lower = pairs_below(records, (bound - 1) as nat);
        let all = pairs_below(records, bound);
        pairs_below_shape(records, (bound - 1) as nat);
        let top = (bound - 1) as u32;
        assert forall|id: u32| id < bound && pair_of(records, id) is Some implies all.contains(
            #[trigger] pair_of(records, id).unwrap(),
        ) by {
            let pair = pair_of(records, id).unwrap();
            if id == top {
                assert(all[all.len() - 1] == pair);
            } else {
                assert(lower.contains(pair));
                let k = choose|k: int| 0 <= k < lower.len() && lower[k] == pair;
                assert(all[k] == pair);
            }
        }
        assert forall|i: int| 0 <= i < all.len() implies {
            let pair = #[trigger] all[i];
            pair.pair_id < bound && pair_of(records, pair.pair_id) == Some(pair)
        } by {
            if i < lower.len() {
                assert(all[i] == lower[i]);
            }
        }
        assert forall|i: int, j: int| 0 <= i < j < all.len() implies (#[trigger] all[i]).pair_id
            < (#[trigger] all[j]).pair_id by {
            assert(all[i] == lower[i]);
            if j < lower.len() {
                assert(all[j] == lower[j]);
            }
        }
    }
}

/// A listing names a pair exactly where both of its sides are listed, and
/// then once, under the names of the last line of each side. Where a side is
/// listed by no line, the listing holds no pair of that id.
pub proof fn listing_holds_complete_pairs(text: Seq<char>, id: u32)
    ensures
        match pair_of(records_of(lines(text)), id) {
            Some(pair) => exists|i: int|
                0 <= i < listing(text).len() && #[trigger] listing(text)[i] == pair && forall|
                    j: int,
                |
                    0 <= j < listing(text).len() && (#[trigger] listing(text)[j]).pair_id == id
                        ==> j == i,
            None => forall|j: int|
                0 <= j < listing(text).len() ==> (#[trigger] listing(text)[j]).pair_id != id,
        },
{
    let records = records_of(lines(text));
    let all = listing(text);
    pairs_below_shape(records, id_limit());
    match pair_of(records, id) {
        Some(pair) => {
            assert(all.contains(pair_of(records, id).unwrap()));
            let i = choose|i: int| 0 <= i < all.len() && all[i] == pair;
            assert forall|j: int| 0 <= j < all.len() && (#[trigger] all[j]).pair_id == id implies j
                == i by {
                if j < i {
                    assert(all[j].pair_id < all[i].pair_id);
                } else if i < j {
                    assert(all[i].pair_id < all[j].pair_id);
                }
            }
        },
        None => {
            assert forall|j: int| 0 <= j < all.len() implies (#[trigger] all[j]).pair_id != id by {
                assert(pair_of(records, all[j].pair_id) == Some(all[j]));
            }
        },
    }
}

/// A text has one listing, and it ascends by pair id: two readings of the
/// same text are the same, in the same order.
pub proof fn listing_is_stable(text: Seq<char>, first: Seq<PortPairView>, second: Seq<PortPairView>)
    requires
        first == listing(text),
        second == listing(text),
    ensures
        first == second,
        ascending(first),
{
    pairs_below_shape(records_of(lines(text)), id_limit());
}

/// A bound `RealPortName` gives the port its name whatever `PortName` fields
/// stand before it, and nothing behind it is looked at.
pub proof fn real_port_name_wins(candidate: Seq<char>, fields: Seq<Seq<char>>, at: int)
    requires
        0 <= at < fields.len(),
        field_effect(fields[at]) is Definitive,
        forall|j: int| 0 <= j < at ==> !(#[trigger] field_effect(fields[j]) is Definitive),
    ensures
        Some(resolve_name(candidate, fields)) == field_value(fields[at]),
    decreases at,
{
    if at > 0 {
        let rest = fields.drop_first();
        assert(!(field_effect(fields[0]) is Definitive));
        assert(rest[at - 1] == fields[at]);
        assert forall|j: int| 0 <= j < at - 1 implies !(#[trigger] field_effect(
            rest[j],
        ) is Definitive) by {
            assert(rest[j] == fields[j + 1]);
        }
        match field_effect(fields[0]) {
            FieldEffect::Candidate(value) => real_port_name_wins(value, rest, at - 1),
            _ => real_port_name_wins(candidate, rest, at - 1),
        }
    }
}

} // verus!
