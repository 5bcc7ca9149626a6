//! Dispatcher model: the operations the control loop consumes, the state
//! snapshot it publishes, how a request selects devices, and the trimming
//! of saved controller mappings. The loop itself, which owns the device
//! handles and the channels, lives outside the crate and leans on these
//! pieces for every decision that is not I/O.

use vstd::prelude::*;

use crate::config::{Group, Mappings};
use crate::device::Command;

verus! {

/// A command fan-out: the addressed device ids and the command itself.
#[derive(Clone, Debug)]
pub struct CommandRequest {
    pub devices: Vec<String>,
    pub command: Command,
}

/// A disconnect request for a set of devices.
#[derive(Clone, Debug)]
pub struct DisconnectRequest {
    pub devices: Vec<String>,
}

/// A reconnect request for a set of devices.
#[derive(Clone, Debug)]
pub struct ReconnectRequest {
    pub devices: Vec<String>,
}

/// One unit of work for the dispatcher, consumed to completion before the
/// next.
#[derive(Clone, Debug)]
pub enum Operation {
    Command(CommandRequest),
    Disconnect(DisconnectRequest),
    Reconnect(ReconnectRequest),
    Shutdown,
    SaveDefaultControls(Vec<Mappings>),
}

/// One device's standing in the published snapshot.
#[derive(Clone, Debug)]
pub struct DeviceStatus {
    pub id: String,
    pub name: String,
    pub connected: bool,
}

/// The published snapshot: a per-process instance tag, the groups, every
/// device's standing, and the saved controller mappings.
#[derive(Clone, Debug)]
pub struct State {
    pub instance: String,
    pub groups: Vec<Group>,
    pub devices: Vec<DeviceStatus>,
    pub default_controls: Option<Vec<Mappings>>,
}

/// A request addressed to `id`: some listed id is it.
pub open spec fn spec_id_selected(wanted: Seq<String>, id: Seq<char>) -> bool {
    exists|i: int| 0 <= i < wanted.len() && wanted[i]@ == id
}

/// Tests whether a request's device list names `id`.
pub fn device_selected(wanted: &Vec<String>, id: &String) -> (r: bool)
    ensures
        r == spec_id_selected(wanted@, id@),
{
    let mut i: usize = 0;
    while i < wanted.len()
        invariant
            i <= wanted.len(),
            forall|j: int| 0 <= j < i ==> wanted@[j]@ != id@,
        decreases wanted.len() - i,
    {
        if wanted[i] == *id {
            return true;
        }
        i = i + 1;
    }
    false
}

/// Lexicographic order on byte strings: the empty string first, then by
/// the first differing byte.
pub open spec fn spec_bytes_le(a: Seq<u8>, b: Seq<u8>) -> bool
    decreases a.len(),
{
    if a.len() == 0 {
        true
    } else if b.len() == 0 {
        false
    } else if a[0] < b[0] {
        true
    } else if a[0] > b[0] {
        false
    } else {
        spec_bytes_le(a.drop_first(), b.drop_first())
    }
}

/// Strictly before in lexicographic order.
pub open spec fn spec_bytes_lt(a: Seq<u8>, b: Seq<u8>) -> bool {
    spec_bytes_le(a, b) && a != b
}

/// Lexicographic order is total.
pub proof fn lemma_bytes_le_total(a: Seq<u8>, b: Seq<u8>)
    ensures
        spec_bytes_le(a, b) || spec_bytes_le(b, a),
    decreases a.len(),
{
    if a.len() > 0 && b.len() > 0 && a[0] == b[0] {
        lemma_bytes_le_total(a.drop_first(), b.drop_first());
    }
}

/// Lexicographic order in both directions means equality.
pub proof fn lemma_bytes_le_antisymmetric(a: Seq<u8>, b: Seq<u8>)
    requires
        spec_bytes_le(a, b),
        spec_bytes_le(b, a),
    ensures
        a == b,
    decreases a.len(),
{
    if a.len() == 0 {
        assert(b.len() == 0);
        assert(a =~= b);
    } else {
        assert(b.len() > 0);
        assert(a[0] == b[0]);
        lemma_bytes_le_antisymmetric(a.drop_first(), b.drop_first());
        assert(a.len() == b.len());
        assert forall|i: int| 0 <= i < a.len() implies a[i] == b[i] by {
            if i > 0 {
                assert(a[i] == a.drop_first()[i - 1]);
                assert(b[i] == b.drop_first()[i - 1]);
            }
        }
        assert(a =~= b);
    }
}

/// Lexicographic order is transitive.
pub proof fn lemma_bytes_le_transitive(a: Seq<u8>, b: Seq<u8>, c: Seq<u8>)
    requires
        spec_bytes_le(a, b),
        spec_bytes_le(b, c),
    ensures
        spec_bytes_le(a, c),
    decreases a.len(),
{
    if a.len() > 0 && b.len() > 0 && c.len() > 0 && a[0] == b[0] && b[0] == c[0] {
        lemma_bytes_le_transitive(a.drop_first(), b.drop_first(), c.drop_first());
    }
}

/// Strict order chains through a shared middle element.
pub proof fn lemma_bytes_lt_transitive(a: Seq<u8>, b: Seq<u8>, c: Seq<u8>)
    requires
        spec_bytes_lt(a, b),
        spec_bytes_lt(b, c),
    ensures
        spec_bytes_lt(a, c),
{
    lemma_bytes_le_transitive(a, b, c);
    if a == c {
        lemma_bytes_le_antisymmetric(a, b);
    }
}

/// Compares two byte strings for lexicographic order.
pub fn bytes_le(a: &[u8], b: &[u8]) -> (r: bool)
    ensures
        r == spec_bytes_le(a@, b@),
{
    let mut i: usize = 0;
    proof {
        assert(a@.skip(0) =~= a@);
        assert(b@.skip(0) =~= b@);
    }
    loop
        invariant
            i <= a@.len(),
            i <= b@.len(),
            spec_bytes_le(a@, b@) == spec_bytes_le(a@.skip(i as int), b@.skip(i as int)),
        decreases a@.len() - i,
    {
        if i == a.len() {
            return true;
        }
        if i == b.len() {
            return false;
        }
        let x = *vstd::slice::slice_index_get(a, i);
        let y = *vstd::slice::slice_index_get(b, i);
        proof {
            assert(a@.skip(i as int)[0] == a@[i as int]);
            assert(b@.skip(i as int)[0] == b@[i as int]);
        }
        if x < y {
            return true;
        }
        if x > y {
            return false;
        }
        i = i + 1;
        proof {
            assert(a@.skip(i - 1).drop_first() =~= a@.skip(i as int));
            assert(b@.skip(i - 1).drop_first() =~= b@.skip(i as int));
        }
    }
}

/// Compares two byte strings for equality.
pub fn bytes_eq(a: &[u8], b: &[u8]) -> (r: bool)
    ensures
        r == (a@ == b@),
{
    if a.len() != b.len() {
        return false;
    }
    let mut i: usize = 0;
    while i < a.len()
        invariant
            i <= a@.len(),
            a@.len() == b@.len(),
            forall|j: int| 0 <= j < i ==> a@[j] == b@[j],
        decreases a@.len() - i,
    {
        if *vstd::slice::slice_index_get(a, i) != *vstd::slice::slice_index_get(b, i) {
            return false;
        }
        i = i + 1;
    }
    proof {
        assert(a@ =~= b@);
    }
    true
}

/// The UTF-8 bytes of an id, the key the device roster is ordered by.
pub open spec fn spec_id_bytes(s: String) -> Seq<u8> {
    vstd::utf8::encode_utf8(s@)
}

/// A device roster: ids strictly ascending in byte order, so each id
/// appears once.
pub open spec fn spec_roster_sorted(l: Seq<String>) -> bool {
    forall|i: int, j: int|
        0 <= i < j < l.len() ==> spec_bytes_lt(
            #[trigger] spec_id_bytes(l[i]),
            #[trigger] spec_id_bytes(l[j]),
        )
}

/// The roster holds an id with these bytes.
pub open spec fn spec_roster_contains(l: Seq<String>, b: Seq<u8>) -> bool {
    exists|k: int| 0 <= k < l.len() && spec_id_bytes(l[k]) == b
}

/// Files one id into a sorted roster: the roster stays strictly sorted and
/// gains the id, and nothing else changes.
pub fn insert_id_sorted(list: &mut Vec<String>, id: &String)
    requires
        spec_roster_sorted(old(list)@),
    ensures
        spec_roster_sorted(final(list)@),
        spec_roster_contains(final(list)@, spec_id_bytes(*id)),
        forall|b: Seq<u8>|
            #[trigger] spec_roster_contains(old(list)@, b) ==> spec_roster_contains(
                final(list)@,
                b,
            ),
        forall|b: Seq<u8>|
            #[trigger] spec_roster_contains(final(list)@, b) ==> spec_roster_contains(
                old(list)@,
                b,
            ) || b == spec_id_bytes(*id),
{
    let ghost target = spec_id_bytes(*id);
    let ghost orig = list@;
    let mut p: usize = 0;
    loop
        invariant
            p <= list@.len(),
            list@ == orig,
            spec_roster_sorted(orig),
            target == spec_id_bytes(*id),
            forall|k: int| 0 <= k < p ==> spec_bytes_lt(#[trigger] spec_id_bytes(orig[k]), target),
        ensures
            list@ == orig,
            p <= orig.len(),
            forall|k: int| 0 <= k < p ==> spec_bytes_lt(#[trigger] spec_id_bytes(orig[k]), target),
            p < orig.len() ==> (spec_bytes_lt(target, spec_id_bytes(orig[p as int])) || target
                == spec_id_bytes(orig[p as int])),
        decreases list@.len() - p,
    {
        if p == list.len() {
            break ;
        }
        let le = bytes_le(list[p].as_str().as_bytes(), id.as_str().as_bytes());
        let eq = bytes_eq(list[p].as_str().as_bytes(), id.as_str().as_bytes());
        if eq {
            break ;
        }
        if !le {
            proof {
                lemma_bytes_le_total(spec_id_bytes(orig[p as int]), target);
            }
            break ;
        }
        p = p + 1;
    }
    if p < list.len() {
        let eq = bytes_eq(list[p].as_str().as_bytes(), id.as_str().as_bytes());
        if eq {
            return ;
        }
    }
    proof {
        orig.insert_ensures(p as int, *id);
    }
    list.insert(p, id.clone());
    proof {
        let newl = list@;
        assert(spec_id_bytes(newl[p as int]) == target);
        assert forall|i: int, j: int| 0 <= i < j < newl.len() implies spec_bytes_lt(
            #[trigger] spec_id_bytes(newl[i]),
            #[trigger] spec_id_bytes(newl[j]),
        ) by {
            if j < p {
            } else if j == p {
                assert(newl[i] == orig[i]);
            } else {
                assert(newl[j] == orig[j - 1]);
                if i < p {
                    assert(newl[i] == orig[i]);
                } else if i == p {
                    if j - 1 > p {
                        lemma_bytes_lt_transitive(
                            target,
                            spec_id_bytes(orig[p as int]),
                            spec_id_bytes(orig[j - 1]),
                        );
                    }
                } else {
                    assert(newl[i] == orig[i - 1]);
                }
            }
        }
        assert forall|b: Seq<u8>| #[trigger]
            spec_roster_contains(orig, b) implies spec_roster_contains(newl, b) by {
            let k = choose|k: int| 0 <= k < orig.len() && spec_id_bytes(orig[k]) == b;
            if k < p {
                assert(spec_id_bytes(newl[k]) == b);
            } else {
                assert(spec_id_bytes(newl[k + 1]) == b);
            }
        }
        assert forall|b: Seq<u8>| #[trigger]
            spec_roster_contains(newl, b) implies spec_roster_contains(orig, b) || b
            == target by {
            let k = choose|k: int| 0 <= k < newl.len() && spec_id_bytes(newl[k]) == b;
            if k < p {
                assert(spec_id_bytes(orig[k]) == b);
            } else if k > p {
                assert(spec_id_bytes(orig[k - 1]) == b);
            }
        }
    }
}

/// The ids the groups use, each once, in ascending byte order: the roster
/// the dispatcher builds its drivers from.
pub fn used_device_ids(groups: &Vec<Group>) -> (r: Vec<String>)
    ensures
        spec_roster_sorted(r@),
        forall|b: Seq<u8>|
            #[trigger] spec_roster_contains(r@, b) <==> exists|g: int, k: int|
                0 <= g < groups@.len() && 0 <= k < groups@[g].devices@.len() && spec_id_bytes(
                    #[trigger] groups@[g].devices@[k],
                ) == b,
{
    let mut r: Vec<String> = Vec::new();
    let mut g: usize = 0;
    while g < groups.len()
        invariant
            g <= groups@.len(),
            spec_roster_sorted(r@),
            forall|b: Seq<u8>|
                #[trigger] spec_roster_contains(r@, b) <==> exists|p: int, k: int|
                    0 <= p < g && 0 <= k < groups@[p].devices@.len() && spec_id_bytes(
                        #[trigger] groups@[p].devices@[k],
                    ) == b,
        decreases groups.len() - g,
    {
        let ids = &groups[g].devices;
        let mut k: usize = 0;
        while k < ids.len()
            invariant
                k <= ids@.len(),
                g < groups@.len(),
                ids@ == groups@[g as int].devices@,
                spec_roster_sorted(r@),
                forall|b: Seq<u8>|
                    #[trigger] spec_roster_contains(r@, b) <==> (exists|p: int, m: int|
                        0 <= p < g && 0 <= m < groups@[p].devices@.len() && spec_id_bytes(
                            #[trigger] groups@[p].devices@[m],
                        ) == b) || (exists|m: int|
                        0 <= m < k && spec_id_bytes(#[trigger] ids@[m]) == b),
            decreases ids.len() - k,
        {
            let ghost prev = r@;
            insert_id_sorted(&mut r, &ids[k]);
            proof {
                let kb = spec_id_bytes(ids@[k as int]);
                assert forall|b: Seq<u8>| #[trigger]
                    spec_roster_contains(r@, b) implies ((exists|p: int, m: int|
                    0 <= p < g && 0 <= m < groups@[p].devices@.len() && spec_id_bytes(
                        #[trigger] groups@[p].devices@[m],
                    ) == b) || (exists|m: int|
                    0 <= m < k + 1 && spec_id_bytes(#[trigger] ids@[m]) == b)) by {
                    if spec_roster_contains(prev, b) {
                        if exists|m: int| 0 <= m < k && spec_id_bytes(#[trigger] ids@[m]) == b {
                            let m = choose|m: int|
                                0 <= m < k && spec_id_bytes(#[trigger] ids@[m]) == b;
                            assert(0 <= m < k + 1 && spec_id_bytes(ids@[m]) == b);
                        }
                    } else {
                        assert(b == kb);
                        assert(0 <= k < k + 1 && spec_id_bytes(ids@[k as int]) == b);
                    }
                }
                assert forall|b: Seq<u8>|
                    #![trigger spec_roster_contains(r@, b)]
                    ((exists|p: int, m: int|
                        0 <= p < g && 0 <= m < groups@[p].devices@.len() && spec_id_bytes(
                            #[trigger] groups@[p].devices@[m],
                        ) == b) || (exists|m: int|
                        0 <= m < k + 1 && spec_id_bytes(#[trigger] ids@[m]) == b))
                        implies spec_roster_contains(r@, b) by {
                    if exists|m: int| 0 <= m < k + 1 && spec_id_bytes(#[trigger] ids@[m]) == b {
                        let m = choose|m: int|
                            0 <= m < k + 1 && spec_id_bytes(#[trigger] ids@[m]) == b;
                        if m < k {
                            assert(spec_roster_contains(prev, b));
                        } else {
                            assert(b == kb);
                        }
                    } else {
                        assert(spec_roster_contains(prev, b));
                    }
                }
            }
            k = k + 1;
        }
        proof {
            assert forall|b: Seq<u8>| #[trigger]
                spec_roster_contains(r@, b) implies (exists|p: int, m: int|
                0 <= p < g + 1 && 0 <= m < groups@[p].devices@.len() && spec_id_bytes(
                    #[trigger] groups@[p].devices@[m],
                ) == b) by {
                if exists|p: int, m: int|
                    0 <= p < g && 0 <= m < groups@[p].devices@.len() && spec_id_bytes(
                        #[trigger] groups@[p].devices@[m],
                    ) == b {
                    let (p, m) = choose|p: int, m: int|
                        0 <= p < g && 0 <= m < groups@[p].devices@.len() && spec_id_bytes(
                            #[trigger] groups@[p].devices@[m],
                        ) == b;
                    assert(0 <= p < g + 1 && 0 <= m < groups@[p].devices@.len() && spec_id_bytes(
                        groups@[p].devices@[m],
                    ) == b);
                } else {
                    let m = choose|m: int|
                        0 <= m < ids@.len() && spec_id_bytes(#[trigger] ids@[m]) == b;
                    assert(0 <= g < g + 1 && 0 <= m < groups@[g as int].devices@.len()
                        && spec_id_bytes(groups@[g as int].devices@[m]) == b);
                }
            }
            assert forall|b: Seq<u8>|
                #![trigger spec_roster_contains(r@, b)]
                (exists|p: int, m: int|
                    0 <= p < g + 1 && 0 <= m < groups@[p].devices@.len() && spec_id_bytes(
                        #[trigger] groups@[p].devices@[m],
                    ) == b) implies spec_roster_contains(r@, b) by {
                let (p, m) = choose|p: int, m: int|
                    0 <= p < g + 1 && 0 <= m < groups@[p].devices@.len() && spec_id_bytes(
                        #[trigger] groups@[p].devices@[m],
                    ) == b;
                if p < g {
                } else {
                    assert(0 <= m < ids@.len() && spec_id_bytes(ids@[m]) == b);
                }
            }
        }
        g = g + 1;
    }
    r
}

/// A mappings list without its trailing empty bundles.
pub open spec fn spec_trim(s: Seq<Mappings>) -> Seq<Mappings>
    decreases s.len(),
{
    if s.len() == 0 {
        s
    } else if s.last().spec_is_empty() {
        spec_trim(s.drop_last())
    } else {
        s
    }
}

/// Trimming strips exactly the trailing empty bundles: what remains is the
/// prefix up to the last non-empty one.
pub proof fn lemma_spec_trim_prefix(s: Seq<Mappings>, end: int)
    requires
        0 <= end <= s.len(),
        forall|j: int| end <= j < s.len() ==> s[j].spec_is_empty(),
        end > 0 ==> !s[end - 1].spec_is_empty(),
    ensures
        spec_trim(s) =~= s.subrange(0, end),
    decreases s.len(),
{
    if end == s.len() {
        if s.len() == 0 {
        } else {
            assert(!s.last().spec_is_empty());
            assert(s.subrange(0, end) =~= s);
        }
    } else {
        assert(s.last().spec_is_empty());
        lemma_spec_trim_prefix(s.drop_last(), end);
        assert(s.drop_last().subrange(0, end) =~= s.subrange(0, end));
    }
}

/// Trimming twice is trimming once.
pub proof fn lemma_spec_trim_idempotent(s: Seq<Mappings>)
    ensures
        spec_trim(spec_trim(s)) == spec_trim(s),
    decreases s.len(),
{
    if s.len() == 0 {
    } else if s.last().spec_is_empty() {
        lemma_spec_trim_idempotent(s.drop_last());
    }
}

/// Trims trailing empty bundles from a saved-controls request: the stored
/// value is the trimmed list, or nothing at all when every bundle is empty.
pub fn trim_default_controls(list: Vec<Mappings>) -> (r: Option<Vec<Mappings>>)
    ensures
        r is None <==> spec_trim(list@).len() == 0,
        r matches Some(p) ==> p@ == spec_trim(list@) && p@.len() > 0,
{
    let mut list = list;
    let ghost orig = list@;
    let mut end: usize = list.len();
    loop
        invariant
            end <= list@.len(),
            list@ == orig,
            forall|j: int| end <= j < list@.len() ==> list@[j].spec_is_empty(),
        ensures
            end <= list@.len(),
            list@ == orig,
            forall|j: int| end <= j < list@.len() ==> list@[j].spec_is_empty(),
            end > 0 ==> !list@[end - 1].spec_is_empty(),
        decreases end,
    {
        if end == 0 {
            break ;
        }
        if !list[end - 1].is_empty() {
            break ;
        }
        end = end - 1;
    }
    proof {
        lemma_spec_trim_prefix(orig, end as int);
    }
    if end == 0 {
        None
    } else {
        list.truncate(end);
        assert(list@ =~= spec_trim(orig));
        Some(list)
    }
}

/// Empties the published groups and devices, as the snapshot sent on
/// shutdown shows; the instance tag and saved controls stand.
pub fn clear_state(state: &mut State)
    ensures
        final(state).groups@.len() == 0,
        final(state).devices@.len() == 0,
        final(state).instance == old(state).instance,
        final(state).default_controls == old(state).default_controls,
{
    state.groups = Vec::new();
    state.devices = Vec::new();
}

} // verus!
