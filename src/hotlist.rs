//! Classification of the `hotlist` infolist into unread counts.
use vstd::prelude::*;
use crate::models::{Buffer, Detailed, DetailedHotlist, SimpleHotlist};
use crate::relay::{
    first_infolist, item_str, item_var, find_variable, read_str_variable, response_infolist, Infolist,
    InfolistItem, Message, Object,
};
use crate::text::{count_dots, segment_count};

verus! {

/// The item's priority, when its `priority` variable is an integer.
pub open spec fn item_priority(item: InfolistItem) -> Option<i32> {
    match item_var(item, "priority"@) {
        Some(Object::Int(v)) => Some(v),
        _ => None,
    }
}

/// The item's buffer name, when its `buffer_name` variable is a string.
pub open spec fn item_buffer(item: InfolistItem) -> Option<Seq<char>> {
    item_str(item, "buffer_name"@)
}

/// A thread buffer's name has more than three `.`-separated parts
/// (`service.workspace.#channel.thread`).
pub open spec fn is_thread_buffer(name: Seq<char>) -> bool {
    segment_count(name) > 3
}

/// Whether the item adds one to the count of priority `p`: priorities 2
/// and 3 always count, priority 1 only for a thread buffer.
pub open spec fn counted(item: InfolistItem, p: int) -> bool {
    &&& item_priority(item) == Some(p as i32)
    &&& 1 <= p <= 3
    &&& (p == 1 ==> item_buffer(item) is Some && is_thread_buffer(item_buffer(item)->0))
}

/// Number of items that count for priority `p`.
pub open spec fn bucket_count(items: Seq<InfolistItem>, p: int) -> nat
    decreases items.len(),
{
    if items.len() == 0 {
        0
    } else {
        bucket_count(items.drop_last(), p) + if counted(items.last(), p) { 1nat } else { 0nat }
    }
}

/// Buffer names of the items that count for priority `p`, in item order.
/// The detailed hotlist lists, and counts, only items with a buffer name.
pub open spec fn bucket_buffers(items: Seq<InfolistItem>, p: int) -> Seq<Seq<char>>
    decreases items.len(),
{
    if items.len() == 0 {
        Seq::empty()
    } else {
        bucket_buffers(items.drop_last(), p) + if counted(items.last(), p)
            && item_buffer(items.last()) is Some {
            seq![item_buffer(items.last())->0]
        } else {
            Seq::empty()
        }
    }
}

/// The count a hotlist reports for priority `p`: -1 when there is no infolist.
pub open spec fn hotlist_count(hotlist: Option<Infolist>, p: int) -> int {
    match hotlist {
        Some(il) => bucket_count(il.items@, p) as int,
        None => -1,
    }
}

/// The count a detailed hotlist reports for priority `p`: the number of
/// buffers it lists, -1 when there is no infolist.
pub open spec fn detailed_count(hotlist: Option<Infolist>, p: int) -> int {
    match hotlist {
        Some(il) => bucket_buffers(il.items@, p).len() as int,
        None => -1,
    }
}

/// The buffers a detailed hotlist lists for priority `p`: none without infolist.
pub open spec fn hotlist_buffers(hotlist: Option<Infolist>, p: int) -> Seq<Seq<char>> {
    match hotlist {
        Some(il) => bucket_buffers(il.items@, p),
        None => Seq::empty(),
    }
}

/// Whether the counts of a hotlist fit in the `i32` fields of the records.
pub open spec fn hotlist_fits(hotlist: Option<Infolist>) -> bool {
    hotlist is Some ==> hotlist->0.items@.len() <= i32::MAX
}

/// A count never exceeds the number of items.
pub proof fn lemma_bucket_count_bound(items: Seq<InfolistItem>, p: int)
    ensures
        bucket_count(items, p) <= items.len(),
    decreases items.len(),
{
    if items.len() > 0 {
        lemma_bucket_count_bound(items.drop_last(), p);
    }
}

/// A priority lists no more buffers than it counts.
pub proof fn lemma_bucket_buffers_bound(items: Seq<InfolistItem>, p: int)
    ensures
        bucket_buffers(items, p).len() <= bucket_count(items, p),
    decreases items.len(),
{
    if items.len() > 0 {
        lemma_bucket_buffers_bound(items.drop_last(), p);
    }
}

/// Reads the item's priority.
pub fn read_priority(item: &InfolistItem) -> (r: Option<i32>)
    ensures
        r == item_priority(*item),
{
    match find_variable(item, "priority") {
        Some(Object::Int(v)) => Some(*v),
        _ => None,
    }
}

/// Whether the item counts for `priority`, given that this is its priority.
fn counts_for(item: &InfolistItem, priority: u8) -> (r: bool)
    requires
        item_priority(*item) == Some(priority as i32),
        1 <= priority <= 3,
    ensures
        r == counted(*item, priority as int),
{
    if priority != 1 {
        true
    } else {
        match read_str_variable(item, "buffer_name") {
            Some(name) => count_dots(name.as_str()) >= 3,
            None => false,
        }
    }
}

/// Adds the item to the count of its priority `priority` when it counts.
pub fn count_simple(item: &InfolistItem, count: &mut i32, priority: u8)
    requires
        item_priority(*item) == Some(priority as i32),
        1 <= priority <= 3,
        *old(count) < i32::MAX,
    ensures
        *final(count) == *old(count) + if counted(*item, priority as int) { 1int } else { 0int },
{
    if counts_for(item, priority) {
        *count = *count + 1;
    }
}

/// Whether the item is listed, and counted, in the detailed hotlist for
/// priority `p`: it counts for `p` and names its buffer.
pub open spec fn listed(item: InfolistItem, p: int) -> bool {
    counted(item, p) && item_buffer(item) is Some
}

/// Adds the item to the count of its priority `priority`, and records its
/// buffer name, when it counts and names its buffer.
pub fn count_detailed(item: &InfolistItem, count: &mut i32, buffers: &mut Vec<Buffer>, priority: u8)
    requires
        item_priority(*item) == Some(priority as i32),
        1 <= priority <= 3,
        *old(count) < i32::MAX,
    ensures
        *final(count) == *old(count) + if listed(*item, priority as int) { 1int } else { 0int },
        final(buffers)@.map_values(|b: Buffer| b.buffer@) == old(buffers)@.map_values(
            |b: Buffer| b.buffer@,
        ) + if listed(*item, priority as int) {
            seq![item_buffer(*item)->0]
        } else {
            Seq::empty()
        },
{
    if counts_for(item, priority) {
        if let Some(name) = read_str_variable(item, "buffer_name") {
            *count = *count + 1;
            buffers.push(Buffer { buffer: name });
            assert(buffers@.map_values(|b: Buffer| b.buffer@) =~= old(buffers)@.map_values(
                |b: Buffer| b.buffer@,
            ) + seq![item_buffer(*item)->0]);
            return;
        }
    }
    assert(buffers@.map_values(|b: Buffer| b.buffer@) =~= old(buffers)@.map_values(
        |b: Buffer| b.buffer@,
    ) + Seq::empty());
}

/// Unread counts of a hotlist infolist; all -1 when there is none.
pub fn build_simple_hotlist(hotlist: &Option<Infolist>) -> (r: SimpleHotlist)
    requires
        hotlist_fits(*hotlist),
    ensures
        r.priority_1 == hotlist_count(*hotlist, 1),
        r.priority_2 == hotlist_count(*hotlist, 2),
        r.priority_3 == hotlist_count(*hotlist, 3),
        r.wf(),
{
    match hotlist {
        Some(il) => {
            let mut priority_1: i32 = 0;
            let mut priority_2: i32 = 0;
            let mut priority_3: i32 = 0;
            let n = il.items.len();
            let mut i: usize = 0;
            while i < n
                invariant
                    n == il.items@.len(),
                    n <= i32::MAX,
                    i <= n,
                    priority_1 == bucket_count(il.items@.subrange(0, i as int), 1),
                    priority_2 == bucket_count(il.items@.subrange(0, i as int), 2),
                    priority_3 == bucket_count(il.items@.subrange(0, i as int), 3),
                decreases n - i,
            {
                let item = &il.items[i];
                let ghost before = il.items@.subrange(0, i as int);
                let ghost after = il.items@.subrange(0, i + 1);
                assert(after.drop_last() == before);
                assert(after.last() == *item);
                proof {
                    lemma_bucket_count_bound(before, 1);
                    lemma_bucket_count_bound(before, 2);
                    lemma_bucket_count_bound(before, 3);
                }
                match read_priority(item) {
                    Some(3) => count_simple(item, &mut priority_3, 3),
                    Some(2) => count_simple(item, &mut priority_2, 2),
                    Some(1) => count_simple(item, &mut priority_1, 1),
                    _ => {},
                }
                i = i + 1;
            }
            assert(il.items@.subrange(0, n as int) == il.items@);
            SimpleHotlist { priority_1, priority_2, priority_3 }
        },
        None => SimpleHotlist { priority_1: -1, priority_2: -1, priority_3: -1 },
    }
}

/// Whether a detailed record matches the hotlist for priority `p`.
pub open spec fn detailed_matches(d: Detailed, hotlist: Option<Infolist>, p: int) -> bool {
    &&& d.count == detailed_count(hotlist, p)
    &&& d.names() == hotlist_buffers(hotlist, p)
}

/// Unread counts of a hotlist infolist with the buffers behind them;
/// count -1 and no buffers for each priority when there is no infolist.
pub fn build_detailed_hotlist(hotlist: &Option<Infolist>) -> (r: DetailedHotlist)
    requires
        hotlist_fits(*hotlist),
    ensures
        detailed_matches(r.priority_1, *hotlist, 1),
        detailed_matches(r.priority_2, *hotlist, 2),
        detailed_matches(r.priority_3, *hotlist, 3),
        r.wf(),
{
    match hotlist {
        Some(il) => {
            let mut priority_1: i32 = 0;
            let mut priority_2: i32 = 0;
            let mut priority_3: i32 = 0;
            let mut buffers_1: Vec<Buffer> = Vec::new();
            let mut buffers_2: Vec<Buffer> = Vec::new();
            let mut buffers_3: Vec<Buffer> = Vec::new();
            let n = il.items.len();
            let mut i: usize = 0;
            assert(buffers_1@.map_values(|b: Buffer| b.buffer@) =~= Seq::empty());
            assert(buffers_2@.map_values(|b: Buffer| b.buffer@) =~= Seq::empty());
            assert(buffers_3@.map_values(|b: Buffer| b.buffer@) =~= Seq::empty());
            while i < n
                invariant
                    n == il.items@.len(),
                    n <= i32::MAX,
                    i <= n,
                    priority_1 == bucket_buffers(il.items@.subrange(0, i as int), 1).len(),
                    priority_2 == bucket_buffers(il.items@.subrange(0, i as int), 2).len(),
                    priority_3 == bucket_buffers(il.items@.subrange(0, i as int), 3).len(),
                    buffers_1@.map_values(|b: Buffer| b.buffer@) == bucket_buffers(
                        il.items@.subrange(0, i as int),
                        1,
                    ),
                    buffers_2@.map_values(|b: Buffer| b.buffer@) == bucket_buffers(
                        il.items@.subrange(0, i as int),
                        2,
                    ),
                    buffers_3@.map_values(|b: Buffer| b.buffer@) == bucket_buffers(
                        il.items@.subrange(0, i as int),
                        3,
                    ),
                decreases n - i,
            {
                let item = &il.items[i];
                let ghost before = il.items@.subrange(0, i as int);
                let ghost after = il.items@.subrange(0, i + 1);
                assert(after.drop_last() == before);
                assert(after.last() == *item);
                proof {
                    lemma_bucket_count_bound(before, 1);
                    lemma_bucket_count_bound(before, 2);
                    lemma_bucket_count_bound(before, 3);
                    lemma_bucket_buffers_bound(before, 1);
                    lemma_bucket_buffers_bound(before, 2);
                    lemma_bucket_buffers_bound(before, 3);
                }
                match read_priority(item) {
                    Some(3) => count_detailed(item, &mut priority_3, &mut buffers_3, 3),
                    Some(2) => count_detailed(item, &mut priority_2, &mut buffers_2, 2),
                    Some(1) => count_detailed(item, &mut priority_1, &mut buffers_1, 1),
                    _ => {},
                }
                i = i + 1;
            }
            assert(il.items@.subrange(0, n as int) == il.items@);
            DetailedHotlist {
                priority_1: Detailed { count: priority_1, items: buffers_1 },
                priority_2: Detailed { count: priority_2, items: buffers_2 },
                priority_3: Detailed { count: priority_3, items: buffers_3 },
            }
        },
        None => {
            let r = DetailedHotlist {
                priority_1: Detailed { count: -1, items: Vec::new() },
                priority_2: Detailed { count: -1, items: Vec::new() },
                priority_3: Detailed { count: -1, items: Vec::new() },
            };
            assert(r.priority_1.names() =~= Seq::empty());
            assert(r.priority_2.names() =~= Seq::empty());
            assert(r.priority_3.names() =~= Seq::empty());
            r
        },
    }
}

/// Unread counts of a relay response to a `hotlist` infolist request; all
/// -1 when the response is missing or does not carry an infolist.
pub fn get_simple_hotlist(response: Option<Message>) -> (r: SimpleHotlist)
    requires
        hotlist_fits(response_infolist(response)),
    ensures
        r.priority_1 == hotlist_count(response_infolist(response), 1),
        r.priority_2 == hotlist_count(response_infolist(response), 2),
        r.priority_3 == hotlist_count(response_infolist(response), 3),
        r.wf(),
{
    let hotlist = first_infolist(response);
    build_simple_hotlist(&hotlist)
}

/// Detailed hotlist of a relay response to a `hotlist` infolist request;
/// -1 and no buffers per priority when it does not carry an infolist.
pub fn get_detailed_hotlist(response: Option<Message>) -> (r: DetailedHotlist)
    requires
        hotlist_fits(response_infolist(response)),
    ensures
        detailed_matches(r.priority_1, response_infolist(response), 1),
        detailed_matches(r.priority_2, response_infolist(response), 2),
        detailed_matches(r.priority_3, response_infolist(response), 3),
        r.wf(),
{
    let hotlist = first_infolist(response);
    build_detailed_hotlist(&hotlist)
}

/// Priorities 2 and 3 count every item of that priority, whatever its
/// buffer name.
pub proof fn lemma_high_priority_counts_every_item(items: Seq<InfolistItem>, p: int)
    requires
        p == 2 || p == 3,
    ensures
        bucket_count(items, p) == items.filter(
            |it: InfolistItem| item_priority(it) == Some(p as i32),
        ).len(),
    decreases items.len(),
{
    reveal(Seq::filter);
    if items.len() > 0 {
        lemma_high_priority_counts_every_item(items.drop_last(), p);
    }
}

proof fn lemma_bucket_buffers_len(items: Seq<InfolistItem>, p: int)
    requires
        1 <= p <= 3,
        p == 1 || forall|i: int|
            0 <= i < items.len() && item_priority(#[trigger] items[i]) == Some(p as i32)
                ==> item_buffer(items[i]) is Some,
    ensures
        bucket_buffers(items, p).len() == bucket_count(items, p),
    decreases items.len(),
{
    if items.len() > 0 {
        let prefix = items.drop_last();
        if p != 1 {
            assert forall|i: int|
                0 <= i < prefix.len() && item_priority(#[trigger] prefix[i]) == Some(p as i32)
                    implies item_buffer(prefix[i]) is Some by {
                assert(prefix[i] == items[i]);
                assert(item_priority(items[i]) == Some(p as i32));
            }
            assert(items.last() == items[items.len() - 1]);
        }
        lemma_bucket_buffers_len(prefix, p);
    }
}

/// In every detailed hotlist built from an infolist, each priority's count
/// is the number of buffers it lists.
pub proof fn lemma_detailed_length_is_count(d: DetailedHotlist, hotlist: Option<Infolist>)
    requires
        hotlist is Some,
        detailed_matches(d.priority_1, hotlist, 1),
        detailed_matches(d.priority_2, hotlist, 2),
        detailed_matches(d.priority_3, hotlist, 3),
    ensures
        d.priority_1.count == d.priority_1.items@.len(),
        d.priority_2.count == d.priority_2.items@.len(),
        d.priority_3.count == d.priority_3.items@.len(),
{
    assert(d.priority_1.names().len() == d.priority_1.items@.len());
    assert(d.priority_2.names().len() == d.priority_2.items@.len());
    assert(d.priority_3.names().len() == d.priority_3.items@.len());
}

/// The detailed and simple hotlists give the same count for a priority
/// whenever every item of that priority names its buffer (always so for
/// priority 1, whose items only count with a thread buffer name).
pub proof fn lemma_detailed_count_is_simple_count(hotlist: Option<Infolist>, p: int)
    requires
        1 <= p <= 3,
        p == 1 || hotlist is None || forall|i: int|
            0 <= i < hotlist->0.items@.len() && item_priority(
                #[trigger] hotlist->0.items@[i],
            ) == Some(p as i32) ==> item_buffer(hotlist->0.items@[i]) is Some,
    ensures
        detailed_count(hotlist, p) == hotlist_count(hotlist, p),
{
    if hotlist is Some {
        lemma_bucket_buffers_len(hotlist->0.items@, p);
    }
}

/// A response without an infolist reads as "unknown" (-1, no buffers) for
/// every priority, while any infolist, even an empty one, gives real
/// counts of zero or more.
pub proof fn lemma_unknown_only_without_infolist(response: Option<Message>, p: int)
    ensures
        response_infolist(response) is None ==> hotlist_count(response_infolist(response), p) == -1
            && hotlist_buffers(response_infolist(response), p) == Seq::<Seq<char>>::empty(),
        response_infolist(response) is None ==> detailed_count(response_infolist(response), p) == -1,
        response_infolist(response) is Some ==> hotlist_count(response_infolist(response), p) >= 0
            && detailed_count(response_infolist(response), p) >= 0,
{
}

/// An item of priority 2 or 3 always counts in the simple hotlist,
/// whether or not it names a buffer.
pub proof fn lemma_high_priority_item_counts(item: InfolistItem, p: int)
    requires
        p == 2 || p == 3,
        item_priority(item) == Some(p as i32),
    ensures
        counted(item, p),
{
}

/// An item of priority 1 counts exactly when its buffer name has more
/// than three `.`-separated parts (at least three dots).
pub proof fn lemma_priority_one_counts_thread_buffers(item: InfolistItem)
    requires
        item_priority(item) == Some(1i32),
    ensures
        counted(item, 1) <==> (item_buffer(item) is Some && crate::text::dot_count(
            item_buffer(item)->0,
        ) >= 3),
{
}

} // verus!
